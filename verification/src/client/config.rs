//! Connection settings and the builder that validates them.

use crate::client::nvisy::NvisyClient;
use crate::error::Error;
use crate::error::HttpError;
use crate::error::NvisyConfigBuilderError;
use crate::text::blank;
use crate::text::first_chars;
use crate::text::is_blank;
use crate::text::is_prefix;
use crate::text::join2;
use crate::text::starts_with;
use crate::trusted::quoted;
use crate::trusted::quoted_text;
use crate::trusted::span;
use crate::trusted::span_text;
use vstd::prelude::*;
use vstd::string::StrSliceExecFns;
use vstd::string::StringExecFns;

verus! {

/// The API endpoint that a configuration uses unless it is given another.
pub const DEFAULT_BASE_URL: &'static str = "https://api.nvisy.com";

/// The request timeout, in seconds, that a configuration uses unless it is
/// given another.
pub const DEFAULT_TIMEOUT_SECS: u64 = 30;

/// The longest request timeout, in seconds, that a configuration accepts.
pub const MAX_TIMEOUT_SECS: u64 = 300;

/// Nanoseconds in one second.
pub const NANOS_PER_SEC: u32 = 1_000_000_000;

/// How many characters of a credential its masked form shows.
pub const MASK_KEEPS: usize = 4;

/// What the masked form of a credential shows in place of the rest.
pub const MASK: &'static str = "****";

/// A span of time: whole seconds and a fraction below one second.
#[derive(Clone, Copy, Debug, PartialEq, Eq, Structural)]
pub struct Timeout {
    secs: u64,
    nanos: u32,
}

impl Timeout {
    #[verifier::type_invariant]
    spec fn normal(self) -> bool {
        self.nanos < NANOS_PER_SEC
    }

    /// The whole seconds of the span.
    pub closed spec fn whole_secs(self) -> u64 {
        self.secs
    }

    /// The nanoseconds of the span beyond its whole seconds.
    pub closed spec fn sub_nanos(self) -> u32 {
        self.nanos
    }

    /// The span in nanoseconds.
    pub open spec fn total_nanos(self) -> nat {
        self.whole_secs() as nat * NANOS_PER_SEC as nat + self.sub_nanos() as nat
    }

    /// A span of `secs` seconds and `nanos` nanoseconds. Nanoseconds beyond
    /// one second are carried into the seconds; `None` where that overflows.
    pub fn new(secs: u64, nanos: u32) -> (made: Option<Timeout>)
        ensures
            made is Some <==> secs + nanos / NANOS_PER_SEC <= u64::MAX,
            made matches Some(t) ==> t.total_nanos() == secs as nat * NANOS_PER_SEC as nat
                + nanos as nat && t.sub_nanos() < NANOS_PER_SEC,
    {
        let carry: u64 = (nanos / NANOS_PER_SEC) as u64;
        let rest: u32 = nanos % NANOS_PER_SEC;
        if secs > u64::MAX - carry {
            None
        } else {
            assert((secs + carry) * NANOS_PER_SEC as nat + rest as nat == secs as nat
                * NANOS_PER_SEC as nat + nanos as nat) by (nonlinear_arith)
                requires
                    carry == nanos / NANOS_PER_SEC,
                    rest == nanos % NANOS_PER_SEC,
                    NANOS_PER_SEC == 1_000_000_000,
            ;
            Some(Timeout { secs: secs + carry, nanos: rest })
        }
    }

    /// A span of `secs` whole seconds.
    pub fn from_secs(secs: u64) -> (made: Timeout)
        ensures
            made.whole_secs() == secs,
            made.sub_nanos() == 0,
    {
        Timeout { secs, nanos: 0 }
    }

    /// A span of `millis` milliseconds.
    pub fn from_millis(millis: u64) -> (made: Timeout)
        ensures
            made.total_nanos() == millis as nat * 1_000_000,
            made.sub_nanos() < NANOS_PER_SEC,
    {
        let secs: u64 = millis / 1000;
        let nanos: u32 = ((millis % 1000) as u32) * 1_000_000;
        assert(secs as nat * 1_000_000_000 + nanos as nat == millis as nat * 1_000_000)
            by (nonlinear_arith)
            requires
                secs == millis / 1000,
                nanos == (millis % 1000) * 1_000_000,
        ;
        Timeout { secs, nanos }
    }

    /// The whole seconds of the span.
    pub fn as_secs(&self) -> (secs: u64)
        ensures
            secs == self.whole_secs(),
    {
        self.secs
    }

    /// The nanoseconds of the span beyond its whole seconds.
    pub fn subsec_nanos(&self) -> (nanos: u32)
        ensures
            nanos == self.sub_nanos(),
            nanos < NANOS_PER_SEC,
    {
        proof {
            use_type_invariant(self);
        }
        self.nanos
    }

    /// Whether the span is empty.
    pub fn is_zero(&self) -> (empty: bool)
        ensures
            empty == (self.total_nanos() == 0),
    {
        assert(self.secs as nat * NANOS_PER_SEC as nat == 0 <==> self.secs == 0)
            by (nonlinear_arith)
            requires
                NANOS_PER_SEC == 1_000_000_000,
        ;
        self.secs == 0 && self.nanos == 0
    }

    /// Whether the span is longer than `secs` seconds.
    pub fn exceeds_secs(&self, secs: u64) -> (longer: bool)
        ensures
            longer == (self.total_nanos() > secs as nat * NANOS_PER_SEC as nat),
    {
        proof {
            use_type_invariant(self);
        }
        let mine = self.secs;
        assert(mine > secs ==> mine as nat * NANOS_PER_SEC as nat >= secs as nat
            * NANOS_PER_SEC as nat + NANOS_PER_SEC as nat) by (nonlinear_arith);
        assert(mine < secs ==> mine as nat * NANOS_PER_SEC as nat + NANOS_PER_SEC as nat
            <= secs as nat * NANOS_PER_SEC as nat) by (nonlinear_arith);
        self.secs > secs || (self.secs == secs && self.nanos > 0)
    }
}

/// Whether a credential is acceptable: it holds more than white space.
pub open spec fn acceptable_api_key(api_key: Seq<char>) -> bool {
    !blank(api_key)
}

/// Whether an endpoint is acceptable: it begins with an HTTP scheme.
pub open spec fn acceptable_base_url(base_url: Seq<char>) -> bool {
    is_prefix("http://"@, base_url) || is_prefix("https://"@, base_url)
}

/// Whether a request timeout is acceptable: above zero and within the
/// ceiling.
pub open spec fn acceptable_timeout(timeout: Timeout) -> bool {
    0 < timeout.total_nanos() <= MAX_TIMEOUT_SECS as nat * NANOS_PER_SEC as nat
}

/// A credential as it may be shown: its first characters and a
/// placeholder, or the placeholder alone where it is that short.
pub open spec fn masked(api_key: Seq<char>) -> Seq<char> {
    if api_key.len() > MASK_KEEPS {
        api_key.subrange(0, MASK_KEEPS as int) + MASK@
    } else {
        MASK@
    }
}

/// Settings as one line for a log, from the name of what holds them and
/// each setting as it is written.
pub open spec fn assembled(
    name: Seq<char>,
    api_key: Seq<char>,
    base_url: Seq<char>,
    timeout: Seq<char>,
) -> Seq<char> {
    name + " { api_key: "@ + api_key + ", base_url: "@ + base_url + ", timeout: "@ + timeout
        + " }"@
}

/// How settings are written for a log: the name of what holds them, the
/// masked credential and the endpoint in quotes, and the timeout.
pub open spec fn rendering(
    name: Seq<char>,
    masked_api_key: Seq<char>,
    base_url: Seq<char>,
    timeout: Timeout,
) -> Seq<char> {
    assembled(
        name,
        quoted_text(masked_api_key),
        quoted_text(base_url),
        span_text(timeout.whole_secs(), timeout.sub_nanos()),
    )
}

/// What a configuration holds.
pub struct ConfigView {
    /// The credential.
    pub api_key: Seq<char>,
    /// The endpoint.
    pub base_url: Seq<char>,
    /// The request timeout.
    pub timeout: Timeout,
    /// The transport to use in place of a new one.
    pub client: Option<reqwest::Client>,
}

/// The settings of a client: credential, endpoint, request timeout, and
/// optionally a transport to use. Every configuration is valid: the only
/// way to one is `NvisyConfigBuilder::build`.
pub struct NvisyConfig {
    api_key: String,
    base_url: String,
    timeout: Timeout,
    client: Option<reqwest::Client>,
}

impl Clone for NvisyConfig {
    fn clone(&self) -> (copy: NvisyConfig)
        ensures
            copy@ == self@,
    {
        proof {
            use_type_invariant(self);
        }
        NvisyConfig {
            api_key: self.api_key.clone(),
            base_url: self.base_url.clone(),
            timeout: self.timeout,
            client: self.client(),
        }
    }
}

impl View for NvisyConfig {
    type V = ConfigView;

    closed spec fn view(&self) -> ConfigView {
        ConfigView {
            api_key: self.api_key@,
            base_url: self.base_url@,
            timeout: self.timeout,
            client: self.client,
        }
    }
}

/// What a builder holds: each setting as given, or `None`.
pub struct BuilderView {
    /// The credential.
    pub api_key: Option<Seq<char>>,
    /// The endpoint.
    pub base_url: Option<Seq<char>>,
    /// The request timeout.
    pub timeout: Option<Timeout>,
    /// The transport to use in place of a new one.
    pub client: Option<Option<reqwest::Client>>,
}

/// Collects the settings of a configuration and validates them.
#[derive(Clone)]
pub struct NvisyConfigBuilder {
    api_key: Option<String>,
    base_url: Option<String>,
    timeout: Option<Timeout>,
    client: Option<Option<reqwest::Client>>,
}

impl View for NvisyConfigBuilder {
    type V = BuilderView;

    closed spec fn view(&self) -> BuilderView {
        BuilderView {
            api_key: match self.api_key {
                Some(given) => Some(given@),
                None => None,
            },
            base_url: match self.base_url {
                Some(given) => Some(given@),
                None => None,
            },
            timeout: self.timeout,
            client: self.client,
        }
    }
}

/// The reason for which the settings given so far are refused, if any: the
/// first rule that one of them breaks. A setting that was not given breaks
/// no rule.
pub open spec fn refusal(given: BuilderView) -> Option<Seq<char>> {
    if given.api_key matches Some(api_key) && !acceptable_api_key(api_key) {
        Some("API key cannot be empty"@)
    } else if given.base_url matches Some(base_url) && !acceptable_base_url(base_url) {
        Some("Base URL must start with http:// or https://"@)
    } else if given.timeout matches Some(timeout) && timeout.total_nanos() == 0 {
        Some("Timeout must be greater than 0"@)
    } else if given.timeout matches Some(timeout) && !acceptable_timeout(timeout) {
        Some("Timeout cannot exceed 300 seconds (5 minutes)"@)
    } else {
        None
    }
}

/// The settings given so far are refused exactly when one of them is not
/// acceptable: a blank credential, an endpoint without an HTTP scheme, or
/// a timeout of zero or above the ceiling. Settings that were not given
/// are never the reason.
pub proof fn lemma_refused_iff_unacceptable(given: BuilderView)
    ensures
        refusal(given) is None <==> {
            &&& given.api_key matches Some(api_key) ==> acceptable_api_key(api_key)
            &&& given.base_url matches Some(base_url) ==> acceptable_base_url(base_url)
            &&& given.timeout matches Some(timeout) ==> acceptable_timeout(timeout)
        },
{
}

/// Whether `timeout` is the default request timeout.
pub open spec fn is_default_timeout(timeout: Timeout) -> bool {
    timeout.whole_secs() == DEFAULT_TIMEOUT_SECS && timeout.sub_nanos() == 0
}

impl Default for NvisyConfigBuilder {
    fn default() -> (builder: NvisyConfigBuilder)
        ensures
            builder@ == (BuilderView { api_key: None, base_url: None, timeout: None, client: None }),
    {
        NvisyConfigBuilder { api_key: None, base_url: None, timeout: None, client: None }
    }
}

impl NvisyConfigBuilder {
    /// The endpoint of a configuration that is given none.
    pub fn default_base_url() -> (base_url: String)
        ensures
            base_url@ == DEFAULT_BASE_URL@,
    {
        String::from_str(DEFAULT_BASE_URL)
    }

    /// The request timeout of a configuration that is given none.
    pub fn default_timeout() -> (timeout: Timeout)
        ensures
            is_default_timeout(timeout),
    {
        Timeout::from_secs(DEFAULT_TIMEOUT_SECS)
    }

    /// Sets the credential.
    pub fn with_api_key(self, api_key: &str) -> (builder: NvisyConfigBuilder)
        ensures
            builder@ == (BuilderView { api_key: Some(api_key@), ..self@ }),
    {
        let mut builder = self;
        builder.api_key = Some(String::from_str(api_key));
        builder
    }

    /// Sets the endpoint.
    pub fn with_base_url(self, base_url: &str) -> (builder: NvisyConfigBuilder)
        ensures
            builder@ == (BuilderView { base_url: Some(base_url@), ..self@ }),
    {
        let mut builder = self;
        builder.base_url = Some(String::from_str(base_url));
        builder
    }

    /// Sets the request timeout.
    pub fn with_timeout(self, timeout: Timeout) -> (builder: NvisyConfigBuilder)
        ensures
            builder@ == (BuilderView { timeout: Some(timeout), ..self@ }),
    {
        let mut builder = self;
        builder.timeout = Some(timeout);
        builder
    }

    /// Sets the request timeout, in whole seconds.
    pub fn with_timeout_secs(self, secs: u64) -> (builder: NvisyConfigBuilder)
        ensures
            builder@.api_key == self@.api_key,
            builder@.base_url == self@.base_url,
            builder@.client == self@.client,
            builder@.timeout matches Some(timeout) && timeout.whole_secs() == secs
                && timeout.sub_nanos() == 0,
    {
        self.with_timeout(Timeout::from_secs(secs))
    }

    /// Sets the transport to use in place of a new one.
    pub fn with_client(self, client: reqwest::Client) -> (builder: NvisyConfigBuilder)
        ensures
            builder@ == (BuilderView { client: Some(Some(client)), ..self@ }),
    {
        let mut builder = self;
        builder.client = Some(Some(client));
        builder
    }

    /// Holds the settings given so far to the rules, and says why the first
    /// setting that breaks one is refused.
    pub fn validate_config(&self) -> (outcome: Result<(), String>)
        ensures
            match outcome {
                Ok(_) => refusal(self@) is None,
                Err(reason) => refusal(self@) == Some(reason@),
            },
    {
        match &self.api_key {
            Some(api_key) => {
                if is_blank(api_key.as_str()) {
                    return Err(String::from_str("API key cannot be empty"));
                }
            },
            None => {},
        }
        match &self.base_url {
            Some(base_url) => {
                if !starts_with(base_url.as_str(), "http://") && !starts_with(
                    base_url.as_str(),
                    "https://",
                ) {
                    return Err(String::from_str("Base URL must start with http:// or https://"));
                }
            },
            None => {},
        }
        match &self.timeout {
            Some(timeout) => {
                if timeout.is_zero() {
                    return Err(String::from_str("Timeout must be greater than 0"));
                }
                if timeout.exceeds_secs(MAX_TIMEOUT_SECS) {
                    return Err(String::from_str("Timeout cannot exceed 300 seconds (5 minutes)"));
                }
            },
            None => {},
        }
        Ok(())
    }

    /// Builds the configuration. A setting that breaks a rule fails the
    /// build with the reason; after that, so does a missing credential. In
    /// every other case the configuration holds each setting as given, and
    /// the default where none was given.
    pub fn build(self) -> (outcome: Result<NvisyConfig, NvisyConfigBuilderError>)
        ensures
            match outcome {
                Ok(config) => {
                    &&& refusal(self@) is None
                    &&& self@.api_key is Some
                    &&& config@.api_key == self@.api_key->0
                    &&& config@.base_url == match self@.base_url {
                        Some(base_url) => base_url,
                        None => DEFAULT_BASE_URL@,
                    }
                    &&& match self@.timeout {
                        Some(timeout) => config@.timeout == timeout,
                        None => is_default_timeout(config@.timeout),
                    }
                    &&& config@.client == match self@.client {
                        Some(client) => client,
                        None => None,
                    }
                },
                Err(NvisyConfigBuilderError::ValidationError(reason)) => refusal(self@) == Some(
                    reason@,
                ),
                Err(NvisyConfigBuilderError::UninitializedField(name)) => {
                    &&& refusal(self@) is None
                    &&& self@.api_key is None
                    &&& name@ == "api_key"@
                },
            },
    {
        match self.validate_config() {
            Ok(_) => {},
            Err(reason) => {
                return Err(NvisyConfigBuilderError::ValidationError(reason));
            },
        }
        let api_key = match self.api_key {
            Some(api_key) => api_key,
            None => {
                return Err(NvisyConfigBuilderError::UninitializedField("api_key"));
            },
        };
        let base_url = match self.base_url {
            Some(base_url) => base_url,
            None => NvisyConfigBuilder::default_base_url(),
        };
        let timeout = match self.timeout {
            Some(timeout) => timeout,
            None => NvisyConfigBuilder::default_timeout(),
        };
        let client = match self.client {
            Some(client) => client,
            None => None,
        };
        proof {
            use_type_invariant(&timeout);
            reveal_strlit("https://api.nvisy.com");
            reveal_strlit("https://");
            assert(DEFAULT_BASE_URL@.subrange(0, 8) =~= "https://"@);
        }
        Ok(NvisyConfig { api_key, base_url, timeout, client })
    }
}

impl NvisyConfigBuilder {
    /// Builds the configuration and a client with it, in one step: fails
    /// as `build` does, and after that as `NvisyClient::new` does.
    pub fn build_client(self) -> (outcome: Result<NvisyClient, Error>)
        ensures
            refusal(self@) is None && self@.api_key is Some && (self@.client matches Some(
                Some(_),
            )) ==> outcome is Ok,
            match outcome {
                Ok(client) => {
                    &&& refusal(self@) is None
                    &&& self@.api_key is Some
                    &&& client.settings().api_key == self@.api_key->0
                    &&& client.settings().base_url == match self@.base_url {
                        Some(base_url) => base_url,
                        None => DEFAULT_BASE_URL@,
                    }
                    &&& match self@.timeout {
                        Some(timeout) => client.settings().timeout == timeout,
                        None => is_default_timeout(client.settings().timeout),
                    }
                },
                Err(Error::Config(NvisyConfigBuilderError::ValidationError(reason))) => refusal(
                    self@,
                ) == Some(reason@),
                Err(Error::Config(NvisyConfigBuilderError::UninitializedField(name))) => refusal(
                    self@,
                ) is None && self@.api_key is None && name@ == "api_key"@,
                Err(error) => refusal(self@) is None && self@.api_key is Some && error
                    matches Error::Http(HttpError::Transport(_)),
            },
    {
        match self.build() {
            Ok(config) => NvisyClient::new(config),
            Err(cause) => Err(Error::Config(cause)),
        }
    }
}

impl NvisyConfig {
    #[verifier::type_invariant]
    spec fn valid(self) -> bool {
        &&& acceptable_api_key(self.api_key@)
        &&& acceptable_base_url(self.base_url@)
        &&& acceptable_timeout(self.timeout)
        &&& self.timeout.sub_nanos() < NANOS_PER_SEC
    }

    /// A builder that holds no setting yet.
    pub fn builder() -> (builder: NvisyConfigBuilder)
        ensures
            builder@ == (BuilderView { api_key: None, base_url: None, timeout: None, client: None }),
    {
        NvisyConfigBuilder::default()
    }

    /// A client with these settings.
    pub fn build_client(self) -> (outcome: Result<NvisyClient, Error>)
        ensures
            self@.client is Some ==> outcome is Ok,
            match outcome {
                Ok(client) => client.settings() == self@ && (self@.client matches Some(given)
                    ==> client.transport() == given),
                Err(error) => self@.client is None && error matches Error::Http(
                    HttpError::Transport(_),
                ),
            },
    {
        NvisyClient::new(self)
    }

    /// The credential.
    pub fn api_key(&self) -> (api_key: &str)
        ensures
            api_key@ == self@.api_key,
            acceptable_api_key(api_key@),
    {
        proof {
            use_type_invariant(self);
        }
        self.api_key.as_str()
    }

    /// The credential as it may be shown: its first four characters and
    /// `****`, or `****` alone where it has four characters or fewer.
    pub fn masked_api_key(&self) -> (shown: String)
        ensures
            shown@ == masked(self@.api_key),
    {
        let api_key = self.api_key.as_str();
        if api_key.unicode_len() > MASK_KEEPS {
            let kept = first_chars(api_key, MASK_KEEPS);
            join2(kept, MASK)
        } else {
            String::from_str(MASK)
        }
    }

    /// The endpoint.
    pub fn base_url(&self) -> (base_url: &str)
        ensures
            base_url@ == self@.base_url,
            acceptable_base_url(base_url@),
    {
        proof {
            use_type_invariant(self);
        }
        self.base_url.as_str()
    }

    /// The request timeout.
    pub fn timeout(&self) -> (timeout: Timeout)
        ensures
            timeout == self@.timeout,
            acceptable_timeout(timeout),
            timeout.sub_nanos() < NANOS_PER_SEC,
    {
        proof {
            use_type_invariant(self);
        }
        self.timeout
    }

    /// A handle to the transport to use in place of a new one, if one was
    /// given.
    pub fn client(&self) -> (client: Option<reqwest::Client>)
        ensures
            client == self@.client,
    {
        match &self.client {
            Some(client) => Some(client.clone()),
            None => None,
        }
    }

    /// The settings as they are written for a log, with the credential
    /// masked.
    pub fn debug_text(&self) -> (text: String)
        ensures
            text@ == rendering(
                "NvisyConfig"@,
                masked(self@.api_key),
                self@.base_url,
                self@.timeout,
            ),
    {
        render("NvisyConfig", self)
    }
}

/// Writes the settings of `config` for a log, under `name`.
pub(crate) fn render(name: &str, config: &NvisyConfig) -> (text: String)
    ensures
        text@ == rendering(name@, masked(config@.api_key), config@.base_url, config@.timeout),
{
    let shown = config.masked_api_key();
    let api_key = quoted(shown.as_str());
    let base_url = quoted(config.base_url());
    let timeout = config.timeout();
    let waits = span(timeout.as_secs(), timeout.subsec_nanos());
    assemble(name, api_key.as_str(), base_url.as_str(), waits.as_str())
}

/// Writes settings as one line for a log, from the name of what holds them
/// and each setting as it is written.
pub fn assemble(name: &str, api_key: &str, base_url: &str, timeout: &str) -> (text: String)
    ensures
        text@ == assembled(name@, api_key@, base_url@, timeout@),
{
    let mut text = String::from_str(name);
    text.append(" { api_key: ");
    text.append(api_key);
    text.append(", base_url: ");
    text.append(base_url);
    text.append(", timeout: ");
    text.append(timeout);
    text.append(" }");
    text
}

/// The masked form of a credential shows at most its first four
/// characters: credentials of more than four characters that agree on
/// those are masked alike, and so are all credentials of four or fewer.
pub proof fn lemma_masked_shows_four(first: Seq<char>, second: Seq<char>)
    requires
        first.len() > MASK_KEEPS <==> second.len() > MASK_KEEPS,
        first.len() > MASK_KEEPS ==> first.subrange(0, MASK_KEEPS as int) == second.subrange(
            0,
            MASK_KEEPS as int,
        ),
    ensures
        masked(first) == masked(second),
{
}

/// What is written for a log shows of a credential at most its first four
/// characters: under the same endpoint and timeout, credentials of more
/// than four characters that agree on those are written alike, and so are
/// all credentials of four or fewer.
pub proof fn lemma_rendering_hides_api_key(
    name: Seq<char>,
    first: Seq<char>,
    second: Seq<char>,
    base_url: Seq<char>,
    timeout: Timeout,
)
    requires
        first.len() > MASK_KEEPS <==> second.len() > MASK_KEEPS,
        first.len() > MASK_KEEPS ==> first.subrange(0, MASK_KEEPS as int) == second.subrange(
            0,
            MASK_KEEPS as int,
        ),
    ensures
        rendering(name, masked(first), base_url, timeout) == rendering(
            name,
            masked(second),
            base_url,
            timeout,
        ),
{
    lemma_masked_shows_four(first, second);
}

} // verus!
