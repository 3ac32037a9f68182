//! The operations of the API, one capability per kind of resource. Each
//! operation of a client gives the request that performs it.

pub mod documents;
pub mod files;
pub mod health;
pub mod integrations;
pub mod webhooks;
pub mod workspaces;

pub use documents::DocumentService;
pub use files::FilesService;
pub use files::ListFilesOptions;
pub use health::HealthService;
pub use integrations::IntegrationsService;
pub use integrations::ListIntegrationsOptions;
pub use webhooks::ListWebhooksOptions;
pub use webhooks::WebhooksService;
pub use workspaces::ListWorkspacesOptions;
pub use workspaces::WorkspacesService;

use crate::model::Uuid;
use crate::text::join3;
use crate::text::pairs_text;
use crate::text::signed_decimal;
use crate::text::signed_decimal_text;
use crate::trusted::hyphenated_text;
use vstd::prelude::*;
use vstd::string::StringExecFns;

verus! {

/// The path that names the resource `id` between `before` and `after`.
pub open spec fn path_of(before: Seq<char>, id: Uuid, after: Seq<char>) -> Seq<char> {
    before + hyphenated_text(id.value) + after
}

/// Writes the path that names the resource `id` between `before` and
/// `after`.
pub fn resource_path(before: &str, id: Uuid, after: &str) -> (path: String)
    ensures
        path@ == path_of(before@, id, after@),
{
    let name = id.to_text();
    join3(before, name.as_str(), after)
}

/// The query of one page of a list that is walked by cursor: where the
/// page begins, if that is set, then how many items it holds at most, if
/// that is set.
pub open spec fn cursor_query(after: Option<String>, limit: Option<i32>) -> Seq<
    (Seq<char>, Seq<char>),
> {
    let begin = match after {
        Some(cursor) => seq![("after"@, cursor@)],
        None => Seq::empty(),
    };
    match limit {
        Some(most) => begin.push(("limit"@, signed_decimal_text(most as int))),
        None => begin,
    }
}

/// Appends to `params` the query of one page of a list that is walked by
/// cursor.
pub fn push_cursor_params(
    params: &mut Vec<(String, String)>,
    after: &Option<String>,
    limit: Option<i32>,
)
    ensures
        pairs_text(final(params)@) == pairs_text(old(params)@)
            + cursor_query(*after, limit),
{
    match after {
        Some(cursor) => {
            params.push((String::from_str("after"), cursor.clone()));
        },
        None => {},
    }
    match limit {
        Some(most) => {
            params.push((String::from_str("limit"), signed_decimal(most as i64)));
        },
        None => {},
    }
}

} // verus!
