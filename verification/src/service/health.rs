//! The health of the service.

use crate::client::nvisy::is_prepared;
use crate::client::nvisy::NvisyClient;
use crate::client::request::Body;
use crate::client::request::Method;
use crate::client::request::Request;
use crate::error::Error;
use crate::model::health::CheckHealth;
use vstd::prelude::*;

verus! {

/// The operations on the health of the service.
pub trait HealthService {
    /// Asks how the service is doing.
    fn health(&self, options: Option<CheckHealth>) -> Result<Request<CheckHealth>, Error>;
}

impl HealthService for NvisyClient {
    /// `POST /health/` with the options as JSON where there are options,
    /// `GET /health/` where there are none.
    fn health(&self, options: Option<CheckHealth>) -> (outcome: Result<
        Request<CheckHealth>,
        Error,
    >)
        ensures
            is_prepared(
                outcome,
                self.settings(),
                match options {
                    Some(_) => Method::Post,
                    None => Method::Get,
                },
                "/health/"@,
                Seq::empty(),
                match options {
                    Some(options) => Body::Json(options),
                    None => Body::Empty,
                },
            ),
    {
        match options {
            Some(options) => self.prepare_json(Method::Post, "/health/", options),
            None => self.prepare(Method::Get, "/health/"),
        }
    }
}

} // verus!
