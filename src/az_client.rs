//! The client's part of an authorization check: what is decided before the
//! remote call is made.
use vstd::prelude::*;
use crate::az_req::model::AzRequest;
use crate::config::{AzConfig, endpoint_url};
use crate::mapper::map_service::{EncodeError, MapService, request_fits, request_mapped};
use crate::pdp::AuthorizationCheckRequest;

verus! {

/// Why an authorization check failed.
#[derive(Debug, Clone, PartialEq)]
pub enum AzError {
    /// No endpoint was configured.
    Configuration,
    /// The policy decision point could not be reached.
    Connection(String),
    /// The remote call completed with a failure.
    RemoteCall(String),
    /// No request was given.
    InvalidRequest,
    /// A dynamic value of the request nests too deeply for the wire.
    TooDeep,
}

/// A client of the policy decision point.
pub struct AzClient {
    config: AzConfig,
}

impl AzClient {
    /// The configuration the client was made with.
    pub closed spec fn config(&self) -> AzConfig {
        self.config
    }

    pub fn new(config: AzConfig) -> (r: AzClient)
        ensures
            r.config() == config,
    {
        AzClient { config }
    }

    /// The URL to connect to, or [`AzError::Configuration`] where no endpoint
    /// is configured.
    pub fn target_url(&self) -> (r: Result<String, AzError>)
        ensures
            match self.config().endpoint {
                Some(e) => r is Ok && r->Ok_0@ == endpoint_url(e),
                None => r == Err::<String, AzError>(AzError::Configuration),
            },
    {
        match &self.config.endpoint {
            Some(e) => Ok(e.url()),
            None => Err(AzError::Configuration),
        }
    }

    /// The wire request to send, or [`AzError::InvalidRequest`] where no
    /// request is given, or [`AzError::TooDeep`] where a dynamic value of it
    /// cannot be put on the wire.
    pub fn wire_request(request: &Option<AzRequest>) -> (r: Result<
        AuthorizationCheckRequest,
        AzError,
    >)
        ensures
            match *request {
                None => r is Err && r->Err_0 == AzError::InvalidRequest,
                Some(req) => match r {
                    Ok(w) => request_fits(req) && request_mapped(req, w),
                    Err(e) => !request_fits(req) && e == AzError::TooDeep,
                },
            },
    {
        match request {
            Some(req) => match MapService::map_az_request(req) {
                Ok(w) => Ok(w),
                Err(EncodeError::TooDeep) => Err(AzError::TooDeep),
            },
            None => Err(AzError::InvalidRequest),
        }
    }
}

} // verus!
