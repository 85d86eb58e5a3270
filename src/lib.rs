//! Client-side model of authorization checks against a policy decision point:
//! the request and response data model, its builders, and the conversion of
//! dynamic attribute values to and from the wire protocol's typed values.
pub mod az_client;
pub mod az_req;
pub mod config;
pub mod json;
pub mod mapper;
pub mod pdp;
