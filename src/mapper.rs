//! Mapping between the domain model and the wire protocol.
pub mod map_service;
