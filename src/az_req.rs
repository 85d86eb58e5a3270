//! Authorization requests and responses, and the builders that compose them.
pub mod action_builder;
pub mod az_atomic_request_builder;
pub mod az_request_builder;
pub mod evaluation_builder;


pub mod context_builder;

pub mod model;
pub mod principal_builder;
pub mod resource_builder;
pub mod subject_builder;
