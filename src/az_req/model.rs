//! The domain model of authorization requests and responses.
use vstd::prelude::*;
use crate::json::JsonMap;

verus! {

/// The policy ledger (or snapshot) that a request is checked against.
#[derive(Debug, Clone)]
pub struct PolicyStore {
    pub kind: String,
    pub id: String,
}

/// Entity facts handed to the evaluation engine: a schema label and a list of
/// attribute maps, where any element may be a hole.
#[derive(Debug, Clone)]
pub struct Entities {
    pub schema: String,
    pub items: Vec<Option<JsonMap>>,
}

/// One check of a batch, sharing the request's authorization model.
#[derive(Debug, Clone)]
pub struct Evaluation {
    pub request_id: String,
    pub subject: Option<Subject>,
    pub resource: Option<Resource>,
    pub action: Option<Action>,
    pub context: Option<JsonMap>,
}

/// The zone, ledger, principal and entities under which checks run.
#[derive(Debug, Clone)]
pub struct AzModel {
    pub zone_id: i64,
    pub principal: Option<Principal>,
    pub policy_store: Option<PolicyStore>,
    pub entities: Option<Entities>,
}

/// An authorization check request.
#[derive(Debug, Clone)]
pub struct AzRequest {
    pub authorization_model: AzModel,
    pub request_id: Option<String>,
    pub subject: Option<Subject>,
    pub resource: Option<Resource>,
    pub action: Option<Action>,
    pub context: Option<JsonMap>,
    pub evaluations: Option<Vec<Evaluation>>,
}

/// The authenticated identity on whose behalf a request is made.
#[derive(Debug, Clone)]
pub struct Principal {
    pub kind: String,
    pub id: String,
    pub source: Option<String>,
}

/// The identity whose access is checked.
#[derive(Debug, Clone)]
pub struct Subject {
    pub kind: String,
    pub id: String,
    pub source: Option<String>,
    pub properties: Option<JsonMap>,
}

/// The resource that access is checked on.
#[derive(Debug, Clone)]
pub struct Resource {
    pub kind: String,
    pub id: String,
    pub properties: Option<JsonMap>,
}

/// The action whose permission is checked.
#[derive(Debug, Clone)]
pub struct Action {
    pub name: String,
    pub properties: Option<JsonMap>,
}

/// A reason code and message.
#[derive(Debug, Clone)]
pub struct ReasonResponse {
    pub code: String,
    pub message: String,
}

/// The context of a decision, with optional reasons for an administrator and
/// for the user.
#[derive(Debug, Clone)]
pub struct ContextResponse {
    pub id: String,
    pub reason_admin: Option<ReasonResponse>,
    pub reason_user: Option<ReasonResponse>,
}

/// The decision on one evaluation of a batch.
#[derive(Debug, Clone)]
pub struct EvaluationResponse {
    pub request_id: String,
    pub decision: bool,
    pub context: Option<ContextResponse>,
}

/// The answer to an authorization check.
#[derive(Debug, Clone)]
pub struct AzResponse {
    pub request_id: String,
    pub decision: bool,
    pub context: Option<ContextResponse>,
    pub evaluations: Vec<EvaluationResponse>,
}

} // verus!
