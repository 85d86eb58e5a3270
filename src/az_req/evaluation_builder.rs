//! Builder of an [`Evaluation`].
use vstd::prelude::*;
use crate::az_req::model::{Action, Evaluation, Resource, Subject};
use crate::json::JsonMap;

verus! {

/// Builds one [`Evaluation`] of a batch; its request id is empty unless set.
#[derive(Debug, Clone)]
pub struct EvaluationBuilder {
    evaluation: Evaluation,
}

impl EvaluationBuilder {
    /// The evaluation built so far.
    pub closed spec fn evaluation(&self) -> Evaluation {
        self.evaluation
    }

    pub fn new(subject: Option<Subject>, resource: Option<Resource>, action: Option<Action>) -> (r:
        EvaluationBuilder)
        ensures
            r.evaluation().request_id@.len() == 0,
            r.evaluation().subject == subject,
            r.evaluation().resource == resource,
            r.evaluation().action == action,
            r.evaluation().context is None,
    {
        EvaluationBuilder {
            evaluation: Evaluation {
                request_id: String::new(),
                subject,
                resource,
                action,
                context: None,
            },
        }
    }

    pub fn with_request_id(self, request_id: String) -> (r: EvaluationBuilder)
        ensures
            r.evaluation() == (Evaluation { request_id, ..self.evaluation() }),
    {
        let mut b = self;
        b.evaluation.request_id = request_id;
        b
    }

    pub fn with_context(self, context: Option<JsonMap>) -> (r: EvaluationBuilder)
        ensures
            r.evaluation() == (Evaluation { context, ..self.evaluation() }),
    {
        let mut b = self;
        b.evaluation.context = context;
        b
    }

    pub fn build(self) -> (r: Evaluation)
        ensures
            r == self.evaluation(),
    {
        self.evaluation
    }
}

} // verus!
