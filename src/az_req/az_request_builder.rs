//! Builder of an [`AzRequest`].
use vstd::prelude::*;
use crate::az_req::model::{
    Action, AzModel, AzRequest, Entities, Evaluation, PolicyStore, Principal, Resource, Subject,
};
use crate::json::{JsonMap, deep_copy};

verus! {

/// Builds an [`AzRequest`] for one zone and policy ledger. It starts with an
/// empty entities block and no evaluation list.
#[derive(Debug, Clone)]
pub struct AzRequestBuilder {
    az_request: AzRequest,
}

/// The evaluations of an optional list; an absent list has none.
pub open spec fn opt_evaluations(o: Option<Vec<Evaluation>>) -> Seq<Evaluation> {
    match o {
        Some(v) => v@,
        None => Seq::empty(),
    }
}

/// A request as a new builder holds it: the zone, a ledger policy store with
/// the given id, an empty entities block, and nothing else.
pub open spec fn fresh_request(r: AzRequest, zone_id: i64, ledger_id: String) -> bool {
    &&& r.authorization_model.zone_id == zone_id
    &&& r.authorization_model.principal is None
    &&& r.authorization_model.policy_store is Some
    &&& r.authorization_model.policy_store->Some_0.kind@ == "ledger"@
    &&& r.authorization_model.policy_store->Some_0.id == ledger_id
    &&& r.authorization_model.entities is Some
    &&& r.authorization_model.entities->Some_0.schema@.len() == 0
    &&& r.authorization_model.entities->Some_0.items@.len() == 0
    &&& r.request_id is None
    &&& r.subject is None
    &&& r.resource is None
    &&& r.action is None
    &&& r.context is None
    &&& r.evaluations is None
}

impl AzRequestBuilder {
    /// The request built so far.
    pub closed spec fn request(&self) -> AzRequest {
        self.az_request
    }

    pub fn new(zone_id: i64, ledger_id: String) -> (r: AzRequestBuilder)
        ensures
            fresh_request(r.request(), zone_id, ledger_id),
    {
        let az_request = AzRequest {
            authorization_model: AzModel {
                zone_id,
                principal: None,
                policy_store: Some(PolicyStore { kind: "ledger".to_string(), id: ledger_id }),
                entities: Some(Entities { schema: String::new(), items: Vec::new() }),
            },
            request_id: None,
            subject: None,
            resource: None,
            action: None,
            context: None,
            evaluations: None,
        };
        AzRequestBuilder { az_request }
    }

    pub fn with_principal(self, principal: Option<Principal>) -> (r: AzRequestBuilder)
        ensures
            r.request() == (AzRequest {
                authorization_model: AzModel { principal, ..self.request().authorization_model },
                ..self.request()
            }),
    {
        let mut b = self;
        b.az_request.authorization_model.principal = principal;
        b
    }

    pub fn with_request_id(self, request_id: Option<String>) -> (r: AzRequestBuilder)
        ensures
            r.request() == (AzRequest { request_id, ..self.request() }),
    {
        let mut b = self;
        b.az_request.request_id = request_id;
        b
    }

    pub fn with_subject(self, subject: Option<Subject>) -> (r: AzRequestBuilder)
        ensures
            r.request() == (AzRequest { subject, ..self.request() }),
    {
        let mut b = self;
        b.az_request.subject = subject;
        b
    }

    pub fn with_resource(self, resource: Option<Resource>) -> (r: AzRequestBuilder)
        ensures
            r.request() == (AzRequest { resource, ..self.request() }),
    {
        let mut b = self;
        b.az_request.resource = resource;
        b
    }

    pub fn with_action(self, action: Option<Action>) -> (r: AzRequestBuilder)
        ensures
            r.request() == (AzRequest { action, ..self.request() }),
    {
        let mut b = self;
        b.az_request.action = action;
        b
    }

    /// Sets the context to a copy of the given map, or clears it.
    pub fn with_context(self, context: Option<JsonMap>) -> (r: AzRequestBuilder)
        ensures
            r.request() == (AzRequest { context: r.request().context, ..self.request() }),
            match context {
                Some(c) => r.request().context is Some && r.request().context->Some_0@ == c@,
                None => r.request().context is None,
            },
    {
        let mut b = self;
        b.az_request.context = match context {
            Some(ctx) => Some(deep_copy(Some(&ctx))),
            None => None,
        };
        b
    }

    /// Sets the entities block to the given schema and items.
    pub fn with_entities_map(self, schema: String, entities: Vec<Option<JsonMap>>) -> (r:
        AzRequestBuilder)
        ensures
            r.request() == (AzRequest {
                authorization_model: AzModel {
                    entities: Some(Entities { schema, items: entities }),
                    ..self.request().authorization_model
                },
                ..self.request()
            }),
    {
        let mut b = self;
        b.az_request.authorization_model.entities = Some(Entities { schema, items: entities });
        b
    }

    /// Sets the entities block to the given schema and items; absent items
    /// give an empty list.
    pub fn with_entities_items(self, schema: String, entities: Option<Vec<Option<JsonMap>>>) -> (r:
        AzRequestBuilder)
        ensures
            r.request() == (AzRequest {
                authorization_model: AzModel {
                    entities: r.request().authorization_model.entities,
                    ..self.request().authorization_model
                },
                ..self.request()
            }),
            r.request().authorization_model.entities is Some,
            r.request().authorization_model.entities->Some_0.schema == schema,
            match entities {
                Some(v) => r.request().authorization_model.entities->Some_0.items == v,
                None => r.request().authorization_model.entities->Some_0.items@.len() == 0,
            },
    {
        let items = match entities {
            Some(v) => v,
            None => Vec::new(),
        };
        let mut b = self;
        b.az_request.authorization_model.entities = Some(Entities { schema, items });
        b
    }

    /// Appends an evaluation to the batch, starting the list if there is none.
    pub fn with_evaluation(self, evaluation: Evaluation) -> (r: AzRequestBuilder)
        ensures
            r.request() == (AzRequest { evaluations: r.request().evaluations, ..self.request() }),
            r.request().evaluations is Some,
            r.request().evaluations->Some_0@ == opt_evaluations(self.request().evaluations).push(
                evaluation,
            ),
    {
        let mut b = self;
        let mut list = match b.az_request.evaluations {
            Some(v) => v,
            None => Vec::new(),
        };
        list.push(evaluation);
        b.az_request.evaluations = Some(list);
        b
    }

    pub fn build(self) -> (r: AzRequest)
        ensures
            r == self.request(),
    {
        self.az_request
    }
}

} // verus!
