//! Builder of a whole single-action [`AzRequest`] in one chain.
use vstd::prelude::*;
use crate::az_req::action_builder::{ActionBuilder, ActionDraft, action_from};
use crate::az_req::az_request_builder::{AzRequestBuilder, fresh_request};
use crate::az_req::context_builder::ContextBuilder;
use crate::az_req::model::{AzModel, AzRequest, Entities, Principal};
use crate::az_req::resource_builder::{ResourceBuilder, ResourceDraft, resource_from};
use crate::az_req::subject_builder::{SubjectBuilder, SubjectDraft, new_draft, subject_from};
use crate::json::{Json, JsonMap, JsonModel, put};

verus! {

/// What an [`AzAtomicRequestBuilder`] has been given so far.
pub struct AtomicDraft {
    pub request_id: Option<String>,
    pub principal: Option<Principal>,
    pub subject: SubjectDraft,
    pub resource: ResourceDraft,
    pub action: ActionDraft,
    pub context: Seq<(Seq<char>, JsonModel)>,
    pub request: AzRequest,
}

/// Composes the subject, resource, action, context and request builders, so
/// that one action check is built in a single chain.
#[derive(Debug, Clone)]
pub struct AzAtomicRequestBuilder {
    request_id: Option<String>,
    principal: Option<Principal>,
    az_subject_builder: SubjectBuilder,
    az_resource_builder: ResourceBuilder,
    az_action_builder: ActionBuilder,
    az_context_builder: ContextBuilder,
    az_request_builder: AzRequestBuilder,
}

impl View for AzAtomicRequestBuilder {
    type V = AtomicDraft;

    closed spec fn view(&self) -> AtomicDraft {
        AtomicDraft {
            request_id: self.request_id,
            principal: self.principal,
            subject: self.az_subject_builder@,
            resource: self.az_resource_builder@,
            action: self.az_action_builder@,
            context: self.az_context_builder@,
            request: self.az_request_builder.request(),
        }
    }
}

impl AzAtomicRequestBuilder {
    pub fn new(
        zone_id: i64,
        ledger_id: String,
        subject_id: String,
        resource_kind: String,
        action_name: String,
    ) -> (r: AzAtomicRequestBuilder)
        ensures
            r@.request_id is None,
            r@.principal is None,
            r@.subject == new_draft(subject_id@),
            r@.resource == (ResourceDraft {
                id: None,
                kind: resource_kind@,
                properties: Seq::empty(),
            }),
            r@.action == (ActionDraft { name: action_name@, properties: Seq::empty() }),
            r@.context == Seq::<(Seq<char>, JsonModel)>::empty(),
            fresh_request(r@.request, zone_id, ledger_id),
    {
        AzAtomicRequestBuilder {
            request_id: None,
            principal: None,
            az_subject_builder: SubjectBuilder::new(subject_id),
            az_resource_builder: ResourceBuilder::new(resource_kind),
            az_action_builder: ActionBuilder::new(action_name),
            az_context_builder: ContextBuilder::new(),
            az_request_builder: AzRequestBuilder::new(zone_id, ledger_id),
        }
    }

    /// Sets the entities block to the given schema and items.
    pub fn with_entities_map(self, schema: String, entities: Vec<Option<JsonMap>>) -> (r:
        AzAtomicRequestBuilder)
        ensures
            r@ == (AtomicDraft {
                request: AzRequest {
                    authorization_model: AzModel {
                        entities: Some(Entities { schema, items: entities }),
                        ..self@.request.authorization_model
                    },
                    ..self@.request
                },
                ..self@
            }),
    {
        let mut b = self;
        b.az_request_builder = b.az_request_builder.with_entities_map(schema, entities);
        b
    }

    /// Sets the entities block to the given schema and items; absent items
    /// give an empty list.
    pub fn with_entities_items(self, schema: String, entities: Option<Vec<Option<JsonMap>>>) -> (r:
        AzAtomicRequestBuilder)
        ensures
            r@ == (AtomicDraft {
                request: AzRequest {
                    authorization_model: AzModel {
                        entities: r@.request.authorization_model.entities,
                        ..self@.request.authorization_model
                    },
                    ..self@.request
                },
                ..self@
            }),
            r@.request.authorization_model.entities is Some,
            r@.request.authorization_model.entities->Some_0.schema == schema,
            match entities {
                Some(v) => r@.request.authorization_model.entities->Some_0.items == v,
                None => r@.request.authorization_model.entities->Some_0.items@.len() == 0,
            },
    {
        let mut b = self;
        b.az_request_builder = b.az_request_builder.with_entities_items(schema, entities);
        b
    }

    pub fn with_request_id(self, request_id: String) -> (r: AzAtomicRequestBuilder)
        ensures
            r@ == (AtomicDraft { request_id: Some(request_id), ..self@ }),
    {
        let mut b = self;
        b.request_id = Some(request_id);
        b
    }

    pub fn with_principal(self, principal: Principal) -> (r: AzAtomicRequestBuilder)
        ensures
            r@ == (AtomicDraft { principal: Some(principal), ..self@ }),
    {
        let mut b = self;
        b.principal = Some(principal);
        b
    }

    pub fn with_subject_kind(self, kind: String) -> (r: AzAtomicRequestBuilder)
        ensures
            r@ == (AtomicDraft { subject: SubjectDraft { kind: kind@, ..self@.subject }, ..self@ }),
    {
        let mut b = self;
        b.az_subject_builder = b.az_subject_builder.with_type(kind);
        b
    }

    pub fn with_subject_source(self, source: String) -> (r: AzAtomicRequestBuilder)
        ensures
            r@ == (AtomicDraft {
                subject: SubjectDraft { source: Some(source@), ..self@.subject },
                ..self@
            }),
    {
        let mut b = self;
        b.az_subject_builder = b.az_subject_builder.with_source(source);
        b
    }

    pub fn with_subject_property(self, key: String, value: Json) -> (r: AzAtomicRequestBuilder)
        ensures
            r@ == (AtomicDraft {
                subject: SubjectDraft {
                    properties: put(self@.subject.properties, key@, value@),
                    ..self@.subject
                },
                ..self@
            }),
    {
        let mut b = self;
        b.az_subject_builder = b.az_subject_builder.with_property(key, value);
        b
    }

    pub fn with_resource_id(self, id: String) -> (r: AzAtomicRequestBuilder)
        ensures
            r@ == (AtomicDraft {
                resource: ResourceDraft { id: Some(id@), ..self@.resource },
                ..self@
            }),
    {
        let mut b = self;
        b.az_resource_builder = b.az_resource_builder.with_id(id);
        b
    }

    pub fn with_resource_property(self, key: String, value: Json) -> (r: AzAtomicRequestBuilder)
        ensures
            r@ == (AtomicDraft {
                resource: ResourceDraft {
                    properties: put(self@.resource.properties, key@, value@),
                    ..self@.resource
                },
                ..self@
            }),
    {
        let mut b = self;
        b.az_resource_builder = b.az_resource_builder.with_property(key, value);
        b
    }

    pub fn with_action_property(self, key: String, value: Json) -> (r: AzAtomicRequestBuilder)
        ensures
            r@ == (AtomicDraft {
                action: ActionDraft {
                    properties: put(self@.action.properties, key@, value@),
                    ..self@.action
                },
                ..self@
            }),
    {
        let mut b = self;
        b.az_action_builder = b.az_action_builder.with_property(key, value);
        b
    }

    pub fn with_context_property(self, key: String, value: Json) -> (r: AzAtomicRequestBuilder)
        ensures
            r@ == (AtomicDraft { context: put(self@.context, key@, value@), ..self@ }),
    {
        let mut b = self;
        b.az_context_builder = b.az_context_builder.with_property(key, value);
        b
    }

    /// Builds each part and puts it into the request: subject, resource,
    /// action and context are always present.
    pub fn build(self) -> (r: AzRequest)
        ensures
            r.authorization_model == (AzModel {
                principal: self@.principal,
                ..self@.request.authorization_model
            }),
            r.request_id == self@.request_id,
            r.subject is Some && subject_from(self@.subject, r.subject->Some_0),
            r.resource is Some && resource_from(self@.resource, r.resource->Some_0),
            r.action is Some && action_from(self@.action, r.action->Some_0),
            r.context is Some && r.context->Some_0@ == self@.context,
            r.evaluations == self@.request.evaluations,
    {
        let subject = self.az_subject_builder.build();
        let resource = self.az_resource_builder.build();
        let action = self.az_action_builder.build();
        let context = self.az_context_builder.build();
        self.az_request_builder.with_principal(self.principal).with_request_id(
            self.request_id,
        ).with_subject(Some(subject)).with_resource(Some(resource)).with_action(
            Some(action),
        ).with_context(Some(context)).build()
    }
}

} // verus!
