use permguard::az_req::action_builder::ActionBuilder;
use permguard::az_req::az_atomic_request_builder::AzAtomicRequestBuilder;
use permguard::az_req::az_request_builder::AzRequestBuilder;
use permguard::az_req::context_builder::ContextBuilder;
use permguard::az_req::evaluation_builder::EvaluationBuilder;
use permguard::az_req::principal_builder::PrincipalBuilder;
use permguard::az_req::resource_builder::ResourceBuilder;
use permguard::az_req::subject_builder::SubjectBuilder;
use permguard::json::Json;

#[test]
fn subject_defaults_to_user_without_source() {
    let s = SubjectBuilder::new("s1".to_string()).build();
    assert_eq!(s.id, "s1");
    assert_eq!(s.kind, "user");
    assert_eq!(s.source, None);
    assert_eq!(s.properties.unwrap().len(), 0);
}

#[test]
fn subject_keeps_what_was_set() {
    let s = SubjectBuilder::new("s1".to_string())
        .with_type("workload".to_string())
        .with_source("idp".to_string())
        .with_property("k".to_string(), Json::Bool(true))
        .with_property("k".to_string(), Json::Bool(false))
        .build();
    assert_eq!(s.kind, "workload");
    assert_eq!(s.source, Some("idp".to_string()));
    let props = s.properties.unwrap();
    assert_eq!(props.len(), 1);
    assert_eq!(props.entries[0], ("k".to_string(), Json::Bool(false)));
}

#[test]
fn principal_defaults_to_user_without_source() {
    let p = PrincipalBuilder::new("pa".to_string()).build();
    assert_eq!(p.id, "pa");
    assert_eq!(p.kind, "user");
    assert_eq!(p.source, None);
    let p = PrincipalBuilder::new("pa".to_string())
        .with_kind("service".to_string())
        .with_source("idp".to_string())
        .build();
    assert_eq!(p.kind, "service");
    assert_eq!(p.source, Some("idp".to_string()));
}

#[test]
fn resource_id_defaults_to_empty() {
    let r = ResourceBuilder::new("T".to_string()).build();
    assert_eq!(r.kind, "T");
    assert_eq!(r.id, "");
    assert_eq!(r.properties.unwrap().len(), 0);
    let r = ResourceBuilder::new("T".to_string())
        .with_id("r1".to_string())
        .with_property("a".to_string(), Json::Null)
        .build();
    assert_eq!(r.id, "r1");
    assert_eq!(r.properties.unwrap().len(), 1);
}

#[test]
fn action_and_context_maps_are_present() {
    let a = ActionBuilder::new("create".to_string()).build();
    assert_eq!(a.name, "create");
    assert_eq!(a.properties.unwrap().len(), 0);
    let c = ContextBuilder::new()
        .with_property("x".to_string(), Json::Bool(true))
        .build();
    assert_eq!(c.len(), 1);
    assert_eq!(ContextBuilder::new().build().len(), 0);
}

#[test]
fn evaluation_builder_sets_fields() {
    let e = EvaluationBuilder::new(None, None, None).build();
    assert_eq!(e.request_id, "");
    assert!(e.context.is_none());
    let ctx = ContextBuilder::new().with_property("c".to_string(), Json::Null).build();
    let e = EvaluationBuilder::new(Some(SubjectBuilder::new("s".to_string()).build()), None, None)
        .with_request_id("e1".to_string())
        .with_context(Some(ctx))
        .build();
    assert_eq!(e.request_id, "e1");
    assert_eq!(e.subject.unwrap().id, "s");
    assert_eq!(e.context.unwrap().len(), 1);
}

#[test]
fn request_builder_starts_with_ledger_and_empty_entities() {
    let r = AzRequestBuilder::new(7, "abc".to_string()).build();
    assert_eq!(r.authorization_model.zone_id, 7);
    let ps = r.authorization_model.policy_store.unwrap();
    assert_eq!(ps.kind, "ledger");
    assert_eq!(ps.id, "abc");
    let ent = r.authorization_model.entities.unwrap();
    assert_eq!(ent.schema, "");
    assert!(ent.items.is_empty());
    assert!(r.evaluations.is_none());
    assert!(r.context.is_none());
    assert!(r.request_id.is_none());
}

#[test]
fn request_builder_appends_evaluations_in_order() {
    let r = AzRequestBuilder::new(1, "l".to_string())
        .with_evaluation(EvaluationBuilder::new(None, None, None).with_request_id("e1".to_string()).build())
        .with_evaluation(EvaluationBuilder::new(None, None, None).with_request_id("e2".to_string()).build())
        .build();
    let evs = r.evaluations.unwrap();
    assert_eq!(evs.len(), 2);
    assert_eq!(evs[0].request_id, "e1");
    assert_eq!(evs[1].request_id, "e2");
}

#[test]
fn request_builder_sets_entities() {
    let r = AzRequestBuilder::new(1, "l".to_string())
        .with_entities_map("cedar".to_string(), vec![None])
        .build();
    let ent = r.authorization_model.entities.unwrap();
    assert_eq!(ent.schema, "cedar");
    assert_eq!(ent.items.len(), 1);
    let r = AzRequestBuilder::new(1, "l".to_string())
        .with_entities_items("cedar".to_string(), None)
        .build();
    let ent = r.authorization_model.entities.unwrap();
    assert_eq!(ent.schema, "cedar");
    assert!(ent.items.is_empty());
}

#[test]
fn request_builder_copies_context() {
    let ctx = ContextBuilder::new().with_property("a".to_string(), Json::Bool(true)).build();
    let expected = ctx.clone();
    let r = AzRequestBuilder::new(1, "l".to_string())
        .with_context(Some(ctx))
        .with_request_id(Some("req".to_string()))
        .build();
    assert_eq!(r.context.unwrap(), expected);
    assert_eq!(r.request_id, Some("req".to_string()));
}

#[test]
fn atomic_builder_builds_every_part() {
    let principal = PrincipalBuilder::new("p".to_string()).build();
    let r = AzAtomicRequestBuilder::new(
        123,
        "abc".to_string(),
        "s1".to_string(),
        "T".to_string(),
        "create".to_string(),
    )
    .with_request_id("r1".to_string())
    .with_principal(principal)
    .with_subject_kind("svc".to_string())
    .with_subject_source("idp".to_string())
    .with_subject_property("sp".to_string(), Json::Bool(true))
    .with_resource_id("res".to_string())
    .with_resource_property("rp".to_string(), Json::Null)
    .with_action_property("ap".to_string(), Json::Null)
    .with_context_property("cp".to_string(), Json::Null)
    .with_entities_items("schema".to_string(), Some(vec![None]))
    .build();
    assert_eq!(r.request_id, Some("r1".to_string()));
    assert_eq!(r.authorization_model.zone_id, 123);
    assert_eq!(r.authorization_model.principal.unwrap().id, "p");
    assert_eq!(r.authorization_model.policy_store.unwrap().id, "abc");
    assert_eq!(r.authorization_model.entities.unwrap().schema, "schema");
    let s = r.subject.unwrap();
    assert_eq!((s.id.as_str(), s.kind.as_str()), ("s1", "svc"));
    assert_eq!(s.source, Some("idp".to_string()));
    assert_eq!(s.properties.unwrap().len(), 1);
    let res = r.resource.unwrap();
    assert_eq!((res.kind.as_str(), res.id.as_str()), ("T", "res"));
    assert_eq!(r.action.unwrap().name, "create");
    assert_eq!(r.context.unwrap().len(), 1);
    assert!(r.evaluations.is_none());
}

#[test]
fn atomic_builder_defaults() {
    let r = AzAtomicRequestBuilder::new(
        5,
        "led".to_string(),
        "s1".to_string(),
        "T".to_string(),
        "read".to_string(),
    )
    .with_entities_map("sch".to_string(), vec![])
    .build();
    assert!(r.request_id.is_none());
    assert!(r.authorization_model.principal.is_none());
    let s = r.subject.unwrap();
    assert_eq!(s.kind, "user");
    assert_eq!(s.source, None);
    assert_eq!(r.resource.unwrap().id, "");
    assert_eq!(r.context.unwrap().len(), 0);
}
