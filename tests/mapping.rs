use permguard::az_client::{AzClient, AzError};
use permguard::az_req::az_atomic_request_builder::AzAtomicRequestBuilder;
use permguard::az_req::az_request_builder::AzRequestBuilder;
use permguard::az_req::evaluation_builder::EvaluationBuilder;
use permguard::az_req::model::{PolicyStore, Principal};
use permguard::config::{AzConfig, AzEndpoint};
use permguard::json::{Json, JsonMap};
use permguard::mapper::map_service::{EncodeError, MapService};
use permguard::pdp;

fn scenario_request() -> permguard::az_req::model::AzRequest {
    AzAtomicRequestBuilder::new(
        123,
        "abc".to_string(),
        "s1".to_string(),
        "T".to_string(),
        "create".to_string(),
    )
    .build()
}

#[test]
fn mapped_request_has_empty_context_struct_and_ledger() {
    let w = MapService::map_az_request(&scenario_request()).unwrap();
    assert_eq!(w.context.unwrap().fields.len(), 0);
    let model = w.authorization_model.unwrap();
    assert_eq!(model.zone_id, 123);
    assert_eq!(model.policy_store.unwrap().id, "abc");
    let s = w.subject.unwrap();
    assert_eq!(s.id, "s1");
    assert_eq!(s.properties.unwrap().fields.len(), 0);
    assert_eq!(w.resource.unwrap().kind, "T");
    assert_eq!(w.action.unwrap().name, "create");
    assert!(w.evaluations.is_empty());
}

#[test]
fn absent_context_maps_to_empty_struct() {
    let req = AzRequestBuilder::new(1, "l".to_string()).build();
    let w = MapService::map_az_request(&req).unwrap();
    assert_eq!(w.context.unwrap().fields.len(), 0);
    assert!(w.subject.is_none());
    assert!(w.request_id.is_none());
}

#[test]
fn two_evaluations_map_in_order() {
    let req = AzRequestBuilder::new(1, "l".to_string())
        .with_evaluation(EvaluationBuilder::new(None, None, None).with_request_id("e1".to_string()).build())
        .with_evaluation(EvaluationBuilder::new(None, None, None).with_request_id("e2".to_string()).build())
        .build();
    let w = MapService::map_az_request(&req).unwrap();
    assert_eq!(w.evaluations.len(), 2);
    assert_eq!(w.evaluations[0].request_id, Some("e1".to_string()));
    assert_eq!(w.evaluations[1].request_id, Some("e2".to_string()));
    assert_eq!(w.evaluations[0].context.as_ref().unwrap().fields.len(), 0);
}

#[test]
fn no_evaluations_map_to_empty_list() {
    let req = AzRequestBuilder::new(1, "l".to_string()).build();
    let w = MapService::map_az_request(&req).unwrap();
    assert!(w.evaluations.is_empty());
}

#[test]
fn entities_with_hole_map_to_two_structs() {
    let mut a = JsonMap::new();
    a.insert("id".to_string(), Json::String("A".to_string()));
    let mut b = JsonMap::new();
    b.insert("id".to_string(), Json::String("B".to_string()));
    let req = AzRequestBuilder::new(1, "l".to_string())
        .with_entities_map("s".to_string(), vec![Some(a), None, Some(b)])
        .build();
    let w = MapService::map_az_request(&req).unwrap();
    let ent = w.authorization_model.unwrap().entities.unwrap();
    assert_eq!(ent.schema, "s");
    assert_eq!(ent.items.len(), 2);
    assert_eq!(
        ent.items[0].fields[0].1,
        pdp::Value { kind: Some(pdp::Kind::StringValue("A".to_string())) }
    );
    assert_eq!(
        ent.items[1].fields[0].1,
        pdp::Value { kind: Some(pdp::Kind::StringValue("B".to_string())) }
    );
}

#[test]
fn too_deep_property_fails_mapping() {
    let mut v = Json::Null;
    for _ in 0..100 {
        v = Json::Array(vec![v]);
    }
    let req = AzAtomicRequestBuilder::new(1, "l".to_string(), "s".to_string(), "T".to_string(), "a".to_string())
        .with_subject_property("deep".to_string(), v)
        .build();
    assert_eq!(MapService::map_az_request(&req).err(), Some(EncodeError::TooDeep));
    assert_eq!(AzClient::wire_request(&Some(req)).err(), Some(AzError::TooDeep));
}

#[test]
fn policy_store_and_principal_pass_through() {
    let ps = Some(PolicyStore { kind: "ledger".to_string(), id: "x".to_string() });
    let w = MapService::map_policy_store(&ps).unwrap();
    assert_eq!((w.kind.as_str(), w.id.as_str()), ("ledger", "x"));
    assert!(MapService::map_policy_store(&None).is_none());
    let pr = Some(Principal { kind: "user".to_string(), id: "p".to_string(), source: None });
    let w = MapService::map_principal(&pr).unwrap();
    assert_eq!((w.kind.as_str(), w.id.as_str()), ("user", "p"));
    assert_eq!(w.source, None);
}

fn wire_response() -> pdp::AuthorizationCheckResponse {
    pdp::AuthorizationCheckResponse {
        request_id: Some("r".to_string()),
        decision: false,
        context: Some(pdp::ContextResponse {
            id: "c".to_string(),
            reason_admin: Some(pdp::ReasonResponse {
                code: "X".to_string(),
                message: "forbidden".to_string(),
            }),
            reason_user: None,
        }),
        evaluations: vec![
            pdp::EvaluationResponse { request_id: None, decision: true, context: None },
            pdp::EvaluationResponse { request_id: Some("e2".to_string()), decision: false, context: None },
        ],
    }
}

#[test]
fn response_reason_and_missing_ids_map() {
    let r = MapService::map_grpc_response(&wire_response());
    assert!(!r.decision);
    assert_eq!(r.request_id, "r");
    let ctx = r.context.unwrap();
    assert_eq!(ctx.id, "c");
    let admin = ctx.reason_admin.unwrap();
    assert_eq!(admin.code, "X");
    assert_eq!(admin.message, "forbidden");
    assert!(ctx.reason_user.is_none());
    assert_eq!(r.evaluations.len(), 2);
    assert_eq!(r.evaluations[0].request_id, "");
    assert!(r.evaluations[0].decision);
    assert_eq!(r.evaluations[1].request_id, "e2");
}

#[test]
fn response_without_request_id_or_context() {
    let w = pdp::AuthorizationCheckResponse {
        request_id: None,
        decision: true,
        context: None,
        evaluations: vec![],
    };
    let r = MapService::map_grpc_response(&w);
    assert_eq!(r.request_id, "");
    assert!(r.decision);
    assert!(r.context.is_none());
    assert!(r.evaluations.is_empty());
    assert!(MapService::map_evaluation_response(&None).is_none());
}

#[test]
fn endpoint_url_is_schema_host_port() {
    let e = AzEndpoint::new("http".to_string(), 9094, "localhost".to_string());
    assert_eq!(e.url(), "http://localhost:9094");
    let e = AzEndpoint::new("https".to_string(), 0, "h".to_string());
    assert_eq!(e.url(), "https://h:0");
    let e = AzEndpoint::new("grpc".to_string(), 65535, "pdp.example".to_string());
    assert_eq!(e.url(), "grpc://pdp.example:65535");
}

#[test]
fn client_without_endpoint_is_a_configuration_error() {
    let client = AzClient::new(AzConfig::new());
    assert_eq!(client.target_url(), Err(AzError::Configuration));
    let client = AzClient::new(AzConfig::default().with_endpoint(None));
    assert_eq!(client.target_url(), Err(AzError::Configuration));
}

#[test]
fn client_with_endpoint_gives_url() {
    let e = AzEndpoint::new("http".to_string(), 80, "pdp".to_string());
    let client = AzClient::new(AzConfig::new().with_endpoint(Some(e)));
    assert_eq!(client.target_url(), Ok("http://pdp:80".to_string()));
}

#[test]
fn missing_request_is_invalid() {
    assert_eq!(AzClient::wire_request(&None).err(), Some(AzError::InvalidRequest));
    let w = AzClient::wire_request(&Some(scenario_request())).unwrap();
    assert_eq!(w.authorization_model.unwrap().zone_id, 123);
}
