//! Messages of the policy decision point's wire protocol, and its typed
//! values for dynamic data.
use vstd::prelude::*;

verus! {

/// A wire value. A value whose kind is unset reads as null.
#[derive(Debug, PartialEq)]
pub struct Value {
    pub kind: Option<Kind>,
}

/// The variants of a wire value. A number is the bit pattern of an IEEE-754
/// binary64 value.
#[derive(Debug, PartialEq)]
pub enum Kind {
    NullValue(i32),
    NumberValue(u64),
    StringValue(String),
    BoolValue(bool),
    StructValue(Struct),
    ListValue(ListValue),
}

/// A string-keyed map of wire values.
#[derive(Debug, PartialEq)]
pub struct Struct {
    pub fields: Vec<(String, Value)>,
}

/// An ordered list of wire values.
#[derive(Debug, PartialEq)]
pub struct ListValue {
    pub values: Vec<Value>,
}

/// The mathematical value of a wire [`Value`].
pub enum ProtoModel {
    Unset,
    Null(i32),
    Number(u64),
    Str(Seq<char>),
    Bool(bool),
    Struct(Seq<(Seq<char>, ProtoModel)>),
    List(Seq<ProtoModel>),
}

pub open spec fn proto_model_of(v: Value) -> ProtoModel
    decreases v,
{
    match v.kind {
        None => ProtoModel::Unset,
        Some(k) => match k {
            Kind::NullValue(n) => ProtoModel::Null(n),
            Kind::NumberValue(n) => ProtoModel::Number(n),
            Kind::StringValue(s) => ProtoModel::Str(s@),
            Kind::BoolValue(b) => ProtoModel::Bool(b),
            Kind::StructValue(st) => ProtoModel::Struct(
                Seq::new(
                    st.fields@.len(),
                    |i: int|
                        if 0 <= i < st.fields@.len() {
                            (st.fields@[i].0@, proto_model_of(st.fields@[i].1))
                        } else {
                            (Seq::empty(), ProtoModel::Unset)
                        },
                ),
            ),
            Kind::ListValue(l) => ProtoModel::List(
                Seq::new(
                    l.values@.len(),
                    |i: int|
                        if 0 <= i < l.values@.len() {
                            proto_model_of(l.values@[i])
                        } else {
                            ProtoModel::Unset
                        },
                ),
            ),
        },
    }
}

impl View for Value {
    type V = ProtoModel;

    open spec fn view(&self) -> ProtoModel {
        proto_model_of(*self)
    }
}

impl View for Struct {
    type V = Seq<(Seq<char>, ProtoModel)>;

    open spec fn view(&self) -> Seq<(Seq<char>, ProtoModel)> {
        Seq::new(self.fields@.len(), |i: int| (self.fields@[i].0@, proto_model_of(self.fields@[i].1)))
    }
}

impl View for ListValue {
    type V = Seq<ProtoModel>;

    open spec fn view(&self) -> Seq<ProtoModel> {
        Seq::new(self.values@.len(), |i: int| proto_model_of(self.values@[i]))
    }
}

#[derive(Debug, Clone, PartialEq)]
pub struct PolicyStore {
    pub id: String,
    pub kind: String,
}

#[derive(Debug, Clone, PartialEq)]
pub struct Principal {
    pub id: String,
    pub kind: String,
    pub source: Option<String>,
}

#[derive(Debug, PartialEq)]
pub struct Entities {
    pub schema: String,
    pub items: Vec<Struct>,
}

#[derive(Debug, PartialEq)]
pub struct Subject {
    pub id: String,
    pub kind: String,
    pub source: Option<String>,
    pub properties: Option<Struct>,
}

#[derive(Debug, PartialEq)]
pub struct Resource {
    pub id: String,
    pub kind: String,
    pub properties: Option<Struct>,
}

#[derive(Debug, PartialEq)]
pub struct Action {
    pub name: String,
    pub properties: Option<Struct>,
}

#[derive(Debug, PartialEq)]
pub struct EvaluationRequest {
    pub request_id: Option<String>,
    pub subject: Option<Subject>,
    pub resource: Option<Resource>,
    pub action: Option<Action>,
    pub context: Option<Struct>,
}

#[derive(Debug, PartialEq)]
pub struct AuthorizationModelRequest {
    pub zone_id: i64,
    pub policy_store: Option<PolicyStore>,
    pub principal: Option<Principal>,
    pub entities: Option<Entities>,
}

/// The request message of the authorization check call.
#[derive(Debug, PartialEq)]
pub struct AuthorizationCheckRequest {
    pub request_id: Option<String>,
    pub authorization_model: Option<AuthorizationModelRequest>,
    pub subject: Option<Subject>,
    pub resource: Option<Resource>,
    pub action: Option<Action>,
    pub context: Option<Struct>,
    pub evaluations: Vec<EvaluationRequest>,
}

#[derive(Debug, Clone, PartialEq)]
pub struct ReasonResponse {
    pub code: String,
    pub message: String,
}

#[derive(Debug, Clone, PartialEq)]
pub struct ContextResponse {
    pub id: String,
    pub reason_admin: Option<ReasonResponse>,
    pub reason_user: Option<ReasonResponse>,
}

#[derive(Debug, Clone, PartialEq)]
pub struct EvaluationResponse {
    pub request_id: Option<String>,
    pub decision: bool,
    pub context: Option<ContextResponse>,
}

/// The response message of the authorization check call.
#[derive(Debug, Clone, PartialEq)]
pub struct AuthorizationCheckResponse {
    pub request_id: Option<String>,
    pub decision: bool,
    pub context: Option<ContextResponse>,
    pub evaluations: Vec<EvaluationResponse>,
}

pub proof fn lemma_struct_model(st: Struct)
    ensures
        (Value { kind: Some(Kind::StructValue(st)) })@ == ProtoModel::Struct(st@),
{
    assert((Value { kind: Some(Kind::StructValue(st)) })@->Struct_0 =~= st@);
}

pub proof fn lemma_list_model(l: ListValue)
    ensures
        (Value { kind: Some(Kind::ListValue(l)) })@ == ProtoModel::List(l@),
{
    assert((Value { kind: Some(Kind::ListValue(l)) })@->List_0 =~= l@);
}

} // verus!
