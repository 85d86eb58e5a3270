//! Mapping between the domain model and the wire protocol, and the conversion
//! of dynamic values to and from wire values.
use vstd::prelude::*;
use crate::json::{Json, JsonMap, JsonModel, keys_unique, lemma_object_model};
use crate::az_req::model::{
    Action, AzModel, AzRequest, AzResponse, ContextResponse, Entities, Evaluation,
    EvaluationResponse, PolicyStore, Principal, ReasonResponse, Resource, Subject,
};
use crate::pdp;
use crate::pdp::{Kind, ListValue, ProtoModel, Struct, lemma_list_model, lemma_struct_model};

verus! {

/// How deeply arrays and objects may nest inside one dynamic value of a map.
pub const MAX_DEPTH: usize = 64;

/// A dynamic value could not be put on the wire.
#[derive(Debug, Clone, Copy, PartialEq, Eq)]
pub enum EncodeError {
    /// Arrays and objects nest more deeply than [`MAX_DEPTH`].
    TooDeep,
}

/// Whether a binary64 bit pattern is a finite number (not an infinity or NaN).
pub open spec fn is_finite_bits(bits: u64) -> bool {
    (bits >> 52u64) & 0x7ffu64 != 0x7ffu64
}

/// The wire value of a dynamic value.
pub open spec fn encode(v: JsonModel) -> ProtoModel
    decreases v,
{
    match v {
        JsonModel::Null => ProtoModel::Null(0),
        JsonModel::Bool(b) => ProtoModel::Bool(b),
        JsonModel::Number(n) => ProtoModel::Number(n),
        JsonModel::Str(s) => ProtoModel::Str(s),
        JsonModel::Array(items) => ProtoModel::List(
            Seq::new(
                items.len(),
                |i: int|
                    if 0 <= i < items.len() {
                        encode(items[i])
                    } else {
                        ProtoModel::Unset
                    },
            ),
        ),
        JsonModel::Object(e) => ProtoModel::Struct(
            Seq::new(
                e.len(),
                |i: int|
                    if 0 <= i < e.len() {
                        (e[i].0, encode(e[i].1))
                    } else {
                        (Seq::empty(), ProtoModel::Unset)
                    },
            ),
        ),
    }
}

/// The wire fields of a dynamic map: each entry keeps its key and place.
pub open spec fn encode_entries(e: Seq<(Seq<char>, JsonModel)>) -> Seq<(Seq<char>, ProtoModel)> {
    Seq::new(e.len(), |i: int| (e[i].0, encode(e[i].1)))
}

/// The dynamic value of a wire value. An unset kind and a non-finite number
/// read as null.
pub open spec fn decode(p: ProtoModel) -> JsonModel
    decreases p,
{
    match p {
        ProtoModel::Unset => JsonModel::Null,
        ProtoModel::Null(_) => JsonModel::Null,
        ProtoModel::Number(n) => if is_finite_bits(n) {
            JsonModel::Number(n)
        } else {
            JsonModel::Null
        },
        ProtoModel::Str(s) => JsonModel::Str(s),
        ProtoModel::Bool(b) => JsonModel::Bool(b),
        ProtoModel::Struct(f) => JsonModel::Object(
            Seq::new(
                f.len(),
                |i: int|
                    if 0 <= i < f.len() {
                        (f[i].0, decode(f[i].1))
                    } else {
                        (Seq::empty(), JsonModel::Null)
                    },
            ),
        ),
        ProtoModel::List(vs) => JsonModel::Array(
            Seq::new(
                vs.len(),
                |i: int|
                    if 0 <= i < vs.len() {
                        decode(vs[i])
                    } else {
                        JsonModel::Null
                    },
            ),
        ),
    }
}

/// The dynamic map of a wire struct's fields.
pub open spec fn decode_fields(f: Seq<(Seq<char>, ProtoModel)>) -> Seq<(Seq<char>, JsonModel)> {
    Seq::new(f.len(), |i: int| (f[i].0, decode(f[i].1)))
}

/// Arrays and objects nest at most `depth` levels deep in `v`.
pub open spec fn fits(v: JsonModel, depth: nat) -> bool
    decreases v,
{
    match v {
        JsonModel::Array(items) => depth > 0 && forall|i: int|
            0 <= i < items.len() ==> fits(#[trigger] items[i], (depth - 1) as nat),
        JsonModel::Object(e) => depth > 0 && forall|i: int|
            0 <= i < e.len() ==> fits(#[trigger] e[i].1, (depth - 1) as nat),
        _ => true,
    }
}

/// Every value of the map nests at most `depth` levels deep.
pub open spec fn entries_fit(e: Seq<(Seq<char>, JsonModel)>, depth: nat) -> bool {
    forall|i: int| 0 <= i < e.len() ==> fits(#[trigger] e[i].1, depth)
}

/// The map can be put on the wire.
pub open spec fn map_fits(e: Seq<(Seq<char>, JsonModel)>) -> bool {
    entries_fit(e, MAX_DEPTH as nat)
}

/// Every number in `v` is finite, as in any value read from a JSON document.
pub open spec fn numbers_finite(v: JsonModel) -> bool
    decreases v,
{
    match v {
        JsonModel::Number(n) => is_finite_bits(n),
        JsonModel::Array(items) => forall|i: int|
            0 <= i < items.len() ==> numbers_finite(#[trigger] items[i]),
        JsonModel::Object(e) => forall|i: int| 0 <= i < e.len() ==> numbers_finite(#[trigger] e[i].1),
        _ => true,
    }
}

/// The entries of an optional map; an absent map has none.
pub open spec fn opt_entries(m: Option<JsonMap>) -> Seq<(Seq<char>, JsonModel)> {
    match m {
        Some(m) => m@,
        None => Seq::empty(),
    }
}

/// The maps of an entity list, holes left out, in their order.
pub open spec fn present_entries(items: Seq<Option<JsonMap>>) -> Seq<Seq<(Seq<char>, JsonModel)>>
    decreases items.len(),
{
    if items.len() == 0 {
        Seq::empty()
    } else {
        let rest = present_entries(items.drop_last());
        match items.last() {
            Some(m) => rest.push(m@),
            None => rest,
        }
    }
}

/// Every map present in the entity list can be put on the wire.
pub open spec fn present_fit(items: Seq<Option<JsonMap>>) -> bool {
    forall|j: int| 0 <= j < items.len() && (#[trigger] items[j]) is Some ==> map_fits(items[j]->Some_0@)
}

/// The wire fields of each struct.
pub open spec fn structs_view(s: Seq<Struct>) -> Seq<Seq<(Seq<char>, ProtoModel)>> {
    Seq::new(s.len(), |i: int| s[i]@)
}

/// The wire structs of the maps present in an entity list.
pub open spec fn encode_present(items: Seq<Option<JsonMap>>) -> Seq<Seq<(Seq<char>, ProtoModel)>> {
    present_entries(items).map_values(|e: Seq<(Seq<char>, JsonModel)>| encode_entries(e))
}

/// The characters of an optional string.
pub open spec fn opt_str(o: Option<String>) -> Option<Seq<char>> {
    match o {
        Some(s) => Some(s@),
        None => None,
    }
}

/// The wire struct is present and holds the encoding of the optional map.
pub open spec fn struct_mapped(m: Option<JsonMap>, w: Option<Struct>) -> bool {
    w is Some && w->Some_0@ == encode_entries(opt_entries(m))
}

pub open spec fn policy_store_mapped(p: PolicyStore, w: pdp::PolicyStore) -> bool {
    w.id@ == p.id@ && w.kind@ == p.kind@
}

pub open spec fn principal_mapped(p: Principal, w: pdp::Principal) -> bool {
    w.id@ == p.id@ && w.kind@ == p.kind@ && opt_str(w.source) == opt_str(p.source)
}

pub open spec fn entities_mapped(e: Entities, w: pdp::Entities) -> bool {
    w.schema@ == e.schema@ && structs_view(w.items@) == encode_present(e.items@)
}

pub open spec fn subject_mapped(s: Subject, w: pdp::Subject) -> bool {
    w.id@ == s.id@ && w.kind@ == s.kind@ && opt_str(w.source) == opt_str(s.source)
        && struct_mapped(s.properties, w.properties)
}

pub open spec fn resource_mapped(r: Resource, w: pdp::Resource) -> bool {
    w.id@ == r.id@ && w.kind@ == r.kind@ && struct_mapped(r.properties, w.properties)
}

pub open spec fn action_mapped(a: Action, w: pdp::Action) -> bool {
    w.name@ == a.name@ && struct_mapped(a.properties, w.properties)
}

pub open spec fn opt_policy_store_mapped(o: Option<PolicyStore>, w: Option<pdp::PolicyStore>) -> bool {
    match (o, w) {
        (None, None) => true,
        (Some(x), Some(y)) => policy_store_mapped(x, y),
        _ => false,
    }
}

pub open spec fn opt_principal_mapped(o: Option<Principal>, w: Option<pdp::Principal>) -> bool {
    match (o, w) {
        (None, None) => true,
        (Some(x), Some(y)) => principal_mapped(x, y),
        _ => false,
    }
}

pub open spec fn opt_entities_mapped(o: Option<Entities>, w: Option<pdp::Entities>) -> bool {
    match (o, w) {
        (None, None) => true,
        (Some(x), Some(y)) => entities_mapped(x, y),
        _ => false,
    }
}

pub open spec fn opt_subject_mapped(o: Option<Subject>, w: Option<pdp::Subject>) -> bool {
    match (o, w) {
        (None, None) => true,
        (Some(x), Some(y)) => subject_mapped(x, y),
        _ => false,
    }
}

pub open spec fn opt_resource_mapped(o: Option<Resource>, w: Option<pdp::Resource>) -> bool {
    match (o, w) {
        (None, None) => true,
        (Some(x), Some(y)) => resource_mapped(x, y),
        _ => false,
    }
}

pub open spec fn opt_action_mapped(o: Option<Action>, w: Option<pdp::Action>) -> bool {
    match (o, w) {
        (None, None) => true,
        (Some(x), Some(y)) => action_mapped(x, y),
        _ => false,
    }
}

/// An evaluation on the wire always carries its request id and a context
/// struct.
pub open spec fn evaluation_mapped(e: Evaluation, w: pdp::EvaluationRequest) -> bool {
    w.request_id is Some && w.request_id->Some_0@ == e.request_id@
        && opt_subject_mapped(e.subject, w.subject)
        && opt_resource_mapped(e.resource, w.resource)
        && opt_action_mapped(e.action, w.action)
        && struct_mapped(e.context, w.context)
}

pub open spec fn model_mapped(m: AzModel, w: pdp::AuthorizationModelRequest) -> bool {
    w.zone_id == m.zone_id && opt_policy_store_mapped(m.policy_store, w.policy_store)
        && opt_principal_mapped(m.principal, w.principal)
        && opt_entities_mapped(m.entities, w.entities)
}

/// The wire evaluations: one for each evaluation, in order, and none where
/// the request has no list.
pub open spec fn evaluations_mapped(o: Option<Vec<Evaluation>>, w: Seq<pdp::EvaluationRequest>) -> bool {
    match o {
        None => w.len() == 0,
        Some(evs) => w.len() == evs@.len() && forall|i: int|
            0 <= i < w.len() ==> evaluation_mapped(evs@[i], #[trigger] w[i]),
    }
}

pub open spec fn request_mapped(r: AzRequest, w: pdp::AuthorizationCheckRequest) -> bool {
    opt_str(w.request_id) == opt_str(r.request_id) && w.authorization_model is Some
        && model_mapped(r.authorization_model, w.authorization_model->Some_0)
        && opt_subject_mapped(r.subject, w.subject)
        && opt_resource_mapped(r.resource, w.resource)
        && opt_action_mapped(r.action, w.action)
        && struct_mapped(r.context, w.context)
        && evaluations_mapped(r.evaluations, w.evaluations@)
}

pub open spec fn subject_fits(o: Option<Subject>) -> bool {
    match o {
        Some(s) => map_fits(opt_entries(s.properties)),
        None => true,
    }
}

pub open spec fn resource_fits(o: Option<Resource>) -> bool {
    match o {
        Some(r) => map_fits(opt_entries(r.properties)),
        None => true,
    }
}

pub open spec fn action_fits(o: Option<Action>) -> bool {
    match o {
        Some(a) => map_fits(opt_entries(a.properties)),
        None => true,
    }
}

pub open spec fn entity_list_fits(o: Option<Entities>) -> bool {
    match o {
        Some(e) => present_fit(e.items@),
        None => true,
    }
}

pub open spec fn evaluation_fits(e: Evaluation) -> bool {
    subject_fits(e.subject) && resource_fits(e.resource) && action_fits(e.action) && map_fits(
        opt_entries(e.context),
    )
}

pub open spec fn evaluations_fit(o: Option<Vec<Evaluation>>) -> bool {
    match o {
        Some(evs) => forall|i: int| 0 <= i < evs@.len() ==> evaluation_fits(#[trigger] evs@[i]),
        None => true,
    }
}

/// Every dynamic map of the request can be put on the wire.
pub open spec fn request_fits(r: AzRequest) -> bool {
    &&& entity_list_fits(r.authorization_model.entities)
    &&& subject_fits(r.subject)
    &&& resource_fits(r.resource)
    &&& action_fits(r.action)
    &&& map_fits(opt_entries(r.context))
    &&& evaluations_fit(r.evaluations)
}

/// The characters of an optional string; an absent one reads as empty.
pub open spec fn str_or_empty(o: Option<String>) -> Seq<char> {
    match o {
        Some(s) => s@,
        None => Seq::empty(),
    }
}

pub open spec fn reason_mapped(w: pdp::ReasonResponse, r: ReasonResponse) -> bool {
    r.code@ == w.code@ && r.message@ == w.message@
}

pub open spec fn opt_reason_mapped(w: Option<pdp::ReasonResponse>, r: Option<ReasonResponse>) -> bool {
    match (w, r) {
        (None, None) => true,
        (Some(x), Some(y)) => reason_mapped(x, y),
        _ => false,
    }
}

pub open spec fn context_mapped(w: pdp::ContextResponse, r: ContextResponse) -> bool {
    r.id@ == w.id@ && opt_reason_mapped(w.reason_admin, r.reason_admin) && opt_reason_mapped(
        w.reason_user,
        r.reason_user,
    )
}

pub open spec fn opt_context_mapped(w: Option<pdp::ContextResponse>, r: Option<ContextResponse>) -> bool {
    match (w, r) {
        (None, None) => true,
        (Some(x), Some(y)) => context_mapped(x, y),
        _ => false,
    }
}

/// A missing request id reads as the empty string.
pub open spec fn evaluation_response_mapped(
    w: pdp::EvaluationResponse,
    r: EvaluationResponse,
) -> bool {
    r.request_id@ == str_or_empty(w.request_id) && r.decision == w.decision && opt_context_mapped(
        w.context,
        r.context,
    )
}

pub open spec fn opt_evaluation_response_mapped(
    w: Option<pdp::EvaluationResponse>,
    r: Option<EvaluationResponse>,
) -> bool {
    match (w, r) {
        (None, None) => true,
        (Some(x), Some(y)) => evaluation_response_mapped(x, y),
        _ => false,
    }
}

/// The response keeps the decision, the context and every evaluation in
/// order; a missing request id reads as the empty string.
pub open spec fn response_mapped(w: pdp::AuthorizationCheckResponse, r: AzResponse) -> bool {
    &&& r.request_id@ == str_or_empty(w.request_id)
    &&& r.decision == w.decision
    &&& opt_context_mapped(w.context, r.context)
    &&& r.evaluations@.len() == w.evaluations@.len()
    &&& forall|i: int|
        0 <= i < w.evaluations@.len() ==> evaluation_response_mapped(
            w.evaluations@[i],
            #[trigger] r.evaluations@[i],
        )
}

/// Decoding the encoding of a dynamic value whose numbers are finite gives
/// the value back.
pub proof fn lemma_decode_encode(v: JsonModel)
    requires
        numbers_finite(v),
    ensures
        decode(encode(v)) == v,
    decreases v,
{
    match v {
        JsonModel::Array(items) => {
            assert forall|i: int| 0 <= i < items.len() implies decode(encode(items[i])) == items[i] by {
                lemma_decode_encode(items[i]);
            }
            assert(decode(encode(v))->Array_0 =~= items);
        },
        JsonModel::Object(e) => {
            assert forall|i: int| 0 <= i < e.len() implies decode(encode(e[i].1)) == e[i].1 by {
                lemma_decode_encode(e[i].1);
            }
            assert(decode(encode(v))->Object_0 =~= e);
        },
        _ => {},
    }
}

/// A dynamic value whose numbers are all finite survives the trip to the wire
/// and back unchanged: decoding its encoding gives the same value.
pub proof fn lemma_round_trip(v: Json)
    requires
        numbers_finite(v@),
    ensures
        decode(encode(v@)) == v@,
{
    lemma_decode_encode(v@);
}

/// A dynamic map whose numbers are all finite survives the trip to a wire
/// struct and back unchanged.
pub proof fn lemma_map_round_trip(m: JsonMap)
    requires
        forall|i: int| 0 <= i < m@.len() ==> numbers_finite(#[trigger] m@[i].1),
    ensures
        decode_fields(encode_entries(m@)) == m@,
{
    assert forall|i: int| 0 <= i < m@.len() implies decode(encode(m@[i].1)) == m@[i].1 by {
        lemma_decode_encode(m@[i].1);
    }
    assert(decode_fields(encode_entries(m@)) =~= m@);
}

fn clone_opt_str(o: &Option<String>) -> (r: Option<String>)
    ensures
        opt_str(r) == opt_str(*o),
{
    match o {
        Some(s) => Some(s.clone()),
        None => None,
    }
}

fn string_or_empty(o: &Option<String>) -> (r: String)
    ensures
        r@ == str_or_empty(*o),
{
    match o {
        Some(s) => s.clone(),
        None => String::new(),
    }
}

fn is_finite(bits: u64) -> (r: bool)
    ensures
        r == is_finite_bits(bits),
{
    (bits >> 52u64) & 0x7ffu64 != 0x7ffu64
}

/// Maps the domain model to wire messages and wire messages back.
pub struct MapService;

impl MapService {
    /// The wire value of a dynamic value, or [`EncodeError::TooDeep`] where
    /// arrays and objects nest more than `depth` levels deep.
    pub fn convert_to_value(v: &Json, depth: usize) -> (r: Result<pdp::Value, EncodeError>)
        ensures
            match r {
                Ok(w) => fits(v@, depth as nat) && w@ == encode(v@),
                Err(e) => !fits(v@, depth as nat) && e == EncodeError::TooDeep,
            },
        decreases v,
    {
        match v {
            Json::Null => Ok(pdp::Value { kind: Some(Kind::NullValue(0)) }),
            Json::Bool(b) => Ok(pdp::Value { kind: Some(Kind::BoolValue(*b)) }),
            Json::Number(n) => Ok(pdp::Value { kind: Some(Kind::NumberValue(*n)) }),
            Json::String(s) => Ok(pdp::Value { kind: Some(Kind::StringValue(s.clone())) }),
            Json::Array(items) => {
                if depth == 0 {
                    return Err(EncodeError::TooDeep);
                }
                let mut values: Vec<pdp::Value> = Vec::new();
                let mut i: usize = 0;
                while i < items.len()
                    invariant
                        *v == Json::Array(*items),
                        depth > 0,
                        i <= items@.len(),
                        values@.len() == i,
                        forall|k: int|
                            0 <= k < i ==> fits(items@[k]@, (depth - 1) as nat) && (
                            #[trigger] values@[k])@ == encode(items@[k]@),
                    decreases items@.len() - i,
                {
                    proof {
                        assert(decreases_to!(*v => (*v)->Array_0));
                        assert(decreases_to!(*items => items[i as int]));
                    }
                    match Self::convert_to_value(&items[i], depth - 1) {
                        Ok(w) => values.push(w),
                        Err(e) => {
                            assert(v@->Array_0[i as int] == items@[i as int]@);
                            return Err(e);
                        },
                    }
                    i += 1;
                }
                let l = ListValue { values };
                proof {
                    assert forall|k: int| 0 <= k < items@.len() implies fits(
                        #[trigger] v@->Array_0[k],
                        (depth - 1) as nat,
                    ) by {
                        assert(l.values@[k]@ == encode(items@[k]@));
                        assert(v@->Array_0[k] == items@[k]@);
                    }
                    lemma_list_model(l);
                    assert(l@ =~= encode(v@)->List_0);
                }
                Ok(pdp::Value { kind: Some(Kind::ListValue(l)) })
            },
            Json::Object(m) => {
                proof {
                    lemma_object_model(*m);
                    assert(decreases_to!(*v => (*v)->Object_0));
                }
                if depth == 0 {
                    return Err(EncodeError::TooDeep);
                }
                match Self::encode_map(m, depth - 1) {
                    Ok(st) => {
                        proof {
                            lemma_struct_model(st);
                            assert(st@ =~= encode(v@)->Struct_0);
                        }
                        Ok(pdp::Value { kind: Some(Kind::StructValue(st)) })
                    },
                    Err(e) => Err(e),
                }
            },
        }
    }

    /// The wire struct of a dynamic map; an absent map gives an empty struct,
    /// never an absent one.
    pub fn from_dictionary(dict: Option<&JsonMap>) -> (r: Result<Struct, EncodeError>)
        ensures
            match dict {
                Some(m) => match r {
                    Ok(st) => map_fits(m@) && st@ == encode_entries(m@),
                    Err(e) => !map_fits(m@) && e == EncodeError::TooDeep,
                },
                None => r is Ok && r->Ok_0@.len() == 0,
            },
    {
        match dict {
            Some(m) => Self::encode_map(m, MAX_DEPTH),
            None => {
                let st = Struct { fields: Vec::new() };
                assert(st@.len() == 0);
                Ok(st)
            },
        }
    }

    /// The wire structs of an entity list: each hole is dropped, and the maps
    /// that are present keep their order.
    pub fn to_repeated_struct(items: Option<&Vec<Option<JsonMap>>>) -> (r: Result<
        Vec<Struct>,
        EncodeError,
    >)
        ensures
            match items {
                Some(v) => match r {
                    Ok(list) => present_fit(v@) && structs_view(list@) == encode_present(v@),
                    Err(e) => !present_fit(v@) && e == EncodeError::TooDeep,
                },
                None => r is Ok && r->Ok_0@.len() == 0,
            },
    {
        match items {
            Some(v) => Self::encode_items(v),
            None => {
                let list: Vec<Struct> = Vec::new();
                assert(list@.len() == 0);
                Ok(list)
            },
        }
    }

    fn encode_items(v: &Vec<Option<JsonMap>>) -> (r: Result<Vec<Struct>, EncodeError>)
        ensures
            match r {
                Ok(list) => present_fit(v@) && structs_view(list@) == encode_present(v@),
                Err(e) => !present_fit(v@) && e == EncodeError::TooDeep,
            },
    {
        let mut list: Vec<Struct> = Vec::new();
        let mut i: usize = 0;
        while i < v.len()
            invariant
                i <= v@.len(),
                present_fit(v@.take(i as int)),
                structs_view(list@) == encode_present(v@.take(i as int)),
            decreases v@.len() - i,
        {
            let ghost pre = v@.take(i as int);
            assert(v@.take(i as int + 1).drop_last() =~= pre);
            assert(v@.take(i as int + 1).last() == v@[i as int]);
            if let Some(m) = &v[i] {
                match Self::from_dictionary(Some(m)) {
                    Ok(s) => {
                        assert(present_entries(v@.take(i as int + 1)) == present_entries(pre).push(m@));
                        let ghost old_list = list@;
                        list.push(s);
                        assert(structs_view(list@) =~= structs_view(old_list).push(s@));
                        assert(structs_view(list@) =~= encode_present(v@.take(i as int + 1)));
                    },
                    Err(e) => {
                        assert(v@[i as int] == Some(*m));
                        return Err(e);
                    },
                }
            } else {
                assert(structs_view(list@) =~= encode_present(v@.take(i as int + 1)));
            }
            assert(present_fit(v@.take(i as int + 1))) by {
                assert forall|j: int|
                    0 <= j < i + 1 && (#[trigger] v@.take(i as int + 1)[j]) is Some implies map_fits(
                    v@.take(i as int + 1)[j]->Some_0@,
                ) by {
                    if j < i {
                        assert(v@.take(i as int + 1)[j] == pre[j]);
                    }
                }
            }
            i += 1;
        }
        assert(v@.take(v@.len() as int) =~= v@);
        Ok(list)
    }

    fn properties(m: &Option<JsonMap>) -> (r: Result<Option<Struct>, EncodeError>)
        ensures
            match r {
                Ok(w) => map_fits(opt_entries(*m)) && struct_mapped(*m, w),
                Err(e) => !map_fits(opt_entries(*m)) && e == EncodeError::TooDeep,
            },
    {
        match Self::from_dictionary(m.as_ref()) {
            Ok(st) => {
                assert(st@ =~= encode_entries(opt_entries(*m)));
                Ok(Some(st))
            },
            Err(e) => Err(e),
        }
    }

    pub fn map_policy_store(ps: &Option<PolicyStore>) -> (r: Option<pdp::PolicyStore>)
        ensures
            opt_policy_store_mapped(*ps, r),
    {
        match ps {
            Some(p) => Some(pdp::PolicyStore { id: p.id.clone(), kind: p.kind.clone() }),
            None => None,
        }
    }

    pub fn map_principal(pr: &Option<Principal>) -> (r: Option<pdp::Principal>)
        ensures
            opt_principal_mapped(*pr, r),
    {
        match pr {
            Some(p) => Some(
                pdp::Principal {
                    id: p.id.clone(),
                    kind: p.kind.clone(),
                    source: clone_opt_str(&p.source),
                },
            ),
            None => None,
        }
    }

    pub fn map_entities(ent: &Option<Entities>) -> (r: Result<Option<pdp::Entities>, EncodeError>)
        ensures
            match r {
                Ok(w) => entity_list_fits(*ent) && opt_entities_mapped(*ent, w),
                Err(e) => !entity_list_fits(*ent) && e == EncodeError::TooDeep,
            },
    {
        match ent {
            Some(e) => match Self::to_repeated_struct(Some(&e.items)) {
                Ok(items) => Ok(Some(pdp::Entities { schema: e.schema.clone(), items })),
                Err(err) => Err(err),
            },
            None => Ok(None),
        }
    }

    pub fn map_subject(sub: &Option<Subject>) -> (r: Result<Option<pdp::Subject>, EncodeError>)
        ensures
            match r {
                Ok(w) => subject_fits(*sub) && opt_subject_mapped(*sub, w),
                Err(e) => !subject_fits(*sub) && e == EncodeError::TooDeep,
            },
    {
        match sub {
            Some(s) => match Self::properties(&s.properties) {
                Ok(properties) => Ok(
                    Some(
                        pdp::Subject {
                            id: s.id.clone(),
                            kind: s.kind.clone(),
                            source: clone_opt_str(&s.source),
                            properties,
                        },
                    ),
                ),
                Err(e) => Err(e),
            },
            None => Ok(None),
        }
    }

    pub fn map_resource(res: &Option<Resource>) -> (r: Result<Option<pdp::Resource>, EncodeError>)
        ensures
            match r {
                Ok(w) => resource_fits(*res) && opt_resource_mapped(*res, w),
                Err(e) => !resource_fits(*res) && e == EncodeError::TooDeep,
            },
    {
        match res {
            Some(x) => match Self::properties(&x.properties) {
                Ok(properties) => Ok(
                    Some(pdp::Resource { id: x.id.clone(), kind: x.kind.clone(), properties }),
                ),
                Err(e) => Err(e),
            },
            None => Ok(None),
        }
    }

    pub fn map_action(act: &Option<Action>) -> (r: Result<Option<pdp::Action>, EncodeError>)
        ensures
            match r {
                Ok(w) => action_fits(*act) && opt_action_mapped(*act, w),
                Err(e) => !action_fits(*act) && e == EncodeError::TooDeep,
            },
    {
        match act {
            Some(a) => match Self::properties(&a.properties) {
                Ok(properties) => Ok(Some(pdp::Action { name: a.name.clone(), properties })),
                Err(e) => Err(e),
            },
            None => Ok(None),
        }
    }

    pub fn map_evaluation(eval: &Option<Evaluation>) -> (r: Result<
        Option<pdp::EvaluationRequest>,
        EncodeError,
    >)
        ensures
            match (*eval, r) {
                (None, Ok(w)) => w is None,
                (Some(e), Ok(w)) => evaluation_fits(e) && w is Some && evaluation_mapped(
                    e,
                    w->Some_0,
                ),
                (Some(e), Err(err)) => !evaluation_fits(e) && err == EncodeError::TooDeep,
                (None, Err(_)) => false,
            },
    {
        match eval {
            Some(e) => match Self::map_one_evaluation(e) {
                Ok(w) => Ok(Some(w)),
                Err(err) => Err(err),
            },
            None => Ok(None),
        }
    }

    fn map_one_evaluation(e: &Evaluation) -> (r: Result<pdp::EvaluationRequest, EncodeError>)
        ensures
            match r {
                Ok(w) => evaluation_fits(*e) && evaluation_mapped(*e, w),
                Err(err) => !evaluation_fits(*e) && err == EncodeError::TooDeep,
            },
    {
        let subject = match Self::map_subject(&e.subject) {
            Ok(x) => x,
            Err(err) => return Err(err),
        };
        let resource = match Self::map_resource(&e.resource) {
            Ok(x) => x,
            Err(err) => return Err(err),
        };
        let action = match Self::map_action(&e.action) {
            Ok(x) => x,
            Err(err) => return Err(err),
        };
        let context = match Self::properties(&e.context) {
            Ok(x) => x,
            Err(err) => return Err(err),
        };
        Ok(
            pdp::EvaluationRequest {
                request_id: Some(e.request_id.clone()),
                subject,
                resource,
                action,
                context,
            },
        )
    }

    pub fn map_authz_model(model: &AzModel) -> (r: Result<
        pdp::AuthorizationModelRequest,
        EncodeError,
    >)
        ensures
            match r {
                Ok(w) => entity_list_fits(model.entities) && model_mapped(*model, w),
                Err(e) => !entity_list_fits(model.entities) && e == EncodeError::TooDeep,
            },
    {
        let entities = match Self::map_entities(&model.entities) {
            Ok(x) => x,
            Err(e) => return Err(e),
        };
        Ok(
            pdp::AuthorizationModelRequest {
                zone_id: model.zone_id,
                policy_store: Self::map_policy_store(&model.policy_store),
                principal: Self::map_principal(&model.principal),
                entities,
            },
        )
    }

    /// The wire request of a domain request. Every dynamic map becomes a
    /// struct, present even where the map is absent or empty; a request
    /// without an evaluation list gets an empty one.
    pub fn map_az_request(req: &AzRequest) -> (r: Result<
        pdp::AuthorizationCheckRequest,
        EncodeError,
    >)
        ensures
            match r {
                Ok(w) => request_fits(*req) && request_mapped(*req, w),
                Err(e) => !request_fits(*req) && e == EncodeError::TooDeep,
            },
    {
        let authorization_model = match Self::map_authz_model(&req.authorization_model) {
            Ok(x) => x,
            Err(e) => return Err(e),
        };
        let subject = match Self::map_subject(&req.subject) {
            Ok(x) => x,
            Err(e) => return Err(e),
        };
        let resource = match Self::map_resource(&req.resource) {
            Ok(x) => x,
            Err(e) => return Err(e),
        };
        let action = match Self::map_action(&req.action) {
            Ok(x) => x,
            Err(e) => return Err(e),
        };
        let context = match Self::properties(&req.context) {
            Ok(x) => x,
            Err(e) => return Err(e),
        };
        let evaluations = match Self::map_evaluations(&req.evaluations) {
            Ok(x) => x,
            Err(e) => return Err(e),
        };
        Ok(
            pdp::AuthorizationCheckRequest {
                request_id: clone_opt_str(&req.request_id),
                authorization_model: Some(authorization_model),
                subject,
                resource,
                action,
                context,
                evaluations,
            },
        )
    }

    fn map_evaluations(evs: &Option<Vec<Evaluation>>) -> (r: Result<
        Vec<pdp::EvaluationRequest>,
        EncodeError,
    >)
        ensures
            match r {
                Ok(w) => evaluations_fit(*evs) && evaluations_mapped(*evs, w@),
                Err(e) => !evaluations_fit(*evs) && e == EncodeError::TooDeep,
            },
    {
        let mut out: Vec<pdp::EvaluationRequest> = Vec::new();
        match evs {
            Some(v) => {
                let mut i: usize = 0;
                while i < v.len()
                    invariant
                        i <= v@.len(),
                        out@.len() == i,
                        forall|k: int| 0 <= k < i ==> evaluation_fits(#[trigger] v@[k]),
                        forall|k: int| 0 <= k < i ==> evaluation_mapped(v@[k], #[trigger] out@[k]),
                    ensures
                        i <= v@.len(),
                        out@.len() == i,
                        forall|k: int| 0 <= k < i ==> evaluation_fits(#[trigger] v@[k]),
                        forall|k: int| 0 <= k < i ==> evaluation_mapped(v@[k], #[trigger] out@[k]),
                        i < v@.len() ==> !evaluation_fits(v@[i as int]),
                    decreases v@.len() - i,
                {
                    match Self::map_one_evaluation(&v[i]) {
                        Ok(w) => out.push(w),
                        Err(_) => break,
                    }
                    i += 1;
                }
                if i < v.len() {
                    Err(EncodeError::TooDeep)
                } else {
                    Ok(out)
                }
            },
            None => Ok(out),
        }
    }

    pub fn map_reason_response(r: &Option<pdp::ReasonResponse>) -> (out: Option<ReasonResponse>)
        ensures
            opt_reason_mapped(*r, out),
    {
        match r {
            Some(rr) => Some(ReasonResponse { code: rr.code.clone(), message: rr.message.clone() }),
            None => None,
        }
    }

    pub fn map_context_response(c: &Option<pdp::ContextResponse>) -> (out: Option<ContextResponse>)
        ensures
            opt_context_mapped(*c, out),
    {
        match c {
            Some(ctx) => Some(
                ContextResponse {
                    id: ctx.id.clone(),
                    reason_admin: Self::map_reason_response(&ctx.reason_admin),
                    reason_user: Self::map_reason_response(&ctx.reason_user),
                },
            ),
            None => None,
        }
    }

    pub fn map_evaluation_response(e: &Option<pdp::EvaluationResponse>) -> (out: Option<
        EvaluationResponse,
    >)
        ensures
            opt_evaluation_response_mapped(*e, out),
    {
        match e {
            Some(ev) => Some(Self::map_one_evaluation_response(ev)),
            None => None,
        }
    }

    fn map_one_evaluation_response(ev: &pdp::EvaluationResponse) -> (out: EvaluationResponse)
        ensures
            evaluation_response_mapped(*ev, out),
    {
        EvaluationResponse {
            request_id: string_or_empty(&ev.request_id),
            decision: ev.decision,
            context: Self::map_context_response(&ev.context),
        }
    }

    /// The domain response of a wire response.
    pub fn map_grpc_response(resp: &pdp::AuthorizationCheckResponse) -> (out: AzResponse)
        ensures
            response_mapped(*resp, out),
    {
        let mut evaluations: Vec<EvaluationResponse> = Vec::new();
        let mut i: usize = 0;
        while i < resp.evaluations.len()
            invariant
                i <= resp.evaluations@.len(),
                evaluations@.len() == i,
                forall|k: int|
                    0 <= k < i ==> evaluation_response_mapped(
                        resp.evaluations@[k],
                        #[trigger] evaluations@[k],
                    ),
            decreases resp.evaluations@.len() - i,
        {
            evaluations.push(Self::map_one_evaluation_response(&resp.evaluations[i]));
            i += 1;
        }
        AzResponse {
            request_id: string_or_empty(&resp.request_id),
            decision: resp.decision,
            context: Self::map_context_response(&resp.context),
            evaluations,
        }
    }

    fn encode_map(m: &JsonMap, depth: usize) -> (r: Result<Struct, EncodeError>)
        ensures
            match r {
                Ok(st) => entries_fit(m@, depth as nat) && st@ == encode_entries(m@),
                Err(e) => !entries_fit(m@, depth as nat) && e == EncodeError::TooDeep,
            },
        decreases m,
    {
        let mut fields: Vec<(String, pdp::Value)> = Vec::new();
        let mut i: usize = 0;
        while i < m.entries.len()
            invariant
                i <= m.entries@.len(),
                fields@.len() == i,
                forall|k: int|
                    0 <= k < i ==> fits(m@[k].1, depth as nat) && (#[trigger] fields@[k]).0@
                        == m@[k].0 && fields@[k].1@ == encode(m@[k].1),
            decreases m.entries@.len() - i,
        {
            proof {
                assert(decreases_to!(*m => m.entries));
                assert(decreases_to!(m.entries => m.entries[i as int]));
                assert(decreases_to!(m.entries[i as int] => m.entries[i as int].1));
            }
            assert(m@[i as int].1 == m.entries@[i as int].1@);
            match Self::convert_to_value(&m.entries[i].1, depth) {
                Ok(w) => {
                    let key = m.entries[i].0.clone();
                    fields.push((key, w));
                },
                Err(e) => {
                    return Err(e);
                },
            }
            i += 1;
        }
        let st = Struct { fields };
        assert(st@ =~= encode_entries(m@));
        assert forall|k: int| 0 <= k < m@.len() implies fits(#[trigger] m@[k].1, depth as nat) by {
            assert(st.fields@[k].0@ == m@[k].0);
        }
        Ok(st)
    }

    /// The dynamic value of a wire value.
    pub fn convert_from_value(v: &pdp::Value) -> (r: Json)
        ensures
            r@ == decode(v@),
        decreases v,
    {
        match &v.kind {
            None => Json::Null,
            Some(Kind::NullValue(_)) => Json::Null,
            Some(Kind::BoolValue(b)) => Json::Bool(*b),
            Some(Kind::NumberValue(n)) => {
                if is_finite(*n) {
                    Json::Number(*n)
                } else {
                    Json::Null
                }
            },
            Some(Kind::StringValue(s)) => Json::String(s.clone()),
            Some(Kind::StructValue(st)) => {
                proof {
                    lemma_struct_model(*st);
                    assert(decreases_to!(*v => v.kind));
                    assert(decreases_to!(v.kind => v.kind->Some_0));
                    assert(decreases_to!(v.kind->Some_0 => v.kind->Some_0->StructValue_0));
                }
                let m = Self::to_dictionary(st);
                proof {
                    lemma_object_model(m);
                    assert(m@ =~= decode(v@)->Object_0);
                }
                Json::Object(m)
            },
            Some(Kind::ListValue(l)) => {
                proof {
                    lemma_list_model(*l);
                    assert(decreases_to!(*v => v.kind));
                    assert(decreases_to!(v.kind => v.kind->Some_0));
                    assert(decreases_to!(v.kind->Some_0 => v.kind->Some_0->ListValue_0));
                    assert(decreases_to!(*l => l.values));
                }
                let mut items: Vec<Json> = Vec::new();
                let mut i: usize = 0;
                while i < l.values.len()
                    invariant
                        v.kind == Some(Kind::ListValue(*l)),
                        i <= l.values@.len(),
                        items@.len() == i,
                        forall|k: int| 0 <= k < i ==> (#[trigger] items@[k])@ == decode(l@[k]),
                    decreases l.values@.len() - i,
                {
                    proof {
                        assert(decreases_to!(*v => v.kind));
                        assert(decreases_to!(v.kind => v.kind->Some_0));
                        assert(decreases_to!(v.kind->Some_0 => v.kind->Some_0->ListValue_0));
                        assert(decreases_to!(*l => l.values));
                        assert(decreases_to!(l.values => l.values[i as int]));
                    }
                    let item = Self::convert_from_value(&l.values[i]);
                    items.push(item);
                    i += 1;
                }
                let r = Json::Array(items);
                assert(r@->Array_0 =~= decode(v@)->Array_0);
                r
            },
        }
    }

    /// The dynamic map of a wire struct: each field keeps its key and place.
    pub fn to_dictionary(s: &Struct) -> (r: JsonMap)
        ensures
            r@ == decode_fields(s@),
            keys_unique(s@) ==> r.wf(),
        decreases s,
    {
        let mut entries: Vec<(String, Json)> = Vec::new();
        let mut i: usize = 0;
        while i < s.fields.len()
            invariant
                i <= s.fields@.len(),
                entries@.len() == i,
                forall|k: int|
                    0 <= k < i ==> (#[trigger] entries@[k]).0@ == s@[k].0 && entries@[k].1@
                        == decode(s@[k].1),
            decreases s.fields@.len() - i,
        {
            proof {
                assert(decreases_to!(*s => s.fields));
                assert(decreases_to!(s.fields => s.fields[i as int]));
                assert(decreases_to!(s.fields[i as int] => s.fields[i as int].1));
            }
            let key = s.fields[i].0.clone();
            let value = Self::convert_from_value(&s.fields[i].1);
            entries.push((key, value));
            i += 1;
        }
        let r = JsonMap { entries };
        assert(r@ =~= decode_fields(s@));
        r
    }
}

} // verus!
