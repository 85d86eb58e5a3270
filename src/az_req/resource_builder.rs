//! Builder of a [`Resource`].
use vstd::prelude::*;
use crate::az_req::model::Resource;
use crate::json::{Json, JsonMap, JsonModel, put};
use crate::mapper::map_service::opt_str;

verus! {

/// What a [`ResourceBuilder`] has been given so far.
pub struct ResourceDraft {
    pub id: Option<Seq<char>>,
    pub kind: Seq<char>,
    pub properties: Seq<(Seq<char>, JsonModel)>,
}

/// Builds a [`Resource`]; its id is empty unless set, and its properties map
/// is always present.
#[derive(Debug, Clone)]
pub struct ResourceBuilder {
    id: Option<String>,
    resource_type: String,
    properties: JsonMap,
}

impl View for ResourceBuilder {
    type V = ResourceDraft;

    closed spec fn view(&self) -> ResourceDraft {
        ResourceDraft { id: opt_str(self.id), kind: self.resource_type@, properties: self.properties@ }
    }
}

/// The resource holds what the draft holds; an id never set is empty.
pub open spec fn resource_from(d: ResourceDraft, r: Resource) -> bool {
    &&& r.id@ == match d.id {
        Some(id) => id,
        None => Seq::<char>::empty(),
    }
    &&& r.kind@ == d.kind
    &&& r.properties is Some
    &&& r.properties->Some_0@ == d.properties
}

impl ResourceBuilder {
    pub fn new(kind: String) -> (r: ResourceBuilder)
        ensures
            r@ == (ResourceDraft { id: None, kind: kind@, properties: Seq::empty() }),
    {
        ResourceBuilder { id: None, resource_type: kind, properties: JsonMap::new() }
    }

    pub fn with_id(self, id: String) -> (r: ResourceBuilder)
        ensures
            r@ == (ResourceDraft { id: Some(id@), ..self@ }),
    {
        let mut b = self;
        b.id = Some(id);
        b
    }

    /// Sets a property; a property with the same key is replaced.
    pub fn with_property(self, key: String, value: Json) -> (r: ResourceBuilder)
        ensures
            r@ == (ResourceDraft { properties: put(self@.properties, key@, value@), ..self@ }),
    {
        let mut b = self;
        b.properties.insert(key, value);
        b
    }

    pub fn build(self) -> (r: Resource)
        ensures
            resource_from(self@, r),
    {
        let id = match self.id {
            Some(id) => id,
            None => String::new(),
        };
        Resource { id, kind: self.resource_type, properties: Some(self.properties) }
    }
}

} // verus!
