//! Builder of an [`Action`].
use vstd::prelude::*;
use crate::az_req::model::Action;
use crate::json::{Json, JsonMap, JsonModel, put};

verus! {

/// What an [`ActionBuilder`] has been given so far.
pub struct ActionDraft {
    pub name: Seq<char>,
    pub properties: Seq<(Seq<char>, JsonModel)>,
}

/// Builds an [`Action`]; its properties map is always present.
#[derive(Debug, Clone)]
pub struct ActionBuilder {
    name: String,
    properties: JsonMap,
}

impl View for ActionBuilder {
    type V = ActionDraft;

    closed spec fn view(&self) -> ActionDraft {
        ActionDraft { name: self.name@, properties: self.properties@ }
    }
}

/// The action holds what the draft holds, with a present properties map.
pub open spec fn action_from(d: ActionDraft, a: Action) -> bool {
    a.name@ == d.name && a.properties is Some && a.properties->Some_0@ == d.properties
}

impl ActionBuilder {
    pub fn new(name: String) -> (r: ActionBuilder)
        ensures
            r@ == (ActionDraft { name: name@, properties: Seq::empty() }),
    {
        ActionBuilder { name, properties: JsonMap::new() }
    }

    /// Sets a property; a property with the same key is replaced.
    pub fn with_property(self, key: String, value: Json) -> (r: ActionBuilder)
        ensures
            r@ == (ActionDraft { properties: put(self@.properties, key@, value@), ..self@ }),
    {
        let mut b = self;
        b.properties.insert(key, value);
        b
    }

    pub fn build(self) -> (r: Action)
        ensures
            action_from(self@, r),
    {
        Action { name: self.name, properties: Some(self.properties) }
    }
}

} // verus!
