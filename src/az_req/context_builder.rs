//! Builder of a context map.
use vstd::prelude::*;
use crate::json::{Json, JsonMap, JsonModel, put};

verus! {

/// Builds a context map of dynamic values.
#[derive(Debug, Clone)]
pub struct ContextBuilder {
    context: JsonMap,
}

impl View for ContextBuilder {
    type V = Seq<(Seq<char>, JsonModel)>;

    closed spec fn view(&self) -> Seq<(Seq<char>, JsonModel)> {
        self.context@
    }
}

impl ContextBuilder {
    pub fn new() -> (r: ContextBuilder)
        ensures
            r@ == Seq::<(Seq<char>, JsonModel)>::empty(),
    {
        ContextBuilder { context: JsonMap::new() }
    }

    /// Sets a property; a property with the same key is replaced.
    pub fn with_property(self, key: String, value: Json) -> (r: ContextBuilder)
        ensures
            r@ == put(self@, key@, value@),
    {
        let mut b = self;
        b.context.insert(key, value);
        b
    }

    pub fn build(self) -> (r: JsonMap)
        ensures
            r@ == self@,
    {
        self.context
    }
}

} // verus!
