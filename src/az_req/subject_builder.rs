//! Builder of a [`Subject`].
use vstd::prelude::*;
use crate::az_req::model::Subject;
use crate::json::{Json, JsonMap, JsonModel, put};
use crate::mapper::map_service::opt_str;

verus! {

/// What a [`SubjectBuilder`] has been given so far.
pub struct SubjectDraft {
    pub id: Seq<char>,
    pub kind: Seq<char>,
    pub source: Option<Seq<char>>,
    pub properties: Seq<(Seq<char>, JsonModel)>,
}

/// Builds a [`Subject`]; its type is `"user"` unless set, its source absent
/// unless set, and its properties map is always present.
#[derive(Debug, Clone)]
pub struct SubjectBuilder {
    id: String,
    subject_type: String,
    source: Option<String>,
    properties: JsonMap,
}

impl View for SubjectBuilder {
    type V = SubjectDraft;

    closed spec fn view(&self) -> SubjectDraft {
        SubjectDraft {
            id: self.id@,
            kind: self.subject_type@,
            source: opt_str(self.source),
            properties: self.properties@,
        }
    }
}

/// The subject holds what the draft holds, with a present properties map.
pub open spec fn subject_from(d: SubjectDraft, s: Subject) -> bool {
    &&& s.id@ == d.id
    &&& s.kind@ == d.kind
    &&& opt_str(s.source) == d.source
    &&& s.properties is Some
    &&& s.properties->Some_0@ == d.properties
}

/// The draft of a new builder: type `"user"`, no source, no properties.
pub open spec fn new_draft(id: Seq<char>) -> SubjectDraft {
    SubjectDraft { id, kind: "user"@, source: None, properties: Seq::empty() }
}

/// A subject built without setting its type or source, that is from a new
/// builder on which only properties were set, has type `"user"` and no
/// source at all (not an empty one).
pub proof fn lemma_default_type_and_source(
    id: Seq<char>,
    properties: Seq<(Seq<char>, JsonModel)>,
    s: Subject,
)
    requires
        subject_from(SubjectDraft { properties, ..new_draft(id) }, s),
    ensures
        s.id@ == id,
        s.kind@ == "user"@,
        s.source is None,
{
}

impl SubjectBuilder {
    pub fn new(id: String) -> (r: SubjectBuilder)
        ensures
            r@ == new_draft(id@),
    {
        SubjectBuilder {
            id,
            subject_type: "user".to_string(),
            source: None,
            properties: JsonMap::new(),
        }
    }

    pub fn with_type(self, kind: String) -> (r: SubjectBuilder)
        ensures
            r@ == (SubjectDraft { kind: kind@, ..self@ }),
    {
        let mut b = self;
        b.subject_type = kind;
        b
    }

    pub fn with_source(self, source: String) -> (r: SubjectBuilder)
        ensures
            r@ == (SubjectDraft { source: Some(source@), ..self@ }),
    {
        let mut b = self;
        b.source = Some(source);
        b
    }

    /// Sets a property; a property with the same key is replaced.
    pub fn with_property(self, key: String, value: Json) -> (r: SubjectBuilder)
        ensures
            r@ == (SubjectDraft { properties: put(self@.properties, key@, value@), ..self@ }),
    {
        let mut b = self;
        b.properties.insert(key, value);
        b
    }

    pub fn build(self) -> (r: Subject)
        ensures
            subject_from(self@, r),
    {
        Subject {
            id: self.id,
            kind: self.subject_type,
            source: self.source,
            properties: Some(self.properties),
        }
    }
}

} // verus!
