//! Builder of a [`Principal`].
use vstd::prelude::*;
use crate::az_req::model::Principal;
use crate::mapper::map_service::opt_str;

verus! {

/// What a [`PrincipalBuilder`] has been given so far.
pub struct PrincipalDraft {
    pub id: Seq<char>,
    pub kind: Seq<char>,
    pub source: Option<Seq<char>>,
}

/// Builds a [`Principal`]; its type is `"user"` unless set.
#[derive(Debug, Clone)]
pub struct PrincipalBuilder {
    id: String,
    principal_type: String,
    source: Option<String>,
}

impl View for PrincipalBuilder {
    type V = PrincipalDraft;

    closed spec fn view(&self) -> PrincipalDraft {
        PrincipalDraft { id: self.id@, kind: self.principal_type@, source: opt_str(self.source) }
    }
}

/// The principal holds what the draft holds.
pub open spec fn principal_from(d: PrincipalDraft, p: Principal) -> bool {
    p.id@ == d.id && p.kind@ == d.kind && opt_str(p.source) == d.source
}

impl PrincipalBuilder {
    pub fn new(id: String) -> (r: PrincipalBuilder)
        ensures
            r@ == (PrincipalDraft { id: id@, kind: "user"@, source: None }),
    {
        PrincipalBuilder { id, principal_type: "user".to_string(), source: None }
    }

    pub fn with_kind(self, kind: String) -> (r: PrincipalBuilder)
        ensures
            r@ == (PrincipalDraft { kind: kind@, ..self@ }),
    {
        let mut b = self;
        b.principal_type = kind;
        b
    }

    pub fn with_source(self, source: String) -> (r: PrincipalBuilder)
        ensures
            r@ == (PrincipalDraft { source: Some(source@), ..self@ }),
    {
        let mut b = self;
        b.source = Some(source);
        b
    }

    pub fn build(self) -> (r: Principal)
        ensures
            principal_from(self@, r),
    {
        Principal { id: self.id, kind: self.principal_type, source: self.source }
    }
}

} // verus!
