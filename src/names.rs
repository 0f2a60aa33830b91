use vstd::prelude::*;

verus! {

/// The name of a generic parameter.
///
/// `SelfType` is the implicit first parameter of every trait; `Missing`
/// stands for a parameter whose identifier was left out in the source.
/// Neither can be written as an identifier, so a lookup by an identifier
/// never finds them.
#[derive(Clone, Debug, Eq)]
pub enum Name {
    Ident(String),
    SelfType,
    Missing,
}

/// What a [`Name`] denotes.
pub enum NameView {
    Ident(Seq<char>),
    SelfType,
    Missing,
}

impl View for Name {
    type V = NameView;

    open spec fn view(&self) -> NameView {
        match self {
            Name::Ident(s) => NameView::Ident(s@),
            Name::SelfType => NameView::SelfType,
            Name::Missing => NameView::Missing,
        }
    }
}

impl Name {
    /// The reserved name of a trait's implicit self type.
    pub fn self_type() -> (r: Name)
        ensures
            r@ == NameView::SelfType,
    {
        Name::SelfType
    }

    /// The placeholder for a parameter written without a name.
    pub fn missing() -> (r: Name)
        ensures
            r@ == NameView::Missing,
    {
        Name::Missing
    }

    /// A name that copies the identifier `s`.
    pub fn from_ident(s: &String) -> (r: Name)
        ensures
            r@ == NameView::Ident(s@),
    {
        Name::Ident(s.clone())
    }
}

impl PartialEq for Name {
    fn eq(&self, other: &Name) -> (r: bool)
        ensures
            r == (self@ == other@),
    {
        match (self, other) {
            (Name::Ident(a), Name::Ident(b)) => a.eq(b),
            (Name::SelfType, Name::SelfType) => true,
            (Name::Missing, Name::Missing) => true,
            _ => false,
        }
    }
}

impl vstd::std_specs::cmp::PartialEqSpecImpl for Name {
    open spec fn obeys_eq_spec() -> bool {
        true
    }

    open spec fn eq_spec(&self, other: &Name) -> bool {
        self@ == other@
    }
}

} // verus!
