use vstd::prelude::*;

verus! {

/// A path as written in the source: its segments, each with or without a name.
#[derive(Clone, Debug, PartialEq, Eq)]
pub struct PathNode {
    pub segments: Vec<Option<String>>,
}

/// A type expression as written in the source.
#[derive(Clone, Debug, PartialEq, Eq)]
pub enum TypeRefNode {
    /// A path type; `None` where the path itself could not be parsed.
    PathType(Option<PathNode>),
    /// Any other type expression (a reference, a tuple, ...), by its text.
    Other(String),
}

/// One bound of a bound list (`A` in `T: A + B`).
#[derive(Clone, Debug, PartialEq, Eq)]
pub struct TypeBoundNode {
    pub type_ref: Option<TypeRefNode>,
}

/// One predicate of a where clause (`T: A + B`).
#[derive(Clone, Debug, PartialEq, Eq)]
pub struct WherePredNode {
    pub type_ref: Option<TypeRefNode>,
    pub bounds: Option<Vec<TypeBoundNode>>,
}

/// One entry of a type parameter list.
#[derive(Clone, Debug, PartialEq, Eq)]
pub struct TypeParamNode {
    pub name: Option<String>,
}

/// The parts of a declaration that carry generics: its type parameter list
/// and its where clause, each if present.
#[derive(Clone, Debug, PartialEq, Eq)]
pub struct GenericsNode {
    pub type_params: Option<Vec<TypeParamNode>>,
    pub where_clause: Option<Vec<WherePredNode>>,
}

/// A resolved path: one name per segment, at least one segment.
#[derive(Clone, Debug, PartialEq, Eq)]
pub struct Path {
    pub segments: Vec<String>,
}

/// What a [`TypeRef`] denotes.
pub enum TypeRefView {
    Path(Seq<Seq<char>>),
    Other(Seq<char>),
    Error,
}

/// A lowered type expression.
#[derive(Clone, Debug, PartialEq, Eq)]
pub enum TypeRef {
    Path(Path),
    Other(String),
    /// A type expression that could not be lowered.
    Error,
}

impl View for Path {
    type V = Seq<Seq<char>>;

    open spec fn view(&self) -> Seq<Seq<char>> {
        self.segments@.map_values(|s: String| s@)
    }
}

impl View for TypeRef {
    type V = TypeRefView;

    open spec fn view(&self) -> TypeRefView {
        match self {
            TypeRef::Path(p) => TypeRefView::Path(p@),
            TypeRef::Other(s) => TypeRefView::Other(s@),
            TypeRef::Error => TypeRefView::Error,
        }
    }
}

/// The path that `n` names: defined where it has at least one segment and
/// every segment has a name.
pub open spec fn path_of(n: PathNode) -> Option<Seq<Seq<char>>> {
    if n.segments@.len() > 0 && forall|i: int| 0 <= i < n.segments@.len() ==> (#[trigger] n.segments@[i]) is Some {
        Some(n.segments@.map_values(|s: Option<String>| s.unwrap()@))
    } else {
        None
    }
}

/// The lowering of a type expression.
pub open spec fn type_ref_of(n: TypeRefNode) -> TypeRefView {
    match n {
        TypeRefNode::PathType(Some(p)) => match path_of(p) {
            Some(q) => TypeRefView::Path(q),
            None => TypeRefView::Error,
        },
        TypeRefNode::PathType(None) => TypeRefView::Error,
        TypeRefNode::Other(s) => TypeRefView::Other(s@),
    }
}

/// The trait path that a bound names, where it is a path type whose path
/// resolves.
pub open spec fn bound_path_of(b: TypeBoundNode) -> Option<Seq<Seq<char>>> {
    match b.type_ref {
        Some(TypeRefNode::PathType(Some(p))) => path_of(p),
        _ => None,
    }
}

impl Path {
    /// Resolves a path node; `None` where it is empty or a segment has no name.
    pub fn from_ast(n: &PathNode) -> (r: Option<Path>)
        ensures
            r matches Some(p) ==> path_of(*n) == Some(p@),
            r is None ==> path_of(*n) is None,
    {
        if n.segments.len() == 0 {
            return None;
        }
        let mut segments: Vec<String> = Vec::new();
        let mut i: usize = 0;
        while i < n.segments.len()
            invariant
                i <= n.segments@.len(),
                segments@.len() == i,
                forall|j: int| 0 <= j < i ==> (#[trigger] n.segments@[j]) is Some,
                forall|j: int| 0 <= j < i ==> (#[trigger] segments@[j])@ == n.segments@[j].unwrap()@,
            decreases n.segments@.len() - i,
        {
            match &n.segments[i] {
                Some(s) => segments.push(s.clone()),
                None => {
                    assert(!(n.segments@[i as int] is Some));
                    return None;
                },
            }
            i = i + 1;
        }
        let p = Path { segments };
        assert(p@ =~= n.segments@.map_values(|s: Option<String>| s.unwrap()@));
        Some(p)
    }

    /// The segments' names, outermost first.
    pub fn segments(&self) -> (r: &Vec<String>)
        ensures
            r@.map_values(|s: String| s@) == self@,
    {
        &self.segments
    }
}

impl TypeRef {
    /// Lowers a type expression; a path type whose path does not resolve
    /// becomes [`TypeRef::Error`].
    pub fn from_ast(n: &TypeRefNode) -> (r: TypeRef)
        ensures
            r@ == type_ref_of(*n),
    {
        match n {
            TypeRefNode::PathType(Some(p)) => match Path::from_ast(p) {
                Some(q) => TypeRef::Path(q),
                None => TypeRef::Error,
            },
            TypeRefNode::PathType(None) => TypeRef::Error,
            TypeRefNode::Other(s) => TypeRef::Other(s.clone()),
        }
    }
}

/// The trait path named by a bound, where its type is a path type whose
/// path resolves.
pub fn bound_path(b: &TypeBoundNode) -> (r: Option<Path>)
    ensures
        r matches Some(p) ==> bound_path_of(*b) == Some(p@),
        r is None ==> bound_path_of(*b) is None,
{
    match &b.type_ref {
        Some(TypeRefNode::PathType(Some(p))) => Path::from_ast(p),
        _ => None,
    }
}

} // verus!
