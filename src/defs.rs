use vstd::prelude::*;

use crate::syntax::GenericsNode;

verus! {

/// A function, by its position among the snapshot's functions.
#[derive(Clone, Copy, PartialEq, Eq, Debug, Hash, Structural)]
pub struct Function {
    pub id: usize,
}

/// A struct, by its position among the snapshot's structs.
#[derive(Clone, Copy, PartialEq, Eq, Debug, Hash, Structural)]
pub struct Struct {
    pub id: usize,
}

/// An enum, by its position among the snapshot's enums.
#[derive(Clone, Copy, PartialEq, Eq, Debug, Hash, Structural)]
pub struct Enum {
    pub id: usize,
}

/// A trait, by its position among the snapshot's traits.
#[derive(Clone, Copy, PartialEq, Eq, Debug, Hash, Structural)]
pub struct Trait {
    pub id: usize,
}

/// A type alias, by its position among the snapshot's type aliases.
#[derive(Clone, Copy, PartialEq, Eq, Debug, Hash, Structural)]
pub struct TypeAlias {
    pub id: usize,
}

/// An impl block, by its position among the snapshot's impl blocks.
#[derive(Clone, Copy, PartialEq, Eq, Debug, Hash, Structural)]
pub struct ImplBlock {
    pub id: usize,
}

/// What a function or a type alias can be nested in.
#[derive(Clone, Copy, PartialEq, Eq, Debug, Hash, Structural)]
pub enum Container {
    Trait(Trait),
    ImplBlock(ImplBlock),
}

/// A struct or an enum.
#[derive(Clone, Copy, PartialEq, Eq, Debug, Hash, Structural)]
pub enum AdtDef {
    Struct(Struct),
    Enum(Enum),
}

/// A declaration that can have generic parameters.
#[derive(Clone, Copy, PartialEq, Eq, Debug, Hash, Structural)]
pub enum GenericDef {
    Function(Function),
    Struct(Struct),
    Enum(Enum),
    Trait(Trait),
    TypeAlias(TypeAlias),
    ImplBlock(ImplBlock),
}

/// The declaration that a container is.
pub open spec fn container_def(c: Container) -> GenericDef {
    match c {
        Container::Trait(t) => GenericDef::Trait(t),
        Container::ImplBlock(i) => GenericDef::ImplBlock(i),
    }
}

/// The declaration that a struct or an enum is.
pub open spec fn adt_def(a: AdtDef) -> GenericDef {
    match a {
        AdtDef::Struct(s) => GenericDef::Struct(s),
        AdtDef::Enum(e) => GenericDef::Enum(e),
    }
}

impl From<Container> for GenericDef {
    fn from(c: Container) -> (r: GenericDef)
        ensures
            r == container_def(c),
    {
        match c {
            Container::Trait(t) => GenericDef::Trait(t),
            Container::ImplBlock(i) => GenericDef::ImplBlock(i),
        }
    }
}

impl vstd::std_specs::convert::FromSpecImpl<Container> for GenericDef {
    open spec fn obeys_from_spec() -> bool {
        true
    }

    open spec fn from_spec(c: Container) -> GenericDef {
        container_def(c)
    }
}

impl From<AdtDef> for GenericDef {
    fn from(a: AdtDef) -> (r: GenericDef)
        ensures
            r == adt_def(a),
    {
        match a {
            AdtDef::Struct(s) => GenericDef::Struct(s),
            AdtDef::Enum(e) => GenericDef::Enum(e),
        }
    }
}

impl vstd::std_specs::convert::FromSpecImpl<AdtDef> for GenericDef {
    open spec fn obeys_from_spec() -> bool {
        true
    }

    open spec fn from_spec(a: AdtDef) -> GenericDef {
        adt_def(a)
    }
}

/// The source of a function or a type alias: its generics and the trait or
/// impl block it is nested in, if any.
#[derive(Clone, Debug, PartialEq, Eq)]
pub struct NestedSource {
    pub generics: GenericsNode,
    pub container: Option<Container>,
}

/// A read-only snapshot of the source: the generics of every declaration,
/// kind by kind, and where functions and type aliases are nested.
#[derive(Clone, Debug, PartialEq, Eq)]
pub struct SourceDb {
    pub functions: Vec<NestedSource>,
    pub structs: Vec<GenericsNode>,
    pub enums: Vec<GenericsNode>,
    pub traits: Vec<GenericsNode>,
    pub type_aliases: Vec<NestedSource>,
    pub impl_blocks: Vec<GenericsNode>,
}

impl SourceDb {
    /// Whether `c` names a trait or an impl block of the snapshot.
    pub open spec fn has_container(&self, c: Container) -> bool {
        match c {
            Container::Trait(t) => t.id < self.traits@.len(),
            Container::ImplBlock(i) => i.id < self.impl_blocks@.len(),
        }
    }

    /// Whether the container of `n`, if any, is one of the snapshot's.
    pub open spec fn nested_ok(&self, n: NestedSource) -> bool {
        match n.container {
            Some(c) => self.has_container(c),
            None => true,
        }
    }

    /// Whether `def` names a declaration of the snapshot.
    pub open spec fn contains(&self, def: GenericDef) -> bool {
        match def {
            GenericDef::Function(f) => f.id < self.functions@.len(),
            GenericDef::Struct(s) => s.id < self.structs@.len(),
            GenericDef::Enum(e) => e.id < self.enums@.len(),
            GenericDef::Trait(t) => t.id < self.traits@.len(),
            GenericDef::TypeAlias(a) => a.id < self.type_aliases@.len(),
            GenericDef::ImplBlock(i) => i.id < self.impl_blocks@.len(),
        }
    }

    /// The number of declarations in the snapshot.
    pub open spec fn size(&self) -> nat {
        self.functions@.len() + self.structs@.len() + self.enums@.len() + self.traits@.len()
            + self.type_aliases@.len() + self.impl_blocks@.len()
    }

    /// Every container that the snapshot mentions is one of its declarations,
    /// and the declarations can be counted in a `usize`.
    pub open spec fn wf(&self) -> bool {
        &&& self.size() <= usize::MAX
        &&& forall|i: int|
            0 <= i < self.functions@.len() ==> self.nested_ok(#[trigger] self.functions@[i])
        &&& forall|i: int|
            0 <= i < self.type_aliases@.len() ==> self.nested_ok(#[trigger] self.type_aliases@[i])
    }

    /// The generics node of a declaration.
    pub open spec fn node(&self, def: GenericDef) -> GenericsNode
        recommends
            self.contains(def),
    {
        match def {
            GenericDef::Function(f) => self.functions@[f.id as int].generics,
            GenericDef::Struct(s) => self.structs@[s.id as int],
            GenericDef::Enum(e) => self.enums@[e.id as int],
            GenericDef::Trait(t) => self.traits@[t.id as int],
            GenericDef::TypeAlias(a) => self.type_aliases@[a.id as int].generics,
            GenericDef::ImplBlock(i) => self.impl_blocks@[i.id as int],
        }
    }

    /// The declaration whose generic parameters `def` inherits: the container
    /// of a nested function or type alias; nothing for any other declaration.
    pub open spec fn parent_def(&self, def: GenericDef) -> Option<GenericDef> {
        match def {
            GenericDef::Function(f) => match self.functions@[f.id as int].container {
                Some(c) => Some(container_def(c)),
                None => None,
            },
            GenericDef::TypeAlias(a) => match self.type_aliases@[a.id as int].container {
                Some(c) => Some(container_def(c)),
                None => None,
            },
            _ => None,
        }
    }

    /// A position for each declaration, below `size()`, distinct for
    /// distinct declarations.
    pub open spec fn key_of(&self, def: GenericDef) -> int {
        let f = self.functions@.len() as int;
        let s = f + self.structs@.len();
        let e = s + self.enums@.len();
        let t = e + self.traits@.len();
        let a = t + self.type_aliases@.len();
        match def {
            GenericDef::Function(x) => x.id as int,
            GenericDef::Struct(x) => f + x.id,
            GenericDef::Enum(x) => s + x.id,
            GenericDef::Trait(x) => e + x.id,
            GenericDef::TypeAlias(x) => t + x.id,
            GenericDef::ImplBlock(x) => a + x.id,
        }
    }

    /// The container of a function, if it is nested in one.
    pub fn function_container(&self, f: Function) -> (r: Option<Container>)
        requires
            f.id < self.functions@.len(),
        ensures
            r == self.functions@[f.id as int].container,
    {
        self.functions[f.id].container
    }

    /// The container of a type alias, if it is nested in one.
    pub fn type_alias_container(&self, a: TypeAlias) -> (r: Option<Container>)
        requires
            a.id < self.type_aliases@.len(),
        ensures
            r == self.type_aliases@[a.id as int].container,
    {
        self.type_aliases[a.id].container
    }

    /// The generics node of a declaration.
    pub fn source(&self, def: GenericDef) -> (r: &GenericsNode)
        requires
            self.contains(def),
        ensures
            *r == self.node(def),
    {
        match def {
            GenericDef::Function(f) => &self.functions[f.id].generics,
            GenericDef::Struct(s) => &self.structs[s.id],
            GenericDef::Enum(e) => &self.enums[e.id],
            GenericDef::Trait(t) => &self.traits[t.id],
            GenericDef::TypeAlias(a) => &self.type_aliases[a.id].generics,
            GenericDef::ImplBlock(i) => &self.impl_blocks[i.id],
        }
    }

    /// The position of a declaration, as `key_of` gives it.
    pub fn key(&self, def: GenericDef) -> (r: usize)
        requires
            self.wf(),
            self.contains(def),
        ensures
            r == self.key_of(def),
            r < self.size(),
    {
        let f = self.functions.len();
        let s = f + self.structs.len();
        let e = s + self.enums.len();
        let t = e + self.traits.len();
        let a = t + self.type_aliases.len();
        match def {
            GenericDef::Function(x) => x.id,
            GenericDef::Struct(x) => f + x.id,
            GenericDef::Enum(x) => s + x.id,
            GenericDef::Trait(x) => e + x.id,
            GenericDef::TypeAlias(x) => t + x.id,
            GenericDef::ImplBlock(x) => a + x.id,
        }
    }
}

/// Distinct declarations of the snapshot have distinct positions.
pub proof fn lemma_key_injective(db: &SourceDb, a: GenericDef, b: GenericDef)
    requires
        db.contains(a),
        db.contains(b),
        db.key_of(a) == db.key_of(b),
    ensures
        a == b,
{
}

} // verus!
