use std::sync::Arc;

use vstd::prelude::*;

use crate::cache::ParamsCache;
use crate::defs::{
    adt_def, container_def, AdtDef, Container, Enum, Function, GenericDef, ImplBlock, SourceDb,
    Struct, Trait, TypeAlias,
};
use crate::names::{Name, NameView};
use crate::syntax::{
    bound_path, bound_path_of, type_ref_of, GenericsNode, Path, TypeBoundNode, TypeParamNode,
    TypeRef, TypeRefView, WherePredNode,
};

verus! {

/// A generic parameter of a declaration: its position in the whole chain of
/// parameters it belongs to, and its name.
#[derive(Clone, Debug, PartialEq, Eq)]
pub struct GenericParam {
    idx: u32,
    name: Name,
}

/// What a [`GenericParam`] denotes.
pub struct ParamView {
    pub idx: u32,
    pub name: NameView,
}

/// One bound of a where clause, `Type: Trait`; a clause `T: A + B` gives
/// one of these for `A` and one for `B`.
#[derive(Clone, Debug, PartialEq, Eq)]
pub struct WherePredicate {
    type_ref: TypeRef,
    trait_ref: Path,
}

/// What a [`WherePredicate`] denotes.
pub struct PredView {
    pub type_ref: TypeRefView,
    pub trait_ref: Seq<Seq<char>>,
}

/// The generic parameters of a declaration, with those of the declaration
/// it inherits from, and the bounds of its own where clause.
#[derive(Clone, Debug, PartialEq, Eq)]
pub struct GenericParams {
    parent_params: Option<Arc<GenericParams>>,
    params: Vec<GenericParam>,
    where_predicates: Vec<WherePredicate>,
}

/// What a [`GenericParams`] denotes: the parent's table, if any, this
/// declaration's own parameters, and its own bounds.
pub struct TableView {
    pub parent: Option<Box<TableView>>,
    pub own: Seq<ParamView>,
    pub preds: Seq<PredView>,
}

impl View for GenericParam {
    type V = ParamView;

    closed spec fn view(&self) -> ParamView {
        ParamView { idx: self.idx, name: self.name@ }
    }
}

impl View for WherePredicate {
    type V = PredView;

    closed spec fn view(&self) -> PredView {
        PredView { type_ref: self.type_ref@, trait_ref: self.trait_ref@ }
    }
}

impl View for GenericParams {
    type V = TableView;

    closed spec fn view(&self) -> TableView
        decreases self,
    {
        TableView {
            parent: match self.parent_params {
                Some(p) => Some(Box::new((*p).view())),
                None => None,
            },
            own: self.params@.map_values(|p: GenericParam| p@),
            preds: self.where_predicates@.map_values(|w: WherePredicate| w@),
        }
    }
}

impl Default for GenericParams {
    /// The table of a declaration with no parent, no parameters and no bounds.
    fn default() -> (r: GenericParams)
        ensures
            r@.parent is None,
            r@.own.len() == 0,
            r@.preds.len() == 0,
    {
        GenericParams { parent_params: None, params: Vec::new(), where_predicates: Vec::new() }
    }
}

impl TableView {
    /// The number of parameters, inherited ones included.
    pub open spec fn count(self) -> nat
        decreases self,
    {
        self.own.len() + match self.parent {
            Some(p) => p.count(),
            None => 0,
        }
    }

    /// The number of inherited parameters.
    pub open spec fn parent_count(self) -> nat {
        match self.parent {
            Some(p) => p.count(),
            None => 0,
        }
    }

    /// How many tables stand above this one.
    pub open spec fn depth(self) -> nat
        decreases self,
    {
        match self.parent {
            Some(p) => p.depth() + 1,
            None => 0,
        }
    }

    /// All parameters, the parent's before this table's own.
    pub open spec fn all(self) -> Seq<ParamView>
        decreases self,
    {
        match self.parent {
            Some(p) => p.all() + self.own,
            None => self.own,
        }
    }

    /// The own parameters are numbered on from the inherited ones without a
    /// gap, the whole count fits in a `u32`, and the parent is well formed.
    pub open spec fn wf(self) -> bool
        decreases self,
    {
        &&& self.count() <= u32::MAX
        &&& forall|i: int| 0 <= i < self.own.len() ==> (#[trigger] self.own[i]).idx == self.parent_count() + i
        &&& match self.parent {
            Some(p) => p.wf(),
            None => true,
        }
    }
}

/// Functions and type aliases may stand inside a container; nothing stands
/// inside them.
pub open spec fn rank(def: GenericDef) -> nat {
    match def {
        GenericDef::Function(_) | GenericDef::TypeAlias(_) => 1,
        _ => 0,
    }
}

/// The name given to a parameter entry.
pub open spec fn name_of(p: TypeParamNode) -> NameView {
    match p.name {
        Some(s) => NameView::Ident(s@),
        None => NameView::Missing,
    }
}

/// The entries of a declaration's type parameter list; none without a list.
pub open spec fn declared(node: GenericsNode) -> Seq<TypeParamNode> {
    match node.type_params {
        Some(v) => v@,
        None => Seq::empty(),
    }
}

/// Parameters for the entries `ps`, numbered from `start`.
pub open spec fn params_from(ps: Seq<TypeParamNode>, start: nat) -> Seq<ParamView> {
    Seq::new(ps.len(), |i: int| ParamView { idx: (start + i) as u32, name: name_of(ps[i]) })
}

/// A declaration's own parameters, numbered from `start`: for a trait, the
/// self type first.
pub open spec fn own_params(def: GenericDef, node: GenericsNode, start: nat) -> Seq<ParamView> {
    if def is Trait {
        seq![ParamView { idx: start as u32, name: NameView::SelfType }] + params_from(
            declared(node),
            start + 1,
        )
    } else {
        params_from(declared(node), start)
    }
}

/// The bounds `subject: b` for each `b` of `bs` whose trait path resolves,
/// in order.
pub open spec fn bound_preds(subject: TypeRefView, bs: Seq<TypeBoundNode>) -> Seq<PredView>
    decreases bs.len(),
{
    if bs.len() == 0 {
        Seq::empty()
    } else {
        let rest = bound_preds(subject, bs.drop_last());
        match bound_path_of(bs.last()) {
            Some(p) => rest.push(PredView { type_ref: subject, trait_ref: p }),
            None => rest,
        }
    }
}

/// The bounds that one where predicate gives; none without a subject type.
pub open spec fn pred_entries(w: WherePredNode) -> Seq<PredView> {
    match w.type_ref {
        Some(t) => match w.bounds {
            Some(bs) => bound_preds(type_ref_of(t), bs@),
            None => Seq::empty(),
        },
        None => Seq::empty(),
    }
}

/// The bounds of a sequence of where predicates, in order.
pub open spec fn where_preds(ws: Seq<WherePredNode>) -> Seq<PredView>
    decreases ws.len(),
{
    if ws.len() == 0 {
        Seq::empty()
    } else {
        where_preds(ws.drop_last()) + pred_entries(ws.last())
    }
}

/// The bounds of a declaration's where clause; none without a clause.
pub open spec fn node_preds(node: GenericsNode) -> Seq<PredView> {
    match node.where_clause {
        Some(v) => where_preds(v@),
        None => Seq::empty(),
    }
}

/// The table of `def`: its parent's table, its own parameters numbered on
/// from the parent's count, and the bounds of its where clause.
pub open spec fn resolved(db: SourceDb, def: GenericDef) -> TableView
    decreases rank(def),
{
    let parent = match db.parent_def(def) {
        Some(p) => Some(Box::new(resolved(db, p))),
        None => None,
    };
    let start = match parent {
        Some(t) => t.count(),
        None => 0,
    };
    TableView { parent, own: own_params(def, db.node(def), start), preds: node_preds(db.node(def)) }
}

impl GenericParam {
    /// The parameter's position in the chain of parameters it belongs to.
    pub fn idx(&self) -> (r: u32)
        ensures
            r == self@.idx,
    {
        self.idx
    }

    /// The parameter's name.
    pub fn name(&self) -> (r: &Name)
        ensures
            r@ == self@.name,
    {
        &self.name
    }
}

impl WherePredicate {
    /// The type that the bound applies to.
    pub fn type_ref(&self) -> (r: &TypeRef)
        ensures
            r@ == self@.type_ref,
    {
        &self.type_ref
    }

    /// The path of the bounding trait.
    pub fn trait_ref(&self) -> (r: &Path)
        ensures
            r@ == self@.trait_ref,
    {
        &self.trait_ref
    }
}

impl GenericParams {
    /// The table of the declaration this one inherits from, if any.
    pub fn parent_params(&self) -> (r: Option<&GenericParams>)
        ensures
            r is None <==> self@.parent is None,
            r matches Some(p) ==> self@.parent == Some(Box::new(p@)),
    {
        match &self.parent_params {
            Some(p) => Some(&**p),
            None => None,
        }
    }

    /// The parameters declared on this declaration itself.
    pub fn params(&self) -> (r: &Vec<GenericParam>)
        ensures
            r@.map_values(|p: GenericParam| p@) == self@.own,
    {
        &self.params
    }

    /// The bounds of this declaration's own where clause.
    pub fn where_predicates(&self) -> (r: &Vec<WherePredicate>)
        ensures
            r@.map_values(|w: WherePredicate| w@) == self@.preds,
    {
        &self.where_predicates
    }

    /// Appends one parameter per entry of `params`, numbered from `start`.
    fn fill_params(&mut self, params: &Vec<TypeParamNode>, start: u32)
        requires
            start + params@.len() <= u32::MAX + 1,
        ensures
            final(self).parent_params == old(self).parent_params,
            final(self).where_predicates == old(self).where_predicates,
            final(self)@.own == old(self)@.own + params_from(params@, start as nat),
    {
        let ghost before = old(self)@.own;
        let mut idx: usize = 0;
        while idx < params.len()
            invariant
                idx <= params@.len(),
                start + params@.len() <= u32::MAX + 1,
                self.parent_params == old(self).parent_params,
                self.where_predicates == old(self).where_predicates,
                self@.own == before + params_from(params@.take(idx as int), start as nat),
            decreases params@.len() - idx,
        {
            let name = match &params[idx].name {
                Some(s) => Name::from_ident(s),
                None => Name::missing(),
            };
            let param = GenericParam { idx: idx as u32 + start, name };
            let ghost own_before = self@.own;
            self.params.push(param);
            assert(self@.own =~= own_before.push(param@));
            idx = idx + 1;
            assert(params_from(params@.take(idx as int), start as nat) =~= params_from(
                params@.take(idx - 1),
                start as nat,
            ).push(param@));
        }
        assert(params@.take(idx as int) =~= params@);
    }

    /// Appends the bounds of a where clause: for each predicate with a
    /// subject type, one bound per entry of its bound list whose trait path
    /// resolves.
    fn fill_where_predicates(&mut self, where_clause: &Vec<WherePredNode>)
        ensures
            final(self).parent_params == old(self).parent_params,
            final(self).params == old(self).params,
            final(self)@.preds == old(self)@.preds + where_preds(where_clause@),
    {
        let ghost before = old(self)@.preds;
        let mut i: usize = 0;
        while i < where_clause.len()
            invariant
                i <= where_clause@.len(),
                self.parent_params == old(self).parent_params,
                self.params == old(self).params,
                self@.preds == before + where_preds(where_clause@.take(i as int)),
            decreases where_clause@.len() - i,
        {
            let pred = &where_clause[i];
            let ghost mid = self@.preds;
            match &pred.type_ref {
                None => {},
                Some(type_ref) => match &pred.bounds {
                    None => {},
                    Some(bounds) => {
                        let mut j: usize = 0;
                        while j < bounds.len()
                            invariant
                                j <= bounds@.len(),
                                self.parent_params == old(self).parent_params,
                                self.params == old(self).params,
                                self@.preds == mid + bound_preds(
                                    type_ref_of(*type_ref),
                                    bounds@.take(j as int),
                                ),
                            decreases bounds@.len() - j,
                        {
                            let ghost preds_before = self@.preds;
                            match bound_path(&bounds[j]) {
                                Some(path) => {
                                    let w = WherePredicate {
                                        type_ref: TypeRef::from_ast(type_ref),
                                        trait_ref: path,
                                    };
                                    self.where_predicates.push(w);
                                    assert(self@.preds =~= preds_before.push(w@));
                                },
                                None => {},
                            }
                            j = j + 1;
                            assert(bounds@.take(j as int).drop_last() =~= bounds@.take(j - 1));
                        }
                        assert(bounds@.take(j as int) =~= bounds@);
                    },
                },
            }
            i = i + 1;
            assert(where_clause@.take(i as int).drop_last() =~= where_clause@.take(i - 1));
        }
        assert(where_clause@.take(i as int) =~= where_clause@);
    }

    /// Appends the parameters of `node`'s list, numbered from `start`, and
    /// the bounds of its where clause.
    fn fill(&mut self, node: &GenericsNode, start: u32)
        requires
            start + declared(*node).len() <= u32::MAX + 1,
        ensures
            final(self).parent_params == old(self).parent_params,
            final(self)@.own == old(self)@.own + params_from(declared(*node), start as nat),
            final(self)@.preds == old(self)@.preds + node_preds(*node),
    {
        if let Some(params) = &node.type_params {
            self.fill_params(params, start)
        }
        if let Some(where_clause) = &node.where_clause {
            self.fill_where_predicates(where_clause);
        }
    }

    /// The first of this declaration's own parameters named `name`; those
    /// it inherits are not searched.
    pub fn find_by_name(&self, name: &Name) -> (r: Option<&GenericParam>)
        ensures
            r is None ==> forall|i: int| 0 <= i < self@.own.len() ==> (#[trigger] self@.own[i]).name != name@,
            r matches Some(p) ==> exists|i: int|
                0 <= i < self@.own.len() && self@.own[i] == p@ && p@.name == name@
                && forall|j: int| 0 <= j < i ==> (#[trigger] self@.own[j]).name != name@,
            self@.wf() ==> (r matches Some(p) ==> p@.idx >= self@.parent_count()),
    {
        let mut i: usize = 0;
        while i < self.params.len()
            invariant
                i <= self@.own.len(),
                self@.own.len() == self.params@.len(),
                forall|j: int| 0 <= j < i ==> (#[trigger] self@.own[j]).name != name@,
            decreases self.params@.len() - i,
        {
            let p = &self.params[i];
            assert(self@.own[i as int] == p@);
            if p.name == *name {
                return Some(p);
            }
            i = i + 1;
        }
        None
    }

    /// The number of parameters inherited from the parent chain.
    pub fn count_parent_params(&self) -> (r: usize)
        requires
            self@.wf(),
        ensures
            r == self@.parent_count(),
        decreases self@.depth(), 0nat,
    {
        match &self.parent_params {
            Some(p) => p.count_params_including_parent(),
            None => 0,
        }
    }

    /// The number of parameters, inherited ones included.
    pub fn count_params_including_parent(&self) -> (r: usize)
        requires
            self@.wf(),
        ensures
            r == self@.count(),
        decreases self@.depth(), 1nat,
    {
        let parent_count = self.count_parent_params();
        parent_count + self.params.len()
    }

    /// Appends all parameters to `out`, the parent's before this table's own.
    fn for_each_param<'a>(&'a self, out: &mut Vec<&'a GenericParam>)
        ensures
            final(out)@.map_values(|p: &GenericParam| p@) == old(out)@.map_values(
                |p: &GenericParam| p@,
            ) + self@.all(),
        decreases self@.depth(),
    {
        if let Some(parent) = &self.parent_params {
            parent.for_each_param(out);
        }
        let ghost mid = out@.map_values(|p: &GenericParam| p@);
        let mut i: usize = 0;
        while i < self.params.len()
            invariant
                i <= self.params@.len(),
                out@.map_values(|p: &GenericParam| p@) == mid + self@.own.take(i as int),
            decreases self.params@.len() - i,
        {
            let ghost prev = out@.map_values(|p: &GenericParam| p@);
            assert(self@.own[i as int] == self.params@[i as int]@);
            out.push(&self.params[i]);
            assert(out@.map_values(|p: &GenericParam| p@) =~= prev.push(self@.own[i as int]));
            i = i + 1;
            assert(mid + self@.own.take(i as int) =~= (mid + self@.own.take(i - 1)).push(
                self@.own[i - 1],
            ));
        }
        assert(self@.own.take(i as int) =~= self@.own);
    }

    /// All parameters, inherited ones first, in chain order.
    pub fn params_including_parent(&self) -> (r: Vec<&GenericParam>)
        requires
            self@.wf(),
        ensures
            r@.map_values(|p: &GenericParam| p@) == self@.all(),
    {
        let mut vec = Vec::with_capacity(self.count_params_including_parent());
        self.for_each_param(&mut vec);
        assert(vec@.map_values(|p: &GenericParam| p@) =~= self@.all());
        vec
    }

    /// Computes the table of `def`: the parent's table, taken through
    /// `cache`; for a trait the self type at the parent's count; then the
    /// declared parameters numbered on; then the bounds of the where clause.
    pub fn generic_params_query(db: &SourceDb, cache: &mut ParamsCache, def: GenericDef) -> (r: Arc<GenericParams>)
        requires
            db.wf(),
            db.contains(def),
            old(cache).wf(*db),
            resolved(*db, def).count() <= u32::MAX,
        ensures
            final(cache).wf(*db),
            r@ == resolved(*db, def),
        decreases rank(def), 0nat,
    {
        let parent = match def {
            GenericDef::Function(it) => match db.function_container(it) {
                Some(c) => Some(GenericDef::from(c)),
                None => None,
            },
            GenericDef::TypeAlias(it) => match db.type_alias_container(it) {
                Some(c) => Some(GenericDef::from(c)),
                None => None,
            },
            GenericDef::Struct(_) | GenericDef::Enum(_) | GenericDef::Trait(_) => None,
            GenericDef::ImplBlock(_) => None,
        };
        assert(parent == db.parent_def(def));
        let parent_params = match parent {
            Some(p) => {
                assert(db.contains(p)) by {
                    match def {
                        GenericDef::Function(f) => assert(db.nested_ok(db.functions@[f.id as int])),
                        GenericDef::TypeAlias(a) => assert(db.nested_ok(db.type_aliases@[a.id as int])),
                        _ => {},
                    }
                }
                Some(cache.generic_params(db, p))
            },
            None => None,
        };
        let start: u32 = match &parent_params {
            Some(p) => {
                proof {
                    lemma_resolved_wf(*db, parent.unwrap());
                }
                p.count_params_including_parent() as u32
            },
            None => 0,
        };
        let mut generics = GenericParams { parent_params, params: Vec::new(), where_predicates: Vec::new() };
        let node = db.source(def);
        match def {
            GenericDef::Trait(_) => {
                // a trait's own parameters open with its implicit self type
                generics.params.push(GenericParam { idx: start, name: Name::self_type() });
                generics.fill(node, start + 1);
            },
            _ => generics.fill(node, start),
        }
        assert(generics@.own =~= resolved(*db, def).own);
        Arc::new(generics)
    }
}

/// A table resolved within the `u32` range is well formed.
pub proof fn lemma_resolved_wf(db: SourceDb, def: GenericDef)
    requires
        resolved(db, def).count() <= u32::MAX,
    ensures
        resolved(db, def).wf(),
    decreases rank(def),
{
    let t = resolved(db, def);
    if let Some(p) = db.parent_def(def) {
        lemma_resolved_wf(db, p);
    }
    assert forall|i: int| 0 <= i < t.own.len() implies (#[trigger] t.own[i]).idx == t.parent_count() + i by {
    }
}

/// A declaration, or a handle that stands for one, whose generic
/// parameters can be asked for.
pub trait HasGenericParams: Sized {
    /// The declaration that `self` stands for.
    spec fn generic_def(&self) -> GenericDef;

    /// The table of the declaration, taken through `cache`.
    fn generic_params(self, db: &SourceDb, cache: &mut ParamsCache) -> (r: Arc<GenericParams>)
        requires
            db.wf(),
            db.contains(self.generic_def()),
            old(cache).wf(*db),
            resolved(*db, self.generic_def()).count() <= u32::MAX,
        ensures
            final(cache).wf(*db),
            r@ == resolved(*db, self.generic_def()),
    ;
}

impl HasGenericParams for GenericDef {
    open spec fn generic_def(&self) -> GenericDef {
        *self
    }

    fn generic_params(self, db: &SourceDb, cache: &mut ParamsCache) -> (r: Arc<GenericParams>) {
        cache.generic_params(db, self)
    }
}

impl HasGenericParams for Function {
    open spec fn generic_def(&self) -> GenericDef {
        GenericDef::Function(*self)
    }

    fn generic_params(self, db: &SourceDb, cache: &mut ParamsCache) -> (r: Arc<GenericParams>) {
        cache.generic_params(db, GenericDef::Function(self))
    }
}

impl HasGenericParams for Struct {
    open spec fn generic_def(&self) -> GenericDef {
        GenericDef::Struct(*self)
    }

    fn generic_params(self, db: &SourceDb, cache: &mut ParamsCache) -> (r: Arc<GenericParams>) {
        cache.generic_params(db, GenericDef::Struct(self))
    }
}

impl HasGenericParams for Enum {
    open spec fn generic_def(&self) -> GenericDef {
        GenericDef::Enum(*self)
    }

    fn generic_params(self, db: &SourceDb, cache: &mut ParamsCache) -> (r: Arc<GenericParams>) {
        cache.generic_params(db, GenericDef::Enum(self))
    }
}

impl HasGenericParams for Trait {
    open spec fn generic_def(&self) -> GenericDef {
        GenericDef::Trait(*self)
    }

    fn generic_params(self, db: &SourceDb, cache: &mut ParamsCache) -> (r: Arc<GenericParams>) {
        cache.generic_params(db, GenericDef::Trait(self))
    }
}

impl HasGenericParams for TypeAlias {
    open spec fn generic_def(&self) -> GenericDef {
        GenericDef::TypeAlias(*self)
    }

    fn generic_params(self, db: &SourceDb, cache: &mut ParamsCache) -> (r: Arc<GenericParams>) {
        cache.generic_params(db, GenericDef::TypeAlias(self))
    }
}

impl HasGenericParams for ImplBlock {
    open spec fn generic_def(&self) -> GenericDef {
        GenericDef::ImplBlock(*self)
    }

    fn generic_params(self, db: &SourceDb, cache: &mut ParamsCache) -> (r: Arc<GenericParams>) {
        cache.generic_params(db, GenericDef::ImplBlock(self))
    }
}

impl HasGenericParams for Container {
    open spec fn generic_def(&self) -> GenericDef {
        container_def(*self)
    }

    fn generic_params(self, db: &SourceDb, cache: &mut ParamsCache) -> (r: Arc<GenericParams>) {
        cache.generic_params(db, GenericDef::from(self))
    }
}

impl HasGenericParams for AdtDef {
    open spec fn generic_def(&self) -> GenericDef {
        adt_def(*self)
    }

    fn generic_params(self, db: &SourceDb, cache: &mut ParamsCache) -> (r: Arc<GenericParams>) {
        cache.generic_params(db, GenericDef::from(self))
    }
}

/// A declaration that inherits nothing numbers its own parameters 0, 1, ...,
/// and they are all of its parameters.
pub proof fn lemma_root_numbering(db: SourceDb, def: GenericDef)
    requires
        db.parent_def(def) is None,
        resolved(db, def).count() <= u32::MAX,
    ensures
        resolved(db, def).parent is None,
        resolved(db, def).count() == resolved(db, def).own.len(),
        forall|i: int| 0 <= i < resolved(db, def).own.len() ==> (#[trigger] resolved(db, def).own[i]).idx == i,
{
    lemma_resolved_wf(db, def);
}

/// A declaration that inherits from a parent numbers its own parameters on
/// from the parent's whole count, without a gap.
pub proof fn lemma_child_numbering(db: SourceDb, def: GenericDef)
    requires
        db.parent_def(def) is Some,
        resolved(db, def).count() <= u32::MAX,
    ensures
        resolved(db, def).parent == Some(Box::new(resolved(db, db.parent_def(def).unwrap()))),
        forall|i: int|
            0 <= i < resolved(db, def).own.len() ==> (#[trigger] resolved(db, def).own[i]).idx
                == resolved(db, db.parent_def(def).unwrap()).count() + i,
{
    lemma_resolved_wf(db, def);
}

/// A trait's first own parameter is the self type, numbered at the count of
/// what it inherits, whether or not the trait declares parameters.
pub proof fn lemma_trait_self_first(db: SourceDb, t: Trait)
    requires
        resolved(db, GenericDef::Trait(t)).count() <= u32::MAX,
    ensures
        resolved(db, GenericDef::Trait(t)).own.len() >= 1,
        resolved(db, GenericDef::Trait(t)).own[0].name == NameView::SelfType,
        resolved(db, GenericDef::Trait(t)).own[0].idx == resolved(db, GenericDef::Trait(t)).parent_count(),
{
    lemma_resolved_wf(db, GenericDef::Trait(t));
}

/// In a well-formed table, the parameter at position `k` of the whole chain
/// has index `k`.
pub proof fn lemma_all_numbered(t: TableView)
    requires
        t.wf(),
    ensures
        t.all().len() == t.count(),
        forall|k: int| 0 <= k < t.count() ==> (#[trigger] t.all()[k]).idx == k,
    decreases t,
{
    match t.parent {
        Some(p) => {
            lemma_all_numbered(*p);
            assert forall|k: int| 0 <= k < t.count() implies (#[trigger] t.all()[k]).idx == k by {
                if k >= p.count() {
                    assert(t.all()[k] == t.own[k - p.count()]);
                }
            }
        },
        None => {},
    }
}

/// A predicate `T: B1 + ... + Bn` whose bounds all name resolvable trait
/// paths gives `n` bounds, in order, each with the subject `T`.
pub proof fn lemma_bounds_split(w: WherePredNode)
    requires
        w.type_ref is Some,
        w.bounds is Some,
        forall|i: int| 0 <= i < w.bounds.unwrap()@.len() ==> (#[trigger] bound_path_of(w.bounds.unwrap()@[i])) is Some,
    ensures
        pred_entries(w).len() == w.bounds.unwrap()@.len(),
        forall|i: int| 0 <= i < pred_entries(w).len() ==> #[trigger] pred_entries(w)[i] == (PredView {
            type_ref: type_ref_of(w.type_ref.unwrap()),
            trait_ref: bound_path_of(w.bounds.unwrap()@[i]).unwrap(),
        }),
{
    lemma_bound_preds_all(type_ref_of(w.type_ref.unwrap()), w.bounds.unwrap()@);
}

/// Each bound of `bs` resolves: `bound_preds` keeps every one of them.
proof fn lemma_bound_preds_all(subject: TypeRefView, bs: Seq<TypeBoundNode>)
    requires
        forall|i: int| 0 <= i < bs.len() ==> (#[trigger] bound_path_of(bs[i])) is Some,
    ensures
        bound_preds(subject, bs).len() == bs.len(),
        forall|i: int| 0 <= i < bs.len() ==> #[trigger] bound_preds(subject, bs)[i] == (PredView {
            type_ref: subject,
            trait_ref: bound_path_of(bs[i]).unwrap(),
        }),
    decreases bs.len(),
{
    if bs.len() > 0 {
        let init = bs.drop_last();
        assert forall|i: int| 0 <= i < init.len() implies (#[trigger] bound_path_of(init[i])) is Some by {
            assert(init[i] == bs[i]);
        }
        lemma_bound_preds_all(subject, init);
        assert(bound_path_of(bs[bs.len() - 1]) is Some);
    }
}

/// A predicate with no bound whose trait path resolves gives no bound.
pub proof fn lemma_unresolved_dropped(w: WherePredNode)
    requires
        w.bounds matches Some(bs) ==> forall|i: int| 0 <= i < bs@.len() ==> (#[trigger] bound_path_of(bs@[i])) is None,
    ensures
        pred_entries(w).len() == 0,
{
    if let (Some(t), Some(bs)) = (w.type_ref, w.bounds) {
        lemma_bound_preds_none(type_ref_of(t), bs@);
    }
}

/// No bound of `bs` resolves: `bound_preds` keeps none of them.
proof fn lemma_bound_preds_none(subject: TypeRefView, bs: Seq<TypeBoundNode>)
    requires
        forall|i: int| 0 <= i < bs.len() ==> (#[trigger] bound_path_of(bs[i])) is None,
    ensures
        bound_preds(subject, bs).len() == 0,
    decreases bs.len(),
{
    if bs.len() > 0 {
        let init = bs.drop_last();
        assert forall|i: int| 0 <= i < init.len() implies (#[trigger] bound_path_of(init[i])) is None by {
            assert(init[i] == bs[i]);
        }
        lemma_bound_preds_none(subject, init);
        assert(bound_path_of(bs[bs.len() - 1]) is None);
    }
}

/// The bounds of two runs of predicates are those of the first run followed
/// by those of the second: a predicate that gives nothing leaves its
/// siblings' bounds as they are.
pub proof fn lemma_where_preds_concat(a: Seq<WherePredNode>, b: Seq<WherePredNode>)
    ensures
        where_preds(a + b) == where_preds(a) + where_preds(b),
    decreases b.len(),
{
    if b.len() == 0 {
        assert(a + b =~= a);
        assert(where_preds(a) + where_preds(b) =~= where_preds(a));
    } else {
        lemma_where_preds_concat(a, b.drop_last());
        assert((a + b).drop_last() =~= a + b.drop_last());
        assert((a + b).last() == b.last());
        assert(where_preds(a + b) =~= where_preds(a) + where_preds(b));
    }
}

/// Two tables resolved for the same declaration against the same snapshot
/// are equal, whatever the cache held at each call.
pub proof fn lemma_resolve_idempotent(
    db: SourceDb,
    def: GenericDef,
    first: GenericParams,
    second: GenericParams,
)
    requires
        first@ == resolved(db, def),
        second@ == resolved(db, def),
    ensures
        first@ == second@,
{
}

} // verus!
