use std::sync::Arc;

use hir_generics::{
    bound_path, AdtDef, Container, Enum, Function, GenericDef, GenericParams, GenericsNode,
    HasGenericParams, ImplBlock, Name, NestedSource, ParamsCache, Path, PathNode, SourceDb,
    Struct, Trait, TypeAlias, TypeBoundNode, TypeParamNode, TypeRef, TypeRefNode, WherePredNode,
};

fn ident(s: &str) -> Name {
    Name::Ident(s.to_string())
}

fn params(names: &[Option<&str>]) -> Option<Vec<TypeParamNode>> {
    Some(names.iter().map(|n| TypeParamNode { name: n.map(|s| s.to_string()) }).collect())
}

fn path_node(segs: &[&str]) -> PathNode {
    PathNode { segments: segs.iter().map(|s| Some(s.to_string())).collect() }
}

fn path_type(segs: &[&str]) -> TypeRefNode {
    TypeRefNode::PathType(Some(path_node(segs)))
}

fn bound(segs: &[&str]) -> TypeBoundNode {
    TypeBoundNode { type_ref: Some(path_type(segs)) }
}

fn pred(subject: Option<TypeRefNode>, bounds: Vec<TypeBoundNode>) -> WherePredNode {
    WherePredNode { type_ref: subject, bounds: Some(bounds) }
}

fn generics(names: &[Option<&str>]) -> GenericsNode {
    GenericsNode { type_params: params(names), where_clause: None }
}

fn empty_db() -> SourceDb {
    SourceDb {
        functions: vec![],
        structs: vec![],
        enums: vec![],
        traits: vec![],
        type_aliases: vec![],
        impl_blocks: vec![],
    }
}

fn resolve(db: &SourceDb, def: GenericDef) -> Arc<GenericParams> {
    let mut cache = ParamsCache::new(db);
    cache.generic_params(db, def)
}

fn indices(g: &GenericParams) -> Vec<u32> {
    g.params().iter().map(|p| p.idx()).collect()
}

fn path(segs: &[&str]) -> Path {
    Path { segments: segs.iter().map(|s| s.to_string()).collect() }
}

#[test]
fn root_struct_numbered_from_zero() {
    let mut db = empty_db();
    db.structs.push(generics(&[Some("T"), Some("U"), Some("V")]));
    let g = resolve(&db, GenericDef::Struct(Struct { id: 0 }));
    assert_eq!(indices(&g), vec![0, 1, 2]);
    assert_eq!(g.count_params_including_parent(), 3);
    assert_eq!(g.count_parent_params(), 0);
    assert!(g.parent_params().is_none());
    assert_eq!(*g.params()[1].name(), ident("U"));
}

#[test]
fn method_numbered_after_impl_block() {
    let mut db = empty_db();
    db.impl_blocks.push(generics(&[Some("A"), Some("B")]));
    db.functions.push(NestedSource {
        generics: generics(&[Some("C"), Some("D")]),
        container: Some(Container::ImplBlock(ImplBlock { id: 0 })),
    });
    let g = resolve(&db, GenericDef::Function(Function { id: 0 }));
    assert_eq!(indices(&g), vec![2, 3]);
    assert_eq!(g.count_parent_params(), 2);
    assert_eq!(g.count_params_including_parent(), 4);
    let parent = g.parent_params().unwrap();
    assert_eq!(indices(parent), vec![0, 1]);
}

#[test]
fn free_function_has_no_parent() {
    let mut db = empty_db();
    db.functions.push(NestedSource { generics: generics(&[Some("T")]), container: None });
    let g = resolve(&db, GenericDef::Function(Function { id: 0 }));
    assert!(g.parent_params().is_none());
    assert_eq!(indices(&g), vec![0]);
}

#[test]
fn trait_without_params_gets_self() {
    let mut db = empty_db();
    db.traits.push(GenericsNode { type_params: None, where_clause: None });
    let g = resolve(&db, GenericDef::Trait(Trait { id: 0 }));
    assert_eq!(g.params().len(), 1);
    assert_eq!(g.params()[0].idx(), 0);
    assert_eq!(*g.params()[0].name(), Name::self_type());
    assert_eq!(g.count_params_including_parent(), 1);
}

#[test]
fn trait_params_follow_self() {
    let mut db = empty_db();
    db.traits.push(generics(&[Some("T"), Some("U")]));
    let g = resolve(&db, GenericDef::Trait(Trait { id: 0 }));
    assert_eq!(indices(&g), vec![0, 1, 2]);
    assert_eq!(*g.params()[0].name(), Name::SelfType);
    assert_eq!(*g.params()[1].name(), ident("T"));
    assert_eq!(*g.params()[2].name(), ident("U"));
}

#[test]
fn trait_method_inherits_self_and_params() {
    let mut db = empty_db();
    db.traits.push(generics(&[Some("T")]));
    db.functions.push(NestedSource {
        generics: generics(&[Some("X")]),
        container: Some(Container::Trait(Trait { id: 0 })),
    });
    let g = resolve(&db, GenericDef::Function(Function { id: 0 }));
    assert_eq!(indices(&g), vec![2]);
    let all = g.params_including_parent();
    let names: Vec<Name> = all.iter().map(|p| p.name().clone()).collect();
    assert_eq!(names, vec![Name::SelfType, ident("T"), ident("X")]);
}

#[test]
fn all_params_indexed_by_position() {
    let mut db = empty_db();
    db.impl_blocks.push(generics(&[Some("A"), Some("B"), Some("C")]));
    db.type_aliases.push(NestedSource {
        generics: generics(&[Some("D"), None]),
        container: Some(Container::ImplBlock(ImplBlock { id: 0 })),
    });
    let g = resolve(&db, GenericDef::TypeAlias(TypeAlias { id: 0 }));
    let all = g.params_including_parent();
    assert_eq!(all.len(), g.count_params_including_parent());
    for (k, p) in all.iter().enumerate() {
        assert_eq!(p.idx() as usize, k);
    }
    assert_eq!(*all[4].name(), Name::Missing);
}

#[test]
fn compound_bound_split_in_order() {
    let mut db = empty_db();
    db.functions.push(NestedSource {
        generics: GenericsNode {
            type_params: params(&[Some("T")]),
            where_clause: Some(vec![pred(Some(path_type(&["T"])), vec![bound(&["A"]), bound(&["B"])])]),
        },
        container: None,
    });
    let g = resolve(&db, GenericDef::Function(Function { id: 0 }));
    let preds = g.where_predicates();
    assert_eq!(preds.len(), 2);
    assert_eq!(*preds[0].type_ref(), TypeRef::Path(path(&["T"])));
    assert_eq!(*preds[1].type_ref(), TypeRef::Path(path(&["T"])));
    assert_eq!(*preds[0].trait_ref(), path(&["A"]));
    assert_eq!(*preds[1].trait_ref(), path(&["B"]));
}

#[test]
fn unparseable_bound_dropped_sibling_kept() {
    let mut db = empty_db();
    db.structs.push(GenericsNode {
        type_params: params(&[Some("T"), Some("U")]),
        where_clause: Some(vec![
            pred(Some(path_type(&["T"])), vec![bound(&["A"])]),
            pred(Some(path_type(&["U"])), vec![TypeBoundNode { type_ref: None }]),
        ]),
    });
    let g = resolve(&db, GenericDef::Struct(Struct { id: 0 }));
    let preds = g.where_predicates();
    assert_eq!(preds.len(), 1);
    assert_eq!(*preds[0].type_ref(), TypeRef::Path(path(&["T"])));
    assert_eq!(*preds[0].trait_ref(), path(&["A"]));
}

#[test]
fn non_path_bounds_dropped() {
    let mut db = empty_db();
    db.enums.push(GenericsNode {
        type_params: params(&[Some("T")]),
        where_clause: Some(vec![pred(
            Some(TypeRefNode::Other("&T".to_string())),
            vec![
                TypeBoundNode { type_ref: Some(TypeRefNode::Other("(A, B)".to_string())) },
                TypeBoundNode { type_ref: Some(TypeRefNode::PathType(None)) },
                TypeBoundNode {
                    type_ref: Some(TypeRefNode::PathType(Some(PathNode {
                        segments: vec![Some("a".to_string()), None],
                    }))),
                },
                bound(&["std", "fmt", "Debug"]),
            ],
        )]),
    });
    let g = resolve(&db, GenericDef::Enum(Enum { id: 0 }));
    let preds = g.where_predicates();
    assert_eq!(preds.len(), 1);
    assert_eq!(*preds[0].type_ref(), TypeRef::Other("&T".to_string()));
    assert_eq!(*preds[0].trait_ref(), path(&["std", "fmt", "Debug"]));
}

#[test]
fn predicate_without_subject_dropped() {
    let mut db = empty_db();
    db.structs.push(GenericsNode {
        type_params: None,
        where_clause: Some(vec![
            pred(None, vec![bound(&["A"])]),
            WherePredNode { type_ref: Some(path_type(&["T"])), bounds: None },
            pred(Some(path_type(&["V"])), vec![bound(&["C"])]),
        ]),
    });
    let g = resolve(&db, GenericDef::Struct(Struct { id: 0 }));
    assert_eq!(g.params().len(), 0);
    let preds = g.where_predicates();
    assert_eq!(preds.len(), 1);
    assert_eq!(*preds[0].trait_ref(), path(&["C"]));
}

#[test]
fn predicates_not_inherited() {
    let mut db = empty_db();
    db.impl_blocks.push(GenericsNode {
        type_params: params(&[Some("T")]),
        where_clause: Some(vec![pred(Some(path_type(&["T"])), vec![bound(&["Clone"])])]),
    });
    db.functions.push(NestedSource {
        generics: GenericsNode { type_params: None, where_clause: None },
        container: Some(Container::ImplBlock(ImplBlock { id: 0 })),
    });
    let g = resolve(&db, GenericDef::Function(Function { id: 0 }));
    assert_eq!(g.where_predicates().len(), 0);
    assert_eq!(g.parent_params().unwrap().where_predicates().len(), 1);
    assert_eq!(g.count_params_including_parent(), 1);
}

#[test]
fn find_by_name_ignores_parent() {
    let mut db = empty_db();
    db.impl_blocks.push(generics(&[Some("T"), Some("P")]));
    db.functions.push(NestedSource {
        generics: generics(&[Some("T"), Some("T")]),
        container: Some(Container::ImplBlock(ImplBlock { id: 0 })),
    });
    let g = resolve(&db, GenericDef::Function(Function { id: 0 }));
    let t = g.find_by_name(&ident("T")).unwrap();
    assert_eq!(t.idx(), 2);
    assert!(g.find_by_name(&ident("P")).is_none());
    assert_eq!(g.parent_params().unwrap().find_by_name(&ident("P")).unwrap().idx(), 1);
}

#[test]
fn missing_name_not_found_by_identifier() {
    let mut db = empty_db();
    db.structs.push(generics(&[None, Some("T")]));
    let g = resolve(&db, GenericDef::Struct(Struct { id: 0 }));
    assert_eq!(*g.params()[0].name(), Name::missing());
    assert_eq!(g.find_by_name(&ident("T")).unwrap().idx(), 1);
    assert!(g.find_by_name(&ident("U")).is_none());
    assert!(g.find_by_name(&Name::SelfType).is_none());
}

#[test]
fn resolving_twice_gives_equal_tables() {
    let mut db = empty_db();
    db.traits.push(generics(&[Some("T")]));
    db.functions.push(NestedSource {
        generics: GenericsNode {
            type_params: params(&[Some("U")]),
            where_clause: Some(vec![pred(Some(path_type(&["U"])), vec![bound(&["Copy"])])]),
        },
        container: Some(Container::Trait(Trait { id: 0 })),
    });
    let def = GenericDef::Function(Function { id: 0 });
    let mut cache = ParamsCache::new(&db);
    let first = cache.generic_params(&db, def);
    let second = cache.generic_params(&db, def);
    let fresh = resolve(&db, def);
    assert_eq!(*first, *second);
    assert_eq!(*first, *fresh);
}

#[test]
fn siblings_share_parent_table() {
    let mut db = empty_db();
    db.impl_blocks.push(generics(&[Some("T")]));
    let c = Some(Container::ImplBlock(ImplBlock { id: 0 }));
    db.functions.push(NestedSource { generics: generics(&[Some("A")]), container: c });
    db.functions.push(NestedSource { generics: generics(&[Some("B"), Some("C")]), container: c });
    let mut cache = ParamsCache::new(&db);
    let f0 = cache.generic_params(&db, GenericDef::Function(Function { id: 0 }));
    let f1 = cache.generic_params(&db, GenericDef::Function(Function { id: 1 }));
    assert_eq!(f0.parent_params(), f1.parent_params());
    assert_eq!(indices(&f0), vec![1]);
    assert_eq!(indices(&f1), vec![1, 2]);
}

#[test]
fn query_without_cached_parent() {
    let mut db = empty_db();
    db.impl_blocks.push(generics(&[Some("K"), Some("V")]));
    db.type_aliases.push(NestedSource {
        generics: generics(&[Some("Out")]),
        container: Some(Container::ImplBlock(ImplBlock { id: 0 })),
    });
    let mut cache = ParamsCache::new(&db);
    let g = GenericParams::generic_params_query(&db, &mut cache, GenericDef::TypeAlias(TypeAlias { id: 0 }));
    assert_eq!(indices(&g), vec![2]);
    assert_eq!(*g.params()[0].name(), ident("Out"));
}

#[test]
fn handles_resolve_through_trait() {
    let mut db = empty_db();
    db.structs.push(generics(&[Some("T")]));
    db.enums.push(generics(&[Some("E"), Some("F")]));
    db.traits.push(generics(&[]));
    db.impl_blocks.push(generics(&[Some("I")]));
    db.functions.push(NestedSource { generics: generics(&[]), container: None });
    db.type_aliases.push(NestedSource { generics: generics(&[Some("X")]), container: None });
    let mut cache = ParamsCache::new(&db);
    assert_eq!(Struct { id: 0 }.generic_params(&db, &mut cache).params().len(), 1);
    assert_eq!(Enum { id: 0 }.generic_params(&db, &mut cache).params().len(), 2);
    assert_eq!(Trait { id: 0 }.generic_params(&db, &mut cache).params().len(), 1);
    assert_eq!(ImplBlock { id: 0 }.generic_params(&db, &mut cache).params().len(), 1);
    assert_eq!(Function { id: 0 }.generic_params(&db, &mut cache).params().len(), 0);
    assert_eq!(TypeAlias { id: 0 }.generic_params(&db, &mut cache).params().len(), 1);
    let adt = AdtDef::Enum(Enum { id: 0 });
    assert_eq!(adt.generic_params(&db, &mut cache).count_params_including_parent(), 2);
    let c = Container::Trait(Trait { id: 0 });
    assert_eq!(*c.generic_params(&db, &mut cache).params()[0].name(), Name::SelfType);
    let d = GenericDef::ImplBlock(ImplBlock { id: 0 });
    assert_eq!(*d.generic_params(&db, &mut cache).params()[0].name(), ident("I"));
}

#[test]
fn from_container_and_adt() {
    assert_eq!(GenericDef::from(Container::Trait(Trait { id: 3 })), GenericDef::Trait(Trait { id: 3 }));
    assert_eq!(
        GenericDef::from(Container::ImplBlock(ImplBlock { id: 1 })),
        GenericDef::ImplBlock(ImplBlock { id: 1 })
    );
    assert_eq!(GenericDef::from(AdtDef::Struct(Struct { id: 2 })), GenericDef::Struct(Struct { id: 2 }));
    assert_eq!(GenericDef::from(AdtDef::Enum(Enum { id: 0 })), GenericDef::Enum(Enum { id: 0 }));
}

#[test]
fn path_from_ast_needs_named_segments() {
    assert_eq!(Path::from_ast(&path_node(&["a", "b"])), Some(path(&["a", "b"])));
    assert_eq!(Path::from_ast(&PathNode { segments: vec![] }), None);
    assert_eq!(Path::from_ast(&PathNode { segments: vec![Some("a".to_string()), None] }), None);
    assert_eq!(path(&["x", "y"]).segments().len(), 2);
}

#[test]
fn type_ref_from_ast_lowers() {
    assert_eq!(TypeRef::from_ast(&path_type(&["T"])), TypeRef::Path(path(&["T"])));
    assert_eq!(TypeRef::from_ast(&TypeRefNode::PathType(None)), TypeRef::Error);
    assert_eq!(
        TypeRef::from_ast(&TypeRefNode::PathType(Some(PathNode { segments: vec![None] }))),
        TypeRef::Error
    );
    assert_eq!(TypeRef::from_ast(&TypeRefNode::Other("[u8]".to_string())), TypeRef::Other("[u8]".to_string()));
}

#[test]
fn bound_path_only_for_path_types() {
    assert_eq!(bound_path(&bound(&["Ord"])), Some(path(&["Ord"])));
    assert_eq!(bound_path(&TypeBoundNode { type_ref: None }), None);
    assert_eq!(bound_path(&TypeBoundNode { type_ref: Some(TypeRefNode::Other("?Sized".to_string())) }), None);
}

#[test]
fn names_compare_by_kind_and_text() {
    assert_eq!(Name::from_ident(&"T".to_string()), ident("T"));
    assert_ne!(ident("T"), ident("U"));
    assert_ne!(ident("Self"), Name::self_type());
    assert_ne!(Name::missing(), Name::self_type());
    assert_eq!(Name::missing(), Name::Missing);
}

#[test]
fn default_table_is_empty() {
    let g = GenericParams::default();
    assert!(g.parent_params().is_none());
    assert_eq!(g.params().len(), 0);
    assert_eq!(g.where_predicates().len(), 0);
    assert_eq!(g.count_params_including_parent(), 0);
    assert!(g.params_including_parent().is_empty());
}
