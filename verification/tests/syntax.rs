use faux::syntax::{
    same_argument, same_arguments, same_bound, same_bounds, same_path, same_segment, same_text,
    same_type, Bound, GenericArgument, PathArguments, PathSegment, Type, TypePath,
};

fn bounds(list: Vec<Bound>) -> syn::punctuated::Punctuated<Bound, syn::token::Add> {
    list.into_iter().collect()
}

fn segment(ident: &str) -> PathSegment {
    PathSegment { ident: ident.to_string(), arguments: PathArguments::Absent }
}

fn generic(ident: &str, args: Vec<GenericArgument>) -> PathSegment {
    PathSegment { ident: ident.to_string(), arguments: PathArguments::AngleBracketed(args) }
}

fn path(segments: Vec<PathSegment>) -> TypePath {
    TypePath { qself: None, leading_colon: false, segments }
}

fn named(ident: &str) -> Type {
    Type::Path(path(vec![segment(ident)]))
}

#[test]
fn equal_paths_are_the_same() {
    let a = path(vec![segment("std"), segment("rc"), generic("Rc", vec![GenericArgument::Type(named("Self"))])]);
    let b = path(vec![segment("std"), segment("rc"), generic("Rc", vec![GenericArgument::Type(named("Self"))])]);
    assert!(same_path(&a, &b));
    assert!(same_path(&a, &a));
    assert_eq!(a, b);
}

#[test]
fn paths_differ_by_every_part() {
    let base = path(vec![segment("a"), generic("B", vec![GenericArgument::Type(named("C"))])]);
    let other_ident = path(vec![segment("a"), generic("X", vec![GenericArgument::Type(named("C"))])]);
    let other_arg = path(vec![segment("a"), generic("B", vec![GenericArgument::Type(named("D"))])]);
    let no_args = path(vec![segment("a"), segment("B")]);
    let more_args = path(vec![
        segment("a"),
        generic("B", vec![GenericArgument::Type(named("C")), GenericArgument::Other("'a".to_string())]),
    ]);
    let shorter = path(vec![segment("a")]);
    let leading = TypePath {
        qself: None,
        leading_colon: true,
        segments: vec![segment("a"), generic("B", vec![GenericArgument::Type(named("C"))])],
    };
    let qualified = TypePath {
        qself: Some("T".to_string()),
        leading_colon: false,
        segments: vec![segment("a"), generic("B", vec![GenericArgument::Type(named("C"))])],
    };
    for other in [&other_ident, &other_arg, &no_args, &more_args, &shorter, &leading, &qualified] {
        assert!(!same_path(&base, other));
        assert!(!same_path(other, &base));
    }
}

#[test]
fn sameness_of_paths_agrees_with_equality() {
    let paths = vec![
        path(vec![]),
        path(vec![segment("Self")]),
        path(vec![segment("Foo")]),
        path(vec![generic("Foo", vec![])]),
        path(vec![generic("Foo", vec![GenericArgument::Other("'a".to_string())])]),
        path(vec![generic("Foo", vec![GenericArgument::Type(named("T"))])]),
        path(vec![PathSegment {
            ident: "Fn".to_string(),
            arguments: PathArguments::Parenthesized("(u8) -> u8".to_string()),
        }]),
    ];
    for a in &paths {
        for b in &paths {
            assert_eq!(same_path(a, b), a == b);
        }
    }
}

#[test]
fn sameness_of_types_agrees_with_equality() {
    let types = vec![
        named("Self"),
        named("Foo"),
        Type::Other("(Self , u8)".to_string()),
        Type::Other("[u8 ; 4]".to_string()),
        Type::Paren(Box::new(named("Foo"))),
        Type::Reference { lifetime: None, mutable: false, elem: Box::new(named("Foo")) },
        Type::Reference { lifetime: None, mutable: true, elem: Box::new(named("Foo")) },
        Type::Reference { lifetime: Some("'a".to_string()), mutable: false, elem: Box::new(named("Foo")) },
        Type::Reference { lifetime: None, mutable: false, elem: Box::new(named("Bar")) },
        Type::ImplTrait { bounds: bounds(vec![Bound::Trait("Fn ()".to_string())]) },
        Type::TraitObject { bounds: bounds(vec![Bound::Trait("Fn ()".to_string())]) },
        Type::ImplTrait { bounds: bounds(vec![Bound::Trait("Fn ()".to_string()), Bound::Lifetime("'a".to_string())]) },
        Type::ImplTrait { bounds: bounds(vec![]) },
    ];
    for a in &types {
        for b in &types {
            assert_eq!(same_type(a, b), a == b);
        }
    }
}

#[test]
fn sameness_of_the_parts_agrees_with_equality() {
    assert!(same_text(&None, &None));
    assert!(same_text(&Some("a".to_string()), &Some("a".to_string())));
    assert!(!same_text(&Some("a".to_string()), &None));
    assert!(!same_text(&Some("a".to_string()), &Some("b".to_string())));

    assert!(same_bound(&Bound::Lifetime("'a".to_string()), &Bound::Lifetime("'a".to_string())));
    assert!(!same_bound(&Bound::Lifetime("'a".to_string()), &Bound::Trait("'a".to_string())));
    assert!(!same_bound(&Bound::Trait("A".to_string()), &Bound::Trait("B".to_string())));
    assert!(same_bounds(&bounds(vec![]), &bounds(vec![])));
    assert!(!same_bounds(&bounds(vec![Bound::Trait("A".to_string())]), &bounds(vec![])));
    assert!(same_bounds(
        &bounds(vec![Bound::Trait("A".to_string()), Bound::Lifetime("'a".to_string())]),
        &bounds(vec![Bound::Trait("A".to_string()), Bound::Lifetime("'a".to_string())])
    ));
    assert!(!same_bounds(
        &bounds(vec![Bound::Trait("A".to_string()), Bound::Lifetime("'a".to_string())]),
        &bounds(vec![Bound::Lifetime("'a".to_string()), Bound::Trait("A".to_string())])
    ));

    let ty = GenericArgument::Type(named("T"));
    let other = GenericArgument::Other("T".to_string());
    assert!(same_argument(&ty, &GenericArgument::Type(named("T"))));
    assert!(!same_argument(&ty, &other));
    assert!(same_arguments(&PathArguments::Absent, &PathArguments::Absent));
    assert!(!same_arguments(&PathArguments::Absent, &PathArguments::AngleBracketed(vec![])));
    assert!(same_segment(&segment("a"), &segment("a")));
    assert!(!same_segment(&segment("a"), &generic("a", vec![])));
}

#[test]
fn one_identifier_is_recognised() {
    assert!(path(vec![segment("Self")]).is_ident("Self"));
    assert!(!path(vec![segment("Self")]).is_ident("self"));
    assert!(!path(vec![segment("Selfish")]).is_ident("Self"));
    assert!(!path(vec![segment("crate"), segment("Self")]).is_ident("Self"));
    assert!(!path(vec![generic("Self", vec![])]).is_ident("Self"));
    assert!(!path(vec![]).is_ident("Self"));
    let leading = TypePath { qself: None, leading_colon: true, segments: vec![segment("Self")] };
    assert!(!leading.is_ident("Self"));
}

#[test]
fn substitutable_type_is_named_by_its_path_or_by_self() {
    let morphed = path(vec![segment("Foo")]);
    assert!(path(vec![segment("Foo")]).is_self(&morphed));
    assert!(path(vec![segment("Self")]).is_self(&morphed));
    assert!(!path(vec![segment("Bar")]).is_self(&morphed));
    assert!(!path(vec![segment("crate"), segment("Foo")]).is_self(&morphed));
    let qualified = TypePath {
        qself: Some("T".to_string()),
        leading_colon: false,
        segments: vec![segment("Self")],
    };
    assert!(!qualified.is_self(&morphed));
    let generic_morphed = path(vec![generic("Foo", vec![GenericArgument::Type(named("T"))])]);
    assert!(path(vec![generic("Foo", vec![GenericArgument::Type(named("T"))])]).is_self(&generic_morphed));
    assert!(!path(vec![generic("Foo", vec![GenericArgument::Type(named("U"))])]).is_self(&generic_morphed));
    assert!(!path(vec![segment("Foo")]).is_self(&generic_morphed));
}
