//! The parts of a declared type that planning reads, as plain values.
//!
//! A type is kept as far as planning looks into it: paths with their
//! segments and generic arguments, references, `impl Trait` and what replaces
//! it. Everything else is kept as its text.
//!
//! Bounds stand in the punctuated sequence of `syn`, as they do in its
//! syntax trees. Segments and generic arguments stand in vectors: a type
//! that holds types of its own kind cannot hold them in a sequence that the
//! verifier does not look into.

use syn::punctuated::Punctuated;
use syn::token::{Add, Comma};
use vstd::prelude::*;

verus! {

/// `syn::punctuated::Punctuated`: a sequence of items with punctuation
/// between them. What a sequence holds has a name for each kind of item that
/// the library keeps in one.
#[verifier::external_type_specification]
#[verifier::external_body]
#[verifier::reject_recursive_types(T)]
#[verifier::reject_recursive_types(P)]
pub struct ExPunctuated<T, P>(Punctuated<T, P>);

/// `syn::token::Add`: the `+` between bounds.
#[verifier::external_type_specification]
#[verifier::external_body]
pub struct ExAdd(Add);

/// `syn::token::Comma`: the `,` between the inputs of a method.
#[verifier::external_type_specification]
#[verifier::external_body]
pub struct ExComma(Comma);

/// A bound of an `impl Trait` or `dyn Trait` type.
#[derive(Debug, PartialEq, Eq)]
pub enum Bound {
    /// A lifetime, with its tick.
    Lifetime(String),
    /// Any other bound, as its text.
    Trait(String),
}

/// One generic argument between angle brackets.
#[derive(Debug, PartialEq, Eq)]
pub enum GenericArgument {
    Type(Type),
    /// A lifetime, constant, binding or constraint, as its text.
    Other(String),
}

/// The arguments of a path segment.
#[derive(Debug, PartialEq, Eq)]
pub enum PathArguments {
    /// No arguments.
    Absent,
    /// `<A, B>`
    AngleBracketed(Vec<GenericArgument>),
    /// `(A, B) -> C`, as its text.
    Parenthesized(String),
}

/// One segment of a path.
#[derive(Debug, PartialEq, Eq)]
pub struct PathSegment {
    pub ident: String,
    pub arguments: PathArguments,
}

/// A path that names a type, such as `std::rc::Rc<Self>`.
#[derive(Debug, PartialEq, Eq)]
pub struct TypePath {
    /// What qualifies the path in `<T as Trait>::Name`: the type `T` and the
    /// number of segments that name the trait, as text.
    pub qself: Option<String>,
    /// Whether the path starts with `::`.
    pub leading_colon: bool,
    pub segments: Vec<PathSegment>,
}

/// A type as a declaration writes it.
#[derive(Debug, PartialEq, Eq)]
pub enum Type {
    Path(TypePath),
    /// `&'a mut T`
    Reference { lifetime: Option<String>, mutable: bool, elem: Box<Type> },
    /// `impl A + B`
    ImplTrait { bounds: Punctuated<Bound, Add> },
    /// `dyn A + B`
    TraitObject { bounds: Punctuated<Bound, Add> },
    /// `(T)`
    Paren(Box<Type>),
    /// Any other type, as its text.
    Other(String),
}

/// A bound as a mathematical value.
pub enum BoundView {
    Lifetime(Seq<char>),
    Trait(Seq<char>),
}

/// A generic argument as a mathematical value.
pub enum GenericArgumentView {
    Type(TypeView),
    Other(Seq<char>),
}

/// The arguments of a path segment as a mathematical value.
pub enum PathArgumentsView {
    Absent,
    AngleBracketed(Seq<GenericArgumentView>),
    Parenthesized(Seq<char>),
}

/// A path segment as a mathematical value.
pub struct PathSegmentView {
    pub ident: Seq<char>,
    pub arguments: PathArgumentsView,
}

/// A path to a type as a mathematical value.
pub struct TypePathView {
    pub qself: Option<Seq<char>>,
    pub leading_colon: bool,
    pub segments: Seq<PathSegmentView>,
}

/// A type as a mathematical value.
pub enum TypeView {
    Path(TypePathView),
    Reference { lifetime: Option<Seq<char>>, mutable: bool, elem: Box<TypeView> },
    ImplTrait { bounds: Seq<BoundView> },
    TraitObject { bounds: Seq<BoundView> },
    Paren(Box<TypeView>),
    Other(Seq<char>),
}

/// The text of an optional piece of a declaration.
pub open spec fn text_of(piece: Option<String>) -> Option<Seq<char>> {
    match piece {
        Some(text) => Some(text@),
        None => None,
    }
}

/// The bounds that a punctuated sequence holds, in their order.
pub uninterp spec fn bounds_in(bounds: Punctuated<Bound, Add>) -> Seq<Bound>;

/// The bounds of a type, each as its view.
pub open spec fn bounds_view(bounds: Punctuated<Bound, Add>) -> Seq<BoundView> {
    Seq::new(bounds_in(bounds).len(), |i: int| bounds_in(bounds)[i]@)
}

/// `Punctuated::new` of `syn`: a sequence that holds nothing.
#[verifier::external_body]
pub(crate) fn no_bounds() -> (bounds: Punctuated<Bound, Add>)
    ensures
        bounds_in(bounds) == Seq::<Bound>::empty(),
{
    Punctuated::new()
}

/// `Punctuated::len` of `syn`: the number of bounds in the sequence, the
/// punctuation between them not counted.
#[verifier::external_body]
pub(crate) fn bounds_len(bounds: &Punctuated<Bound, Add>) -> (len: usize)
    ensures
        len == bounds_in(*bounds).len(),
{
    bounds.len()
}

/// The indexing of a `Punctuated` of `syn`: the bound at the place `at`,
/// which must be one of the sequence.
#[verifier::external_body]
pub(crate) fn bound_at(bounds: &Punctuated<Bound, Add>, at: usize) -> (bound: &Bound)
    requires
        at < bounds_in(*bounds).len(),
    ensures
        *bound == bounds_in(*bounds)[at as int],
{
    &bounds[at]
}

/// `Punctuated::push` of `syn`: the bound goes to the end of the sequence,
/// after a `+` of its own where the sequence does not end in one.
#[verifier::external_body]
pub(crate) fn push_bound(bounds: &mut Punctuated<Bound, Add>, bound: Bound)
    ensures
        bounds_in(*final(bounds)) == bounds_in(*old(bounds)).push(bound),
{
    bounds.push(bound)
}

impl View for Bound {
    type V = BoundView;

    open spec fn view(&self) -> BoundView {
        match self {
            Bound::Lifetime(text) => BoundView::Lifetime(text@),
            Bound::Trait(text) => BoundView::Trait(text@),
        }
    }
}

impl GenericArgument {
    /// The argument as a mathematical value.
    pub open spec fn model(&self) -> GenericArgumentView
        decreases self,
    {
        match self {
            GenericArgument::Type(ty) => GenericArgumentView::Type(ty.model()),
            GenericArgument::Other(text) => GenericArgumentView::Other(text@),
        }
    }
}

impl PathArguments {
    /// The arguments as a mathematical value.
    pub open spec fn model(&self) -> PathArgumentsView
        decreases self,
    {
        match self {
            PathArguments::Absent => PathArgumentsView::Absent,
            PathArguments::AngleBracketed(args) => PathArgumentsView::AngleBracketed(
                Seq::new(
                    args.len() as nat,
                    |i: int|
                        if 0 <= i < args.len() {
                            args[i].model()
                        } else {
                            GenericArgumentView::Other(Seq::empty())
                        },
                ),
            ),
            PathArguments::Parenthesized(text) => PathArgumentsView::Parenthesized(text@),
        }
    }
}

impl PathSegment {
    /// The segment as a mathematical value.
    pub open spec fn model(&self) -> PathSegmentView
        decreases self,
    {
        PathSegmentView { ident: self.ident@, arguments: self.arguments.model() }
    }
}

impl TypePath {
    /// The path as a mathematical value.
    pub open spec fn model(&self) -> TypePathView
        decreases self,
    {
        TypePathView {
            qself: text_of(self.qself),
            leading_colon: self.leading_colon,
            segments: Seq::new(
                self.segments.len() as nat,
                |i: int|
                    if 0 <= i < self.segments.len() {
                        self.segments[i].model()
                    } else {
                        PathSegmentView { ident: Seq::empty(), arguments: PathArgumentsView::Absent }
                    },
            ),
        }
    }
}

impl Type {
    /// The type as a mathematical value.
    pub open spec fn model(&self) -> TypeView
        decreases self,
    {
        match self {
            Type::Path(path) => TypeView::Path(path.model()),
            Type::Reference { lifetime, mutable, elem } => TypeView::Reference {
                lifetime: text_of(*lifetime),
                mutable: *mutable,
                elem: Box::new(elem.model()),
            },
            Type::ImplTrait { bounds } => TypeView::ImplTrait { bounds: bounds_view(*bounds) },
            Type::TraitObject { bounds } => TypeView::TraitObject { bounds: bounds_view(*bounds) },
            Type::Paren(inner) => TypeView::Paren(Box::new(inner.model())),
            Type::Other(text) => TypeView::Other(text@),
        }
    }
}

impl View for GenericArgument {
    type V = GenericArgumentView;

    open spec fn view(&self) -> GenericArgumentView {
        self.model()
    }
}

impl View for PathArguments {
    type V = PathArgumentsView;

    open spec fn view(&self) -> PathArgumentsView {
        self.model()
    }
}

impl View for PathSegment {
    type V = PathSegmentView;

    open spec fn view(&self) -> PathSegmentView {
        self.model()
    }
}

impl View for TypePath {
    type V = TypePathView;

    open spec fn view(&self) -> TypePathView {
        self.model()
    }
}

impl View for Type {
    type V = TypeView;

    open spec fn view(&self) -> TypeView {
        self.model()
    }
}

/// Whether two optional pieces of text are the same.
pub fn same_text(a: &Option<String>, b: &Option<String>) -> (same: bool)
    ensures
        same == (text_of(*a) == text_of(*b)),
{
    match (a, b) {
        (Some(x), Some(y)) => *x == *y,
        (None, None) => true,
        _ => false,
    }
}

/// Whether two bounds are the same.
pub fn same_bound(a: &Bound, b: &Bound) -> (same: bool)
    ensures
        same == (a@ == b@),
{
    match (a, b) {
        (Bound::Lifetime(x), Bound::Lifetime(y)) => *x == *y,
        (Bound::Trait(x), Bound::Trait(y)) => *x == *y,
        _ => false,
    }
}

/// Whether two sequences of bounds hold the same bounds.
pub fn same_bounds(a: &Punctuated<Bound, Add>, b: &Punctuated<Bound, Add>) -> (same: bool)
    ensures
        same == (bounds_view(*a) == bounds_view(*b)),
{
    let len = bounds_len(a);
    if len != bounds_len(b) {
        assert(bounds_view(*a).len() != bounds_view(*b).len());
        return false;
    }
    let mut i: usize = 0;
    while i < len
        invariant
            len == bounds_in(*a).len(),
            len == bounds_in(*b).len(),
            i <= len,
            forall|k: int| 0 <= k < i ==> bounds_in(*a)[k]@ == bounds_in(*b)[k]@,
        decreases len - i,
    {
        if !same_bound(bound_at(a, i), bound_at(b, i)) {
            assert(bounds_view(*a)[i as int] != bounds_view(*b)[i as int]);
            return false;
        }
        i += 1;
    }
    assert(bounds_view(*a) =~= bounds_view(*b));
    true
}

/// Whether two generic arguments are the same.
pub fn same_argument(a: &GenericArgument, b: &GenericArgument) -> (same: bool)
    ensures
        same == (a@ == b@),
    decreases a,
{
    match (a, b) {
        (GenericArgument::Type(x), GenericArgument::Type(y)) => same_type(x, y),
        (GenericArgument::Other(x), GenericArgument::Other(y)) => *x == *y,
        _ => false,
    }
}

/// Whether the arguments of two path segments are the same.
pub fn same_arguments(a: &PathArguments, b: &PathArguments) -> (same: bool)
    ensures
        same == (a@ == b@),
    decreases a,
{
    match (a, b) {
        (PathArguments::Absent, PathArguments::Absent) => true,
        (PathArguments::AngleBracketed(x), PathArguments::AngleBracketed(y)) => {
            if x.len() != y.len() {
                assert(a@->AngleBracketed_0.len() != b@->AngleBracketed_0.len());
                return false;
            }
            let mut i: usize = 0;
            while i < x.len()
                invariant
                    a == PathArguments::AngleBracketed(*x),
                    b == PathArguments::AngleBracketed(*y),
                    x.len() == y.len(),
                    i <= x.len(),
                    forall|k: int| 0 <= k < i ==> x[k]@ == y[k]@,
                decreases x.len() - i,
            {
                if !same_argument(&x[i], &y[i]) {
                    assert(a@->AngleBracketed_0[i as int] != b@->AngleBracketed_0[i as int]);
                    return false;
                }
                i += 1;
            }
            assert(a@->AngleBracketed_0 =~= b@->AngleBracketed_0);
            true
        },
        (PathArguments::Parenthesized(x), PathArguments::Parenthesized(y)) => *x == *y,
        _ => false,
    }
}

/// Whether two path segments are the same.
pub fn same_segment(a: &PathSegment, b: &PathSegment) -> (same: bool)
    ensures
        same == (a@ == b@),
    decreases a,
{
    a.ident == b.ident && same_arguments(&a.arguments, &b.arguments)
}

/// Whether two paths are the same: segment by segment, argument by argument.
pub fn same_path(a: &TypePath, b: &TypePath) -> (same: bool)
    ensures
        same == (a@ == b@),
    decreases a,
{
    if !same_text(&a.qself, &b.qself) || a.leading_colon != b.leading_colon {
        return false;
    }
    if a.segments.len() != b.segments.len() {
        assert(a@.segments.len() != b@.segments.len());
        return false;
    }
    let mut i: usize = 0;
    while i < a.segments.len()
        invariant
            a.segments.len() == b.segments.len(),
            i <= a.segments.len(),
            forall|k: int| 0 <= k < i ==> a.segments[k]@ == b.segments[k]@,
        decreases a.segments.len() - i,
    {
        if !same_segment(&a.segments[i], &b.segments[i]) {
            assert(a@.segments[i as int] != b@.segments[i as int]);
            return false;
        }
        i += 1;
    }
    assert(a@.segments =~= b@.segments);
    true
}

/// Whether two types are the same.
pub fn same_type(a: &Type, b: &Type) -> (same: bool)
    ensures
        same == (a@ == b@),
    decreases a,
{
    match (a, b) {
        (Type::Path(x), Type::Path(y)) => same_path(x, y),
        (
            Type::Reference { lifetime: la, mutable: ma, elem: ea },
            Type::Reference { lifetime: lb, mutable: mb, elem: eb },
        ) => same_text(la, lb) && *ma == *mb && same_type(ea, eb),
        (Type::ImplTrait { bounds: x }, Type::ImplTrait { bounds: y }) => same_bounds(x, y),
        (Type::TraitObject { bounds: x }, Type::TraitObject { bounds: y }) => same_bounds(x, y),
        (Type::Paren(x), Type::Paren(y)) => same_type(x, y),
        (Type::Other(x), Type::Other(y)) => *x == *y,
        _ => false,
    }
}

} // verus!
