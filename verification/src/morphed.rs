//! Planning the methods of a substitutable type.
//!
//! For each declared method the plan says how its body reaches the real
//! implementation, whether and how it reaches a stub, how arguments that
//! cannot be stored as they are get stored, and how an output that is the
//! type itself is made substitutable again.

use syn::punctuated::Punctuated;
use syn::token::{Add, Comma};
use vstd::prelude::*;
use vstd::string::StringExecFns;

use crate::identity::{marker_name, marker_text, when_name, when_text};
use crate::self_type::{name_text, new_path_text, SelfType};
use crate::syntax::{
    bound_at, bounds_in, bounds_len, bounds_view, no_bounds, push_bound, same_path, Bound,
    BoundView, GenericArgument, GenericArgumentView, PathArguments, PathArgumentsView, Type,
    TypePath, TypePathView, TypeView,
};
use crate::text::{contains_run, contains_token, occurs_in, texts};

verus! {

/// A type together with its tokens, each as its text and in their order.
/// The delimiters of a group are tokens of their own.
#[derive(Debug, PartialEq, Eq)]
pub struct DeclaredType {
    pub ty: Type,
    pub tokens: Vec<String>,
}

/// A path to a type together with its tokens, each as its text and in their
/// order.
#[derive(Debug, PartialEq, Eq)]
pub struct DeclaredPath {
    pub path: TypePath,
    pub tokens: Vec<String>,
}

/// The type of an argument to a method that takes stubs.
#[derive(Clone, Copy, Debug, PartialEq, Eq)]
pub struct WhenArg<'a>(pub &'a Type);

/// How an argument is kept by a stub.
#[derive(Debug, PartialEq, Eq)]
pub enum Stored<'a> {
    /// As the type that the method declares.
    AsDeclared(&'a Type),
    /// In a box of the given trait object, which stands for an `impl Trait`.
    Boxed(Type),
}

/// Whether a type is an `impl Trait`, or a reference to one.
pub open spec fn is_impl_trait(ty: TypeView) -> bool
    decreases ty,
{
    match ty {
        TypeView::ImplTrait { .. } => true,
        TypeView::Reference { elem, .. } => is_impl_trait(*elem),
        _ => false,
    }
}

/// Whether one of the bounds is a lifetime.
pub open spec fn names_lifetime(bounds: Seq<BoundView>) -> bool {
    exists|i: int| 0 <= i < bounds.len() && bounds[i] is Lifetime
}

/// The bounds of the trait object that stands for an `impl Trait` with the
/// given bounds: the same, and the anonymous lifetime where they name none.
pub open spec fn object_bounds(bounds: Seq<BoundView>) -> Seq<BoundView> {
    if names_lifetime(bounds) {
        bounds
    } else {
        bounds.push(BoundView::Lifetime("'_"@))
    }
}

/// The type in which every `impl Trait` that `is_impl_trait` finds is a
/// trait object in parentheses; `None` where it finds none.
pub open spec fn without_impl_trait(ty: TypeView) -> Option<TypeView>
    decreases ty,
{
    match ty {
        TypeView::ImplTrait { bounds } => Some(
            TypeView::Paren(Box::new(TypeView::TraitObject { bounds: object_bounds(bounds) })),
        ),
        TypeView::Reference { lifetime, mutable, elem } => match without_impl_trait(*elem) {
            Some(inner) => Some(TypeView::Reference { lifetime, mutable, elem: Box::new(inner) }),
            None => None,
        },
        _ => None,
    }
}

/// Whether `ty` is an `impl Trait`, or a reference to one.
pub fn has_impl_trait(ty: &Type) -> (found: bool)
    ensures
        found == is_impl_trait(ty@),
    decreases ty,
{
    match ty {
        Type::ImplTrait { .. } => true,
        Type::Reference { elem, .. } => has_impl_trait(elem),
        _ => false,
    }
}

/// A sequence of copies of `bounds`.
fn copy_bounds(bounds: &Punctuated<Bound, Add>) -> (copy: Punctuated<Bound, Add>)
    ensures
        bounds_view(copy) == bounds_view(*bounds),
{
    let len = bounds_len(bounds);
    let mut copy = no_bounds();
    let mut i: usize = 0;
    while i < len
        invariant
            len == bounds_in(*bounds).len(),
            i <= len,
            bounds_in(copy).len() == i,
            forall|k: int| 0 <= k < i ==> bounds_in(copy)[k]@ == bounds_in(*bounds)[k]@,
        decreases len - i,
    {
        let bound = match bound_at(bounds, i) {
            Bound::Lifetime(text) => Bound::Lifetime(text.clone()),
            Bound::Trait(text) => Bound::Trait(text.clone()),
        };
        push_bound(&mut copy, bound);
        i += 1;
    }
    assert(bounds_view(copy) =~= bounds_view(*bounds));
    copy
}

/// Whether one of `bounds` is a lifetime.
fn any_lifetime(bounds: &Punctuated<Bound, Add>) -> (found: bool)
    ensures
        found == names_lifetime(bounds_view(*bounds)),
{
    let len = bounds_len(bounds);
    let mut i: usize = 0;
    while i < len
        invariant
            len == bounds_in(*bounds).len(),
            i <= len,
            forall|k: int| 0 <= k < i ==> !(bounds_view(*bounds)[k] is Lifetime),
        decreases len - i,
    {
        match bound_at(bounds, i) {
            Bound::Lifetime(_) => {
                assert(bounds_view(*bounds)[i as int] is Lifetime);
                return true;
            },
            Bound::Trait(_) => {},
        }
        i += 1;
    }
    false
}

/// The type that a stub keeps in place of `ty`, where `ty` is an
/// `impl Trait` or a reference to one.
pub fn replace_impl_trait(ty: &Type) -> (replaced: Option<Type>)
    ensures
        replaced is Some == without_impl_trait(ty@) is Some,
        replaced matches Some(r) ==> Some(r@) == without_impl_trait(ty@),
    decreases ty,
{
    match ty {
        Type::ImplTrait { bounds } => {
            let mut object = copy_bounds(bounds);
            if !any_lifetime(bounds) {
                push_bound(&mut object, Bound::Lifetime(String::from_str("'_")));
                assert(bounds_view(object) =~= object_bounds(bounds_view(*bounds)));
            }
            let inner = Type::TraitObject { bounds: object };
            assert(inner@ == TypeView::TraitObject {
                bounds: object_bounds(bounds_view(*bounds)),
            });
            Some(Type::Paren(Box::new(inner)))
        },
        Type::Reference { lifetime, mutable, elem } => match replace_impl_trait(elem) {
            Some(inner) => Some(
                Type::Reference {
                    lifetime: match lifetime {
                        Some(text) => Some(text.clone()),
                        None => None,
                    },
                    mutable: *mutable,
                    elem: Box::new(inner),
                },
            ),
            None => None,
        },
        _ => None,
    }
}

impl<'a> WhenArg<'a> {
    /// How a stub keeps an argument of this type.
    pub fn stored(&self) -> (kept: Stored<'a>)
        ensures
            stores(kept, *self),
    {
        match replace_impl_trait(self.0) {
            None => Stored::AsDeclared(self.0),
            Some(object) => Stored::Boxed(object),
        }
    }
}

/// A type is replaced exactly where it is an `impl Trait` or a reference to
/// one, and what replaces it is neither.
pub proof fn lemma_replaced_iff_impl_trait(ty: TypeView)
    ensures
        without_impl_trait(ty) is Some <==> is_impl_trait(ty),
        without_impl_trait(ty) matches Some(object) ==> !is_impl_trait(object),
    decreases ty,
{
    match ty {
        TypeView::Reference { elem, .. } => {
            lemma_replaced_iff_impl_trait(*elem);
        },
        _ => {},
    }
}

/// How the output of a real constructor becomes a substitutable instance.
#[derive(Clone, Copy, PartialEq, Eq, Structural, Debug)]
pub enum Wrap {
    /// The output is the value of a type that is held as a plain value: the
    /// instance is real with the output, as [`crate::wrap::bare`] makes it.
    Bare,
    /// The output is the value of a type that is held in a pointer of the
    /// given kind: a new pointer is made of the output, and the instance is
    /// real with it, as [`crate::wrap::bare_in_box`] and its like make it.
    BareIn(SelfType),
    /// The output is the type in the pointer in which the type is held: the
    /// instance is real with the output, and goes into a new pointer of that
    /// kind, as [`crate::wrap::boxed`] and its like make it.
    Rewrapped,
    /// The output is optional or fallible and the type is held as a plain
    /// value: the shape stays, and the payload of success becomes a real
    /// instance, as [`crate::wrap::optional`] and [`crate::wrap::fallible`]
    /// make it.
    Mapped,
    /// The output is the type in a shared pointer and the type is held as a
    /// plain value: the value is taken out of the pointer, which fails
    /// unless the pointer is the only one, as [`crate::wrap::unique_rc`] and
    /// [`crate::wrap::unique_arc`] do it.
    Unique,
}

/// An output that names the substitutable type where no plan can reach it.
/// The variant says which part of the declaration is at fault.
#[derive(Clone, Copy, PartialEq, Eq, Structural, Debug)]
pub enum Unhandled {
    /// The output as a whole.
    Output,
    /// The generic arguments of the output.
    Arguments,
}

/// What an `Unhandled` output is reported with.
pub open spec fn unhandled_text() -> Seq<char> {
    "faux: the return type refers to the mocked struct in a way that faux cannot handle. Split this function into an `impl` block not marked by #[faux::methods]. If you believe this is a mistake or it's a case that should be handled by faux please file an issue"@
}

/// Whether `path` is the one identifier `ident`: no leading colons, one
/// segment, no arguments.
pub open spec fn is_ident(path: TypePathView, ident: Seq<char>) -> bool {
    &&& !path.leading_colon
    &&& path.segments.len() == 1
    &&& path.segments[0].arguments is Absent
    &&& path.segments[0].ident == ident
}

/// Whether `path` names the substitutable type `morphed`: by its own path,
/// or as `Self`.
pub open spec fn is_self(path: TypePathView, morphed: TypePathView) -> bool {
    path == morphed || (path.qself is None && is_ident(path, "Self"@))
}

/// Whether an output mentions the substitutable type: one of its tokens is
/// `Self`, or the tokens of the type's path stand in it, one after the other
/// and each as a whole.
pub open spec fn mentions(output: Seq<Seq<char>>, morphed: Seq<Seq<char>>) -> bool {
    output.contains("Self"@) || occurs_in(morphed, output)
}

/// The plan for an output that is the substitutable type inside the wrapper
/// named `wrapper`, for a type held as `mode`: the pointer in which the type
/// is held is made anew; for a type held as a plain value, an optional or
/// fallible output keeps its shape and a shared pointer gives up its value;
/// there is no plan for any other pair.
pub open spec fn wrap_inside(mode: SelfType, wrapper: Seq<char>) -> Result<Wrap, Unhandled> {
    if mode != SelfType::Owned && wrapper == name_text(mode) {
        Ok(Wrap::Rewrapped)
    } else if mode == SelfType::Owned && (wrapper == "Result"@ || wrapper == "Option"@) {
        Ok(Wrap::Mapped)
    } else if mode == SelfType::Owned && (wrapper == "Rc"@ || wrapper == "Arc"@) {
        Ok(Wrap::Unique)
    } else {
        Err(Unhandled::Output)
    }
}

/// The plan for an output that is the path `path`, for the substitutable
/// type `morphed` held as `mode`.
pub open spec fn wrap_of_path(path: TypePathView, morphed: TypePathView, mode: SelfType) -> Result<
    Wrap,
    Unhandled,
> {
    if is_self(path, morphed) {
        if mode == SelfType::Owned {
            Ok(Wrap::Bare)
        } else {
            Ok(Wrap::BareIn(mode))
        }
    } else if path.segments.len() == 0 {
        Err(Unhandled::Output)
    } else {
        match path.segments.last().arguments {
            PathArgumentsView::AngleBracketed(args) => {
                if args.len() > 0 && (args[0] matches GenericArgumentView::Type(
                    TypeView::Path(inner),
                ) && is_self(inner, morphed)) {
                    wrap_inside(mode, path.segments.last().ident)
                } else {
                    Err(Unhandled::Arguments)
                }
            },
            _ => Err(Unhandled::Arguments),
        }
    }
}

/// The plan for the output of a method: none where the method has no output
/// or its output does not mention the substitutable type; the plan of the
/// path where the output is a path; and no plan at all for any other output
/// that mentions the type.
pub open spec fn planned_wrap(
    output: Option<DeclaredType>,
    morphed: DeclaredPath,
    mode: SelfType,
) -> Result<Option<Wrap>, Unhandled> {
    match output {
        None => Ok(None),
        Some(declared) => {
            if !mentions(texts(declared.tokens@), texts(morphed.tokens@)) {
                Ok(None)
            } else {
                match declared.ty@ {
                    TypeView::Path(path) => match wrap_of_path(path, morphed.path@, mode) {
                        Ok(wrap) => Ok(Some(wrap)),
                        Err(unhandled) => Err(unhandled),
                    },
                    _ => Err(Unhandled::Output),
                }
            }
        },
    }
}

/// A plan fits the way the type is held: a pointer is made only for a type
/// that is held in one, and that pointer has a constructor; an output keeps
/// its shape or gives up its value only for a type held as a plain value.
pub proof fn lemma_plan_fits_mode(
    output: Option<DeclaredType>,
    morphed: DeclaredPath,
    mode: SelfType,
)
    ensures
        match planned_wrap(output, morphed, mode) {
            Ok(Some(Wrap::Bare)) => mode == SelfType::Owned,
            Ok(Some(Wrap::BareIn(pointer))) => pointer == mode && mode != SelfType::Owned
                && new_path_text(pointer) is Some,
            Ok(Some(Wrap::Rewrapped)) => mode != SelfType::Owned,
            Ok(Some(Wrap::Mapped)) => mode == SelfType::Owned,
            Ok(Some(Wrap::Unique)) => mode == SelfType::Owned,
            Ok(None) => output matches Some(declared) ==> !mentions(
                texts(declared.tokens@),
                texts(morphed.tokens@),
            ),
            Err(_) => output matches Some(declared) && mentions(
                texts(declared.tokens@),
                texts(morphed.tokens@),
            ),
        },
{
}

impl Unhandled {
    /// The text with which the failure is reported.
    pub fn message(&self) -> (text: String)
        ensures
            text@ == unhandled_text(),
    {
        String::from_str(
            "faux: the return type refers to the mocked struct in a way that faux cannot handle. Split this function into an `impl` block not marked by #[faux::methods]. If you believe this is a mistake or it's a case that should be handled by faux please file an issue",
        )
    }
}

impl TypePath {
    /// Whether this path is the one identifier `ident`.
    pub fn is_ident(&self, ident: &str) -> (found: bool)
        ensures
            found == is_ident(self@, ident@),
    {
        if self.leading_colon || self.segments.len() != 1 {
            return false;
        }
        match &self.segments[0].arguments {
            PathArguments::Absent => self.segments[0].ident == String::from_str(ident),
            _ => false,
        }
    }

    /// Whether this path names the substitutable type `morphed`.
    pub fn is_self(&self, morphed: &TypePath) -> (found: bool)
        ensures
            found == is_self(self@, morphed@),
    {
        same_path(self, morphed) || (self.qself.is_none() && self.is_ident("Self"))
    }
}

/// Whether `text` is the text of the literal `word`.
fn reads(text: &String, word: &str) -> (same: bool)
    ensures
        same == (text@ == word@),
{
    *text == String::from_str(word)
}

/// The plan for an output that is the substitutable type inside the wrapper
/// named `wrapper`.
fn wrap_inside_of(mode: SelfType, wrapper: &String) -> (plan: Result<Wrap, Unhandled>)
    ensures
        plan == wrap_inside(mode, wrapper@),
{
    match mode {
        SelfType::Rc => if reads(wrapper, "Rc") {
            Ok(Wrap::Rewrapped)
        } else {
            Err(Unhandled::Output)
        },
        SelfType::Arc => if reads(wrapper, "Arc") {
            Ok(Wrap::Rewrapped)
        } else {
            Err(Unhandled::Output)
        },
        SelfType::Box => if reads(wrapper, "Box") {
            Ok(Wrap::Rewrapped)
        } else {
            Err(Unhandled::Output)
        },
        SelfType::Owned => if reads(wrapper, "Result") || reads(wrapper, "Option") {
            Ok(Wrap::Mapped)
        } else if reads(wrapper, "Rc") || reads(wrapper, "Arc") {
            Ok(Wrap::Unique)
        } else {
            Err(Unhandled::Output)
        },
    }
}

/// The plan for an output that is the path `path`.
pub fn wrap_path(path: &TypePath, morphed: &TypePath, mode: SelfType) -> (plan: Result<
    Wrap,
    Unhandled,
>)
    ensures
        plan == wrap_of_path(path@, morphed@, mode),
{
    if path.is_self(morphed) {
        return match mode {
            SelfType::Owned => Ok(Wrap::Bare),
            generic => Ok(Wrap::BareIn(generic)),
        };
    }
    if path.segments.len() == 0 {
        return Err(Unhandled::Output);
    }
    let last = &path.segments[path.segments.len() - 1];
    assert(path@.segments.last() == last@);
    match &last.arguments {
        PathArguments::AngleBracketed(args) => {
            if args.len() == 0 {
                return Err(Unhandled::Arguments);
            }
            assert(last@.arguments->AngleBracketed_0[0] == args[0]@);
            match &args[0] {
                GenericArgument::Type(Type::Path(inner)) => {
                    if inner.is_self(morphed) {
                        wrap_inside_of(mode, &last.ident)
                    } else {
                        Err(Unhandled::Arguments)
                    }
                },
                _ => Err(Unhandled::Arguments),
            }
        },
        _ => Err(Unhandled::Arguments),
    }
}

/// One input of a declared method.
#[derive(Debug, PartialEq, Eq)]
pub enum FnArg {
    /// `self`, `&self` or `&mut self`.
    Receiver,
    /// A pattern and its type.
    Typed { pat: String, ty: Type },
}

/// A method as it is declared.
#[derive(Debug, PartialEq, Eq)]
pub struct Method {
    pub ident: String,
    pub is_async: bool,
    pub inputs: Punctuated<FnArg, Comma>,
    pub output: Option<DeclaredType>,
}

/// The inputs that a punctuated sequence holds, in their order.
pub uninterp spec fn inputs_in(inputs: Punctuated<FnArg, Comma>) -> Seq<FnArg>;

/// `Punctuated::len` of `syn`: the number of inputs in the sequence, the
/// punctuation between them not counted.
#[verifier::external_body]
fn inputs_len(inputs: &Punctuated<FnArg, Comma>) -> (len: usize)
    ensures
        len == inputs_in(*inputs).len(),
{
    inputs.len()
}

/// The indexing of a `Punctuated` of `syn`: the input at the place `at`,
/// which must be one of the sequence.
#[verifier::external_body]
fn input_at(inputs: &Punctuated<FnArg, Comma>, at: usize) -> (input: &FnArg)
    requires
        at < inputs_in(*inputs).len(),
    ensures
        *input == inputs_in(*inputs)[at as int],
{
    &inputs[at]
}

/// Who may call a method.
#[derive(Clone, Copy, PartialEq, Eq, Structural, Debug)]
pub enum Visibility {
    Public,
    Crate,
    Restricted,
    /// No visibility is written: the method is private.
    Inherited,
}

/// The type through which a method receives the instance, as its text.
#[derive(Debug, PartialEq, Eq)]
pub struct Receiver {
    pub tokens: String,
}

/// What planning knows of a method that receives the instance.
#[derive(Debug, PartialEq, Eq)]
pub struct MethodData<'a> {
    pub receiver: Receiver,
    /// The types of the arguments after the receiver.
    pub arg_types: Vec<WhenArg<'a>>,
    /// Whether the method takes no stubs: it is neither visible outside nor
    /// part of a trait.
    pub is_private: bool,
}

/// A declared method, read for planning.
#[derive(Debug, PartialEq, Eq)]
pub struct Signature<'a> {
    pub name: &'a String,
    /// The patterns of the arguments, without the receiver.
    pub args: Vec<&'a String>,
    pub is_async: bool,
    pub output: Option<&'a DeclaredType>,
    /// `None` for an associated function, which has no receiver.
    pub method_data: Option<MethodData<'a>>,
    /// The trait that the method implements, if any.
    pub trait_path: Option<&'a String>,
}

/// The number of inputs that stand before the arguments.
pub open spec fn receivers(receiver: Option<Receiver>) -> nat {
    if receiver is Some {
        1
    } else {
        0
    }
}

/// Whether a method takes no stubs.
pub open spec fn private(in_trait: bool, vis: Visibility) -> bool {
    !in_trait && vis == Visibility::Inherited
}

/// Whether every input of `signature` after the receiver is a pattern with a
/// type.
pub open spec fn well_formed(signature: Method, receiver: Option<Receiver>) -> bool {
    forall|i: int|
        receivers(receiver) <= i < inputs_in(signature.inputs).len() ==> inputs_in(
            signature.inputs,
        )[i] is Typed
}

/// Whether `morphed` is the declared method `signature`, read for planning.
pub open spec fn reads_method(
    morphed: Signature,
    signature: &Method,
    receiver: Option<Receiver>,
    trait_path: Option<&String>,
    vis: Visibility,
) -> bool {
    let inputs = inputs_in(signature.inputs);
    &&& morphed.name == &signature.ident
    &&& morphed.is_async == signature.is_async
    &&& morphed.trait_path == trait_path
    &&& morphed.output is Some == signature.output is Some
    &&& morphed.output matches Some(output) ==> *output == signature.output->0
    &&& morphed.args.len() == if inputs.len() >= receivers(receiver) {
        inputs.len() - receivers(receiver)
    } else {
        0
    }
    &&& forall|i: int|
        0 <= i < morphed.args.len() ==> *morphed.args[i] == inputs[i + receivers(receiver)]->pat
    &&& morphed.method_data is Some == receiver is Some
    &&& morphed.method_data matches Some(data) ==> {
        &&& data.receiver == receiver->0
        &&& data.is_private == private(trait_path is Some, vis)
        &&& data.arg_types.len() == if inputs.len() >= 1 {
            inputs.len() - 1
        } else {
            0
        }
        &&& forall|i: int| 0 <= i < data.arg_types.len() ==> *data.arg_types[i].0 == inputs[i + 1]->ty
    }
}

impl<'a> Signature<'a> {
    /// Reads the declared method `signature`, which receives the instance
    /// through `receiver` if it receives it at all.
    ///
    /// Every input after the receiver is a pattern with a type.
    pub fn morph(
        signature: &'a Method,
        receiver: Option<Receiver>,
        trait_path: Option<&'a String>,
        vis: &Visibility,
    ) -> (morphed: Signature<'a>)
        requires
            well_formed(*signature, receiver),
        ensures
            reads_method(morphed, signature, receiver, trait_path, *vis),
    {
        let output = match &signature.output {
            None => None,
            Some(ty) => Some(ty),
        };
        let skip: usize = if receiver.is_some() {
            1
        } else {
            0
        };
        let is_private = trait_path.is_none() && *vis == Visibility::Inherited;
        let len = inputs_len(&signature.inputs);
        let ghost inputs = inputs_in(signature.inputs);
        let method_data = match receiver {
            None => None,
            Some(receiver) => {
                let mut arg_types: Vec<WhenArg<'a>> = Vec::new();
                let mut i: usize = 1;
                while i < len
                    invariant
                        len == inputs.len(),
                        inputs == inputs_in(signature.inputs),
                        1 <= i,
                        i == 1 || i <= len,
                        arg_types.len() == i - 1,
                        forall|k: int| 1 <= k < inputs.len() ==> inputs[k] is Typed,
                        forall|k: int|
                            0 <= k < arg_types.len() ==> *arg_types[k].0 == inputs[k + 1]->ty,
                    decreases len - i,
                {
                    match input_at(&signature.inputs, i) {
                        FnArg::Typed { ty, .. } => arg_types.push(WhenArg(ty)),
                        FnArg::Receiver => vstd::pervasive::unreached(),
                    }
                    i += 1;
                }
                Some(MethodData { receiver, arg_types, is_private })
            },
        };
        let mut args: Vec<&'a String> = Vec::new();
        let mut i: usize = skip;
        while i < len
            invariant
                len == inputs.len(),
                inputs == inputs_in(signature.inputs),
                skip <= i,
                i == skip || i <= len,
                args.len() == i - skip,
                forall|k: int| skip <= k < inputs.len() ==> inputs[k] is Typed,
                forall|k: int| 0 <= k < args.len() ==> *args[k] == inputs[k + skip]->pat,
            decreases len - i,
        {
            match input_at(&signature.inputs, i) {
                FnArg::Typed { pat, .. } => args.push(pat),
                FnArg::Receiver => vstd::pervasive::unreached(),
            }
            i += 1;
        }
        Signature {
            name: &signature.ident,
            args,
            is_async: signature.is_async,
            output,
            method_data,
            trait_path,
        }
    }

    /// Reads the declared method `signature` as `morph` does, where every
    /// input after the receiver is a pattern with a type; `None` where one
    /// is not.
    pub fn try_morph(
        signature: &'a Method,
        receiver: Option<Receiver>,
        trait_path: Option<&'a String>,
        vis: &Visibility,
    ) -> (morphed: Option<Signature<'a>>)
        ensures
            morphed is Some == well_formed(*signature, receiver),
            morphed matches Some(read) ==> reads_method(
                read,
                signature,
                receiver,
                trait_path,
                *vis,
            ),
    {
        let len = inputs_len(&signature.inputs);
        let mut i: usize = if receiver.is_some() {
            1
        } else {
            0
        };
        while i < len
            invariant
                len == inputs_in(signature.inputs).len(),
                receivers(receiver) <= i,
                forall|k: int|
                    receivers(receiver) <= k < i && k < len ==> inputs_in(
                        signature.inputs,
                    )[k] is Typed,
            decreases len - i,
        {
            match input_at(&signature.inputs, i) {
                FnArg::Typed { .. } => {},
                FnArg::Receiver => {
                    return None;
                },
            }
            i += 1;
        }
        Some(Signature::morph(signature, receiver, trait_path, vis))
    }

    /// How the output of the real implementation becomes a substitutable
    /// instance, where the output mentions the type `morphed_ty`, held as
    /// `real_self`.
    pub fn wrap_self(&self, morphed_ty: &DeclaredPath, real_self: SelfType) -> (plan: Result<
        Option<Wrap>,
        Unhandled,
    >)
        ensures
            plan == planned_wrap(
                match self.output {
                    Some(output) => Some(*output),
                    None => None,
                },
                *morphed_ty,
                real_self,
            ),
    {
        let output = match self.output {
            None => {
                return Ok(None);
            },
            Some(output) => output,
        };
        if !contains_token(&output.tokens, "Self") && !contains_run(
            &output.tokens,
            &morphed_ty.tokens,
        ) {
            return Ok(None);
        }
        match &output.ty {
            Type::Path(path) => match wrap_path(path, &morphed_ty.path, real_self) {
                Ok(wrap) => Ok(Some(wrap)),
                Err(unhandled) => Err(unhandled),
            },
            _ => Err(Unhandled::Output),
        }
    }
}

/// An argument as the body hands it to a stub.
#[derive(Debug, PartialEq, Eq)]
pub struct Packed {
    /// The pattern of the argument.
    pub pat: String,
    /// Whether the argument goes into a box, because its type is an
    /// `impl Trait` that a stub keeps as a trait object.
    pub boxed: bool,
}

/// The input of a stub, packed from the arguments of the method.
#[derive(Debug, PartialEq, Eq)]
pub enum Input {
    /// The one argument, bare.
    Single(Packed),
    /// A tuple of the arguments; the unit where there are none.
    Tuple(Vec<Packed>),
}

/// What the body of a method does on a mocked instance.
#[derive(Debug, PartialEq, Eq)]
pub enum StubCall {
    /// The method takes no stubs: the call fails.
    Forbidden,
    /// The stub registered for `marker` is invoked with `input`, and a
    /// failure is reported under `fn_name`.
    Invoke { marker: String, fn_name: String, input: Input },
}

/// The plan of the body of a method.
#[derive(Debug, PartialEq, Eq)]
pub struct Body {
    /// Whether the real implementation is called as a method of a trait.
    pub by_trait: bool,
    /// Whether the real value of the instance is the first argument of the
    /// real implementation.
    pub passes_self: bool,
    /// Whether the real implementation is awaited.
    pub awaited: bool,
    /// How the output of the real implementation is made substitutable.
    pub wrap: Option<Wrap>,
    /// What is done on a mocked instance; `None` for an associated function,
    /// which has no instance and always calls the real implementation.
    pub stub: Option<StubCall>,
}

/// The plan of the entry point that hands out the handle for the stubs of a
/// method, and of the marker that is the method's identity.
#[derive(Debug, PartialEq, Eq)]
pub struct WhenPlan<'a> {
    /// The name of the entry point.
    pub when_ident: String,
    /// The name of the marker.
    pub faux_ident: String,
    /// The name of the method, for the messages of the handle.
    pub name: String,
    /// What the marker fails with when it is called.
    pub panic_message: String,
    pub receiver: &'a Receiver,
    /// How a stub keeps each argument.
    pub arg_types: Vec<Stored<'a>>,
    /// The output of the method; `None` for the unit.
    pub output: Option<&'a DeclaredType>,
}

impl View for Packed {
    type V = (Seq<char>, bool);

    open spec fn view(&self) -> (Seq<char>, bool) {
        (self.pat@, self.boxed)
    }
}

/// The arguments that a stub gets: each pattern that has a type, boxed where
/// the type is an `impl Trait`.
pub open spec fn packed(args: Seq<&String>, arg_types: Seq<WhenArg>) -> Seq<(Seq<char>, bool)> {
    Seq::new(
        if args.len() <= arg_types.len() {
            args.len()
        } else {
            arg_types.len()
        },
        |i: int| (args[i]@, is_impl_trait(arg_types[i].0@)),
    )
}

/// Whether `input` packs `arguments`: one argument bare, any other number
/// as a tuple.
pub open spec fn packs(input: Input, arguments: Seq<(Seq<char>, bool)>) -> bool {
    match input {
        Input::Single(only) => arguments.len() == 1 && only@ == arguments[0],
        Input::Tuple(all) => arguments.len() != 1 && all@.len() == arguments.len() && forall|
            i: int,
        |
            0 <= i < all@.len() ==> all@[i]@ == arguments[i],
    }
}

/// Whether `call` is what the method `name` with the arguments `args` does
/// on a mocked instance.
pub open spec fn calls_stub(
    call: StubCall,
    name: Seq<char>,
    args: Seq<&String>,
    data: MethodData,
) -> bool {
    if data.is_private {
        call is Forbidden
    } else {
        &&& call matches StubCall::Invoke { marker, fn_name, input }
        &&& marker@ == marker_text(name)
        &&& fn_name@ == name
        &&& packs(input, packed(args, data.arg_types@))
    }
}

/// What the marker of the method `name` fails with when it is called.
pub open spec fn marker_panic_text(name: Seq<char>) -> Seq<char> {
    "do not call this ("@ + name + ")"@
}

impl<'a> Signature<'a> {
    /// The plan of the body of the method, for a type held as `real_self`
    /// whose path is `morphed_ty`.
    ///
    /// There is a plan unless the output names the type where no plan can
    /// reach it.
    pub fn create_body(&self, real_self: SelfType, morphed_ty: &DeclaredPath) -> (body: Result<
        Body,
        Unhandled,
    >)
        ensures
            match planned_wrap(
                match self.output {
                    Some(output) => Some(*output),
                    None => None,
                },
                *morphed_ty,
                real_self,
            ) {
                Err(unhandled) => body == Err::<Body, Unhandled>(unhandled),
                Ok(wrap) => {
                    &&& body matches Ok(plan)
                    &&& plan.wrap == wrap
                    &&& plan.by_trait == self.trait_path is Some
                    &&& plan.passes_self == self.method_data is Some
                    &&& plan.awaited == self.is_async
                    &&& plan.stub is Some == self.method_data is Some
                    &&& plan.stub matches Some(call) ==> calls_stub(
                        call,
                        self.name@,
                        self.args@,
                        self.method_data->0,
                    )
                },
            },
    {
        let wrap = match self.wrap_self(morphed_ty, real_self) {
            Ok(wrap) => wrap,
            Err(unhandled) => {
                return Err(unhandled);
            },
        };
        let stub = match &self.method_data {
            None => None,
            Some(method_data) => Some(
                if method_data.is_private {
                    StubCall::Forbidden
                } else {
                    StubCall::Invoke {
                        marker: marker_name(self.name.as_str()),
                        fn_name: self.name.clone(),
                        input: self.pack(method_data),
                    }
                },
            ),
        };
        Ok(
            Body {
                by_trait: self.trait_path.is_some(),
                passes_self: self.method_data.is_some(),
                awaited: self.is_async,
                wrap,
                stub,
            },
        )
    }

    /// The input of a stub, packed from the arguments.
    fn pack(&self, method_data: &MethodData<'a>) -> (input: Input)
        ensures
            packs(input, packed(self.args@, method_data.arg_types@)),
    {
        let count = if self.args.len() <= method_data.arg_types.len() {
            self.args.len()
        } else {
            method_data.arg_types.len()
        };
        if count == 1 {
            return Input::Single(
                Packed {
                    pat: self.args[0].clone(),
                    boxed: has_impl_trait(method_data.arg_types[0].0),
                },
            );
        }
        let mut all: Vec<Packed> = Vec::new();
        let mut i: usize = 0;
        while i < count
            invariant
                count <= self.args.len(),
                count <= method_data.arg_types.len(),
                i <= count,
                all.len() == i,
                forall|k: int|
                    0 <= k < i ==> all[k]@ == (
                        self.args[k]@,
                        is_impl_trait(method_data.arg_types[k].0@),
                    ),
            decreases count - i,
        {
            all.push(
                Packed {
                    pat: self.args[i].clone(),
                    boxed: has_impl_trait(method_data.arg_types[i].0),
                },
            );
            i += 1;
        }
        Input::Tuple(all)
    }

    /// The plan of the entry point for stubs: there is one for a method
    /// that receives the instance and is not private.
    pub fn create_when(&self) -> (plan: Option<WhenPlan<'_>>)
        ensures
            plan is Some == (self.method_data matches Some(data) && !data.is_private),
            plan matches Some(when) ==> plans_when(when, self.method_data->0, self.output, *self.name),
    {
        match &self.method_data {
            Some(data) => if data.is_private {
                None
            } else {
                Some(data.create_when(self.output, self.name))
            },
            None => None,
        }
    }
}

/// Whether `when` is the plan of the entry point for the stubs of the method
/// `name` with the output `output`.
pub open spec fn plans_when(
    when: WhenPlan,
    data: MethodData,
    output: Option<&DeclaredType>,
    name: String,
) -> bool {
    &&& when.when_ident@ == when_text(name@)
    &&& when.faux_ident@ == marker_text(name@)
    &&& when.name@ == name@
    &&& when.panic_message@ == marker_panic_text(name@)
    &&& *when.receiver == data.receiver
    &&& when.output == output
    &&& when.arg_types@.len() == data.arg_types@.len()
    &&& forall|i: int|
        0 <= i < when.arg_types@.len() ==> stores(when.arg_types@[i], data.arg_types@[i])
}

/// Whether `kept` is how a stub keeps an argument of the type `arg`.
pub open spec fn stores(kept: Stored, arg: WhenArg) -> bool {
    match without_impl_trait(arg.0@) {
        None => kept == Stored::AsDeclared(arg.0),
        Some(object) => (kept matches Stored::Boxed(b) && b@ == object),
    }
}

impl<'a> MethodData<'a> {
    /// The plan of the entry point for the stubs of the method `name` with
    /// the output `output`, and of its marker.
    pub fn create_when<'s>(&'s self, output: Option<&'s DeclaredType>, name: &String) -> (when:
        WhenPlan<'s>)
        ensures
            plans_when(when, *self, output, *name),
    {
        let mut arg_types: Vec<Stored<'s>> = Vec::new();
        let mut i: usize = 0;
        while i < self.arg_types.len()
            invariant
                i <= self.arg_types.len(),
                arg_types.len() == i,
                forall|k: int| 0 <= k < i ==> stores(arg_types@[k], self.arg_types@[k]),
            decreases self.arg_types.len() - i,
        {
            arg_types.push(self.arg_types[i].stored());
            i += 1;
        }
        WhenPlan {
            when_ident: when_name(name.as_str()),
            faux_ident: marker_name(name.as_str()),
            name: name.clone(),
            panic_message: String::from_str("do not call this (").concat(name.as_str()).concat(
                ")",
            ),
            receiver: &self.receiver,
            arg_types,
            output,
        }
    }
}

} // verus!
