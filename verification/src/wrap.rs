//! Making a substitutable instance of what a real constructor returned, in
//! the wrapper in which the caller expects it.
//!
//! The wrapper of the instance depends on how the type is held and on the
//! shape of the constructor's output. Whatever the wrapper, the instance is
//! real and holds the value that was returned.

use std::rc::Rc;
use std::sync::Arc;
use vstd::prelude::*;
use vstd::string::StringExecFns;

use crate::mock_store::{fatal_text, MaybeFaux, Stateful};

verus! {

/// Why a value cannot be taken out of a shared pointer.
pub open spec fn not_unique_text() -> Seq<char> {
    "failed to obtain exclusive ownership from a shared pointer because it was not unique"@
}

impl<T, S: Stateful> MaybeFaux<T, S> {
    /// The value of a real instance.
    pub open spec fn real_value(&self) -> Option<T> {
        match self {
            MaybeFaux::Real(value) => Some(*value),
            MaybeFaux::Faux(_) => None,
        }
    }

    /// Takes the value out of a real instance.
    pub fn into_real(self) -> (value: Option<T>)
        ensures
            value == self.real_value(),
    {
        match self {
            MaybeFaux::Real(value) => Some(value),
            MaybeFaux::Faux(_) => None,
        }
    }
}

/// A type held as a plain value, a constructor that returns the value.
pub fn bare<T, S: Stateful>(raw: T) -> (object: MaybeFaux<T, S>)
    ensures
        object == MaybeFaux::<T, S>::Real(raw),
        object.real_value() == Some(raw),
{
    MaybeFaux::Real(raw)
}

/// A type held in a box, a constructor that returns the value.
pub fn bare_in_box<T, S: Stateful>(raw: T) -> (object: MaybeFaux<Box<T>, S>)
    ensures
        object == MaybeFaux::<Box<T>, S>::Real(Box::new(raw)),
        object.real_value() == Some(Box::new(raw)),
{
    MaybeFaux::Real(Box::new(raw))
}

/// A type held in a shared pointer, a constructor that returns the value.
pub fn bare_in_rc<T, S: Stateful>(raw: T) -> (object: MaybeFaux<Rc<T>, S>)
    ensures
        object == MaybeFaux::<Rc<T>, S>::Real(Rc::new(raw)),
        object.real_value() == Some(Rc::new(raw)),
{
    MaybeFaux::Real(Rc::new(raw))
}

/// A type held in an atomic shared pointer, a constructor that returns the
/// value.
pub fn bare_in_arc<T, S: Stateful>(raw: T) -> (object: MaybeFaux<Arc<T>, S>)
    ensures
        object == MaybeFaux::<Arc<T>, S>::Real(Arc::new(raw)),
        object.real_value() == Some(Arc::new(raw)),
{
    MaybeFaux::Real(Arc::new(raw))
}

/// A type held in a box, a constructor that returns a box: the instance is
/// real with the box, `make` makes the type of the instance, and the type
/// goes into a new box.
pub fn boxed<T, S: Stateful, W, F>(raw: Box<T>, make: F) -> (object: Box<W>) where
    F: FnOnce(MaybeFaux<Box<T>, S>) -> W,

    requires
        call_requires(make, (MaybeFaux::<Box<T>, S>::Real(raw),)),
    ensures
        call_ensures(make, (MaybeFaux::<Box<T>, S>::Real(raw),), *object),
{
    Box::new(make(MaybeFaux::Real(raw)))
}

/// A type held in a shared pointer, a constructor that returns one: the
/// instance is real with the pointer, `make` makes the type of the instance,
/// and the type goes into a new shared pointer.
pub fn shared_rc<T, S: Stateful, W, F>(raw: Rc<T>, make: F) -> (object: Rc<W>) where
    F: FnOnce(MaybeFaux<Rc<T>, S>) -> W,

    requires
        call_requires(make, (MaybeFaux::<Rc<T>, S>::Real(raw),)),
    ensures
        call_ensures(make, (MaybeFaux::<Rc<T>, S>::Real(raw),), *object),
{
    Rc::new(make(MaybeFaux::Real(raw)))
}

/// A type held in an atomic shared pointer, a constructor that returns one:
/// the instance is real with the pointer, `make` makes the type of the
/// instance, and the type goes into a new atomic shared pointer.
pub fn shared_arc<T, S: Stateful, W, F>(raw: Arc<T>, make: F) -> (object: Arc<W>) where
    F: FnOnce(MaybeFaux<Arc<T>, S>) -> W,

    requires
        call_requires(make, (MaybeFaux::<Arc<T>, S>::Real(raw),)),
    ensures
        call_ensures(make, (MaybeFaux::<Arc<T>, S>::Real(raw),), *object),
{
    Arc::new(make(MaybeFaux::Real(raw)))
}

/// A type held as a plain value, a constructor that may return nothing.
pub fn optional<T, S: Stateful>(raw: Option<T>) -> (object: Option<MaybeFaux<T, S>>)
    ensures
        object == match raw {
            Some(value) => Some(MaybeFaux::<T, S>::Real(value)),
            None => None,
        },
{
    match raw {
        Some(value) => Some(MaybeFaux::Real(value)),
        None => None,
    }
}

/// A type held as a plain value, a constructor that may fail.
pub fn fallible<T, E, S: Stateful>(raw: Result<T, E>) -> (object: Result<MaybeFaux<T, S>, E>)
    ensures
        object == match raw {
            Ok(value) => Ok::<MaybeFaux<T, S>, E>(MaybeFaux::<T, S>::Real(value)),
            Err(error) => Err(error),
        },
{
    match raw {
        Ok(value) => Ok(MaybeFaux::Real(value)),
        Err(error) => Err(error),
    }
}

/// The instance for the outcome of taking a value out of a shared pointer:
/// real with the value where the pointer gave it up, a failure where the
/// pointer was kept because it was not the only one.
///
/// The failure is that of the constructor `fn_name`.
pub fn extracted<T, P, S: Stateful>(fn_name: &str, outcome: Result<T, P>) -> (object: Result<
    MaybeFaux<T, S>,
    String,
>)
    ensures
        match outcome {
            Ok(value) => object == Ok::<MaybeFaux<T, S>, String>(MaybeFaux::<T, S>::Real(value)),
            Err(_) => (object matches Err(e) && e@ == fatal_text(fn_name@, not_unique_text())),
        },
{
    match outcome {
        Ok(value) => Ok(MaybeFaux::Real(value)),
        Err(_) => Err(
            String::from_str(fn_name).concat(": ").concat(
                "failed to obtain exclusive ownership from a shared pointer because it was not unique",
            ),
        ),
    }
}

/// A type held as a plain value, a constructor that returns a shared
/// pointer: the value is taken out of the pointer, which must be the only
/// one to it.
///
/// The failure is that of the constructor `fn_name`.
pub fn unique_rc<T, S: Stateful>(fn_name: &str, raw: Rc<T>) -> (object: Result<MaybeFaux<T, S>, String>)
    ensures
        object matches Ok(o) ==> o == MaybeFaux::<T, S>::Real(*raw) && o.real_value() == Some(
            *raw,
        ),
        object matches Err(e) ==> e@ == fatal_text(fn_name@, not_unique_text()),
{
    extracted(fn_name, Rc::try_unwrap(raw))
}

/// A type held as a plain value, a constructor that returns an atomic shared
/// pointer: the value is taken out of the pointer, which must be the only
/// one to it.
///
/// The failure is that of the constructor `fn_name`.
pub fn unique_arc<T, S: Stateful>(fn_name: &str, raw: Arc<T>) -> (object: Result<MaybeFaux<T, S>, String>)
    ensures
        object matches Ok(o) ==> o == MaybeFaux::<T, S>::Real(*raw) && o.real_value() == Some(
            *raw,
        ),
        object matches Err(e) ==> e@ == fatal_text(fn_name@, not_unique_text()),
{
    extracted(fn_name, arc_try_unwrap(raw))
}

/// `Arc::try_unwrap` of the standard library: it gives the value back where
/// the pointer is the only strong one to it, and otherwise the pointer that
/// it was given. Which of the two happens is not stated.
#[verifier::external_body]
fn arc_try_unwrap<T>(pointer: Arc<T>) -> (outcome: Result<T, Arc<T>>)
    ensures
        match outcome {
            Ok(value) => value == *pointer,
            Err(kept) => kept == pointer,
        },
{
    Arc::try_unwrap(pointer)
}

/// An instance made of a value is real and gives the value back, whatever
/// the value is.
pub proof fn lemma_real_round_trip<T, S: Stateful>(raw: T)
    ensures
        MaybeFaux::<T, S>::Real(raw) is Real,
        MaybeFaux::<T, S>::Real(raw).real_value() == Some(raw),
        MaybeFaux::<T, S>::Real(raw).registered() == Map::<usize, S>::empty(),
{
}

} // verus!
