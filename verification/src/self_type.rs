//! How a substitutable instance is held.

use vstd::prelude::*;
use vstd::string::StringExecFns;

verus! {

/// The wrapper in which the code under test holds a substitutable instance.
///
/// A type picks one mode when it is declared and keeps it.
#[derive(Clone, Copy, PartialEq, Eq, Structural, Debug, Hash)]
pub enum SelfType {
    /// A non-atomic reference-counted pointer.
    Rc,
    /// The value itself.
    Owned,
    /// An atomic reference-counted pointer.
    Arc,
    /// An exclusively owned heap allocation.
    Box,
}

/// The standard-library path of the pointer that holds an instance in `mode`;
/// a plain value has none.
pub open spec fn path_text(mode: SelfType) -> Option<Seq<char>> {
    match mode {
        SelfType::Owned => None,
        SelfType::Rc => Some("std::rc::Rc"@),
        SelfType::Box => Some("std::boxed::Box"@),
        SelfType::Arc => Some("std::sync::Arc"@),
    }
}

/// The path of the constructor of the pointer that holds an instance in `mode`.
pub open spec fn new_path_text(mode: SelfType) -> Option<Seq<char>> {
    match path_text(mode) {
        None => None,
        Some(p) => Some(p + "::new"@),
    }
}

/// The name under which a declaration selects `mode`.
pub open spec fn name_text(mode: SelfType) -> Seq<char> {
    match mode {
        SelfType::Owned => "owned"@,
        SelfType::Rc => "Rc"@,
        SelfType::Arc => "Arc"@,
        SelfType::Box => "Box"@,
    }
}

/// The mode that a declaration selects with `name`, if it names one.
pub open spec fn named_mode(name: Seq<char>) -> Option<SelfType> {
    if name == "Rc"@ {
        Some(SelfType::Rc)
    } else if name == "owned"@ {
        Some(SelfType::Owned)
    } else if name == "Arc"@ {
        Some(SelfType::Arc)
    } else if name == "Box"@ {
        Some(SelfType::Box)
    } else {
        None
    }
}

impl Default for SelfType {
    fn default() -> (mode: Self)
        ensures
            mode == SelfType::Owned,
    {
        SelfType::Owned
    }
}

impl SelfType {
    /// The path of the function that makes a new pointer of this mode, if the
    /// mode has a pointer.
    pub fn new_path(self) -> (r: Option<String>)
        ensures
            r.is_some() == new_path_text(self).is_some(),
            r matches Some(p) ==> p@ == new_path_text(self)->0,
    {
        match self.path() {
            None => None,
            Some(p) => Some(String::from_str(p).concat("::new")),
        }
    }

    /// The path of the pointer type of this mode, if the mode has one.
    pub fn path(self) -> (r: Option<&'static str>)
        ensures
            r.is_some() == path_text(self).is_some(),
            r matches Some(p) ==> p@ == path_text(self)->0,
    {
        match self {
            SelfType::Owned => None,
            SelfType::Rc => Some("std::rc::Rc"),
            SelfType::Box => Some("std::boxed::Box"),
            SelfType::Arc => Some("std::sync::Arc"),
        }
    }

    /// The name of this mode as a declaration writes it.
    pub fn to_string(&self) -> (r: String)
        ensures
            r@ == name_text(*self),
    {
        String::from_str(
            match self {
                SelfType::Owned => "owned",
                SelfType::Rc => "Rc",
                SelfType::Arc => "Arc",
                SelfType::Box => "Box",
            },
        )
    }

    /// Reads a mode from the name that a declaration gives it.
    pub fn from_name(name: &str) -> (r: Option<SelfType>)
        ensures
            r == named_mode(name@),
    {
        let name = String::from_str(name);
        if name == String::from_str("Rc") {
            Some(SelfType::Rc)
        } else if name == String::from_str("owned") {
            Some(SelfType::Owned)
        } else if name == String::from_str("Arc") {
            Some(SelfType::Arc)
        } else if name == String::from_str("Box") {
            Some(SelfType::Box)
        } else {
            None
        }
    }
}

/// Every mode is read back from its own name.
pub proof fn lemma_name_round_trip(mode: SelfType)
    ensures
        named_mode(name_text(mode)) == Some(mode),
{
    reveal_strlit("Rc");
    reveal_strlit("owned");
    reveal_strlit("Arc");
    reveal_strlit("Box");
    match mode {
        SelfType::Owned => {
            assert("owned"@.len() != "Rc"@.len());
        },
        SelfType::Rc => {},
        SelfType::Arc => {
            assert("Arc"@[0] != "Rc"@[0]);
            assert("Arc"@.len() != "owned"@.len());
        },
        SelfType::Box => {
            assert("Box"@[0] != "Rc"@[0]);
            assert("Box"@.len() != "owned"@.len());
            assert("Box"@[0] != "Arc"@[0]);
        },
    }
}

/// Exactly the plain value has no pointer path.
pub proof fn lemma_only_owned_has_no_path(mode: SelfType)
    ensures
        path_text(mode).is_none() <==> mode == SelfType::Owned,
        new_path_text(mode).is_none() <==> mode == SelfType::Owned,
{
}

} // verus!
