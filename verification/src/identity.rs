//! The identity of a substitutable method.
//!
//! A method is known by its marker, a name made from the method's own name
//! and from nothing else: not its arguments, not its output. A table gives
//! each marker a number when it first sees it, and that number is the key of
//! the method's stub in every registry.

use vstd::prelude::*;
use vstd::string::StringExecFns;

verus! {

/// The marker of the method `name`.
pub open spec fn marker_text(name: Seq<char>) -> Seq<char> {
    "_faux_"@ + name
}

/// The name of the entry point that registers stubs for the method `name`.
pub open spec fn when_text(name: Seq<char>) -> Seq<char> {
    "_when_"@ + name
}

/// The marker of the method `name`.
pub fn marker_name(name: &str) -> (marker: String)
    ensures
        marker@ == marker_text(name@),
{
    String::from_str("_faux_").concat(name)
}

/// The name of the entry point that registers stubs for the method `name`.
pub fn when_name(name: &str) -> (entry: String)
    ensures
        entry@ == when_text(name@),
{
    String::from_str("_when_").concat(name)
}

/// The table after it has seen `marker`: unchanged where it knew the marker,
/// one entry longer where it did not.
pub open spec fn registered(table: Seq<Seq<char>>, marker: Seq<char>) -> Seq<Seq<char>> {
    if table.contains(marker) {
        table
    } else {
        table.push(marker)
    }
}

/// The identity that `table` gives `marker`: the place at which it holds it.
pub open spec fn identity_in(table: Seq<Seq<char>>, marker: Seq<char>) -> int {
    table.index_of(marker)
}

/// The markers that have an identity, each at the place that is its
/// identity. No marker stands in it twice.
pub struct Identities {
    markers: Vec<String>,
}

impl View for Identities {
    type V = Seq<Seq<char>>;

    closed spec fn view(&self) -> Seq<Seq<char>> {
        Seq::new(self.markers.len() as nat, |i: int| self.markers[i]@)
    }
}

impl Identities {
    #[verifier::type_invariant]
    spec fn distinct(self) -> bool {
        self@.no_duplicates()
    }

    /// A table that has seen no marker.
    pub fn new() -> (table: Self)
        ensures
            table@ == Seq::<Seq<char>>::empty(),
    {
        let table = Identities { markers: Vec::new() };
        assert(table@ =~= Seq::<Seq<char>>::empty());
        table
    }

    /// The identity of `marker`, if the table has seen it.
    pub fn find(&self, marker: &str) -> (id: Option<usize>)
        ensures
            self@.no_duplicates(),
            id is Some <==> self@.contains(marker@),
            id matches Some(i) ==> {
                &&& i == identity_in(self@, marker@)
                &&& i < self@.len()
                &&& self@[i as int] == marker@
            },
    {
        proof {
            use_type_invariant(self);
        }
        let wanted = String::from_str(marker);
        let mut i: usize = 0;
        while i < self.markers.len()
            invariant
                i <= self.markers.len(),
                wanted@ == marker@,
                self@.no_duplicates(),
                forall|k: int| 0 <= k < i ==> self@[k] != marker@,
            decreases self.markers.len() - i,
        {
            if self.markers[i] == wanted {
                assert(self@[i as int] == marker@);
                return Some(i);
            }
            i += 1;
        }
        None
    }

    /// The identity of `marker`: the one it has, or a new one that no other
    /// marker has. Markers seen before keep theirs.
    pub fn identity_of(&mut self, marker: &str) -> (id: usize)
        ensures
            old(self)@.no_duplicates(),
            final(self)@.no_duplicates(),
            final(self)@ == registered(old(self)@, marker@),
            id == identity_in(final(self)@, marker@),
            id < final(self)@.len(),
            final(self)@[id as int] == marker@,
    {
        match self.find(marker) {
            Some(id) => id,
            None => {
                proof {
                    use_type_invariant(&*self);
                }
                let id = self.markers.len();
                let mut markers: Vec<String> = Vec::new();
                std::mem::swap(&mut markers, &mut self.markers);
                markers.push(String::from_str(marker));
                assert(Seq::new(markers.len() as nat, |i: int| markers[i]@) =~= old(self)@.push(
                    marker@,
                ));
                self.markers = markers;
                assert(self@ =~= old(self)@.push(marker@));
                assert(self@[id as int] == marker@);
                id
            },
        }
    }
}

/// Two methods of different names have different markers, whatever their
/// arguments and outputs.
pub proof fn lemma_markers_differ(first: Seq<char>, second: Seq<char>)
    requires
        first != second,
    ensures
        marker_text(first) != marker_text(second),
{
    let prefix = "_faux_"@;
    assert((prefix + first).subrange(prefix.len() as int, (prefix + first).len() as int)
        =~= first);
    assert((prefix + second).subrange(prefix.len() as int, (prefix + second).len() as int)
        =~= second);
}

/// Two different markers never have the same identity.
pub proof fn lemma_identities_differ(table: Seq<Seq<char>>, first: Seq<char>, second: Seq<char>)
    requires
        table.contains(first),
        table.contains(second),
        first != second,
    ensures
        identity_in(table, first) != identity_in(table, second),
{
}

/// Two methods of different names never have the same identity, whatever
/// their arguments and outputs.
pub proof fn lemma_method_identities_differ(
    table: Seq<Seq<char>>,
    first: Seq<char>,
    second: Seq<char>,
)
    requires
        table.contains(marker_text(first)),
        table.contains(marker_text(second)),
        first != second,
    ensures
        identity_in(table, marker_text(first)) != identity_in(table, marker_text(second)),
{
    lemma_markers_differ(first, second);
    lemma_identities_differ(table, marker_text(first), marker_text(second));
}

/// A marker has one identity: where no marker stands twice, every place that
/// holds the marker is its identity.
pub proof fn lemma_identity_is_unique(table: Seq<Seq<char>>, marker: Seq<char>, at: int)
    requires
        table.no_duplicates(),
        0 <= at < table.len(),
        table[at] == marker,
    ensures
        identity_in(table, marker) == at,
{
}

/// A marker keeps its identity when the table sees another marker.
pub proof fn lemma_identity_is_stable(
    table: Seq<Seq<char>>,
    marker: Seq<char>,
    other: Seq<char>,
)
    requires
        table.no_duplicates(),
        table.contains(marker),
    ensures
        registered(table, other).no_duplicates(),
        identity_in(registered(table, other), marker) == identity_in(table, marker),
{
    let at = identity_in(table, marker);
    let grown = registered(table, other);
    assert(grown[at] == marker);
    lemma_identity_is_unique(grown, marker, at);
}

} // verus!
