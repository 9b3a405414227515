//! The registry of stubs and the object that is either real or mocked.

use std::collections::HashMap;
use vstd::prelude::*;
use vstd::rwlock::{RwLock, RwLockPredicate};
use vstd::string::StringExecFns;

use crate::text::{lemma_occurs_between, lemma_occurs_within, occurs_at, occurs_in};

verus! {

broadcast use vstd::std_specs::hash::group_hash_axioms;

/// A value with bookkeeping of its own, which one use of it may change.
pub trait Stateful: Sized {
    /// Whether one use may take the value from the state `earlier` to the
    /// state `self`.
    open spec fn follows(&self, earlier: Self) -> bool {
        true
    }
}

/// A unit of canned behaviour that stands in for a method with input `I` and
/// output `O`.
///
/// The registry knows nothing of a stub but that it can be invoked. What an
/// invocation may report is for each stub to say in `may_report`, and how it
/// may change the stub's own bookkeeping in `follows`.
pub trait Stub<I, O>: Stateful {
    /// Whether an invocation with `input` in state `self` may leave the stub
    /// in state `after` and report `report`.
    open spec fn may_report(&self, input: I, after: Self, report: Result<O, String>) -> bool {
        true
    }

    /// Invokes the stub.
    fn call(&mut self, input: I) -> (report: Result<O, String>)
        ensures
            old(self).may_report(input, *final(self), report),
            final(self).follows(*old(self)),
    ;
}

/// Whether `uses` uses in a row may take a value from the state `earlier` to
/// the state `later`.
pub open spec fn descends_in<S: Stateful>(later: S, earlier: S, uses: nat) -> bool
    decreases uses,
{
    if uses == 0 {
        later == earlier
    } else {
        exists|between: S|
            descends_in(between, earlier, (uses - 1) as nat) && #[trigger] later.follows(between)
    }
}

/// Whether `later` is the state `earlier` after any number of uses.
pub open spec fn descends<S: Stateful>(later: S, earlier: S) -> bool {
    exists|uses: nat| descends_in(later, earlier, uses)
}

/// Whether the registry `current` holds the stubs that were registered as
/// `registered`, each after any number of invocations.
pub open spec fn holds<S: Stateful>(current: Map<usize, S>, registered: Map<usize, S>) -> bool {
    &&& current.dom() == registered.dom()
    &&& forall|id: usize| #[trigger]
        registered.contains_key(id) ==> descends(current[id], registered[id])
}

/// What an invocation reports when no stub is registered for the method.
pub open spec fn never_stubbed_text() -> Seq<char> {
    "method was never stubbed"@
}

/// The stubs of one mocked instance, by method identity.
///
/// There is at most one stub for an identity: a new one replaces the old.
pub struct MockStore<S> {
    mocks: HashMap<usize, S>,
}

impl<S> View for MockStore<S> {
    type V = Map<usize, S>;

    closed spec fn view(&self) -> Map<usize, S> {
        self.mocks@
    }
}

/// What invoking the method `id` with `input` on a registry `before` may
/// give: the registry afterwards and the result.
pub open spec fn invoked<S, I, O>(
    before: Map<usize, S>,
    id: usize,
    input: I,
    after: Map<usize, S>,
    result: Result<O, String>,
) -> bool where S: Stub<I, O> {
    if before.contains_key(id) {
        &&& after.contains_key(id)
        &&& after == before.insert(id, after[id])
        &&& before[id].may_report(input, after[id], result)
        &&& after[id].follows(before[id])
    } else {
        &&& after == before
        &&& result matches Err(e)
        &&& e@ == never_stubbed_text()
    }
}

impl<S> MockStore<S> {
    /// A registry without stubs.
    pub fn new() -> (store: Self)
        ensures
            store@ == Map::<usize, S>::empty(),
    {
        MockStore { mocks: HashMap::new() }
    }

    /// Registers `mock` as the stub of the method `id`, in place of any
    /// earlier one.
    pub fn mock(&mut self, id: usize, mock: S)
        ensures
            final(self)@ == old(self)@.insert(id, mock),
    {
        self.mocks.insert(id, mock);
    }

    /// Invokes the stub of the method `id` with `input`.
    ///
    /// Without a stub for `id` the call fails and changes nothing. With one,
    /// the stub is invoked, its report is the result, and no other stub is
    /// touched.
    pub fn call_mock<I, O>(&mut self, id: usize, input: I) -> (result: Result<O, String>) where
        S: Stub<I, O>,

        ensures
            invoked(old(self)@, id, input, final(self)@, result),
    {
        match self.mocks.remove(&id) {
            None => {
                assert(self@ =~= old(self)@);
                Err(String::from_str("method was never stubbed"))
            },
            Some(mut stub) => {
                let report = stub.call(input);
                self.mocks.insert(id, stub);
                assert(self@ =~= old(self)@.insert(id, self@[id]));
                report
            },
        }
    }
}

/// What the lock of a [`LockedStore`] admits: registries that hold the stubs
/// that were registered as `stubs`, each after any number of invocations.
pub struct Registered<S> {
    pub stubs: Map<usize, S>,
}

impl<S: Stateful> RwLockPredicate<MockStore<S>> for Registered<S> {
    open spec fn inv(self, store: MockStore<S>) -> bool {
        holds(store@, self.stubs)
    }
}

/// A registry behind a lock, for invocation through a shared reference.
///
/// Registering a stub takes exclusive access, so the stubs as they were
/// registered are a property of the value. The stubs' own bookkeeping changes
/// under the lock with each invocation and is not.
pub struct LockedStore<S: Stateful> {
    lock: RwLock<MockStore<S>, Registered<S>>,
}

impl<S: Stateful> LockedStore<S> {
    /// The stubs as they were registered, by method identity.
    pub closed spec fn registered(&self) -> Map<usize, S> {
        self.lock.pred().stubs
    }

    /// The methods that have a stub.
    pub open spec fn stubbed(&self) -> Set<usize> {
        self.registered().dom()
    }

    /// A locked registry without stubs.
    pub fn new() -> (store: Self)
        ensures
            store.registered() == Map::<usize, S>::empty(),
    {
        let store = MockStore::new();
        LockedStore { lock: RwLock::new(store, Ghost(Registered { stubs: Map::empty() })) }
    }

    /// Registers `mock` as the stub of the method `id`, in place of any
    /// earlier one.
    pub fn mock(&mut self, id: usize, mock: S)
        ensures
            final(self).registered() == old(self).registered().insert(id, mock),
    {
        let mut lock = RwLock::new(MockStore::new(), Ghost(Registered { stubs: Map::empty() }));
        std::mem::swap(&mut self.lock, &mut lock);
        let mut store = lock.into_inner();
        store.mock(id, mock);
        let ghost stubs = old(self).registered().insert(id, mock);
        proof {
            assert(descends_in(mock, mock, 0));
            assert(store@.dom() =~= stubs.dom());
        }
        self.lock = RwLock::new(store, Ghost(Registered { stubs }));
    }

    /// Invokes the stub of the method `id` with `input`, holding the lock for
    /// the lookup and the invocation and for nothing else.
    ///
    /// The registry that the invocation finds holds the stubs that were
    /// registered, each after any number of invocations, and it is invoked
    /// as a registry of its own would be.
    pub fn call_mock<I, O>(&self, id: usize, input: I) -> (result: Result<O, String>) where
        S: Stub<I, O>,

        ensures
            exists|before: Map<usize, S>, after: Map<usize, S>|
                holds(before, self.registered()) && #[trigger] invoked(
                    before,
                    id,
                    input,
                    after,
                    result,
                ),
    {
        let (mut store, handle) = self.lock.acquire_write();
        let ghost before = store@;
        let result = store.call_mock(id, input);
        proof {
            lemma_invocation_keeps(self.registered(), before, id, input, store@, result);
        }
        handle.release_write(store);
        result
    }
}

/// A registry that holds the registered stubs still holds them after an
/// invocation.
pub proof fn lemma_invocation_keeps<S, I, O>(
    registered: Map<usize, S>,
    before: Map<usize, S>,
    id: usize,
    input: I,
    after: Map<usize, S>,
    result: Result<O, String>,
) where S: Stub<I, O>
    requires
        holds(before, registered),
        invoked(before, id, input, after, result),
    ensures
        holds(after, registered),
{
    if before.contains_key(id) {
        assert(after.dom() =~= before.dom());
        let uses = choose|uses: nat| descends_in(before[id], registered[id], uses);
        let more = (uses + 1) as nat;
        assert(descends_in(before[id], registered[id], (more - 1) as nat) && after[id].follows(
            before[id],
        ));
        assert(descends_in(after[id], registered[id], more));
        assert forall|other: usize| #[trigger]
            registered.contains_key(other) implies descends(after[other], registered[other]) by {
            if other != id {
                assert(after[other] == before[other]);
            }
        }
    }
}

/// The message of the fatal failure of the method `fn_name` for the reason
/// `reason`.
pub open spec fn fatal_text(fn_name: Seq<char>, reason: Seq<char>) -> Seq<char> {
    fn_name + ": "@ + reason
}

/// Why a method that cannot be stubbed fails on a mocked instance.
pub open spec fn not_stubbable_text() -> Seq<char> {
    "private methods are not substitutable; and therefore not directly callable in a mock"@
}

/// Why a mocked instance cannot be duplicated.
pub open spec fn clone_mock_text() -> Seq<char> {
    "cannot clone a mock"@
}

/// Why a real instance takes no stub.
pub open spec fn stub_real_text() -> Seq<char> {
    "not allowed to stub a real instance"@
}

/// What the method `fn_name` gives at the dispatch boundary for what its stub
/// reported: the output as it is, a failure under the method's name.
pub open spec fn at_boundary<O>(fn_name: Seq<char>, report: Result<O, String>, result: Result<
    O,
    String,
>) -> bool {
    match report {
        Ok(output) => result == Ok::<O, String>(output),
        Err(reason) => (result matches Err(e) && e@ == fatal_text(fn_name, reason@)),
    }
}

/// What calling the method `id`, named `fn_name`, on a mocked instance with
/// the registry `before` may give.
pub open spec fn stub_dispatched<S, I, O>(
    before: Map<usize, S>,
    id: usize,
    fn_name: Seq<char>,
    input: I,
    after: Map<usize, S>,
    result: Result<O, String>,
) -> bool where S: Stub<I, O> {
    exists|report: Result<O, String>| #[trigger]
        invoked(before, id, input, after, report) && at_boundary(fn_name, report, result)
}

/// Puts the name of the method on a failure; an output passes unchanged.
pub fn fatal<O>(fn_name: &str, report: Result<O, String>) -> (result: Result<O, String>)
    ensures
        at_boundary(fn_name@, report, result),
{
    match report {
        Ok(output) => Ok(output),
        Err(reason) => Err(String::from_str(fn_name).concat(": ").concat(reason.as_str())),
    }
}

/// An object that is either the real value or a registry of stubs.
///
/// Which of the two it is is fixed when it is made.
pub enum MaybeFaux<T, S: Stateful> {
    Real(T),
    Faux(LockedStore<S>),
}

/// The handle through which one method of a mocked instance gets its stub.
///
/// It borrows the instance exclusively, so no stub is registered while the
/// instance can be reached in any other way.
pub struct When<'m, S: Stateful> {
    pub id: usize,
    pub store: &'m mut LockedStore<S>,
}

impl<'m, S: Stateful> When<'m, S> {
    /// Registers `stub` for the method of this handle, in place of any
    /// earlier one.
    pub fn then_stub(self, stub: S)
        ensures
            final(self.store).registered() == old(self.store).registered().insert(self.id, stub),
    {
        self.store.mock(self.id, stub);
    }
}

impl<T, S: Stateful> MaybeFaux<T, S> {
    /// The stubs of this instance as they were registered: none for a real
    /// one.
    pub open spec fn registered(&self) -> Map<usize, S> {
        match self {
            MaybeFaux::Real(_) => Map::empty(),
            MaybeFaux::Faux(store) => store.registered(),
        }
    }

    /// The methods of this instance that have a stub.
    pub open spec fn stubbed(&self) -> Set<usize> {
        self.registered().dom()
    }

    /// A mocked instance without stubs.
    pub fn faux() -> (object: Self)
        ensures
            object is Faux,
            object.registered() == Map::<usize, S>::empty(),
    {
        MaybeFaux::Faux(LockedStore::new())
    }

    /// Duplicates a real instance. A mocked instance has no duplicate.
    pub fn clone(&self) -> (copy: Self) where T: Clone
        requires
            self is Real,
        ensures
            copy is Real,
            cloned(self->Real_0, copy->Real_0),
    {
        match self {
            MaybeFaux::Real(r) => MaybeFaux::Real(r.clone()),
            MaybeFaux::Faux(_) => vstd::pervasive::unreached(),
        }
    }

    /// Duplicates the instance if it is real, and says why not if it is
    /// mocked.
    pub fn try_clone(&self) -> (copy: Result<Self, String>) where T: Clone
        ensures
            self is Real <==> copy is Ok,
            copy matches Ok(c) ==> c is Real && cloned(self->Real_0, c->Real_0),
            copy matches Err(e) ==> e@ == clone_mock_text(),
    {
        match self {
            MaybeFaux::Real(_) => Ok(self.clone()),
            MaybeFaux::Faux(_) => Err(String::from_str("cannot clone a mock")),
        }
    }

    /// Calls the method `id`, named `fn_name`, with `input`: on a real
    /// instance through `proxy`, the real implementation; on a mocked one
    /// through its stub, never through `proxy`.
    ///
    /// A failure on a mocked instance carries the method's name.
    pub fn dispatch<I, O, F>(&self, id: usize, fn_name: &str, input: I, proxy: F) -> (result:
        Result<O, String>) where S: Stub<I, O>, F: FnOnce(&T, I) -> O
        requires
            self matches MaybeFaux::Real(value) ==> call_requires(proxy, (&value, input)),
        ensures
            self matches MaybeFaux::Real(value) ==> (result matches Ok(output) && call_ensures(
                proxy,
                (&value, input),
                output,
            )),
            self is Faux ==> exists|before: Map<usize, S>, after: Map<usize, S>|
                holds(before, self.registered()) && #[trigger] stub_dispatched(
                    before,
                    id,
                    fn_name@,
                    input,
                    after,
                    result,
                ),
            self is Faux && !self.stubbed().contains(id) ==> (result matches Err(e) && e@
                == fatal_text(fn_name@, never_stubbed_text())),
    {
        match self {
            MaybeFaux::Real(value) => Ok(proxy(value, input)),
            MaybeFaux::Faux(store) => {
                let report = store.call_mock(id, input);
                let ghost (before, after) = choose|before: Map<usize, S>, after: Map<usize, S>|
                    holds(before, store.registered()) && #[trigger] invoked(
                        before,
                        id,
                        input,
                        after,
                        report,
                    );
                let result = fatal(fn_name, report);
                assert(stub_dispatched(before, id, fn_name@, input, after, result));
                result
            },
        }
    }

    /// Calls a method that takes no stub: on a real instance through `proxy`;
    /// on a mocked one it fails, and `proxy` is not called.
    pub fn dispatch_private<I, O, F>(&self, fn_name: &str, input: I, proxy: F) -> (result: Result<
        O,
        String,
    >) where F: FnOnce(&T, I) -> O
        requires
            self matches MaybeFaux::Real(value) ==> call_requires(proxy, (&value, input)),
        ensures
            self matches MaybeFaux::Real(value) ==> (result matches Ok(output) && call_ensures(
                proxy,
                (&value, input),
                output,
            )),
            self is Faux ==> (result matches Err(e) && e@ == fatal_text(
                fn_name@,
                not_stubbable_text(),
            )),
    {
        match self {
            MaybeFaux::Real(value) => Ok(proxy(value, input)),
            MaybeFaux::Faux(_) => fatal(
                fn_name,
                Err(
                    String::from_str(
                        "private methods are not substitutable; and therefore not directly callable in a mock",
                    ),
                ),
            ),
        }
    }

    /// The handle that registers the stub of the method `id` on a mocked
    /// instance.
    pub fn when(&mut self, id: usize) -> (handle: When<'_, S>)
        requires
            *old(self) is Faux,
        ensures
            handle.id == id,
            *handle.store == old(self)->Faux_0,
            *final(self) == MaybeFaux::<T, S>::Faux(*final(handle.store)),
    {
        match self {
            MaybeFaux::Faux(store) => When { id, store },
            MaybeFaux::Real(_) => vstd::pervasive::unreached(),
        }
    }

    /// The handle of `when` for the method `id`, named `fn_name`, of a mocked
    /// instance; a real instance is left as it is and the failure says why,
    /// under the method's name.
    pub fn try_when(&mut self, id: usize, fn_name: &str) -> (handle: Result<When<'_, S>, String>)
        ensures
            *old(self) is Faux <==> handle is Ok,
            handle matches Ok(h) ==> {
                &&& h.id == id
                &&& *h.store == old(self)->Faux_0
                &&& *final(self) == MaybeFaux::<T, S>::Faux(*final(h.store))
            },
            handle matches Err(e) ==> e@ == fatal_text(fn_name@, stub_real_text()) && *final(self)
                == *old(self),
    {
        match self {
            MaybeFaux::Faux(store) => Ok(When { id, store }),
            MaybeFaux::Real(_) => Err(
                String::from_str(fn_name).concat(": ").concat(
                    "not allowed to stub a real instance",
                ),
            ),
        }
    }
}

/// Of two stubs registered for one method only the second is left: the
/// registry is as if the first had never been registered, and an invocation
/// is an invocation of the second.
pub proof fn lemma_last_write_wins<S, I, O>(
    registry: Map<usize, S>,
    id: usize,
    first: S,
    second: S,
    input: I,
    after: Map<usize, S>,
    result: Result<O, String>,
) where S: Stub<I, O>
    ensures
        registry.insert(id, first).insert(id, second) == registry.insert(id, second),
        registry.insert(id, first).insert(id, second)[id] == second,
        invoked(registry.insert(id, first).insert(id, second), id, input, after, result)
            ==> second.may_report(input, after[id], result),
{
    assert(registry.insert(id, first).insert(id, second) =~= registry.insert(id, second));
}

/// Behind the lock, too, only the second of two stubs registered for one
/// method is left: whatever registry an invocation finds, the stub that it
/// invokes is the second, after any number of invocations.
pub proof fn lemma_last_registration_is_invoked<S, I, O>(
    registered: Map<usize, S>,
    id: usize,
    first: S,
    second: S,
    found: Map<usize, S>,
    input: I,
    after: Map<usize, S>,
    result: Result<O, String>,
) where S: Stub<I, O>
    requires
        holds(found, registered.insert(id, first).insert(id, second)),
        invoked(found, id, input, after, result),
    ensures
        found.contains_key(id),
        descends(found[id], second),
        found[id].may_report(input, after[id], result),
        holds(after, registered.insert(id, second)),
{
    let twice = registered.insert(id, first).insert(id, second);
    assert(twice =~= registered.insert(id, second));
    assert(twice.contains_key(id));
    lemma_invocation_keeps(twice, found, id, input, after, result);
}

/// A stub registered on one instance is a stub of that instance alone: among
/// any instances, registering a stub for a method on one leaves every other
/// as it was, so the method on another is invoked exactly as before; and
/// where the other has no stub for the method, it still fails there as a
/// method that was never stubbed.
pub proof fn lemma_no_cross_instance_leakage<S, I, O>(
    instances: Map<int, Map<usize, S>>,
    stubbed: int,
    other: int,
    id: usize,
    stub: S,
    input: I,
    after: Map<usize, S>,
    result: Result<O, String>,
) where S: Stub<I, O>
    requires
        instances.contains_key(stubbed),
        instances.contains_key(other),
        stubbed != other,
    ensures
        ({
            let registered = instances.insert(stubbed, instances[stubbed].insert(id, stub));
            &&& registered[stubbed].contains_key(id)
            &&& registered[other] == instances[other]
            &&& invoked(registered[other], id, input, after, result) == invoked(
                instances[other],
                id,
                input,
                after,
                result,
            )
            &&& !instances[other].contains_key(id) && invoked(
                registered[other],
                id,
                input,
                after,
                result,
            ) ==> after == instances[other] && (result matches Err(e) && e@
                == never_stubbed_text())
        }),
{
}

/// A method that was never stubbed fails on a mocked instance, whatever the
/// registry holds for other methods; the failure names the method and says
/// that it was never stubbed, and the registry is left as it was.
pub proof fn lemma_never_stubbed_fails<S, I, O>(
    before: Map<usize, S>,
    id: usize,
    fn_name: Seq<char>,
    input: I,
    after: Map<usize, S>,
    result: Result<O, String>,
) where S: Stub<I, O>
    requires
        !before.contains_key(id),
        stub_dispatched(before, id, fn_name, input, after, result),
    ensures
        after == before,
        result matches Err(e) && e@ == fatal_text(fn_name, never_stubbed_text()),
        occurs_in(fn_name, fatal_text(fn_name, never_stubbed_text())),
        occurs_in("never"@, fatal_text(fn_name, never_stubbed_text())),
        occurs_in("never stubbed"@, fatal_text(fn_name, never_stubbed_text())),
{
    lemma_fatal_text_names_method(fn_name, never_stubbed_text());
    lemma_never_stubbed_says_never();
    lemma_occurs_within("never"@, never_stubbed_text(), fatal_text(fn_name, never_stubbed_text()));
    lemma_occurs_within(
        "never stubbed"@,
        never_stubbed_text(),
        fatal_text(fn_name, never_stubbed_text()),
    );
}

/// The report of a method without a stub says "never stubbed".
proof fn lemma_never_stubbed_says_never()
    ensures
        occurs_in("never"@, never_stubbed_text()),
        occurs_in("never stubbed"@, never_stubbed_text()),
{
    reveal_strlit("method was never stubbed");
    reveal_strlit("never");
    reveal_strlit("never stubbed");
    let text = "method was never stubbed"@;
    assert(occurs_at("never"@, text, 11)) by {
        assert(text.subrange(11, 16) =~= "never"@);
    }
    assert(occurs_at("never stubbed"@, text, 11)) by {
        assert(text.subrange(11, 24) =~= "never stubbed"@);
    }
}

/// Every fatal message holds the name of the method and the reason.
pub proof fn lemma_fatal_text_names_method(fn_name: Seq<char>, reason: Seq<char>)
    ensures
        occurs_in(fn_name, fatal_text(fn_name, reason)),
        occurs_in(reason, fatal_text(fn_name, reason)),
{
    let empty = Seq::<char>::empty();
    assert(fatal_text(fn_name, reason) =~= empty + fn_name + (": "@ + reason));
    lemma_occurs_between(empty, fn_name, ": "@ + reason);
    assert(fatal_text(fn_name, reason) =~= (fn_name + ": "@) + reason + empty);
    lemma_occurs_between(fn_name + ": "@, reason, empty);
}

} // verus!
