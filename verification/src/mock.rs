//! A stub made of a function.

use std::marker::PhantomData;
use vstd::prelude::*;
use vstd::string::StringExecFns;

use crate::mock_store::{descends, descends_in, Stateful, Stub};

verus! {

/// What a stub reports once its invocations are used up.
pub open spec fn exhausted_text() -> Seq<char> {
    "stub was called more times than it allows"@
}

/// A stub that answers with a function, as often as its budget allows.
#[verifier::reject_recursive_types(I)]
#[verifier::reject_recursive_types(O)]
#[verifier::reject_recursive_types(F)]
pub struct Mock<I, O, F: Fn(I) -> O> {
    stub: F,
    left: Option<usize>,
    marker: PhantomData<(I, O)>,
}

impl<I, O, F: Fn(I) -> O> Mock<I, O, F> {
    #[verifier::type_invariant]
    spec fn answers_every_input(self) -> bool {
        forall|input: I| call_requires(self.stub, (input,))
    }

    /// The function that answers.
    pub closed spec fn stub(&self) -> F {
        self.stub
    }

    /// The invocations that are left; `None` where there is no limit.
    pub closed spec fn left(&self) -> Option<usize> {
        self.left
    }

    /// A stub that answers with `stub` every time.
    pub fn always(stub: F) -> (mock: Self)
        requires
            forall|input: I| call_requires(stub, (input,)),
        ensures
            mock.stub() == stub,
            mock.left() == None::<usize>,
    {
        Mock { stub, left: None, marker: PhantomData }
    }

    /// A stub that answers with `stub` for `times` invocations and fails
    /// after them.
    pub fn times(stub: F, times: usize) -> (mock: Self)
        requires
            forall|input: I| call_requires(stub, (input,)),
        ensures
            mock.stub() == stub,
            mock.left() == Some(times),
    {
        Mock { stub, left: Some(times), marker: PhantomData }
    }
}

impl<I, O, F: Fn(I) -> O> Stateful for Mock<I, O, F> {
    open spec fn follows(&self, earlier: Self) -> bool {
        &&& self.stub() == earlier.stub()
        &&& match earlier.left() {
            Some(before) => (self.left() matches Some(now) && now <= before),
            None => self.left() is None,
        }
    }
}

impl<I, O, F: Fn(I) -> O> Stub<I, O> for Mock<I, O, F> {
    open spec fn may_report(&self, input: I, after: Self, report: Result<O, String>) -> bool {
        &&& after.stub() == self.stub()
        &&& if self.left() == Some(0usize) {
            &&& after.left() == self.left()
            &&& report matches Err(e)
            &&& e@ == exhausted_text()
        } else {
            &&& after.left() == match self.left() {
                Some(n) => Some((n - 1) as usize),
                None => None,
            }
            &&& report matches Ok(output)
            &&& call_ensures(self.stub(), (input,), output)
        }
    }

    fn call(&mut self, input: I) -> (report: Result<O, String>) {
        proof {
            use_type_invariant(&*self);
        }
        match self.left {
            Some(n) => {
                if n == 0 {
                    Err(String::from_str("stub was called more times than it allows"))
                } else {
                    self.left = Some(n - 1);
                    Ok((self.stub)(input))
                }
            },
            None => Ok((self.stub)(input)),
        }
    }
}

/// What an invocation of a stub made of a function reports: the answer of
/// the function while the budget lasts, and a failure after that.
pub proof fn lemma_reports<I, O, F: Fn(I) -> O>(
    mock: Mock<I, O, F>,
    input: I,
    after: Mock<I, O, F>,
    report: Result<O, String>,
)
    requires
        mock.may_report(input, after, report),
    ensures
        after.stub() == mock.stub(),
        mock.left() == Some(0usize) ==> {
            &&& after.left() == mock.left()
            &&& report matches Err(e)
            &&& e@ == exhausted_text()
        },
        mock.left() != Some(0usize) ==> {
            &&& after.left() == match mock.left() {
                Some(n) => Some((n - 1) as usize),
                None => None,
            }
            &&& report matches Ok(output)
            &&& call_ensures(mock.stub(), (input,), output)
        },
{
}

/// However often a stub made of a function is invoked, it answers with the
/// same function, and its budget does not grow.
pub proof fn lemma_descends<I, O, F: Fn(I) -> O>(later: Mock<I, O, F>, earlier: Mock<I, O, F>)
    requires
        descends(later, earlier),
    ensures
        later.stub() == earlier.stub(),
        match earlier.left() {
            Some(before) => (later.left() matches Some(now) && now <= before),
            None => later.left() is None,
        },
{
    let uses = choose|uses: nat| descends_in(later, earlier, uses);
    lemma_descends_in(later, earlier, uses);
}

proof fn lemma_descends_in<I, O, F: Fn(I) -> O>(
    later: Mock<I, O, F>,
    earlier: Mock<I, O, F>,
    uses: nat,
)
    requires
        descends_in(later, earlier, uses),
    ensures
        later.stub() == earlier.stub(),
        match earlier.left() {
            Some(before) => (later.left() matches Some(now) && now <= before),
            None => later.left() is None,
        },
    decreases uses,
{
    if uses > 0 {
        let between = choose|between: Mock<I, O, F>|
            descends_in(between, earlier, (uses - 1) as nat) && #[trigger] later.follows(between);
        lemma_descends_in(between, earlier, (uses - 1) as nat);
    }
}

} // verus!
