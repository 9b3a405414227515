use faux::mock::Mock;
use faux::mock_store::{fatal, LockedStore, MaybeFaux, MockStore, Stateful, Stub, When};

/// A stub that adds one to its input and counts down its invocations.
struct Countdown {
    left: u32,
}

impl Stateful for Countdown {}

impl Stub<u32, u32> for Countdown {
    fn call(&mut self, input: u32) -> Result<u32, String> {
        if self.left == 0 {
            Err("countdown is over".to_string())
        } else {
            self.left -= 1;
            Ok(input + 1)
        }
    }
}

/// Stubs of two signatures behind one type.
enum Either {
    Length(Box<dyn FnMut(String) -> usize>),
    Sum(Box<dyn FnMut((u8, u8)) -> u16>),
}

impl Stateful for Either {}

impl Stub<String, usize> for Either {
    fn call(&mut self, input: String) -> Result<usize, String> {
        match self {
            Either::Length(stub) => Ok(stub(input)),
            Either::Sum(_) => Err("stub of another method".to_string()),
        }
    }
}

impl Stub<(u8, u8), u16> for Either {
    fn call(&mut self, input: (u8, u8)) -> Result<u16, String> {
        match self {
            Either::Sum(stub) => Ok(stub(input)),
            Either::Length(_) => Err("stub of another method".to_string()),
        }
    }
}

fn add(value: &u32, input: u32) -> u32 {
    *value + input
}

#[test]
fn new_registry_knows_no_method() {
    let mut store: MockStore<Countdown> = MockStore::new();
    let r: Result<u32, String> = store.call_mock(7, 1);
    assert_eq!(r, Err("method was never stubbed".to_string()));
    let r: Result<u32, String> = store.call_mock(0, 1);
    assert_eq!(r, Err("method was never stubbed".to_string()));
}

#[test]
fn stub_is_invoked_and_keeps_its_own_count() {
    let mut store: MockStore<Countdown> = MockStore::new();
    store.mock(7, Countdown { left: 2 });
    assert_eq!(store.call_mock(7, 41), Ok(42));
    assert_eq!(store.call_mock(7, 1), Ok(2));
    let spent: Result<u32, String> = store.call_mock(7, 41);
    assert_eq!(spent, Err("countdown is over".to_string()));
}

#[test]
fn second_stub_replaces_first() {
    let mut store: MockStore<Countdown> = MockStore::new();
    store.mock(3, Countdown { left: 0 });
    store.mock(3, Countdown { left: 1 });
    assert_eq!(store.call_mock(3, 9), Ok(10));
    let spent: Result<u32, String> = store.call_mock(3, 9);
    assert_eq!(spent, Err("countdown is over".to_string()));
}

#[test]
fn second_stub_replaces_first_on_an_instance() {
    let mut object: MaybeFaux<u32, Countdown> = MaybeFaux::faux();
    object.when(3).then_stub(Countdown { left: 0 });
    object.when(3).then_stub(Countdown { left: 1 });
    assert_eq!(object.dispatch(3, "next", 9, add), Ok(10));
    assert_eq!(object.dispatch(3, "next", 9, add), Err("next: countdown is over".to_string()));
    object.when(3).then_stub(Countdown { left: 1 });
    assert_eq!(object.dispatch(3, "next", 1, add), Ok(2));
}

#[test]
fn stub_of_one_method_is_not_the_stub_of_another() {
    let mut store: MockStore<Countdown> = MockStore::new();
    store.mock(3, Countdown { left: 5 });
    let other: Result<u32, String> = store.call_mock(4, 9);
    assert_eq!(other, Err("method was never stubbed".to_string()));
    assert_eq!(store.call_mock(3, 9), Ok(10));
}

#[test]
fn stubs_of_two_signatures_live_in_one_registry() {
    let mut store: MockStore<Either> = MockStore::new();
    store.mock(0, Either::Length(Box::new(|text: String| text.len())));
    store.mock(1, Either::Sum(Box::new(|pair: (u8, u8)| pair.0 as u16 + pair.1 as u16)));
    assert_eq!(store.call_mock(0, "four".to_string()), Ok(4usize));
    assert_eq!(store.call_mock(1, (200u8, 100u8)), Ok(300u16));
}

#[test]
fn stub_on_one_instance_does_not_reach_another() {
    let mut first: MockStore<Countdown> = MockStore::new();
    let mut second: MockStore<Countdown> = MockStore::new();
    first.mock(3, Countdown { left: 1 });
    let unaffected: Result<u32, String> = second.call_mock(3, 1);
    assert_eq!(unaffected, Err("method was never stubbed".to_string()));
    assert_eq!(first.call_mock(3, 1), Ok(2));

    let mut a: MaybeFaux<u32, Countdown> = MaybeFaux::faux();
    let b: MaybeFaux<u32, Countdown> = MaybeFaux::faux();
    a.when(3).then_stub(Countdown { left: 1 });
    assert_eq!(
        b.dispatch(3, "fetch", 1, add),
        Err("fetch: method was never stubbed".to_string())
    );
    assert_eq!(a.dispatch(3, "fetch", 1, add), Ok(2));
}

#[test]
fn locked_registry_is_invoked_through_a_shared_reference() {
    let mut store: LockedStore<Countdown> = LockedStore::new();
    store.mock(1, Countdown { left: 1 });
    let shared = &store;
    assert_eq!(shared.call_mock(1, 5), Ok(6));
    let spent: Result<u32, String> = shared.call_mock(1, 5);
    assert_eq!(spent, Err("countdown is over".to_string()));
    let never: Result<u32, String> = shared.call_mock(2, 5);
    assert_eq!(never, Err("method was never stubbed".to_string()));
    store.mock(1, Countdown { left: 1 });
    assert_eq!(store.call_mock(1, 7), Ok(8));
}

#[test]
fn interleaved_invocations_of_two_methods_keep_their_own_counts() {
    let mut store: LockedStore<Countdown> = LockedStore::new();
    store.mock(0, Countdown { left: 300 });
    store.mock(1, Countdown { left: 200 });
    let (first, second) = (&store, &store);
    let mut answered = [0u32; 2];
    for round in 0..1000u32 {
        let (shared, id) = if round % 3 == 0 { (first, 1usize) } else { (second, 0usize) };
        let result: Result<u32, String> = shared.call_mock(id, round);
        match result {
            Ok(answer) => {
                assert_eq!(answer, round + 1);
                answered[id] += 1;
            }
            Err(reason) => assert_eq!(reason, "countdown is over"),
        }
    }
    assert_eq!(answered, [300, 200]);
    let never: Result<u32, String> = store.call_mock(2, 0);
    assert_eq!(never, Err("method was never stubbed".to_string()));
}

#[test]
fn faux_is_mocked_and_empty() {
    let object: MaybeFaux<u32, Countdown> = MaybeFaux::faux();
    assert!(matches!(object, MaybeFaux::Faux(_)));
    assert_eq!(
        object.dispatch(0, "get", 1, add),
        Err("get: method was never stubbed".to_string())
    );
}

#[test]
fn never_stubbed_failure_names_the_method() {
    let object: MaybeFaux<u32, Countdown> = MaybeFaux::faux();
    let failure = object.dispatch(12, "fetch_all", 1, add).unwrap_err();
    assert!(failure.contains("never"));
    assert!(failure.contains("never stubbed"));
    assert!(failure.contains("fetch_all"));
    assert_eq!(failure, "fetch_all: method was never stubbed");
}

#[test]
fn mocked_instance_never_calls_the_real_implementation() {
    let mut object: MaybeFaux<u32, Countdown> = MaybeFaux::faux();
    object.when(5).then_stub(Countdown { left: 1 });
    let mut called = false;
    let r = object.dispatch(5, "bump", 1, |_: &u32, _: u32| {
        called = true;
        0
    });
    assert_eq!(r, Ok(2));
    let spent = object.dispatch(5, "bump", 1, add);
    assert_eq!(spent, Err("bump: countdown is over".to_string()));
    let never = object.dispatch(6, "bump", 1, add);
    assert_eq!(never, Err("bump: method was never stubbed".to_string()));
    assert!(!called);
}

#[test]
fn real_instance_always_calls_the_real_implementation() {
    let object: MaybeFaux<u32, Countdown> = MaybeFaux::Real(40);
    assert_eq!(object.dispatch(0, "add", 2, add), Ok(42));
    assert_eq!(object.dispatch(99, "add", 0, add), Ok(40));
    assert_eq!(object.dispatch_private("add", 3, add), Ok(43));
}

#[test]
fn real_instance_takes_no_stub() {
    let mut object: MaybeFaux<u32, Countdown> = MaybeFaux::Real(40);
    match object.try_when(0, "add") {
        Ok(_) => panic!("a real instance gave out a handle"),
        Err(reason) => assert_eq!(reason, "add: not allowed to stub a real instance"),
    }
    assert_eq!(object.dispatch(0, "add", 2, add), Ok(42));
}

#[test]
fn mocked_instance_gives_out_a_handle() {
    let mut object: MaybeFaux<u32, Countdown> = MaybeFaux::faux();
    match object.try_when(4, "next") {
        Ok(handle) => {
            assert_eq!(handle.id, 4);
            handle.then_stub(Countdown { left: 1 });
        },
        Err(reason) => panic!("{}", reason),
    }
    assert_eq!(object.dispatch(4, "next", 1, add), Ok(2));
}

#[test]
fn handle_is_a_borrow_of_the_registry() {
    let mut store: LockedStore<Countdown> = LockedStore::new();
    let handle = When { id: 2, store: &mut store };
    handle.then_stub(Countdown { left: 1 });
    assert_eq!(store.call_mock(2, 1), Ok(2));
}

#[test]
fn private_method_fails_on_a_mocked_instance() {
    let object: MaybeFaux<u32, Countdown> = MaybeFaux::faux();
    assert_eq!(
        object.dispatch_private("helper", 3, add),
        Err(
            "helper: private methods are not substitutable; and therefore not directly callable in a mock"
                .to_string()
        )
    );
}

#[test]
fn clone_of_a_real_instance_has_an_equal_value() {
    let object: MaybeFaux<String, Countdown> = MaybeFaux::Real("value".to_string());
    let copy = object.clone();
    assert!(matches!(&copy, MaybeFaux::Real(v) if v == "value"));
    assert!(matches!(&object, MaybeFaux::Real(v) if v == "value"));
    match object.try_clone() {
        Ok(MaybeFaux::Real(v)) => assert_eq!(v, "value"),
        _ => panic!("a real instance was not duplicated"),
    }
}

#[test]
fn mocked_instance_has_no_clone() {
    let object: MaybeFaux<String, Countdown> = MaybeFaux::faux();
    match object.try_clone() {
        Ok(_) => panic!("a mocked instance was duplicated"),
        Err(reason) => assert_eq!(reason, "cannot clone a mock"),
    }
}

#[test]
fn failure_at_the_boundary_carries_the_name() {
    let passed: Result<u8, String> = fatal("get", Ok(3));
    assert_eq!(passed, Ok(3));
    let failed: Result<u8, String> = fatal("get", Err("no match".to_string()));
    assert_eq!(failed, Err("get: no match".to_string()));
}

#[test]
fn function_stub_answers_within_its_budget() {
    let mut store = MockStore::new();
    store.mock(1, Mock::times(|x: u32| x * 2, 2));
    assert_eq!(store.call_mock(1, 4), Ok(8));
    assert_eq!(store.call_mock(1, 5), Ok(10));
    let spent: Result<u32, String> = store.call_mock(1, 6);
    assert_eq!(spent, Err("stub was called more times than it allows".to_string()));
}

#[test]
fn function_stub_without_budget_always_answers() {
    let mut object = MaybeFaux::<u32, _>::faux();
    object.when(9).then_stub(Mock::always(|text: &str| text.len()));
    for _ in 0..5 {
        assert_eq!(object.dispatch(9, "len", "abc", |_: &u32, _: &str| 0), Ok(3));
    }
}

#[test]
fn function_stub_with_no_budget_left_fails_at_once() {
    let mut store = MockStore::new();
    store.mock(1, Mock::times(|x: u32| x, 0));
    let spent: Result<u32, String> = store.call_mock(1, 6);
    assert_eq!(spent, Err("stub was called more times than it allows".to_string()));
}
