use faux::self_type::SelfType;

#[test]
fn owned_has_no_path() {
    assert_eq!(SelfType::Owned.path(), None);
    assert_eq!(SelfType::Owned.new_path(), None);
}

#[test]
fn pointers_have_their_standard_paths() {
    assert_eq!(SelfType::Rc.path(), Some("std::rc::Rc"));
    assert_eq!(SelfType::Box.path(), Some("std::boxed::Box"));
    assert_eq!(SelfType::Arc.path(), Some("std::sync::Arc"));
}

#[test]
fn constructors_are_the_new_of_the_paths() {
    assert_eq!(SelfType::Rc.new_path(), Some("std::rc::Rc::new".to_string()));
    assert_eq!(SelfType::Box.new_path(), Some("std::boxed::Box::new".to_string()));
    assert_eq!(SelfType::Arc.new_path(), Some("std::sync::Arc::new".to_string()));
}

#[test]
fn modes_are_written_by_their_names() {
    assert_eq!(SelfType::Owned.to_string(), "owned");
    assert_eq!(SelfType::Rc.to_string(), "Rc");
    assert_eq!(SelfType::Arc.to_string(), "Arc");
    assert_eq!(SelfType::Box.to_string(), "Box");
}

#[test]
fn names_are_read_back_as_their_modes() {
    for mode in [SelfType::Owned, SelfType::Rc, SelfType::Arc, SelfType::Box] {
        assert_eq!(SelfType::from_name(&mode.to_string()), Some(mode));
    }
}

#[test]
fn other_names_are_no_mode() {
    assert_eq!(SelfType::from_name("Owned"), None);
    assert_eq!(SelfType::from_name("rc"), None);
    assert_eq!(SelfType::from_name(""), None);
    assert_eq!(SelfType::from_name("Pin"), None);
    assert_eq!(SelfType::from_name("Box "), None);
}

#[test]
fn default_mode_is_owned() {
    assert_eq!(SelfType::default(), SelfType::Owned);
}
