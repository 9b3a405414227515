use faux::identity::{marker_name, when_name, Identities};

#[test]
fn marker_is_made_of_the_method_name() {
    assert_eq!(marker_name("fetch"), "_faux_fetch");
    assert_eq!(marker_name(""), "_faux_");
    assert_eq!(when_name("fetch"), "_when_fetch");
}

#[test]
fn methods_of_different_names_have_different_markers() {
    assert_ne!(marker_name("get"), marker_name("get_mut"));
    assert_ne!(marker_name("a"), marker_name("b"));
}

#[test]
fn identities_are_given_in_order_of_first_sight() {
    let mut table = Identities::new();
    assert_eq!(table.identity_of("_faux_get"), 0);
    assert_eq!(table.identity_of("_faux_put"), 1);
    assert_eq!(table.identity_of("_faux_len"), 2);
}

#[test]
fn identity_is_stable() {
    let mut table = Identities::new();
    let get = table.identity_of("_faux_get");
    let put = table.identity_of("_faux_put");
    assert_eq!(table.identity_of("_faux_get"), get);
    assert_eq!(table.identity_of("_faux_put"), put);
    assert_eq!(table.find("_faux_get"), Some(get));
    assert_eq!(table.find("_faux_put"), Some(put));
}

#[test]
fn identities_of_methods_with_one_signature_differ() {
    // `first(&self, n: u32) -> u32` and `second(&self, n: u32) -> u32`
    let mut table = Identities::new();
    let first = table.identity_of(&marker_name("first"));
    let second = table.identity_of(&marker_name("second"));
    assert_ne!(first, second);
}

#[test]
fn unseen_marker_has_no_identity() {
    let mut table = Identities::new();
    assert_eq!(table.find("_faux_get"), None);
    table.identity_of("_faux_get");
    assert_eq!(table.find("_faux_ge"), None);
    assert_eq!(table.find("_faux_get_"), None);
}

#[test]
fn all_identities_of_a_table_differ() {
    let names = ["a", "b", "c", "ab", "ba", "abc", ""];
    let mut table = Identities::new();
    let ids: Vec<usize> = names.iter().map(|n| table.identity_of(&marker_name(n))).collect();
    for i in 0..ids.len() {
        for j in 0..ids.len() {
            assert_eq!(ids[i] == ids[j], i == j);
        }
    }
}
