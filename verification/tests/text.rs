use faux::text::{contains_run, contains_token};

fn tokens(spaced: &str) -> Vec<String> {
    spaced.split_whitespace().map(str::to_string).collect()
}

#[test]
fn token_is_found_as_a_whole() {
    assert!(contains_token(&tokens("Rc < Self >"), "Self"));
    assert!(contains_token(&tokens("Self"), "Self"));
    assert!(contains_token(&tokens("( u8 , Self )"), "Self"));
}

#[test]
fn token_is_not_found_in_a_longer_one() {
    assert!(!contains_token(&tokens("Selfie"), "Self"));
    assert!(!contains_token(&tokens("Rc < MySelf >"), "Self"));
    assert!(!contains_token(&tokens("Sel f"), "Self"));
    assert!(!contains_token(&tokens("self"), "Self"));
    assert!(!contains_token(&tokens(""), "Self"));
}

#[test]
fn run_of_tokens_is_found_where_it_stands() {
    assert!(contains_run(&tokens("Option < my : : Type >"), &tokens("my : : Type")));
    assert!(contains_run(&tokens("my : : Type"), &tokens("my : : Type")));
    assert!(contains_run(&tokens("a b a b c"), &tokens("a b c")));
    assert!(contains_run(&tokens("Rc < Foo >"), &tokens("Foo")));
}

#[test]
fn run_of_tokens_is_not_found_apart_or_in_part() {
    assert!(!contains_run(&tokens("my : : other : : Type"), &tokens("my : : Type")));
    assert!(!contains_run(&tokens("Rc < Food >"), &tokens("Foo")));
    assert!(!contains_run(&tokens("FooBuilder"), &tokens("Foo")));
    assert!(!contains_run(&tokens("my : :"), &tokens("my : : Type")));
    assert!(!contains_run(&tokens(""), &tokens("Foo")));
    assert!(!contains_run(&tokens("Type : : my"), &tokens("my : : Type")));
}

#[test]
fn empty_run_stands_everywhere() {
    assert!(contains_run(&tokens("a b"), &tokens("")));
    assert!(contains_run(&tokens(""), &tokens("")));
}

#[test]
fn search_agrees_with_the_windows_of_a_slice() {
    let hays = ["", "a", "a b", "a a b", "a b a b", "b a", "a b c a b d"];
    let needles = ["", "a", "b", "a b", "b a", "a a b", "a b d", "c"];
    for hay in hays {
        for needle in needles {
            let (hay, needle) = (tokens(hay), tokens(needle));
            let expected = needle.is_empty()
                || hay.windows(needle.len()).any(|run| run == needle.as_slice());
            assert_eq!(contains_run(&hay, &needle), expected);
        }
    }
}
