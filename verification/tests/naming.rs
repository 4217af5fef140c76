use xtask_scaffold::naming::{to_pascal_case, to_snake_case};

#[test]
fn snake_case_basic() {
    assert_eq!(to_snake_case("auth"), "auth");
    assert_eq!(to_snake_case("Auth"), "auth");
    assert_eq!(to_snake_case("client-context"), "client_context");
    assert_eq!(to_snake_case("ClientContext"), "client_context");
}

#[test]
fn pascal_case_basic() {
    assert_eq!(to_pascal_case("auth"), "Auth");
    assert_eq!(to_pascal_case("client-context"), "ClientContext");
}

#[test]
fn snake_case_separators_and_edges() {
    assert_eq!(to_snake_case(""), "");
    assert_eq!(to_snake_case("---"), "");
    assert_eq!(to_snake_case("__x__"), "x");
    assert_eq!(to_snake_case("auth token"), "auth_token");
    assert_eq!(to_snake_case("auth--token"), "auth_token");
    assert_eq!(to_snake_case("fooBar"), "foo_bar");
    assert_eq!(to_snake_case("a1B"), "a1_b");
    assert_eq!(to_snake_case("HTTPServer"), "httpserver");
    assert_eq!(to_snake_case("-Auth_Token-"), "auth_token");
}

#[test]
fn snake_case_non_ascii() {
    assert_eq!(to_snake_case("Écran"), "écran");
    assert_eq!(to_snake_case("ÉcranNoir"), "écran_noir");
}

#[test]
fn snake_case_is_idempotent_on_examples() {
    for s in ["ClientContext", "auth-token", "--A--b--", "x1Y2", "HTTPServer", ""] {
        let once = to_snake_case(s);
        assert_eq!(to_snake_case(&once), once);
    }
}

#[test]
fn snake_case_gives_snake_names() {
    for s in ["ClientContext", "auth-token", "--A--b--", "x1 Y2", "a.b/c"] {
        let w = to_snake_case(s);
        assert!(!w.starts_with('_') && !w.ends_with('_'));
        assert!(!w.contains("__"));
        assert!(w.chars().all(|c| c.is_ascii_lowercase() || c.is_ascii_digit() || c == '_'));
    }
}

#[test]
fn pascal_case_edges() {
    assert_eq!(to_pascal_case(""), "");
    assert_eq!(to_pascal_case("---"), "");
    assert_eq!(to_pascal_case("auth_token"), "AuthToken");
    assert_eq!(to_pascal_case("AuthToken"), "AuthToken");
    assert_eq!(to_pascal_case("a-1"), "A1");
    assert_eq!(to_pascal_case("écran noir"), "ÉcranNoir");
    for s in ["x-y_z", "Auth Token", "a1b2"] {
        let p = to_pascal_case(s);
        assert!(!p.contains('_'));
        assert!(p.chars().all(|c| c.is_ascii_alphanumeric()));
    }
}

#[test]
fn separator_runs_act_as_one_underscore() {
    for (a, b) in [("auth", "token"), ("Client", "Context"), ("x1", "Y"), ("", "b"), ("a", "")] {
        for sep in ["-", " ", "_", "- ", "--__ .", "/"] {
            assert_eq!(to_snake_case(&format!("{a}{sep}{b}")), to_snake_case(&format!("{a}_{b}")));
            assert_eq!(to_snake_case(&format!("{sep}{b}")), to_snake_case(b));
            assert_eq!(to_snake_case(&format!("{a}{sep}")), to_snake_case(a));
        }
    }
}

#[test]
fn snake_case_emptiness() {
    assert_eq!(to_snake_case("- _ /."), "");
    assert!(!to_snake_case("-é-").is_empty());
    assert!(!to_snake_case("--7--").is_empty());
}

#[test]
fn pascal_case_lowercase_and_capitals() {
    for s in ["client-context", "a1_b2", "x-1-y", "HTTPServer", "auth"] {
        let p = to_pascal_case(s);
        let snake = to_snake_case(s);
        assert_eq!(p.to_ascii_lowercase(), snake.replace('_', ""));
        let letter_words = snake.split('_').filter(|w| w.starts_with(|c: char| c.is_ascii_alphabetic())).count();
        assert_eq!(p.chars().filter(|c| c.is_ascii_uppercase()).count(), letter_words);
    }
}

#[test]
fn pascal_snake_round_trip() {
    for s in ["client_context", "ClientContext", "auth-token-id", "ab_cd", "x1_yz"] {
        assert_eq!(to_snake_case(&to_pascal_case(s)), to_snake_case(s));
    }
    assert_eq!(to_snake_case(&to_pascal_case("a_b")), "ab");
}

#[test]
fn snake_case_keeps_letters_and_digits_in_order() {
    for s in ["Client-Context 42", "a_B_c", "--X1y2--", "HTTPServer"] {
        let expected: String = s.chars().filter(|c| c.is_ascii_alphanumeric()).map(|c| c.to_ascii_lowercase()).collect();
        assert_eq!(to_snake_case(s).replace('_', ""), expected);
    }
}
