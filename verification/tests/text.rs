use mongo_migrate::text::{parse_bool, split_trimmed, str_eq, trim};

#[test]
fn trim_removes_surrounding_white_space() {
    assert_eq!(trim("  hello world \t\n"), "hello world");
    assert_eq!(trim("hello"), "hello");
    assert_eq!(trim(""), "");
    assert_eq!(trim(" \t \n"), "");
    assert_eq!(trim("\u{a0}x\u{3000}"), "x");
    assert_eq!(trim(" a b "), "a b");
}

#[test]
fn trim_keeps_inner_white_space_and_other_characters() {
    assert_eq!(trim("\u{1f600} ok \u{1f600}"), "\u{1f600} ok \u{1f600}");
    assert_eq!(trim("x\u{2003}\u{2003}y"), "x\u{2003}\u{2003}y");
}

#[test]
fn str_eq_compares_characters() {
    assert!(str_eq("abc", "abc"));
    assert!(!str_eq("abc", "abd"));
    assert!(!str_eq("abc", "ab"));
    assert!(str_eq("", ""));
}

#[test]
fn parse_bool_accepts_only_true_and_false() {
    assert_eq!(parse_bool("true"), Some(true));
    assert_eq!(parse_bool("false"), Some(false));
    assert_eq!(parse_bool("True"), None);
    assert_eq!(parse_bool("1"), None);
    assert_eq!(parse_bool(" true"), None);
    assert_eq!(parse_bool(""), None);
}

#[test]
fn split_trimmed_splits_at_commas_and_trims() {
    assert_eq!(split_trimmed("a,b,c"), vec!["a", "b", "c"]);
    assert_eq!(split_trimmed(" users , orders ,logs "), vec!["users", "orders", "logs"]);
    assert_eq!(split_trimmed("single"), vec!["single"]);
}

#[test]
fn split_trimmed_keeps_empty_pieces() {
    assert_eq!(split_trimmed(""), vec![""]);
    assert_eq!(split_trimmed(","), vec!["", ""]);
    assert_eq!(split_trimmed("a,,b,"), vec!["a", "", "b", ""]);
    assert_eq!(split_trimmed(" , "), vec!["", ""]);
}

#[test]
fn split_trimmed_matches_std() {
    for s in ["a,b", " x ,y,, z ", "", ",,,", "\u{e9}t\u{e9}, caf\u{e9} "] {
        let expected: Vec<String> = s.split(',').map(|p| p.trim().to_string()).collect();
        assert_eq!(split_trimmed(s), expected);
    }
}

#[test]
fn split_then_join_gives_back_the_text() {
    for s in ["a,b,,c", "", ",", "x", "users,orders"] {
        assert_eq!(split_trimmed(s).join(","), s);
        for piece in split_trimmed(s) {
            assert!(!piece.contains(','));
        }
    }
}

#[test]
fn split_yields_one_piece_more_than_commas() {
    for s in ["", ",", "a,b", ",,x,", "no commas"] {
        assert_eq!(
            split_trimmed(s).len(),
            s.chars().filter(|c| *c == ',').count() + 1
        );
    }
}
