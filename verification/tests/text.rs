use loadgen::text::{begins_with, matches_at, replace, replace_each, same_text, split, trim};

#[test]
fn same_text_compares_characters() {
    assert!(same_text("", ""));
    assert!(same_text("abc", "abc"));
    assert!(!same_text("abc", "abd"));
    assert!(!same_text("abc", "ab"));
    assert!(!same_text("ab", "abc"));
    assert!(same_text("d\u{e9}j\u{e0}", "d\u{e9}j\u{e0}"));
    assert!(!same_text("d\u{e9}j\u{e0}", "deja"));
}

#[test]
fn matches_at_finds_a_pattern_at_an_index() {
    assert!(matches_at("a<RF>b", "<RF>", 1));
    assert!(!matches_at("a<RF>b", "<RF>", 0));
    assert!(!matches_at("a<RF>b", "<RF>", 2));
    assert!(!matches_at("a<RF", "<RF>", 1));
    assert!(matches_at("abc", "", 3));
    assert!(!matches_at("abc", "", 4));
    assert!(matches_at("\u{e9}<RF>", "<RF>", 1));
}

#[test]
fn begins_with_checks_the_start() {
    assert!(begins_with("-- note", "--"));
    assert!(begins_with("--", "--"));
    assert!(!begins_with("-", "--"));
    assert!(!begins_with(" --", "--"));
    assert!(begins_with("anything", ""));
}

#[test]
fn split_cuts_at_each_separator() {
    assert_eq!(split("a;b;c", ';'), vec!["a", "b", "c"]);
    assert_eq!(split("a;b;", ';'), vec!["a", "b", ""]);
    assert_eq!(split(";a", ';'), vec!["", "a"]);
    assert_eq!(split(";;", ';'), vec!["", "", ""]);
    assert_eq!(split("", ';'), vec![""]);
    assert_eq!(split("abc", ';'), vec!["abc"]);
    assert_eq!(split("h\u{f4}te,b", ','), vec!["h\u{f4}te", "b"]);
}

#[test]
fn split_agrees_with_the_standard_split() {
    for text in ["", ";", "a;", ";a;", "a;b;;c;", "no separator", ";;;;"] {
        let expected: Vec<String> = text.split(';').map(String::from).collect();
        assert_eq!(split(text, ';'), expected);
    }
}

#[test]
fn replace_each_replaces_single_characters() {
    assert_eq!(replace_each("a\nb\n", '\n', " "), "a b ");
    assert_eq!(replace_each("", '\n', " "), "");
    assert_eq!(replace_each("abc", 'x', "y"), "abc");
    assert_eq!(replace_each("a.b", '.', ""), "ab");
    assert_eq!(replace_each("a.b", '.', "--"), "a--b");
}

#[test]
fn replace_replaces_from_the_left_without_overlap() {
    assert_eq!(replace("x<RF>y<RF>", "<RF>", "3"), "x3y3");
    assert_eq!(replace("<RF>", "<RF>", ""), "");
    assert_eq!(replace("<<RF>RF>", "<RF>", ""), "<RF>");
    assert_eq!(replace("aaa", "aa", "b"), "ba");
    assert_eq!(replace("abc", "", "x"), "abc");
    assert_eq!(replace("", "<RF>", "3"), "");
    assert_eq!(replace("<RF", "<RF>", "3"), "<RF");
}

#[test]
fn replace_agrees_with_the_standard_replace() {
    for text in ["", "<RF>", "a<RF><RF>b", "<R<RF>F>", "<RF><RF", "plain"] {
        for with in ["", "1", "<RF>", "12"] {
            assert_eq!(replace(text, "<RF>", with), text.replace("<RF>", with));
        }
    }
}

#[test]
fn trim_drops_whitespace_at_both_ends() {
    assert_eq!(trim("  a b  "), "a b");
    assert_eq!(trim("\n\t a\r\n"), "a");
    assert_eq!(trim("a"), "a");
    assert_eq!(trim(""), "");
    assert_eq!(trim("   "), "");
    assert_eq!(trim("\u{a0}x\u{2003}"), "x");
    assert_eq!(trim(" x y"), "x y");
    assert_eq!(trim("x y "), "x y");
}

#[test]
fn trim_agrees_with_the_standard_trim() {
    for text in ["", " ", "a", " a", "a ", " a ", "\n a \t b \n", "\u{3000}a\u{3000}"] {
        assert_eq!(trim(text), text.trim());
    }
}
