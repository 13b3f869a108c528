use minishell::text::{
    char_eq_ignore_ascii_case, chars_of, eq_ignore_ascii_case, is_whitespace_char, join,
    replace_first, split, starts_with_char, str_eq, tokenize,
};

#[test]
fn whitespace_is_what_std_calls_whitespace() {
    for n in 0u32..=0x10FFFF {
        if let Some(c) = char::from_u32(n) {
            assert_eq!(is_whitespace_char(c), c.is_whitespace(), "code point {:#x}", n);
        }
    }
}

#[test]
fn ascii_case_is_ignored_as_std_ignores_it() {
    for a in 0u32..=0x17F {
        for b in 0u32..=0x17F {
            let (x, y) = (char::from_u32(a).unwrap(), char::from_u32(b).unwrap());
            assert_eq!(char_eq_ignore_ascii_case(x, y), x.eq_ignore_ascii_case(&y));
        }
    }
    assert!(char_eq_ignore_ascii_case('Z', 'z'));
    assert!(!char_eq_ignore_ascii_case('@', '`'));
    assert!(!char_eq_ignore_ascii_case('[', '{'));
    assert!(!char_eq_ignore_ascii_case('É', 'é'));
}

#[test]
fn chars_of_gives_the_characters() {
    assert_eq!(chars_of("héllo"), vec!['h', 'é', 'l', 'l', 'o']);
    assert_eq!(chars_of(""), Vec::<char>::new());
}

#[test]
fn str_eq_compares_texts() {
    assert!(str_eq("exit", "exit"));
    assert!(str_eq("", ""));
    assert!(!str_eq("exit", "exi"));
    assert!(!str_eq("exit", "exiT"));
    assert!(!str_eq("cd", "dc"));
}

#[test]
fn names_match_without_regard_to_ascii_case() {
    assert!(eq_ignore_ascii_case("LS", "ls"));
    assert!(eq_ignore_ascii_case("Cargo.TOML", "cargo.toml"));
    assert!(eq_ignore_ascii_case("", ""));
    assert!(!eq_ignore_ascii_case("ls", "lsx"));
    assert!(!eq_ignore_ascii_case("ls", "lt"));
    assert!(!eq_ignore_ascii_case("é", "É"));
    assert!(eq_ignore_ascii_case("éA", "éa"));
}

#[test]
fn starts_with_char_looks_at_the_first_character() {
    assert!(starts_with_char("~/src", '~'));
    assert!(starts_with_char("~", '~'));
    assert!(!starts_with_char("", '~'));
    assert!(!starts_with_char("a~", '~'));
}

#[test]
fn tokenize_splits_at_runs_of_whitespace() {
    assert_eq!(tokenize("echo a b  c\n"), vec!["echo", "a", "b", "c"]);
    assert_eq!(tokenize("  ls\t-l \r\n"), vec!["ls", "-l"]);
    assert_eq!(tokenize("one"), vec!["one"]);
    assert_eq!(tokenize("a\u{3000}b\u{a0}c"), vec!["a", "b", "c"]);
    assert_eq!(tokenize("é è"), vec!["é", "è"]);
}

#[test]
fn tokenize_of_blank_text_is_empty() {
    assert_eq!(tokenize(""), Vec::<&str>::new());
    assert_eq!(tokenize(" \t\n"), Vec::<&str>::new());
}

#[test]
fn tokenize_agrees_with_split_whitespace() {
    for line in ["", " ", "a", " a", "a ", "a b", "a  b", "\ta\nb c\r\n", "x\u{2003}y", "~ ~"] {
        let expected: Vec<&str> = line.split_whitespace().collect();
        assert_eq!(tokenize(line), expected, "line {:?}", line);
    }
}

#[test]
fn split_cuts_at_each_separator() {
    assert_eq!(split("/usr/bin:/bin", ':'), vec!["/usr/bin", "/bin"]);
    assert_eq!(split("/bin", ':'), vec!["/bin"]);
    assert_eq!(split("", ':'), vec![""]);
    assert_eq!(split(":", ':'), vec!["", ""]);
    assert_eq!(split("a::b:", ':'), vec!["a", "", "b", ""]);
}

#[test]
fn split_agrees_with_std() {
    for s in ["", ":", "::", "a", "a:", ":a", "a:b:c", "é:è", "/usr/local/bin:/usr/bin:/bin"] {
        let expected: Vec<&str> = s.split(':').collect();
        assert_eq!(split(s, ':'), expected, "text {:?}", s);
    }
}

#[test]
fn join_puts_the_separator_between() {
    assert_eq!(join(&vec!["a", "b", "c"], " "), "a b c");
    assert_eq!(join(&vec!["a"], " "), "a");
    assert_eq!(join(&Vec::new(), " "), "");
    assert_eq!(join(&vec!["", ""], ", "), ", ");
    assert_eq!(join(&vec!["x", "", "y"], "-"), "x--y");
}

#[test]
fn replace_first_replaces_one_occurrence() {
    assert_eq!(replace_first("~", '~', "/home/u"), "/home/u");
    assert_eq!(replace_first("~/src", '~', "/home/u"), "/home/u/src");
    assert_eq!(replace_first("~/a/~/b", '~', "/home/u"), "/home/u/a/~/b");
    assert_eq!(replace_first("a~b", '~', ""), "ab");
    assert_eq!(replace_first("/tmp", '~', "/home/u"), "/tmp");
    assert_eq!(replace_first("", '~', "/home/u"), "");
}

#[test]
fn replace_first_agrees_with_std() {
    for s in ["", "~", "~~", "a~", "~a", "é~è~", "none"] {
        assert_eq!(replace_first(s, '~', "HOME"), s.replacen('~', "HOME", 1));
    }
}
