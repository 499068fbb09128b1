use logomenu::text::{
    chars_of, find_name, is_whitespace, remove_all, split_whitespace, text_eq, trim,
};

#[test]
fn text_eq_compares_characters() {
    assert!(text_eq("", ""));
    assert!(text_eq("Lock", "Lock"));
    assert!(!text_eq("Lock", "lock"));
    assert!(!text_eq("Lock", "Lock "));
    assert!(!text_eq("Lock", "Loc"));
    assert!(text_eq("grüße", "grüße"));
    assert!(!text_eq("grüße", "gruße"));
}

#[test]
fn is_whitespace_agrees_with_the_standard_library_on_every_character() {
    let mut code: u32 = 0;
    while code <= 0x10FFFF {
        if let Some(c) = char::from_u32(code) {
            assert_eq!(is_whitespace(c), c.is_whitespace(), "U+{:04X}", code);
        }
        code += 1;
    }
}

#[test]
fn chars_of_lists_the_characters() {
    assert_eq!(chars_of("aé z"), vec!['a', 'é', ' ', 'z']);
    assert_eq!(chars_of(""), Vec::<char>::new());
}

#[test]
fn trim_cuts_white_space_at_both_ends() {
    assert_eq!(trim("  firefox.desktop\n"), "firefox.desktop");
    assert_eq!(trim("\t a b \u{3000}"), "a b");
    assert_eq!(trim("abc"), "abc");
    assert_eq!(trim(" \n\t "), "");
    assert_eq!(trim(""), "");
}

#[test]
fn trim_agrees_with_the_standard_library() {
    let samples = [
        "",
        " ",
        "a",
        " a",
        "a ",
        " a b ",
        "\u{a0}x\u{2003}",
        "é \u{85}",
        "\r\n org.gnome.Nautilus.desktop \r\n",
    ];
    for s in samples {
        assert_eq!(trim(s), s.trim());
    }
}

#[test]
fn remove_all_takes_out_every_occurrence() {
    assert_eq!(remove_all("firefox.desktop", ".desktop"), "firefox");
    assert_eq!(remove_all("a.desktop.desktop", ".desktop"), "a");
    assert_eq!(remove_all(".desktopx.desktop", ".desktop"), "x");
    assert_eq!(remove_all("firefox", ".desktop"), "firefox");
    assert_eq!(remove_all("", ".desktop"), "");
    assert_eq!(remove_all("abc", ""), "abc");
    assert_eq!(remove_all("aaa", "aa"), "a");
    assert_eq!(remove_all("ababab", "ab"), "");
    assert_eq!(remove_all(".deskto", ".desktop"), ".deskto");
}

#[test]
fn remove_all_agrees_with_the_standard_library() {
    let samples = [
        ("x.desktop.desktopy", ".desktop"),
        ("aaaa", "aa"),
        ("aaaaa", "aa"),
        ("abcabc", "bc"),
        ("éaéb", "é"),
        ("..desktop", ".desktop"),
        ("short", "a longer pattern"),
    ];
    for (s, pat) in samples {
        assert_eq!(remove_all(s, pat), s.replace(pat, ""));
    }
}

#[test]
fn split_whitespace_gives_the_words_in_order() {
    assert_eq!(
        split_whitespace("cosmic-settings about"),
        vec!["cosmic-settings".to_string(), "about".to_string()]
    );
    assert_eq!(
        split_whitespace("  a \t b\n\nc  "),
        vec!["a".to_string(), "b".to_string(), "c".to_string()]
    );
    assert_eq!(split_whitespace(""), Vec::<String>::new());
    assert_eq!(split_whitespace(" \n "), Vec::<String>::new());
    assert_eq!(split_whitespace("one"), vec!["one".to_string()]);
}

#[test]
fn split_whitespace_agrees_with_the_standard_library() {
    let samples = ["", "a", " a", "a  b", "\u{2003}x\u{a0}yé z\t", "sh -c 'echo  hi'"];
    for s in samples {
        let expected: Vec<String> = s.split_whitespace().map(|w| w.to_string()).collect();
        assert_eq!(split_whitespace(s), expected);
    }
}

#[test]
fn find_name_gives_the_first_position() {
    let names = vec!["b".to_string(), "a".to_string(), "b".to_string()];
    assert_eq!(find_name(&names, "b"), Some(0));
    assert_eq!(find_name(&names, "a"), Some(1));
    assert_eq!(find_name(&names, "c"), None);
    assert_eq!(find_name(&Vec::new(), "a"), None);
}
