use krfx::names::{
    check_requested_name, gen_name, is_name_char_exec, is_valid_name_pattern, NameOutcome,
    NameRefusal, NameResolver,
};

fn is_generated(name: &str) -> bool {
    let chars: Vec<char> = name.chars().collect();
    chars.len() == 3
        && chars.iter().all(|c| c.is_ascii_lowercase() || c.is_ascii_digit())
        && chars[0] != chars[1]
        && chars[1] != chars[2]
        && chars[0] != chars[2]
}

#[test]
fn pattern_agrees_with_regex() {
    let re = regex::Regex::new(r"^[0-9a-zA-Z._\-]+$").unwrap();
    let samples = [
        "", "a", "abc", "ABC", "a.b", "a_b", "a-b", "a b", "a/b", "ü", "abc!", "..", "-_-",
        "name\n", "x\u{0}", "日本", "Zz09", "a+b", "tab\t",
    ];
    for s in samples {
        assert_eq!(is_valid_name_pattern(s), re.is_match(s), "on {:?}", s);
    }
    for c in 0u32..0x250 {
        if let Some(ch) = char::from_u32(c) {
            let s = ch.to_string();
            assert_eq!(is_valid_name_pattern(&s), re.is_match(&s), "on {:?}", s);
            assert_eq!(is_name_char_exec(ch), re.is_match(&s));
        }
    }
}

#[test]
fn refusal_messages() {
    assert_eq!(NameRefusal::Used.message(), "This name is used");
    assert_eq!(NameRefusal::TooShort.message(), "Name is too short");
    assert_eq!(NameRefusal::InvalidCharacters.message(), "Name contains invalid characters");
    let e = NameRefusal::TooShort.to_record_error();
    assert_eq!(e.to_string(), "Name is too short");
    assert_eq!(e.to_json(), r#"{"error_type":"name","message":"Name is too short"}"#);
    assert_eq!(NameRefusal::Used.to_name_error().message(), "This name is used");
}

#[test]
fn requested_name_checks_in_order() {
    assert_eq!(check_requested_name("my-link".to_string(), false), Ok("my-link".to_string()));
    assert_eq!(check_requested_name("My.Link_1".to_string(), false), Ok("My.Link_1".to_string()));
    assert_eq!(check_requested_name("ab".to_string(), false), Err(NameRefusal::TooShort));
    assert_eq!(check_requested_name("a b c".to_string(), false), Err(NameRefusal::InvalidCharacters));
    // a taken name is refused as taken, whatever its form
    assert_eq!(check_requested_name("ab".to_string(), true), Err(NameRefusal::Used));
    assert_eq!(check_requested_name("a b c".to_string(), true), Err(NameRefusal::Used));
    assert_eq!(check_requested_name("good".to_string(), true), Err(NameRefusal::Used));
    // the length counts characters, not bytes
    assert_eq!(check_requested_name("éé".to_string(), false), Err(NameRefusal::TooShort));
    assert_eq!(check_requested_name("ééé".to_string(), false), Err(NameRefusal::InvalidCharacters));
}

#[test]
fn generated_names_have_three_distinct_alphabet_chars() {
    for _ in 0..500 {
        let n = gen_name();
        assert!(is_generated(&n), "{:?}", n);
    }
}

fn finish(out: NameOutcome) -> Result<String, NameRefusal> {
    match out {
        NameOutcome::Finished(r) => r,
        NameOutcome::Pending(_) => panic!("expected a finished outcome"),
    }
}

#[test]
fn resolver_requested_name_free() {
    let r = NameResolver::start(Some("Docs".to_string()));
    assert_eq!(r.lookup_key(), "docs");
    assert_eq!(finish(r.answer(false)), Ok("Docs".to_string()));
}

#[test]
fn resolver_requested_name_taken() {
    let r = NameResolver::start(Some("docs".to_string()));
    assert_eq!(finish(r.answer(true)), Err(NameRefusal::Used));
}

#[test]
fn resolver_requested_name_bad_form() {
    let r = NameResolver::start(Some("x".to_string()));
    assert_eq!(finish(r.answer(false)), Err(NameRefusal::TooShort));
    let r = NameResolver::start(Some("no spaces".to_string()));
    assert_eq!(finish(r.answer(false)), Err(NameRefusal::InvalidCharacters));
}

#[test]
fn resolver_missing_or_empty_name_is_generated() {
    for start in [None, Some(String::new())] {
        let mut r = NameResolver::start(start);
        // the store says "taken" twice, then "free"
        for _ in 0..2 {
            let key = r.lookup_key();
            assert!(is_generated(&key));
            r = match r.answer(true) {
                NameOutcome::Pending(next) => next,
                NameOutcome::Finished(_) => panic!("a taken generated name must be replaced"),
            };
        }
        let key = r.lookup_key();
        let name = finish(r.answer(false)).unwrap();
        assert!(is_generated(&name));
        assert_eq!(key, name);
    }
}
