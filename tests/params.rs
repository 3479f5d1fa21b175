use uncovr::params::{ParamError, Path, Query};

fn pairs(items: &[(&str, &str)]) -> Vec<(String, String)> {
    items.iter().map(|(k, v)| (k.to_string(), v.to_string())).collect()
}

#[test]
fn test_path_params() {
    let params = Path::new(pairs(&[("id", "42"), ("name", "alice")]));

    assert_eq!(params.get("id"), Some("42"));
    assert_eq!(params.get_u64("id"), Some(42));
    assert_eq!(params.get("name"), Some("alice"));
    assert!(params.contains("id"));
    assert!(!params.contains("age"));
}

#[test]
fn test_path_parse() {
    let params = Path::new(pairs(&[("id", "42"), ("active", "true")]));

    assert_eq!(params.parse::<i64>("id").unwrap(), 42);
    assert_eq!(params.parse::<bool>("active").unwrap(), true);
    assert!(params.parse::<i64>("missing").is_err());
}

#[test]
fn test_query_params() {
    let params = Query::new(pairs(&[("page", "2"), ("limit", "10")]));

    assert_eq!(params.get_u32("page"), Some(2));
    assert_eq!(params.get_u32("limit"), Some(10));
    assert_eq!(params.get("page"), Some("2"));
}

#[test]
fn test_query_parse() {
    let params = Query::new(pairs(&[("page", "2"), ("limit", "10")]));

    assert_eq!(params.parse::<u32>("page").unwrap(), 2);
    assert_eq!(params.parse::<u32>("limit").unwrap(), 10);
    assert!(params.parse::<u32>("missing").is_err());
}

#[test]
fn parse_tells_missing_from_invalid() {
    let params = Query::new(pairs(&[("page", "two")]));
    match params.parse::<u32>("page") {
        Err(ParamError::InvalidType { key, value, expected }) => {
            assert_eq!(key, "page");
            assert_eq!(value, "two");
            assert_eq!(expected, "u32");
        }
        other => panic!("unexpected {:?}", other),
    }
    match params.parse::<u32>("size") {
        Err(ParamError::Missing(key)) => assert_eq!(key, "size"),
        other => panic!("unexpected {:?}", other),
    }
}

#[test]
fn error_messages() {
    let params = Path::new(pairs(&[("id", "x")]));
    let e = params.parse::<i64>("id").unwrap_err();
    assert_eq!(e.to_message(), "Invalid parameter 'id': cannot parse 'x' as i64");
    let m = params.parse::<i64>("nope").unwrap_err();
    assert_eq!(m.to_message(), "Missing parameter: nope");
}

#[test]
fn integer_formats() {
    let p = Path::new(pairs(&[
        ("plus", "+7"),
        ("neg", "-7"),
        ("big", "18446744073709551615"),
        ("over", "18446744073709551616"),
        ("empty", ""),
        ("space", " 1"),
        ("i32min", "-2147483648"),
        ("i32over", "2147483648"),
    ]));
    assert_eq!(p.get_u64("plus"), Some(7));
    assert_eq!(p.get_u64("neg"), None);
    assert_eq!(p.get_i64("neg"), Some(-7));
    assert_eq!(p.get_u64("big"), Some(u64::MAX));
    assert_eq!(p.get_u64("over"), None);
    assert_eq!(p.get_u64("empty"), None);
    assert_eq!(p.get_u64("space"), None);
    assert_eq!(p.get_i32("i32min"), Some(i32::MIN));
    assert_eq!(p.get_i32("i32over"), None);
    assert_eq!(p.get_u32("missing"), None);
}

#[test]
fn booleans() {
    let q = Query::new(pairs(&[("a", "true"), ("b", "false"), ("c", "True"), ("d", "1")]));
    assert_eq!(q.get_bool("a"), Some(true));
    assert_eq!(q.get_bool("b"), Some(false));
    assert_eq!(q.get_bool("c"), None);
    assert_eq!(q.get_bool("d"), None);
}

#[test]
fn later_pair_wins_and_keys_keep_order() {
    let q = Query::new(pairs(&[("a", "1"), ("b", "2"), ("a", "3")]));
    assert_eq!(q.get("a"), Some("3"));
    assert_eq!(q.keys(), vec!["a", "b"]);
    assert_eq!(q.get_string("b"), Some("2".to_string()));
}

#[test]
fn empty_stores() {
    let p = Path::empty();
    assert_eq!(p.get("x"), None);
    assert!(p.keys().is_empty());
    let q = Query::empty();
    assert!(!q.contains(""));
    assert_eq!(q.get_string("x"), None);
}

#[test]
fn parse_outcome_follows_get() {
    let q = Query::new(pairs(&[("n", "12"), ("w", "twelve"), ("e", "")]));
    for key in ["n", "w", "e", "absent"] {
        let got = q.get(key);
        match q.parse::<u64>(key) {
            Err(ParamError::Missing(_)) => assert!(got.is_none()),
            Err(ParamError::InvalidType { value, .. }) => {
                assert_eq!(got, Some(value.as_str()));
                assert!(value.parse::<u64>().is_err());
            }
            Ok(v) => assert_eq!(got.unwrap().parse::<u64>().unwrap(), v),
        }
    }
}

#[test]
fn wrong_type_names_the_target_type() {
    let q = Query::new(pairs(&[("n", "300"), ("s", "x y")]));
    match q.parse::<u8>("n") {
        Err(ParamError::InvalidType { expected, .. }) => assert_eq!(expected, "u8"),
        other => panic!("unexpected {:?}", other),
    }
    match q.parse::<bool>("s") {
        Err(ParamError::InvalidType { expected, .. }) => assert_eq!(expected, "bool"),
        other => panic!("unexpected {:?}", other),
    }
    assert_eq!(q.parse::<u16>("n").unwrap(), 300);
    assert_eq!(q.parse::<usize>("n").unwrap(), 300);
    assert_eq!(q.parse::<String>("s").unwrap(), "x y");
    assert!(matches!(q.parse::<String>("t"), Err(ParamError::Missing(_))));
}

#[test]
fn all_integer_widths() {
    let p = Path::new(pairs(&[("a", "-129"), ("b", "-128"), ("c", "65536"), ("d", "340282366920938463463374607431768211455")]));
    assert!(p.parse::<i8>("a").is_err());
    assert_eq!(p.parse::<i8>("b").unwrap(), -128);
    assert_eq!(p.parse::<i16>("b").unwrap(), -128);
    assert!(p.parse::<u16>("c").is_err());
    assert_eq!(p.parse::<u128>("d").unwrap(), u128::MAX);
    assert!(p.parse::<i128>("d").is_err());
    assert_eq!(p.parse::<isize>("b").unwrap(), -128);
    match p.parse::<i128>("d") {
        Err(ParamError::InvalidType { expected, value, .. }) => {
            assert_eq!(expected, "i128");
            assert_eq!(value, "340282366920938463463374607431768211455");
        }
        other => panic!("unexpected {:?}", other),
    }
}
