use oauth_handoff::query::Query;

fn pair(name: &str, value: &str) -> (String, String) {
    (String::from(name), String::from(value))
}

#[test]
fn get_finds_a_parameter() {
    let q = Query::new(vec![pair("a", "1"), pair("code", "abc123"), pair("b", "2")]);
    assert_eq!(q.get("code"), Some(String::from("abc123")));
    assert_eq!(q.get("a"), Some(String::from("1")));
    assert_eq!(q.get("b"), Some(String::from("2")));
}

#[test]
fn get_of_missing_parameter_is_none() {
    let q = Query::new(vec![pair("a", "1")]);
    assert_eq!(q.get("code"), None);
    assert_eq!(Query::new(vec![]).get("code"), None);
}

#[test]
fn get_takes_the_first_of_repeated_names() {
    let q = Query::new(vec![pair("code", "first"), pair("code", "second")]);
    assert_eq!(q.get("code"), Some(String::from("first")));
}

#[test]
fn names_are_case_sensitive() {
    let q = Query::new(vec![pair("Code", "x")]);
    assert_eq!(q.get("code"), None);
}

#[test]
fn required_rejects_missing_and_empty() {
    assert_eq!(Query::new(vec![]).required("code"), None);
    assert_eq!(Query::new(vec![pair("code", "")]).required("code"), None);
    assert_eq!(
        Query::new(vec![pair("code", "x")]).required("code"),
        Some(String::from("x"))
    );
}

#[test]
fn required_looks_at_the_first_value_only() {
    let q = Query::new(vec![pair("code", ""), pair("code", "later")]);
    assert_eq!(q.required("code"), None);
}
