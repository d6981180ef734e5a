use baur::json::{array_member, string_member, Json};

fn s(text: &str) -> String {
    text.to_string()
}

fn object() -> Json {
    Json::Object(vec![
        (s("Name"), Json::Str(s("vim"))),
        (s("Version"), Json::Number(s("9"))),
        (s("list"), Json::Array(vec![Json::Null, Json::Bool(true)])),
        (s("Name"), Json::Str(s("second"))),
    ])
}

#[test]
fn string_members_are_read_by_key() {
    let j = object();
    assert_eq!(string_member(&j, "Name").as_deref(), Some("vim"));
    assert_eq!(string_member(&j, "Version"), None);
    assert_eq!(string_member(&j, "Missing"), None);
    assert_eq!(string_member(&Json::Str(s("Name")), "Name"), None);
}

#[test]
fn array_members_are_read_by_key() {
    let j = object();
    assert_eq!(array_member(&j, "list").map(|a| a.len()), Some(2));
    assert!(array_member(&j, "Name").is_none());
    assert!(array_member(&Json::Array(Vec::new()), "list").is_none());
}
