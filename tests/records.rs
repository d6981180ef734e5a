use baur::json::Json;
use baur::record::{
    decode_records, display_lines, records_of, search_lines, shown_text, FetchError, PackageRecord,
};

fn record(name: Option<&str>, version: Option<&str>, description: Option<&str>) -> PackageRecord {
    PackageRecord {
        name: name.map(String::from),
        version: version.map(String::from),
        description: description.map(String::from),
    }
}

#[test]
fn decode_reads_results_in_order() {
    let body = r#"{"resultcount":2,"results":[{"Name":"vim","Version":"9.0","Description":"Editor","ID":1},{"Name":"gvim","Version":"9.1"}],"type":"search","version":5}"#;
    let recs = decode_records(body).unwrap();
    assert_eq!(recs.len(), 2);
    assert_eq!(recs[0].name.as_deref(), Some("vim"));
    assert_eq!(recs[0].version.as_deref(), Some("9.0"));
    assert_eq!(recs[0].description.as_deref(), Some("Editor"));
    assert_eq!(recs[1].name.as_deref(), Some("gvim"));
    assert_eq!(recs[1].version.as_deref(), Some("9.1"));
    assert_eq!(recs[1].description, None);
}

#[test]
fn decode_treats_non_strings_as_absent() {
    let body = r#"{"results":[{"Name":"vim","Version":9,"Description":null}]}"#;
    let recs = decode_records(body).unwrap();
    assert_eq!(recs.len(), 1);
    assert_eq!(recs[0].name.as_deref(), Some("vim"));
    assert_eq!(recs[0].version, None);
    assert_eq!(recs[0].description, None);
}

#[test]
fn decode_without_results_array_is_refused() {
    assert_eq!(
        decode_records(r#"{"error":"Incorrect request type specified."}"#).unwrap_err(),
        FetchError::Decode
    );
    assert_eq!(decode_records(r#"{"results":"none"}"#).unwrap_err(), FetchError::Decode);
    assert_eq!(decode_records(r#"[{"Name":"vim"}]"#).unwrap_err(), FetchError::Decode);
}

#[test]
fn decode_with_empty_results_gives_no_records() {
    assert!(decode_records(r#"{"resultcount":0,"results":[]}"#).unwrap().is_empty());
}

#[test]
fn decode_twice_gives_the_same_records() {
    let body = r#"{"results":[{"Name":"vim","Version":"9.0"},{"Name":"nano"}]}"#;
    let a = decode_records(body).unwrap();
    let b = decode_records(body).unwrap();
    assert_eq!(a.len(), b.len());
    for (x, y) in a.iter().zip(b.iter()) {
        assert_eq!(x.name, y.name);
        assert_eq!(x.version, y.version);
        assert_eq!(x.description, y.description);
    }
}

#[test]
fn records_of_reads_each_element() {
    let j = Json::Object(vec![(
        "results".to_string(),
        Json::Array(vec![
            Json::Object(vec![("Name".to_string(), Json::Str("a".to_string()))]),
            Json::Number("7".to_string()),
            Json::Object(vec![
                ("Version".to_string(), Json::Str("2".to_string())),
                ("Name".to_string(), Json::Null),
            ]),
        ]),
    )]);
    let recs = records_of(&j).unwrap();
    assert_eq!(recs.len(), 3);
    assert_eq!(recs[0].name.as_deref(), Some("a"));
    assert_eq!(recs[1].name, None);
    assert_eq!(recs[2].name, None);
    assert_eq!(recs[2].version.as_deref(), Some("2"));
    let j = Json::Object(vec![("result".to_string(), Json::Array(Vec::new()))]);
    assert!(records_of(&j).is_none());
}

#[test]
fn decode_reads_nested_answers() {
    let body = r#"{"results":[{"Name":"a","Keywords":["x",{"y":[1,2.5,null]}],"Version":"1.0","Popularity":0.25}]}"#;
    let recs = decode_records(body).unwrap();
    assert_eq!(recs.len(), 1);
    assert_eq!(recs[0].name.as_deref(), Some("a"));
    assert_eq!(recs[0].version.as_deref(), Some("1.0"));
}

#[test]
fn decode_refuses_text_that_is_not_json() {
    assert_eq!(decode_records(r#"{"results":[]} trailing"#).unwrap_err(), FetchError::Decode);
    assert_eq!(decode_records("<html>busy</html>").unwrap_err(), FetchError::Decode);
    assert_eq!(decode_records("").unwrap_err(), FetchError::Decode);
    assert_eq!(decode_records(r#"{"results":[}"#).unwrap_err(), FetchError::Decode);
}

#[test]
fn shown_text_substitutes_default() {
    assert_eq!(shown_text(&Some("9.0".to_string()), "Unknown"), "9.0");
    assert_eq!(shown_text(&None, "Unknown"), "Unknown");
}

#[test]
fn display_lines_present_a_package() {
    let lines = display_lines(&record(Some("vim"), Some("9.0"), Some("Editor")));
    assert_eq!(lines, vec!["Name: vim", "Version: 9.0", "Description: Editor"]);
}

#[test]
fn display_lines_fill_in_missing_fields() {
    let lines = display_lines(&record(None, None, None));
    assert_eq!(lines, vec!["Name: Unknown", "Version: Unknown", "Description: No description"]);
}

#[test]
fn search_lines_list_every_match() {
    let recs = vec![
        record(Some("vim"), Some("9.0"), Some("Editor")),
        record(Some("neovim-git"), None, None),
    ];
    assert_eq!(
        search_lines(&recs),
        vec!["aur/vim 9.0", "  Editor", "aur/neovim-git Unknown", "  Unknown"]
    );
    assert!(search_lines(&Vec::new()).is_empty());
}
