use cattleya::request::VioletLogData;

fn record(level: &str, message: &str, trace: &str) -> VioletLogData {
    VioletLogData {
        error_level: String::from(level),
        message: String::from(message),
        stack_trace: String::from(trace),
    }
}

#[test]
fn json_exact_text() {
    let d = record("Error", "boom", "src/main.rs:1");
    assert_eq!(
        d.to_json(),
        "{\"error_level\":\"Error\",\"message\":\"boom\",\"stack_trace\":\"src/main.rs:1\"}"
    );
}

#[test]
fn json_escapes_exact() {
    let d = record("Warning", "a\"b\\c\nd", "t");
    assert_eq!(
        d.to_json(),
        "{\"error_level\":\"Warning\",\"message\":\"a\\\"b\\\\c\\u000ad\",\"stack_trace\":\"t\"}"
    );
}

#[test]
fn round_trip_plain() {
    let d = record("Info", "all is well", "lib.rs:42");
    let back = VioletLogData::from_json(d.to_json().as_str());
    assert_eq!(back, Some(d));
}

#[test]
fn round_trip_special_characters() {
    let d = record(
        "Severe",
        "quote \" backslash \\ newline \n tab \t bell \u{7} nul \u{0}",
        "ünïcode \u{1F980} trace",
    );
    let back = VioletLogData::from_json(d.to_json().as_str());
    assert_eq!(back, Some(d));
}

#[test]
fn round_trip_empty_fields() {
    let d = record("", "", "");
    let back = VioletLogData::from_json(d.to_json().as_str());
    assert_eq!(back, Some(d));
}

#[test]
fn serde_json_reads_the_body() {
    let d = record("Debug", "line one\nline two", "a \"quoted\" spot");
    let text = d.to_json();
    let value: serde_json::Value = serde_json::from_str(text.as_str()).unwrap();
    let object = value.as_object().unwrap();
    assert_eq!(object.len(), 3);
    assert_eq!(object.get("error_level").unwrap().as_str().unwrap(), "Debug");
    assert_eq!(object.get("message").unwrap().as_str().unwrap(), "line one\nline two");
    assert_eq!(object.get("stack_trace").unwrap().as_str().unwrap(), "a \"quoted\" spot");
}

#[test]
fn from_json_rejects_other_texts() {
    assert_eq!(VioletLogData::from_json(""), None);
    assert_eq!(VioletLogData::from_json("{}"), None);
    assert_eq!(
        VioletLogData::from_json("{\"message\":\"m\",\"error_level\":\"E\",\"stack_trace\":\"t\"}"),
        None
    );
    assert_eq!(
        VioletLogData::from_json(
            "{\"error_level\":\"E\",\"message\":\"m\",\"stack_trace\":\"t\"} "
        ),
        None
    );
    assert_eq!(
        VioletLogData::from_json("{\"error_level\":\"E\",\"message\":\"m\",\"stack_trace\":\"t\""),
        None
    );
}
