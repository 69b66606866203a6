use exoplanets::endpoint::{finish_load, ApiEndpoint};
use exoplanets::error::Error;
use exoplanets::json::{decode_result, decode_value};
use exoplanets::response::{accept_body, finish_select, Fetched};

struct Orbit {
    name: Option<String>,
    period: Option<f64>,
}

impl ApiEndpoint for Orbit {
    fn table_name() -> &'static str {
        "exoplanets"
    }

    fn handle_data(data: &str) -> Result<Vec<Self>, Error> {
        let rows: Vec<serde_json::Value> = serde_json::from_str(data).map_err(Error::Json)?;
        Ok(rows
            .iter()
            .map(|row| Orbit {
                name: row.get("pl_name").and_then(|v| v.as_str()).map(|s| s.to_string()),
                period: row.get("pl_orbper").and_then(|v| v.as_f64()),
            })
            .collect())
    }
}

const TWO_ROWS: &str =
    r#"[{"pl_name":"Kepler-1b","pl_orbper":3.2},{"pl_name":null,"pl_orbper":null}]"#;

fn answered(status: u16, text: &str) -> Fetched {
    Fetched::Answered { status, text: text.to_string() }
}

#[test]
fn two_rows_decode_with_present_and_empty_fields() {
    let value = finish_select(answered(200, TWO_ROWS)).unwrap();
    let rows = value.as_array().unwrap();
    assert_eq!(rows.len(), 2);
    assert_eq!(rows[0]["pl_name"].as_str(), Some("Kepler-1b"));
    assert_eq!(rows[0]["pl_orbper"].as_f64(), Some(3.2));
    assert!(rows[1]["pl_name"].is_null());
    assert!(rows[1]["pl_orbper"].is_null());
}

#[test]
fn two_rows_load_through_trait() {
    let rows = finish_load(answered(200, TWO_ROWS), Orbit::handle_data).unwrap();
    assert_eq!(rows.len(), 2);
    assert_eq!(rows[0].name.as_deref(), Some("Kepler-1b"));
    assert_eq!(rows[0].period, Some(3.2));
    assert_eq!(rows[1].name, None);
    assert_eq!(rows[1].period, None);
}

#[test]
fn missing_keys_are_empty() {
    let rows = finish_load(answered(200, r#"[{"pl_name":"a"},{}]"#), Orbit::handle_data).unwrap();
    assert_eq!(rows.len(), 2);
    assert_eq!(rows[0].period, None);
    assert_eq!(rows[1].name, None);
}

#[test]
fn server_error_is_transport_error() {
    let r = finish_select(answered(500, "internal error"));
    match r {
        Err(Error::Http(f)) => {
            assert_eq!(f.status, Some(500));
            assert_eq!(f.message, "internal error");
        }
        other => panic!("expected a transport error, got {:?}", other),
    }
    let r = finish_load(answered(500, TWO_ROWS), Orbit::handle_data);
    assert!(matches!(r, Err(Error::Http(_))));
}

#[test]
fn server_error_with_json_body_is_not_decoded() {
    let r = finish_select(answered(404, "[]"));
    assert!(matches!(r, Err(Error::Http(f)) if f.status == Some(404)));
}

#[test]
fn connection_refused_is_transport_error() {
    let r = finish_select(Fetched::Unreachable("connection refused".to_string()));
    match r {
        Err(Error::Http(f)) => {
            assert_eq!(f.status, None);
            assert_eq!(f.message, "connection refused");
        }
        other => panic!("expected a transport error, got {:?}", other),
    }
}

#[test]
fn unreadable_body_is_io_error() {
    let r = accept_body(Fetched::ReadFailed("stream closed".to_string()));
    assert!(matches!(r, Err(Error::Io(m)) if m == "stream closed"));
}

#[test]
fn success_statuses_hand_the_body_on() {
    assert_eq!(accept_body(answered(200, "[1]")).unwrap(), "[1]");
    assert_eq!(accept_body(answered(299, "x")).unwrap(), "x");
    assert!(matches!(accept_body(answered(199, "x")), Err(Error::Http(_))));
    assert!(matches!(accept_body(answered(300, "x")), Err(Error::Http(_))));
}

#[test]
fn truncated_body_is_decode_error() {
    let r = finish_select(answered(200, r#"[{"pl_name":"Kepler-1b","pl_orb"#));
    assert!(matches!(r, Err(Error::Json(_))));
    assert!(matches!(finish_load(answered(200, "[{"), Orbit::handle_data), Err(Error::Json(_))));
}

#[test]
fn non_array_body_is_decode_error_on_load() {
    let r = finish_load(answered(200, r#"{"pl_name":"Kepler-1b"}"#), Orbit::handle_data);
    assert!(matches!(r, Err(Error::Json(_))));
}

#[test]
fn json_error_converts_to_decode_error() {
    let parsed: Result<serde_json::Value, serde_json::Error> = serde_json::from_str("[");
    let e: Error = parsed.unwrap_err().into();
    assert!(matches!(e, Error::Json(_)));
}

#[test]
fn hook_error_comes_back_unchanged() {
    let r = finish_load(answered(200, "[]"), |_: &str| -> Result<Vec<Orbit>, Error> {
        Err(Error::Io("hook failed".to_string()))
    });
    assert!(matches!(r, Err(Error::Io(m)) if m == "hook failed"));
}

#[test]
fn empty_body_is_decode_error() {
    assert!(matches!(decode_value(""), Err(Error::Json(_))));
}

#[test]
fn trailing_text_is_decode_error() {
    assert!(matches!(decode_value("[] []"), Err(Error::Json(_))));
}

#[test]
fn non_array_body_decodes_as_value() {
    let v = decode_value(r#"{"error":"bad column"}"#).unwrap();
    assert_eq!(v["error"].as_str(), Some("bad column"));
}

#[test]
fn decode_value_parses_numbers() {
    let v = decode_value("[1, 2.5, \"x\"]").unwrap();
    assert_eq!(v.as_array().unwrap().len(), 3);
    assert_eq!(v[0].as_u64(), Some(1));
    assert_eq!(v[1].as_f64(), Some(2.5));
}

#[test]
fn decode_result_maps_parse_error() {
    let parsed: Result<serde_json::Value, serde_json::Error> = serde_json::from_str("nope");
    assert!(matches!(decode_result(parsed), Err(Error::Json(_))));
    let parsed: Result<serde_json::Value, serde_json::Error> = serde_json::from_str("[true]");
    assert_eq!(decode_result(parsed).unwrap()[0].as_bool(), Some(true));
}
