use timeup::prodata::{default_data, init, read_outcome, save_contents, save_outcome, ProData};

fn data(mode: &str) -> ProData {
    ProData { colormode: mode.to_string() }
}

#[test]
fn init_gives_data_file_path() {
    assert_eq!(init(), "timeup.json");
}

#[test]
fn default_data_is_auto() {
    assert_eq!(default_data(), data("auto"));
}

#[test]
fn read_failure_keeps_data() {
    let mut datas = Some(data("dark"));
    assert_eq!(read_outcome(&mut datas, Err("not found".to_string())), None);
    assert_eq!(datas, Some(data("dark")));
}

#[test]
fn read_decoded_data() {
    let mut datas = None;
    assert_eq!(read_outcome(&mut datas, Ok(Ok(data("light")))), Some(data("light")));
    assert_eq!(datas, Some(data("light")));
}

#[test]
fn read_undecodable_gives_default() {
    let mut datas = Some(data("dark"));
    assert_eq!(read_outcome(&mut datas, Ok(Err("expected value".to_string()))), Some(data("auto")));
    assert_eq!(datas, Some(data("auto")));
}

#[test]
fn save_contents_json() {
    let mut datas = Some(data("x"));
    assert_eq!(save_contents(&mut datas, None), "null");
    assert_eq!(datas, None);
    assert_eq!(save_contents(&mut datas, Some(data("dark"))), "{\"colormode\":\"dark\"}");
    assert_eq!(datas, Some(data("dark")));
    assert_eq!(save_contents(&mut datas, Some(data("a\"b"))), "{\"colormode\":\"a\\\"b\"}");
}

#[test]
fn save_contents_reads_back() {
    let mut datas = None;
    let text = save_contents(&mut datas, Some(data("he said \"hi\"\n")));
    let v: serde_json::Value = serde_json::from_str(&text).unwrap();
    assert_eq!(v["colormode"], "he said \"hi\"\n");
}

#[test]
fn save_outcome_results() {
    assert_eq!(save_outcome("null".to_string(), Ok(())), Some((true, "null".to_string())));
    assert_eq!(save_outcome("null".to_string(), Err("denied".to_string())), Some((false, "denied".to_string())));
}

#[test]
fn save_contents_escapes_control_characters() {
    let mut datas = None;
    assert_eq!(
        save_contents(&mut datas, Some(data("a\tb\u{1}c\\é\u{1f}"))),
        "{\"colormode\":\"a\\tb\\u0001c\\\\é\\u001f\"}"
    );
}
