use timeup::localdata::{
    assign_config, assign_state, config_load_begin, config_load_compared, config_load_decoded,
    config_load_saved, config_text, Config, LoadNext, StaskStatus, TomlItem, VersionCheck,
    WindowState,
};

fn config(version: &str, colormode: &str) -> Config {
    Config { version: version.to_string(), colormode: colormode.to_string() }
}

fn check_of(text: &str) -> VersionCheck {
    match config_load_begin(Ok(text.to_string())) {
        Ok(c) => c,
        Err(e) => panic!("unexpected error {e}"),
    }
}

#[test]
fn stask_status_names() {
    assert_eq!(StaskStatus::Wait.to_string(), "Wait");
    assert_eq!(StaskStatus::Completed.to_string(), "Completed");
    assert_eq!(StaskStatus::NoNeed.to_string(), "NoNeed");
}

#[test]
fn assign_state_copies_value() {
    let mut target = WindowState { effect: "None".to_string(), darkmode: false };
    let value = WindowState { effect: "Mica".to_string(), darkmode: true };
    assign_state(&mut target, &value);
    assert_eq!(target.effect, "Mica");
    assert!(target.darkmode);
}

#[test]
fn assign_config_copies_value() {
    let mut target = config("", "");
    assign_config(&mut target, &config("1.2.0", "dark"));
    assert_eq!(target.version, "1.2.0");
    assert_eq!(target.colormode, "dark");
}

#[test]
fn load_begin_read_error_is_passed_on() {
    let r = config_load_begin(Err("No such file".to_string()));
    assert_eq!(r.err().unwrap(), "No such file");
}

#[test]
fn load_begin_bad_toml_gives_parser_message() {
    let r = config_load_begin(Ok("version = ".to_string()));
    let e = r.err().unwrap();
    assert!(!e.is_empty());
    assert_ne!(e, "Corrupted file");
    assert_ne!(e, "Parse failed");
    assert_ne!(e, "Invalid data");
}

#[test]
fn load_begin_without_version_is_corrupted() {
    let r = config_load_begin(Ok("colormode = \"auto\"\n".to_string()));
    assert_eq!(r.err().unwrap(), "Corrupted file");
}

#[test]
fn load_begin_version_not_string_fails_to_parse() {
    let r = config_load_begin(Ok("version = 3\ncolormode = \"auto\"\n".to_string()));
    assert_eq!(r.err().unwrap(), "Parse failed");
}

#[test]
fn load_begin_reads_version_and_table() {
    let text = "version = \"0.1.0\"\ncolormode = \"dark\"\nextra = 5\n";
    let c = check_of(text);
    assert_eq!(c.file_version, "0.1.0");
    assert_eq!(c.text, text);
    assert_eq!(c.table.len(), 3);
    let extra = c.table.iter().find(|e| e.key == "extra").unwrap();
    assert!(matches!(extra.value, TomlItem::Other));
    let mode = c.table.iter().find(|e| e.key == "colormode").unwrap();
    assert!(matches!(&mode.value, TomlItem::Str(s) if s == "dark"));
}

#[test]
fn compared_error_is_passed_on() {
    let mut current = config("1.0.0", "auto");
    let next = config_load_compared(&mut current, check_of("version = \"1.0.0\"\n"), Err("bad version".to_string()));
    assert!(matches!(next, LoadNext::Done(Err(ref e)) if e == "bad version"));
    assert_eq!(current.version, "1.0.0");
}

#[test]
fn compared_equal_decodes_file() {
    let text = "version = \"1.0.0\"\ncolormode = \"dark\"\n";
    let mut current = config("1.0.0", "auto");
    let next = config_load_compared(&mut current, check_of(text), Ok(0));
    assert!(matches!(next, LoadNext::DecodeFile(ref t) if t == text));
    assert_eq!(current.colormode, "auto");
}

#[test]
fn compared_newer_file_is_outdated() {
    let mut current = config("1.0.0", "auto");
    let next = config_load_compared(&mut current, check_of("version = \"2.0.0\"\n"), Ok(1));
    assert!(matches!(next, LoadNext::Done(Err(ref e)) if e == "Outdate version"));
    assert_eq!(current.version, "1.0.0");
}

#[test]
fn compared_other_number_is_impossible_case() {
    let mut current = config("1.0.0", "auto");
    let next = config_load_compared(&mut current, check_of("version = \"2.0.0\"\n"), Ok(2));
    assert!(matches!(next, LoadNext::Done(Err(ref e)) if e == "Imposible case"));
}

#[test]
fn upgrade_keeps_file_colormode_and_stamps_version() {
    let mut current = config("2.0.0", "auto");
    let next = config_load_compared(&mut current, check_of("version = \"1.0.0\"\ncolormode = \"dark\"\n"), Ok(-1));
    match next {
        LoadNext::Save(c) => {
            assert_eq!(c.version, "2.0.0");
            assert_eq!(c.colormode, "dark");
        }
        other => panic!("unexpected {other:?}"),
    }
    assert_eq!(current.version, "2.0.0");
    assert_eq!(current.colormode, "dark");
}

#[test]
fn upgrade_fills_missing_colormode() {
    let mut current = config("2.0.0", "light");
    let next = config_load_compared(&mut current, check_of("version = \"1.0.0\"\n"), Ok(-1));
    match next {
        LoadNext::Save(c) => {
            assert_eq!(c.version, "2.0.0");
            assert_eq!(c.colormode, "light");
        }
        other => panic!("unexpected {other:?}"),
    }
}

#[test]
fn upgrade_with_bad_colormode_fails_and_keeps_config() {
    let mut current = config("2.0.0", "light");
    let next = config_load_compared(&mut current, check_of("version = \"1.0.0\"\ncolormode = 7\n"), Ok(-1));
    assert!(matches!(next, LoadNext::Done(Err(ref e)) if e == "Parse failed"));
    assert_eq!(current.colormode, "light");
    assert_eq!(current.version, "2.0.0");
}

#[test]
fn decoded_config_becomes_current() {
    let mut current = config("1.0.0", "auto");
    let r = config_load_decoded(&mut current, Ok(config("1.0.0", "dark")));
    assert_eq!(r.unwrap().colormode, "dark");
    assert_eq!(current.colormode, "dark");
    let r = config_load_decoded(&mut current, Err("missing field".to_string()));
    assert_eq!(r.err().unwrap(), "missing field");
    assert_eq!(current.colormode, "dark");
}

#[test]
fn saved_result() {
    let r = config_load_saved(config("2.0.0", "dark"), Ok(()));
    assert_eq!(r.unwrap().version, "2.0.0");
    let r = config_load_saved(config("2.0.0", "dark"), Err("disk full".to_string()));
    assert_eq!(r.err().unwrap(), "Save failed");
}

#[test]
fn config_text_layout() {
    assert_eq!(config_text(&config("1.0", "auto")), "version = \"1.0\"\ncolormode = \"auto\"\n");
}

#[test]
fn config_text_reads_back() {
    for (v, c) in [("1.0", "auto"), ("a\"b", "c\\d"), ("it's", "")] {
        let text = config_text(&config(v, c));
        let check = check_of(&text);
        assert_eq!(check.file_version, v);
        let mode = check.table.iter().find(|e| e.key == "colormode").unwrap();
        assert!(matches!(&mode.value, TomlItem::Str(s) if s == c));
        let mut current = config(v, "other");
        let next = config_load_compared(&mut current, check, Ok(-1));
        assert!(matches!(next, LoadNext::Save(ref k) if k.colormode == c && k.version == v));
    }
}

#[test]
fn law_failed_load_keeps_config_concrete() {
    // A failed read, an outdated program and a bad upgrade leave the config.
    let mut current = config("2.0.0", "light");
    assert!(config_load_begin(Err("gone".to_string())).is_err());
    let next = config_load_compared(&mut current, check_of("version = \"3.0.0\"\n"), Ok(1));
    assert!(matches!(next, LoadNext::Done(Err(_))));
    let next = config_load_compared(&mut current, check_of("version = \"1.0.0\"\ncolormode = 1\n"), Ok(-1));
    assert!(matches!(next, LoadNext::Done(Err(_))));
    let r = config_load_decoded(&mut current, Err("bad".to_string()));
    assert!(r.is_err());
    assert_eq!(current.version, "2.0.0");
    assert_eq!(current.colormode, "light");
    // A failed save after an upgrade: the upgraded config is already current.
    let next = config_load_compared(&mut current, check_of("version = \"1.0.0\"\ncolormode = \"dark\"\n"), Ok(-1));
    let upgraded = match next {
        LoadNext::Save(c) => c,
        other => panic!("unexpected {other:?}"),
    };
    let r = config_load_saved(upgraded, Err("denied".to_string()));
    assert_eq!(r.err().unwrap(), "Save failed");
    assert_eq!(current.version, "2.0.0");
    assert_eq!(current.colormode, "dark");
}
