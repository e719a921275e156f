use daft_launcher::processable::{ProcessState, Processable, ProcessableOption};

/// The `flag` of a TOML document, as a file may hold it: absent, or a boolean.
fn read_flag(text: &str) -> Option<bool> {
    let table: toml::Table = toml::from_str(text).ok().unwrap();
    table.get("flag").map(|v| v.as_bool().unwrap())
}

#[test]
fn tests_test_deser_with_no_value() {
    let flag: ProcessableOption<bool> = Processable::new(read_flag(""));
    assert_eq!(flag.process_state(), ProcessState::Raw);
    assert_eq!(flag, Processable::new(None));
}

#[test]
fn tests_test_deser_with_value() {
    let flag: ProcessableOption<bool> = Processable::new(read_flag("flag = true"));
    assert!(!flag.is_processed());
    assert_eq!(flag, Processable::new(Some(true)));
}

#[test]
fn tests_test_deser_with_nested_option_with_no_value() {
    let flag: ProcessableOption<Option<bool>> = Processable::new(read_flag("").map(Some));
    assert_eq!(flag, Processable::new(None));
}

#[test]
fn tests_test_deser_with_nested_option_with_value() {
    let flag: ProcessableOption<Option<bool>> = Processable::new(read_flag("flag = true").map(Some));
    assert_eq!(flag, Processable::new(Some(Some(true))));
}

#[test]
fn tests_test() {
    let x: ProcessableOption<u8> = Processable::new(Some(0u8));
    assert_eq!(x.process_state(), ProcessState::Raw);
}

#[test]
fn process_state_is_processed() {
    assert!(ProcessState::Processed.is_processed());
    assert!(!ProcessState::Raw.is_processed());
}

#[test]
fn process_applies_function_once() {
    let p: Processable<u32, u64> = Processable::new(20);
    let p = p.process(|r| (r as u64) * 2);
    assert!(p.is_processed());
    // A processed value is left as it is.
    let p = p.process(|r| (r as u64) + 1000);
    assert_eq!(p.into_processed(), 40);
}

#[test]
fn try_process_passes_errors_through() {
    let p: Processable<&str, u32> = Processable::new("x");
    let r: Result<_, String> = p.try_process(|_| Err("bad".to_string()));
    assert_eq!(r.err().unwrap(), "bad");
    let p: Processable<&str, u32> = Processable::new("x");
    let r: Result<_, String> = p.try_process(|s| Ok(s.len() as u32));
    assert_eq!(r.ok().unwrap().into_processed(), 1);
}

#[test]
fn try_or_else_uses_default_only_when_absent() {
    let p: ProcessableOption<u8> = Processable::new(None);
    let r: Result<_, String> = p.try_or_else(|| Err("no default".to_string()));
    assert_eq!(r.err().unwrap(), "no default");
    let p: ProcessableOption<u8> = Processable::new(Some(3));
    let r: Result<_, String> = p.try_or_else(|| Err("no default".to_string()));
    assert_eq!(r.ok().unwrap().into_processed(), 3);
}

#[test]
fn default_is_raw() {
    let p: Processable<u8, u8> = Processable::default();
    assert_eq!(p.process_state(), ProcessState::Raw);
}
