use daft_launcher::config::processable_option::ProcessableOption as InPlaceOption;
use daft_launcher::processable_option::ProcessableOption;

/// The `flag` of a TOML document, as a file may hold it: absent, or a boolean.
fn read_flag(text: &str) -> Option<bool> {
    let table: toml::Table = toml::from_str(text).ok().unwrap();
    table.get("flag").map(|v| v.as_bool().unwrap())
}

#[test]
fn processable_option_test_deser_with_no_value() {
    assert_eq!(InPlaceOption::<bool>::new(read_flag("")), InPlaceOption::RawNone);
}

#[test]
fn processable_option_test_deser_with_value() {
    assert_eq!(InPlaceOption::new(read_flag("flag = true")), InPlaceOption::RawSome(Some(true)));
}

#[test]
fn processable_option_test_deser_with_nested_option_with_no_value() {
    assert_eq!(InPlaceOption::<Option<bool>>::new(read_flag("").map(Some)), InPlaceOption::RawNone);
}

#[test]
fn processable_option_test_deser_with_nested_option_with_value() {
    assert_eq!(
        InPlaceOption::new(read_flag("flag = true").map(Some)),
        InPlaceOption::RawSome(Some(Some(true)))
    );
}

#[test]
fn processable_option_test() {
    let x = InPlaceOption::new(Some(0u8));
    assert_eq!(x, InPlaceOption::RawSome(Some(0u8)));
}

#[test]
fn try_process_sees_the_raw_value() {
    let mut x = InPlaceOption::new(Some(4u32));
    let r: Result<(), String> = x.try_process(|v| Ok(v.unwrap() * 10));
    assert!(r.is_ok());
    assert_eq!(*x.as_processed(), 40);
    let mut y = InPlaceOption::<u32>::new(None);
    let r: Result<(), String> = y.try_process(|v| Ok(v.unwrap_or(7)));
    assert!(r.is_ok());
    assert_eq!(y, InPlaceOption::Processed(7));
}

#[test]
fn failed_try_process_leaves_the_value_taken_out() {
    let mut x = InPlaceOption::new(Some(4u32));
    let r: Result<(), String> = x.try_process(|_| Err("bad".to_string()));
    assert_eq!(r, Err("bad".to_string()));
    assert_eq!(x, InPlaceOption::RawSome(None));
    let mut y = InPlaceOption::<u32>::new(None);
    let r: Result<(), String> = y.try_process(|_| Err("bad".to_string()));
    assert!(r.is_err());
    assert_eq!(y, InPlaceOption::RawNone);
}

#[test]
fn or_else_try_process_keeps_present_values() {
    let mut x = InPlaceOption::new(Some(1u8));
    let r: Result<(), String> = x.or_else_try_process(|| Err("unused".to_string()));
    assert!(r.is_ok());
    assert_eq!(x, InPlaceOption::Processed(1));
    let mut y = InPlaceOption::<u8>::new(None);
    let r: Result<(), String> = y.or_else_try_process(|| Ok(9));
    assert!(r.is_ok());
    *y.as_processed_mut() += 1;
    assert_eq!(y, InPlaceOption::Processed(10));
}

#[test]
fn in_place_default_is_present() {
    assert_eq!(InPlaceOption::<u8>::default(), InPlaceOption::RawSome(Some(0)));
}

#[test]
fn or_else_and_map_or_else() {
    assert_eq!(ProcessableOption::Raw(Some(2u8)).or_else(|| 5), ProcessableOption::Processed(2));
    assert_eq!(ProcessableOption::<u8>::Raw(None).or_else(|| 5), ProcessableOption::Processed(5));
    assert_eq!(ProcessableOption::Processed(1u8).or_else(|| 5), ProcessableOption::Processed(1));
    let m = ProcessableOption::Raw(Some(3u8)).map_or_else(|| 0u32, |t| t as u32 * 100);
    assert_eq!(m, ProcessableOption::Processed(300u32));
    let m = ProcessableOption::<u8>::Raw(None).map_or_else(|| 7u32, |t| t as u32);
    assert_eq!(m, ProcessableOption::Processed(7u32));
    assert_eq!(ProcessableOption::<u8>::default(), ProcessableOption::Raw(None));
}

#[test]
fn transpose_moves_errors_and_absences_out() {
    let ok: ProcessableOption<Result<u8, String>> = ProcessableOption::Raw(Some(Ok(1)));
    assert_eq!(ok.transpose(), Ok(ProcessableOption::Raw(Some(1))));
    let err: ProcessableOption<Result<u8, String>> = ProcessableOption::Processed(Err("e".into()));
    assert_eq!(err.transpose(), Err("e".to_string()));
    let none: ProcessableOption<Result<u8, String>> = ProcessableOption::Raw(None);
    assert_eq!(none.transpose(), Ok(ProcessableOption::Raw(None)));
    let absent: ProcessableOption<Option<u8>> = ProcessableOption::Processed(None);
    assert_eq!(absent.transpose(), None);
    let raw_absent: ProcessableOption<Option<u8>> = ProcessableOption::Raw(None);
    assert_eq!(raw_absent.transpose(), None);
    let nested: ProcessableOption<Option<u8>> = ProcessableOption::Raw(Some(None));
    assert_eq!(nested.transpose(), Some(ProcessableOption::Raw(None)));
    let present: ProcessableOption<Option<u8>> = ProcessableOption::Processed(Some(4));
    assert_eq!(present.transpose(), Some(ProcessableOption::Processed(4)));
}
