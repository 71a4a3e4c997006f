use rink::helpers::{
    currency_file, dates_file, default_file, eval, query_text, simple_context, version, Recall,
};

#[test]
fn nothing_is_bundled() {
    assert!(default_file().is_none());
    assert!(dates_file().is_none());
    assert!(currency_file().is_none());
}

#[test]
fn simple_context_needs_bundled_files() {
    let message = "bundle-files feature not enabled, cannot create simple context.";
    match simple_context(default_file(), dates_file()) {
        Ok(_) => panic!("no data files are bundled"),
        Err(m) => assert_eq!(m, message),
    }
    match simple_context(Some("units"), None) {
        Ok(_) => panic!("the date patterns are missing"),
        Err(m) => assert_eq!(m, message),
    }
    match simple_context(None, Some("dates")) {
        Ok(_) => panic!("the definitions are missing"),
        Err(m) => assert_eq!(m, message),
    }
    let sources = simple_context(Some("units"), Some("dates")).ok().unwrap();
    assert_eq!(sources.definitions, "units");
    assert_eq!(sources.dates, "dates");
}

#[test]
fn version_is_dotted_triple() {
    let v = version();
    let parts: Vec<&str> = v.split('.').collect();
    assert_eq!(parts.len(), 3);
    for p in parts {
        assert!(!p.is_empty());
        assert!(p.chars().all(|c| c.is_ascii_digit()));
    }
    assert_eq!(v, "0.8.0");
}

#[test]
fn query_text_trims_whitespace() {
    assert_eq!(query_text("  3 feet to m \n"), "3 feet to m");
    assert_eq!(query_text("\t\u{3000}kg\u{a0}"), "kg");
    assert_eq!(query_text("   "), "");
    assert_eq!(query_text(""), "");
    assert_eq!(query_text("a  b"), "a  b");
}

#[test]
fn eval_keeps_numbers_for_ans() {
    let mut recall: Recall<i64> = Recall { save_previous_result: true, previous_result: None };
    let r: Result<&str, &str> = eval(&mut recall, Ok(("6 meter", Some(6))));
    assert_eq!(r, Ok("6 meter"));
    assert_eq!(recall.previous_result, Some(6));
    // A reply without a number leaves `ans` alone.
    let r: Result<&str, &str> = eval(&mut recall, Ok(("length", None)));
    assert_eq!(r, Ok("length"));
    assert_eq!(recall.previous_result, Some(6));
    // An error leaves `ans` alone.
    let r: Result<&str, &str> = eval(&mut recall, Err("no such unit"));
    assert_eq!(r, Err("no such unit"));
    assert_eq!(recall.previous_result, Some(6));
}

#[test]
fn eval_without_saving() {
    let mut recall: Recall<i64> = Recall { save_previous_result: false, previous_result: Some(1) };
    let r: Result<&str, &str> = eval(&mut recall, Ok(("2", Some(2))));
    assert_eq!(r, Ok("2"));
    assert_eq!(recall.previous_result, Some(1));
    assert!(!recall.save_previous_result);
}
