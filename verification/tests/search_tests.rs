use rink::search::{first_from_search_path, read_from_search_path, search_path};

#[test]
fn search_path_order() {
    assert_eq!(search_path("./", Some("/c/rink"), Some("/p")), vec!["./", "/c/rink", "/p"]);
    assert_eq!(search_path("./", None, Some("/p")), vec!["./", "/p"]);
    assert_eq!(search_path("./", None, None), vec!["./"]);
}

#[test]
fn found_files_then_bundled() {
    let found = vec![
        ("./".to_owned(), None),
        ("/c/rink".to_owned(), Some("a".to_owned())),
        ("/p".to_owned(), Some("b".to_owned())),
    ];
    assert_eq!(
        read_from_search_path("definitions.units", found.clone(), Some("bundled")),
        Ok(vec!["a".to_owned(), "b".to_owned(), "bundled".to_owned()])
    );
    assert_eq!(
        first_from_search_path("definitions.units", found, Some("bundled")),
        Ok("a".to_owned())
    );
    let none = vec![("./".to_owned(), None)];
    assert_eq!(
        first_from_search_path("x", none, Some("bundled")),
        Ok("bundled".to_owned())
    );
}

#[test]
fn nothing_found() {
    let found = vec![("./".to_owned(), None), ("/c/rink".to_owned(), None)];
    assert_eq!(
        read_from_search_path("datepatterns.txt", found.clone(), None),
        Err("Could not find datepatterns.txt, and rink was not built with one bundled. Search path:\n  ./\n  /c/rink".to_owned())
    );
    assert!(first_from_search_path("datepatterns.txt", found, None).is_err());
    assert_eq!(
        read_from_search_path("a", vec![], None),
        Err("Could not find a, and rink was not built with one bundled. Search path:".to_owned())
    );
}
