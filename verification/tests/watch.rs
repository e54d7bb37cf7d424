use filerep::watch::{
    bytes_equal, classify_event, relative_name, EventKind, WatchAction, WatchSet,
};

#[test]
fn stable_regular_file_is_dispatched() {
    assert_eq!(
        classify_event(EventKind::FileStable, true),
        WatchAction::Dispatch
    );
}

#[test]
fn transient_paths_are_ignored() {
    assert_eq!(
        classify_event(EventKind::FileStable, false),
        WatchAction::Ignore
    );
}

#[test]
fn new_directories_extend_the_watch() {
    assert_eq!(
        classify_event(EventKind::DirectoryCreated, false),
        WatchAction::AddWatch
    );
    assert_eq!(
        classify_event(EventKind::DirectoryCreated, true),
        WatchAction::AddWatch
    );
}

#[test]
fn relative_name_strips_the_root() {
    assert_eq!(
        relative_name(b"/origen", b"/origen/a/b.txt"),
        Some(b"a/b.txt".to_vec())
    );
    assert_eq!(relative_name(b"/origen", b"/origen/x"), Some(b"x".to_vec()));
}

#[test]
fn relative_name_outside_root_is_none() {
    assert_eq!(relative_name(b"/origen", b"/other/a"), None);
    assert_eq!(relative_name(b"/origen", b"/origen"), None);
    assert_eq!(relative_name(b"/origen", b"/origen/"), None);
    assert_eq!(relative_name(b"/origen", b"/origenx/a"), None);
}

#[test]
fn watch_set_grows_without_duplicates() {
    let mut w = WatchSet::new(b"/root".to_vec());
    assert!(w.watches(b"/root"));
    assert!(!w.watches(b"/root/sub"));

    assert!(w.observe_directory_created(b"/root/sub".to_vec()));
    assert!(w.watches(b"/root/sub"));

    // Seeing the same directory again adds nothing.
    assert!(!w.observe_directory_created(b"/root/sub".to_vec()));
    assert!(w.watches(b"/root/sub"));

    assert!(w.observe_directory_created(b"/root/sub/deeper".to_vec()));
    assert!(w.watches(b"/root/sub/deeper"));
    assert!(w.watches(b"/root"));
}

#[test]
fn bytes_equal_compares_exactly() {
    assert!(bytes_equal(b"", b""));
    assert!(bytes_equal(b"abc", b"abc"));
    assert!(!bytes_equal(b"abc", b"abd"));
    assert!(!bytes_equal(b"abc", b"ab"));
}
