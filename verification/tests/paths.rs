use filerep::paths::{dest_path_bytes, name_is_safe, temp_path_bytes};

#[test]
fn contained_names_are_safe() {
    for name in [
        &b"a"[..],
        &b"a/b/c.txt"[..],
        &b"a..b"[..],
        &b"..a"[..],
        &b"b.."[..],
        &b".hidden"[..],
        &b"..."[..],
    ] {
        assert!(name_is_safe(name), "name {:?}", name);
    }
}

#[test]
fn escaping_names_are_unsafe() {
    for name in [
        &b""[..],
        &b"/"[..],
        &b"/abs/path"[..],
        &b".."[..],
        &b"../x"[..],
        &b"x/.."[..],
        &b"x/../y"[..],
        &b"a/../../b"[..],
    ] {
        assert!(!name_is_safe(name), "name {:?}", name);
    }
}

#[test]
fn destination_path_joins_root_and_name() {
    assert_eq!(
        dest_path_bytes(b"/destino", b"a/b.txt"),
        b"/destino/a/b.txt".to_vec()
    );
}

#[test]
fn temp_path_carries_the_part_suffix() {
    assert_eq!(
        temp_path_bytes(b"/destino/a/b.txt"),
        b"/destino/a/b.txt.part".to_vec()
    );
}
