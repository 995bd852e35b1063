use mre_sdk::ffi::ucs2::{from_ucs2, to_ucs2};
use mre_sdk::fs::path::{get_app_dir, get_app_path, Path};
use mre_sdk::fs::readdir::{read_dir, read_dir_masked};

#[test]
fn ucs2_encodes_with_terminator_and_surrogates() {
    assert_eq!(to_ucs2("aé😀"), vec![0x61, 0xE9, 0xD83D, 0xDE00, 0]);
    assert_eq!(to_ucs2(""), vec![0]);
}

#[test]
fn ucs2_round_trip() {
    for s in ["", "hello", "e:\\mre\\app.vxp", "Привіт", "a😀b"] {
        assert_eq!(from_ucs2(&to_ucs2(s)), s);
    }
}

#[test]
fn ucs2_stops_at_first_zero() {
    assert_eq!(from_ucs2(&[0x41, 0, 0x42]), "A");
    assert_eq!(from_ucs2(&[0x41, 0x42]), "AB");
    assert_eq!(from_ucs2(&[]), "");
}

#[test]
fn ucs2_replaces_unpaired_surrogates() {
    assert_eq!(from_ucs2(&[0xD800, 0x41]), "\u{FFFD}A");
    assert_eq!(from_ucs2(&[0xDC00]), "\u{FFFD}");
    assert_eq!(from_ucs2(&[0xD83D]), "\u{FFFD}");
}

#[test]
fn new_path_places_relative_paths() {
    assert_eq!(Path::new("a/b", None).as_str(), "e:\\a\\b");
    let dir = Path::new("c:\\apps\\", None);
    assert_eq!(Path::new("data.txt", Some(&dir)).as_str(), "c:\\apps\\data.txt");
    assert_eq!(Path::new("d:/music/x.mp3", Some(&dir)).as_str(), "d:\\music\\x.mp3");
}

#[test]
fn new_path_tests_characters_for_a_drive() {
    assert_eq!(Path::new("é:\\x", None).as_str(), "é:\\x");
    assert_eq!(Path::new("é:/x", None).as_str(), "é:\\x");
}

#[test]
fn new_path_keeps_absolute_paths() {
    let p = Path::new("e:\\mre\\app.vxp", None);
    assert_eq!(Path::new(p.as_str(), None), p);
}

#[test]
fn join_inserts_one_separator() {
    let base = Path::new("e:\\games", None);
    assert_eq!(base.join("chess/board.png").as_str(), "e:\\games\\chess\\board.png");
    assert_eq!(base.join("\\x").as_str(), "e:\\games\\x");
    let slash = Path::new("e:\\games\\", None);
    assert_eq!(slash.join("x").as_str(), "e:\\games\\x");
    assert_eq!(base.join("").as_str(), "e:\\games\\");
}

#[test]
fn file_name_stem_and_extension() {
    let file = Path::new("e:\\games\\board.png", None);
    assert_eq!(file.file_name(), Some("board.png"));
    assert_eq!(file.extension(), Some("png"));
    assert_eq!(file.file_stem(), Some("board"));
    let hidden = Path::new("e:\\.profile", None);
    assert_eq!(hidden.extension(), None);
    assert_eq!(hidden.file_stem(), Some(".profile"));
    let dotted = Path::new("e:\\name.", None);
    assert_eq!(dotted.extension(), None);
    assert_eq!(dotted.file_stem(), Some("name"));
    let dir = Path::new("e:\\games\\", None);
    assert_eq!(dir.file_name(), None);
    assert_eq!(dir.extension(), None);
    assert_eq!(dir.file_stem(), None);
}

#[test]
fn stem_dot_extension_is_the_name() {
    let file = Path::new("e:\\a\\archive.tar.gz", None);
    let name = format!("{}.{}", file.file_stem().unwrap(), file.extension().unwrap());
    assert_eq!(file.file_name(), Some(name.as_str()));
}

#[test]
fn parent_of_paths() {
    assert_eq!(Path::new("e:\\a\\b", None).parent().unwrap().as_str(), "e:\\a");
    assert_eq!(Path::new("e:\\a", None).parent().unwrap().as_str(), "e:\\");
    assert_eq!(Path::new("e:\\a\\b\\", None).parent().unwrap().as_str(), "e:\\a");
    assert_eq!(Path::new("e:\\", None).parent().unwrap().as_str(), "e:\\");
}

#[test]
fn join_then_parent_gives_the_directory_back() {
    let base = Path::new("e:\\games\\chess", None);
    assert_eq!(base.join("board.png").parent().unwrap(), base);
    assert_eq!(base.join("board.png").file_name(), Some("board.png"));
    let root = Path::new("e:\\", None);
    assert_eq!(root.join("x.vxp").as_str(), "e:\\x.vxp");
    assert_eq!(root.join("x.vxp").parent().unwrap(), root);
}

#[test]
fn dir_path_of_file_and_directory() {
    let dir = Path::new("e:\\games\\", None);
    assert_eq!(dir.dir_path().unwrap(), dir);
    let file = Path::new("e:\\games\\x.vxp", None);
    assert_eq!(file.dir_path().unwrap().as_str(), "e:\\games");
}

#[test]
fn non_ascii_paths() {
    let p = Path::new("e:\\музика\\пісня.mp3", None);
    assert_eq!(p.file_name(), Some("пісня.mp3"));
    assert_eq!(p.extension(), Some("mp3"));
    assert_eq!(p.parent().unwrap().as_str(), "e:\\музика");
}

#[test]
fn mre_str_is_zero_terminated_utf16() {
    let p = Path::new("e:\\a", None);
    assert_eq!(p.as_mre_str(), vec![0x65, 0x3A, 0x5C, 0x61, 0]);
}

#[test]
fn app_path_from_platform_answer() {
    let mut buf = to_ucs2("e:\\mre\\game.vxp");
    buf.resize(260, 0);
    assert_eq!(get_app_path(0, &buf).unwrap().as_str(), "e:\\mre\\game.vxp");
    assert_eq!(get_app_dir(0, &buf).unwrap().as_str(), "e:\\mre");
    assert!(get_app_path(-1, &buf).is_none());
    assert!(get_app_dir(-1, &buf).is_none());
}

#[test]
fn directory_search_patterns() {
    let dir = Path::new("e:\\photos", None);
    assert_eq!(read_dir(&dir).as_str(), "e:\\photos\\*.*");
    assert_eq!(read_dir_masked(&dir, "*.jpg").as_str(), "e:\\photos\\*.jpg");
}
