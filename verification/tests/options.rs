use tower_http_compression::options::{Coding, Options};

fn options(gzip: bool, deflate: bool, br: bool) -> Options {
    Options::default()
        .set_gzip(gzip)
        .set_deflate(deflate)
        .set_br(br)
}

fn accept(gzip: bool, deflate: bool, br: bool) -> Option<Vec<u8>> {
    options(gzip, deflate, br)
        .accept_encoding()
        .map(|value| value.as_bytes().to_vec())
}

#[test]
fn default_has_all_codings() {
    let options = Options::default();
    assert!(options.gzip());
    assert!(options.deflate());
    assert!(options.br());
}

#[test]
fn setters_change_one_coding() {
    let all = Options::default();

    let options = all.set_gzip(false);
    assert!(!options.gzip() && options.deflate() && options.br());

    let options = all.set_deflate(false);
    assert!(options.gzip() && !options.deflate() && options.br());

    let options = all.set_br(false);
    assert!(options.gzip() && options.deflate() && !options.br());
}

#[test]
fn later_setting_counts() {
    let options = Options::default().set_gzip(false).set_gzip(true);
    assert!(options == Options::default());
    let options = Options::default().set_br(true).set_br(false);
    assert!(options == Options::default().set_br(false));
}

#[test]
fn settings_commute() {
    let one = Options::default().set_gzip(false).set_br(false);
    let other = Options::default().set_br(false).set_gzip(false);
    assert!(one == other);
    assert!(Options::default().set_gzip(false) != Options::default().set_br(false));
}

#[test]
fn flags_are_shown_by_name() {
    assert_eq!(options(true, true, true).flags(), "GZIP | DEFLATE | BR");
    assert_eq!(options(true, true, false).flags(), "GZIP | DEFLATE");
    assert_eq!(options(true, false, true).flags(), "GZIP | BR");
    assert_eq!(options(true, false, false).flags(), "GZIP");
    assert_eq!(options(false, true, true).flags(), "DEFLATE | BR");
    assert_eq!(options(false, true, false).flags(), "DEFLATE");
    assert_eq!(options(false, false, true).flags(), "BR");
    assert_eq!(options(false, false, false).flags(), "(empty)");
}

#[test]
fn accept_encoding_is_not_sensitive() {
    let value = Options::default().accept_encoding().unwrap();
    assert!(!value.is_sensitive());
}

#[test]
fn accept_encoding_lists_the_codings() {
    assert_eq!(accept(true, true, true), Some(b"gzip,deflate,br".to_vec()));
    assert_eq!(accept(true, true, false), Some(b"gzip,deflate".to_vec()));
    assert_eq!(accept(true, false, true), Some(b"gzip,br".to_vec()));
    assert_eq!(accept(true, false, false), Some(b"gzip".to_vec()));
    assert_eq!(accept(false, true, true), Some(b"deflate,br".to_vec()));
    assert_eq!(accept(false, true, false), Some(b"deflate".to_vec()));
    assert_eq!(accept(false, false, true), Some(b"br".to_vec()));
}

#[test]
fn accept_encoding_of_nothing() {
    assert_eq!(accept(false, false, false), None);
}

#[test]
fn coding_of_known_tokens() {
    let all = Options::default();
    assert_eq!(all.coding_of(b"gzip"), Some(Coding::Gzip));
    assert_eq!(all.coding_of(b"deflate"), Some(Coding::Deflate));
    assert_eq!(all.coding_of(b"br"), Some(Coding::Brotli));
}

#[test]
fn coding_of_other_values() {
    let all = Options::default();
    assert_eq!(all.coding_of(b""), None);
    assert_eq!(all.coding_of(b"identity"), None);
    assert_eq!(all.coding_of(b"GZIP"), None);
    assert_eq!(all.coding_of(b"gzip "), None);
    assert_eq!(all.coding_of(b"gzip, br"), None);
    assert_eq!(all.coding_of(b"x-gzip"), None);
}

#[test]
fn coding_of_disabled_codings() {
    assert_eq!(options(false, true, true).coding_of(b"gzip"), None);
    assert_eq!(options(true, false, true).coding_of(b"deflate"), None);
    assert_eq!(options(true, true, false).coding_of(b"br"), None);
}
