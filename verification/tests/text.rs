use arbor::{classify_preview, FileContent};
use arbor::text::{char_width, chars_of, is_slash_terminated, starts_with, trim_slashes, trimmed_length};

#[test]
fn char_widths_follow_utf8() {
    assert_eq!(char_width('a'), 1);
    assert_eq!(char_width('é'), 2);
    assert_eq!(char_width('€'), 3);
    assert_eq!(char_width('📁'), 4);
}

#[test]
fn prefixes() {
    assert!(starts_with("readme.md", "read"));
    assert!(starts_with("readme.md", ""));
    assert!(!starts_with("readme.md", "ready"));
    assert!(!starts_with("re", "readme"));
    assert!(starts_with("ünïcode", "ün"));
}

#[test]
fn trailing_slashes() {
    assert_eq!(trim_slashes("a/b//"), "a/b");
    assert_eq!(trim_slashes("///"), "");
    assert_eq!(trim_slashes("plain"), "plain");
    assert!(is_slash_terminated("dir/"));
    assert!(!is_slash_terminated("dir"));
    assert!(!is_slash_terminated(""));
    assert_eq!(trimmed_length(&chars_of("x/y/")), 3);
}

#[test]
fn previews_tell_text_from_binary() {
    assert!(matches!(classify_preview(&"héllo".as_bytes().to_vec(), false), FileContent::Text(t) if t == "héllo"));
    assert!(matches!(classify_preview(&vec![b'a', 0, b'b'], false), FileContent::Binary(t) if t == "Binary file: no preview"));
    assert!(matches!(classify_preview(&vec![0xff, 0xfe], false), FileContent::Binary(_)));
    let mut cut = "ab€".as_bytes().to_vec();
    cut.truncate(4);
    assert!(matches!(classify_preview(&cut, false), FileContent::Binary(_)));
    assert!(matches!(classify_preview(&cut, true), FileContent::Text(t) if t == "ab"));
}
