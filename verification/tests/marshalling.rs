use system_ui::{
    flag_from_native, flag_to_native, init_outcome, text_from_native, text_to_native, Control,
    UiError, Window,
};

/// Stands in for the toolkit's side of one window: it keeps what it is given.
struct StandInWindow {
    handle: isize,
    title: Vec<u8>,
    fullscreen: i32,
}

impl StandInWindow {
    fn new(title: &[u8]) -> Self {
        StandInWindow { handle: 0x1000, title: title.to_vec(), fullscreen: 0 }
    }

    /// The bytes before the closing zero byte, as a reader of C strings sees them.
    fn title(&self) -> &[u8] {
        let end = self.title.iter().position(|b| *b == 0).unwrap();
        &self.title[..end]
    }
}

#[test]
fn text_is_closed_by_a_zero_byte() {
    assert_eq!(text_to_native("test").unwrap(), b"test\0".to_vec());
    assert_eq!(text_to_native("").unwrap(), vec![0u8]);
    assert_eq!(text_to_native("new_title").unwrap(), b"new_title\0".to_vec());
}

#[test]
fn text_beyond_ascii_goes_out_as_utf8() {
    assert_eq!(
        text_to_native("测试").unwrap(),
        vec![0xe6, 0xb5, 0x8b, 0xe8, 0xaf, 0x95, 0x00]
    );
    assert_eq!(text_to_native("é").unwrap(), vec![0xc3, 0xa9, 0x00]);
    assert_eq!(text_to_native("𝄞").unwrap(), vec![0xf0, 0x9d, 0x84, 0x9e, 0x00]);
}

#[test]
fn text_with_a_zero_byte_is_refused() {
    assert_eq!(text_to_native("a\0b").unwrap_err().nul_position(), 1);
    assert_eq!(text_to_native("\0").unwrap_err().nul_position(), 0);
    assert_eq!(text_to_native("ab\0").unwrap_err().nul_position(), 2);
    assert_eq!(text_to_native("a\0b\0c").unwrap_err().nul_position(), 1);
    assert_eq!(text_to_native("测\0试").unwrap_err().nul_position(), 3);
}

#[test]
fn bytes_of_the_toolkit_are_read_as_utf8() {
    assert_eq!(text_from_native(b"test").unwrap(), "test");
    assert_eq!(text_from_native(b"").unwrap(), "");
    assert_eq!(text_from_native(&[0xe6, 0xb5, 0x8b, 0xe8, 0xaf, 0x95]).unwrap(), "测试");
    assert_eq!(text_from_native(&[0xf0, 0x9d, 0x84, 0x9e]).unwrap(), "𝄞");
}

#[test]
fn bytes_that_are_not_utf8_are_refused() {
    assert!(text_from_native(&[0xff]).is_err());
    assert!(text_from_native(&[0x61, 0x80]).is_err());
    // cut off in the middle of a character
    assert!(text_from_native(&[0xe6, 0xb5]).is_err());
    // an overlong encoding of '/'
    assert!(text_from_native(&[0xc0, 0xaf]).is_err());
    // a surrogate
    assert!(text_from_native(&[0xed, 0xa0, 0x80]).is_err());
    // beyond the last code point
    assert!(text_from_native(&[0xf4, 0x90, 0x80, 0x80]).is_err());
    let e = text_from_native(&[0x61, 0x62, 0xff, 0x63]).unwrap_err();
    assert_eq!(e.valid_up_to(), 2);
}

#[test]
fn text_comes_back_as_it_went_out() {
    for text in ["test", "", "new_title", "测试", "Hello, world! 你好世界!", "tab\tand\nnewline"] {
        let out = text_to_native(text).unwrap();
        let (last, content) = out.split_last().unwrap();
        assert_eq!(*last, 0);
        assert_eq!(text_from_native(content).unwrap(), text);
    }
}

#[test]
fn flags_are_one_and_zero_on_the_way_out() {
    assert_eq!(flag_to_native(true), 1);
    assert_eq!(flag_to_native(false), 0);
}

#[test]
fn flags_are_zero_or_not_on_the_way_in() {
    assert!(!flag_from_native(0));
    assert!(flag_from_native(1));
    assert!(flag_from_native(-1));
    assert!(flag_from_native(2));
    assert!(flag_from_native(i32::MAX));
    assert!(flag_from_native(i32::MIN));
}

#[test]
fn flags_come_back_as_they_went_out() {
    assert!(flag_from_native(flag_to_native(true)));
    assert!(!flag_from_native(flag_to_native(false)));
}

#[test]
fn window_title_and_fullscreen_cross_the_boundary() {
    let mut native = StandInWindow::new(&text_to_native("test").unwrap());
    let window = Window::from_ptr(native.handle);
    assert_eq!(window.as_ptr_mut(), native.handle);
    assert_eq!(text_from_native(native.title()).unwrap(), "test");

    native.title = text_to_native("new_title").unwrap();
    assert_eq!("new_title", text_from_native(native.title()).unwrap());

    assert!(!flag_from_native(native.fullscreen));
    native.fullscreen = flag_to_native(true);
    assert!(flag_from_native(native.fullscreen));
}

#[test]
fn setup_that_reports_nothing_succeeded() {
    assert!(init_outcome(None).is_ok());
}

#[test]
fn setup_that_reports_text_failed_with_it() {
    match init_outcome(Some(b"no display")) {
        Err(UiError::Init(why)) => assert_eq!(why, "no display"),
        _ => panic!("a report means failure"),
    }
    match init_outcome(Some(b"")) {
        Err(UiError::Init(why)) => assert_eq!(why, ""),
        _ => panic!("a report means failure"),
    }
}

#[test]
fn setup_report_that_cannot_be_read_is_an_encoding_failure() {
    match init_outcome(Some(&[0x6e, 0x6f, 0xff])) {
        Err(UiError::Utf8(e)) => assert_eq!(e.valid_up_to(), 2),
        _ => panic!("bytes that are not text cannot be a message"),
    }
}

#[test]
fn messages_start_with_the_name_of_the_failure() {
    assert_eq!(
        UiError::Init(String::from("no display")).message(),
        "UiError: InitError: no display"
    );
    assert_eq!(
        UiError::Poison(String::from("poisoned lock: another task failed inside")).message(),
        "UiError: poisoned lock: another task failed inside"
    );
    assert_eq!(UiError::Init(String::new()).message(), "UiError: InitError: ");
    assert_eq!(UiError::Poison(String::new()).message(), "UiError: ");
}

#[test]
fn message_of_an_encoding_failure_says_where() {
    let e = text_from_native(&[0x61, 0xff]).unwrap_err();
    assert_eq!(
        UiError::Utf8(e).message(),
        "UiError: invalid utf-8 sequence of 1 bytes from index 1"
    );
    let e = text_from_native(&[0xe6, 0xb5]).unwrap_err();
    assert_eq!(
        UiError::from(e).message(),
        "UiError: incomplete utf-8 byte sequence from index 0"
    );
}
