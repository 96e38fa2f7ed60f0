use page_fetch::{
    choose_encoding, declared_charset, detect_encoding, resolve_and_decode, EncodingChoice,
};

const SJIS_HELLO: [u8; 10] = [0x82, 0xB1, 0x82, 0xF1, 0x82, 0xC9, 0x82, 0xBF, 0x82, 0xCD];

#[test]
fn utf8_body_is_kept_whatever_is_declared() {
    let text = "こんにちは, world";
    let out = resolve_and_decode(text.as_bytes(), "text/html; charset=Shift_JIS");
    assert_eq!(out, text);
    assert_eq!(resolve_and_decode(b"plain", "text/plain; charset=euc-jp"), "plain");
    assert_eq!(resolve_and_decode(b"", ""), "");
}

#[test]
fn declared_shift_jis_is_decoded() {
    let out = resolve_and_decode(&SJIS_HELLO, "text/html; charset=Shift_JIS");
    assert_eq!(out, "こんにちは");
}

#[test]
fn undeclared_shift_jis_pattern_is_detected() {
    assert_eq!(choose_encoding(&SJIS_HELLO, ""), EncodingChoice::ShiftJis);
    assert_eq!(choose_encoding(&SJIS_HELLO, "text/html; charset=klingon"), EncodingChoice::ShiftJis);
    assert_eq!(resolve_and_decode(&SJIS_HELLO, "text/html"), "こんにちは");
}

#[test]
fn arbitrary_bytes_decode_without_error() {
    let all: Vec<u8> = (0..=255u8).collect();
    let out = resolve_and_decode(&all, "");
    assert!(!out.is_empty());
    let junk = [0xFFu8, 0x00, 0x80, 0xC3, 0x28, 0xFE];
    let out = resolve_and_decode(&junk, "text/html; charset=utf-8");
    assert!(out.contains('\u{FFFD}'));
}

#[test]
fn euc_jp_pattern_is_detected() {
    // "あ" in EUC-JP
    let b = [0xA4u8, 0xA2];
    assert_eq!(detect_encoding(&b), Some(EncodingChoice::EucJp));
    assert_eq!(resolve_and_decode(&b, ""), "あ");
}

#[test]
fn byte_order_marks() {
    assert_eq!(detect_encoding(&[0xEF, 0xBB, 0xBF, 0xFF]), Some(EncodingChoice::Utf8));
    assert_eq!(detect_encoding(&[0xFF, 0xFE, 0x41, 0x00]), Some(EncodingChoice::Utf16Le));
    assert_eq!(detect_encoding(&[0xFE, 0xFF, 0x00, 0x41]), Some(EncodingChoice::Utf16Le));
    assert_eq!(resolve_and_decode(&[0xFF, 0xFE, 0x41, 0x00], ""), "A");
}

#[test]
fn heuristics_look_at_the_first_thousand_bytes_only() {
    let mut late = vec![b'a'; 1000];
    late.extend_from_slice(&[0x82, 0xA0]);
    assert_eq!(detect_encoding(&late), None);
    let mut edge = vec![b'a'; 998];
    edge.extend_from_slice(&[0x82, 0xA0]);
    assert_eq!(detect_encoding(&edge), Some(EncodingChoice::ShiftJis));
    assert_eq!(detect_encoding(b"just ascii"), None);
    assert_eq!(detect_encoding(&[]), None);
}

#[test]
fn no_pattern_falls_back_to_utf8() {
    // a lone continuation byte: not UTF-8, no double-byte pattern
    let b = [b'x', 0x80];
    assert_eq!(choose_encoding(&b, ""), EncodingChoice::Utf8);
    assert_eq!(resolve_and_decode(&b, ""), "x\u{FFFD}");
}

#[test]
fn charset_parameter_parsing() {
    assert_eq!(declared_charset("text/html; charset=Shift_JIS"), Some(EncodingChoice::ShiftJis));
    assert_eq!(declared_charset("text/html; CHARSET= SJIS ; q=1"), Some(EncodingChoice::ShiftJis));
    assert_eq!(declared_charset("text/html;charset=utf8"), Some(EncodingChoice::Utf8));
    assert_eq!(declared_charset("text/html; charset=EUCJP"), Some(EncodingChoice::EucJp));
    assert_eq!(declared_charset("text/html; charset=iso-2022-jp"), Some(EncodingChoice::Iso2022Jp));
    assert_eq!(declared_charset("text/html; charset=latin1"), Some(EncodingChoice::Windows1252));
    assert_eq!(declared_charset("text/html; charset=iso-8859-1"), Some(EncodingChoice::Windows1252));
    assert_eq!(declared_charset("text/html; charset=cp1252"), Some(EncodingChoice::Windows1252));
    assert_eq!(declared_charset("text/html; charset=koi8-r"), None);
    assert_eq!(declared_charset("text/html"), None);
    assert_eq!(declared_charset(""), None);
    assert_eq!(declared_charset("charset="), None);
}

#[test]
fn declared_charset_wins_over_heuristics() {
    // 0x80 is the euro sign in windows-1252
    let b = [0x80u8, 0x41];
    assert_eq!(choose_encoding(&SJIS_HELLO, "text/html; charset=euc-jp"), EncodingChoice::EucJp);
    assert_eq!(resolve_and_decode(&b, "text/plain; charset=windows-1252"), "€A");
}
