use mxsend::resolve_message;

#[test]
fn test_resolve_message_from_arg() {
    let result = resolve_message(Some("hello".into()), &mut "".as_bytes(), true);
    assert_eq!(result.unwrap(), "hello");
}

#[test]
fn test_resolve_message_from_reader() {
    let result = resolve_message(None, &mut "piped message".as_bytes(), false);
    assert_eq!(result.unwrap(), "piped message");
}

#[test]
fn test_resolve_message_multiline() {
    let result = resolve_message(None, &mut "line one\nline two\n".as_bytes(), false);
    assert_eq!(result.unwrap(), "line one\nline two");
}

#[test]
fn test_resolve_message_fails_when_terminal_without_arg() {
    let result = resolve_message(None, &mut "".as_bytes(), true);
    assert!(result.is_err());
    assert!(result.unwrap_err().contains("No message provided"));
}

#[test]
fn test_resolve_message_fails_when_reader_empty() {
    let result = resolve_message(None, &mut "".as_bytes(), false);
    assert!(result.is_err());
    assert!(result.unwrap_err().contains("No message provided"));
}

#[test]
fn test_resolve_message_fails_when_reader_whitespace_only() {
    let result = resolve_message(None, &mut "   \n  \n  ".as_bytes(), false);
    assert!(result.is_err());
    assert!(result.unwrap_err().contains("No message provided"));
}

#[test]
fn test_resolve_message_empty_arg_falls_through_to_reader() {
    let result = resolve_message(Some("".into()), &mut "from stdin".as_bytes(), false);
    assert_eq!(result.unwrap(), "from stdin");
}

#[test]
fn argument_is_kept_verbatim_without_trimming() {
    let result = resolve_message(Some("  padded  ".into()), &mut "ignored".as_bytes(), false);
    assert_eq!(result.unwrap(), "  padded  ");
}

#[test]
fn argument_wins_over_terminal_and_reader() {
    let result = resolve_message(Some("arg".into()), &mut "piped".as_bytes(), false);
    assert_eq!(result.unwrap(), "arg");
}

#[test]
fn terminal_without_argument_gives_exact_error() {
    let result = resolve_message(Some(String::new()), &mut "piped".as_bytes(), true);
    assert_eq!(
        result.unwrap_err(),
        "No message provided. Pass as an argument or pipe input via stdin."
    );
}

#[test]
fn invalid_utf8_input_is_a_read_error() {
    let bytes: &[u8] = &[0x66, 0xff, 0xfe];
    let mut reader = bytes;
    let result = resolve_message(None, &mut reader, false);
    assert!(result.unwrap_err().starts_with("Error reading stdin: "));
}

#[test]
fn read_failure_is_prefixed() {
    let result = mxsend::message_from_read(Err("boom".to_string()));
    assert_eq!(result.unwrap_err(), "Error reading stdin: boom");
}

#[test]
fn unicode_whitespace_is_trimmed() {
    let result = mxsend::message_from_read(Ok("\u{3000}\u{a0} héllo wörld \u{2029}\t".to_string()));
    assert_eq!(result.unwrap(), "héllo wörld");
}

#[test]
fn inner_whitespace_is_kept() {
    let result = mxsend::message_from_read(Ok("\n a \n\n b \n".to_string()));
    assert_eq!(result.unwrap(), "a \n\n b");
}

#[test]
fn piped_message_is_stable_when_fed_back() {
    let first = mxsend::message_from_read(Ok("  \t status: ok \n".to_string())).unwrap();
    let second = mxsend::message_from_read(Ok(first.clone())).unwrap();
    assert_eq!(first, "status: ok");
    assert_eq!(second, first);
}

#[test]
fn trim_agrees_with_std_on_ascii_and_unicode() {
    for text in ["", " ", "x", " x ", "\u{85}x\u{1680}", "\u{200b}x\u{200b}", "\r\n x y \r\n"] {
        let expected = text.trim();
        let got = mxsend::text::trim_whitespace(text);
        assert_eq!(got, expected, "input {:?}", text);
    }
}
