use imap_codec::framer::{
    Action, ImapServerCodec, ImapServerCodecError, LineKind, LiteralKind, Outcome,
};

#[test]
fn find_crlf_inclusive() {
    let tests: Vec<(&[u8], usize, Result<Option<usize>, LineKind>)> = vec![
        (b"A\r".as_ref(), 0, Ok(None)),
        (b"A\r\n", 0, Ok(Some(3))),
        (b"A\n", 0, Err(LineKind::NotCrLf)),
        (b"\n", 0, Err(LineKind::NotCrLf)),
        (b"aaa\r\nA\r".as_ref(), 5, Ok(None)),
        (b"aaa\r\nA\r\n", 5, Ok(Some(3))),
        (b"aaa\r\nA\n", 5, Err(LineKind::NotCrLf)),
        (b"aaa\r\n\n", 5, Err(LineKind::NotCrLf)),
    ];

    for (test, skip, expected) in tests {
        let bytes: Vec<u8> = test.to_vec();

        let got = ImapServerCodec::find_crlf_inclusive(skip, &bytes);

        assert_eq!(expected, got);
    }
}

#[test]
fn decoder_line() {
    // The framer hands out each complete CRLF line as one command frame;
    // the grammar parser that would turn it into a typed command (or
    // reject it) is outside the library.
    let tests: Vec<(&[u8], Result<Option<Outcome>, ImapServerCodecError>)> = vec![
        (b"".as_ref(), Ok(None)),
        (b"a noop", Ok(None)),
        (b"\r", Ok(None)),
        (b"\n", Ok(Some(Outcome::Command(b"a noop\r\n".to_vec())))),
        (b"", Ok(None)),
        (b"xxxx", Ok(None)),
        (b"\r\n", Ok(Some(Outcome::Command(b"xxxx\r\n".to_vec())))),
    ];

    let mut src: Vec<u8> = Vec::new();
    let mut codec = ImapServerCodec::new(1024);

    for (test, expected) in tests {
        src.extend_from_slice(test);
        let got = codec.decode(&mut src);

        assert_eq!(expected, got);
    }
}

#[test]
fn decoder_literal() {
    let tests: Vec<(&[u8], Result<Option<Outcome>, ImapServerCodecError>)> = vec![
        (b"".as_ref(), Ok(None)),
        (b"a login", Ok(None)),
        (b" {", Ok(None)),
        (b"5", Ok(None)),
        (b"}", Ok(None)),
        (
            b"\r\n",
            Ok(Some(Outcome::ActionRequired(Action::SendLiteralAck(5)))),
        ),
        (b"a", Ok(None)),
        (b"l", Ok(None)),
        (b"i", Ok(None)),
        (b"ce", Ok(None)),
        (b" ", Ok(None)),
        (
            b"password\r\n",
            Ok(Some(Outcome::Command(b"a login {5}\r\nalice password\r\n".to_vec()))),
        ),
    ];

    let mut src: Vec<u8> = Vec::new();
    let mut codec = ImapServerCodec::new(1024);

    for (test, expected) in tests {
        src.extend_from_slice(test);
        let got = codec.decode(&mut src);

        assert_eq!(expected, got);
    }
}

#[test]
fn decoder_error() {
    let tests: Vec<(&[u8], Result<Option<Outcome>, ImapServerCodecError>)> = vec![
        (b"xxx\r\n".as_ref(), Ok(Some(Outcome::Command(b"xxx\r\n".to_vec())))),
        (b"a noop\r\n", Ok(Some(Outcome::Command(b"a noop\r\n".to_vec())))),
    ];

    let mut src: Vec<u8> = Vec::new();
    let mut codec = ImapServerCodec::new(1024);

    for (test, expected) in tests {
        src.extend_from_slice(test);
        let got = codec.decode(&mut src);

        assert_eq!(expected, got);
    }
}

#[test]
fn decoder_rejects_bare_lf() {
    let mut src: Vec<u8> = b"a\n".to_vec();
    let mut codec = ImapServerCodec::new(1024);
    let got = codec.decode(&mut src);
    assert_eq!(got, Err(ImapServerCodecError::Line(LineKind::NotCrLf)));
    assert!(src.is_empty());
}

#[test]
fn decoder_rejects_oversized_literal() {
    let mut src: Vec<u8> = b"a login {999999}\r\n".to_vec();
    let mut codec = ImapServerCodec::new(1024);
    let got = codec.decode(&mut src);
    assert_eq!(
        got,
        Ok(Some(Outcome::ActionRequired(Action::SendLiteralReject(999999))))
    );
    // The line is consumed; the next command starts fresh.
    assert!(src.is_empty());
    src.extend_from_slice(b"a noop\r\n");
    assert_eq!(
        codec.decode(&mut src),
        Ok(Some(Outcome::Command(b"a noop\r\n".to_vec())))
    );
}

#[test]
fn decoder_literal_announcement_errors() {
    let mut src: Vec<u8> = b"a login {x}\r\n".to_vec();
    let mut codec = ImapServerCodec::new(1024);
    assert_eq!(
        codec.decode(&mut src),
        Err(ImapServerCodecError::Literal(LiteralKind::BadNumber))
    );
    assert!(src.is_empty());

    let mut src2: Vec<u8> = b"}\r\n".to_vec();
    let mut codec2 = ImapServerCodec::new(1024);
    assert_eq!(
        codec2.decode(&mut src2),
        Err(ImapServerCodecError::Literal(LiteralKind::NoOpeningBrace))
    );
    assert!(src2.is_empty());
}

#[test]
fn decoder_keeps_buffer_on_none() {
    let mut src: Vec<u8> = b"a partial line".to_vec();
    let mut codec = ImapServerCodec::new(1024);
    assert_eq!(codec.decode(&mut src), Ok(None));
    assert_eq!(src, b"a partial line".to_vec());
}

#[test]
fn decoder_zero_length_literal() {
    let mut src: Vec<u8> = b"a login {0}\r\n\r\n".to_vec();
    let mut codec = ImapServerCodec::new(1024);
    assert_eq!(
        codec.decode(&mut src),
        Ok(Some(Outcome::ActionRequired(Action::SendLiteralAck(0))))
    );
    assert_eq!(
        codec.decode(&mut src),
        Ok(Some(Outcome::Command(b"a login {0}\r\n\r\n".to_vec())))
    );
}
