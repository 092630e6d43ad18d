use imap_codec::auth::{AuthMechanism, AuthenticateData};
use imap_codec::body::{BasicFields, Body, BodyStructure, Disposition, SinglePartExtensionData, SpecificFields};
use imap_codec::command::{Command, CommandBody};
use imap_codec::extensions::QuotaRoot;
use imap_codec::datetime::{DateTime, NaiveDate};
use imap_codec::fetch::{Macro, MacroOrMessageDataItemNames, Part};
use imap_codec::imapstr::{AString, IString, Literal, Quoted};
use imap_codec::imapstr::NString;
use imap_codec::mailbox::Mailbox;
use imap_codec::envelope::{Address, Envelope};
use imap_codec::response::{Code, Continue, Data, Greeting, GreetingKind, MessageDataItem, Response, Status};
use imap_codec::search::SearchKey;
use imap_codec::status_items::StatusDataItemName;
use imap_codec::encode::{Encode, EncodeContext, Encoder, Fragment, LiteralMode};
use imap_codec::flag::Flag;
use imap_codec::imapstr::{Atom, AtomExt, Tag, Text};
use imap_codec::secret::Secret;
use imap_codec::sequence::{SeqOrUid, Sequence, SequenceSet};
use imap_codec::status_items::StatusDataItem;

#[test]
fn atom_rejects_bad_bytes() {
    assert!(Atom::from_bytes(b"ok.atom").is_ok());
    assert!(Atom::from_bytes(b"").is_err());
    assert!(Atom::from_bytes(b"has space").is_err());
    assert!(Atom::from_bytes(b"par(en").is_err());
    assert!(AtomExt::from_bytes(b"br]acket").is_ok());
    assert!(Tag::from_bytes(b"a+b").is_err());
    assert!(Tag::from_bytes(b"A1").is_ok());
    assert!(Text::from_bytes(b"line\r\n").is_err());
}

#[test]
fn atom_encodes_raw() {
    let atom = Atom::from_bytes(b"NOOP").unwrap();
    let out = atom.encode().dump();
    assert_eq!(out, b"NOOP".to_vec());
}

#[test]
fn fragments_concatenate_to_dump() {
    // One value encoded twice gives the same bytes (determinism), and the
    // fragment payloads concatenate to exactly the dump.
    let atom = Atom::from_bytes(b"CHECK").unwrap();
    let once = atom.encode().dump();
    let twice = atom.encode().dump();
    assert_eq!(once, twice);

    let mut enc = atom.encode();
    let mut cat: Vec<u8> = Vec::new();
    while let Some(f) = enc.next() {
        match f {
            Fragment::Line { data } => cat.extend_from_slice(&data),
            Fragment::Literal { data, .. } => cat.extend_from_slice(&data),
        }
    }
    assert_eq!(cat, once);
}

#[test]
fn context_splits_at_literals() {
    let mut ctx = EncodeContext::new();
    ctx.write_bytes(b"A LOGIN alice {2}\r\n");
    ctx.push_line();
    ctx.write_bytes(b"\xCA\xFE");
    ctx.push_literal(LiteralMode::Sync);
    ctx.write_bytes(b"\r\n");
    let items = ctx.into_items();
    assert_eq!(
        items,
        vec![
            Fragment::Line { data: b"A LOGIN alice {2}\r\n".to_vec() },
            Fragment::Literal { data: b"\xCA\xFE".to_vec(), mode: LiteralMode::Sync },
            Fragment::Line { data: b"\r\n".to_vec() },
        ]
    );
}

#[test]
fn context_dump_is_fragment_concatenation() {
    let mut ctx = EncodeContext::new();
    ctx.write_bytes(b"* 12345 FETCH (BODY[] {5}\r\n");
    ctx.push_line();
    ctx.write_bytes(b"ABCDE");
    ctx.push_literal(LiteralMode::NonSync);
    ctx.write_bytes(b")\r\n");
    let out = ctx.dump();
    assert_eq!(out, b"* 12345 FETCH (BODY[] {5}\r\nABCDE)\r\n".to_vec());
}

#[test]
fn authenticate_data_is_base64_with_crlf() {
    let data = AuthenticateData(Secret::new(b"\x00alice\x00pass".to_vec()));
    let out = data.encode().dump();
    assert_eq!(out, b"AGFsaWNlAHBhc3M=\r\n".to_vec());
}

#[test]
fn auth_mechanism_names() {
    assert_eq!(AuthMechanism::Plain.encode().dump(), b"PLAIN".to_vec());
    assert_eq!(AuthMechanism::Login.encode().dump(), b"LOGIN".to_vec());
}

#[test]
fn sequence_set_is_comma_joined() {
    let set = SequenceSet::new(vec![
        Sequence::Single(SeqOrUid::Value(1)),
        Sequence::Range(SeqOrUid::Value(2), SeqOrUid::Value(4)),
        Sequence::Single(SeqOrUid::Asterisk),
    ])
    .unwrap();
    assert_eq!(set.encode().dump(), b"1,2:4,*".to_vec());

    // Construction validates: no empty set, no zero anywhere.
    assert!(SequenceSet::new(vec![]).is_err());
    assert!(SequenceSet::new(vec![Sequence::Single(SeqOrUid::Value(0))]).is_err());
    assert!(
        SequenceSet::new(vec![Sequence::Range(SeqOrUid::Value(0), SeqOrUid::Asterisk)]).is_err()
    );
    assert!(Part::new(vec![]).is_err());
    assert!(Part::new(vec![1, 0]).is_err());
    let part = Part::new(vec![4, 1, 2]).unwrap();
    assert_eq!(part.encode().dump(), b"4.1.2".to_vec());
}

#[test]
fn flags_encode_with_backslash() {
    assert_eq!(Flag::Seen.encode().dump(), b"\\Seen".to_vec());
    let kw = Flag::Keyword(Atom::from_bytes(b"custom").unwrap());
    assert_eq!(kw.encode().dump(), b"custom".to_vec());
}

#[test]
fn status_item_carries_value() {
    assert_eq!(StatusDataItem::Messages(231).encode().dump(), b"MESSAGES 231".to_vec());
    assert_eq!(StatusDataItem::UidNext(44292).encode().dump(), b"UIDNEXT 44292".to_vec());
}

#[test]
fn test_api_encoder_usage() {
    let cmd = Command::new(
        Tag::from_bytes(b"A").unwrap(),
        CommandBody::Login {
            username: AString::String(IString::Literal(Literal::new(
                b"alice".to_vec(),
                LiteralMode::NonSync,
            ))),
            password: Secret::new(AString::Atom(AtomExt::from_bytes(b"password").unwrap())),
        },
    );

    // Dump.
    let got_encoded = cmd.encode().dump();

    // Encoding.
    let mut encoder = cmd.encode();

    let mut out = Vec::new();

    while let Some(x) = encoder.next() {
        match x {
            Fragment::Line { data } => {
                println!("C: {:?}", data);
                out.extend_from_slice(&data);
            }
            Fragment::Literal { data, mode } => {
                match mode {
                    LiteralMode::Sync => println!("C: <Waiting for continuation request>"),
                    LiteralMode::NonSync => println!("C: <Skipped continuation request>"),
                }

                println!("C: {:?}", data);
                out.extend_from_slice(&data);
            }
        }
    }

    assert_eq!(got_encoded, out);
}

fn collect_fragments(mut enc: imap_codec::encode::Encoded) -> Vec<Fragment> {
    let mut out = Vec::new();
    while let Some(f) = enc.next() {
        out.push(f);
    }
    out
}

#[test]
fn test_encode_command() {
    let atom_astring = |b: &[u8]| AString::Atom(AtomExt::from_bytes(b).unwrap());
    let tests: Vec<(Command, Vec<Fragment>)> = vec![
        (
            Command::new(
                Tag::from_bytes(b"A").unwrap(),
                CommandBody::Login {
                    username: atom_astring(b"alice"),
                    password: Secret::new(atom_astring(b"pass")),
                },
            ),
            vec![Fragment::Line { data: b"A LOGIN alice pass\r\n".to_vec() }],
        ),
        (
            Command::new(
                Tag::from_bytes(b"A").unwrap(),
                CommandBody::Login {
                    username: atom_astring(b"alice"),
                    password: Secret::new(AString::String(IString::Literal(Literal::new(
                        b"\xCA\xFE".to_vec(),
                        LiteralMode::Sync,
                    )))),
                },
            ),
            vec![
                Fragment::Line { data: b"A LOGIN alice {2}\r\n".to_vec() },
                Fragment::Literal { data: b"\xCA\xFE".to_vec(), mode: LiteralMode::Sync },
                Fragment::Line { data: b"\r\n".to_vec() },
            ],
        ),
        (
            Command::new(
                Tag::from_bytes(b"A").unwrap(),
                CommandBody::Authenticate {
                    mechanism: AuthMechanism::Login,
                    initial_response: None,
                },
            ),
            vec![Fragment::Line { data: b"A AUTHENTICATE LOGIN\r\n".to_vec() }],
        ),
        (
            Command::new(
                Tag::from_bytes(b"A").unwrap(),
                CommandBody::Authenticate {
                    mechanism: AuthMechanism::Login,
                    initial_response: Some(Secret::new(b"alice".to_vec())),
                },
            ),
            vec![Fragment::Line { data: b"A AUTHENTICATE LOGIN YWxpY2U=\r\n".to_vec() }],
        ),
        (
            Command::new(
                Tag::from_bytes(b"A").unwrap(),
                CommandBody::Authenticate {
                    mechanism: AuthMechanism::Plain,
                    initial_response: None,
                },
            ),
            vec![Fragment::Line { data: b"A AUTHENTICATE PLAIN\r\n".to_vec() }],
        ),
        (
            Command::new(
                Tag::from_bytes(b"A").unwrap(),
                CommandBody::Authenticate {
                    mechanism: AuthMechanism::Plain,
                    initial_response: Some(Secret::new(b"\x00alice\x00pass".to_vec())),
                },
            ),
            vec![Fragment::Line { data: b"A AUTHENTICATE PLAIN AGFsaWNlAHBhc3M=\r\n".to_vec() }],
        ),
    ];

    for (cmd, expected) in tests {
        let got = collect_fragments(cmd.encode());
        assert_eq!(expected, got);
    }
}

#[test]
fn test_encode_response() {
    let tests: Vec<(Response, Vec<Fragment>)> = vec![
        (
            Response::Data(Data::Fetch {
                seq: 12345,
                items: vec![MessageDataItem::BodyExt {
                    section: None,
                    origin: None,
                    data: NString(Some(IString::Literal(Literal::new(
                        b"ABCDE".to_vec(),
                        LiteralMode::Sync,
                    )))),
                }],
            }),
            vec![
                Fragment::Line { data: b"* 12345 FETCH (BODY[] {5}\r\n".to_vec() },
                Fragment::Literal { data: b"ABCDE".to_vec(), mode: LiteralMode::Sync },
                Fragment::Line { data: b")\r\n".to_vec() },
            ],
        ),
        (
            Response::Data(Data::Fetch {
                seq: 12345,
                items: vec![MessageDataItem::BodyExt {
                    section: None,
                    origin: None,
                    data: NString(Some(IString::Literal(Literal::new(
                        b"ABCDE".to_vec(),
                        LiteralMode::NonSync,
                    )))),
                }],
            }),
            vec![
                Fragment::Line { data: b"* 12345 FETCH (BODY[] {5+}\r\n".to_vec() },
                Fragment::Literal { data: b"ABCDE".to_vec(), mode: LiteralMode::NonSync },
                Fragment::Line { data: b")\r\n".to_vec() },
            ],
        ),
    ];

    for (rsp, expected) in tests {
        let got = collect_fragments(rsp.encode());
        assert_eq!(expected, got);
    }
}

#[test]
fn command_encodings() {
    let tag = || Tag::from_bytes(b"a").unwrap();
    assert_eq!(
        Command::new(tag(), CommandBody::Noop).encode().dump(),
        b"a NOOP\r\n".to_vec()
    );
    assert_eq!(
        Command::new(
            tag(),
            CommandBody::Select { mailbox: Mailbox::Inbox },
        )
        .encode()
        .dump(),
        b"a SELECT INBOX\r\n".to_vec()
    );
    let mbx = Mailbox::from_astring(AString::Atom(AtomExt::from_bytes(b"Sent").unwrap()));
    assert_eq!(
        Command::new(
            tag(),
            CommandBody::Status {
                mailbox: mbx,
                item_names: vec![StatusDataItemName::Messages, StatusDataItemName::Unseen],
            },
        )
        .encode()
        .dump(),
        b"a STATUS Sent (MESSAGES UNSEEN)\r\n".to_vec()
    );
    assert_eq!(
        Command::new(
            tag(),
            CommandBody::Fetch {
                sequence_set: SequenceSet::new(vec![Sequence::Range(
                    SeqOrUid::Value(1),
                    SeqOrUid::Asterisk,
                )])
                .unwrap(),
                macro_or_item_names: MacroOrMessageDataItemNames::Macro(Macro::Fast),
                uid: true,
            },
        )
        .encode()
        .dump(),
        b"a UID FETCH 1:* FAST\r\n".to_vec()
    );
    assert_eq!(
        Command::new(
            tag(),
            CommandBody::Search {
                charset: None,
                criteria: SearchKey::And(vec![
                    SearchKey::Unseen,
                    SearchKey::Larger(1024),
                ]),
                uid: false,
            },
        )
        .encode()
        .dump(),
        b"a SEARCH (UNSEEN LARGER 1024)\r\n".to_vec()
    );
}

#[test]
fn response_encodings() {
    assert_eq!(
        Response::Status(Status::Okay {
            tag: Some(Tag::from_bytes(b"a").unwrap()),
            code: None,
            text: Text::from_bytes(b"Completed").unwrap(),
        })
        .encode()
        .dump(),
        b"a OK Completed\r\n".to_vec()
    );
    assert_eq!(
        Response::Status(Status::Bad {
            tag: None,
            code: Some(Code::TryCreate),
            text: Text::from_bytes(b"No such mailbox").unwrap(),
        })
        .encode()
        .dump(),
        b"* BAD [TRYCREATE] No such mailbox\r\n".to_vec()
    );
    assert_eq!(
        Response::Data(Data::Search(vec![])).encode().dump(),
        b"* SEARCH\r\n".to_vec()
    );
    assert_eq!(
        Response::Data(Data::Search(vec![2, 3, 7])).encode().dump(),
        b"* SEARCH 2 3 7\r\n".to_vec()
    );
    assert_eq!(
        Response::Data(Data::Exists(23)).encode().dump(),
        b"* 23 EXISTS\r\n".to_vec()
    );
    let greeting = Greeting {
        kind: GreetingKind::Okay,
        code: None,
        text: Text::from_bytes(b"IMAP4rev1 Service Ready").unwrap(),
    };
    assert_eq!(greeting.encode().dump(), b"* OK IMAP4rev1 Service Ready\r\n".to_vec());
    assert_eq!(
        Response::Continue(Continue::Base64(b"".to_vec())).encode().dump(),
        b"+ \r\n".to_vec()
    );
    let quoted = Quoted::from_bytes(b"say \"hi\"").unwrap();
    assert_eq!(quoted.encode().dump(), b"\"say \\\"hi\\\"\"".to_vec());
    let env = Envelope {
        date: NString(None),
        subject: NString(Some(IString::Quoted(Quoted::from_bytes(b"Hello").unwrap()))),
        from: vec![Address {
            name: NString(None),
            adl: NString(None),
            mailbox: NString(Some(IString::Quoted(Quoted::from_bytes(b"alice").unwrap()))),
            host: NString(Some(IString::Quoted(Quoted::from_bytes(b"example.org").unwrap()))),
        }],
        sender: vec![],
        reply_to: vec![],
        to: vec![],
        cc: vec![],
        bcc: vec![],
        in_reply_to: NString(None),
        message_id: NString(None),
    };
    assert_eq!(
        env.encode().dump(),
        b"(NIL \"Hello\" ((NIL NIL \"alice\" \"example.org\")) NIL NIL NIL NIL NIL NIL NIL)"
            .to_vec()
    );
}

#[test]
fn date_encodings() {
    let date = NaiveDate::new(2023, 2, 1).unwrap();
    assert_eq!(date.encode().dump(), b"\"01-Feb-2023\"".to_vec());
    let dt = DateTime::new(date, 12, 34, 56, false, 1, 30).unwrap();
    assert_eq!(dt.encode().dump(), b"\"01-Feb-2023 12:34:56 +0130\"".to_vec());
    assert!(NaiveDate::new(2023, 2, 29).is_err());
}

#[test]
fn body_structure_encodings() {
    let quoted = |b: &[u8]| IString::Quoted(Quoted::from_bytes(b).unwrap());
    let text_body = BodyStructure::Single {
        body: Body {
            basic: BasicFields {
                parameter_list: vec![(quoted(b"CHARSET"), quoted(b"UTF-8"))],
                id: NString(None),
                description: NString(None),
                content_transfer_encoding: quoted(b"7BIT"),
                size: 42,
            },
            specific: SpecificFields::Text { subtype: quoted(b"PLAIN"), number_of_lines: 2 },
        },
        extension_data: None,
    };
    assert_eq!(
        text_body.encode().dump(),
        b"(\"TEXT\" \"PLAIN\" (\"CHARSET\" \"UTF-8\") NIL NIL \"7BIT\" 42 2)".to_vec()
    );

    let inner = BodyStructure::Single {
        body: Body {
            basic: BasicFields {
                parameter_list: vec![],
                id: NString(None),
                description: NString(None),
                content_transfer_encoding: quoted(b"BASE64"),
                size: 7,
            },
            specific: SpecificFields::Basic {
                media_type: quoted(b"IMAGE"),
                subtype: quoted(b"PNG"),
            },
        },
        extension_data: Some(SinglePartExtensionData {
            md5: NString(None),
            tail: Some(Disposition {
                disposition: Some((quoted(b"INLINE"), vec![])),
                tail: None,
            }),
        }),
    };
    let multi = BodyStructure::Multi {
        bodies: vec![inner],
        subtype: quoted(b"MIXED"),
        extension_data: None,
    };
    assert_eq!(
        multi.encode().dump(),
        b"((\"IMAGE\" \"PNG\" NIL NIL NIL \"BASE64\" 7 NIL (\"INLINE\" NIL)) \"MIXED\")"
            .to_vec()
    );

    let fetch = Response::Data(Data::Fetch {
        seq: 3,
        items: vec![MessageDataItem::BodyStructure(text_body)],
    });
    assert_eq!(
        fetch.encode().dump(),
        b"* 3 FETCH (BODYSTRUCTURE (\"TEXT\" \"PLAIN\" (\"CHARSET\" \"UTF-8\") NIL NIL \"7BIT\" 42 2))\r\n"
            .to_vec()
    );
}

#[test]
fn quota_root_data_encoding() {
    let root = |b: &[u8]| QuotaRoot(AString::Atom(AtomExt::from_bytes(b).unwrap()));
    let rsp = Response::Data(Data::QuotaRoot {
        mailbox: Mailbox::Inbox,
        roots: vec![root(b"first"), root(b"second")],
    });
    assert_eq!(rsp.encode().dump(), b"* QUOTAROOT INBOX first second\r\n".to_vec());

    let none = Response::Data(Data::QuotaRoot { mailbox: Mailbox::Inbox, roots: vec![] });
    assert_eq!(none.encode().dump(), b"* QUOTAROOT INBOX\r\n".to_vec());
}
