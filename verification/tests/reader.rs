use vcard::card::VCard;
use vcard::errors::{IoFailure, VCardError};
use vcard::model::VersionValue;
use vcard::parameter::ValueDataType;
use vcard::property::Property;
use vcard::reader::{LineInspection, PushbackReader, VCardReader};
use vcard::records::{
    Adr, BDay, Email, Note, Org, ProdId, ProprietaryProperty, Rev, Tel, Uid, VcardURL, Version, FN,
    N,
};
use vcard::uri::Uri;

const NEW_LINE: &[u8] =
    b"BEGIN:VCARD\r\nVERSION:3.0\r\nFN:Heinrich vom Tosafjord\r\n asdfsadfasdf\r\nEND:VCARD\r\n";

fn apple_icloud(upper: bool) -> Vec<u8> {
    let (abadr, ablabel) = if upper {
        ("X-ABADR", "X-ABLABEL")
    } else {
        ("x-abadr", "x-ablabel")
    };
    let lines = vec![
        "BEGIN:VCARD".to_string(),
        "VERSION:3.0".to_string(),
        "N:vom Tosafjord;Heinrich;;;".to_string(),
        "FN:Heinrich vom Tosafjord".to_string(),
        "ORG:Richter GBR;".to_string(),
        "BDAY;VALUE=date:2017-01-03".to_string(),
        "NOTE:ist eine Katze".to_string(),
        "item1.ADR;TYPE=HOME;TYPE=pref:;;am Katzenklo;Katzenhausen;;23456;Germany".to_string(),
        format!("item1.{}:de", abadr),
        "TEL;TYPE=CELL;TYPE=pref;TYPE=VOICE:017610101520".to_string(),
        "item2.URL;TYPE=pref:https://www.example.com/heinrich".to_string(),
        format!("item2.{}:_$!<HomePage>!$_", ablabel),
        "EMAIL;TYPE=HOME;TYPE=pref;TYPE=INTERNET:heinrich@tosafjord.com".to_string(),
        "PRODID:-//Apple Inc.//iCloud Web Address Book 2117B3//EN".to_string(),
        "REV:2021-09-23T05:51:29Z".to_string(),
        "END:VCARD".to_string(),
    ];
    let mut out = Vec::new();
    for l in lines {
        out.extend_from_slice(l.as_bytes());
        out.extend_from_slice(b"\r\n");
    }
    out
}

fn check_multi_line() {
    let testant = NEW_LINE.to_vec();

    let mut reader = VCardReader::new(&testant[..]);

    let expected = vec![
        Property::Begin {
            value: "VCARD".into(),
        },
        Property::Version(Version {
            value: VersionValue::V3,
        }),
        Property::FN(FN {
            group: None,
            altid: None,
            value_data_type: None,
            type_param: None,
            language: None,
            pref: None,
            value: "Heinrich vom Tosafjordasdfsadfasdf".into(),
        }),
        Property::End {
            value: "VCARD".into(),
        },
    ];

    for expected_property in expected.iter() {
        let (actual_property, _more) = reader.read_property().unwrap();
        assert_eq!(expected_property, &actual_property);
    }
    let mut reader = VCardReader::new_with_logical_line_limit(&testant[..], 36);
    for _i in [0; 2] {
        reader.read_property().unwrap();
    }

    let result = reader.read_property();

    if let Ok(_p) = result {
        panic!("expected MaxLineLengthExceeded error");
    }
}

fn check_apple_icloud_format(upper: bool) {
    let testant = apple_icloud(upper);
    let mut reader = VCardReader::new(&testant[..]);
    let (abadr, ablabel) = if upper {
        ("X-ABADR", "X-ABLABEL")
    } else {
        ("x-abadr", "x-ablabel")
    };

    let expected = vec![
        Property::Begin {
            value: "VCARD".into(),
        },
        Property::Version(Version {
            value: VersionValue::V3,
        }),
        Property::N(N {
            altid: None,
            sort_as: None,
            language: None,
            group: None,
            surenames: vec!["vom Tosafjord".into()],
            given_names: vec!["Heinrich".into()],
            additional_names: Vec::new(),
            honorific_prefixes: Vec::new(),
            honorific_suffixes: Vec::new(),
        }),
        Property::FN(FN {
            group: None,
            altid: None,
            value_data_type: None,
            type_param: None,
            language: None,
            pref: None,
            value: "Heinrich vom Tosafjord".into(),
        }),
        Property::Org(Org {
            sort_as: None,
            pid: None,
            group: None,
            altid: None,
            value_data_type: None,
            type_param: None,
            language: None,
            pref: None,
            value: vec!["Richter GBR".into()],
        }),
        Property::BDay(BDay {
            altid: None,
            calscale: None,
            value_data_type: Some(ValueDataType::Date),
            language: None,
            value: "2017-01-03".into(),
        }),
        Property::Note(Note {
            pid: None,
            group: None,
            altid: None,
            value_data_type: None,
            type_param: None,
            language: None,
            pref: None,
            value: "ist eine Katze".into(),
        }),
        Property::Adr(Adr {
            group: Some("item1".into()),
            city: vec!["Katzenhausen".into()],
            street: vec!["am Katzenklo".into()],
            type_param: Some(vec!["HOME".into(), "pref".into()]),
            altid: None,
            label: None,
            language: None,
            geo: None,
            tz: None,
            pid: None,
            pref: None,
            value_data_type: None,
            po_box: Vec::new(),
            extended_address: Vec::new(),
            postal_code: vec!["23456".into()],
            country: vec!["Germany".into()],
            region: Vec::new(),
        }),
        Property::Proprietary(ProprietaryProperty {
            name: abadr.into(),
            group: Some("item1".into()),
            value: "de".into(),
            parameters: Vec::new(),
        }),
        Property::Tel(Tel {
            type_param: Some(vec!["CELL".into(), "pref".into(), "VOICE".into()]),
            value_data_type: None,
            pid: None,
            pref: None,
            altid: None,
            value: "017610101520".into(),
        }),
        Property::Url(VcardURL {
            group: Some("item2".into()),
            type_param: Some(vec!["pref".into()]),
            value: Uri::parse("https://www.example.com/heinrich").unwrap(),
            altid: None,
            pid: None,
            pref: None,
            value_data_type: None,
            mediatype: None,
        }),
        Property::Proprietary(ProprietaryProperty {
            name: ablabel.into(),
            group: Some("item2".into()),
            value: "_$!<HomePage>!$_".into(),
            parameters: Vec::new(),
        }),
        Property::Email(Email {
            group: None,
            type_param: Some(vec!["HOME".into(), "pref".into(), "INTERNET".into()]),
            pid: None,
            altid: None,
            pref: None,
            value_data_type: None,
            value: "heinrich@tosafjord.com".into(),
        }),
        Property::ProdId(ProdId {
            group: None,
            value: "-//Apple Inc.//iCloud Web Address Book 2117B3//EN".into(),
        }),
        Property::Rev(Rev {
            group: None,
            value: "2021-09-23T05:51:29Z".into(),
        }),
        Property::End {
            value: "VCARD".into(),
        },
    ];

    for expected_prop in expected {
        let prop = match reader.read_property() {
            Ok((p, _more)) => p,
            Err(e) => {
                panic!("expected prop {:#?} but got error {:?}", expected_prop, e);
            }
        };
        assert_eq!(expected_prop, prop);
    }
}

#[test]
fn reader_test_multi_line() {
    check_multi_line();
}

#[test]
fn lib_test_multi_line() {
    check_multi_line();
}

#[test]
fn reader_test_apple_icloud_format() {
    check_apple_icloud_format(true);
}

#[test]
fn lib_test_apple_icloud_format() {
    check_apple_icloud_format(false);
}

#[test]
fn unfolded_line_decodes_and_fails_at_the_limit() {
    let input =
        b"BEGIN:VCARD\r\nVERSION:3.0\r\nFN:Heinrich vom Tosafjordasdfsadfasdf\r\nEND:VCARD\r\n";
    let mut reader = VCardReader::new(&input[..]);
    assert_eq!(
        reader.read_property().unwrap(),
        (
            Property::Begin {
                value: "VCARD".into()
            },
            true
        )
    );
    assert_eq!(
        reader.read_property().unwrap(),
        (
            Property::Version(Version {
                value: VersionValue::V3
            }),
            true
        )
    );
    assert_eq!(
        reader.read_property().unwrap(),
        (
            Property::FN(FN {
                value: "Heinrich vom Tosafjordasdfsadfasdf".into(),
                ..Default::default()
            }),
            true
        )
    );
    assert_eq!(
        reader.read_property().unwrap(),
        (
            Property::End {
                value: "VCARD".into()
            },
            false
        )
    );
    let mut reader = VCardReader::new_with_logical_line_limit(&input[..], 36);
    reader.read_property().unwrap();
    reader.read_property().unwrap();
    assert_eq!(
        reader.read_property(),
        Err(VCardError::MaxLineLengthExceeded(36))
    );
}

#[test]
fn length_limit_is_exact() {
    // the line "FN:abcdefg" holds 10 bytes
    let input = b"FN:abcdefg\r\nEND:VCARD\r\n";
    let mut at = VCardReader::new_with_logical_line_limit(&input[..], 10);
    assert_eq!(
        at.read_logical_line(),
        Ok(("FN:abcdefg".to_string(), true))
    );
    let mut below = VCardReader::new_with_logical_line_limit(&input[..], 9);
    assert_eq!(
        below.read_logical_line(),
        Err(VCardError::MaxLineLengthExceeded(9))
    );
    // a folded line counts as one line
    let folded = b"FN:abc\r\n defg\r\nEND:VCARD\r\n";
    let mut at = VCardReader::new_with_logical_line_limit(&folded[..], 10);
    assert_eq!(
        at.read_logical_line(),
        Ok(("FN:abcdefg".to_string(), true))
    );
    let mut below = VCardReader::new_with_logical_line_limit(&folded[..], 9);
    assert_eq!(
        below.read_logical_line(),
        Err(VCardError::MaxLineLengthExceeded(9))
    );
}

#[test]
fn folding_with_spaces_and_tabs() {
    let plain = b"NOTE:ist eine Katze\r\nEND:VCARD\r\n";
    let folded = b"NOTE:i\r\n st ei\r\n\tne Ka\r\n tze\r\nEND:VCARD\r\n";
    let mut a = VCardReader::new(&plain[..]);
    let mut b = VCardReader::new(&folded[..]);
    let pa = a.read_property().unwrap();
    let pb = b.read_property().unwrap();
    assert_eq!(pa, pb);
    assert_eq!(a.read_property().unwrap(), b.read_property().unwrap());
}

#[test]
fn malformed_continuation_is_thrown_away() {
    let input = b"NOTE:abc\r\n  thrown away\r\n def\r\n\t\r\nEND:VCARD";
    let mut r = VCardReader::new(&input[..]);
    assert_eq!(r.read_logical_line(), Ok(("NOTE:abcdef".to_string(), true)));
    assert_eq!(r.read_logical_line(), Ok(("END:VCARD".to_string(), false)));
}

#[test]
fn missing_line_break_is_tolerated_only_at_the_end_line() {
    let mut r = VCardReader::new(&b"END:VCARD"[..]);
    assert_eq!(r.read_logical_line(), Ok(("END:VCARD".to_string(), false)));
    let mut r = VCardReader::new(&b"NOTE:abc"[..]);
    assert_eq!(
        r.read_logical_line(),
        Err(VCardError::Io(IoFailure::UnexpectedEof))
    );
    let mut r = VCardReader::new(&b""[..]);
    assert_eq!(
        r.read_logical_line(),
        Err(VCardError::Io(IoFailure::UnexpectedEof))
    );
    let mut r = VCardReader::new(&b"NOTE:abc\r"[..]);
    assert_eq!(
        r.read_logical_line(),
        Err(VCardError::Io(IoFailure::UnexpectedEof))
    );
}

#[test]
fn lone_carriage_return_is_dropped() {
    let mut r = VCardReader::new(&b"NOTE:a\rbc\r\nX"[..]);
    assert_eq!(r.read_logical_line(), Ok(("NOTE:abc".to_string(), false)));
}

#[test]
fn invalid_utf8_is_an_encoding_error() {
    let mut r = VCardReader::new(&b"NOTE:\xff\xfe\r\nEND:VCARD\r\n"[..]);
    match r.read_logical_line() {
        Err(VCardError::FromUTF8Error(_)) => {}
        other => panic!("expected an encoding error, got {:?}", other),
    }
    let mut r = VCardReader::new(&"NOTE:k\u{e4}tzchen\r\nEND:VCARD\r\n".as_bytes()[..]);
    assert_eq!(
        r.read_logical_line(),
        Ok(("NOTE:k\u{e4}tzchen".to_string(), true))
    );
}

#[test]
fn inspect_next_line_tells_the_four_cases() {
    let mut r = VCardReader::new(&b"X"[..]);
    assert_eq!(r.inspect_next_line(), LineInspection::NoMoreContent);
    let mut r = VCardReader::new(&b"FN:a\r\n"[..]);
    assert_eq!(r.inspect_next_line(), LineInspection::NewProperty);
    let mut buf = Vec::new();
    r.read_physical_line(&mut buf).unwrap();
    assert_eq!(buf, b"FN:a".to_vec());
    let mut r = VCardReader::new(&b" \tx\r\n"[..]);
    assert_eq!(r.inspect_next_line(), LineInspection::Discard);
    r.discard_line().unwrap();
    assert_eq!(r.inspect_next_line(), LineInspection::NoMoreContent);
    let mut r = VCardReader::new(&b"\tab\r\n"[..]);
    assert_eq!(r.inspect_next_line(), LineInspection::LogicalLine);
    let mut buf = Vec::new();
    r.read_physical_line(&mut buf).unwrap();
    assert_eq!(buf, b"ab".to_vec());
}

#[test]
fn thrown_away_lines_do_not_count_against_the_limit() {
    let input = b"NOTE:a\r\n  12345\r\n  67890\r\n b\r\nEND:VCARD\r\n";
    let mut r = VCardReader::new_with_logical_line_limit(&input[..], 7);
    assert_eq!(r.read_logical_line(), Ok(("NOTE:ab".to_string(), true)));
    assert_eq!(
        r.read_logical_line(),
        Err(VCardError::MaxLineLengthExceeded(7))
    );
    let mut r = VCardReader::new_with_logical_line_limit(&input[..], 6);
    assert_eq!(
        r.read_logical_line(),
        Err(VCardError::MaxLineLengthExceeded(6))
    );
    // a thrown-away line far longer than the limit and than the scratch buffer
    let mut long = b"NOTE:a\r\n  ".to_vec();
    long.extend(std::iter::repeat(b'x').take(5000));
    long.extend_from_slice(b"\r\n b\r\nEND:VCARD\r\n");
    let mut r = VCardReader::new_with_logical_line_limit(&long[..], 9);
    assert_eq!(r.read_logical_line(), Ok(("NOTE:ab".to_string(), true)));
    assert_eq!(r.read_logical_line(), Ok(("END:VCARD".to_string(), false)));
    // the source ends inside a thrown-away line
    let mut r = VCardReader::new(&b"NOTE:a\r\n  junk"[..]);
    assert_eq!(
        r.read_logical_line(),
        Err(VCardError::Io(IoFailure::UnexpectedEof))
    );
}

#[test]
fn line_break_after_a_lone_carriage_return_ends_the_line() {
    let mut r = VCardReader::new(&b"A\r\r\nB\r\n"[..]);
    assert_eq!(r.read_logical_line(), Ok(("A".to_string(), true)));
    assert_eq!(r.read_logical_line(), Ok(("B".to_string(), false)));
    let mut r = VCardReader::new(&b"NOTE:a\r\r\r\n x\ry\r\r\nEND:VCARD"[..]);
    assert_eq!(r.read_logical_line(), Ok(("NOTE:axy".to_string(), true)));
    assert_eq!(r.read_logical_line(), Ok(("END:VCARD".to_string(), false)));
    let mut r = VCardReader::new(&b"NOTE:a\r\r"[..]);
    assert_eq!(
        r.read_logical_line(),
        Err(VCardError::Io(IoFailure::UnexpectedEof))
    );
    let mut buf = Vec::new();
    let mut r = VCardReader::new(&b"a\rb\r\r\nc"[..]);
    r.read_physical_line(&mut buf).unwrap();
    assert_eq!(buf, b"ab".to_vec());
}

#[test]
fn pushback_reader_hands_returned_bytes_out_first() {
    let mut p = PushbackReader::new(b"cdef".to_vec());
    p.return_bytes([b'a', b'b']);
    assert_eq!(p.read(1), vec![b'a']);
    assert_eq!(p.read(5), vec![b'b']);
    assert_eq!(p.read(2), vec![b'c', b'd']);
    p.return_byte(b'x');
    p.return_byte(b'y');
    p.return_byte(b'z');
    assert_eq!(p.read_exact(3), Ok(vec![b'z', b'e', b'f']));
    assert_eq!(
        p.read_exact(1),
        Err(VCardError::Io(IoFailure::UnexpectedEof))
    );
    assert_eq!(p.read(4), Vec::<u8>::new());
    let mut p = PushbackReader::new(b"c".to_vec());
    p.return_byte(b'a');
    p.return_byte(b'b');
    assert_eq!(p.read_exact(2), Ok(vec![b'a', b'b']));
    assert_eq!(p.read_exact(0), Ok(vec![]));
    assert_eq!(
        p.read_exact(2),
        Err(VCardError::Io(IoFailure::UnexpectedEof))
    );
    assert_eq!(p.read(1), Vec::<u8>::new());
}

fn card(lines: &[&str]) -> Result<VCard, VCardError> {
    let mut bytes = Vec::new();
    for l in lines {
        bytes.extend_from_slice(l.as_bytes());
        bytes.extend_from_slice(b"\r\n");
    }
    VCardReader::new(&bytes[..]).parse_vcard()
}

#[test]
fn parse_vcard_builds_the_card() {
    let input = apple_icloud(true);
    let mut reader = VCardReader::new(&input[..]);
    let card = reader.parse_vcard().unwrap();
    assert_eq!(card.version.value, VersionValue::V3);
    assert_eq!(card.n.values().len(), 1);
    assert_eq!(card.n.values()[0].given_names, vec!["Heinrich".to_string()]);
    assert_eq!(card.fn_property.values().len(), 1);
    assert_eq!(
        card.fn_property.values()[0].values()[0].value,
        "Heinrich vom Tosafjord"
    );
    assert_eq!(card.proprietary_properties.len(), 2);
    assert_eq!(card.proprietary_properties[0].name, "X-ABADR");
    assert_eq!(card.proprietary_properties[1].name, "X-ABLABEL");
    assert_eq!(
        card.prodid,
        Some(ProdId {
            group: None,
            value: "-//Apple Inc.//iCloud Web Address Book 2117B3//EN".into()
        })
    );
    assert_eq!(card.bday.values()[0].value, "2017-01-03");
    assert_eq!(card.uid, None);
    assert_eq!(
        card.url.values()[0].values()[0].value.as_str(),
        "https://www.example.com/heinrich"
    );
}

#[test]
fn parse_vcard_tolerates_a_missing_last_line_break() {
    let mut reader = VCardReader::new(&b"BEGIN:VCARD\r\nVERSION:4.0\r\nFN:a\r\nEND:VCARD"[..]);
    let card = reader.parse_vcard().unwrap();
    assert_eq!(card.version.value, VersionValue::V4);
}

#[test]
fn parse_vcard_structural_errors() {
    assert_eq!(
        card(&["VERSION:4.0", "END:VCARD"]),
        Err(VCardError::InvalidBeginProperty)
    );
    assert_eq!(
        card(&["BEGIN:VCALENDAR", "VERSION:4.0", "END:VCARD"]),
        Err(VCardError::InvalidBeginProperty)
    );
    assert_eq!(card(&["BEGIN:VCARD"]), Err(VCardError::InvalidVersionProperty));
    assert_eq!(
        card(&["BEGIN:VCARD", "FN:a", "END:VCARD"]),
        Err(VCardError::InvalidVersionProperty)
    );
    assert_eq!(
        card(&["BEGIN:VCARD", "VERSION:4.0"]),
        Err(VCardError::InvalidEndProperty)
    );
    assert_eq!(
        card(&["BEGIN:VCARD", "VERSION:4.0", "END:VCALENDAR"]),
        Err(VCardError::InvalidEndProperty)
    );
    assert_eq!(
        card(&["BEGIN:VCARD", "VERSION:4.0", "END:VCARD", "FN:a"]),
        Err(VCardError::InvalidEndProperty)
    );
    assert_eq!(
        card(&["BEGIN:VCARD", "VERSION:4.0", "FN:a"]),
        Err(VCardError::Io(IoFailure::UnexpectedEof))
    );
    assert_eq!(
        card(&["BEGIN:VCARD", "VERSION:5.0", "END:VCARD"]),
        Err(VCardError::InvalidVersion("5.0".into()))
    );
}

#[test]
fn parse_vcard_cardinality_errors() {
    assert_eq!(
        card(&["BEGIN:VCARD", "VERSION:4.0", "UID:1", "UID:2", "END:VCARD"]),
        Err(VCardError::InvalidCardinality {
            expected: 1,
            property: "uid".into()
        })
    );
    assert_eq!(
        card(&["BEGIN:VCARD", "VERSION:4.0", "VERSION:4.0", "END:VCARD"]),
        Err(VCardError::InvalidCardinality {
            expected: 1,
            property: "VERSION".into()
        })
    );
    assert_eq!(
        card(&["BEGIN:VCARD", "VERSION:4.0", "BEGIN:VCARD", "END:VCARD"]),
        Err(VCardError::InvalidCardinality {
            expected: 1,
            property: "BEGIN".into()
        })
    );
    for (line, name) in [
        ("KIND:org", "kind"),
        ("GENDER:m;", "gender"),
        ("PRODID:x", "prodid"),
        ("REV:x", "rev"),
        ("CLIENTPIDMAP:1;urn:uuid:abc", "clientpidmap"),
    ] {
        assert_eq!(
            card(&["BEGIN:VCARD", "VERSION:4.0", line, line, "END:VCARD"]),
            Err(VCardError::InvalidCardinality {
                expected: 1,
                property: name.into()
            })
        );
    }
}

#[test]
fn parse_vcard_alt_id_mismatch() {
    assert_eq!(
        card(&[
            "BEGIN:VCARD",
            "VERSION:4.0",
            "N;ALTID=1:a;b;;;",
            "N;ALTID=2:c;d;;;",
            "END:VCARD"
        ]),
        Err(VCardError::InvalidAltID {
            expected_altid: "1".into(),
            actual_altid: "2".into()
        })
    );
    assert_eq!(
        card(&["BEGIN:VCARD", "VERSION:4.0", "BDAY:1", "BDAY;ALTID=x:2", "END:VCARD"]),
        Err(VCardError::InvalidAltID {
            expected_altid: "".into(),
            actual_altid: "x".into()
        })
    );
    let ok = card(&[
        "BEGIN:VCARD",
        "VERSION:4.0",
        "N;ALTID=1:a;b;;;",
        "N;ALTID=1:c;d;;;",
        "TEL;ALTID=1:1",
        "TEL;ALTID=2:2",
        "TEL:3",
        "TEL;ALTID=1:4",
        "UID:u",
        "END:VCARD",
    ])
    .unwrap();
    assert_eq!(ok.n.values().len(), 2);
    assert_eq!(ok.n.values()[1].surenames, vec!["c".to_string()]);
    let tel = ok.tel.values();
    assert_eq!(tel.len(), 3);
    assert_eq!(tel[0].values().len(), 2);
    assert_eq!(tel[0].values()[1].value, "4");
    assert_eq!(tel[2].values()[0].value, "3");
    assert_eq!(
        ok.uid,
        Some(Uid {
            group: None,
            value_data_type: None,
            value: "u".into()
        })
    );
}

#[test]
fn reader_stops_behind_the_failing_line() {
    let input = b"BEGIN:VCARD\r\nVERSION:4.0\r\nBOGUS:1\r\nEND:VCARD\r\nBEGIN:VCARD\r\nVERSION:3.0\r\nEND:VCARD\r\n";
    let mut reader = VCardReader::new(&input[..]);
    match reader.parse_vcard() {
        Err(VCardError::InvalidName { actual_name, raw_line }) => {
            assert_eq!(actual_name, "BOGUS");
            assert_eq!(raw_line, "BOGUS:1");
        }
        other => panic!("expected an invalid name, got {:?}", other),
    }
    assert_eq!(
        reader.read_property().unwrap(),
        (
            Property::End {
                value: "VCARD".into()
            },
            true
        )
    );
    let next = reader.parse_vcard().unwrap();
    assert_eq!(next.version.value, VersionValue::V3);
    assert_eq!(reader.into_rest(), Vec::<u8>::new());
    let mut reader = VCardReader::new(&input[..]);
    assert!(reader.parse_vcard().is_err());
    assert_eq!(reader.into_rest(), input[35..].to_vec());
    let mut p = PushbackReader::new(b"cd".to_vec());
    p.return_bytes([b'a', b'b']);
    assert_eq!(p.read(1), vec![b'a']);
    assert_eq!(p.into_rest(), b"bcd".to_vec());
}
