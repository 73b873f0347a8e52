use vcard::errors::{UrlParseReason, VCardError};
use vcard::grammar::{parse_parameters, split_unescaped, tokenize, LineTokens};
use vcard::model::{KindValue, Sex, VersionValue};
use vcard::parameter::{Parameter, Pid, ValueDataType};
use vcard::property::{
    component_at, demux_params, keyword_of, parse_version, ParamSet, Property,
};
use vcard::model::PropertyKind;
use vcard::records::{
    Adr, Anniversary, Categories, ClientPidMap, Gender, Impp, Key, Kind, Nickname, Org,
    ProprietaryProperty, Source, Tel, Version, Xml, FN, N,
};
use vcard::text::{escaped_split, filter_and_transform, keep_non_empty};
use vcard::uri::Uri;

fn by_pattern(re: &regex::Regex, line: &str) -> Option<LineTokens> {
    let captures = re.captures(line)?;
    Some(LineTokens {
        group: captures
            .name("group")
            .map(|m| m.as_str().trim_end_matches(".").to_string()),
        name: captures
            .name("name")
            .map(|m| m.as_str().trim_matches(char::from(0)).to_string())
            .unwrap(),
        params: captures.name("parameter").map(|m| m.as_str().to_string()),
        // the pattern ends the value at a line feed; the value is all that follows the colon
        value: captures
            .name("value")
            .map(|m| line[m.start()..].to_string())
            .unwrap(),
    })
}

#[test]
fn tokenizer_agrees_with_the_line_pattern() {
    let re = regex::Regex::new(
        r"(?P<group>[^;:]+\.)?(?P<name>[^;:]+)(?P<parameter>;[^:]+)*:(?P<value>.*)",
    )
    .unwrap();
    let lines = [
        "BEGIN:VCARD",
        "FN:Heinrich vom Tosafjord",
        "item1.ADR;TYPE=HOME;TYPE=pref:;;am Katzenklo;Katzenhausen;;23456;Germany",
        "item2.URL;TYPE=pref:https://www.example.com/heinrich",
        "EMAIL:",
        ":",
        "",
        "a",
        "a:",
        ":a",
        ";a:b",
        "a;:b",
        "a;b",
        "a;b:",
        "a;b:c:d",
        "a.b.c:d",
        "a.:d",
        ".a:d",
        "..a:d",
        "a..b:d",
        "a...:d",
        "...:d",
        ".:d",
        "a.b;c.d:e.f",
        "foo;:bar;x=1:v",
        "foo;:bar:v",
        "foo;;x=1:v",
        "foo;:::",
        "NOTE:line\nfeed",
        "NOTE;X=a\nb:line\nfeed:more",
        "NO\nTE:value",
        "\nNOTE:value",
        "\0FN\0:value",
        "\0\0:value",
        "g.\0N\0\0:v",
        "TEL;TYPE=\"a:b\":c",
        "GENDER:;",
        "x;y;z",
        ";;;:::",
        "a:b;c",
        "\u{e4}.\u{f6};\u{fc}=\u{df}:\u{20ac}",
        "a.b:c.d",
        "a:.;",
        "item1.X-ABADR:de",
        "a;b:\n",
        "a;\n:b",
        "  :x",
        "a b.c d;e f:g h",
    ];
    for line in lines {
        assert_eq!(tokenize(line), by_pattern(&re, line), "line {:?}", line);
    }
    // every line over a small alphabet, up to six characters
    let alphabet = ['a', '.', ';', ':', '\n', '\0'];
    let mut stack: Vec<String> = vec![String::new()];
    let mut count = 0;
    while let Some(line) = stack.pop() {
        assert_eq!(tokenize(&line), by_pattern(&re, &line), "line {:?}", line);
        count += 1;
        if line.chars().count() < 6 {
            for c in alphabet {
                let mut next = line.clone();
                next.push(c);
                stack.push(next);
            }
        }
    }
    assert_eq!(count, 1 + 6 + 36 + 216 + 1296 + 7776 + 46656);
}

#[test]
fn tokenizer_passes_over_escaped_marks() {
    assert_eq!(
        tokenize("TEL;X=a\\:b;Y=c\\;d:1:2"),
        Some(LineTokens {
            group: None,
            name: "TEL".into(),
            params: Some(";X=a\\:b;Y=c\\;d".into()),
            value: "1:2".into(),
        })
    );
    assert_eq!(
        tokenize("item\\.1.NOTE:x"),
        Some(LineTokens {
            group: Some("item\\.1".into()),
            name: "NOTE".into(),
            params: None,
            value: "x".into(),
        })
    );
    assert_eq!(
        tokenize("item\\.NOTE:x"),
        Some(LineTokens {
            group: None,
            name: "item\\.NOTE".into(),
            params: None,
            value: "x".into(),
        })
    );
    assert_eq!(
        tokenize("a\\\\;b=1:v"),
        Some(LineTokens {
            group: None,
            name: "a\\\\".into(),
            params: Some(";b=1".into()),
            value: "v".into(),
        })
    );
    assert_eq!(tokenize("a\\:b"), None);
    assert_eq!(tokenize("a:b\\"), Some(LineTokens {
        group: None,
        name: "a".into(),
        params: None,
        value: "b\\".into(),
    }));
    assert_eq!(tokenize("a\\"), None);
    assert_eq!(
        tokenize("NOTE:line\nfeed"),
        Some(LineTokens {
            group: None,
            name: "NOTE".into(),
            params: None,
            value: "line\nfeed".into(),
        })
    );
}

#[test]
fn tokenizer_finds_the_four_parts() {
    assert_eq!(
        tokenize("item1.ADR;TYPE=HOME;TYPE=pref:;;street"),
        Some(LineTokens {
            group: Some("item1".into()),
            name: "ADR".into(),
            params: Some(";TYPE=HOME;TYPE=pref".into()),
            value: ";;street".into(),
        })
    );
    assert_eq!(
        tokenize("FN:a:b"),
        Some(LineTokens {
            group: None,
            name: "FN".into(),
            params: None,
            value: "a:b".into(),
        })
    );
    assert_eq!(tokenize("no colon"), None);
}

#[test]
fn scenario_gender() {
    assert_eq!(
        Property::from_str("GENDER:;"),
        Ok(Property::Gender(Gender {
            sex: None,
            identity_component: Some("".into())
        }))
    );
    assert_eq!(
        Property::from_str("GENDER:m;trans"),
        Ok(Property::Gender(Gender {
            sex: Some(Sex::Male),
            identity_component: Some("trans".into())
        }))
    );
    assert_eq!(
        Property::from_str("GENDER:F;a;b"),
        Ok(Property::Gender(Gender {
            sex: Some(Sex::Female),
            identity_component: Some("a;b".into())
        }))
    );
    assert_eq!(
        Property::from_str("gender:n;"),
        Ok(Property::Gender(Gender {
            sex: Some(Sex::NotApplicable),
            identity_component: Some("".into())
        }))
    );
    assert_eq!(
        Property::from_str("GENDER:m"),
        Err(VCardError::InvalidSyntax {
            message: "gender property must include a semicolon (;)".into(),
            property: "Gender".into()
        })
    );
    assert_eq!(
        Property::from_str("GENDER:x;"),
        Err(VCardError::InvalidGenderError("x".into()))
    );
    assert_eq!(Sex::from_str("O"), Ok(Sex::Other));
    assert_eq!(Sex::from_str("u"), Ok(Sex::Unknown));
    assert_eq!(
        Sex::from_str("mm"),
        Err(VCardError::InvalidGenderError("mm".into()))
    );
}

#[test]
fn scenario_client_pid_map() {
    match Property::from_str("CLIENTPIDMAP:1;urn:uuid:abc") {
        Ok(Property::ClientPidMap(ClientPidMap {
            group,
            pid_digit,
            value,
        })) => {
            assert_eq!(group, None);
            assert_eq!(pid_digit, 1);
            assert_eq!(value, Uri::parse("urn:uuid:abc").unwrap());
            assert_eq!(value.as_str(), "urn:uuid:abc");
        }
        other => panic!("unexpected {:?}", other),
    }
    assert_eq!(
        Property::from_str("CLIENTPIDMAP:1"),
        Err(VCardError::InvalidLine {
            reason: "expected clientpidmap value to have two parts separated by ';'".into(),
            raw_line: "1".into()
        })
    );
    match Property::from_str("CLIENTPIDMAP:x;urn:uuid:abc") {
        Err(VCardError::ParseIntError(_)) => {}
        other => panic!("unexpected {:?}", other),
    }
    match Property::from_str("CLIENTPIDMAP:256;urn:uuid:abc") {
        Err(VCardError::ParseIntError(_)) => {}
        other => panic!("unexpected {:?}", other),
    }
    match Property::from_str("CLIENTPIDMAP:1;not a uri") {
        Err(VCardError::UrlParseError {
            raw_url,
            original_error,
        }) => {
            assert_eq!(raw_url, "not a uri");
            assert_eq!(original_error, UrlParseReason::RelativeUrlWithoutBase);
        }
        other => panic!("unexpected {:?}", other),
    }
}

#[test]
fn version_values() {
    assert_eq!(
        Property::from_str("VERSION:3.0"),
        Ok(Property::Version(Version {
            value: VersionValue::V3
        }))
    );
    assert_eq!(
        Property::from_str("version:4.0"),
        Ok(Property::Version(Version {
            value: VersionValue::V4
        }))
    );
    assert_eq!(
        Property::from_str("VERSION:2.1"),
        Err(VCardError::InvalidVersion("2.1".into()))
    );
    assert_eq!(parse_version("4.0".into()), Ok(VersionValue::V4));
    assert_eq!(
        parse_version("".into()),
        Err(VCardError::InvalidVersion("".into()))
    );
}

#[test]
fn begin_and_end_carry_their_tag() {
    assert_eq!(
        Property::from_str("BEGIN:VCARD"),
        Ok(Property::Begin {
            value: "VCARD".into()
        })
    );
    assert_eq!(
        Property::from_str("End:whatever"),
        Ok(Property::End {
            value: "whatever".into()
        })
    );
}

#[test]
fn names_are_matched_without_regard_to_case() {
    assert_eq!(keyword_of(&"fn".chars().collect()), Some(PropertyKind::FN));
    assert_eq!(keyword_of(&"FN".chars().collect()), None);
    assert_eq!(
        keyword_of(&"clientpidmap".chars().collect()),
        Some(PropertyKind::ClientPidMap)
    );
    assert_eq!(keyword_of(&"x-abadr".chars().collect()), None);
    assert_eq!(
        Property::from_str("item1.AdR:a"),
        Property::from_str("item1.ADR:a")
    );
    assert_eq!(
        Property::from_str("Fn:x"),
        Ok(Property::FN(FN {
            value: "x".into(),
            ..Default::default()
        }))
    );
    assert_eq!(
        Property::from_str("KIND:Org"),
        Ok(Property::Kind(Kind {
            group: None,
            value: KindValue::Org
        }))
    );
    assert_eq!(
        Property::from_str("KIND:device"),
        Ok(Property::Kind(Kind {
            group: None,
            value: KindValue::Proprietary("device".into())
        }))
    );
    // letters outside ASCII are lowered by the rules of Unicode: the Kelvin sign is a K
    assert_eq!(
        Property::from_str("\u{212A}IND:org"),
        Ok(Property::Kind(Kind {
            group: None,
            value: KindValue::Org
        }))
    );
    assert_eq!(
        Property::from_str("\u{212A}EY:a"),
        Property::from_str("KEY:a")
    );
    assert_eq!(
        Property::from_str("\u{c4}:a"),
        Err(VCardError::InvalidName {
            actual_name: "\u{c4}".into(),
            raw_line: "\u{c4}:a".into()
        })
    );
    assert_eq!(
        Property::from_str("\u{c4}.FN;LANGUAGE=de:\u{c4}"),
        Ok(Property::FN(FN {
            group: Some("\u{c4}".into()),
            language: Some("de".into()),
            value: "\u{c4}".into(),
            ..Default::default()
        }))
    );
    assert_eq!(KindValue::from_str("GROUP"), Ok(KindValue::Group));
    assert_eq!(KindValue::from_str("Location"), Ok(KindValue::Location));
    assert_eq!(KindValue::from_str("individual"), Ok(KindValue::Individual));
}

#[test]
fn unknown_names_must_be_extensions() {
    assert_eq!(
        Property::from_str("grp.FOO;A=b:bar"),
        Err(VCardError::InvalidName {
            actual_name: "FOO".into(),
            raw_line: "grp.FOO;A=b:bar".into()
        })
    );
    assert_eq!(
        Property::from_str("no colon at all"),
        Err(VCardError::InvalidLine {
            reason: "does not match property pattern".into(),
            raw_line: "no colon at all".into()
        })
    );
    assert_eq!(
        Property::from_str("grp.x-foo:bar"),
        Ok(Property::Proprietary(ProprietaryProperty {
            name: "x-foo".into(),
            group: Some("grp".into()),
            value: "bar".into(),
            parameters: vec![],
        }))
    );
}

#[test]
fn extension_property_keeps_every_parameter() {
    let line = "X-A;LANGUAGE=de;X-P=1;VALUE=text;PREF=2;TYPE=a,b;LABEL=l;CALSCALE=c;SORT-AS=s,t;GEO=g;TZ=z;MEDIATYPE=m;PID=1.2;ALTID=9;TYPE=c;FOO=bar:v";
    assert_eq!(
        Property::from_str(line),
        Ok(Property::Proprietary(ProprietaryProperty {
            name: "X-A".into(),
            group: None,
            value: "v".into(),
            parameters: vec![
                Parameter::Proprietary("1".into()),
                Parameter::Proprietary("l".into()),
                Parameter::Proprietary("bar".into()),
                Parameter::AltId("9".into()),
                Parameter::Pid(Pid {
                    first_digit: 1,
                    second_digit: Some(2)
                }),
                Parameter::MediaType("m".into()),
                Parameter::TimeZone("z".into()),
                Parameter::Geo("g".into()),
                Parameter::SortAs(vec!["s".into(), "t".into()]),
                Parameter::CalScale("c".into()),
                Parameter::Type(vec!["a".into(), "b".into(), "c".into()]),
                Parameter::Pref(2),
                Parameter::Language("de".into()),
                Parameter::Value(ValueDataType::Text),
            ],
        }))
    );
}

#[test]
fn standard_property_rejects_a_parameter_it_does_not_declare() {
    assert_eq!(
        Property::from_str("FN;GEO=geo:1,2:x"),
        Err(VCardError::UnknownParameter("GEO".into()))
    );
    assert_eq!(
        Property::from_str("BEGIN;ALTID=1:VCARD"),
        Err(VCardError::UnknownParameter("ALTID".into()))
    );
    assert_eq!(
        Property::from_str("TEL;TZ=z;LANGUAGE=de;CALSCALE=c:1"),
        Err(VCardError::UnknownParameter("LANGUAGE".into()))
    );
    assert_eq!(
        Property::from_str("UID;SORT-AS=a;MEDIATYPE=m:1"),
        Err(VCardError::UnknownParameter("MEDIATYPE".into()))
    );
    // a parameter with an unknown key is passed over
    assert_eq!(
        Property::from_str("TEL;X-FOO=1;ENCODING=b:1"),
        Ok(Property::Tel(Tel {
            value: "1".into(),
            ..Default::default()
        }))
    );
    // the group of a property without one is passed over
    assert_eq!(
        Property::from_str("g.TEL:1"),
        Ok(Property::Tel(Tel {
            value: "1".into(),
            ..Default::default()
        }))
    );
    let mut set = ParamSet::new();
    set.add(Parameter::Label("l".into()));
    assert_eq!(
        Property::from_parts(PropertyKind::FN, None, set, "x".into()),
        Err(VCardError::UnknownParameter("LABEL".into()))
    );
}

#[test]
fn structured_values() {
    assert_eq!(
        Property::from_str("N;SORT-AS=a,b;LANGUAGE=de;ALTID=1:Public;John,Jack;Quinlan\\;x\\,y,Q;Mr.;Esq.,,PhD;extra"),
        Ok(Property::N(N {
            altid: Some("1".into()),
            language: Some("de".into()),
            sort_as: Some(vec!["a".into(), "b".into()]),
            group: None,
            surenames: vec!["Public".into()],
            given_names: vec!["John".into(), "Jack".into()],
            additional_names: vec!["Quinlan;x,y".into(), "Q".into()],
            honorific_prefixes: vec!["Mr.".into()],
            honorific_suffixes: vec!["Esq.".into(), "PhD".into()],
        }))
    );
    assert_eq!(
        Property::from_str("N:only"),
        Ok(Property::N(N {
            surenames: vec!["only".into()],
            ..Default::default()
        }))
    );
    assert_eq!(Property::from_str("N:"), Ok(Property::N(N::default())));
    match Property::from_str("ADR;LABEL=x:a;b;c;d;e;f;g") {
        Ok(Property::Adr(Adr {
            label,
            po_box,
            country,
            ..
        })) => {
            assert_eq!(label, None);
            assert_eq!(po_box, vec!["a".to_string()]);
            assert_eq!(country, vec!["g".to_string()]);
        }
        other => panic!("unexpected {:?}", other),
    }
    let positions = split_unescaped("a\\;b;c,d;\\", ';');
    assert_eq!(positions, vec!["a\\;b".to_string(), "c,d".into(), "\\".into()]);
    assert_eq!(component_at(&positions, 0), vec!["a;b".to_string()]);
    assert_eq!(component_at(&positions, 1), vec!["c".to_string(), "d".into()]);
    assert_eq!(component_at(&positions, 2), Vec::<String>::new());
    assert_eq!(component_at(&positions, 3), Vec::<String>::new());
}

#[test]
fn list_values() {
    assert_eq!(
        Property::from_str("ORG:ABC\\, Inc.;North American Division;;Marketing"),
        Ok(Property::Org(Org {
            group: None,
            altid: None,
            pid: None,
            pref: None,
            value_data_type: None,
            type_param: None,
            language: None,
            sort_as: None,
            value: vec![
                "ABC, Inc.".into(),
                "North American Division".into(),
                "Marketing".into()
            ],
        }))
    );
    assert_eq!(
        Property::from_str("CATEGORIES:a,,b;c"),
        Ok(Property::Categories(Categories {
            group: None,
            altid: None,
            pid: None,
            pref: None,
            value_data_type: None,
            type_param: None,
            value: vec!["a".into(), "b;c".into()],
        }))
    );
    assert_eq!(
        Property::from_str("NICKNAME:a,,b"),
        Ok(Property::NickName(Nickname {
            group: None,
            altid: None,
            value_data_type: None,
            type_param: None,
            language: None,
            pref: None,
            pid: None,
            value: vec!["a".into(), "b".into()],
        }))
    );
    assert_eq!(
        escaped_split("a\\,b,c\\\\,d\\", ','),
        vec!["a,b".to_string(), "c\\".into(), "d".into()]
    );
    assert_eq!(escaped_split("", ','), vec!["".to_string()]);
    assert_eq!(filter_and_transform(""), None);
    assert_eq!(filter_and_transform("a"), Some("a".to_string()));
    assert_eq!(
        keep_non_empty(vec!["".into(), "a".into(), "".into(), "b".into()]),
        vec!["a".to_string(), "b".into()]
    );
}

#[test]
fn uri_values() {
    match Property::from_str("SOURCE;MEDIATYPE=text/vcard:HTTP://Example.COM/a b") {
        Ok(Property::Source(Source {
            mediatype, value, ..
        })) => {
            assert_eq!(mediatype, Some("text/vcard".into()));
            assert_eq!(value.as_str(), "http://example.com/a%20b");
        }
        other => panic!("unexpected {:?}", other),
    }
    match Property::from_str("IMPP;PREF=1:xmpp:alice@example.com") {
        Ok(Property::Impp(Impp { pref, value, .. })) => {
            assert_eq!(pref, Some(1));
            assert_eq!(value.as_str(), "xmpp:alice@example.com");
        }
        other => panic!("unexpected {:?}", other),
    }
    for name in [
        "SOURCE", "PHOTO", "IMPP", "GEO", "MEMBER", "LOGO", "SOUND", "URL", "FBURL", "CALURI",
        "CALADURI",
    ] {
        match Property::from_str(&format!("{}:relative/path", name)) {
            Err(VCardError::UrlParseError { raw_url, .. }) => assert_eq!(raw_url, "relative/path"),
            other => panic!("unexpected {:?} for {}", other, name),
        }
        assert!(Property::from_str(&format!("{}:https://example.com/", name)).is_ok());
    }
    match Uri::parse("http://[::1") {
        Err(VCardError::UrlParseError {
            raw_url,
            original_error,
        }) => {
            assert_eq!(raw_url, "http://[::1");
            assert_eq!(original_error, UrlParseReason::InvalidIpv6Address);
        }
        other => panic!("unexpected {:?}", other),
    }
    assert_eq!(
        Uri::from_parsed("x", Ok("http://example.com/".to_string()))
            .unwrap()
            .as_str(),
        "http://example.com/"
    );
    assert_eq!(
        Uri::from_parsed("x", Err(UrlParseReason::EmptyHost)),
        Err(VCardError::UrlParseError {
            raw_url: "x".into(),
            original_error: UrlParseReason::EmptyHost
        })
    );
    // text-valued properties take anything
    assert_eq!(
        Property::from_str("KEY:relative/path"),
        Ok(Property::Key(Key {
            group: None,
            altid: None,
            pid: None,
            pref: None,
            value_data_type: None,
            type_param: None,
            mediatype: None,
            value: "relative/path".into(),
        }))
    );
}

#[test]
fn parameter_decoding() {
    assert_eq!(
        Parameter::from_str("LANGUAGE=de"),
        Ok(Parameter::Language("de".into()))
    );
    assert_eq!(Parameter::from_str("pref=1"), Ok(Parameter::Pref(1)));
    assert_eq!(Parameter::from_str("Pref=+255"), Ok(Parameter::Pref(255)));
    assert_eq!(Parameter::from_str("PREF=007"), Ok(Parameter::Pref(7)));
    for bad in ["PREF=", "PREF=256", "PREF=-1", "PREF=1 ", "PREF=+", "PREF=a", "PREF=1_0"] {
        match Parameter::from_str(bad) {
            Err(VCardError::ParseIntError(_)) => {}
            other => panic!("unexpected {:?} for {}", other, bad),
        }
    }
    assert_eq!(
        Parameter::from_str("ALTID=a=b"),
        Ok(Parameter::AltId("a=b".into()))
    );
    assert_eq!(
        Parameter::from_str("PID=1"),
        Ok(Parameter::Pid(Pid {
            first_digit: 1,
            second_digit: None
        }))
    );
    assert_eq!(
        Parameter::from_str("PID=12.200"),
        Ok(Parameter::Pid(Pid {
            first_digit: 12,
            second_digit: Some(200)
        }))
    );
    for bad in ["1.2.3", "", "a", "1.", ".1", "1.b", "300", "1.300"] {
        assert_eq!(
            Parameter::from_str(&format!("PID={}", bad)),
            Err(VCardError::InvalidPID {
                provided: bad.into()
            })
        );
    }
    assert_eq!(
        Parameter::from_str("VALUE=date-time"),
        Ok(Parameter::Value(ValueDataType::DateTime))
    );
    assert_eq!(
        Parameter::from_str("VALUE=DATE"),
        Err(VCardError::UnknownType {
            given_type: "DATE".into()
        })
    );
    assert_eq!(
        Parameter::from_str("VALUE=X-mine"),
        Ok(Parameter::Value(ValueDataType::Proprietary("X-mine".into())))
    );
    assert_eq!(
        Parameter::from_str("TYPE=a,,b"),
        Ok(Parameter::Type(vec!["a".into(), "".into(), "b".into()]))
    );
    assert_eq!(
        Parameter::from_str("SORT-AS=\"a,b\""),
        Ok(Parameter::SortAs(vec!["\"a".into(), "b\"".into()]))
    );
    assert_eq!(
        Parameter::from_str("mediatype=a/b"),
        Ok(Parameter::MediaType("a/b".into()))
    );
    assert_eq!(
        Parameter::from_str("CALSCALE=gregorian"),
        Ok(Parameter::CalScale("gregorian".into()))
    );
    assert_eq!(Parameter::from_str("GEO=g"), Ok(Parameter::Geo("g".into())));
    assert_eq!(Parameter::from_str("TZ="), Ok(Parameter::TimeZone("".into())));
    assert_eq!(
        Parameter::from_str("LABEL=l"),
        Ok(Parameter::Proprietary("l".into()))
    );
    assert_eq!(
        Parameter::from_str("novalue"),
        Err(VCardError::InvalidLine {
            reason: "parameter has no = sign".into(),
            raw_line: "novalue".into()
        })
    );
    for (token, t) in [
        ("uri", ValueDataType::Uri),
        ("text", ValueDataType::Text),
        ("date", ValueDataType::Date),
        ("time", ValueDataType::Time),
        ("date-time", ValueDataType::DateTime),
        ("date-and-or-time", ValueDataType::DateAndOrTime),
        ("timestamp", ValueDataType::Timestamp),
        ("boolean", ValueDataType::Boolean),
        ("integer", ValueDataType::Integer),
        ("float", ValueDataType::Float),
        ("utc-offset", ValueDataType::UtcOffset),
        ("language-tag", ValueDataType::LanguageTag),
        ("x-y", ValueDataType::Proprietary("x-y".into())),
    ] {
        assert_eq!(ValueDataType::from_str(token), Ok(t.clone()));
        assert_eq!(t.as_str(), token);
    }
    assert_eq!(
        ValueDataType::from_str("x"),
        Err(VCardError::UnknownType {
            given_type: "x".into()
        })
    );
}

#[test]
fn parameter_lists() {
    assert_eq!(
        parse_parameters(";;TYPE=a;X=b\\;c;PREF=1"),
        Ok(vec![
            Parameter::Type(vec!["a".into()]),
            Parameter::Proprietary("b\\;c".into()),
            Parameter::Pref(1)
        ])
    );
    assert_eq!(
        parse_parameters(";TYPE=a;;PREF=1"),
        Err(VCardError::InvalidLine {
            reason: "parameter has no = sign".into(),
            raw_line: "".into()
        })
    );
    assert_eq!(
        parse_parameters(";TYPE=a;"),
        Err(VCardError::InvalidLine {
            reason: "parameter has no = sign".into(),
            raw_line: "".into()
        })
    );
    assert_eq!(
        parse_parameters(";PID=x;novalue"),
        Err(VCardError::InvalidPID {
            provided: "x".into()
        })
    );
    assert_eq!(
        parse_parameters(";A=1\\\\;B=2"),
        Ok(vec![
            Parameter::Proprietary("1\\\\".into()),
            Parameter::Proprietary("2".into())
        ])
    );
    assert_eq!(
        parse_parameters(";A=1\\"),
        Ok(vec![Parameter::Proprietary("1\\".into())])
    );
    let set = demux_params(vec![
        Parameter::Type(vec!["a".into()]),
        Parameter::Pref(1),
        Parameter::Type(vec!["b".into(), "c".into()]),
        Parameter::Pref(2),
        Parameter::Proprietary("p".into()),
        Parameter::AltId("x".into()),
    ]);
    assert_eq!(
        set.type_param,
        Some(vec!["a".to_string(), "b".into(), "c".into()])
    );
    assert_eq!(set.pref, Some(2));
    assert_eq!(set.altid, Some("x".into()));
    assert_eq!(set.proprietary, vec![Parameter::Proprietary("p".into())]);
    assert_eq!(set.language, None);
}

#[test]
fn properties_without_a_group_field() {
    assert_eq!(
        Property::from_str("g.ANNIVERSARY;CALSCALE=gregorian;VALUE=date:19960415"),
        Ok(Property::Anniversary(Anniversary {
            altid: None,
            calscale: Some("gregorian".into()),
            value_data_type: Some(ValueDataType::Date),
            value: "19960415".into(),
        }))
    );
    assert_eq!(
        Property::from_str("g.XML;ALTID=1:<a/>"),
        Ok(Property::Xml(Xml {
            altid: Some("1".into()),
            group: Some("g".into()),
            value: "<a/>".into(),
        }))
    );
}

#[test]
fn decoding_the_written_line_gives_the_property_back() {
    let lines = [
        "FN;ALTID=1;LANGUAGE=de;VALUE=text;PREF=3;TYPE=a;TYPE=b:Heinrich",
        "item1.ADR;TYPE=HOME:;;am Katzenklo;Katzenhausen;;23456;Germany",
        "GENDER:m;trans",
        "KIND:org",
        "CLIENTPIDMAP:1;urn:uuid:abc",
        "ORG:a;b",
        "NICKNAME:a,b",
        "X-FOO;ALTID=1;PREF=2:bar",
        "VERSION:3.0",
        "END:VCARD",
        "URL;MEDIATYPE=text/html:https://www.example.com/heinrich",
    ];
    for line in lines {
        let p = Property::from_str(line).unwrap();
        let text = p.to_string();
        assert_eq!(text, format!("{}\r\n", line));
        assert_eq!(Property::from_str(&text[..text.len() - 2]), Ok(p));
    }
}
