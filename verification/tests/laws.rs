use vcard::card::VCard;
use vcard::containers::{AltIDContainer, MultiAltIDContainer};
use vcard::errors::VCardError;
use vcard::model::{Alternative, Preferable, VersionValue};
use vcard::property::Property;
use vcard::reader::VCardReader;
use vcard::records::{Email, Tel, FN, N};

fn named(value: &str, altid: Option<&str>, pref: Option<u8>) -> FN {
    FN {
        altid: altid.map(String::from),
        value: value.into(),
        pref,
        ..Default::default()
    }
}

#[test]
fn preferred_member_has_the_smallest_rank() {
    let orders: [[usize; 3]; 6] = [
        [0, 1, 2],
        [0, 2, 1],
        [1, 0, 2],
        [1, 2, 0],
        [2, 0, 1],
        [2, 1, 0],
    ];
    for order in orders {
        let members = [
            named("ten", None, Some(10)),
            named("fifty", None, Some(50)),
            named("none", None, None),
        ];
        let mut c = AltIDContainer::new();
        for i in order {
            c.add_value(members[i].clone()).unwrap();
        }
        assert_eq!(c.get_prefered_value().unwrap().value, "ten");
    }
    let mut only_default = AltIDContainer::new();
    only_default.add_value(named("a", None, None)).unwrap();
    only_default.add_value(named("b", None, Some(100))).unwrap();
    let best = only_default.get_prefered_value().unwrap();
    assert_eq!(best.get_pref(), 100);
    let empty: AltIDContainer<FN> = AltIDContainer::new();
    assert!(empty.get_prefered_value().is_none());
}

#[test]
fn preferred_member_of_all_buckets() {
    let mut m = MultiAltIDContainer::new();
    assert!(m.get_prefered_value().is_none());
    m.add_value(named("a", Some("1"), Some(50)));
    m.add_value(named("b", Some("2"), None));
    m.add_value(named("c", Some("2"), Some(10)));
    m.add_value(named("d", None, Some(11)));
    assert_eq!(m.get_prefered_value().unwrap().value, "c");
    assert_eq!(m.values().len(), 3);
    let buckets = m.take_values();
    assert_eq!(buckets[1].values().len(), 2);
    assert_eq!(buckets[2].values()[0].get_alt_id(), "");
}

#[test]
fn container_takes_only_one_alt_id() {
    let mut c = AltIDContainer::new();
    c.add_value(named("a", None, None)).unwrap();
    c.add_value(named("b", None, None)).unwrap();
    c.add_value(named("c", Some(""), None)).unwrap();
    assert_eq!(
        c.add_value(named("d", Some("x"), None)),
        Err(VCardError::InvalidAltID {
            expected_altid: "".into(),
            actual_altid: "x".into()
        })
    );
    let values: Vec<&str> = c.values().iter().map(|f| f.value.as_str()).collect();
    assert_eq!(values, vec!["a", "b", "c"]);
    assert_eq!(c.len(), 3);
    assert_eq!(c.get(1).value, "b");
    let mut d = AltIDContainer::new();
    d.add_value(named("a", Some("1"), None)).unwrap();
    assert_eq!(
        d.add_value(named("b", None, None)),
        Err(VCardError::InvalidAltID {
            expected_altid: "1".into(),
            actual_altid: "".into()
        })
    );
    d.add_value(named("c", Some("1"), None)).unwrap();
    assert_eq!(d.take_values().len(), 2);
    let unchecked = AltIDContainer::from_vec(vec![
        named("a", Some("1"), None),
        named("b", Some("2"), None),
    ]);
    assert_eq!(unchecked.values().len(), 2);
    let fresh: AltIDContainer<FN> = AltIDContainer::default();
    assert_eq!(fresh.values().len(), 0);
}

#[test]
fn written_card_is_read_back() {
    let lines = [
        "BEGIN:VCARD",
        "VERSION:3.0",
        "SOURCE:https://example.com/heinrich.vcf",
        "KIND:individual",
        "XML:<a/>",
        "FN;ALTID=1;LANGUAGE=de;PREF=1:Heinrich vom Tosafjord",
        "FN;ALTID=1;LANGUAGE=en:Henry of Tosafjord",
        "FN;ALTID=2:Heini",
        "N;ALTID=1:vom Tosafjord;Heinrich;;;",
        "N;ALTID=1;LANGUAGE=en:of Tosafjord;Henry;;Sir;",
        "NICKNAME:Heini,Katze",
        "BDAY;VALUE=date:2017-01-03",
        "GENDER:m;Kater",
        "item1.ADR;TYPE=HOME;TYPE=pref:;;am Katzenklo;Katzenhausen;;23456;Germany",
        "TEL;TYPE=CELL;TYPE=VOICE:017610101520",
        "TEL;PREF=1;PID=1.2:0123",
        "EMAIL;TYPE=HOME:heinrich@tosafjord.com",
        "IMPP:xmpp:heinrich@tosafjord.com",
        "LANG;PREF=2:de",
        "TZ:Europe/Berlin",
        "GEO:geo:37.386013,-122.082932",
        "TITLE;LANGUAGE=de:Kater",
        "ORG:Richter GBR, Inc.;Katzen",
        "CATEGORIES:cat;dog,pet",
        "item3.ROLE;ALTID=a\\;b\\:c;LANGUAGE=de:Mouser\\, first",
        "TITLE;TYPE=a\\;x;TYPE=b:Kater",
        "NOTE:ist eine Katze",
        "PRODID:-//Example//EN",
        "REV:2021-09-23T05:51:29Z",
        "UID:urn:uuid:4fbe8971-0bc3-424c-9c26-36c3e1eff6b1",
        "CLIENTPIDMAP:1;urn:uuid:abc",
        "item2.URL;MEDIATYPE=text/html:https://www.example.com/heinrich",
        "KEY:https://www.example.com/heinrich.pgp",
        "item2.X-ABLABEL;ALTID=1;PREF=5:_$!<HomePage>!$_",
        "it\\.em.X-A\\;B;TYPE=a,b:v",
        "X-EMPTY:",
        "END:VCARD",
    ];
    let mut text = String::new();
    for l in lines {
        text.push_str(l);
        text.push_str("\r\n");
    }
    let card = VCardReader::new(text.as_bytes()).parse_vcard().unwrap();
    let written = card.to_string();
    assert_eq!(written.len(), text.len());
    let again = VCardReader::new(written.as_bytes()).parse_vcard().unwrap();
    assert_eq!(again, card);
    assert_eq!(again.to_string(), written);
    assert_eq!(card.version.value, VersionValue::V3);
    assert_eq!(card.fn_property.values().len(), 2);
    assert_eq!(card.proprietary_properties.len(), 3);
    assert_eq!(card.proprietary_properties[1].name, "X-A\\;B");
    assert_eq!(card.role.values()[0].values()[0].altid, Some("a\\;b\\:c".to_string()));
}

#[test]
fn written_property_is_read_back_through_the_reader() {
    let email = Email {
        group: Some("work".into()),
        altid: Some("7".into()),
        pid: None,
        pref: Some(3),
        value_data_type: None,
        type_param: Some(vec!["INTERNET".into()]),
        value: "mail@example.com".into(),
    };
    let mut bytes = email.to_string().into_bytes();
    bytes.extend_from_slice(b"END:VCARD\r\n");
    let mut reader = VCardReader::new(&bytes[..]);
    assert_eq!(
        reader.read_property(),
        Ok((Property::Email(email), true))
    );
}

#[test]
fn some_values_are_not_read_back_as_they_were() {
    // the names to sort by are written in quotes, which are read as part of the names
    let n = N {
        sort_as: Some(vec!["a".into()]),
        ..Default::default()
    };
    let text = n.to_string();
    match Property::from_str(text.trim_end()) {
        Ok(Property::N(read)) => assert_eq!(read.sort_as, Some(vec!["\"a\"".to_string()])),
        other => panic!("unexpected {:?}", other),
    }
    // a comma inside an item separates when it is read again
    let tel = Tel {
        type_param: Some(vec!["a,b".into()]),
        value: "1".into(),
        ..Default::default()
    };
    match Property::from_str(tel.to_string().trim_end()) {
        Ok(Property::Tel(read)) => {
            assert_eq!(read.type_param, Some(vec!["a".to_string(), "b".into()]))
        }
        other => panic!("unexpected {:?}", other),
    }
}

#[test]
fn new_card_has_version_four() {
    let card = VCard::default();
    assert_eq!(card.version.value, VersionValue::V4);
    assert_eq!(card.to_string(), "BEGIN:VCARD\r\nVERSION:4.0\r\nEND:VCARD\r\n");
    let read = VCardReader::new(card.to_string().as_bytes())
        .parse_vcard()
        .unwrap();
    assert_eq!(read, card);
}
