use vcard::card::VCard;
use vcard::containers::{AltIDContainer, MultiAltIDContainer};
use vcard::model::{KindValue, Sex, VersionValue, WireText};
use vcard::parameter::{Parameter, Pid, ValueDataType};
use vcard::property::Property;
use vcard::records::{
    Adr, ClientPidMap, Email, Gender, Kind, Nickname, Org, ProprietaryProperty, Tel, Version,
    VcardURL, FN, N,
};
use vcard::uri::Uri;

fn check_display() {
    let mut n = N::default();
    assert_eq!("N:;;;;\r\n", n.to_string());
    n.sort_as = Some(vec!["foo".into(), "bar".into()]);
    assert_eq!("N;SORT-AS=\"foo,bar\":;;;;\r\n", n.to_string());
    n.surenames = vec!["Vom Tosafjord".into()];
    n.given_names = vec!["Heinrich".into()];
    assert_eq!(
        "N;SORT-AS=\"foo,bar\":Vom Tosafjord;Heinrich;;;\r\n",
        n.to_string()
    );

    let mut e = Email::default();
    assert_eq!("EMAIL:\r\n", e.to_string());

    e.group = Some("foo".into());

    assert_eq!("foo.EMAIL:\r\n", e.to_string());

    e.altid = Some("asdf".into());

    assert_eq!("foo.EMAIL;ALTID=asdf:\r\n", e.to_string());

    e.value = "mail@example.com".into();

    assert_eq!("foo.EMAIL;ALTID=asdf:mail@example.com\r\n", e.to_string());
}

#[test]
fn lib_test_display() {
    check_display();
}

#[test]
fn model_test_display() {
    check_display();
}

#[test]
fn parameters_are_written_in_their_fixed_order() {
    let url = VcardURL {
        group: Some("item2".into()),
        altid: Some("a".into()),
        pid: Some(Pid {
            first_digit: 1,
            second_digit: Some(12),
        }),
        pref: Some(100),
        value_data_type: Some(ValueDataType::Uri),
        type_param: Some(vec!["home".into(), "pref".into()]),
        mediatype: Some("text/html".into()),
        value: Uri::parse("https://www.example.com/heinrich").unwrap(),
    };
    assert_eq!(
        "item2.URL;ALTID=a;VALUE=uri;PREF=100;PID=1.12;TYPE=home;TYPE=pref;MEDIATYPE=text/html:https://www.example.com/heinrich\r\n",
        url.to_string()
    );
    let f = FN {
        group: None,
        altid: None,
        value_data_type: Some(ValueDataType::Proprietary("x-custom".into())),
        type_param: None,
        language: Some("de".into()),
        pref: Some(7),
        value: "Heinrich".into(),
    };
    assert_eq!("FN;LANGUAGE=de;VALUE=x-custom;PREF=7:Heinrich\r\n", f.to_string());
}

#[test]
fn address_is_written_without_its_label() {
    let adr = Adr {
        group: None,
        altid: None,
        label: Some("somewhere".into()),
        language: None,
        geo: Some("geo:1,2".into()),
        tz: Some("Europe/Berlin".into()),
        pid: None,
        pref: None,
        value_data_type: None,
        type_param: None,
        po_box: vec![],
        extended_address: vec![],
        street: vec!["am Katzenklo".into(), "Hinterhof".into()],
        city: vec!["Katzenhausen".into()],
        region: vec![],
        postal_code: vec!["23456".into()],
        country: vec!["Germany".into()],
    };
    assert_eq!(
        "ADR;GEO=geo:1,2;TZ=Europe/Berlin:;;am Katzenklo,Hinterhof;Katzenhausen;;23456;Germany\r\n",
        adr.to_string()
    );
}

#[test]
fn lists_are_joined_with_their_own_separator() {
    let org = Org {
        group: None,
        altid: None,
        pid: None,
        pref: None,
        value_data_type: None,
        type_param: None,
        language: None,
        sort_as: None,
        value: vec!["Richter GBR".into(), "Katzen".into()],
    };
    assert_eq!("ORG:Richter GBR;Katzen\r\n", org.to_string());
    let nick = Nickname {
        group: None,
        altid: None,
        value_data_type: None,
        type_param: None,
        language: None,
        pref: None,
        pid: None,
        value: vec!["Heini".into(), "Katze".into()],
    };
    assert_eq!("NICKNAME:Heini,Katze\r\n", nick.to_string());
}

#[test]
fn special_values_are_written() {
    assert_eq!("VERSION:4.0\r\n", Version::default().to_string());
    assert_eq!(
        "VERSION:3.0\r\n",
        Version {
            value: VersionValue::V3
        }
        .to_string()
    );
    assert_eq!(
        "GENDER:m;trans\r\n",
        Gender {
            sex: Some(Sex::Male),
            identity_component: Some("trans".into())
        }
        .to_string()
    );
    assert_eq!(
        "GENDER:;\r\n",
        Gender {
            sex: None,
            identity_component: Some("".into())
        }
        .to_string()
    );
    assert_eq!(
        "x.KIND:individual\r\n",
        Kind {
            group: Some("x".into()),
            value: KindValue::Individual
        }
        .to_string()
    );
    assert_eq!(
        "KIND:device\r\n",
        Kind {
            group: None,
            value: KindValue::Proprietary("device".into())
        }
        .to_string()
    );
    assert_eq!(
        "CLIENTPIDMAP:1;urn:uuid:abc\r\n",
        ClientPidMap {
            group: None,
            pid_digit: 1,
            value: Uri::parse("urn:uuid:abc").unwrap()
        }
        .to_string()
    );
    assert_eq!(
        "TEL;PREF=255:0\r\n",
        Tel {
            pref: Some(255),
            value: "0".into(),
            ..Default::default()
        }
        .to_string()
    );
}

#[test]
fn proprietary_property_is_written_with_its_parameters() {
    let p = ProprietaryProperty {
        name: "X-ABLABEL".into(),
        group: Some("item2".into()),
        value: "_$!<HomePage>!$_".into(),
        parameters: vec![
            Parameter::Proprietary("raw".into()),
            Parameter::Type(vec!["a".into(), "b".into()]),
            Parameter::SortAs(vec!["x".into(), "y".into()]),
            Parameter::Pref(9),
            Parameter::Pid(Pid {
                first_digit: 3,
                second_digit: None,
            }),
            Parameter::Label("l".into()),
        ],
    };
    assert_eq!(
        "item2.X-ABLABEL;raw;TYPE=a,b;SORT-AS=x,y;PREF=9;PID=3;LABEL=l:_$!<HomePage>!$_\r\n",
        p.to_string()
    );
    let mut out = String::from("head ");
    Property::Proprietary(p).write_to(&mut out);
    assert!(out.starts_with("head item2.X-ABLABEL;raw;"));
}

#[test]
fn parameter_texts() {
    assert_eq!(Parameter::Language("de".into()).to_string(), "LANGUAGE=de");
    assert_eq!(
        Parameter::Value(ValueDataType::DateAndOrTime).to_string(),
        "VALUE=date-and-or-time"
    );
    assert_eq!(Parameter::AltId("1".into()).to_string(), "ALTID=1");
    assert_eq!(Parameter::MediaType("a/b".into()).to_string(), "MEDIATYPE=a/b");
    assert_eq!(Parameter::CalScale("gregorian".into()).to_string(), "CALSCALE=gregorian");
    assert_eq!(Parameter::Geo("geo:1,2".into()).to_string(), "GEO=geo:1,2");
    assert_eq!(Parameter::TimeZone("utc".into()).to_string(), "TZ=utc");
    assert_eq!(Parameter::Proprietary("anything".into()).to_string(), "anything");
    assert_eq!(
        Pid {
            first_digit: 1,
            second_digit: Some(2)
        }
        .to_string(),
        "1.2"
    );
    assert_eq!(
        Pid {
            first_digit: 200,
            second_digit: None
        }
        .to_string(),
        "200"
    );
    assert_eq!(ValueDataType::UtcOffset.to_string(), "utc-offset");
}

#[test]
fn containers_write_their_members_in_order() {
    let mut c = AltIDContainer::new();
    c.add_value(FN {
        value: "a".into(),
        ..Default::default()
    })
    .unwrap();
    c.add_value(FN {
        value: "b".into(),
        ..Default::default()
    })
    .unwrap();
    assert_eq!(c.to_string(), "FN:a\r\nFN:b\r\n");
    let mut m = MultiAltIDContainer::new();
    m.add_value(FN {
        altid: Some("1".into()),
        value: "a".into(),
        ..Default::default()
    });
    m.add_value(FN {
        altid: Some("2".into()),
        value: "b".into(),
        ..Default::default()
    });
    m.add_value(FN {
        altid: Some("1".into()),
        value: "c".into(),
        ..Default::default()
    });
    assert_eq!(
        m.to_string(),
        "FN;ALTID=1:a\r\nFN;ALTID=1:c\r\nFN;ALTID=2:b\r\n"
    );
}

#[test]
fn card_is_written_in_its_fixed_order() {
    let mut card = VCard::default();
    card.tel.add_value(Tel {
        value: "017610101520".into(),
        ..Default::default()
    });
    card.fn_property.add_value(FN {
        value: "Heinrich vom Tosafjord".into(),
        ..Default::default()
    });
    card.n
        .add_value(N {
            surenames: vec!["vom Tosafjord".into()],
            given_names: vec!["Heinrich".into()],
            ..Default::default()
        })
        .unwrap();
    card.proprietary_properties.push(ProprietaryProperty {
        name: "X-ABADR".into(),
        group: Some("item1".into()),
        value: "de".into(),
        parameters: Vec::new(),
    });
    assert_eq!(
        card.to_string(),
        "BEGIN:VCARD\r\nVERSION:4.0\r\nFN:Heinrich vom Tosafjord\r\nN:vom Tosafjord;Heinrich;;;\r\nTEL:017610101520\r\nitem1.X-ABADR:de\r\nEND:VCARD\r\n"
    );
}
