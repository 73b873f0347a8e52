use vcard::containers::{AltIDContainer, MultiAltIDContainer};
use vcard::records::FN;

#[test]
fn test_altid_container() {
    let mut container = AltIDContainer::new();
    container
        .add_value(FN {
            altid: Some("1".into()),
            value: "foo".into(),
            pref: Some(50),
            ..Default::default()
        })
        .unwrap();

    container
        .add_value(FN {
            altid: Some("1".into()),
            value: "bar".into(),
            pref: Some(49),
            ..Default::default()
        })
        .unwrap();

    // it should not be possible to input different alt ids into the same container
    let result = container.add_value(FN {
        altid: Some("2".into()),
        value: "foobar".into(),
        ..Default::default()
    });
    assert!(result.is_err());

    let prefered_val = container.get_prefered_value().expect("expect a value here");
    assert_eq!(prefered_val.value, "bar".to_string());
}

#[test]
fn test_multi_altid_container() {
    let mut testant = MultiAltIDContainer::default();
    testant.add_value(FN {
        altid: Some("1".into()),
        value: "foo".into(),
        ..Default::default()
    });
    testant.add_value(FN {
        altid: Some("1".into()),
        value: "bar".into(),
        pref: Some(49),
        ..Default::default()
    });
    testant.add_value(FN {
        altid: Some("2".into()),
        value: "foobar".into(),
        pref: Some(1),
        ..Default::default()
    });
    let pref = testant
        .get_prefered_value()
        .expect("expect a prefered value here");
    assert_eq!(pref.value, "foobar".to_string());
}
