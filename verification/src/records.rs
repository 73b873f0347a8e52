//! The typed properties: one struct for each standard property, and one for extension
//! properties. Each has the shared mathematical view and writes its own wire text.

use crate::model::{
    alt_id_str, no_fields, rank, Alternative, KindValue, Payload, Preferable, PropertyKind,
    PropertyView, Sex, VersionValue, WireText,
};
use crate::parameter::{parameter_views, Parameter, Pid, ValueDataType};
use crate::text::{opt_text, push_joined, push_u8, texts};
use crate::uri::Uri;
use crate::wire::{
    fields_of, finish_text, lemma_components_push, serialize, write_params, write_start,
};
use vstd::prelude::*;
use vstd::string::*;

verus! {

/// The kind of object that the card stands for.
#[derive(Debug, Clone, PartialEq)]
pub struct Kind {
    pub group: Option<String>,
    pub value: KindValue,
}

impl View for Kind {
    type V = PropertyView;

    open spec fn view(&self) -> PropertyView {
        PropertyView {
            kind: PropertyKind::Kind,
            fields: fields_of(
                self.group,
                None,
                None,
                None,
                None,
                None,
                None,
                None,
                None,
                None,
                None,
                None,
                None,
            ),
            value: Payload::Kind(self.value@),
        }
    }
}

impl WireText for Kind {
    fn write_to(&self, out: &mut String) {
        write_start(
            out,
            &self.group,
            "KIND",
            &None,
            &None,
            &None,
            &None,
            &None,
            &None,
            &None,
            &None,
            &None,
            &None,
            &None,
        );
        finish_text(
            out,
            self.value.as_str(),
            Ghost(old(out)@),
            Ghost(crate::wire::start_text(self@)),
        );
    }
}

impl Kind {
    /// The wire text of this property: one line, with its line break.
    pub fn to_string(&self) -> (s: String)
        ensures
            s@ == serialize(self@),
    {
        let mut s = String::new();
        self.write_to(&mut s);
        assert(s@ =~= serialize(self@));
        s
    }
}

/// The sex and the gender identity of the object.
#[derive(Debug, Clone, PartialEq)]
pub struct Gender {
    pub sex: Option<Sex>,
    pub identity_component: Option<String>,
}

impl View for Gender {
    type V = PropertyView;

    open spec fn view(&self) -> PropertyView {
        PropertyView {
            kind: PropertyKind::Gender,
            fields: no_fields(),
            value: Payload::Gender {
                sex: self.sex,
                identity_component: opt_text(self.identity_component),
            },
        }
    }
}

impl WireText for Gender {
    fn write_to(&self, out: &mut String) {
        write_start(
            out,
            &None,
            "GENDER",
            &None,
            &None,
            &None,
            &None,
            &None,
            &None,
            &None,
            &None,
            &None,
            &None,
            &None,
        );
        let mut v = String::new();
        match self.sex {
            Some(s) => {
                v.append(s.as_str());
            },
            None => {},
        }
        crate::wire::write_opt(&mut v, ";", &self.identity_component);
        assert(v@ =~= crate::wire::value_text(self@.kind, self@.value));
        finish_text(out, v.as_str(), Ghost(old(out)@), Ghost(crate::wire::start_text(self@)));
    }
}

impl Gender {
    /// The wire text of this property: one line, with its line break.
    pub fn to_string(&self) -> (s: String)
        ensures
            s@ == serialize(self@),
    {
        let mut s = String::new();
        self.write_to(&mut s);
        assert(s@ =~= serialize(self@));
        s
    }
}

/// The version of the format that the card is written in.
#[derive(Debug, Clone, PartialEq)]
pub struct Version {
    pub value: VersionValue,
}

impl View for Version {
    type V = PropertyView;

    open spec fn view(&self) -> PropertyView {
        PropertyView {
            kind: PropertyKind::Version,
            fields: no_fields(),
            value: Payload::Version(self.value),
        }
    }
}

impl WireText for Version {
    fn write_to(&self, out: &mut String) {
        write_start(
            out,
            &None,
            "VERSION",
            &None,
            &None,
            &None,
            &None,
            &None,
            &None,
            &None,
            &None,
            &None,
            &None,
            &None,
        );
        finish_text(
            out,
            self.value.as_str(),
            Ghost(old(out)@),
            Ghost(crate::wire::start_text(self@)),
        );
    }
}

impl Version {
    /// The wire text of this property: one line, with its line break.
    pub fn to_string(&self) -> (s: String)
        ensures
            s@ == serialize(self@),
    {
        let mut s = String::new();
        self.write_to(&mut s);
        assert(s@ =~= serialize(self@));
        s
    }
}

impl Default for Version {
    fn default() -> (r: Version)
        ensures
            r.value == VersionValue::V4,
    {
        Version { value: VersionValue::V4 }
    }
}

/// Where the card can be fetched from.
#[derive(Debug, Clone, PartialEq)]
pub struct Source {
    pub group: Option<String>,
    pub pid: Option<Pid>,
    pub altid: Option<String>,
    pub mediatype: Option<String>,
    pub value: Uri,
}

impl View for Source {
    type V = PropertyView;

    open spec fn view(&self) -> PropertyView {
        PropertyView {
            kind: PropertyKind::Source,
            fields: fields_of(
                self.group,
                self.altid,
                None,
                None,
                None,
                self.pid,
                None,
                self.mediatype,
                None,
                None,
                None,
                None,
                None,
            ),
            value: Payload::Text(self.value@),
        }
    }
}

impl WireText for Source {
    fn write_to(&self, out: &mut String) {
        write_start(
            out,
            &self.group,
            "SOURCE",
            &self.altid,
            &None,
            &None,
            &None,
            &self.pid,
            &None,
            &self.mediatype,
            &None,
            &None,
            &None,
            &None,
        );
        finish_text(
            out,
            self.value.as_str(),
            Ghost(old(out)@),
            Ghost(crate::wire::start_text(self@)),
        );
    }
}

impl Source {
    /// The wire text of this property: one line, with its line break.
    pub fn to_string(&self) -> (s: String)
        ensures
            s@ == serialize(self@),
    {
        let mut s = String::new();
        self.write_to(&mut s);
        assert(s@ =~= serialize(self@));
        s
    }
}

impl Alternative for Source {
    fn get_alt_id(&self) -> (r: &str) {
        alt_id_str(&self.altid)
    }
}

/// The formatted name.
#[derive(Debug, Clone, PartialEq)]
pub struct FN {
    pub group: Option<String>,
    pub altid: Option<String>,
    pub value_data_type: Option<ValueDataType>,
    pub type_param: Option<Vec<String>>,
    pub language: Option<String>,
    pub pref: Option<u8>,
    pub value: String,
}

impl View for FN {
    type V = PropertyView;

    open spec fn view(&self) -> PropertyView {
        PropertyView {
            kind: PropertyKind::FN,
            fields: fields_of(
                self.group,
                self.altid,
                self.language,
                self.value_data_type,
                self.pref,
                None,
                self.type_param,
                None,
                None,
                None,
                None,
                None,
                None,
            ),
            value: Payload::Text(self.value@),
        }
    }
}

impl WireText for FN {
    fn write_to(&self, out: &mut String) {
        write_start(
            out,
            &self.group,
            "FN",
            &self.altid,
            &self.language,
            &self.value_data_type,
            &self.pref,
            &None,
            &self.type_param,
            &None,
            &None,
            &None,
            &None,
            &None,
        );
        finish_text(
            out,
            self.value.as_str(),
            Ghost(old(out)@),
            Ghost(crate::wire::start_text(self@)),
        );
    }
}

impl FN {
    /// The wire text of this property: one line, with its line break.
    pub fn to_string(&self) -> (s: String)
        ensures
            s@ == serialize(self@),
    {
        let mut s = String::new();
        self.write_to(&mut s);
        assert(s@ =~= serialize(self@));
        s
    }
}

impl Default for FN {
    fn default() -> (r: FN)
        ensures
            r.group is None,
            r.altid is None,
            r.value_data_type is None,
            r.type_param is None,
            r.language is None,
            r.pref is None,
            r.value@.len() == 0,
    {
        FN {
            group: None,
            altid: None,
            value_data_type: None,
            type_param: None,
            language: None,
            pref: None,
            value: String::new(),
        }
    }
}

impl Alternative for FN {
    fn get_alt_id(&self) -> (r: &str) {
        alt_id_str(&self.altid)
    }
}

impl Preferable for FN {
    fn get_pref(&self) -> (r: u8) {
        rank(&self.pref)
    }
}

/// The name, in its five positions.
#[derive(Debug, Clone, PartialEq)]
pub struct N {
    pub altid: Option<String>,
    pub language: Option<String>,
    pub sort_as: Option<Vec<String>>,
    pub group: Option<String>,
    pub surenames: Vec<String>,
    pub given_names: Vec<String>,
    pub additional_names: Vec<String>,
    pub honorific_prefixes: Vec<String>,
    pub honorific_suffixes: Vec<String>,
}

impl View for N {
    type V = PropertyView;

    open spec fn view(&self) -> PropertyView {
        PropertyView {
            kind: PropertyKind::N,
            fields: fields_of(
                self.group,
                self.altid,
                self.language,
                None,
                None,
                None,
                None,
                None,
                None,
                self.sort_as,
                None,
                None,
                None,
            ),
            value: Payload::Components(
                seq![
                    texts(self.surenames@),
                    texts(self.given_names@),
                    texts(self.additional_names@),
                    texts(self.honorific_prefixes@),
                    texts(self.honorific_suffixes@),
                ],
            ),
        }
    }
}

impl WireText for N {
    fn write_to(&self, out: &mut String) {
        write_start(
            out,
            &self.group,
            "N",
            &self.altid,
            &self.language,
            &None,
            &None,
            &None,
            &None,
            &None,
            &None,
            &self.sort_as,
            &None,
            &None,
        );
        let mut v = String::new();
        push_joined(&mut v, &self.surenames, ",");
        let ghost c = seq![texts(self.surenames@)];
        assert(v@ =~= crate::wire::components_text(c));
        v.push(';');
        push_joined(&mut v, &self.given_names, ",");
        proof {
            lemma_components_push(c, texts(self.given_names@));
            reveal_strlit(";");
            assert(v@ =~= crate::wire::components_text(c.push(texts(self.given_names@))));
            c = c.push(texts(self.given_names@));
        }
        v.push(';');
        push_joined(&mut v, &self.additional_names, ",");
        proof {
            lemma_components_push(c, texts(self.additional_names@));
            reveal_strlit(";");
            assert(v@ =~= crate::wire::components_text(c.push(texts(self.additional_names@))));
            c = c.push(texts(self.additional_names@));
        }
        v.push(';');
        push_joined(&mut v, &self.honorific_prefixes, ",");
        proof {
            lemma_components_push(c, texts(self.honorific_prefixes@));
            reveal_strlit(";");
            assert(v@ =~= crate::wire::components_text(c.push(texts(self.honorific_prefixes@))));
            c = c.push(texts(self.honorific_prefixes@));
        }
        v.push(';');
        push_joined(&mut v, &self.honorific_suffixes, ",");
        proof {
            lemma_components_push(c, texts(self.honorific_suffixes@));
            reveal_strlit(";");
            assert(v@ =~= crate::wire::components_text(c.push(texts(self.honorific_suffixes@))));
            c = c.push(texts(self.honorific_suffixes@));
        }
        assert(c =~= seq![
            texts(self.surenames@),
            texts(self.given_names@),
            texts(self.additional_names@),
            texts(self.honorific_prefixes@),
            texts(self.honorific_suffixes@),
        ]);
        finish_text(out, v.as_str(), Ghost(old(out)@), Ghost(crate::wire::start_text(self@)));
    }
}

impl N {
    /// The wire text of this property: one line, with its line break.
    pub fn to_string(&self) -> (s: String)
        ensures
            s@ == serialize(self@),
    {
        let mut s = String::new();
        self.write_to(&mut s);
        assert(s@ =~= serialize(self@));
        s
    }
}

impl Default for N {
    fn default() -> (r: N)
        ensures
            r.altid is None,
            r.language is None,
            r.sort_as is None,
            r.group is None,
            r.surenames@.len() == 0,
            r.given_names@.len() == 0,
            r.additional_names@.len() == 0,
            r.honorific_prefixes@.len() == 0,
            r.honorific_suffixes@.len() == 0,
    {
        N {
            altid: None,
            language: None,
            sort_as: None,
            group: None,
            surenames: Vec::new(),
            given_names: Vec::new(),
            additional_names: Vec::new(),
            honorific_prefixes: Vec::new(),
            honorific_suffixes: Vec::new(),
        }
    }
}

impl Alternative for N {
    fn get_alt_id(&self) -> (r: &str) {
        alt_id_str(&self.altid)
    }
}

/// The nicknames.
#[derive(Debug, Clone, PartialEq)]
pub struct Nickname {
    pub group: Option<String>,
    pub altid: Option<String>,
    pub value_data_type: Option<ValueDataType>,
    pub type_param: Option<Vec<String>>,
    pub language: Option<String>,
    pub pref: Option<u8>,
    pub pid: Option<Pid>,
    pub value: Vec<String>,
}

impl View for Nickname {
    type V = PropertyView;

    open spec fn view(&self) -> PropertyView {
        PropertyView {
            kind: PropertyKind::NickName,
            fields: fields_of(
                self.group,
                self.altid,
                self.language,
                self.value_data_type,
                self.pref,
                self.pid,
                self.type_param,
                None,
                None,
                None,
                None,
                None,
                None,
            ),
            value: Payload::List(texts(self.value@)),
        }
    }
}

impl WireText for Nickname {
    fn write_to(&self, out: &mut String) {
        write_start(
            out,
            &self.group,
            "NICKNAME",
            &self.altid,
            &self.language,
            &self.value_data_type,
            &self.pref,
            &self.pid,
            &self.type_param,
            &None,
            &None,
            &None,
            &None,
            &None,
        );
        let mut v = String::new();
        push_joined(&mut v, &self.value, ",");
        assert(v@ =~= crate::wire::value_text(self@.kind, self@.value));
        finish_text(out, v.as_str(), Ghost(old(out)@), Ghost(crate::wire::start_text(self@)));
    }
}

impl Nickname {
    /// The wire text of this property: one line, with its line break.
    pub fn to_string(&self) -> (s: String)
        ensures
            s@ == serialize(self@),
    {
        let mut s = String::new();
        self.write_to(&mut s);
        assert(s@ =~= serialize(self@));
        s
    }
}

impl Alternative for Nickname {
    fn get_alt_id(&self) -> (r: &str) {
        alt_id_str(&self.altid)
    }
}

/// A picture of the object.
#[derive(Debug, Clone, PartialEq)]
pub struct Photo {
    pub group: Option<String>,
    pub altid: Option<String>,
    pub value_data_type: Option<ValueDataType>,
    pub type_param: Option<Vec<String>>,
    pub mediatype: Option<String>,
    pub pref: Option<u8>,
    pub pid: Option<Pid>,
    pub value: Uri,
}

impl View for Photo {
    type V = PropertyView;

    open spec fn view(&self) -> PropertyView {
        PropertyView {
            kind: PropertyKind::Photo,
            fields: fields_of(
                self.group,
                self.altid,
                None,
                self.value_data_type,
                self.pref,
                self.pid,
                self.type_param,
                self.mediatype,
                None,
                None,
                None,
                None,
                None,
            ),
            value: Payload::Text(self.value@),
        }
    }
}

impl WireText for Photo {
    fn write_to(&self, out: &mut String) {
        write_start(
            out,
            &self.group,
            "PHOTO",
            &self.altid,
            &None,
            &self.value_data_type,
            &self.pref,
            &self.pid,
            &self.type_param,
            &self.mediatype,
            &None,
            &None,
            &None,
            &None,
        );
        finish_text(
            out,
            self.value.as_str(),
            Ghost(old(out)@),
            Ghost(crate::wire::start_text(self@)),
        );
    }
}

impl Photo {
    /// The wire text of this property: one line, with its line break.
    pub fn to_string(&self) -> (s: String)
        ensures
            s@ == serialize(self@),
    {
        let mut s = String::new();
        self.write_to(&mut s);
        assert(s@ =~= serialize(self@));
        s
    }
}

impl Alternative for Photo {
    fn get_alt_id(&self) -> (r: &str) {
        alt_id_str(&self.altid)
    }
}

impl Preferable for Photo {
    fn get_pref(&self) -> (r: u8) {
        rank(&self.pref)
    }
}

/// The birthday.
#[derive(Debug, Clone, PartialEq)]
pub struct BDay {
    pub altid: Option<String>,
    pub calscale: Option<String>,
    pub value_data_type: Option<ValueDataType>,
    pub language: Option<String>,
    pub value: String,
}

impl View for BDay {
    type V = PropertyView;

    open spec fn view(&self) -> PropertyView {
        PropertyView {
            kind: PropertyKind::BDay,
            fields: fields_of(
                None,
                self.altid,
                self.language,
                self.value_data_type,
                None,
                None,
                None,
                None,
                self.calscale,
                None,
                None,
                None,
                None,
            ),
            value: Payload::Text(self.value@),
        }
    }
}

impl WireText for BDay {
    fn write_to(&self, out: &mut String) {
        write_start(
            out,
            &None,
            "BDAY",
            &self.altid,
            &self.language,
            &self.value_data_type,
            &None,
            &None,
            &None,
            &None,
            &self.calscale,
            &None,
            &None,
            &None,
        );
        finish_text(
            out,
            self.value.as_str(),
            Ghost(old(out)@),
            Ghost(crate::wire::start_text(self@)),
        );
    }
}

impl BDay {
    /// The wire text of this property: one line, with its line break.
    pub fn to_string(&self) -> (s: String)
        ensures
            s@ == serialize(self@),
    {
        let mut s = String::new();
        self.write_to(&mut s);
        assert(s@ =~= serialize(self@));
        s
    }
}

impl Default for BDay {
    fn default() -> (r: BDay)
        ensures
            r.altid is None,
            r.calscale is None,
            r.value_data_type is None,
            r.language is None,
            r.value@.len() == 0,
    {
        BDay {
            altid: None,
            calscale: None,
            value_data_type: None,
            language: None,
            value: String::new(),
        }
    }
}

impl Alternative for BDay {
    fn get_alt_id(&self) -> (r: &str) {
        alt_id_str(&self.altid)
    }
}

/// The anniversary.
#[derive(Debug, Clone, PartialEq)]
pub struct Anniversary {
    pub altid: Option<String>,
    pub calscale: Option<String>,
    pub value_data_type: Option<ValueDataType>,
    pub value: String,
}

impl View for Anniversary {
    type V = PropertyView;

    open spec fn view(&self) -> PropertyView {
        PropertyView {
            kind: PropertyKind::Anniversary,
            fields: fields_of(
                None,
                self.altid,
                None,
                self.value_data_type,
                None,
                None,
                None,
                None,
                self.calscale,
                None,
                None,
                None,
                None,
            ),
            value: Payload::Text(self.value@),
        }
    }
}

impl WireText for Anniversary {
    fn write_to(&self, out: &mut String) {
        write_start(
            out,
            &None,
            "ANNIVERSARY",
            &self.altid,
            &None,
            &self.value_data_type,
            &None,
            &None,
            &None,
            &None,
            &self.calscale,
            &None,
            &None,
            &None,
        );
        finish_text(
            out,
            self.value.as_str(),
            Ghost(old(out)@),
            Ghost(crate::wire::start_text(self@)),
        );
    }
}

impl Anniversary {
    /// The wire text of this property: one line, with its line break.
    pub fn to_string(&self) -> (s: String)
        ensures
            s@ == serialize(self@),
    {
        let mut s = String::new();
        self.write_to(&mut s);
        assert(s@ =~= serialize(self@));
        s
    }
}

impl Default for Anniversary {
    fn default() -> (r: Anniversary)
        ensures
            r.altid is None,
            r.calscale is None,
            r.value_data_type is None,
            r.value@.len() == 0,
    {
        Anniversary {
            altid: None,
            calscale: None,
            value_data_type: None,
            value: String::new(),
        }
    }
}

impl Alternative for Anniversary {
    fn get_alt_id(&self) -> (r: &str) {
        alt_id_str(&self.altid)
    }
}

/// A delivery address, in its seven positions.
#[derive(Debug, Clone, PartialEq)]
pub struct Adr {
    pub group: Option<String>,
    pub altid: Option<String>,
    pub label: Option<String>,
    pub language: Option<String>,
    pub geo: Option<String>,
    pub tz: Option<String>,
    pub pid: Option<Pid>,
    pub pref: Option<u8>,
    pub value_data_type: Option<ValueDataType>,
    pub type_param: Option<Vec<String>>,
    pub po_box: Vec<String>,
    pub extended_address: Vec<String>,
    pub street: Vec<String>,
    pub city: Vec<String>,
    pub region: Vec<String>,
    pub postal_code: Vec<String>,
    pub country: Vec<String>,
}

impl View for Adr {
    type V = PropertyView;

    open spec fn view(&self) -> PropertyView {
        PropertyView {
            kind: PropertyKind::Adr,
            fields: fields_of(
                self.group,
                self.altid,
                self.language,
                self.value_data_type,
                self.pref,
                self.pid,
                self.type_param,
                None,
                None,
                None,
                self.geo,
                self.tz,
                self.label,
            ),
            value: Payload::Components(
                seq![
                    texts(self.po_box@),
                    texts(self.extended_address@),
                    texts(self.street@),
                    texts(self.city@),
                    texts(self.region@),
                    texts(self.postal_code@),
                    texts(self.country@),
                ],
            ),
        }
    }
}

impl WireText for Adr {
    fn write_to(&self, out: &mut String) {
        write_start(
            out,
            &self.group,
            "ADR",
            &self.altid,
            &self.language,
            &self.value_data_type,
            &self.pref,
            &self.pid,
            &self.type_param,
            &None,
            &None,
            &None,
            &self.geo,
            &self.tz,
        );
        let mut v = String::new();
        push_joined(&mut v, &self.po_box, ",");
        let ghost c = seq![texts(self.po_box@)];
        assert(v@ =~= crate::wire::components_text(c));
        v.push(';');
        push_joined(&mut v, &self.extended_address, ",");
        proof {
            lemma_components_push(c, texts(self.extended_address@));
            reveal_strlit(";");
            assert(v@ =~= crate::wire::components_text(c.push(texts(self.extended_address@))));
            c = c.push(texts(self.extended_address@));
        }
        v.push(';');
        push_joined(&mut v, &self.street, ",");
        proof {
            lemma_components_push(c, texts(self.street@));
            reveal_strlit(";");
            assert(v@ =~= crate::wire::components_text(c.push(texts(self.street@))));
            c = c.push(texts(self.street@));
        }
        v.push(';');
        push_joined(&mut v, &self.city, ",");
        proof {
            lemma_components_push(c, texts(self.city@));
            reveal_strlit(";");
            assert(v@ =~= crate::wire::components_text(c.push(texts(self.city@))));
            c = c.push(texts(self.city@));
        }
        v.push(';');
        push_joined(&mut v, &self.region, ",");
        proof {
            lemma_components_push(c, texts(self.region@));
            reveal_strlit(";");
            assert(v@ =~= crate::wire::components_text(c.push(texts(self.region@))));
            c = c.push(texts(self.region@));
        }
        v.push(';');
        push_joined(&mut v, &self.postal_code, ",");
        proof {
            lemma_components_push(c, texts(self.postal_code@));
            reveal_strlit(";");
            assert(v@ =~= crate::wire::components_text(c.push(texts(self.postal_code@))));
            c = c.push(texts(self.postal_code@));
        }
        v.push(';');
        push_joined(&mut v, &self.country, ",");
        proof {
            lemma_components_push(c, texts(self.country@));
            reveal_strlit(";");
            assert(v@ =~= crate::wire::components_text(c.push(texts(self.country@))));
            c = c.push(texts(self.country@));
        }
        assert(c =~= seq![
            texts(self.po_box@),
            texts(self.extended_address@),
            texts(self.street@),
            texts(self.city@),
            texts(self.region@),
            texts(self.postal_code@),
            texts(self.country@),
        ]);
        finish_text(out, v.as_str(), Ghost(old(out)@), Ghost(crate::wire::start_text(self@)));
    }
}

impl Adr {
    /// The wire text of this property: one line, with its line break.
    pub fn to_string(&self) -> (s: String)
        ensures
            s@ == serialize(self@),
    {
        let mut s = String::new();
        self.write_to(&mut s);
        assert(s@ =~= serialize(self@));
        s
    }
}

impl Alternative for Adr {
    fn get_alt_id(&self) -> (r: &str) {
        alt_id_str(&self.altid)
    }
}

impl Preferable for Adr {
    fn get_pref(&self) -> (r: u8) {
        rank(&self.pref)
    }
}

/// A telephone number.
#[derive(Debug, Clone, PartialEq)]
pub struct Tel {
    pub value_data_type: Option<ValueDataType>,
    pub type_param: Option<Vec<String>>,
    pub pid: Option<Pid>,
    pub pref: Option<u8>,
    pub altid: Option<String>,
    pub value: String,
}

impl View for Tel {
    type V = PropertyView;

    open spec fn view(&self) -> PropertyView {
        PropertyView {
            kind: PropertyKind::Tel,
            fields: fields_of(
                None,
                self.altid,
                None,
                self.value_data_type,
                self.pref,
                self.pid,
                self.type_param,
                None,
                None,
                None,
                None,
                None,
                None,
            ),
            value: Payload::Text(self.value@),
        }
    }
}

impl WireText for Tel {
    fn write_to(&self, out: &mut String) {
        write_start(
            out,
            &None,
            "TEL",
            &self.altid,
            &None,
            &self.value_data_type,
            &self.pref,
            &self.pid,
            &self.type_param,
            &None,
            &None,
            &None,
            &None,
            &None,
        );
        finish_text(
            out,
            self.value.as_str(),
            Ghost(old(out)@),
            Ghost(crate::wire::start_text(self@)),
        );
    }
}

impl Tel {
    /// The wire text of this property: one line, with its line break.
    pub fn to_string(&self) -> (s: String)
        ensures
            s@ == serialize(self@),
    {
        let mut s = String::new();
        self.write_to(&mut s);
        assert(s@ =~= serialize(self@));
        s
    }
}

impl Default for Tel {
    fn default() -> (r: Tel)
        ensures
            r.value_data_type is None,
            r.type_param is None,
            r.pid is None,
            r.pref is None,
            r.altid is None,
            r.value@.len() == 0,
    {
        Tel {
            value_data_type: None,
            type_param: None,
            pid: None,
            pref: None,
            altid: None,
            value: String::new(),
        }
    }
}

impl Alternative for Tel {
    fn get_alt_id(&self) -> (r: &str) {
        alt_id_str(&self.altid)
    }
}

impl Preferable for Tel {
    fn get_pref(&self) -> (r: u8) {
        rank(&self.pref)
    }
}

/// An electronic mail address.
#[derive(Debug, Clone, PartialEq)]
pub struct Email {
    pub group: Option<String>,
    pub altid: Option<String>,
    pub pid: Option<Pid>,
    pub pref: Option<u8>,
    pub value_data_type: Option<ValueDataType>,
    pub type_param: Option<Vec<String>>,
    pub value: String,
}

impl View for Email {
    type V = PropertyView;

    open spec fn view(&self) -> PropertyView {
        PropertyView {
            kind: PropertyKind::Email,
            fields: fields_of(
                self.group,
                self.altid,
                None,
                self.value_data_type,
                self.pref,
                self.pid,
                self.type_param,
                None,
                None,
                None,
                None,
                None,
                None,
            ),
            value: Payload::Text(self.value@),
        }
    }
}

impl WireText for Email {
    fn write_to(&self, out: &mut String) {
        write_start(
            out,
            &self.group,
            "EMAIL",
            &self.altid,
            &None,
            &self.value_data_type,
            &self.pref,
            &self.pid,
            &self.type_param,
            &None,
            &None,
            &None,
            &None,
            &None,
        );
        finish_text(
            out,
            self.value.as_str(),
            Ghost(old(out)@),
            Ghost(crate::wire::start_text(self@)),
        );
    }
}

impl Email {
    /// The wire text of this property: one line, with its line break.
    pub fn to_string(&self) -> (s: String)
        ensures
            s@ == serialize(self@),
    {
        let mut s = String::new();
        self.write_to(&mut s);
        assert(s@ =~= serialize(self@));
        s
    }
}

impl Default for Email {
    fn default() -> (r: Email)
        ensures
            r.group is None,
            r.altid is None,
            r.pid is None,
            r.pref is None,
            r.value_data_type is None,
            r.type_param is None,
            r.value@.len() == 0,
    {
        Email {
            group: None,
            altid: None,
            pid: None,
            pref: None,
            value_data_type: None,
            type_param: None,
            value: String::new(),
        }
    }
}

impl Alternative for Email {
    fn get_alt_id(&self) -> (r: &str) {
        alt_id_str(&self.altid)
    }
}

impl Preferable for Email {
    fn get_pref(&self) -> (r: u8) {
        rank(&self.pref)
    }
}

/// An instant messaging address.
#[derive(Debug, Clone, PartialEq)]
pub struct Impp {
    pub group: Option<String>,
    pub altid: Option<String>,
    pub pid: Option<Pid>,
    pub pref: Option<u8>,
    pub mediatype: Option<String>,
    pub value_data_type: Option<ValueDataType>,
    pub type_param: Option<Vec<String>>,
    pub value: Uri,
}

impl View for Impp {
    type V = PropertyView;

    open spec fn view(&self) -> PropertyView {
        PropertyView {
            kind: PropertyKind::Impp,
            fields: fields_of(
                self.group,
                self.altid,
                None,
                self.value_data_type,
                self.pref,
                self.pid,
                self.type_param,
                self.mediatype,
                None,
                None,
                None,
                None,
                None,
            ),
            value: Payload::Text(self.value@),
        }
    }
}

impl WireText for Impp {
    fn write_to(&self, out: &mut String) {
        write_start(
            out,
            &self.group,
            "IMPP",
            &self.altid,
            &None,
            &self.value_data_type,
            &self.pref,
            &self.pid,
            &self.type_param,
            &self.mediatype,
            &None,
            &None,
            &None,
            &None,
        );
        finish_text(
            out,
            self.value.as_str(),
            Ghost(old(out)@),
            Ghost(crate::wire::start_text(self@)),
        );
    }
}

impl Impp {
    /// The wire text of this property: one line, with its line break.
    pub fn to_string(&self) -> (s: String)
        ensures
            s@ == serialize(self@),
    {
        let mut s = String::new();
        self.write_to(&mut s);
        assert(s@ =~= serialize(self@));
        s
    }
}

impl Alternative for Impp {
    fn get_alt_id(&self) -> (r: &str) {
        alt_id_str(&self.altid)
    }
}

impl Preferable for Impp {
    fn get_pref(&self) -> (r: u8) {
        rank(&self.pref)
    }
}

/// A language that the object speaks.
#[derive(Debug, Clone, PartialEq)]
pub struct Lang {
    pub group: Option<String>,
    pub altid: Option<String>,
    pub pid: Option<Pid>,
    pub pref: Option<u8>,
    pub value_data_type: Option<ValueDataType>,
    pub type_param: Option<Vec<String>>,
    pub value: String,
}

impl View for Lang {
    type V = PropertyView;

    open spec fn view(&self) -> PropertyView {
        PropertyView {
            kind: PropertyKind::Lang,
            fields: fields_of(
                self.group,
                self.altid,
                None,
                self.value_data_type,
                self.pref,
                self.pid,
                self.type_param,
                None,
                None,
                None,
                None,
                None,
                None,
            ),
            value: Payload::Text(self.value@),
        }
    }
}

impl WireText for Lang {
    fn write_to(&self, out: &mut String) {
        write_start(
            out,
            &self.group,
            "LANG",
            &self.altid,
            &None,
            &self.value_data_type,
            &self.pref,
            &self.pid,
            &self.type_param,
            &None,
            &None,
            &None,
            &None,
            &None,
        );
        finish_text(
            out,
            self.value.as_str(),
            Ghost(old(out)@),
            Ghost(crate::wire::start_text(self@)),
        );
    }
}

impl Lang {
    /// The wire text of this property: one line, with its line break.
    pub fn to_string(&self) -> (s: String)
        ensures
            s@ == serialize(self@),
    {
        let mut s = String::new();
        self.write_to(&mut s);
        assert(s@ =~= serialize(self@));
        s
    }
}

impl Default for Lang {
    fn default() -> (r: Lang)
        ensures
            r.group is None,
            r.altid is None,
            r.pid is None,
            r.pref is None,
            r.value_data_type is None,
            r.type_param is None,
            r.value@.len() == 0,
    {
        Lang {
            group: None,
            altid: None,
            pid: None,
            pref: None,
            value_data_type: None,
            type_param: None,
            value: String::new(),
        }
    }
}

impl Alternative for Lang {
    fn get_alt_id(&self) -> (r: &str) {
        alt_id_str(&self.altid)
    }
}

impl Preferable for Lang {
    fn get_pref(&self) -> (r: u8) {
        rank(&self.pref)
    }
}

/// The time zone.
#[derive(Debug, Clone, PartialEq)]
pub struct Tz {
    pub group: Option<String>,
    pub altid: Option<String>,
    pub pid: Option<Pid>,
    pub pref: Option<u8>,
    pub value_data_type: Option<ValueDataType>,
    pub type_param: Option<Vec<String>>,
    pub mediatype: Option<String>,
    pub value: String,
}

impl View for Tz {
    type V = PropertyView;

    open spec fn view(&self) -> PropertyView {
        PropertyView {
            kind: PropertyKind::Tz,
            fields: fields_of(
                self.group,
                self.altid,
                None,
                self.value_data_type,
                self.pref,
                self.pid,
                self.type_param,
                self.mediatype,
                None,
                None,
                None,
                None,
                None,
            ),
            value: Payload::Text(self.value@),
        }
    }
}

impl WireText for Tz {
    fn write_to(&self, out: &mut String) {
        write_start(
            out,
            &self.group,
            "TZ",
            &self.altid,
            &None,
            &self.value_data_type,
            &self.pref,
            &self.pid,
            &self.type_param,
            &self.mediatype,
            &None,
            &None,
            &None,
            &None,
        );
        finish_text(
            out,
            self.value.as_str(),
            Ghost(old(out)@),
            Ghost(crate::wire::start_text(self@)),
        );
    }
}

impl Tz {
    /// The wire text of this property: one line, with its line break.
    pub fn to_string(&self) -> (s: String)
        ensures
            s@ == serialize(self@),
    {
        let mut s = String::new();
        self.write_to(&mut s);
        assert(s@ =~= serialize(self@));
        s
    }
}

impl Default for Tz {
    fn default() -> (r: Tz)
        ensures
            r.group is None,
            r.altid is None,
            r.pid is None,
            r.pref is None,
            r.value_data_type is None,
            r.type_param is None,
            r.mediatype is None,
            r.value@.len() == 0,
    {
        Tz {
            group: None,
            altid: None,
            pid: None,
            pref: None,
            value_data_type: None,
            type_param: None,
            mediatype: None,
            value: String::new(),
        }
    }
}

impl Alternative for Tz {
    fn get_alt_id(&self) -> (r: &str) {
        alt_id_str(&self.altid)
    }
}

impl Preferable for Tz {
    fn get_pref(&self) -> (r: u8) {
        rank(&self.pref)
    }
}

/// The position on the globe.
#[derive(Debug, Clone, PartialEq)]
pub struct Geo {
    pub group: Option<String>,
    pub altid: Option<String>,
    pub pid: Option<Pid>,
    pub pref: Option<u8>,
    pub value_data_type: Option<ValueDataType>,
    pub type_param: Option<Vec<String>>,
    pub mediatype: Option<String>,
    pub value: Uri,
}

impl View for Geo {
    type V = PropertyView;

    open spec fn view(&self) -> PropertyView {
        PropertyView {
            kind: PropertyKind::Geo,
            fields: fields_of(
                self.group,
                self.altid,
                None,
                self.value_data_type,
                self.pref,
                self.pid,
                self.type_param,
                self.mediatype,
                None,
                None,
                None,
                None,
                None,
            ),
            value: Payload::Text(self.value@),
        }
    }
}

impl WireText for Geo {
    fn write_to(&self, out: &mut String) {
        write_start(
            out,
            &self.group,
            "GEO",
            &self.altid,
            &None,
            &self.value_data_type,
            &self.pref,
            &self.pid,
            &self.type_param,
            &self.mediatype,
            &None,
            &None,
            &None,
            &None,
        );
        finish_text(
            out,
            self.value.as_str(),
            Ghost(old(out)@),
            Ghost(crate::wire::start_text(self@)),
        );
    }
}

impl Geo {
    /// The wire text of this property: one line, with its line break.
    pub fn to_string(&self) -> (s: String)
        ensures
            s@ == serialize(self@),
    {
        let mut s = String::new();
        self.write_to(&mut s);
        assert(s@ =~= serialize(self@));
        s
    }
}

impl Alternative for Geo {
    fn get_alt_id(&self) -> (r: &str) {
        alt_id_str(&self.altid)
    }
}

impl Preferable for Geo {
    fn get_pref(&self) -> (r: u8) {
        rank(&self.pref)
    }
}

/// The position or job.
#[derive(Debug, Clone, PartialEq)]
pub struct Title {
    pub group: Option<String>,
    pub altid: Option<String>,
    pub pid: Option<Pid>,
    pub pref: Option<u8>,
    pub value_data_type: Option<ValueDataType>,
    pub type_param: Option<Vec<String>>,
    pub language: Option<String>,
    pub value: String,
}

impl View for Title {
    type V = PropertyView;

    open spec fn view(&self) -> PropertyView {
        PropertyView {
            kind: PropertyKind::Title,
            fields: fields_of(
                self.group,
                self.altid,
                self.language,
                self.value_data_type,
                self.pref,
                self.pid,
                self.type_param,
                None,
                None,
                None,
                None,
                None,
                None,
            ),
            value: Payload::Text(self.value@),
        }
    }
}

impl WireText for Title {
    fn write_to(&self, out: &mut String) {
        write_start(
            out,
            &self.group,
            "TITLE",
            &self.altid,
            &self.language,
            &self.value_data_type,
            &self.pref,
            &self.pid,
            &self.type_param,
            &None,
            &None,
            &None,
            &None,
            &None,
        );
        finish_text(
            out,
            self.value.as_str(),
            Ghost(old(out)@),
            Ghost(crate::wire::start_text(self@)),
        );
    }
}

impl Title {
    /// The wire text of this property: one line, with its line break.
    pub fn to_string(&self) -> (s: String)
        ensures
            s@ == serialize(self@),
    {
        let mut s = String::new();
        self.write_to(&mut s);
        assert(s@ =~= serialize(self@));
        s
    }
}

impl Alternative for Title {
    fn get_alt_id(&self) -> (r: &str) {
        alt_id_str(&self.altid)
    }
}

impl Preferable for Title {
    fn get_pref(&self) -> (r: u8) {
        rank(&self.pref)
    }
}

/// The function or part played.
#[derive(Debug, Clone, PartialEq)]
pub struct Role {
    pub group: Option<String>,
    pub altid: Option<String>,
    pub pid: Option<Pid>,
    pub pref: Option<u8>,
    pub value_data_type: Option<ValueDataType>,
    pub type_param: Option<Vec<String>>,
    pub language: Option<String>,
    pub value: String,
}

impl View for Role {
    type V = PropertyView;

    open spec fn view(&self) -> PropertyView {
        PropertyView {
            kind: PropertyKind::Role,
            fields: fields_of(
                self.group,
                self.altid,
                self.language,
                self.value_data_type,
                self.pref,
                self.pid,
                self.type_param,
                None,
                None,
                None,
                None,
                None,
                None,
            ),
            value: Payload::Text(self.value@),
        }
    }
}

impl WireText for Role {
    fn write_to(&self, out: &mut String) {
        write_start(
            out,
            &self.group,
            "ROLE",
            &self.altid,
            &self.language,
            &self.value_data_type,
            &self.pref,
            &self.pid,
            &self.type_param,
            &None,
            &None,
            &None,
            &None,
            &None,
        );
        finish_text(
            out,
            self.value.as_str(),
            Ghost(old(out)@),
            Ghost(crate::wire::start_text(self@)),
        );
    }
}

impl Role {
    /// The wire text of this property: one line, with its line break.
    pub fn to_string(&self) -> (s: String)
        ensures
            s@ == serialize(self@),
    {
        let mut s = String::new();
        self.write_to(&mut s);
        assert(s@ =~= serialize(self@));
        s
    }
}

impl Alternative for Role {
    fn get_alt_id(&self) -> (r: &str) {
        alt_id_str(&self.altid)
    }
}

impl Preferable for Role {
    fn get_pref(&self) -> (r: u8) {
        rank(&self.pref)
    }
}

/// A logo.
#[derive(Debug, Clone, PartialEq)]
pub struct Logo {
    pub group: Option<String>,
    pub altid: Option<String>,
    pub pid: Option<Pid>,
    pub pref: Option<u8>,
    pub value_data_type: Option<ValueDataType>,
    pub type_param: Option<Vec<String>>,
    pub language: Option<String>,
    pub mediatype: Option<String>,
    pub value: Uri,
}

impl View for Logo {
    type V = PropertyView;

    open spec fn view(&self) -> PropertyView {
        PropertyView {
            kind: PropertyKind::Logo,
            fields: fields_of(
                self.group,
                self.altid,
                self.language,
                self.value_data_type,
                self.pref,
                self.pid,
                self.type_param,
                self.mediatype,
                None,
                None,
                None,
                None,
                None,
            ),
            value: Payload::Text(self.value@),
        }
    }
}

impl WireText for Logo {
    fn write_to(&self, out: &mut String) {
        write_start(
            out,
            &self.group,
            "LOGO",
            &self.altid,
            &self.language,
            &self.value_data_type,
            &self.pref,
            &self.pid,
            &self.type_param,
            &self.mediatype,
            &None,
            &None,
            &None,
            &None,
        );
        finish_text(
            out,
            self.value.as_str(),
            Ghost(old(out)@),
            Ghost(crate::wire::start_text(self@)),
        );
    }
}

impl Logo {
    /// The wire text of this property: one line, with its line break.
    pub fn to_string(&self) -> (s: String)
        ensures
            s@ == serialize(self@),
    {
        let mut s = String::new();
        self.write_to(&mut s);
        assert(s@ =~= serialize(self@));
        s
    }
}

impl Alternative for Logo {
    fn get_alt_id(&self) -> (r: &str) {
        alt_id_str(&self.altid)
    }
}

impl Preferable for Logo {
    fn get_pref(&self) -> (r: u8) {
        rank(&self.pref)
    }
}

/// The organization and its units.
#[derive(Debug, Clone, PartialEq)]
pub struct Org {
    pub group: Option<String>,
    pub altid: Option<String>,
    pub pid: Option<Pid>,
    pub pref: Option<u8>,
    pub value_data_type: Option<ValueDataType>,
    pub type_param: Option<Vec<String>>,
    pub language: Option<String>,
    pub sort_as: Option<Vec<String>>,
    pub value: Vec<String>,
}

impl View for Org {
    type V = PropertyView;

    open spec fn view(&self) -> PropertyView {
        PropertyView {
            kind: PropertyKind::Org,
            fields: fields_of(
                self.group,
                self.altid,
                self.language,
                self.value_data_type,
                self.pref,
                self.pid,
                self.type_param,
                None,
                None,
                self.sort_as,
                None,
                None,
                None,
            ),
            value: Payload::List(texts(self.value@)),
        }
    }
}

impl WireText for Org {
    fn write_to(&self, out: &mut String) {
        write_start(
            out,
            &self.group,
            "ORG",
            &self.altid,
            &self.language,
            &self.value_data_type,
            &self.pref,
            &self.pid,
            &self.type_param,
            &None,
            &None,
            &self.sort_as,
            &None,
            &None,
        );
        let mut v = String::new();
        push_joined(&mut v, &self.value, ";");
        assert(v@ =~= crate::wire::value_text(self@.kind, self@.value));
        finish_text(out, v.as_str(), Ghost(old(out)@), Ghost(crate::wire::start_text(self@)));
    }
}

impl Org {
    /// The wire text of this property: one line, with its line break.
    pub fn to_string(&self) -> (s: String)
        ensures
            s@ == serialize(self@),
    {
        let mut s = String::new();
        self.write_to(&mut s);
        assert(s@ =~= serialize(self@));
        s
    }
}

impl Alternative for Org {
    fn get_alt_id(&self) -> (r: &str) {
        alt_id_str(&self.altid)
    }
}

impl Preferable for Org {
    fn get_pref(&self) -> (r: u8) {
        rank(&self.pref)
    }
}

/// A member of the group that the card stands for.
#[derive(Debug, Clone, PartialEq)]
pub struct Member {
    pub group: Option<String>,
    pub altid: Option<String>,
    pub pid: Option<Pid>,
    pub pref: Option<u8>,
    pub mediatype: Option<String>,
    pub value: Uri,
}

impl View for Member {
    type V = PropertyView;

    open spec fn view(&self) -> PropertyView {
        PropertyView {
            kind: PropertyKind::Member,
            fields: fields_of(
                self.group,
                self.altid,
                None,
                None,
                self.pref,
                self.pid,
                None,
                self.mediatype,
                None,
                None,
                None,
                None,
                None,
            ),
            value: Payload::Text(self.value@),
        }
    }
}

impl WireText for Member {
    fn write_to(&self, out: &mut String) {
        write_start(
            out,
            &self.group,
            "MEMBER",
            &self.altid,
            &None,
            &None,
            &self.pref,
            &self.pid,
            &None,
            &self.mediatype,
            &None,
            &None,
            &None,
            &None,
        );
        finish_text(
            out,
            self.value.as_str(),
            Ghost(old(out)@),
            Ghost(crate::wire::start_text(self@)),
        );
    }
}

impl Member {
    /// The wire text of this property: one line, with its line break.
    pub fn to_string(&self) -> (s: String)
        ensures
            s@ == serialize(self@),
    {
        let mut s = String::new();
        self.write_to(&mut s);
        assert(s@ =~= serialize(self@));
        s
    }
}

impl Alternative for Member {
    fn get_alt_id(&self) -> (r: &str) {
        alt_id_str(&self.altid)
    }
}

impl Preferable for Member {
    fn get_pref(&self) -> (r: u8) {
        rank(&self.pref)
    }
}

/// A related object.
#[derive(Debug, Clone, PartialEq)]
pub struct Related {
    pub group: Option<String>,
    pub altid: Option<String>,
    pub pid: Option<Pid>,
    pub pref: Option<u8>,
    pub value_data_type: Option<ValueDataType>,
    pub type_param: Option<Vec<String>>,
    pub language: Option<String>,
    pub mediatype: Option<String>,
    pub value: String,
}

impl View for Related {
    type V = PropertyView;

    open spec fn view(&self) -> PropertyView {
        PropertyView {
            kind: PropertyKind::Related,
            fields: fields_of(
                self.group,
                self.altid,
                self.language,
                self.value_data_type,
                self.pref,
                self.pid,
                self.type_param,
                self.mediatype,
                None,
                None,
                None,
                None,
                None,
            ),
            value: Payload::Text(self.value@),
        }
    }
}

impl WireText for Related {
    fn write_to(&self, out: &mut String) {
        write_start(
            out,
            &self.group,
            "RELATED",
            &self.altid,
            &self.language,
            &self.value_data_type,
            &self.pref,
            &self.pid,
            &self.type_param,
            &self.mediatype,
            &None,
            &None,
            &None,
            &None,
        );
        finish_text(
            out,
            self.value.as_str(),
            Ghost(old(out)@),
            Ghost(crate::wire::start_text(self@)),
        );
    }
}

impl Related {
    /// The wire text of this property: one line, with its line break.
    pub fn to_string(&self) -> (s: String)
        ensures
            s@ == serialize(self@),
    {
        let mut s = String::new();
        self.write_to(&mut s);
        assert(s@ =~= serialize(self@));
        s
    }
}

impl Alternative for Related {
    fn get_alt_id(&self) -> (r: &str) {
        alt_id_str(&self.altid)
    }
}

impl Preferable for Related {
    fn get_pref(&self) -> (r: u8) {
        rank(&self.pref)
    }
}

/// The tags of the card.
#[derive(Debug, Clone, PartialEq)]
pub struct Categories {
    pub group: Option<String>,
    pub altid: Option<String>,
    pub pid: Option<Pid>,
    pub pref: Option<u8>,
    pub value_data_type: Option<ValueDataType>,
    pub type_param: Option<Vec<String>>,
    pub value: Vec<String>,
}

impl View for Categories {
    type V = PropertyView;

    open spec fn view(&self) -> PropertyView {
        PropertyView {
            kind: PropertyKind::Categories,
            fields: fields_of(
                self.group,
                self.altid,
                None,
                self.value_data_type,
                self.pref,
                self.pid,
                self.type_param,
                None,
                None,
                None,
                None,
                None,
                None,
            ),
            value: Payload::List(texts(self.value@)),
        }
    }
}

impl WireText for Categories {
    fn write_to(&self, out: &mut String) {
        write_start(
            out,
            &self.group,
            "CATEGORIES",
            &self.altid,
            &None,
            &self.value_data_type,
            &self.pref,
            &self.pid,
            &self.type_param,
            &None,
            &None,
            &None,
            &None,
            &None,
        );
        let mut v = String::new();
        push_joined(&mut v, &self.value, ",");
        assert(v@ =~= crate::wire::value_text(self@.kind, self@.value));
        finish_text(out, v.as_str(), Ghost(old(out)@), Ghost(crate::wire::start_text(self@)));
    }
}

impl Categories {
    /// The wire text of this property: one line, with its line break.
    pub fn to_string(&self) -> (s: String)
        ensures
            s@ == serialize(self@),
    {
        let mut s = String::new();
        self.write_to(&mut s);
        assert(s@ =~= serialize(self@));
        s
    }
}

impl Alternative for Categories {
    fn get_alt_id(&self) -> (r: &str) {
        alt_id_str(&self.altid)
    }
}

/// A comment.
#[derive(Debug, Clone, PartialEq)]
pub struct Note {
    pub group: Option<String>,
    pub altid: Option<String>,
    pub pid: Option<Pid>,
    pub pref: Option<u8>,
    pub value_data_type: Option<ValueDataType>,
    pub type_param: Option<Vec<String>>,
    pub language: Option<String>,
    pub value: String,
}

impl View for Note {
    type V = PropertyView;

    open spec fn view(&self) -> PropertyView {
        PropertyView {
            kind: PropertyKind::Note,
            fields: fields_of(
                self.group,
                self.altid,
                self.language,
                self.value_data_type,
                self.pref,
                self.pid,
                self.type_param,
                None,
                None,
                None,
                None,
                None,
                None,
            ),
            value: Payload::Text(self.value@),
        }
    }
}

impl WireText for Note {
    fn write_to(&self, out: &mut String) {
        write_start(
            out,
            &self.group,
            "NOTE",
            &self.altid,
            &self.language,
            &self.value_data_type,
            &self.pref,
            &self.pid,
            &self.type_param,
            &None,
            &None,
            &None,
            &None,
            &None,
        );
        finish_text(
            out,
            self.value.as_str(),
            Ghost(old(out)@),
            Ghost(crate::wire::start_text(self@)),
        );
    }
}

impl Note {
    /// The wire text of this property: one line, with its line break.
    pub fn to_string(&self) -> (s: String)
        ensures
            s@ == serialize(self@),
    {
        let mut s = String::new();
        self.write_to(&mut s);
        assert(s@ =~= serialize(self@));
        s
    }
}

impl Alternative for Note {
    fn get_alt_id(&self) -> (r: &str) {
        alt_id_str(&self.altid)
    }
}

/// The product that wrote the card.
#[derive(Debug, Clone, PartialEq)]
pub struct ProdId {
    pub group: Option<String>,
    pub value: String,
}

impl View for ProdId {
    type V = PropertyView;

    open spec fn view(&self) -> PropertyView {
        PropertyView {
            kind: PropertyKind::ProdId,
            fields: fields_of(
                self.group,
                None,
                None,
                None,
                None,
                None,
                None,
                None,
                None,
                None,
                None,
                None,
                None,
            ),
            value: Payload::Text(self.value@),
        }
    }
}

impl WireText for ProdId {
    fn write_to(&self, out: &mut String) {
        write_start(
            out,
            &self.group,
            "PRODID",
            &None,
            &None,
            &None,
            &None,
            &None,
            &None,
            &None,
            &None,
            &None,
            &None,
            &None,
        );
        finish_text(
            out,
            self.value.as_str(),
            Ghost(old(out)@),
            Ghost(crate::wire::start_text(self@)),
        );
    }
}

impl ProdId {
    /// The wire text of this property: one line, with its line break.
    pub fn to_string(&self) -> (s: String)
        ensures
            s@ == serialize(self@),
    {
        let mut s = String::new();
        self.write_to(&mut s);
        assert(s@ =~= serialize(self@));
        s
    }
}

/// When the card was last revised.
#[derive(Debug, Clone, PartialEq)]
pub struct Rev {
    pub group: Option<String>,
    pub value: String,
}

impl View for Rev {
    type V = PropertyView;

    open spec fn view(&self) -> PropertyView {
        PropertyView {
            kind: PropertyKind::Rev,
            fields: fields_of(
                self.group,
                None,
                None,
                None,
                None,
                None,
                None,
                None,
                None,
                None,
                None,
                None,
                None,
            ),
            value: Payload::Text(self.value@),
        }
    }
}

impl WireText for Rev {
    fn write_to(&self, out: &mut String) {
        write_start(
            out,
            &self.group,
            "REV",
            &None,
            &None,
            &None,
            &None,
            &None,
            &None,
            &None,
            &None,
            &None,
            &None,
            &None,
        );
        finish_text(
            out,
            self.value.as_str(),
            Ghost(old(out)@),
            Ghost(crate::wire::start_text(self@)),
        );
    }
}

impl Rev {
    /// The wire text of this property: one line, with its line break.
    pub fn to_string(&self) -> (s: String)
        ensures
            s@ == serialize(self@),
    {
        let mut s = String::new();
        self.write_to(&mut s);
        assert(s@ =~= serialize(self@));
        s
    }
}

/// A sound, such as the pronunciation of the name.
#[derive(Debug, Clone, PartialEq)]
pub struct Sound {
    pub group: Option<String>,
    pub altid: Option<String>,
    pub pid: Option<Pid>,
    pub pref: Option<u8>,
    pub value_data_type: Option<ValueDataType>,
    pub type_param: Option<Vec<String>>,
    pub language: Option<String>,
    pub mediatype: Option<String>,
    pub value: Uri,
}

impl View for Sound {
    type V = PropertyView;

    open spec fn view(&self) -> PropertyView {
        PropertyView {
            kind: PropertyKind::Sound,
            fields: fields_of(
                self.group,
                self.altid,
                self.language,
                self.value_data_type,
                self.pref,
                self.pid,
                self.type_param,
                self.mediatype,
                None,
                None,
                None,
                None,
                None,
            ),
            value: Payload::Text(self.value@),
        }
    }
}

impl WireText for Sound {
    fn write_to(&self, out: &mut String) {
        write_start(
            out,
            &self.group,
            "SOUND",
            &self.altid,
            &self.language,
            &self.value_data_type,
            &self.pref,
            &self.pid,
            &self.type_param,
            &self.mediatype,
            &None,
            &None,
            &None,
            &None,
        );
        finish_text(
            out,
            self.value.as_str(),
            Ghost(old(out)@),
            Ghost(crate::wire::start_text(self@)),
        );
    }
}

impl Sound {
    /// The wire text of this property: one line, with its line break.
    pub fn to_string(&self) -> (s: String)
        ensures
            s@ == serialize(self@),
    {
        let mut s = String::new();
        self.write_to(&mut s);
        assert(s@ =~= serialize(self@));
        s
    }
}

impl Alternative for Sound {
    fn get_alt_id(&self) -> (r: &str) {
        alt_id_str(&self.altid)
    }
}

/// The globally unique identifier of the card.
#[derive(Debug, Clone, PartialEq)]
pub struct Uid {
    pub group: Option<String>,
    pub value_data_type: Option<ValueDataType>,
    pub value: String,
}

impl View for Uid {
    type V = PropertyView;

    open spec fn view(&self) -> PropertyView {
        PropertyView {
            kind: PropertyKind::Uid,
            fields: fields_of(
                self.group,
                None,
                None,
                self.value_data_type,
                None,
                None,
                None,
                None,
                None,
                None,
                None,
                None,
                None,
            ),
            value: Payload::Text(self.value@),
        }
    }
}

impl WireText for Uid {
    fn write_to(&self, out: &mut String) {
        write_start(
            out,
            &self.group,
            "UID",
            &None,
            &None,
            &self.value_data_type,
            &None,
            &None,
            &None,
            &None,
            &None,
            &None,
            &None,
            &None,
        );
        finish_text(
            out,
            self.value.as_str(),
            Ghost(old(out)@),
            Ghost(crate::wire::start_text(self@)),
        );
    }
}

impl Uid {
    /// The wire text of this property: one line, with its line break.
    pub fn to_string(&self) -> (s: String)
        ensures
            s@ == serialize(self@),
    {
        let mut s = String::new();
        self.write_to(&mut s);
        assert(s@ =~= serialize(self@));
        s
    }
}

/// The global meaning of a local PID source number.
#[derive(Debug, Clone, PartialEq)]
pub struct ClientPidMap {
    pub group: Option<String>,
    pub pid_digit: u8,
    pub value: Uri,
}

impl View for ClientPidMap {
    type V = PropertyView;

    open spec fn view(&self) -> PropertyView {
        PropertyView {
            kind: PropertyKind::ClientPidMap,
            fields: fields_of(
                self.group,
                None,
                None,
                None,
                None,
                None,
                None,
                None,
                None,
                None,
                None,
                None,
                None,
            ),
            value: Payload::PidMap { pid_digit: self.pid_digit, uri: self.value@ },
        }
    }
}

impl WireText for ClientPidMap {
    fn write_to(&self, out: &mut String) {
        write_start(
            out,
            &self.group,
            "CLIENTPIDMAP",
            &None,
            &None,
            &None,
            &None,
            &None,
            &None,
            &None,
            &None,
            &None,
            &None,
            &None,
        );
        let mut v = String::new();
        push_u8(&mut v, self.pid_digit);
        v.append(";");
        v.append(self.value.as_str());
        assert(v@ =~= crate::wire::value_text(self@.kind, self@.value));
        finish_text(out, v.as_str(), Ghost(old(out)@), Ghost(crate::wire::start_text(self@)));
    }
}

impl ClientPidMap {
    /// The wire text of this property: one line, with its line break.
    pub fn to_string(&self) -> (s: String)
        ensures
            s@ == serialize(self@),
    {
        let mut s = String::new();
        self.write_to(&mut s);
        assert(s@ =~= serialize(self@));
        s
    }
}

/// A web address.
#[derive(Debug, Clone, PartialEq)]
pub struct VcardURL {
    pub group: Option<String>,
    pub altid: Option<String>,
    pub pid: Option<Pid>,
    pub pref: Option<u8>,
    pub value_data_type: Option<ValueDataType>,
    pub type_param: Option<Vec<String>>,
    pub mediatype: Option<String>,
    pub value: Uri,
}

impl View for VcardURL {
    type V = PropertyView;

    open spec fn view(&self) -> PropertyView {
        PropertyView {
            kind: PropertyKind::Url,
            fields: fields_of(
                self.group,
                self.altid,
                None,
                self.value_data_type,
                self.pref,
                self.pid,
                self.type_param,
                self.mediatype,
                None,
                None,
                None,
                None,
                None,
            ),
            value: Payload::Text(self.value@),
        }
    }
}

impl WireText for VcardURL {
    fn write_to(&self, out: &mut String) {
        write_start(
            out,
            &self.group,
            "URL",
            &self.altid,
            &None,
            &self.value_data_type,
            &self.pref,
            &self.pid,
            &self.type_param,
            &self.mediatype,
            &None,
            &None,
            &None,
            &None,
        );
        finish_text(
            out,
            self.value.as_str(),
            Ghost(old(out)@),
            Ghost(crate::wire::start_text(self@)),
        );
    }
}

impl VcardURL {
    /// The wire text of this property: one line, with its line break.
    pub fn to_string(&self) -> (s: String)
        ensures
            s@ == serialize(self@),
    {
        let mut s = String::new();
        self.write_to(&mut s);
        assert(s@ =~= serialize(self@));
        s
    }
}

impl Alternative for VcardURL {
    fn get_alt_id(&self) -> (r: &str) {
        alt_id_str(&self.altid)
    }
}

/// Where the busy time of the object is published.
#[derive(Debug, Clone, PartialEq)]
pub struct FbURL {
    pub group: Option<String>,
    pub altid: Option<String>,
    pub pid: Option<Pid>,
    pub pref: Option<u8>,
    pub value_data_type: Option<ValueDataType>,
    pub type_param: Option<Vec<String>>,
    pub mediatype: Option<String>,
    pub value: Uri,
}

impl View for FbURL {
    type V = PropertyView;

    open spec fn view(&self) -> PropertyView {
        PropertyView {
            kind: PropertyKind::FbUrl,
            fields: fields_of(
                self.group,
                self.altid,
                None,
                self.value_data_type,
                self.pref,
                self.pid,
                self.type_param,
                self.mediatype,
                None,
                None,
                None,
                None,
                None,
            ),
            value: Payload::Text(self.value@),
        }
    }
}

impl WireText for FbURL {
    fn write_to(&self, out: &mut String) {
        write_start(
            out,
            &self.group,
            "FBURL",
            &self.altid,
            &None,
            &self.value_data_type,
            &self.pref,
            &self.pid,
            &self.type_param,
            &self.mediatype,
            &None,
            &None,
            &None,
            &None,
        );
        finish_text(
            out,
            self.value.as_str(),
            Ghost(old(out)@),
            Ghost(crate::wire::start_text(self@)),
        );
    }
}

impl FbURL {
    /// The wire text of this property: one line, with its line break.
    pub fn to_string(&self) -> (s: String)
        ensures
            s@ == serialize(self@),
    {
        let mut s = String::new();
        self.write_to(&mut s);
        assert(s@ =~= serialize(self@));
        s
    }
}

impl Alternative for FbURL {
    fn get_alt_id(&self) -> (r: &str) {
        alt_id_str(&self.altid)
    }
}

/// Where a calendar request for the object is sent.
#[derive(Debug, Clone, PartialEq)]
pub struct CalAdURI {
    pub group: Option<String>,
    pub altid: Option<String>,
    pub pid: Option<Pid>,
    pub pref: Option<u8>,
    pub value_data_type: Option<ValueDataType>,
    pub type_param: Option<Vec<String>>,
    pub mediatype: Option<String>,
    pub value: Uri,
}

impl View for CalAdURI {
    type V = PropertyView;

    open spec fn view(&self) -> PropertyView {
        PropertyView {
            kind: PropertyKind::CalAdUri,
            fields: fields_of(
                self.group,
                self.altid,
                None,
                self.value_data_type,
                self.pref,
                self.pid,
                self.type_param,
                self.mediatype,
                None,
                None,
                None,
                None,
                None,
            ),
            value: Payload::Text(self.value@),
        }
    }
}

impl WireText for CalAdURI {
    fn write_to(&self, out: &mut String) {
        write_start(
            out,
            &self.group,
            "CALADURI",
            &self.altid,
            &None,
            &self.value_data_type,
            &self.pref,
            &self.pid,
            &self.type_param,
            &self.mediatype,
            &None,
            &None,
            &None,
            &None,
        );
        finish_text(
            out,
            self.value.as_str(),
            Ghost(old(out)@),
            Ghost(crate::wire::start_text(self@)),
        );
    }
}

impl CalAdURI {
    /// The wire text of this property: one line, with its line break.
    pub fn to_string(&self) -> (s: String)
        ensures
            s@ == serialize(self@),
    {
        let mut s = String::new();
        self.write_to(&mut s);
        assert(s@ =~= serialize(self@));
        s
    }
}

impl Alternative for CalAdURI {
    fn get_alt_id(&self) -> (r: &str) {
        alt_id_str(&self.altid)
    }
}

/// The calendar of the object.
#[derive(Debug, Clone, PartialEq)]
pub struct CalURI {
    pub group: Option<String>,
    pub altid: Option<String>,
    pub pid: Option<Pid>,
    pub pref: Option<u8>,
    pub value_data_type: Option<ValueDataType>,
    pub type_param: Option<Vec<String>>,
    pub mediatype: Option<String>,
    pub value: Uri,
}

impl View for CalURI {
    type V = PropertyView;

    open spec fn view(&self) -> PropertyView {
        PropertyView {
            kind: PropertyKind::CalUri,
            fields: fields_of(
                self.group,
                self.altid,
                None,
                self.value_data_type,
                self.pref,
                self.pid,
                self.type_param,
                self.mediatype,
                None,
                None,
                None,
                None,
                None,
            ),
            value: Payload::Text(self.value@),
        }
    }
}

impl WireText for CalURI {
    fn write_to(&self, out: &mut String) {
        write_start(
            out,
            &self.group,
            "CALURI",
            &self.altid,
            &None,
            &self.value_data_type,
            &self.pref,
            &self.pid,
            &self.type_param,
            &self.mediatype,
            &None,
            &None,
            &None,
            &None,
        );
        finish_text(
            out,
            self.value.as_str(),
            Ghost(old(out)@),
            Ghost(crate::wire::start_text(self@)),
        );
    }
}

impl CalURI {
    /// The wire text of this property: one line, with its line break.
    pub fn to_string(&self) -> (s: String)
        ensures
            s@ == serialize(self@),
    {
        let mut s = String::new();
        self.write_to(&mut s);
        assert(s@ =~= serialize(self@));
        s
    }
}

impl Alternative for CalURI {
    fn get_alt_id(&self) -> (r: &str) {
        alt_id_str(&self.altid)
    }
}

/// A public key or certificate.
#[derive(Debug, Clone, PartialEq)]
pub struct Key {
    pub group: Option<String>,
    pub altid: Option<String>,
    pub pid: Option<Pid>,
    pub pref: Option<u8>,
    pub value_data_type: Option<ValueDataType>,
    pub type_param: Option<Vec<String>>,
    pub mediatype: Option<String>,
    pub value: String,
}

impl View for Key {
    type V = PropertyView;

    open spec fn view(&self) -> PropertyView {
        PropertyView {
            kind: PropertyKind::Key,
            fields: fields_of(
                self.group,
                self.altid,
                None,
                self.value_data_type,
                self.pref,
                self.pid,
                self.type_param,
                self.mediatype,
                None,
                None,
                None,
                None,
                None,
            ),
            value: Payload::Text(self.value@),
        }
    }
}

impl WireText for Key {
    fn write_to(&self, out: &mut String) {
        write_start(
            out,
            &self.group,
            "KEY",
            &self.altid,
            &None,
            &self.value_data_type,
            &self.pref,
            &self.pid,
            &self.type_param,
            &self.mediatype,
            &None,
            &None,
            &None,
            &None,
        );
        finish_text(
            out,
            self.value.as_str(),
            Ghost(old(out)@),
            Ghost(crate::wire::start_text(self@)),
        );
    }
}

impl Key {
    /// The wire text of this property: one line, with its line break.
    pub fn to_string(&self) -> (s: String)
        ensures
            s@ == serialize(self@),
    {
        let mut s = String::new();
        self.write_to(&mut s);
        assert(s@ =~= serialize(self@));
        s
    }
}

impl Alternative for Key {
    fn get_alt_id(&self) -> (r: &str) {
        alt_id_str(&self.altid)
    }
}

/// Extended XML content.
#[derive(Debug, Clone, PartialEq)]
pub struct Xml {
    pub altid: Option<String>,
    pub group: Option<String>,
    pub value: String,
}

impl View for Xml {
    type V = PropertyView;

    open spec fn view(&self) -> PropertyView {
        PropertyView {
            kind: PropertyKind::Xml,
            fields: fields_of(
                self.group,
                self.altid,
                None,
                None,
                None,
                None,
                None,
                None,
                None,
                None,
                None,
                None,
                None,
            ),
            value: Payload::Text(self.value@),
        }
    }
}

impl WireText for Xml {
    fn write_to(&self, out: &mut String) {
        write_start(
            out,
            &self.group,
            "XML",
            &self.altid,
            &None,
            &None,
            &None,
            &None,
            &None,
            &None,
            &None,
            &None,
            &None,
            &None,
        );
        finish_text(
            out,
            self.value.as_str(),
            Ghost(old(out)@),
            Ghost(crate::wire::start_text(self@)),
        );
    }
}

impl Xml {
    /// The wire text of this property: one line, with its line break.
    pub fn to_string(&self) -> (s: String)
        ensures
            s@ == serialize(self@),
    {
        let mut s = String::new();
        self.write_to(&mut s);
        assert(s@ =~= serialize(self@));
        s
    }
}

impl Alternative for Xml {
    fn get_alt_id(&self) -> (r: &str) {
        alt_id_str(&self.altid)
    }
}

/// An extension property: one whose name begins with `X-` or `x-`.
#[derive(Debug, Clone, PartialEq)]
pub struct ProprietaryProperty {
    pub name: String,
    pub group: Option<String>,
    pub value: String,
    pub parameters: Vec<Parameter>,
}

impl View for ProprietaryProperty {
    type V = PropertyView;

    open spec fn view(&self) -> PropertyView {
        PropertyView {
            kind: PropertyKind::Proprietary,
            fields: fields_of(
                self.group,
                None,
                None,
                None,
                None,
                None,
                None,
                None,
                None,
                None,
                None,
                None,
                None,
            ),
            value: Payload::Proprietary {
                name: self.name@,
                value: self.value@,
                parameters: parameter_views(self.parameters@),
            },
        }
    }
}

impl WireText for ProprietaryProperty {
    fn write_to(&self, out: &mut String) {
        match &self.group {
            Some(g) => {
                out.append(g.as_str());
                out.append(".");
                out.append(self.name.as_str());
                proof {
                    crate::wire::lemma_append_twice(old(out)@, g@, "."@);
                    crate::wire::lemma_append_twice(old(out)@, g@ + "."@, self.name@);
                }
            },
            None => {
                out.append(self.name.as_str());
            },
        }
        write_params(out, &self.parameters);
        proof {
            crate::wire::lemma_append_twice(
                old(out)@,
                crate::wire::head_text(opt_text(self.group), self.name@),
                crate::wire::params_text(parameter_views(self.parameters@)),
            );
        }
        finish_text(
            out,
            self.value.as_str(),
            Ghost(old(out)@),
            Ghost(crate::wire::start_text(self@)),
        );
    }
}

impl ProprietaryProperty {
    /// The wire text of this property: one line, with its line break.
    pub fn to_string(&self) -> (s: String)
        ensures
            s@ == serialize(self@),
    {
        let mut s = String::new();
        self.write_to(&mut s);
        assert(s@ =~= serialize(self@));
        s
    }
}

} // verus!
