//! One decoded content line: the closed set of properties, and the decoder that turns a
//! logical line into one of them.

use crate::errors::{outcome, ErrorView, VCardError};
use crate::grammar::{
    lemma_views_push, parameters_of, parse_parameters, raw_split, split_unescaped, tokenize,
    tokenize_spec,
};
use crate::model::{
    kind_value_of, no_fields, sex_of, Fields, KindValue, Payload, PropertyKind, PropertyView, Sex,
    VersionValue, WireText,
};
use crate::parameter::{
    has_extension_prefix, is_extension, opt_value_type, parameter_views, u8_of, Parameter,
    ParameterView, Pid, ValueDataType,
};
use crate::records::{
    Adr, Anniversary, BDay, CalAdURI, CalURI, Categories, ClientPidMap, Email, FbURL, FN,
    Gender, Geo, Impp, Key, Kind, Lang, Logo, Member, N, Nickname, Note, Org, Photo, ProdId,
    ProprietaryProperty, Related, Rev, Role, Sound, Source, Tel, Title, Tz, Uid, VcardURL,
    Version, Xml,
};
use crate::text::{
    chars_of, escaped_split, escaped_split_spec, find_next, is_text, is_u8_text, keep_non_empty,
    fold, fold_case, next_of, non_empty, opt_text, opt_texts, parse_u8, split, split_from,
    split_text, text_of, texts,
};
use crate::uri::{uri_of, Uri};
use crate::wire::{fields_of, finish_text, serialize, start_text, write_start};
use vstd::prelude::*;
use vstd::string::*;

verus! {

/// One property of a card.
#[derive(Debug, Clone, PartialEq)]
pub enum Property {
    Begin { value: String },
    End { value: String },
    Version(Version),
    Source(Source),
    Kind(Kind),
    FN(FN),
    N(N),
    NickName(Nickname),
    Photo(Photo),
    BDay(BDay),
    Anniversary(Anniversary),
    Gender(Gender),
    Adr(Adr),
    Tel(Tel),
    Email(Email),
    Impp(Impp),
    Lang(Lang),
    Tz(Tz),
    Geo(Geo),
    Title(Title),
    Role(Role),
    Logo(Logo),
    Org(Org),
    Member(Member),
    Related(Related),
    Categories(Categories),
    Note(Note),
    ProdId(ProdId),
    Rev(Rev),
    Sound(Sound),
    Uid(Uid),
    ClientPidMap(ClientPidMap),
    Url(VcardURL),
    Key(Key),
    FbUrl(FbURL),
    CalAdUri(CalAdURI),
    CalUri(CalURI),
    Xml(Xml),
    Proprietary(ProprietaryProperty),
}

/// The view of `BEGIN` and `END`, which carry only their tag.
pub open spec fn tag_view(kind: PropertyKind, value: Seq<char>) -> PropertyView {
    PropertyView { kind, fields: no_fields(), value: Payload::Text(value) }
}

impl View for Property {
    type V = PropertyView;

    open spec fn view(&self) -> PropertyView {
        match *self {
            Property::Begin { value } => tag_view(PropertyKind::Begin, value@),
            Property::End { value } => tag_view(PropertyKind::End, value@),
            Property::Version(p) => p@,
            Property::Source(p) => p@,
            Property::Kind(p) => p@,
            Property::FN(p) => p@,
            Property::N(p) => p@,
            Property::NickName(p) => p@,
            Property::Photo(p) => p@,
            Property::BDay(p) => p@,
            Property::Anniversary(p) => p@,
            Property::Gender(p) => p@,
            Property::Adr(p) => p@,
            Property::Tel(p) => p@,
            Property::Email(p) => p@,
            Property::Impp(p) => p@,
            Property::Lang(p) => p@,
            Property::Tz(p) => p@,
            Property::Geo(p) => p@,
            Property::Title(p) => p@,
            Property::Role(p) => p@,
            Property::Logo(p) => p@,
            Property::Org(p) => p@,
            Property::Member(p) => p@,
            Property::Related(p) => p@,
            Property::Categories(p) => p@,
            Property::Note(p) => p@,
            Property::ProdId(p) => p@,
            Property::Rev(p) => p@,
            Property::Sound(p) => p@,
            Property::Uid(p) => p@,
            Property::ClientPidMap(p) => p@,
            Property::Url(p) => p@,
            Property::Key(p) => p@,
            Property::FbUrl(p) => p@,
            Property::CalAdUri(p) => p@,
            Property::CalUri(p) => p@,
            Property::Xml(p) => p@,
            Property::Proprietary(p) => p@,
        }
    }
}

/// The property that the lower-case name `l` names, if it is a standard one.
pub open spec fn keyword(l: Seq<char>) -> Option<PropertyKind> {
    if l == "begin"@ {
        Some(PropertyKind::Begin)
    } else if l == "end"@ {
        Some(PropertyKind::End)
    } else if l == "version"@ {
        Some(PropertyKind::Version)
    } else if l == "source"@ {
        Some(PropertyKind::Source)
    } else if l == "kind"@ {
        Some(PropertyKind::Kind)
    } else if l == "fn"@ {
        Some(PropertyKind::FN)
    } else if l == "n"@ {
        Some(PropertyKind::N)
    } else if l == "nickname"@ {
        Some(PropertyKind::NickName)
    } else if l == "photo"@ {
        Some(PropertyKind::Photo)
    } else if l == "bday"@ {
        Some(PropertyKind::BDay)
    } else if l == "anniversary"@ {
        Some(PropertyKind::Anniversary)
    } else if l == "gender"@ {
        Some(PropertyKind::Gender)
    } else if l == "adr"@ {
        Some(PropertyKind::Adr)
    } else if l == "tel"@ {
        Some(PropertyKind::Tel)
    } else if l == "email"@ {
        Some(PropertyKind::Email)
    } else if l == "impp"@ {
        Some(PropertyKind::Impp)
    } else if l == "lang"@ {
        Some(PropertyKind::Lang)
    } else if l == "tz"@ {
        Some(PropertyKind::Tz)
    } else if l == "geo"@ {
        Some(PropertyKind::Geo)
    } else if l == "title"@ {
        Some(PropertyKind::Title)
    } else if l == "role"@ {
        Some(PropertyKind::Role)
    } else if l == "logo"@ {
        Some(PropertyKind::Logo)
    } else if l == "org"@ {
        Some(PropertyKind::Org)
    } else if l == "member"@ {
        Some(PropertyKind::Member)
    } else if l == "related"@ {
        Some(PropertyKind::Related)
    } else if l == "categories"@ {
        Some(PropertyKind::Categories)
    } else if l == "note"@ {
        Some(PropertyKind::Note)
    } else if l == "prodid"@ {
        Some(PropertyKind::ProdId)
    } else if l == "rev"@ {
        Some(PropertyKind::Rev)
    } else if l == "sound"@ {
        Some(PropertyKind::Sound)
    } else if l == "uid"@ {
        Some(PropertyKind::Uid)
    } else if l == "clientpidmap"@ {
        Some(PropertyKind::ClientPidMap)
    } else if l == "url"@ {
        Some(PropertyKind::Url)
    } else if l == "key"@ {
        Some(PropertyKind::Key)
    } else if l == "fburl"@ {
        Some(PropertyKind::FbUrl)
    } else if l == "caladuri"@ {
        Some(PropertyKind::CalAdUri)
    } else if l == "caluri"@ {
        Some(PropertyKind::CalUri)
    } else if l == "xml"@ {
        Some(PropertyKind::Xml)
    } else {
        None
    }
}

/// Looks up a lower-case property name.
pub fn keyword_of(l: &Vec<char>) -> (r: Option<PropertyKind>)
    ensures
        r == keyword(l@),
{
    if is_text(l, "begin") {
        Some(PropertyKind::Begin)
    } else if is_text(l, "end") {
        Some(PropertyKind::End)
    } else if is_text(l, "version") {
        Some(PropertyKind::Version)
    } else if is_text(l, "source") {
        Some(PropertyKind::Source)
    } else if is_text(l, "kind") {
        Some(PropertyKind::Kind)
    } else if is_text(l, "fn") {
        Some(PropertyKind::FN)
    } else if is_text(l, "n") {
        Some(PropertyKind::N)
    } else if is_text(l, "nickname") {
        Some(PropertyKind::NickName)
    } else if is_text(l, "photo") {
        Some(PropertyKind::Photo)
    } else if is_text(l, "bday") {
        Some(PropertyKind::BDay)
    } else if is_text(l, "anniversary") {
        Some(PropertyKind::Anniversary)
    } else if is_text(l, "gender") {
        Some(PropertyKind::Gender)
    } else if is_text(l, "adr") {
        Some(PropertyKind::Adr)
    } else if is_text(l, "tel") {
        Some(PropertyKind::Tel)
    } else if is_text(l, "email") {
        Some(PropertyKind::Email)
    } else if is_text(l, "impp") {
        Some(PropertyKind::Impp)
    } else if is_text(l, "lang") {
        Some(PropertyKind::Lang)
    } else if is_text(l, "tz") {
        Some(PropertyKind::Tz)
    } else if is_text(l, "geo") {
        Some(PropertyKind::Geo)
    } else if is_text(l, "title") {
        Some(PropertyKind::Title)
    } else if is_text(l, "role") {
        Some(PropertyKind::Role)
    } else if is_text(l, "logo") {
        Some(PropertyKind::Logo)
    } else if is_text(l, "org") {
        Some(PropertyKind::Org)
    } else if is_text(l, "member") {
        Some(PropertyKind::Member)
    } else if is_text(l, "related") {
        Some(PropertyKind::Related)
    } else if is_text(l, "categories") {
        Some(PropertyKind::Categories)
    } else if is_text(l, "note") {
        Some(PropertyKind::Note)
    } else if is_text(l, "prodid") {
        Some(PropertyKind::ProdId)
    } else if is_text(l, "rev") {
        Some(PropertyKind::Rev)
    } else if is_text(l, "sound") {
        Some(PropertyKind::Sound)
    } else if is_text(l, "uid") {
        Some(PropertyKind::Uid)
    } else if is_text(l, "clientpidmap") {
        Some(PropertyKind::ClientPidMap)
    } else if is_text(l, "url") {
        Some(PropertyKind::Url)
    } else if is_text(l, "key") {
        Some(PropertyKind::Key)
    } else if is_text(l, "fburl") {
        Some(PropertyKind::FbUrl)
    } else if is_text(l, "caladuri") {
        Some(PropertyKind::CalAdUri)
    } else if is_text(l, "caluri") {
        Some(PropertyKind::CalUri)
    } else if is_text(l, "xml") {
        Some(PropertyKind::Xml)
    } else {
        None
    }
}

/// Which of the group and the parameters a property declares.
#[derive(Debug, Clone, Copy, PartialEq, Eq)]
pub struct FieldSet {
    pub group: bool,
    pub altid: bool,
    pub language: bool,
    pub value_data_type: bool,
    pub pref: bool,
    pub pid: bool,
    pub type_param: bool,
    pub mediatype: bool,
    pub calscale: bool,
    pub sort_as: bool,
    pub geo: bool,
    pub tz: bool,
    pub label: bool,
}

/// The group and the parameters that each standard property declares. An extension
/// property declares none: it keeps its parameters as a list.
pub open spec fn field_set(kind: PropertyKind) -> FieldSet {
    match kind {
        PropertyKind::Begin => FieldSet {
            group: false,
            altid: false,
            language: false,
            value_data_type: false,
            pref: false,
            pid: false,
            type_param: false,
            mediatype: false,
            calscale: false,
            sort_as: false,
            geo: false,
            tz: false,
            label: false,
        },
        PropertyKind::End => FieldSet {
            group: false,
            altid: false,
            language: false,
            value_data_type: false,
            pref: false,
            pid: false,
            type_param: false,
            mediatype: false,
            calscale: false,
            sort_as: false,
            geo: false,
            tz: false,
            label: false,
        },
        PropertyKind::Version => FieldSet {
            group: false,
            altid: false,
            language: false,
            value_data_type: false,
            pref: false,
            pid: false,
            type_param: false,
            mediatype: false,
            calscale: false,
            sort_as: false,
            geo: false,
            tz: false,
            label: false,
        },
        PropertyKind::Source => FieldSet {
            group: true,
            altid: true,
            language: false,
            value_data_type: false,
            pref: false,
            pid: true,
            type_param: false,
            mediatype: true,
            calscale: false,
            sort_as: false,
            geo: false,
            tz: false,
            label: false,
        },
        PropertyKind::Kind => FieldSet {
            group: true,
            altid: false,
            language: false,
            value_data_type: false,
            pref: false,
            pid: false,
            type_param: false,
            mediatype: false,
            calscale: false,
            sort_as: false,
            geo: false,
            tz: false,
            label: false,
        },
        PropertyKind::FN => FieldSet {
            group: true,
            altid: true,
            language: true,
            value_data_type: true,
            pref: true,
            pid: false,
            type_param: true,
            mediatype: false,
            calscale: false,
            sort_as: false,
            geo: false,
            tz: false,
            label: false,
        },
        PropertyKind::N => FieldSet {
            group: true,
            altid: true,
            language: true,
            value_data_type: false,
            pref: false,
            pid: false,
            type_param: false,
            mediatype: false,
            calscale: false,
            sort_as: true,
            geo: false,
            tz: false,
            label: false,
        },
        PropertyKind::NickName => FieldSet {
            group: true,
            altid: true,
            language: true,
            value_data_type: true,
            pref: true,
            pid: true,
            type_param: true,
            mediatype: false,
            calscale: false,
            sort_as: false,
            geo: false,
            tz: false,
            label: false,
        },
        PropertyKind::Photo => FieldSet {
            group: true,
            altid: true,
            language: false,
            value_data_type: true,
            pref: true,
            pid: true,
            type_param: true,
            mediatype: true,
            calscale: false,
            sort_as: false,
            geo: false,
            tz: false,
            label: false,
        },
        PropertyKind::BDay => FieldSet {
            group: false,
            altid: true,
            language: true,
            value_data_type: true,
            pref: false,
            pid: false,
            type_param: false,
            mediatype: false,
            calscale: true,
            sort_as: false,
            geo: false,
            tz: false,
            label: false,
        },
        PropertyKind::Anniversary => FieldSet {
            group: false,
            altid: true,
            language: false,
            value_data_type: true,
            pref: false,
            pid: false,
            type_param: false,
            mediatype: false,
            calscale: true,
            sort_as: false,
            geo: false,
            tz: false,
            label: false,
        },
        PropertyKind::Gender => FieldSet {
            group: false,
            altid: false,
            language: false,
            value_data_type: false,
            pref: false,
            pid: false,
            type_param: false,
            mediatype: false,
            calscale: false,
            sort_as: false,
            geo: false,
            tz: false,
            label: false,
        },
        PropertyKind::Adr => FieldSet {
            group: true,
            altid: true,
            language: true,
            value_data_type: true,
            pref: true,
            pid: true,
            type_param: true,
            mediatype: false,
            calscale: false,
            sort_as: false,
            geo: true,
            tz: true,
            label: true,
        },
        PropertyKind::Tel => FieldSet {
            group: false,
            altid: true,
            language: false,
            value_data_type: true,
            pref: true,
            pid: true,
            type_param: true,
            mediatype: false,
            calscale: false,
            sort_as: false,
            geo: false,
            tz: false,
            label: false,
        },
        PropertyKind::Email => FieldSet {
            group: true,
            altid: true,
            language: false,
            value_data_type: true,
            pref: true,
            pid: true,
            type_param: true,
            mediatype: false,
            calscale: false,
            sort_as: false,
            geo: false,
            tz: false,
            label: false,
        },
        PropertyKind::Impp => FieldSet {
            group: true,
            altid: true,
            language: false,
            value_data_type: true,
            pref: true,
            pid: true,
            type_param: true,
            mediatype: true,
            calscale: false,
            sort_as: false,
            geo: false,
            tz: false,
            label: false,
        },
        PropertyKind::Lang => FieldSet {
            group: true,
            altid: true,
            language: false,
            value_data_type: true,
            pref: true,
            pid: true,
            type_param: true,
            mediatype: false,
            calscale: false,
            sort_as: false,
            geo: false,
            tz: false,
            label: false,
        },
        PropertyKind::Tz => FieldSet {
            group: true,
            altid: true,
            language: false,
            value_data_type: true,
            pref: true,
            pid: true,
            type_param: true,
            mediatype: true,
            calscale: false,
            sort_as: false,
            geo: false,
            tz: false,
            label: false,
        },
        PropertyKind::Geo => FieldSet {
            group: true,
            altid: true,
            language: false,
            value_data_type: true,
            pref: true,
            pid: true,
            type_param: true,
            mediatype: true,
            calscale: false,
            sort_as: false,
            geo: false,
            tz: false,
            label: false,
        },
        PropertyKind::Title => FieldSet {
            group: true,
            altid: true,
            language: true,
            value_data_type: true,
            pref: true,
            pid: true,
            type_param: true,
            mediatype: false,
            calscale: false,
            sort_as: false,
            geo: false,
            tz: false,
            label: false,
        },
        PropertyKind::Role => FieldSet {
            group: true,
            altid: true,
            language: true,
            value_data_type: true,
            pref: true,
            pid: true,
            type_param: true,
            mediatype: false,
            calscale: false,
            sort_as: false,
            geo: false,
            tz: false,
            label: false,
        },
        PropertyKind::Logo => FieldSet {
            group: true,
            altid: true,
            language: true,
            value_data_type: true,
            pref: true,
            pid: true,
            type_param: true,
            mediatype: true,
            calscale: false,
            sort_as: false,
            geo: false,
            tz: false,
            label: false,
        },
        PropertyKind::Org => FieldSet {
            group: true,
            altid: true,
            language: true,
            value_data_type: true,
            pref: true,
            pid: true,
            type_param: true,
            mediatype: false,
            calscale: false,
            sort_as: true,
            geo: false,
            tz: false,
            label: false,
        },
        PropertyKind::Member => FieldSet {
            group: true,
            altid: true,
            language: false,
            value_data_type: false,
            pref: true,
            pid: true,
            type_param: false,
            mediatype: true,
            calscale: false,
            sort_as: false,
            geo: false,
            tz: false,
            label: false,
        },
        PropertyKind::Related => FieldSet {
            group: true,
            altid: true,
            language: true,
            value_data_type: true,
            pref: true,
            pid: true,
            type_param: true,
            mediatype: true,
            calscale: false,
            sort_as: false,
            geo: false,
            tz: false,
            label: false,
        },
        PropertyKind::Categories => FieldSet {
            group: true,
            altid: true,
            language: false,
            value_data_type: true,
            pref: true,
            pid: true,
            type_param: true,
            mediatype: false,
            calscale: false,
            sort_as: false,
            geo: false,
            tz: false,
            label: false,
        },
        PropertyKind::Note => FieldSet {
            group: true,
            altid: true,
            language: true,
            value_data_type: true,
            pref: true,
            pid: true,
            type_param: true,
            mediatype: false,
            calscale: false,
            sort_as: false,
            geo: false,
            tz: false,
            label: false,
        },
        PropertyKind::ProdId => FieldSet {
            group: true,
            altid: false,
            language: false,
            value_data_type: false,
            pref: false,
            pid: false,
            type_param: false,
            mediatype: false,
            calscale: false,
            sort_as: false,
            geo: false,
            tz: false,
            label: false,
        },
        PropertyKind::Rev => FieldSet {
            group: true,
            altid: false,
            language: false,
            value_data_type: false,
            pref: false,
            pid: false,
            type_param: false,
            mediatype: false,
            calscale: false,
            sort_as: false,
            geo: false,
            tz: false,
            label: false,
        },
        PropertyKind::Sound => FieldSet {
            group: true,
            altid: true,
            language: true,
            value_data_type: true,
            pref: true,
            pid: true,
            type_param: true,
            mediatype: true,
            calscale: false,
            sort_as: false,
            geo: false,
            tz: false,
            label: false,
        },
        PropertyKind::Uid => FieldSet {
            group: true,
            altid: false,
            language: false,
            value_data_type: true,
            pref: false,
            pid: false,
            type_param: false,
            mediatype: false,
            calscale: false,
            sort_as: false,
            geo: false,
            tz: false,
            label: false,
        },
        PropertyKind::ClientPidMap => FieldSet {
            group: true,
            altid: false,
            language: false,
            value_data_type: false,
            pref: false,
            pid: false,
            type_param: false,
            mediatype: false,
            calscale: false,
            sort_as: false,
            geo: false,
            tz: false,
            label: false,
        },
        PropertyKind::Url => FieldSet {
            group: true,
            altid: true,
            language: false,
            value_data_type: true,
            pref: true,
            pid: true,
            type_param: true,
            mediatype: true,
            calscale: false,
            sort_as: false,
            geo: false,
            tz: false,
            label: false,
        },
        PropertyKind::Key => FieldSet {
            group: true,
            altid: true,
            language: false,
            value_data_type: true,
            pref: true,
            pid: true,
            type_param: true,
            mediatype: true,
            calscale: false,
            sort_as: false,
            geo: false,
            tz: false,
            label: false,
        },
        PropertyKind::FbUrl => FieldSet {
            group: true,
            altid: true,
            language: false,
            value_data_type: true,
            pref: true,
            pid: true,
            type_param: true,
            mediatype: true,
            calscale: false,
            sort_as: false,
            geo: false,
            tz: false,
            label: false,
        },
        PropertyKind::CalAdUri => FieldSet {
            group: true,
            altid: true,
            language: false,
            value_data_type: true,
            pref: true,
            pid: true,
            type_param: true,
            mediatype: true,
            calscale: false,
            sort_as: false,
            geo: false,
            tz: false,
            label: false,
        },
        PropertyKind::CalUri => FieldSet {
            group: true,
            altid: true,
            language: false,
            value_data_type: true,
            pref: true,
            pid: true,
            type_param: true,
            mediatype: true,
            calscale: false,
            sort_as: false,
            geo: false,
            tz: false,
            label: false,
        },
        PropertyKind::Xml => FieldSet {
            group: true,
            altid: true,
            language: false,
            value_data_type: false,
            pref: false,
            pid: false,
            type_param: false,
            mediatype: false,
            calscale: false,
            sort_as: false,
            geo: false,
            tz: false,
            label: false,
        },
        PropertyKind::Proprietary => FieldSet {
            group: false,
            altid: false,
            language: false,
            value_data_type: false,
            pref: false,
            pid: false,
            type_param: false,
            mediatype: false,
            calscale: false,
            sort_as: false,
            geo: false,
            tz: false,
            label: false,
        },
    }
}

/// The group and the parameters that a property of kind `kind` declares.
pub fn field_set_of(kind: PropertyKind) -> (r: FieldSet)
    ensures
        r == field_set(kind),
{
    match kind {
        PropertyKind::Begin => FieldSet {
            group: false,
            altid: false,
            language: false,
            value_data_type: false,
            pref: false,
            pid: false,
            type_param: false,
            mediatype: false,
            calscale: false,
            sort_as: false,
            geo: false,
            tz: false,
            label: false,
        },
        PropertyKind::End => FieldSet {
            group: false,
            altid: false,
            language: false,
            value_data_type: false,
            pref: false,
            pid: false,
            type_param: false,
            mediatype: false,
            calscale: false,
            sort_as: false,
            geo: false,
            tz: false,
            label: false,
        },
        PropertyKind::Version => FieldSet {
            group: false,
            altid: false,
            language: false,
            value_data_type: false,
            pref: false,
            pid: false,
            type_param: false,
            mediatype: false,
            calscale: false,
            sort_as: false,
            geo: false,
            tz: false,
            label: false,
        },
        PropertyKind::Source => FieldSet {
            group: true,
            altid: true,
            language: false,
            value_data_type: false,
            pref: false,
            pid: true,
            type_param: false,
            mediatype: true,
            calscale: false,
            sort_as: false,
            geo: false,
            tz: false,
            label: false,
        },
        PropertyKind::Kind => FieldSet {
            group: true,
            altid: false,
            language: false,
            value_data_type: false,
            pref: false,
            pid: false,
            type_param: false,
            mediatype: false,
            calscale: false,
            sort_as: false,
            geo: false,
            tz: false,
            label: false,
        },
        PropertyKind::FN => FieldSet {
            group: true,
            altid: true,
            language: true,
            value_data_type: true,
            pref: true,
            pid: false,
            type_param: true,
            mediatype: false,
            calscale: false,
            sort_as: false,
            geo: false,
            tz: false,
            label: false,
        },
        PropertyKind::N => FieldSet {
            group: true,
            altid: true,
            language: true,
            value_data_type: false,
            pref: false,
            pid: false,
            type_param: false,
            mediatype: false,
            calscale: false,
            sort_as: true,
            geo: false,
            tz: false,
            label: false,
        },
        PropertyKind::NickName => FieldSet {
            group: true,
            altid: true,
            language: true,
            value_data_type: true,
            pref: true,
            pid: true,
            type_param: true,
            mediatype: false,
            calscale: false,
            sort_as: false,
            geo: false,
            tz: false,
            label: false,
        },
        PropertyKind::Photo => FieldSet {
            group: true,
            altid: true,
            language: false,
            value_data_type: true,
            pref: true,
            pid: true,
            type_param: true,
            mediatype: true,
            calscale: false,
            sort_as: false,
            geo: false,
            tz: false,
            label: false,
        },
        PropertyKind::BDay => FieldSet {
            group: false,
            altid: true,
            language: true,
            value_data_type: true,
            pref: false,
            pid: false,
            type_param: false,
            mediatype: false,
            calscale: true,
            sort_as: false,
            geo: false,
            tz: false,
            label: false,
        },
        PropertyKind::Anniversary => FieldSet {
            group: false,
            altid: true,
            language: false,
            value_data_type: true,
            pref: false,
            pid: false,
            type_param: false,
            mediatype: false,
            calscale: true,
            sort_as: false,
            geo: false,
            tz: false,
            label: false,
        },
        PropertyKind::Gender => FieldSet {
            group: false,
            altid: false,
            language: false,
            value_data_type: false,
            pref: false,
            pid: false,
            type_param: false,
            mediatype: false,
            calscale: false,
            sort_as: false,
            geo: false,
            tz: false,
            label: false,
        },
        PropertyKind::Adr => FieldSet {
            group: true,
            altid: true,
            language: true,
            value_data_type: true,
            pref: true,
            pid: true,
            type_param: true,
            mediatype: false,
            calscale: false,
            sort_as: false,
            geo: true,
            tz: true,
            label: true,
        },
        PropertyKind::Tel => FieldSet {
            group: false,
            altid: true,
            language: false,
            value_data_type: true,
            pref: true,
            pid: true,
            type_param: true,
            mediatype: false,
            calscale: false,
            sort_as: false,
            geo: false,
            tz: false,
            label: false,
        },
        PropertyKind::Email => FieldSet {
            group: true,
            altid: true,
            language: false,
            value_data_type: true,
            pref: true,
            pid: true,
            type_param: true,
            mediatype: false,
            calscale: false,
            sort_as: false,
            geo: false,
            tz: false,
            label: false,
        },
        PropertyKind::Impp => FieldSet {
            group: true,
            altid: true,
            language: false,
            value_data_type: true,
            pref: true,
            pid: true,
            type_param: true,
            mediatype: true,
            calscale: false,
            sort_as: false,
            geo: false,
            tz: false,
            label: false,
        },
        PropertyKind::Lang => FieldSet {
            group: true,
            altid: true,
            language: false,
            value_data_type: true,
            pref: true,
            pid: true,
            type_param: true,
            mediatype: false,
            calscale: false,
            sort_as: false,
            geo: false,
            tz: false,
            label: false,
        },
        PropertyKind::Tz => FieldSet {
            group: true,
            altid: true,
            language: false,
            value_data_type: true,
            pref: true,
            pid: true,
            type_param: true,
            mediatype: true,
            calscale: false,
            sort_as: false,
            geo: false,
            tz: false,
            label: false,
        },
        PropertyKind::Geo => FieldSet {
            group: true,
            altid: true,
            language: false,
            value_data_type: true,
            pref: true,
            pid: true,
            type_param: true,
            mediatype: true,
            calscale: false,
            sort_as: false,
            geo: false,
            tz: false,
            label: false,
        },
        PropertyKind::Title => FieldSet {
            group: true,
            altid: true,
            language: true,
            value_data_type: true,
            pref: true,
            pid: true,
            type_param: true,
            mediatype: false,
            calscale: false,
            sort_as: false,
            geo: false,
            tz: false,
            label: false,
        },
        PropertyKind::Role => FieldSet {
            group: true,
            altid: true,
            language: true,
            value_data_type: true,
            pref: true,
            pid: true,
            type_param: true,
            mediatype: false,
            calscale: false,
            sort_as: false,
            geo: false,
            tz: false,
            label: false,
        },
        PropertyKind::Logo => FieldSet {
            group: true,
            altid: true,
            language: true,
            value_data_type: true,
            pref: true,
            pid: true,
            type_param: true,
            mediatype: true,
            calscale: false,
            sort_as: false,
            geo: false,
            tz: false,
            label: false,
        },
        PropertyKind::Org => FieldSet {
            group: true,
            altid: true,
            language: true,
            value_data_type: true,
            pref: true,
            pid: true,
            type_param: true,
            mediatype: false,
            calscale: false,
            sort_as: true,
            geo: false,
            tz: false,
            label: false,
        },
        PropertyKind::Member => FieldSet {
            group: true,
            altid: true,
            language: false,
            value_data_type: false,
            pref: true,
            pid: true,
            type_param: false,
            mediatype: true,
            calscale: false,
            sort_as: false,
            geo: false,
            tz: false,
            label: false,
        },
        PropertyKind::Related => FieldSet {
            group: true,
            altid: true,
            language: true,
            value_data_type: true,
            pref: true,
            pid: true,
            type_param: true,
            mediatype: true,
            calscale: false,
            sort_as: false,
            geo: false,
            tz: false,
            label: false,
        },
        PropertyKind::Categories => FieldSet {
            group: true,
            altid: true,
            language: false,
            value_data_type: true,
            pref: true,
            pid: true,
            type_param: true,
            mediatype: false,
            calscale: false,
            sort_as: false,
            geo: false,
            tz: false,
            label: false,
        },
        PropertyKind::Note => FieldSet {
            group: true,
            altid: true,
            language: true,
            value_data_type: true,
            pref: true,
            pid: true,
            type_param: true,
            mediatype: false,
            calscale: false,
            sort_as: false,
            geo: false,
            tz: false,
            label: false,
        },
        PropertyKind::ProdId => FieldSet {
            group: true,
            altid: false,
            language: false,
            value_data_type: false,
            pref: false,
            pid: false,
            type_param: false,
            mediatype: false,
            calscale: false,
            sort_as: false,
            geo: false,
            tz: false,
            label: false,
        },
        PropertyKind::Rev => FieldSet {
            group: true,
            altid: false,
            language: false,
            value_data_type: false,
            pref: false,
            pid: false,
            type_param: false,
            mediatype: false,
            calscale: false,
            sort_as: false,
            geo: false,
            tz: false,
            label: false,
        },
        PropertyKind::Sound => FieldSet {
            group: true,
            altid: true,
            language: true,
            value_data_type: true,
            pref: true,
            pid: true,
            type_param: true,
            mediatype: true,
            calscale: false,
            sort_as: false,
            geo: false,
            tz: false,
            label: false,
        },
        PropertyKind::Uid => FieldSet {
            group: true,
            altid: false,
            language: false,
            value_data_type: true,
            pref: false,
            pid: false,
            type_param: false,
            mediatype: false,
            calscale: false,
            sort_as: false,
            geo: false,
            tz: false,
            label: false,
        },
        PropertyKind::ClientPidMap => FieldSet {
            group: true,
            altid: false,
            language: false,
            value_data_type: false,
            pref: false,
            pid: false,
            type_param: false,
            mediatype: false,
            calscale: false,
            sort_as: false,
            geo: false,
            tz: false,
            label: false,
        },
        PropertyKind::Url => FieldSet {
            group: true,
            altid: true,
            language: false,
            value_data_type: true,
            pref: true,
            pid: true,
            type_param: true,
            mediatype: true,
            calscale: false,
            sort_as: false,
            geo: false,
            tz: false,
            label: false,
        },
        PropertyKind::Key => FieldSet {
            group: true,
            altid: true,
            language: false,
            value_data_type: true,
            pref: true,
            pid: true,
            type_param: true,
            mediatype: true,
            calscale: false,
            sort_as: false,
            geo: false,
            tz: false,
            label: false,
        },
        PropertyKind::FbUrl => FieldSet {
            group: true,
            altid: true,
            language: false,
            value_data_type: true,
            pref: true,
            pid: true,
            type_param: true,
            mediatype: true,
            calscale: false,
            sort_as: false,
            geo: false,
            tz: false,
            label: false,
        },
        PropertyKind::CalAdUri => FieldSet {
            group: true,
            altid: true,
            language: false,
            value_data_type: true,
            pref: true,
            pid: true,
            type_param: true,
            mediatype: true,
            calscale: false,
            sort_as: false,
            geo: false,
            tz: false,
            label: false,
        },
        PropertyKind::CalUri => FieldSet {
            group: true,
            altid: true,
            language: false,
            value_data_type: true,
            pref: true,
            pid: true,
            type_param: true,
            mediatype: true,
            calscale: false,
            sort_as: false,
            geo: false,
            tz: false,
            label: false,
        },
        PropertyKind::Xml => FieldSet {
            group: true,
            altid: true,
            language: false,
            value_data_type: false,
            pref: false,
            pid: false,
            type_param: false,
            mediatype: false,
            calscale: false,
            sort_as: false,
            geo: false,
            tz: false,
            label: false,
        },
        PropertyKind::Proprietary => FieldSet {
            group: false,
            altid: false,
            language: false,
            value_data_type: false,
            pref: false,
            pid: false,
            type_param: false,
            mediatype: false,
            calscale: false,
            sort_as: false,
            geo: false,
            tz: false,
            label: false,
        },
    }
}

/// The parameters of a line, sorted by what they are: one place for each typed parameter,
/// and the proprietary ones in a list.
pub struct Demuxed {
    pub fields: Fields,
    pub proprietary: Seq<ParameterView>,
}

/// `d` after one more parameter. A typed parameter takes its place, where a later one
/// replaces an earlier one; only the tags of `TYPE` parameters add up.
pub open spec fn apply_param(d: Demuxed, p: ParameterView) -> Demuxed {
    let f = d.fields;
    match p {
        ParameterView::Pid(x) => Demuxed { fields: Fields { pid: Some(x), ..f }, ..d },
        ParameterView::AltId(x) => Demuxed { fields: Fields { altid: Some(x), ..f }, ..d },
        ParameterView::MediaType(x) => Demuxed { fields: Fields { mediatype: Some(x), ..f }, ..d },
        ParameterView::TimeZone(x) => Demuxed { fields: Fields { tz: Some(x), ..f }, ..d },
        ParameterView::Geo(x) => Demuxed { fields: Fields { geo: Some(x), ..f }, ..d },
        ParameterView::SortAs(x) => Demuxed { fields: Fields { sort_as: Some(x), ..f }, ..d },
        ParameterView::CalScale(x) => Demuxed { fields: Fields { calscale: Some(x), ..f }, ..d },
        ParameterView::Value(x) => Demuxed {
            fields: Fields { value_data_type: Some(x), ..f },
            ..d
        },
        ParameterView::Type(x) => Demuxed {
            fields: Fields {
                type_param: match f.type_param {
                    Some(t) => Some(t + x),
                    None => Some(x),
                },
                ..f
            },
            ..d
        },
        ParameterView::Language(x) => Demuxed { fields: Fields { language: Some(x), ..f }, ..d },
        ParameterView::Pref(x) => Demuxed { fields: Fields { pref: Some(x), ..f }, ..d },
        ParameterView::Label(x) => Demuxed { fields: Fields { label: Some(x), ..f }, ..d },
        ParameterView::Proprietary(x) => Demuxed {
            proprietary: d.proprietary.push(ParameterView::Proprietary(x)),
            ..d
        },
    }
}

/// The parameters `ps`, sorted, taken in their order.
pub open spec fn demux(ps: Seq<ParameterView>) -> Demuxed
    decreases ps.len(),
{
    if ps.len() == 0 {
        Demuxed { fields: no_fields(), proprietary: Seq::empty() }
    } else {
        apply_param(demux(ps.drop_last()), ps.last())
    }
}

/// The sorted parameters of a line, as owned values.
#[derive(Debug, Clone, PartialEq)]
pub struct ParamSet {
    pub altid: Option<String>,
    pub language: Option<String>,
    pub value_data_type: Option<ValueDataType>,
    pub pref: Option<u8>,
    pub pid: Option<Pid>,
    pub type_param: Option<Vec<String>>,
    pub mediatype: Option<String>,
    pub calscale: Option<String>,
    pub sort_as: Option<Vec<String>>,
    pub geo: Option<String>,
    pub tz: Option<String>,
    pub label: Option<String>,
    pub proprietary: Vec<Parameter>,
}

impl View for ParamSet {
    type V = Demuxed;

    open spec fn view(&self) -> Demuxed {
        Demuxed {
            fields: fields_of(
                None,
                self.altid,
                self.language,
                self.value_data_type,
                self.pref,
                self.pid,
                self.type_param,
                self.mediatype,
                self.calscale,
                self.sort_as,
                self.geo,
                self.tz,
                self.label,
            ),
            proprietary: parameter_views(self.proprietary@),
        }
    }
}

impl ParamSet {
    /// No parameter at all.
    pub fn new() -> (r: ParamSet)
        ensures
            r@ == demux(Seq::empty()),
    {
        let r = ParamSet {
            altid: None,
            language: None,
            value_data_type: None,
            pref: None,
            pid: None,
            type_param: None,
            mediatype: None,
            calscale: None,
            sort_as: None,
            geo: None,
            tz: None,
            label: None,
            proprietary: Vec::new(),
        };
        assert(parameter_views(r.proprietary@) =~= Seq::<ParameterView>::empty());
        r
    }

    /// Takes one more parameter in.
    pub fn add(&mut self, p: Parameter)
        ensures
            final(self)@ == apply_param(old(self)@, p@),
    {
        match p {
            Parameter::Pid(x) => {
                self.pid = Some(x);
            },
            Parameter::AltId(x) => {
                self.altid = Some(x);
            },
            Parameter::MediaType(x) => {
                self.mediatype = Some(x);
            },
            Parameter::TimeZone(x) => {
                self.tz = Some(x);
            },
            Parameter::Geo(x) => {
                self.geo = Some(x);
            },
            Parameter::SortAs(x) => {
                self.sort_as = Some(x);
            },
            Parameter::CalScale(x) => {
                self.calscale = Some(x);
            },
            Parameter::Value(x) => {
                self.value_data_type = Some(x);
            },
            Parameter::Type(x) => {
                let mut x = x;
                let held = self.type_param.take();
                match held {
                    Some(t) => {
                        let mut t = t;
                        let ghost before = t@;
                        t.append(&mut x);
                        assert(t@ == before + p->Type_0@);
                        assert(texts(before + p->Type_0@) =~= texts(before) + texts(p->Type_0@));
                        self.type_param = Some(t);
                    },
                    None => {
                        self.type_param = Some(x);
                    },
                }
            },
            Parameter::Language(x) => {
                self.language = Some(x);
            },
            Parameter::Pref(x) => {
                self.pref = Some(x);
            },
            Parameter::Label(x) => {
                self.label = Some(x);
            },
            Parameter::Proprietary(x) => {
                let q = Parameter::Proprietary(x);
                proof {
                    lemma_views_push(self.proprietary@, q);
                }
                self.proprietary.push(q);
            },
        }
    }
}

/// Sorts the parameters of a line by what they are.
pub fn demux_params(params: Vec<Parameter>) -> (r: ParamSet)
    ensures
        r@ == demux(parameter_views(params@)),
{
    let mut params = params;
    let ghost all = parameter_views(params@);
    let mut held: Vec<Parameter> = Vec::new();
    // Reverse once, so that the parameters can be moved out in their order.
    while params.len() > 0
        invariant
            held@.len() + params@.len() == all.len(),
            forall|i: int| 0 <= i < params@.len() ==> #[trigger] params@[i]@ == all[i],
            forall|i: int|
                0 <= i < held@.len() ==> #[trigger] held@[i]@ == all[all.len() - 1 - i],
        decreases params.len(),
    {
        let p = params.pop().unwrap();
        held.push(p);
    }
    let mut r = ParamSet::new();
    assert(all.take(0) =~= Seq::<ParameterView>::empty());
    while held.len() > 0
        invariant
            held@.len() <= all.len(),
            forall|i: int|
                0 <= i < held@.len() ==> #[trigger] held@[i]@ == all[all.len() - 1 - i],
            r@ == demux(all.take(all.len() - held@.len())),
        decreases held.len(),
    {
        let ghost k = all.len() - held@.len();
        let p = held.pop().unwrap();
        proof {
            assert(all.take(k + 1).drop_last() =~= all.take(k));
            assert(all.take(k + 1).last() == p@);
        }
        r.add(p);
    }
    assert(all.take(all.len() as int) =~= all);
    r
}

/// `f` with the group `group`.
pub open spec fn with_group(f: Fields, group: Option<Seq<char>>) -> Fields {
    Fields { group, ..f }
}

/// What of `f` a property that declares `set` keeps: the rest is dropped.
pub open spec fn declared(set: FieldSet, f: Fields) -> Fields {
    Fields {
        group: if set.group {
            f.group
        } else {
            None
        },
        altid: if set.altid {
            f.altid
        } else {
            None
        },
        language: if set.language {
            f.language
        } else {
            None
        },
        value_data_type: if set.value_data_type {
            f.value_data_type
        } else {
            None
        },
        pref: if set.pref {
            f.pref
        } else {
            None
        },
        pid: if set.pid {
            f.pid
        } else {
            None
        },
        type_param: if set.type_param {
            f.type_param
        } else {
            None
        },
        mediatype: if set.mediatype {
            f.mediatype
        } else {
            None
        },
        calscale: if set.calscale {
            f.calscale
        } else {
            None
        },
        sort_as: if set.sort_as {
            f.sort_as
        } else {
            None
        },
        geo: if set.geo {
            f.geo
        } else {
            None
        },
        tz: if set.tz {
            f.tz
        } else {
            None
        },
        label: if set.label {
            f.label
        } else {
            None
        },
    }
}

/// The key of the first parameter in `f`, in the order in which parameters are written,
/// that `set` does not declare; the label comes last. Nothing if `set` declares them all.
pub open spec fn unknown_field(set: FieldSet, f: Fields) -> Option<Seq<char>> {
    if f.altid is Some && !set.altid {
        Some("ALTID"@)
    } else if f.language is Some && !set.language {
        Some("LANGUAGE"@)
    } else if f.value_data_type is Some && !set.value_data_type {
        Some("VALUE"@)
    } else if f.pref is Some && !set.pref {
        Some("PREF"@)
    } else if f.pid is Some && !set.pid {
        Some("PID"@)
    } else if f.type_param is Some && !set.type_param {
        Some("TYPE"@)
    } else if f.mediatype is Some && !set.mediatype {
        Some("MEDIATYPE"@)
    } else if f.calscale is Some && !set.calscale {
        Some("CALSCALE"@)
    } else if f.sort_as is Some && !set.sort_as {
        Some("SORT-AS"@)
    } else if f.geo is Some && !set.geo {
        Some("GEO"@)
    } else if f.tz is Some && !set.tz {
        Some("TZ"@)
    } else if f.label is Some && !set.label {
        Some("LABEL"@)
    } else {
        None
    }
}

impl ParamSet {
    /// The key of the first parameter that `set` does not declare.
    pub fn unknown(&self, set: FieldSet) -> (r: Option<&'static str>)
        ensures
            match r {
                Some(k) => unknown_field(set, self@.fields) == Some(k@),
                None => unknown_field(set, self@.fields) is None,
            },
    {
        if self.altid.is_some() && !set.altid {
            Some("ALTID")
        } else if self.language.is_some() && !set.language {
            Some("LANGUAGE")
        } else if self.value_data_type.is_some() && !set.value_data_type {
            Some("VALUE")
        } else if self.pref.is_some() && !set.pref {
            Some("PREF")
        } else if self.pid.is_some() && !set.pid {
            Some("PID")
        } else if self.type_param.is_some() && !set.type_param {
            Some("TYPE")
        } else if self.mediatype.is_some() && !set.mediatype {
            Some("MEDIATYPE")
        } else if self.calscale.is_some() && !set.calscale {
            Some("CALSCALE")
        } else if self.sort_as.is_some() && !set.sort_as {
            Some("SORT-AS")
        } else if self.geo.is_some() && !set.geo {
            Some("GEO")
        } else if self.tz.is_some() && !set.tz {
            Some("TZ")
        } else if self.label.is_some() && !set.label {
            Some("LABEL")
        } else {
            None
        }
    }
}

/// Whether the value of the property is a URI.
pub open spec fn is_uri_kind(kind: PropertyKind) -> bool {
    kind == PropertyKind::Source
        || kind == PropertyKind::Photo
        || kind == PropertyKind::Impp
        || kind == PropertyKind::Geo
        || kind == PropertyKind::Logo
        || kind == PropertyKind::Member
        || kind == PropertyKind::Sound
        || kind == PropertyKind::Url
        || kind == PropertyKind::FbUrl
        || kind == PropertyKind::CalAdUri
        || kind == PropertyKind::CalUri
}

/// The version that `value` names.
pub open spec fn version_of(value: Seq<char>) -> Result<VersionValue, ErrorView> {
    if value == "4.0"@ {
        Ok(VersionValue::V4)
    } else if value == "3.0"@ {
        Ok(VersionValue::V3)
    } else {
        Err(ErrorView::InvalidVersion(value))
    }
}

/// The items at position `i` of a structured value: the position is split at its unescaped
/// commas, escapes are resolved, and empty items are dropped. A position that the value
/// does not have is empty.
pub open spec fn component(positions: Seq<Seq<char>>, i: int) -> Seq<Seq<char>> {
    if 0 <= i < positions.len() {
        non_empty(escaped_split_spec(positions[i], ','))
    } else {
        Seq::empty()
    }
}

/// The first `n` positions of the structured value `value`, which is split into positions
/// at its unescaped semicolons.
pub open spec fn components(value: Seq<char>, n: nat) -> Seq<Seq<Seq<char>>> {
    Seq::new(n, |i: int| component(raw_split(value, ';'), i))
}

/// The value of a `GENDER`: a sex token, which may be empty, a semicolon, and the identity.
pub open spec fn gender_of(value: Seq<char>) -> Result<Payload, ErrorView> {
    let i = next_of(value, ';', ';', 0);
    if i >= value.len() {
        Err(
            ErrorView::InvalidSyntax {
                message: "gender property must include a semicolon (;)"@,
                property: "Gender"@,
            },
        )
    } else {
        let identity = Some(value.subrange(i + 1, value.len() as int));
        if i == 0 {
            Ok(Payload::Gender { sex: None, identity_component: identity })
        } else {
            match sex_of(value.subrange(0, i)) {
                Ok(s) => Ok(Payload::Gender { sex: Some(s), identity_component: identity }),
                Err(e) => Err(e),
            }
        }
    }
}

/// The value of a `CLIENTPIDMAP`: a number from 0 to 255, a semicolon, and a URI. The
/// number is read first; parts after the second are not read.
pub open spec fn pid_map_of(value: Seq<char>) -> Result<Payload, ErrorView> {
    let parts = split(value, ';');
    if !is_u8_text(parts[0]) {
        Err(ErrorView::ParseInt)
    } else if parts.len() < 2 {
        Err(
            ErrorView::InvalidLine {
                reason: "expected clientpidmap value to have two parts separated by ';'"@,
                raw_line: value,
            },
        )
    } else {
        match uri_of(parts[1]) {
            Ok(u) => Ok(Payload::PidMap { pid_digit: u8_of(parts[0]), uri: u }),
            Err(e) => Err(e),
        }
    }
}

/// The value that the raw text `value` spells for a standard property. A list is split at
/// its unescaped separators, semicolons for `ORG` and commas for the others, and keeps
/// the items that are not empty.
pub open spec fn payload_of(kind: PropertyKind, value: Seq<char>) -> Result<Payload, ErrorView> {
    if kind == PropertyKind::Version {
        match version_of(value) {
            Ok(v) => Ok(Payload::Version(v)),
            Err(e) => Err(e),
        }
    } else if kind == PropertyKind::Kind {
        Ok(Payload::Kind(kind_value_of(value)))
    } else if kind == PropertyKind::Gender {
        gender_of(value)
    } else if kind == PropertyKind::ClientPidMap {
        pid_map_of(value)
    } else if kind == PropertyKind::N {
        Ok(Payload::Components(components(value, 5)))
    } else if kind == PropertyKind::Adr {
        Ok(Payload::Components(components(value, 7)))
    } else if kind == PropertyKind::NickName || kind == PropertyKind::Categories {
        Ok(Payload::List(non_empty(escaped_split_spec(value, ','))))
    } else if kind == PropertyKind::Org {
        Ok(Payload::List(non_empty(escaped_split_spec(value, ';'))))
    } else if is_uri_kind(kind) {
        match uri_of(value) {
            Ok(u) => Ok(Payload::Text(u)),
            Err(e) => Err(e),
        }
    } else {
        Ok(Payload::Text(value))
    }
}

/// A standard property with the group `group`, the parameters `f` and the value `value`:
/// it keeps of the group and the parameters what it declares.
pub open spec fn standard_view(
    kind: PropertyKind,
    group: Option<Seq<char>>,
    f: Fields,
    value: Payload,
) -> PropertyView {
    PropertyView { kind, fields: declared(field_set(kind), with_group(f, group)), value }
}

/// A standard property from the parts of its line: an error if a typed parameter is
/// present that the property does not declare, else the property with the value that the
/// raw value spells. Proprietary parameters, and a group that the property has no place
/// for, are passed over.
pub open spec fn decode_standard(
    kind: PropertyKind,
    group: Option<Seq<char>>,
    d: Demuxed,
    value: Seq<char>,
) -> Result<PropertyView, ErrorView> {
    match unknown_field(field_set(kind), d.fields) {
        Some(k) => Err(ErrorView::UnknownParameter(k)),
        None => match payload_of(kind, value) {
            Ok(v) => Ok(standard_view(kind, group, d.fields, v)),
            Err(e) => Err(e),
        },
    }
}

/// `s` with `p` added at its end, if there is one.
pub open spec fn push_opt(s: Seq<ParameterView>, p: Option<ParameterView>) -> Seq<ParameterView> {
    match p {
        Some(x) => s.push(x),
        None => s,
    }
}

/// The parameter that holds an alt-id, if there is one.
pub open spec fn opt_alt_id(v: Option<Seq<char>>) -> Option<ParameterView> {
    match v {
        Some(x) => Some(ParameterView::AltId(x)),
        None => None,
    }
}

/// The parameter that holds a PID, if there is one.
pub open spec fn opt_pid(v: Option<Pid>) -> Option<ParameterView> {
    match v {
        Some(x) => Some(ParameterView::Pid(x)),
        None => None,
    }
}

/// The parameter that holds a media type, if there is one.
pub open spec fn opt_media_type(v: Option<Seq<char>>) -> Option<ParameterView> {
    match v {
        Some(x) => Some(ParameterView::MediaType(x)),
        None => None,
    }
}

/// The parameter that holds a time zone, if there is one.
pub open spec fn opt_time_zone(v: Option<Seq<char>>) -> Option<ParameterView> {
    match v {
        Some(x) => Some(ParameterView::TimeZone(x)),
        None => None,
    }
}

/// The parameter that holds a geo position, if there is one.
pub open spec fn opt_geo(v: Option<Seq<char>>) -> Option<ParameterView> {
    match v {
        Some(x) => Some(ParameterView::Geo(x)),
        None => None,
    }
}

/// The parameter that holds sort-as names, if there is one.
pub open spec fn opt_sort_as(v: Option<Seq<Seq<char>>>) -> Option<ParameterView> {
    match v {
        Some(x) => Some(ParameterView::SortAs(x)),
        None => None,
    }
}

/// The parameter that holds a calendar scale, if there is one.
pub open spec fn opt_cal_scale(v: Option<Seq<char>>) -> Option<ParameterView> {
    match v {
        Some(x) => Some(ParameterView::CalScale(x)),
        None => None,
    }
}

/// The parameter that holds a label, if there is one.
pub open spec fn opt_label(v: Option<Seq<char>>) -> Option<ParameterView> {
    match v {
        Some(x) => Some(ParameterView::Label(x)),
        None => None,
    }
}

/// The parameter that holds type tags, if there is one.
pub open spec fn opt_type(v: Option<Seq<Seq<char>>>) -> Option<ParameterView> {
    match v {
        Some(x) => Some(ParameterView::Type(x)),
        None => None,
    }
}

/// The parameter that holds a preference, if there is one.
pub open spec fn opt_pref(v: Option<u8>) -> Option<ParameterView> {
    match v {
        Some(x) => Some(ParameterView::Pref(x)),
        None => None,
    }
}

/// The parameter that holds a language, if there is one.
pub open spec fn opt_language(v: Option<Seq<char>>) -> Option<ParameterView> {
    match v {
        Some(x) => Some(ParameterView::Language(x)),
        None => None,
    }
}

/// The parameter that holds a value type, if there is one.
pub open spec fn opt_value(v: Option<crate::parameter::ValueTypeView>) -> Option<ParameterView> {
    match v {
        Some(x) => Some(ParameterView::Value(x)),
        None => None,
    }
}

/// `s`, then of alt-id, PID, media type and time zone those that are present.
pub open spec fn kept_first(s: Seq<ParameterView>, f: Fields) -> Seq<ParameterView> {
    push_opt(
        push_opt(
            push_opt(push_opt(s, opt_alt_id(f.altid)), opt_pid(f.pid)),
            opt_media_type(f.mediatype),
        ),
        opt_time_zone(f.tz),
    )
}

/// `s`, then of geo, sort-as, calendar scale and label those that are present.
pub open spec fn kept_second(s: Seq<ParameterView>, f: Fields) -> Seq<ParameterView> {
    push_opt(
        push_opt(
            push_opt(push_opt(s, opt_geo(f.geo)), opt_sort_as(f.sort_as)),
            opt_cal_scale(f.calscale),
        ),
        opt_label(f.label),
    )
}

/// `s`, then of type tags, preference, language and value type those that are present.
pub open spec fn kept_third(s: Seq<ParameterView>, f: Fields) -> Seq<ParameterView> {
    push_opt(
        push_opt(
            push_opt(push_opt(s, opt_type(f.type_param)), opt_pref(f.pref)),
            opt_language(f.language),
        ),
        opt_value(f.value_data_type),
    )
}

/// The parameters that an extension property keeps: the proprietary ones in their order,
/// then each typed parameter that was present, in the order alt-id, PID, media type, time
/// zone, geo, sort-as, calendar scale, label, type tags, preference, language, value type.
pub open spec fn kept_params(d: Demuxed) -> Seq<ParameterView> {
    kept_third(kept_second(kept_first(d.proprietary, d.fields), d.fields), d.fields)
}

/// An extension property from the parts of its line. Nothing of the line is lost.
pub open spec fn proprietary_view(
    group: Option<Seq<char>>,
    name: Seq<char>,
    d: Demuxed,
    value: Seq<char>,
) -> PropertyView {
    PropertyView {
        kind: PropertyKind::Proprietary,
        fields: with_group(no_fields(), group),
        value: Payload::Proprietary { name, value, parameters: kept_params(d) },
    }
}

/// The property that the parts of a line make. A name that is standard, whatever the case
/// of its letters, gives that property; any other name must be an extension name.
pub open spec fn decode_parts(
    line: Seq<char>,
    group: Option<Seq<char>>,
    name: Seq<char>,
    d: Demuxed,
    value: Seq<char>,
) -> Result<PropertyView, ErrorView> {
    match keyword(fold_case(name)) {
        Some(kind) => decode_standard(kind, group, d, value),
        None => if is_extension(name) {
            Ok(proprietary_view(group, name, d, value))
        } else {
            Err(ErrorView::InvalidName { actual_name: name, raw_line: line })
        },
    }
}

/// The parameters of a line: those that its raw parameters spell, or none.
pub open spec fn line_parameters(params: Option<Seq<char>>) -> Result<
    Seq<ParameterView>,
    ErrorView,
> {
    match params {
        Some(raw) => parameters_of(raw),
        None => Ok(Seq::empty()),
    }
}

/// The property that the logical line `line` declares, or the first error met: in the
/// shape of the line, then in its parameters, then in its name, then in a parameter that
/// the property does not declare, then in its value.
pub open spec fn decode_line(line: Seq<char>) -> Result<PropertyView, ErrorView> {
    match tokenize_spec(line) {
        None => Err(
            ErrorView::InvalidLine { reason: "does not match property pattern"@, raw_line: line },
        ),
        Some(t) => match line_parameters(t.params) {
            Err(e) => Err(e),
            Ok(ps) => decode_parts(line, t.group, t.name, demux(ps), t.value),
        },
    }
}

fn build_version(group: Option<String>, p: ParamSet, value: VersionValue) -> (r: Version)
    ensures
        r@ == standard_view(
            PropertyKind::Version,
            opt_text(group),
            p@.fields,
            Payload::Version(value),
        ),
{
    Version {
        value,
    }
}

fn build_source(group: Option<String>, p: ParamSet, value: Uri) -> (r: Source)
    ensures
        r@ == standard_view(
            PropertyKind::Source,
            opt_text(group),
            p@.fields,
            Payload::Text(value@),
        ),
{
    Source {
        group,
        pid: p.pid,
        altid: p.altid,
        mediatype: p.mediatype,
        value,
    }
}

fn build_kind(group: Option<String>, p: ParamSet, value: KindValue) -> (r: Kind)
    ensures
        r@ == standard_view(PropertyKind::Kind, opt_text(group), p@.fields, Payload::Kind(value@)),
{
    Kind {
        group,
        value,
    }
}

fn build_fn(group: Option<String>, p: ParamSet, value: String) -> (r: FN)
    ensures
        r@ == standard_view(PropertyKind::FN, opt_text(group), p@.fields, Payload::Text(value@)),
{
    FN {
        group,
        altid: p.altid,
        value_data_type: p.value_data_type,
        type_param: p.type_param,
        language: p.language,
        pref: p.pref,
        value,
    }
}

fn build_n(group: Option<String>, p: ParamSet, surenames: Vec<String>, given_names: Vec<String>, additional_names: Vec<String>, honorific_prefixes: Vec<String>, honorific_suffixes: Vec<String>) -> (r: N)
    ensures
        r@ == standard_view(
            PropertyKind::N,
            opt_text(group),
            p@.fields,
            Payload::Components(seq![texts(surenames@), texts(given_names@), texts(additional_names@), texts(honorific_prefixes@), texts(honorific_suffixes@)]),
        ),
{
    N {
        altid: p.altid,
        language: p.language,
        sort_as: p.sort_as,
        group,
        surenames,
        given_names,
        additional_names,
        honorific_prefixes,
        honorific_suffixes,
    }
}

fn build_nickname(group: Option<String>, p: ParamSet, value: Vec<String>) -> (r: Nickname)
    ensures
        r@ == standard_view(
            PropertyKind::NickName,
            opt_text(group),
            p@.fields,
            Payload::List(texts(value@)),
        ),
{
    Nickname {
        group,
        altid: p.altid,
        value_data_type: p.value_data_type,
        type_param: p.type_param,
        language: p.language,
        pref: p.pref,
        pid: p.pid,
        value,
    }
}

fn build_photo(group: Option<String>, p: ParamSet, value: Uri) -> (r: Photo)
    ensures
        r@ == standard_view(PropertyKind::Photo, opt_text(group), p@.fields, Payload::Text(value@)),
{
    Photo {
        group,
        altid: p.altid,
        value_data_type: p.value_data_type,
        type_param: p.type_param,
        mediatype: p.mediatype,
        pref: p.pref,
        pid: p.pid,
        value,
    }
}

fn build_bday(group: Option<String>, p: ParamSet, value: String) -> (r: BDay)
    ensures
        r@ == standard_view(PropertyKind::BDay, opt_text(group), p@.fields, Payload::Text(value@)),
{
    BDay {
        altid: p.altid,
        calscale: p.calscale,
        value_data_type: p.value_data_type,
        language: p.language,
        value,
    }
}

fn build_anniversary(group: Option<String>, p: ParamSet, value: String) -> (r: Anniversary)
    ensures
        r@ == standard_view(
            PropertyKind::Anniversary,
            opt_text(group),
            p@.fields,
            Payload::Text(value@),
        ),
{
    Anniversary {
        altid: p.altid,
        calscale: p.calscale,
        value_data_type: p.value_data_type,
        value,
    }
}

fn build_adr(group: Option<String>, p: ParamSet, po_box: Vec<String>, extended_address: Vec<String>, street: Vec<String>, city: Vec<String>, region: Vec<String>, postal_code: Vec<String>, country: Vec<String>) -> (r: Adr)
    ensures
        r@ == standard_view(
            PropertyKind::Adr,
            opt_text(group),
            p@.fields,
            Payload::Components(seq![texts(po_box@), texts(extended_address@), texts(street@), texts(city@), texts(region@), texts(postal_code@), texts(country@)]),
        ),
{
    Adr {
        group,
        altid: p.altid,
        label: p.label,
        language: p.language,
        geo: p.geo,
        tz: p.tz,
        pid: p.pid,
        pref: p.pref,
        value_data_type: p.value_data_type,
        type_param: p.type_param,
        po_box,
        extended_address,
        street,
        city,
        region,
        postal_code,
        country,
    }
}

fn build_tel(group: Option<String>, p: ParamSet, value: String) -> (r: Tel)
    ensures
        r@ == standard_view(PropertyKind::Tel, opt_text(group), p@.fields, Payload::Text(value@)),
{
    Tel {
        value_data_type: p.value_data_type,
        type_param: p.type_param,
        pid: p.pid,
        pref: p.pref,
        altid: p.altid,
        value,
    }
}

fn build_email(group: Option<String>, p: ParamSet, value: String) -> (r: Email)
    ensures
        r@ == standard_view(PropertyKind::Email, opt_text(group), p@.fields, Payload::Text(value@)),
{
    Email {
        group,
        altid: p.altid,
        pid: p.pid,
        pref: p.pref,
        value_data_type: p.value_data_type,
        type_param: p.type_param,
        value,
    }
}

fn build_impp(group: Option<String>, p: ParamSet, value: Uri) -> (r: Impp)
    ensures
        r@ == standard_view(PropertyKind::Impp, opt_text(group), p@.fields, Payload::Text(value@)),
{
    Impp {
        group,
        altid: p.altid,
        pid: p.pid,
        pref: p.pref,
        mediatype: p.mediatype,
        value_data_type: p.value_data_type,
        type_param: p.type_param,
        value,
    }
}

fn build_lang(group: Option<String>, p: ParamSet, value: String) -> (r: Lang)
    ensures
        r@ == standard_view(PropertyKind::Lang, opt_text(group), p@.fields, Payload::Text(value@)),
{
    Lang {
        group,
        altid: p.altid,
        pid: p.pid,
        pref: p.pref,
        value_data_type: p.value_data_type,
        type_param: p.type_param,
        value,
    }
}

fn build_tz(group: Option<String>, p: ParamSet, value: String) -> (r: Tz)
    ensures
        r@ == standard_view(PropertyKind::Tz, opt_text(group), p@.fields, Payload::Text(value@)),
{
    Tz {
        group,
        altid: p.altid,
        pid: p.pid,
        pref: p.pref,
        value_data_type: p.value_data_type,
        type_param: p.type_param,
        mediatype: p.mediatype,
        value,
    }
}

fn build_geo(group: Option<String>, p: ParamSet, value: Uri) -> (r: Geo)
    ensures
        r@ == standard_view(PropertyKind::Geo, opt_text(group), p@.fields, Payload::Text(value@)),
{
    Geo {
        group,
        altid: p.altid,
        pid: p.pid,
        pref: p.pref,
        value_data_type: p.value_data_type,
        type_param: p.type_param,
        mediatype: p.mediatype,
        value,
    }
}

fn build_title(group: Option<String>, p: ParamSet, value: String) -> (r: Title)
    ensures
        r@ == standard_view(PropertyKind::Title, opt_text(group), p@.fields, Payload::Text(value@)),
{
    Title {
        group,
        altid: p.altid,
        pid: p.pid,
        pref: p.pref,
        value_data_type: p.value_data_type,
        type_param: p.type_param,
        language: p.language,
        value,
    }
}

fn build_role(group: Option<String>, p: ParamSet, value: String) -> (r: Role)
    ensures
        r@ == standard_view(PropertyKind::Role, opt_text(group), p@.fields, Payload::Text(value@)),
{
    Role {
        group,
        altid: p.altid,
        pid: p.pid,
        pref: p.pref,
        value_data_type: p.value_data_type,
        type_param: p.type_param,
        language: p.language,
        value,
    }
}

fn build_logo(group: Option<String>, p: ParamSet, value: Uri) -> (r: Logo)
    ensures
        r@ == standard_view(PropertyKind::Logo, opt_text(group), p@.fields, Payload::Text(value@)),
{
    Logo {
        group,
        altid: p.altid,
        pid: p.pid,
        pref: p.pref,
        value_data_type: p.value_data_type,
        type_param: p.type_param,
        language: p.language,
        mediatype: p.mediatype,
        value,
    }
}

fn build_org(group: Option<String>, p: ParamSet, value: Vec<String>) -> (r: Org)
    ensures
        r@ == standard_view(
            PropertyKind::Org,
            opt_text(group),
            p@.fields,
            Payload::List(texts(value@)),
        ),
{
    Org {
        group,
        altid: p.altid,
        pid: p.pid,
        pref: p.pref,
        value_data_type: p.value_data_type,
        type_param: p.type_param,
        language: p.language,
        sort_as: p.sort_as,
        value,
    }
}

fn build_member(group: Option<String>, p: ParamSet, value: Uri) -> (r: Member)
    ensures
        r@ == standard_view(
            PropertyKind::Member,
            opt_text(group),
            p@.fields,
            Payload::Text(value@),
        ),
{
    Member {
        group,
        altid: p.altid,
        pid: p.pid,
        pref: p.pref,
        mediatype: p.mediatype,
        value,
    }
}

fn build_related(group: Option<String>, p: ParamSet, value: String) -> (r: Related)
    ensures
        r@ == standard_view(
            PropertyKind::Related,
            opt_text(group),
            p@.fields,
            Payload::Text(value@),
        ),
{
    Related {
        group,
        altid: p.altid,
        pid: p.pid,
        pref: p.pref,
        value_data_type: p.value_data_type,
        type_param: p.type_param,
        language: p.language,
        mediatype: p.mediatype,
        value,
    }
}

fn build_categories(group: Option<String>, p: ParamSet, value: Vec<String>) -> (r: Categories)
    ensures
        r@ == standard_view(
            PropertyKind::Categories,
            opt_text(group),
            p@.fields,
            Payload::List(texts(value@)),
        ),
{
    Categories {
        group,
        altid: p.altid,
        pid: p.pid,
        pref: p.pref,
        value_data_type: p.value_data_type,
        type_param: p.type_param,
        value,
    }
}

fn build_note(group: Option<String>, p: ParamSet, value: String) -> (r: Note)
    ensures
        r@ == standard_view(PropertyKind::Note, opt_text(group), p@.fields, Payload::Text(value@)),
{
    Note {
        group,
        altid: p.altid,
        pid: p.pid,
        pref: p.pref,
        value_data_type: p.value_data_type,
        type_param: p.type_param,
        language: p.language,
        value,
    }
}

fn build_prodid(group: Option<String>, p: ParamSet, value: String) -> (r: ProdId)
    ensures
        r@ == standard_view(
            PropertyKind::ProdId,
            opt_text(group),
            p@.fields,
            Payload::Text(value@),
        ),
{
    ProdId {
        group,
        value,
    }
}

fn build_rev(group: Option<String>, p: ParamSet, value: String) -> (r: Rev)
    ensures
        r@ == standard_view(PropertyKind::Rev, opt_text(group), p@.fields, Payload::Text(value@)),
{
    Rev {
        group,
        value,
    }
}

fn build_sound(group: Option<String>, p: ParamSet, value: Uri) -> (r: Sound)
    ensures
        r@ == standard_view(PropertyKind::Sound, opt_text(group), p@.fields, Payload::Text(value@)),
{
    Sound {
        group,
        altid: p.altid,
        pid: p.pid,
        pref: p.pref,
        value_data_type: p.value_data_type,
        type_param: p.type_param,
        language: p.language,
        mediatype: p.mediatype,
        value,
    }
}

fn build_uid(group: Option<String>, p: ParamSet, value: String) -> (r: Uid)
    ensures
        r@ == standard_view(PropertyKind::Uid, opt_text(group), p@.fields, Payload::Text(value@)),
{
    Uid {
        group,
        value_data_type: p.value_data_type,
        value,
    }
}

fn build_clientpidmap(group: Option<String>, p: ParamSet, pid_digit: u8, value: Uri) -> (r: ClientPidMap)
    ensures
        r@ == standard_view(
            PropertyKind::ClientPidMap,
            opt_text(group),
            p@.fields,
            Payload::PidMap { pid_digit, uri: value@ },
        ),
{
    ClientPidMap {
        group,
        pid_digit,
        value,
    }
}

fn build_vcardurl(group: Option<String>, p: ParamSet, value: Uri) -> (r: VcardURL)
    ensures
        r@ == standard_view(PropertyKind::Url, opt_text(group), p@.fields, Payload::Text(value@)),
{
    VcardURL {
        group,
        altid: p.altid,
        pid: p.pid,
        pref: p.pref,
        value_data_type: p.value_data_type,
        type_param: p.type_param,
        mediatype: p.mediatype,
        value,
    }
}

fn build_key(group: Option<String>, p: ParamSet, value: String) -> (r: Key)
    ensures
        r@ == standard_view(PropertyKind::Key, opt_text(group), p@.fields, Payload::Text(value@)),
{
    Key {
        group,
        altid: p.altid,
        pid: p.pid,
        pref: p.pref,
        value_data_type: p.value_data_type,
        type_param: p.type_param,
        mediatype: p.mediatype,
        value,
    }
}

fn build_fburl(group: Option<String>, p: ParamSet, value: Uri) -> (r: FbURL)
    ensures
        r@ == standard_view(PropertyKind::FbUrl, opt_text(group), p@.fields, Payload::Text(value@)),
{
    FbURL {
        group,
        altid: p.altid,
        pid: p.pid,
        pref: p.pref,
        value_data_type: p.value_data_type,
        type_param: p.type_param,
        mediatype: p.mediatype,
        value,
    }
}

fn build_caladuri(group: Option<String>, p: ParamSet, value: Uri) -> (r: CalAdURI)
    ensures
        r@ == standard_view(
            PropertyKind::CalAdUri,
            opt_text(group),
            p@.fields,
            Payload::Text(value@),
        ),
{
    CalAdURI {
        group,
        altid: p.altid,
        pid: p.pid,
        pref: p.pref,
        value_data_type: p.value_data_type,
        type_param: p.type_param,
        mediatype: p.mediatype,
        value,
    }
}

fn build_caluri(group: Option<String>, p: ParamSet, value: Uri) -> (r: CalURI)
    ensures
        r@ == standard_view(
            PropertyKind::CalUri,
            opt_text(group),
            p@.fields,
            Payload::Text(value@),
        ),
{
    CalURI {
        group,
        altid: p.altid,
        pid: p.pid,
        pref: p.pref,
        value_data_type: p.value_data_type,
        type_param: p.type_param,
        mediatype: p.mediatype,
        value,
    }
}

fn build_xml(group: Option<String>, p: ParamSet, value: String) -> (r: Xml)
    ensures
        r@ == standard_view(PropertyKind::Xml, opt_text(group), p@.fields, Payload::Text(value@)),
{
    Xml {
        altid: p.altid,
        group,
        value,
    }
}

/// The view of an optional parameter.
pub open spec fn opt_parameter(q: Option<Parameter>) -> Option<ParameterView> {
    match q {
        Some(x) => Some(x@),
        None => None,
    }
}

fn keep(parameters: &mut Vec<Parameter>, q: Option<Parameter>)
    ensures
        parameter_views(final(parameters)@) == push_opt(
            parameter_views(old(parameters)@),
            opt_parameter(q),
        ),
{
    match q {
        Some(x) => {
            proof {
                lemma_views_push(parameters@, x);
            }
            parameters.push(x);
        },
        None => {},
    }
}

fn keep_first(
    parameters: &mut Vec<Parameter>,
    altid: Option<String>,
    pid: Option<Pid>,
    mediatype: Option<String>,
    tz: Option<String>,
)
    ensures
        parameter_views(final(parameters)@) == push_opt(
            push_opt(
                push_opt(
                    push_opt(parameter_views(old(parameters)@), opt_alt_id(opt_text(altid))),
                    opt_pid(pid),
                ),
                opt_media_type(opt_text(mediatype)),
            ),
            opt_time_zone(opt_text(tz)),
        ),
{
    keep(
        parameters,
        match altid {
            Some(x) => Some(Parameter::AltId(x)),
            None => None,
        },
    );
    keep(
        parameters,
        match pid {
            Some(x) => Some(Parameter::Pid(x)),
            None => None,
        },
    );
    keep(
        parameters,
        match mediatype {
            Some(x) => Some(Parameter::MediaType(x)),
            None => None,
        },
    );
    keep(
        parameters,
        match tz {
            Some(x) => Some(Parameter::TimeZone(x)),
            None => None,
        },
    );
}

fn keep_second(
    parameters: &mut Vec<Parameter>,
    geo: Option<String>,
    sort_as: Option<Vec<String>>,
    calscale: Option<String>,
    label: Option<String>,
)
    ensures
        parameter_views(final(parameters)@) == push_opt(
            push_opt(
                push_opt(
                    push_opt(parameter_views(old(parameters)@), opt_geo(opt_text(geo))),
                    opt_sort_as(opt_texts(sort_as)),
                ),
                opt_cal_scale(opt_text(calscale)),
            ),
            opt_label(opt_text(label)),
        ),
{
    keep(
        parameters,
        match geo {
            Some(x) => Some(Parameter::Geo(x)),
            None => None,
        },
    );
    keep(
        parameters,
        match sort_as {
            Some(x) => Some(Parameter::SortAs(x)),
            None => None,
        },
    );
    keep(
        parameters,
        match calscale {
            Some(x) => Some(Parameter::CalScale(x)),
            None => None,
        },
    );
    keep(
        parameters,
        match label {
            Some(x) => Some(Parameter::Label(x)),
            None => None,
        },
    );
}

fn keep_third(
    parameters: &mut Vec<Parameter>,
    type_param: Option<Vec<String>>,
    pref: Option<u8>,
    language: Option<String>,
    value_data_type: Option<ValueDataType>,
)
    ensures
        parameter_views(final(parameters)@) == push_opt(
            push_opt(
                push_opt(
                    push_opt(parameter_views(old(parameters)@), opt_type(opt_texts(type_param))),
                    opt_pref(pref),
                ),
                opt_language(opt_text(language)),
            ),
            opt_value(opt_value_type(value_data_type)),
        ),
{
    keep(
        parameters,
        match type_param {
            Some(x) => Some(Parameter::Type(x)),
            None => None,
        },
    );
    keep(
        parameters,
        match pref {
            Some(x) => Some(Parameter::Pref(x)),
            None => None,
        },
    );
    keep(
        parameters,
        match language {
            Some(x) => Some(Parameter::Language(x)),
            None => None,
        },
    );
    keep(
        parameters,
        match value_data_type {
            Some(x) => Some(Parameter::Value(x)),
            None => None,
        },
    );
}

fn build_proprietary(group: Option<String>, name: String, p: ParamSet, value: String) -> (r:
    ProprietaryProperty)
    ensures
        r@ == proprietary_view(opt_text(group), name@, p@, value@),
{
    let ghost d = p@;
    let mut parameters = p.proprietary;
    keep_first(&mut parameters, p.altid, p.pid, p.mediatype, p.tz);
    assert(parameter_views(parameters@) == kept_first(d.proprietary, d.fields));
    keep_second(&mut parameters, p.geo, p.sort_as, p.calscale, p.label);
    assert(parameter_views(parameters@) == kept_second(
        kept_first(d.proprietary, d.fields),
        d.fields,
    ));
    keep_third(&mut parameters, p.type_param, p.pref, p.language, p.value_data_type);
    assert(parameter_views(parameters@) == kept_params(d));
    ProprietaryProperty { name, group, value, parameters }
}

/// The split of any text has at least one piece.
pub proof fn lemma_split_has_piece(s: Seq<char>, sep: char, i: int, start: int)
    requires
        0 <= i <= s.len(),
    ensures
        split_from(s, sep, i, start).len() >= 1,
    decreases s.len() - i,
{
    if i < s.len() && s[i] != sep {
        lemma_split_has_piece(s, sep, i + 1, start);
    }
}

/// The items at position `i` of a structured value whose positions are `positions`.
pub fn component_at(positions: &Vec<String>, i: usize) -> (r: Vec<String>)
    ensures
        texts(r@) == component(texts(positions@), i as int),
{
    if i < positions.len() {
        keep_non_empty(escaped_split(positions[i].as_str(), ','))
    } else {
        let r: Vec<String> = Vec::new();
        assert(texts(r@) =~= Seq::<Seq<char>>::empty());
        r
    }
}

/// What decoding a value produced, as mathematical values.
pub open spec fn outcome_version(r: Result<VersionValue, VCardError>) -> Result<
    VersionValue,
    ErrorView,
> {
    match r {
        Ok(v) => Ok(v),
        Err(e) => Err(e@),
    }
}

/// Decodes the value of a `VERSION`.
pub fn parse_version(value: String) -> (r: Result<VersionValue, VCardError>)
    ensures
        outcome_version(r) == version_of(value@),
{
    let v = chars_of(value.as_str());
    if is_text(&v, "4.0") {
        Ok(VersionValue::V4)
    } else if is_text(&v, "3.0") {
        Ok(VersionValue::V3)
    } else {
        Err(VCardError::InvalidVersion(value))
    }
}

fn parse_gender(value: &str) -> (r: Result<Gender, VCardError>)
    ensures
        match r {
            Ok(g) => gender_of(value@) == Ok::<Payload, ErrorView>(g@.value),
            Err(e) => gender_of(value@) == Err::<Payload, ErrorView>(e@),
        },
{
    let v = chars_of(value);
    let i = find_next(&v, ';', ';', 0);
    if i >= v.len() {
        return Err(
            VCardError::InvalidSyntax {
                message: String::from_str("gender property must include a semicolon (;)"),
                property: String::from_str("Gender"),
            },
        );
    }
    let identity = text_of(&v, i + 1, v.len());
    if i == 0 {
        Ok(Gender { sex: None, identity_component: Some(identity) })
    } else {
        let token = text_of(&v, 0, i);
        match Sex::from_str(token.as_str()) {
            Ok(s) => Ok(Gender { sex: Some(s), identity_component: Some(identity) }),
            Err(e) => Err(e),
        }
    }
}

fn parse_pid_map(group: Option<String>, p: ParamSet, value: &str) -> (r: Result<
    ClientPidMap,
    VCardError,
>)
    ensures
        match r {
            Ok(c) => pid_map_of(value@) is Ok && c@ == standard_view(
                PropertyKind::ClientPidMap,
                opt_text(group),
                p@.fields,
                pid_map_of(value@)->Ok_0,
            ),
            Err(e) => pid_map_of(value@) == Err::<Payload, ErrorView>(e@),
        },
{
    let v = chars_of(value);
    assert(v@.subrange(0, v.len() as int) =~= v@);
    let parts = split_text(&v, 0, v.len(), ';');
    proof {
        lemma_split_has_piece(v@, ';', 0, 0);
    }
    assert(texts(parts@)[0] == parts@[0]@);
    match parse_u8(parts[0].as_str()) {
        Err(e) => Err(VCardError::ParseIntError(e)),
        Ok(digit) => {
            if parts.len() < 2 {
                Err(
                    VCardError::InvalidLine {
                        reason: String::from_str(
                            "expected clientpidmap value to have two parts separated by ';'",
                        ),
                        raw_line: String::from_str(value),
                    },
                )
            } else {
                assert(texts(parts@)[1] == parts@[1]@);
                match Uri::parse(parts[1].as_str()) {
                    Ok(u) => Ok(build_clientpidmap(group, p, digit, u)),
                    Err(e) => Err(e),
                }
            }
        },
    }
}

/// Whether the value of the property is one text, taken as it is written.
pub open spec fn is_text_kind(kind: PropertyKind) -> bool {
    kind == PropertyKind::Begin || kind == PropertyKind::End
        || kind == PropertyKind::FN
        || kind == PropertyKind::BDay
        || kind == PropertyKind::Anniversary
        || kind == PropertyKind::Tel
        || kind == PropertyKind::Email
        || kind == PropertyKind::Lang
        || kind == PropertyKind::Tz
        || kind == PropertyKind::Title
        || kind == PropertyKind::Role
        || kind == PropertyKind::Related
        || kind == PropertyKind::Note
        || kind == PropertyKind::ProdId
        || kind == PropertyKind::Rev
        || kind == PropertyKind::Uid
        || kind == PropertyKind::Key
        || kind == PropertyKind::Xml
}

fn text_property(kind: PropertyKind, group: Option<String>, p: ParamSet, value: String) -> (r:
    Property)
    requires
        is_text_kind(kind),
    ensures
        r@ == standard_view(kind, opt_text(group), p@.fields, Payload::Text(value@)),
{
    match kind {
        PropertyKind::Begin => Property::Begin { value },
        PropertyKind::End => Property::End { value },
        PropertyKind::FN => Property::FN(build_fn(group, p, value)),
        PropertyKind::BDay => Property::BDay(build_bday(group, p, value)),
        PropertyKind::Anniversary => Property::Anniversary(build_anniversary(group, p, value)),
        PropertyKind::Tel => Property::Tel(build_tel(group, p, value)),
        PropertyKind::Email => Property::Email(build_email(group, p, value)),
        PropertyKind::Lang => Property::Lang(build_lang(group, p, value)),
        PropertyKind::Tz => Property::Tz(build_tz(group, p, value)),
        PropertyKind::Title => Property::Title(build_title(group, p, value)),
        PropertyKind::Role => Property::Role(build_role(group, p, value)),
        PropertyKind::Related => Property::Related(build_related(group, p, value)),
        PropertyKind::Note => Property::Note(build_note(group, p, value)),
        PropertyKind::ProdId => Property::ProdId(build_prodid(group, p, value)),
        PropertyKind::Rev => Property::Rev(build_rev(group, p, value)),
        PropertyKind::Uid => Property::Uid(build_uid(group, p, value)),
        PropertyKind::Key => Property::Key(build_key(group, p, value)),
        PropertyKind::Xml => Property::Xml(build_xml(group, p, value)),
        _ => Property::Begin { value },
    }
}

fn uri_property(kind: PropertyKind, group: Option<String>, p: ParamSet, value: Uri) -> (r: Property)
    requires
        is_uri_kind(kind),
    ensures
        r@ == standard_view(kind, opt_text(group), p@.fields, Payload::Text(value@)),
{
    match kind {
        PropertyKind::Source => Property::Source(build_source(group, p, value)),
        PropertyKind::Photo => Property::Photo(build_photo(group, p, value)),
        PropertyKind::Impp => Property::Impp(build_impp(group, p, value)),
        PropertyKind::Geo => Property::Geo(build_geo(group, p, value)),
        PropertyKind::Logo => Property::Logo(build_logo(group, p, value)),
        PropertyKind::Member => Property::Member(build_member(group, p, value)),
        PropertyKind::Sound => Property::Sound(build_sound(group, p, value)),
        PropertyKind::Url => Property::Url(build_vcardurl(group, p, value)),
        PropertyKind::FbUrl => Property::FbUrl(build_fburl(group, p, value)),
        PropertyKind::CalAdUri => Property::CalAdUri(build_caladuri(group, p, value)),
        _ => Property::CalUri(build_caluri(group, p, value)),
    }
}

fn structured_property(kind: PropertyKind, group: Option<String>, p: ParamSet, value: &str) -> (r:
    Property)
    requires
        kind == PropertyKind::N || kind == PropertyKind::Adr,
    ensures
        payload_of(kind, value@) is Ok,
        r@ == standard_view(kind, opt_text(group), p@.fields, payload_of(kind, value@)->Ok_0),
{
    let positions = split_unescaped(value, ';');
    let c0 = component_at(&positions, 0);
    let c1 = component_at(&positions, 1);
    let c2 = component_at(&positions, 2);
    let c3 = component_at(&positions, 3);
    let c4 = component_at(&positions, 4);
    if kind == PropertyKind::N {
        assert(seq![texts(c0@), texts(c1@), texts(c2@), texts(c3@), texts(c4@)] =~= components(
            value@,
            5,
        ));
        Property::N(build_n(group, p, c0, c1, c2, c3, c4))
    } else {
        let c5 = component_at(&positions, 5);
        let c6 = component_at(&positions, 6);
        assert(seq![
            texts(c0@),
            texts(c1@),
            texts(c2@),
            texts(c3@),
            texts(c4@),
            texts(c5@),
            texts(c6@),
        ] =~= components(value@, 7));
        Property::Adr(build_adr(group, p, c0, c1, c2, c3, c4, c5, c6))
    }
}

fn list_property(kind: PropertyKind, group: Option<String>, p: ParamSet, value: &str) -> (r:
    Property)
    requires
        kind == PropertyKind::NickName || kind == PropertyKind::Categories || kind
            == PropertyKind::Org,
    ensures
        payload_of(kind, value@) is Ok,
        r@ == standard_view(kind, opt_text(group), p@.fields, payload_of(kind, value@)->Ok_0),
{
    if kind == PropertyKind::NickName {
        Property::NickName(build_nickname(group, p, keep_non_empty(escaped_split(value, ','))))
    } else if kind == PropertyKind::Categories {
        Property::Categories(build_categories(group, p, keep_non_empty(escaped_split(value, ','))))
    } else {
        Property::Org(build_org(group, p, keep_non_empty(escaped_split(value, ';'))))
    }
}

impl Property {
    /// Which property this is.
    pub fn kind(&self) -> (k: PropertyKind)
        ensures
            k == self@.kind,
    {
        match self {
            Property::Begin { value } => PropertyKind::Begin,
            Property::End { value } => PropertyKind::End,
            Property::Version(_) => PropertyKind::Version,
            Property::Source(_) => PropertyKind::Source,
            Property::Kind(_) => PropertyKind::Kind,
            Property::FN(_) => PropertyKind::FN,
            Property::N(_) => PropertyKind::N,
            Property::NickName(_) => PropertyKind::NickName,
            Property::Photo(_) => PropertyKind::Photo,
            Property::BDay(_) => PropertyKind::BDay,
            Property::Anniversary(_) => PropertyKind::Anniversary,
            Property::Gender(_) => PropertyKind::Gender,
            Property::Adr(_) => PropertyKind::Adr,
            Property::Tel(_) => PropertyKind::Tel,
            Property::Email(_) => PropertyKind::Email,
            Property::Impp(_) => PropertyKind::Impp,
            Property::Lang(_) => PropertyKind::Lang,
            Property::Tz(_) => PropertyKind::Tz,
            Property::Geo(_) => PropertyKind::Geo,
            Property::Title(_) => PropertyKind::Title,
            Property::Role(_) => PropertyKind::Role,
            Property::Logo(_) => PropertyKind::Logo,
            Property::Org(_) => PropertyKind::Org,
            Property::Member(_) => PropertyKind::Member,
            Property::Related(_) => PropertyKind::Related,
            Property::Categories(_) => PropertyKind::Categories,
            Property::Note(_) => PropertyKind::Note,
            Property::ProdId(_) => PropertyKind::ProdId,
            Property::Rev(_) => PropertyKind::Rev,
            Property::Sound(_) => PropertyKind::Sound,
            Property::Uid(_) => PropertyKind::Uid,
            Property::ClientPidMap(_) => PropertyKind::ClientPidMap,
            Property::Url(_) => PropertyKind::Url,
            Property::Key(_) => PropertyKind::Key,
            Property::FbUrl(_) => PropertyKind::FbUrl,
            Property::CalAdUri(_) => PropertyKind::CalAdUri,
            Property::CalUri(_) => PropertyKind::CalUri,
            Property::Xml(_) => PropertyKind::Xml,
            Property::Proprietary(_) => PropertyKind::Proprietary,
        }
    }

    /// Makes a standard property of the parts of its line.
    pub fn from_parts(kind: PropertyKind, group: Option<String>, p: ParamSet, value: String) -> (r:
        Result<Property, VCardError>)
        requires
            kind != PropertyKind::Proprietary,
        ensures
            outcome(r) == decode_standard(kind, opt_text(group), p@, value@),
    {
        match p.unknown(field_set_of(kind)) {
            Some(k) => {
                return Err(VCardError::UnknownParameter(String::from_str(k)));
            },
            None => {},
        }
        match kind {
            PropertyKind::Version => match parse_version(value) {
                Ok(v) => Ok(Property::Version(build_version(group, p, v))),
                Err(e) => Err(e),
            },
            PropertyKind::Kind => match KindValue::from_str(value.as_str()) {
                Ok(k) => Ok(Property::Kind(build_kind(group, p, k))),
                Err(e) => Err(e),
            },
            PropertyKind::Gender => match parse_gender(value.as_str()) {
                Ok(g) => Ok(Property::Gender(g)),
                Err(e) => Err(e),
            },
            PropertyKind::ClientPidMap => match parse_pid_map(group, p, value.as_str()) {
                Ok(c) => Ok(Property::ClientPidMap(c)),
                Err(e) => Err(e),
            },
            PropertyKind::N | PropertyKind::Adr => Ok(
                structured_property(kind, group, p, value.as_str()),
            ),
            PropertyKind::NickName | PropertyKind::Categories | PropertyKind::Org => Ok(
                list_property(kind, group, p, value.as_str()),
            ),
            PropertyKind::Source | PropertyKind::Photo | PropertyKind::Impp | PropertyKind::Geo | PropertyKind::Logo | PropertyKind::Member | PropertyKind::Sound | PropertyKind::Url | PropertyKind::FbUrl | PropertyKind::CalAdUri | PropertyKind::CalUri => match Uri::parse(value.as_str()) {
                Ok(u) => Ok(uri_property(kind, group, p, u)),
                Err(e) => Err(e),
            },
            _ => Ok(text_property(kind, group, p, value)),
        }
    }

    /// Decodes one logical line.
    pub fn from_str(line: &str) -> (r: Result<Property, VCardError>)
        ensures
            outcome(r) == decode_line(line@),
    {
        let t = match tokenize(line) {
            Some(t) => t,
            None => {
                return Err(
                    VCardError::InvalidLine {
                        reason: String::from_str("does not match property pattern"),
                        raw_line: String::from_str(line),
                    },
                );
            },
        };
        let params = match &t.params {
            Some(raw) => match parse_parameters(raw.as_str()) {
                Ok(ps) => ps,
                Err(e) => {
                    return Err(e);
                },
            },
            None => {
                let ps: Vec<Parameter> = Vec::new();
                assert(parameter_views(ps@) =~= Seq::<ParameterView>::empty());
                ps
            },
        };
        let p = demux_params(params);
        let name = chars_of(t.name.as_str());
        assert(name@.subrange(0, name.len() as int) =~= name@);
        let lower = fold(t.name.as_str());
        match keyword_of(&lower) {
            Some(kind) => Property::from_parts(kind, t.group, p, t.value),
            None => {
                if has_extension_prefix(&name) {
                    Ok(Property::Proprietary(build_proprietary(t.group, t.name, p, t.value)))
                } else {
                    Err(
                        VCardError::InvalidName {
                            actual_name: t.name,
                            raw_line: String::from_str(line),
                        },
                    )
                }
            },
        }
    }

    /// The wire text of this property: one line, with its line break.
    pub fn to_string(&self) -> (s: String)
        ensures
            s@ == serialize(self@),
    {
        let mut s = String::new();
        self.write_to(&mut s);
        assert(s@ =~= serialize(self@));
        s
    }
}

impl WireText for Property {
    fn write_to(&self, out: &mut String) {
        match self {
            Property::Begin { value } => {
                write_start(
                    out,
                    &None,
                    "BEGIN",
                    &None,
                    &None,
                    &None,
                    &None,
                    &None,
                    &None,
                    &None,
                    &None,
                    &None,
                    &None,
                    &None,
                );
                finish_text(out, value.as_str(), Ghost(old(out)@), Ghost(start_text(self@)));
            },
            Property::End { value } => {
                write_start(
                    out,
                    &None,
                    "END",
                    &None,
                    &None,
                    &None,
                    &None,
                    &None,
                    &None,
                    &None,
                    &None,
                    &None,
                    &None,
                    &None,
                );
                finish_text(out, value.as_str(), Ghost(old(out)@), Ghost(start_text(self@)));
            },
            Property::Version(p) => p.write_to(out),
            Property::Source(p) => p.write_to(out),
            Property::Kind(p) => p.write_to(out),
            Property::FN(p) => p.write_to(out),
            Property::N(p) => p.write_to(out),
            Property::NickName(p) => p.write_to(out),
            Property::Photo(p) => p.write_to(out),
            Property::BDay(p) => p.write_to(out),
            Property::Anniversary(p) => p.write_to(out),
            Property::Gender(p) => p.write_to(out),
            Property::Adr(p) => p.write_to(out),
            Property::Tel(p) => p.write_to(out),
            Property::Email(p) => p.write_to(out),
            Property::Impp(p) => p.write_to(out),
            Property::Lang(p) => p.write_to(out),
            Property::Tz(p) => p.write_to(out),
            Property::Geo(p) => p.write_to(out),
            Property::Title(p) => p.write_to(out),
            Property::Role(p) => p.write_to(out),
            Property::Logo(p) => p.write_to(out),
            Property::Org(p) => p.write_to(out),
            Property::Member(p) => p.write_to(out),
            Property::Related(p) => p.write_to(out),
            Property::Categories(p) => p.write_to(out),
            Property::Note(p) => p.write_to(out),
            Property::ProdId(p) => p.write_to(out),
            Property::Rev(p) => p.write_to(out),
            Property::Sound(p) => p.write_to(out),
            Property::Uid(p) => p.write_to(out),
            Property::ClientPidMap(p) => p.write_to(out),
            Property::Url(p) => p.write_to(out),
            Property::Key(p) => p.write_to(out),
            Property::FbUrl(p) => p.write_to(out),
            Property::CalAdUri(p) => p.write_to(out),
            Property::CalUri(p) => p.write_to(out),
            Property::Xml(p) => p.write_to(out),
            Property::Proprietary(p) => p.write_to(out),
        }
    }
}

} // verus!
