//! The shared vocabulary of the property types: the small value enums, the two capability
//! traits of the containers, and the mathematical view that every property has.

use crate::errors::{ErrorView, VCardError};
use crate::parameter::{ParameterView, Pid, ValueTypeView};
use crate::text::{fold, fold_case, is_text};
use vstd::prelude::*;
use vstd::string::*;

verus! {

/// The alt-id that an optional `ALTID` parameter stands for.
pub open spec fn alt_id_of(altid: Option<Seq<char>>) -> Seq<char> {
    match altid {
        Some(a) => a,
        None => Seq::empty(),
    }
}

/// The rank that an optional `PREF` parameter stands for.
pub open spec fn rank_of(pref: Option<u8>) -> u8 {
    match pref {
        Some(p) => p,
        None => 100,
    }
}

/// The alt-id held in `altid`, empty if there is none.
pub fn alt_id_str(altid: &Option<String>) -> (r: &str)
    ensures
        r@ == alt_id_of(crate::text::opt_text(*altid)),
{
    match altid {
        Some(a) => a.as_str(),
        None => {
            proof {
                reveal_strlit("");
            }
            assert(""@ =~= Seq::<char>::empty());
            ""
        },
    }
}

/// The rank held in `pref`, 100 if there is none.
pub fn rank(pref: &Option<u8>) -> (r: u8)
    ensures
        r == rank_of(*pref),
{
    match pref {
        Some(p) => *p,
        None => 100,
    }
}

/// The version of the format that a card declares.
#[derive(Debug, Clone, Copy, PartialEq, Eq)]
pub enum VersionValue {
    V3,
    V4,
}

/// The text of a version.
pub open spec fn version_text(v: VersionValue) -> Seq<char> {
    match v {
        VersionValue::V3 => "3.0"@,
        VersionValue::V4 => "4.0"@,
    }
}

impl VersionValue {
    /// The text of the version.
    pub fn as_str(&self) -> (s: &'static str)
        ensures
            s@ == version_text(*self),
    {
        match self {
            VersionValue::V3 => "3.0",
            VersionValue::V4 => "4.0",
        }
    }
}

/// The kind of object that a card stands for.
#[derive(Debug, Clone, PartialEq)]
pub enum KindValue {
    Individual,
    Group,
    Org,
    Location,
    Proprietary(String),
}

/// A `KindValue` as a mathematical value.
pub enum KindValueView {
    Individual,
    Group,
    Org,
    Location,
    Proprietary(Seq<char>),
}

impl View for KindValue {
    type V = KindValueView;

    open spec fn view(&self) -> KindValueView {
        match *self {
            KindValue::Individual => KindValueView::Individual,
            KindValue::Group => KindValueView::Group,
            KindValue::Org => KindValueView::Org,
            KindValue::Location => KindValueView::Location,
            KindValue::Proprietary(p) => KindValueView::Proprietary(p@),
        }
    }
}

/// The kind that `s` names. The four standard names are matched without regard to case; any other text is kept as it is.
pub open spec fn kind_value_of(s: Seq<char>) -> KindValueView {
    let l = fold_case(s);
    if l == "individual"@ {
        KindValueView::Individual
    } else if l == "group"@ {
        KindValueView::Group
    } else if l == "org"@ {
        KindValueView::Org
    } else if l == "location"@ {
        KindValueView::Location
    } else {
        KindValueView::Proprietary(s)
    }
}

/// The text of a kind.
pub open spec fn kind_value_text(k: KindValueView) -> Seq<char> {
    match k {
        KindValueView::Individual => "individual"@,
        KindValueView::Group => "group"@,
        KindValueView::Org => "org"@,
        KindValueView::Location => "location"@,
        KindValueView::Proprietary(p) => p,
    }
}

impl KindValue {
    /// Decodes the value of a `KIND` property. This never fails.
    pub fn from_str(s: &str) -> (r: Result<KindValue, VCardError>)
        ensures
            r is Ok,
            r->Ok_0@ == kind_value_of(s@),
    {
        let l = fold(s);
        if is_text(&l, "individual") {
            Ok(KindValue::Individual)
        } else if is_text(&l, "group") {
            Ok(KindValue::Group)
        } else if is_text(&l, "org") {
            Ok(KindValue::Org)
        } else if is_text(&l, "location") {
            Ok(KindValue::Location)
        } else {
            Ok(KindValue::Proprietary(String::from_str(s)))
        }
    }

    /// The text of the kind.
    pub fn as_str(&self) -> (s: &str)
        ensures
            s@ == kind_value_text(self@),
    {
        match self {
            KindValue::Individual => "individual",
            KindValue::Group => "group",
            KindValue::Org => "org",
            KindValue::Location => "location",
            KindValue::Proprietary(p) => p.as_str(),
        }
    }
}

/// The sex component of a `GENDER` property.
#[derive(Debug, Clone, Copy, PartialEq, Eq)]
pub enum Sex {
    Male,
    Female,
    Other,
    /// None or not applicable.
    NotApplicable,
    Unknown,
}

/// The sex that the token `s` names, matched without regard to case.
pub open spec fn sex_of(s: Seq<char>) -> Result<Sex, ErrorView> {
    let l = fold_case(s);
    if l == "m"@ {
        Ok(Sex::Male)
    } else if l == "f"@ {
        Ok(Sex::Female)
    } else if l == "o"@ {
        Ok(Sex::Other)
    } else if l == "n"@ {
        Ok(Sex::NotApplicable)
    } else if l == "u"@ {
        Ok(Sex::Unknown)
    } else {
        Err(ErrorView::InvalidGender(s))
    }
}

/// The token of a sex.
pub open spec fn sex_text(s: Sex) -> Seq<char> {
    match s {
        Sex::Male => "m"@,
        Sex::Female => "f"@,
        Sex::Other => "o"@,
        Sex::NotApplicable => "n"@,
        Sex::Unknown => "u"@,
    }
}

/// What decoding a sex token produced, as mathematical values.
pub open spec fn outcome_sex(r: Result<Sex, VCardError>) -> Result<Sex, ErrorView> {
    match r {
        Ok(s) => Ok(s),
        Err(e) => Err(e@),
    }
}

impl Sex {
    /// Decodes a sex token: one of `m`, `f`, `o`, `n`, `u`, in either case.
    pub fn from_str(s: &str) -> (r: Result<Sex, VCardError>)
        ensures
            outcome_sex(r) == sex_of(s@),
    {
        let l = fold(s);
        if is_text(&l, "m") {
            Ok(Sex::Male)
        } else if is_text(&l, "f") {
            Ok(Sex::Female)
        } else if is_text(&l, "o") {
            Ok(Sex::Other)
        } else if is_text(&l, "n") {
            Ok(Sex::NotApplicable)
        } else if is_text(&l, "u") {
            Ok(Sex::Unknown)
        } else {
            Err(VCardError::InvalidGenderError(String::from_str(s)))
        }
    }

    /// The token of the sex.
    pub fn as_str(&self) -> (s: &'static str)
        ensures
            s@ == sex_text(*self),
    {
        match self {
            Sex::Male => "m",
            Sex::Female => "f",
            Sex::Other => "o",
            Sex::NotApplicable => "n",
            Sex::Unknown => "u",
        }
    }
}

/// Which property a line declares.
#[derive(Debug, Clone, Copy, PartialEq, Eq, Structural)]
pub enum PropertyKind {
    Begin,
    End,
    Version,
    Source,
    Kind,
    Xml,
    FN,
    N,
    NickName,
    Photo,
    BDay,
    Anniversary,
    Gender,
    Adr,
    Tel,
    Email,
    Impp,
    Lang,
    Tz,
    Geo,
    Title,
    Role,
    Logo,
    Org,
    Member,
    Related,
    Categories,
    Note,
    ProdId,
    Rev,
    Sound,
    Uid,
    ClientPidMap,
    Url,
    Key,
    FbUrl,
    CalUri,
    CalAdUri,
    Proprietary,
}

/// The group label and the parameters that a property can carry, each present or absent.
pub struct Fields {
    pub group: Option<Seq<char>>,
    pub altid: Option<Seq<char>>,
    pub language: Option<Seq<char>>,
    pub value_data_type: Option<ValueTypeView>,
    pub pref: Option<u8>,
    pub pid: Option<Pid>,
    pub type_param: Option<Seq<Seq<char>>>,
    pub mediatype: Option<Seq<char>>,
    pub calscale: Option<Seq<char>>,
    pub sort_as: Option<Seq<Seq<char>>>,
    pub geo: Option<Seq<char>>,
    pub tz: Option<Seq<char>>,
    pub label: Option<Seq<char>>,
}

/// No group and no parameter.
pub open spec fn no_fields() -> Fields {
    Fields {
        group: None,
        altid: None,
        language: None,
        value_data_type: None,
        pref: None,
        pid: None,
        type_param: None,
        mediatype: None,
        calscale: None,
        sort_as: None,
        geo: None,
        tz: None,
        label: None,
    }
}

/// The value of a property, in one of the shapes that the format knows.
pub enum Payload {
    /// One text; a URI is its normalized text.
    Text(Seq<char>),
    /// A list of texts.
    List(Seq<Seq<char>>),
    /// A fixed number of positions, each a list of texts.
    Components(Seq<Seq<Seq<char>>>),
    Version(VersionValue),
    Kind(KindValueView),
    Gender { sex: Option<Sex>, identity_component: Option<Seq<char>> },
    PidMap { pid_digit: u8, uri: Seq<char> },
    /// An extension property: its name as written, its value, and its parameters.
    Proprietary { name: Seq<char>, value: Seq<char>, parameters: Seq<ParameterView> },
}

/// A property as a mathematical value: which property it is, what it carries, and its value.
pub struct PropertyView {
    pub kind: PropertyKind,
    pub fields: Fields,
    pub value: Payload,
}

/// A property that may stand beside alternative renderings of the same logical value. The
/// alternatives share one alt-id; a property without one has the empty alt-id.
pub trait Alternative: View<V = PropertyView> {
    fn get_alt_id(&self) -> (r: &str)
        ensures
            r@ == alt_id_of(self@.fields.altid),
    ;
}

/// A property with a preference rank from 1 (most preferred) to 100. A property without a
/// rank has rank 100.
pub trait Preferable: View<V = PropertyView> {
    fn get_pref(&self) -> (r: u8)
        ensures
            r == rank_of(self@.fields.pref),
    ;
}

/// A property that can write its wire text.
pub trait WireText: View<V = PropertyView> {
    /// Appends the wire text of this property to `out`.
    fn write_to(&self, out: &mut String)
        ensures
            final(out)@ == old(out)@ + crate::wire::serialize(self@),
    ;
}

} // verus!
