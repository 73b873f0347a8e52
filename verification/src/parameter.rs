//! Property parameters: the typed modifiers between a property's name and its value.

use crate::errors::{outcome, ErrorView, VCardError};
use crate::text::{
    chars_of, decimal_value, digits_of, fold, fold_case, is_text, is_u8_text, join, next_of,
    find_next, parse_u8, push_joined, push_u8, split, split_text, text_of, texts, u8_text,
};
use vstd::prelude::*;
use vstd::string::*;

verus! {

/// The kind of value that a property holds, as its `VALUE` parameter declares it.
#[derive(Debug, Clone, PartialEq)]
pub enum ValueDataType {
    Uri,
    Text,
    Date,
    Time,
    DateTime,
    DateAndOrTime,
    Timestamp,
    Boolean,
    Integer,
    Float,
    UtcOffset,
    LanguageTag,
    Proprietary(String),
}

/// A `ValueDataType` as a mathematical value.
pub enum ValueTypeView {
    Uri,
    Text,
    Date,
    Time,
    DateTime,
    DateAndOrTime,
    Timestamp,
    Boolean,
    Integer,
    Float,
    UtcOffset,
    LanguageTag,
    Proprietary(Seq<char>),
}

impl View for ValueDataType {
    type V = ValueTypeView;

    open spec fn view(&self) -> ValueTypeView {
        match *self {
            ValueDataType::Uri => ValueTypeView::Uri,
            ValueDataType::Text => ValueTypeView::Text,
            ValueDataType::Date => ValueTypeView::Date,
            ValueDataType::Time => ValueTypeView::Time,
            ValueDataType::DateTime => ValueTypeView::DateTime,
            ValueDataType::DateAndOrTime => ValueTypeView::DateAndOrTime,
            ValueDataType::Timestamp => ValueTypeView::Timestamp,
            ValueDataType::Boolean => ValueTypeView::Boolean,
            ValueDataType::Integer => ValueTypeView::Integer,
            ValueDataType::Float => ValueTypeView::Float,
            ValueDataType::UtcOffset => ValueTypeView::UtcOffset,
            ValueDataType::LanguageTag => ValueTypeView::LanguageTag,
            ValueDataType::Proprietary(p) => ValueTypeView::Proprietary(p@),
        }
    }
}

/// The view of an optional value type.
pub open spec fn opt_value_type(v: Option<ValueDataType>) -> Option<ValueTypeView> {
    match v {
        Some(t) => Some(t@),
        None => None,
    }
}

/// Whether `s` begins with `X-` or `x-`, the mark of an extension.
pub open spec fn is_extension(s: Seq<char>) -> bool {
    s.len() >= 2 && (s[0] == 'X' || s[0] == 'x') && s[1] == '-'
}

/// The value type that the token `s` names. The twelve standard tokens are matched as they
/// are written, in lower case; an extension token is kept as it is.
pub open spec fn value_type_of(s: Seq<char>) -> Result<ValueTypeView, ErrorView> {
    if s == "uri"@ {
        Ok(ValueTypeView::Uri)
    } else if s == "text"@ {
        Ok(ValueTypeView::Text)
    } else if s == "date"@ {
        Ok(ValueTypeView::Date)
    } else if s == "time"@ {
        Ok(ValueTypeView::Time)
    } else if s == "date-time"@ {
        Ok(ValueTypeView::DateTime)
    } else if s == "date-and-or-time"@ {
        Ok(ValueTypeView::DateAndOrTime)
    } else if s == "timestamp"@ {
        Ok(ValueTypeView::Timestamp)
    } else if s == "boolean"@ {
        Ok(ValueTypeView::Boolean)
    } else if s == "integer"@ {
        Ok(ValueTypeView::Integer)
    } else if s == "float"@ {
        Ok(ValueTypeView::Float)
    } else if s == "utc-offset"@ {
        Ok(ValueTypeView::UtcOffset)
    } else if s == "language-tag"@ {
        Ok(ValueTypeView::LanguageTag)
    } else if is_extension(s) {
        Ok(ValueTypeView::Proprietary(s))
    } else {
        Err(ErrorView::UnknownType { given_type: s })
    }
}

/// The token that names the value type `t`.
pub open spec fn value_type_text(t: ValueTypeView) -> Seq<char> {
    match t {
        ValueTypeView::Uri => "uri"@,
        ValueTypeView::Text => "text"@,
        ValueTypeView::Date => "date"@,
        ValueTypeView::Time => "time"@,
        ValueTypeView::DateTime => "date-time"@,
        ValueTypeView::DateAndOrTime => "date-and-or-time"@,
        ValueTypeView::Timestamp => "timestamp"@,
        ValueTypeView::Boolean => "boolean"@,
        ValueTypeView::Integer => "integer"@,
        ValueTypeView::Float => "float"@,
        ValueTypeView::UtcOffset => "utc-offset"@,
        ValueTypeView::LanguageTag => "language-tag"@,
        ValueTypeView::Proprietary(p) => p,
    }
}

/// Whether `v` begins with `X-` or `x-`.
pub fn has_extension_prefix(v: &Vec<char>) -> (b: bool)
    ensures
        b == is_extension(v@),
{
    v.len() >= 2 && (v[0] == 'X' || v[0] == 'x') && v[1] == '-'
}

impl ValueDataType {
    /// Decodes a `VALUE` token.
    pub fn from_str(s: &str) -> (r: Result<ValueDataType, VCardError>)
        ensures
            outcome(r) == value_type_of(s@),
    {
        let v = chars_of(s);
        if is_text(&v, "uri") {
            Ok(ValueDataType::Uri)
        } else if is_text(&v, "text") {
            Ok(ValueDataType::Text)
        } else if is_text(&v, "date") {
            Ok(ValueDataType::Date)
        } else if is_text(&v, "time") {
            Ok(ValueDataType::Time)
        } else if is_text(&v, "date-time") {
            Ok(ValueDataType::DateTime)
        } else if is_text(&v, "date-and-or-time") {
            Ok(ValueDataType::DateAndOrTime)
        } else if is_text(&v, "timestamp") {
            Ok(ValueDataType::Timestamp)
        } else if is_text(&v, "boolean") {
            Ok(ValueDataType::Boolean)
        } else if is_text(&v, "integer") {
            Ok(ValueDataType::Integer)
        } else if is_text(&v, "float") {
            Ok(ValueDataType::Float)
        } else if is_text(&v, "utc-offset") {
            Ok(ValueDataType::UtcOffset)
        } else if is_text(&v, "language-tag") {
            Ok(ValueDataType::LanguageTag)
        } else if has_extension_prefix(&v) {
            Ok(ValueDataType::Proprietary(String::from_str(s)))
        } else {
            Err(VCardError::UnknownType { given_type: String::from_str(s) })
        }
    }

    /// The token that names this value type.
    pub fn as_str(&self) -> (s: &str)
        ensures
            s@ == value_type_text(self@),
    {
        match self {
            ValueDataType::Uri => "uri",
            ValueDataType::Text => "text",
            ValueDataType::Date => "date",
            ValueDataType::Time => "time",
            ValueDataType::DateTime => "date-time",
            ValueDataType::DateAndOrTime => "date-and-or-time",
            ValueDataType::Timestamp => "timestamp",
            ValueDataType::Boolean => "boolean",
            ValueDataType::Integer => "integer",
            ValueDataType::Float => "float",
            ValueDataType::UtcOffset => "utc-offset",
            ValueDataType::LanguageTag => "language-tag",
            ValueDataType::Proprietary(p) => p.as_str(),
        }
    }

    /// The token that names this value type, as an owned text.
    pub fn to_string(&self) -> (s: String)
        ensures
            s@ == value_type_text(self@),
    {
        String::from_str(self.as_str())
    }
}

/// A property-instance identifier: a number, optionally followed by a dot and a second number.
#[derive(Debug, Clone, Copy, PartialEq, Eq)]
pub struct Pid {
    pub first_digit: u8,
    pub second_digit: Option<u8>,
}

/// The text of a PID: `1` or `1.2`.
pub open spec fn pid_text(p: Pid) -> Seq<char> {
    match p.second_digit {
        Some(d) => u8_text(p.first_digit) + seq!['.'] + u8_text(d),
        None => u8_text(p.first_digit),
    }
}

/// The number that the text `s` spells, when `is_u8_text(s)`.
pub open spec fn u8_of(s: Seq<char>) -> u8 {
    decimal_value(digits_of(s)) as u8
}

/// The PID that `v` spells: one number, or two numbers with a dot between them. Any other
/// shape is an error that names `v`.
pub open spec fn pid_of(v: Seq<char>) -> Result<Pid, ErrorView> {
    let parts = split(v, '.');
    if parts.len() == 1 && is_u8_text(parts[0]) {
        Ok(Pid { first_digit: u8_of(parts[0]), second_digit: None })
    } else if parts.len() == 2 && is_u8_text(parts[0]) && is_u8_text(parts[1]) {
        Ok(Pid { first_digit: u8_of(parts[0]), second_digit: Some(u8_of(parts[1])) })
    } else {
        Err(ErrorView::InvalidPID { provided: v })
    }
}

impl Pid {
    /// Appends the text of this PID to `out`.
    pub fn write_to(&self, out: &mut String)
        ensures
            final(out)@ == old(out)@ + pid_text(*self),
    {
        push_u8(out, self.first_digit);
        match self.second_digit {
            Some(d) => {
                out.push('.');
                push_u8(out, d);
                assert(out@ =~= old(out)@ + pid_text(*self));
            },
            None => {},
        }
    }

    /// The text of this PID.
    pub fn to_string(&self) -> (s: String)
        ensures
            s@ == pid_text(*self),
    {
        let mut s = String::new();
        self.write_to(&mut s);
        assert(s@ =~= pid_text(*self));
        s
    }
}

/// One decoded parameter.
#[derive(Debug, Clone, PartialEq)]
pub enum Parameter {
    Label(String),
    Language(String),
    Value(ValueDataType),
    Pref(u8),
    AltId(String),
    Pid(Pid),
    Type(Vec<String>),
    MediaType(String),
    CalScale(String),
    SortAs(Vec<String>),
    Geo(String),
    TimeZone(String),
    Proprietary(String),
}

/// A `Parameter` as a mathematical value.
pub enum ParameterView {
    Label(Seq<char>),
    Language(Seq<char>),
    Value(ValueTypeView),
    Pref(u8),
    AltId(Seq<char>),
    Pid(Pid),
    Type(Seq<Seq<char>>),
    MediaType(Seq<char>),
    CalScale(Seq<char>),
    SortAs(Seq<Seq<char>>),
    Geo(Seq<char>),
    TimeZone(Seq<char>),
    Proprietary(Seq<char>),
}

impl View for Parameter {
    type V = ParameterView;

    open spec fn view(&self) -> ParameterView {
        match *self {
            Parameter::Label(l) => ParameterView::Label(l@),
            Parameter::Language(l) => ParameterView::Language(l@),
            Parameter::Value(v) => ParameterView::Value(v@),
            Parameter::Pref(p) => ParameterView::Pref(p),
            Parameter::AltId(a) => ParameterView::AltId(a@),
            Parameter::Pid(p) => ParameterView::Pid(p),
            Parameter::Type(t) => ParameterView::Type(texts(t@)),
            Parameter::MediaType(m) => ParameterView::MediaType(m@),
            Parameter::CalScale(c) => ParameterView::CalScale(c@),
            Parameter::SortAs(s) => ParameterView::SortAs(texts(s@)),
            Parameter::Geo(g) => ParameterView::Geo(g@),
            Parameter::TimeZone(t) => ParameterView::TimeZone(t@),
            Parameter::Proprietary(p) => ParameterView::Proprietary(p@),
        }
    }
}

/// The views of a list of parameters.
pub open spec fn parameter_views(v: Seq<Parameter>) -> Seq<ParameterView> {
    v.map_values(|p: Parameter| p@)
}

/// The parameter that the segment `raw` spells. The key, before the first `=`, is matched
/// without regard to case; a key that is not known gives a proprietary
/// parameter that holds the value.
pub open spec fn parameter_of(raw: Seq<char>) -> Result<ParameterView, ErrorView> {
    let i = next_of(raw, '=', '=', 0);
    if i >= raw.len() {
        Err(ErrorView::InvalidLine { reason: "parameter has no = sign"@, raw_line: raw })
    } else {
        let key = fold_case(raw.subrange(0, i));
        let v = raw.subrange(i + 1, raw.len() as int);
        if key == "language"@ {
            Ok(ParameterView::Language(v))
        } else if key == "pref"@ {
            if is_u8_text(v) {
                Ok(ParameterView::Pref(u8_of(v)))
            } else {
                Err(ErrorView::ParseInt)
            }
        } else if key == "altid"@ {
            Ok(ParameterView::AltId(v))
        } else if key == "pid"@ {
            match pid_of(v) {
                Ok(p) => Ok(ParameterView::Pid(p)),
                Err(e) => Err(e),
            }
        } else if key == "value"@ {
            match value_type_of(v) {
                Ok(t) => Ok(ParameterView::Value(t)),
                Err(e) => Err(e),
            }
        } else if key == "type"@ {
            Ok(ParameterView::Type(split(v, ',')))
        } else if key == "mediatype"@ {
            Ok(ParameterView::MediaType(v))
        } else if key == "calscale"@ {
            Ok(ParameterView::CalScale(v))
        } else if key == "sort-as"@ {
            Ok(ParameterView::SortAs(split(v, ',')))
        } else if key == "geo"@ {
            Ok(ParameterView::Geo(v))
        } else if key == "tz"@ {
            Ok(ParameterView::TimeZone(v))
        } else {
            Ok(ParameterView::Proprietary(v))
        }
    }
}

/// The text of a parameter: its key in capitals, `=`, and its value; a proprietary
/// parameter is its held text alone.
pub open spec fn parameter_text(p: ParameterView) -> Seq<char> {
    match p {
        ParameterView::Label(l) => "LABEL="@ + l,
        ParameterView::Language(l) => "LANGUAGE="@ + l,
        ParameterView::Value(v) => "VALUE="@ + value_type_text(v),
        ParameterView::Pref(p) => "PREF="@ + u8_text(p),
        ParameterView::AltId(a) => "ALTID="@ + a,
        ParameterView::Pid(p) => "PID="@ + pid_text(p),
        ParameterView::Type(t) => "TYPE="@ + join(t, ","@),
        ParameterView::MediaType(m) => "MEDIATYPE="@ + m,
        ParameterView::CalScale(c) => "CALSCALE="@ + c,
        ParameterView::SortAs(s) => "SORT-AS="@ + join(s, ","@),
        ParameterView::Geo(g) => "GEO="@ + g,
        ParameterView::TimeZone(t) => "TZ="@ + t,
        ParameterView::Proprietary(p) => p,
    }
}

fn pid_from_chars(v: &Vec<char>, from: usize) -> (r: Result<Pid, VCardError>)
    requires
        from <= v.len(),
    ensures
        outcome_pid(r) == pid_of(v@.subrange(from as int, v.len() as int)),
{
    let parts = split_text(v, from, v.len(), '.');
    let ghost p = texts(parts@);
    assert(forall|i: int| 0 <= i < parts.len() ==> p[i] == parts@[i]@);
    if parts.len() == 1 {
        match parse_u8(parts[0].as_str()) {
            Ok(a) => { return Ok(Pid { first_digit: a, second_digit: None }); },
            Err(_) => {},
        }
    } else if parts.len() == 2 {
        match parse_u8(parts[0].as_str()) {
            Ok(a) => {
                match parse_u8(parts[1].as_str()) {
                    Ok(b) => { return Ok(Pid { first_digit: a, second_digit: Some(b) }); },
                    Err(_) => {},
                }
            },
            Err(_) => {},
        }
    }
    Err(VCardError::InvalidPID { provided: text_of(v, from, v.len()) })
}

/// What decoding a PID produced, as mathematical values.
pub open spec fn outcome_pid(r: Result<Pid, VCardError>) -> Result<Pid, ErrorView> {
    match r {
        Ok(p) => Ok(p),
        Err(e) => Err(e@),
    }
}

impl Parameter {
    /// Decodes one `KEY=VALUE` segment.
    pub fn from_str(raw: &str) -> (r: Result<Parameter, VCardError>)
        ensures
            outcome(r) == parameter_of(raw@),
    {
        let v = chars_of(raw);
        Parameter::from_chars(&v)
    }

    /// Decodes one `KEY=VALUE` segment, given as characters.
    pub fn from_chars(v: &Vec<char>) -> (r: Result<Parameter, VCardError>)
        ensures
            outcome(r) == parameter_of(v@),
    {
        let i = find_next(v, '=', '=', 0);
        assert(v@.subrange(0, v.len() as int) =~= v@);
        if i >= v.len() {
            return Err(
                VCardError::InvalidLine {
                    reason: String::from_str("parameter has no = sign"),
                    raw_line: text_of(v, 0, v.len()),
                },
            );
        }
        let key_text = text_of(v, 0, i);
        let key = fold(key_text.as_str());
        let n = v.len();
        if is_text(&key, "language") {
            Ok(Parameter::Language(text_of(v, i + 1, n)))
        } else if is_text(&key, "pref") {
            let t = text_of(v, i + 1, n);
            match parse_u8(t.as_str()) {
                Ok(p) => Ok(Parameter::Pref(p)),
                Err(e) => Err(VCardError::ParseIntError(e)),
            }
        } else if is_text(&key, "altid") {
            Ok(Parameter::AltId(text_of(v, i + 1, n)))
        } else if is_text(&key, "pid") {
            match pid_from_chars(v, i + 1) {
                Ok(p) => Ok(Parameter::Pid(p)),
                Err(e) => Err(e),
            }
        } else if is_text(&key, "value") {
            let t = text_of(v, i + 1, n);
            match ValueDataType::from_str(t.as_str()) {
                Ok(t) => Ok(Parameter::Value(t)),
                Err(e) => Err(e),
            }
        } else if is_text(&key, "type") {
            Ok(Parameter::Type(split_text(v, i + 1, n, ',')))
        } else if is_text(&key, "mediatype") {
            Ok(Parameter::MediaType(text_of(v, i + 1, n)))
        } else if is_text(&key, "calscale") {
            Ok(Parameter::CalScale(text_of(v, i + 1, n)))
        } else if is_text(&key, "sort-as") {
            Ok(Parameter::SortAs(split_text(v, i + 1, n, ',')))
        } else if is_text(&key, "geo") {
            Ok(Parameter::Geo(text_of(v, i + 1, n)))
        } else if is_text(&key, "tz") {
            Ok(Parameter::TimeZone(text_of(v, i + 1, n)))
        } else {
            Ok(Parameter::Proprietary(text_of(v, i + 1, n)))
        }
    }

    /// Appends the text of this parameter to `out`.
    pub fn write_to(&self, out: &mut String)
        ensures
            final(out)@ == old(out)@ + parameter_text(self@),
    {
        match self {
            Parameter::Label(l) => {
                out.append("LABEL=");
                out.append(l.as_str());
            },
            Parameter::Language(l) => {
                out.append("LANGUAGE=");
                out.append(l.as_str());
            },
            Parameter::Value(v) => {
                out.append("VALUE=");
                out.append(v.as_str());
            },
            Parameter::Pref(p) => {
                out.append("PREF=");
                push_u8(out, *p);
            },
            Parameter::AltId(a) => {
                out.append("ALTID=");
                out.append(a.as_str());
            },
            Parameter::Pid(p) => {
                out.append("PID=");
                p.write_to(out);
            },
            Parameter::Type(t) => {
                out.append("TYPE=");
                push_joined(out, t, ",");
            },
            Parameter::MediaType(m) => {
                out.append("MEDIATYPE=");
                out.append(m.as_str());
            },
            Parameter::CalScale(c) => {
                out.append("CALSCALE=");
                out.append(c.as_str());
            },
            Parameter::SortAs(s) => {
                out.append("SORT-AS=");
                push_joined(out, s, ",");
            },
            Parameter::Geo(g) => {
                out.append("GEO=");
                out.append(g.as_str());
            },
            Parameter::TimeZone(t) => {
                out.append("TZ=");
                out.append(t.as_str());
            },
            Parameter::Proprietary(p) => {
                out.append(p.as_str());
            },
        }
        assert(out@ =~= old(out)@ + parameter_text(self@));
    }

    /// The text of this parameter.
    pub fn to_string(&self) -> (s: String)
        ensures
            s@ == parameter_text(self@),
    {
        let mut s = String::new();
        self.write_to(&mut s);
        assert(s@ =~= parameter_text(self@));
        s
    }
}

} // verus!
