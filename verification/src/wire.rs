//! The wire text of a property: an optional group and a dot, the name in capitals, the
//! parameters in a fixed order, a colon, the value, and a line break.

use crate::model::{
    kind_value_text, sex_text, version_text, Fields, Payload, PropertyKind, PropertyView,
};
use crate::parameter::{
    opt_value_type, parameter_text, parameter_views, pid_text, value_type_text, Parameter,
    ParameterView, Pid, ValueDataType,
};
use crate::text::{join, opt_text, opt_texts, push_joined, push_u8, texts, u8_text};
use vstd::prelude::*;
use vstd::string::*;

verus! {

/// The name of a property on the wire. An extension property has its own name.
pub open spec fn kind_name(k: PropertyKind) -> Seq<char> {
    match k {
        PropertyKind::Begin => "BEGIN"@,
        PropertyKind::End => "END"@,
        PropertyKind::Version => "VERSION"@,
        PropertyKind::Source => "SOURCE"@,
        PropertyKind::Kind => "KIND"@,
        PropertyKind::Xml => "XML"@,
        PropertyKind::FN => "FN"@,
        PropertyKind::N => "N"@,
        PropertyKind::NickName => "NICKNAME"@,
        PropertyKind::Photo => "PHOTO"@,
        PropertyKind::BDay => "BDAY"@,
        PropertyKind::Anniversary => "ANNIVERSARY"@,
        PropertyKind::Gender => "GENDER"@,
        PropertyKind::Adr => "ADR"@,
        PropertyKind::Tel => "TEL"@,
        PropertyKind::Email => "EMAIL"@,
        PropertyKind::Impp => "IMPP"@,
        PropertyKind::Lang => "LANG"@,
        PropertyKind::Tz => "TZ"@,
        PropertyKind::Geo => "GEO"@,
        PropertyKind::Title => "TITLE"@,
        PropertyKind::Role => "ROLE"@,
        PropertyKind::Logo => "LOGO"@,
        PropertyKind::Org => "ORG"@,
        PropertyKind::Member => "MEMBER"@,
        PropertyKind::Related => "RELATED"@,
        PropertyKind::Categories => "CATEGORIES"@,
        PropertyKind::Note => "NOTE"@,
        PropertyKind::ProdId => "PRODID"@,
        PropertyKind::Rev => "REV"@,
        PropertyKind::Sound => "SOUND"@,
        PropertyKind::Uid => "UID"@,
        PropertyKind::ClientPidMap => "CLIENTPIDMAP"@,
        PropertyKind::Url => "URL"@,
        PropertyKind::Key => "KEY"@,
        PropertyKind::FbUrl => "FBURL"@,
        PropertyKind::CalUri => "CALURI"@,
        PropertyKind::CalAdUri => "CALADURI"@,
        PropertyKind::Proprietary => Seq::empty(),
    }
}

/// The group, if any, with a dot, then the name.
pub open spec fn head_text(group: Option<Seq<char>>, name: Seq<char>) -> Seq<char> {
    match group {
        Some(g) => g + "."@ + name,
        None => name,
    }
}

/// A parameter that is written only when present: `prefix` holds the semicolon, the key and
/// the equals sign.
pub open spec fn opt_param(prefix: Seq<char>, v: Option<Seq<char>>) -> Seq<char> {
    match v {
        Some(t) => prefix + t,
        None => Seq::empty(),
    }
}

/// One `TYPE` parameter for each type tag.
pub open spec fn types_text(ts: Seq<Seq<char>>) -> Seq<char>
    decreases ts.len(),
{
    if ts.len() == 0 {
        Seq::empty()
    } else {
        types_text(ts.drop_last()) + ";TYPE="@ + ts.last()
    }
}

/// The `TYPE` parameters of optional type tags.
pub open spec fn opt_types_text(ts: Option<Seq<Seq<char>>>) -> Seq<char> {
    match ts {
        Some(t) => types_text(t),
        None => Seq::empty(),
    }
}

/// The `SORT-AS` parameter: the names, separated by commas, in double quotes.
pub open spec fn sort_as_text(s: Option<Seq<Seq<char>>>) -> Seq<char> {
    match s {
        Some(l) => ";SORT-AS=\""@ + join(l, ","@) + "\""@,
        None => Seq::empty(),
    }
}

/// The token of an optional value type.
pub open spec fn opt_value_type_text(v: Option<crate::parameter::ValueTypeView>) -> Option<
    Seq<char>,
> {
    match v {
        Some(t) => Some(value_type_text(t)),
        None => None,
    }
}

/// The decimal text of an optional number.
pub open spec fn opt_u8_text(v: Option<u8>) -> Option<Seq<char>> {
    match v {
        Some(n) => Some(u8_text(n)),
        None => None,
    }
}

/// The text of an optional PID.
pub open spec fn opt_pid_text(v: Option<Pid>) -> Option<Seq<char>> {
    match v {
        Some(p) => Some(pid_text(p)),
        None => None,
    }
}

/// The first six parameters of a standard property: alt-id, language, value type,
/// preference, PID, type tags.
pub open spec fn leading_fields_text(f: Fields) -> Seq<char> {
    opt_param(";ALTID="@, f.altid) + opt_param(";LANGUAGE="@, f.language) + opt_param(
        ";VALUE="@,
        opt_value_type_text(f.value_data_type),
    ) + opt_param(";PREF="@, opt_u8_text(f.pref)) + opt_param(";PID="@, opt_pid_text(f.pid))
        + opt_types_text(f.type_param)
}

/// The last five parameters of a standard property: media type, calendar scale, sort-as,
/// geo, time zone.
pub open spec fn trailing_fields_text(f: Fields) -> Seq<char> {
    opt_param(";MEDIATYPE="@, f.mediatype) + opt_param(";CALSCALE="@, f.calscale) + sort_as_text(
        f.sort_as,
    ) + opt_param(";GEO="@, f.geo) + opt_param(";TZ="@, f.tz)
}

/// The parameters of a standard property, in their fixed order: alt-id, language, value
/// type, preference, PID, type tags, media type, calendar scale, sort-as, geo, time zone.
/// A label is not written.
pub open spec fn fields_text(f: Fields) -> Seq<char> {
    leading_fields_text(f) + trailing_fields_text(f)
}

/// The parameters of an extension property, each after a semicolon, in the order held.
pub open spec fn params_text(ps: Seq<ParameterView>) -> Seq<char>
    decreases ps.len(),
{
    if ps.len() == 0 {
        Seq::empty()
    } else {
        params_text(ps.drop_last()) + ";"@ + parameter_text(ps.last())
    }
}

/// The positions of a structured value: the items of each position separated by commas,
/// the positions by semicolons.
pub open spec fn components_text(c: Seq<Seq<Seq<char>>>) -> Seq<char>
    decreases c.len(),
{
    if c.len() == 0 {
        Seq::empty()
    } else if c.len() == 1 {
        join(c[0], ","@)
    } else {
        components_text(c.drop_last()) + ";"@ + join(c.last(), ","@)
    }
}

/// The sex token, or nothing; then a semicolon and the identity, if there is one.
pub open spec fn gender_text(sex: Option<crate::model::Sex>, identity: Option<Seq<char>>) -> Seq<
    char,
> {
    (match sex {
        Some(s) => sex_text(s),
        None => Seq::empty(),
    }) + opt_param(";"@, identity)
}

/// The value of a property on the wire. The items of an `ORG` are separated by semicolons,
/// those of every other list by commas. Nothing is escaped.
pub open spec fn value_text(kind: PropertyKind, v: Payload) -> Seq<char> {
    match v {
        Payload::Text(t) => t,
        Payload::List(l) => if kind == PropertyKind::Org {
            join(l, ";"@)
        } else {
            join(l, ","@)
        },
        Payload::Components(c) => components_text(c),
        Payload::Version(v) => version_text(v),
        Payload::Kind(k) => kind_value_text(k),
        Payload::Gender { sex, identity_component } => gender_text(sex, identity_component),
        Payload::PidMap { pid_digit, uri } => u8_text(pid_digit) + ";"@ + uri,
        Payload::Proprietary { name, value, parameters } => value,
    }
}

/// What stands before the colon: the head and the parameters.
pub open spec fn start_text(p: PropertyView) -> Seq<char> {
    match p.value {
        Payload::Proprietary { name, value, parameters } => head_text(p.fields.group, name)
            + params_text(parameters),
        _ => head_text(p.fields.group, kind_name(p.kind)) + fields_text(p.fields),
    }
}

/// The wire text of a property, line break included.
pub open spec fn serialize(p: PropertyView) -> Seq<char> {
    start_text(p) + ":"@ + value_text(p.kind, p.value) + "\r\n"@
}

/// The wire texts of the properties `ps`, one after the other.
pub open spec fn seq_text(ps: Seq<PropertyView>) -> Seq<char>
    decreases ps.len(),
{
    if ps.len() == 0 {
        Seq::empty()
    } else {
        seq_text(ps.drop_last()) + serialize(ps.last())
    }
}

/// The wire texts of the properties in the buckets `bs`, bucket after bucket.
pub open spec fn buckets_text(bs: Seq<Seq<PropertyView>>) -> Seq<char>
    decreases bs.len(),
{
    if bs.len() == 0 {
        Seq::empty()
    } else {
        buckets_text(bs.drop_last()) + seq_text(bs.last())
    }
}

/// Appends to `out` the prefix and the value, if there is a value.
pub fn write_opt(out: &mut String, prefix: &str, v: &Option<String>)
    ensures
        final(out)@ == old(out)@ + opt_param(prefix@, opt_text(*v)),
{
    match v {
        Some(t) => {
            out.append(prefix);
            out.append(t.as_str());
            assert(out@ =~= old(out)@ + opt_param(prefix@, opt_text(*v)));
        },
        None => {
            assert(out@ =~= old(out)@ + opt_param(prefix@, opt_text(*v)));
        },
    }
}

/// Appends to `out` one `TYPE` parameter for each type tag.
pub fn write_types(out: &mut String, ts: &Option<Vec<String>>)
    ensures
        final(out)@ == old(out)@ + opt_types_text(opt_texts(*ts)),
{
    match ts {
        Some(l) => {
            let mut i: usize = 0;
            assert(texts(l@).take(0) =~= Seq::<Seq<char>>::empty());
            assert(out@ =~= old(out)@ + types_text(texts(l@).take(0)));
            while i < l.len()
                invariant
                    i <= l.len(),
                    out@ == old(out)@ + types_text(texts(l@).take(i as int)),
                decreases l.len() - i,
            {
                let ghost before = texts(l@).take(i as int);
                let ghost now = texts(l@).take(i + 1);
                proof {
                    assert(now.drop_last() =~= before);
                    assert(now.last() == l@[i as int]@);
                }
                out.append(";TYPE=");
                out.append(l[i].as_str());
                i += 1;
                assert(out@ =~= old(out)@ + types_text(now));
            }
            assert(texts(l@).take(l.len() as int) =~= texts(l@));
        },
        None => {
            assert(out@ =~= old(out)@ + opt_types_text(opt_texts(*ts)));
        },
    }
}

/// Appends to `out` the `SORT-AS` parameter, if there are sort-as names.
pub fn write_sort_as(out: &mut String, s: &Option<Vec<String>>)
    ensures
        final(out)@ == old(out)@ + sort_as_text(opt_texts(*s)),
{
    match s {
        Some(l) => {
            out.append(";SORT-AS=\"");
            push_joined(out, l, ",");
            out.append("\"");
            assert(out@ =~= old(out)@ + sort_as_text(opt_texts(*s)));
        },
        None => {
            assert(out@ =~= old(out)@ + sort_as_text(opt_texts(*s)));
        },
    }
}

/// The fields that `write_start` is given, as a mathematical value.
pub open spec fn fields_of(
    group: Option<String>,
    altid: Option<String>,
    language: Option<String>,
    value_data_type: Option<ValueDataType>,
    pref: Option<u8>,
    pid: Option<Pid>,
    type_param: Option<Vec<String>>,
    mediatype: Option<String>,
    calscale: Option<String>,
    sort_as: Option<Vec<String>>,
    geo: Option<String>,
    tz: Option<String>,
    label: Option<String>,
) -> Fields {
    Fields {
        group: opt_text(group),
        altid: opt_text(altid),
        language: opt_text(language),
        value_data_type: opt_value_type(value_data_type),
        pref: pref,
        pid: pid,
        type_param: opt_texts(type_param),
        mediatype: opt_text(mediatype),
        calscale: opt_text(calscale),
        sort_as: opt_texts(sort_as),
        geo: opt_text(geo),
        tz: opt_text(tz),
        label: opt_text(label),
    }
}

/// Appending in two steps is appending the two parts joined.
pub proof fn lemma_append_twice(a: Seq<char>, b: Seq<char>, c: Seq<char>)
    ensures
        (a + b) + c == a + (b + c),
{
    assert((a + b) + c =~= a + (b + c));
}

fn write_leading(
    out: &mut String,
    altid: &Option<String>,
    language: &Option<String>,
    value_data_type: &Option<ValueDataType>,
    pref: &Option<u8>,
    pid: &Option<Pid>,
    type_param: &Option<Vec<String>>,
    Ghost(f): Ghost<Fields>,
)
    requires
        f.altid == opt_text(*altid),
        f.language == opt_text(*language),
        f.value_data_type == opt_value_type(*value_data_type),
        f.pref == *pref,
        f.pid == *pid,
        f.type_param == opt_texts(*type_param),
    ensures
        final(out)@ == old(out)@ + leading_fields_text(f),
{
    let ghost s0 = out@;
    let ghost part1 = opt_param(";ALTID="@, f.altid);
    let ghost part2 = opt_param(";LANGUAGE="@, f.language);
    let ghost part3 = opt_param(";VALUE="@, opt_value_type_text(f.value_data_type));
    let ghost part4 = opt_param(";PREF="@, opt_u8_text(f.pref));
    let ghost part5 = opt_param(";PID="@, opt_pid_text(f.pid));
    let ghost part6 = opt_types_text(f.type_param);
    write_opt(out, ";ALTID=", altid);
    write_opt(out, ";LANGUAGE=", language);
    proof {
        lemma_append_twice(s0, part1, part2);
    }
    let ghost s2 = out@;
    match value_data_type {
        Some(t) => {
            out.append(";VALUE=");
            out.append(t.as_str());
            proof {
                lemma_append_twice(s2, ";VALUE="@, value_type_text(t@));
            }
        },
        None => {
            assert(s2 + part3 =~= s2);
        },
    }
    proof {
        lemma_append_twice(s0, part1 + part2, part3);
    }
    let ghost s3 = out@;
    match pref {
        Some(p) => {
            out.append(";PREF=");
            push_u8(out, *p);
            proof {
                lemma_append_twice(s3, ";PREF="@, u8_text(*p));
            }
        },
        None => {
            assert(s3 + part4 =~= s3);
        },
    }
    proof {
        lemma_append_twice(s0, part1 + part2 + part3, part4);
    }
    let ghost s4 = out@;
    match pid {
        Some(p) => {
            out.append(";PID=");
            p.write_to(out);
            proof {
                lemma_append_twice(s4, ";PID="@, pid_text(*p));
            }
        },
        None => {
            assert(s4 + part5 =~= s4);
        },
    }
    proof {
        lemma_append_twice(s0, part1 + part2 + part3 + part4, part5);
    }
    write_types(out, type_param);
    proof {
        lemma_append_twice(s0, part1 + part2 + part3 + part4 + part5, part6);
    }
}

fn write_trailing(
    out: &mut String,
    mediatype: &Option<String>,
    calscale: &Option<String>,
    sort_as: &Option<Vec<String>>,
    geo: &Option<String>,
    tz: &Option<String>,
    Ghost(f): Ghost<Fields>,
)
    requires
        f.mediatype == opt_text(*mediatype),
        f.calscale == opt_text(*calscale),
        f.sort_as == opt_texts(*sort_as),
        f.geo == opt_text(*geo),
        f.tz == opt_text(*tz),
    ensures
        final(out)@ == old(out)@ + trailing_fields_text(f),
{
    let ghost s0 = out@;
    let ghost part1 = opt_param(";MEDIATYPE="@, f.mediatype);
    let ghost part2 = opt_param(";CALSCALE="@, f.calscale);
    let ghost part3 = sort_as_text(f.sort_as);
    let ghost part4 = opt_param(";GEO="@, f.geo);
    let ghost part5 = opt_param(";TZ="@, f.tz);
    write_opt(out, ";MEDIATYPE=", mediatype);
    write_opt(out, ";CALSCALE=", calscale);
    proof {
        lemma_append_twice(s0, part1, part2);
    }
    write_sort_as(out, sort_as);
    proof {
        lemma_append_twice(s0, part1 + part2, part3);
    }
    write_opt(out, ";GEO=", geo);
    proof {
        lemma_append_twice(s0, part1 + part2 + part3, part4);
    }
    write_opt(out, ";TZ=", tz);
    proof {
        lemma_append_twice(s0, part1 + part2 + part3 + part4, part5);
    }
}

/// Appends to `out` the head of a standard property and its parameters.
pub fn write_start(
    out: &mut String,
    group: &Option<String>,
    name: &str,
    altid: &Option<String>,
    language: &Option<String>,
    value_data_type: &Option<ValueDataType>,
    pref: &Option<u8>,
    pid: &Option<Pid>,
    type_param: &Option<Vec<String>>,
    mediatype: &Option<String>,
    calscale: &Option<String>,
    sort_as: &Option<Vec<String>>,
    geo: &Option<String>,
    tz: &Option<String>,
)
    ensures
        final(out)@ == old(out)@ + (head_text(opt_text(*group), name@) + fields_text(
            fields_of(
                *group,
                *altid,
                *language,
                *value_data_type,
                *pref,
                *pid,
                *type_param,
                *mediatype,
                *calscale,
                *sort_as,
                *geo,
                *tz,
                None,
            ),
        )),
{
    let ghost f = fields_of(
        *group,
        *altid,
        *language,
        *value_data_type,
        *pref,
        *pid,
        *type_param,
        *mediatype,
        *calscale,
        *sort_as,
        *geo,
        *tz,
        None,
    );
    let ghost h = head_text(opt_text(*group), name@);
    match group {
        Some(g) => {
            out.append(g.as_str());
            out.append(".");
            out.append(name);
            proof {
                lemma_append_twice(old(out)@, g@, "."@);
                lemma_append_twice(old(out)@, g@ + "."@, name@);
            }
        },
        None => {
            out.append(name);
        },
    }
    assert(out@ == old(out)@ + h);
    write_leading(out, altid, language, value_data_type, pref, pid, type_param, Ghost(f));
    write_trailing(out, mediatype, calscale, sort_as, geo, tz, Ghost(f));
    proof {
        lemma_append_twice(old(out)@ + h, leading_fields_text(f), trailing_fields_text(f));
        lemma_append_twice(old(out)@, h, fields_text(f));
    }
}

/// Appends to `out` the colon, the value and the line break, after the text `start` that
/// was appended to `base` before.
pub(crate) fn finish_text(
    out: &mut String,
    value: &str,
    Ghost(base): Ghost<Seq<char>>,
    Ghost(start): Ghost<Seq<char>>,
)
    requires
        old(out)@ == base + start,
    ensures
        final(out)@ == base + (start + ":"@ + value@ + "\r\n"@),
{
    out.append(":");
    out.append(value);
    out.append("\r\n");
    proof {
        lemma_append_twice(base, start, ":"@);
        lemma_append_twice(base, start + ":"@, value@);
        lemma_append_twice(base, start + ":"@ + value@, "\r\n"@);
    }
}

/// Appends to `out` the parameters of an extension property.
pub fn write_params(out: &mut String, ps: &Vec<Parameter>)
    ensures
        final(out)@ == old(out)@ + params_text(parameter_views(ps@)),
{
    let mut i: usize = 0;
    assert(parameter_views(ps@).take(0) =~= Seq::<ParameterView>::empty());
    assert(out@ =~= old(out)@ + params_text(parameter_views(ps@).take(0)));
    while i < ps.len()
        invariant
            i <= ps.len(),
            out@ == old(out)@ + params_text(parameter_views(ps@).take(i as int)),
        decreases ps.len() - i,
    {
        let ghost before = parameter_views(ps@).take(i as int);
        let ghost now = parameter_views(ps@).take(i + 1);
        proof {
            assert(now.drop_last() =~= before);
            assert(now.last() == ps@[i as int]@);
        }
        out.append(";");
        ps[i].write_to(out);
        i += 1;
        assert(out@ =~= old(out)@ + params_text(now));
    }
    assert(parameter_views(ps@).take(ps.len() as int) =~= parameter_views(ps@));
}

/// Adding a position to a structured value adds a semicolon and the position's items.
pub proof fn lemma_components_push(c: Seq<Seq<Seq<char>>>, x: Seq<Seq<char>>)
    ensures
        components_text(c.push(x)) == if c.len() == 0 {
            join(x, ","@)
        } else {
            components_text(c) + ";"@ + join(x, ","@)
        },
{
    assert(c.push(x).drop_last() =~= c);
    assert(c.push(x).last() == x);
}

} // verus!
