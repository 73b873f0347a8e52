//! Decoding undoes encoding: what is written is read back as it was, for the values that
//! the wire text can carry without loss.

use crate::errors::{ErrorView, UrlParseReason};
use crate::model::{
    kind_value_of, kind_value_text, sex_of, sex_text, version_text, KindValueView, Sex,
    VersionValue,
};
use crate::parameter::{
    is_extension, parameter_of, parameter_text, pid_of, pid_text, u8_of, value_type_of,
    value_type_text, ParameterView, Pid, ValueTypeView,
};
use crate::model::PropertyKind;
use crate::model::{no_fields, Fields, Payload, PropertyView};
use crate::property::{
    apply_param, component, components, declared, decode_line, decode_parts, decode_standard,
    demux, field_set, is_text_kind, is_uri_kind, kept_params, keyword, line_parameters, opt_alt_id,
    opt_cal_scale, opt_geo, opt_language, opt_media_type, opt_pid, opt_pref, opt_time_zone,
    opt_value, payload_of, push_opt, unknown_field, version_of, with_group, Demuxed,
};
use crate::uri::parsed_url;
use crate::grammar::{
    decode_segments, last_dot, match_start, matches_at, parameters_of, raw_split,
    raw_split_from, tokenize_spec, trim, trim_end, trim_start, Tokens,
};
use crate::text::{lemma_next_of_is, next_of, next_unescaped};
use crate::wire::{
    components_text, fields_text, head_text, kind_name, leading_fields_text, lemma_append_twice,
    opt_param, opt_pid_text, opt_types_text, opt_u8_text, opt_value_type_text, params_text,
    serialize, sort_as_text, start_text, types_text, value_text,
};
use crate::text::{
    decimal_value, digit_char, digits_of, escaped_split_from, escaped_split_spec, is_digit,
    fold_case, is_u8_text, join, lower_char, lower_text, non_empty, split, split_from, u8_text,
};
use vstd::prelude::*;
use vstd::utf8::is_ascii_chars;

verus! {

/// Whether `c` does not occur in `s`.
pub open spec fn free_of(s: Seq<char>, c: char) -> bool {
    forall|i: int| 0 <= i < s.len() ==> #[trigger] s[i] != c
}

/// Where no separator lies at or after `i`, one piece is left.
pub proof fn lemma_split_from_plain(s: Seq<char>, sep: char, i: int, start: int)
    requires
        0 <= start <= i <= s.len(),
        forall|j: int| i <= j < s.len() ==> #[trigger] s[j] != sep,
    ensures
        split_from(s, sep, i, start) == seq![s.subrange(start, s.len() as int)],
    decreases s.len() - i,
{
    if i < s.len() {
        lemma_split_from_plain(s, sep, i + 1, start);
    }
}

/// A text without the separator is its own single piece.
pub proof fn lemma_split_plain(s: Seq<char>, sep: char)
    requires
        free_of(s, sep),
    ensures
        split(s, sep) == seq![s],
{
    lemma_split_from_plain(s, sep, 0, 0);
    assert(s.subrange(0, s.len() as int) =~= s);
}

proof fn lemma_split_from_push(x: Seq<char>, y: Seq<char>, sep: char, i: int, start: int)
    requires
        0 <= start <= i <= x.len(),
        free_of(y, sep),
    ensures
        split_from(x + seq![sep] + y, sep, i, start) == split_from(x, sep, i, start).push(y),
    decreases x.len() - i,
{
    let z = x + seq![sep] + y;
    if i >= x.len() {
        assert(z[i] == sep);
        assert forall|j: int| i + 1 <= j < z.len() implies #[trigger] z[j] != sep by {
            assert(z[j] == y[j - x.len() - 1]);
        }
        lemma_split_from_plain(z, sep, i + 1, i + 1);
        assert(z.subrange(i + 1, z.len() as int) =~= y);
        assert(z.subrange(start, i) =~= x.subrange(start, x.len() as int));
        assert(seq![z.subrange(start, i)] + seq![y] =~= seq![
            x.subrange(start, x.len() as int),
        ].push(y));
    } else {
        assert(z[i] == x[i]);
        if x[i] == sep {
            lemma_split_from_push(x, y, sep, i + 1, i + 1);
            assert(z.subrange(start, i) =~= x.subrange(start, i));
            assert(seq![x.subrange(start, i)] + split_from(x, sep, i + 1, i + 1).push(y) =~= (seq![
                x.subrange(start, i),
            ] + split_from(x, sep, i + 1, i + 1)).push(y));
        } else {
            lemma_split_from_push(x, y, sep, i + 1, start);
        }
    }
}

/// A separator and a text without one add one piece.
pub proof fn lemma_split_push(x: Seq<char>, y: Seq<char>, sep: char)
    requires
        free_of(y, sep),
    ensures
        split(x + seq![sep] + y, sep) == split(x, sep).push(y),
{
    lemma_split_from_push(x, y, sep, 0, 0);
}

/// Whether every item is free of `c`.
pub open spec fn all_free_of(parts: Seq<Seq<char>>, c: char) -> bool {
    forall|i: int| 0 <= i < parts.len() ==> free_of(#[trigger] parts[i], c)
}

/// Splitting undoes joining: items without the separator, joined by it, are split into the
/// same items.
pub proof fn law_split_join(parts: Seq<Seq<char>>, sep: char)
    requires
        parts.len() >= 1,
        all_free_of(parts, sep),
    ensures
        split(join(parts, seq![sep]), sep) == parts,
    decreases parts.len(),
{
    if parts.len() == 1 {
        lemma_split_plain(parts[0], sep);
        assert(seq![parts[0]] =~= parts);
    } else {
        let init = parts.drop_last();
        assert(all_free_of(init, sep)) by {
            assert forall|i: int| 0 <= i < init.len() implies free_of(#[trigger] init[i], sep) by {
                assert(init[i] == parts[i]);
            }
        }
        law_split_join(init, sep);
        lemma_split_push(join(init, seq![sep]), parts.last(), sep);
        assert(init.push(parts.last()) =~= parts);
    }
}

/// The digit characters are digits, and each spells its own value.
pub proof fn lemma_digit(d: int)
    requires
        0 <= d <= 9,
    ensures
        is_digit(digit_char(d)),
        digit_char(d) != '+',
        digit_char(d) != '.',
        (digit_char(d) as u8) - 48 == d,
{
}

/// The decimal text of a number is read back as the number.
pub proof fn law_u8_text(n: u8)
    ensures
        is_u8_text(u8_text(n)),
        u8_of(u8_text(n)) == n,
        free_of(u8_text(n), '.'),
        u8_text(n).len() >= 1,
{
    let s = u8_text(n);
    lemma_digit(n as int % 10);
    lemma_digit((n as int / 10) % 10);
    lemma_digit(n as int / 100);
    assert(digits_of(s) == s);
    reveal_with_fuel(decimal_value, 4);
    if n < 10 {
        assert(s.drop_last() =~= Seq::<char>::empty());
    } else if n < 100 {
        assert(s.drop_last() =~= seq![digit_char(n as int / 10)]);
        assert(s.drop_last().drop_last() =~= Seq::<char>::empty());
    } else {
        assert(s.drop_last() =~= seq![digit_char(n as int / 100), digit_char((n as int / 10) % 10)]);
        assert(s.drop_last().drop_last() =~= seq![digit_char(n as int / 100)]);
        assert(s.drop_last().drop_last().drop_last() =~= Seq::<char>::empty());
    }
}

/// The text of a PID is read back as the PID.
pub proof fn law_pid_text(p: Pid)
    ensures
        pid_of(pid_text(p)) == Ok::<Pid, ErrorView>(p),
{
    law_u8_text(p.first_digit);
    match p.second_digit {
        Some(d) => {
            law_u8_text(d);
            lemma_split_plain(u8_text(p.first_digit), '.');
            lemma_split_push(u8_text(p.first_digit), u8_text(d), '.');
            assert(seq![u8_text(p.first_digit)].push(u8_text(d)) =~= seq![
                u8_text(p.first_digit),
                u8_text(d),
            ]);
        },
        None => {
            lemma_split_plain(u8_text(p.first_digit), '.');
        },
    }
}

/// Whether `s` can stand as a name on the wire and be found again: it has a character;
/// every dot, semicolon and colon in it is escaped, and it does not end in the middle of an
/// escape; it neither begins nor ends with a NUL.
pub open spec fn plain_name(s: Seq<char>) -> bool {
    s.len() >= 1 && sealed_from(s, ';', ':', 0) && sealed_from(s, '.', '.', 0) && s[0] != '\0'
        && s.last() != '\0'
}

/// A name without dot, semicolon, colon, backslash and NUL is plain.
pub proof fn lemma_simple_name(s: Seq<char>)
    requires
        s.len() >= 1,
        free_of(s, '.'),
        free_of(s, ';'),
        free_of(s, ':'),
        free_of(s, '\\'),
        free_of(s, '\0'),
    ensures
        plain_name(s),
{
    lemma_bare_sealed(s, ';', ':', 0);
    lemma_bare_sealed(s, '.', '.', 0);
}

/// Every standard name is written in capitals and found again by its lower-case form; no
/// standard name holds a dot, a semicolon, a colon or a NUL, and each has a character.
pub proof fn lemma_keyword(kind: PropertyKind)
    requires
        kind != PropertyKind::Proprietary,
    ensures
        keyword(fold_case(kind_name(kind))) == Some(kind),
        plain_name(kind_name(kind)),
{
    lemma_names_lower();
    lemma_names_distinct();
    lemma_names_plain();
}

/// The lower-case form of each standard name.
pub open spec fn lower_name(kind: PropertyKind) -> Seq<char> {
    match kind {
        PropertyKind::Begin => "begin"@,
        PropertyKind::End => "end"@,
        PropertyKind::Version => "version"@,
        PropertyKind::Source => "source"@,
        PropertyKind::Kind => "kind"@,
        PropertyKind::FN => "fn"@,
        PropertyKind::N => "n"@,
        PropertyKind::NickName => "nickname"@,
        PropertyKind::Photo => "photo"@,
        PropertyKind::BDay => "bday"@,
        PropertyKind::Anniversary => "anniversary"@,
        PropertyKind::Gender => "gender"@,
        PropertyKind::Adr => "adr"@,
        PropertyKind::Tel => "tel"@,
        PropertyKind::Email => "email"@,
        PropertyKind::Impp => "impp"@,
        PropertyKind::Lang => "lang"@,
        PropertyKind::Tz => "tz"@,
        PropertyKind::Geo => "geo"@,
        PropertyKind::Title => "title"@,
        PropertyKind::Role => "role"@,
        PropertyKind::Logo => "logo"@,
        PropertyKind::Org => "org"@,
        PropertyKind::Member => "member"@,
        PropertyKind::Related => "related"@,
        PropertyKind::Categories => "categories"@,
        PropertyKind::Note => "note"@,
        PropertyKind::ProdId => "prodid"@,
        PropertyKind::Rev => "rev"@,
        PropertyKind::Sound => "sound"@,
        PropertyKind::Uid => "uid"@,
        PropertyKind::ClientPidMap => "clientpidmap"@,
        PropertyKind::Url => "url"@,
        PropertyKind::Key => "key"@,
        PropertyKind::FbUrl => "fburl"@,
        PropertyKind::CalAdUri => "caladuri"@,
        PropertyKind::CalUri => "caluri"@,
        PropertyKind::Xml => "xml"@,
        PropertyKind::Proprietary => Seq::empty(),
    }
}

proof fn lemma_names_lower()
    ensures
        forall|kind: PropertyKind| #[trigger]
            fold_case(kind_name(kind)) == lower_name(kind),
{
    assert forall|kind: PropertyKind| #[trigger]
        fold_case(kind_name(kind)) == lower_name(kind) by {
        lemma_name_lower(kind);
    }
}

proof fn lemma_name_lower(kind: PropertyKind)
    ensures
        fold_case(kind_name(kind)) == lower_name(kind),
{
    match kind {
        PropertyKind::Begin => {
            reveal_strlit("BEGIN");
            reveal_strlit("begin");
            assert(lower_text("BEGIN"@) =~= "begin"@);
            assert(is_ascii_chars("BEGIN"@));
        },
        PropertyKind::End => {
            reveal_strlit("END");
            reveal_strlit("end");
            assert(lower_text("END"@) =~= "end"@);
            assert(is_ascii_chars("END"@));
        },
        PropertyKind::Version => {
            reveal_strlit("VERSION");
            reveal_strlit("version");
            assert(lower_text("VERSION"@) =~= "version"@);
            assert(is_ascii_chars("VERSION"@));
        },
        PropertyKind::Source => {
            reveal_strlit("SOURCE");
            reveal_strlit("source");
            assert(lower_text("SOURCE"@) =~= "source"@);
            assert(is_ascii_chars("SOURCE"@));
        },
        PropertyKind::Kind => {
            reveal_strlit("KIND");
            reveal_strlit("kind");
            assert(lower_text("KIND"@) =~= "kind"@);
            assert(is_ascii_chars("KIND"@));
        },
        PropertyKind::FN => {
            reveal_strlit("FN");
            reveal_strlit("fn");
            assert(lower_text("FN"@) =~= "fn"@);
            assert(is_ascii_chars("FN"@));
        },
        PropertyKind::N => {
            reveal_strlit("N");
            reveal_strlit("n");
            assert(lower_text("N"@) =~= "n"@);
            assert(is_ascii_chars("N"@));
        },
        PropertyKind::NickName => {
            reveal_strlit("NICKNAME");
            reveal_strlit("nickname");
            assert(lower_text("NICKNAME"@) =~= "nickname"@);
            assert(is_ascii_chars("NICKNAME"@));
        },
        PropertyKind::Photo => {
            reveal_strlit("PHOTO");
            reveal_strlit("photo");
            assert(lower_text("PHOTO"@) =~= "photo"@);
            assert(is_ascii_chars("PHOTO"@));
        },
        PropertyKind::BDay => {
            reveal_strlit("BDAY");
            reveal_strlit("bday");
            assert(lower_text("BDAY"@) =~= "bday"@);
            assert(is_ascii_chars("BDAY"@));
        },
        PropertyKind::Anniversary => {
            reveal_strlit("ANNIVERSARY");
            reveal_strlit("anniversary");
            assert(lower_text("ANNIVERSARY"@) =~= "anniversary"@);
            assert(is_ascii_chars("ANNIVERSARY"@));
        },
        PropertyKind::Gender => {
            reveal_strlit("GENDER");
            reveal_strlit("gender");
            assert(lower_text("GENDER"@) =~= "gender"@);
            assert(is_ascii_chars("GENDER"@));
        },
        PropertyKind::Adr => {
            reveal_strlit("ADR");
            reveal_strlit("adr");
            assert(lower_text("ADR"@) =~= "adr"@);
            assert(is_ascii_chars("ADR"@));
        },
        PropertyKind::Tel => {
            reveal_strlit("TEL");
            reveal_strlit("tel");
            assert(lower_text("TEL"@) =~= "tel"@);
            assert(is_ascii_chars("TEL"@));
        },
        PropertyKind::Email => {
            reveal_strlit("EMAIL");
            reveal_strlit("email");
            assert(lower_text("EMAIL"@) =~= "email"@);
            assert(is_ascii_chars("EMAIL"@));
        },
        PropertyKind::Impp => {
            reveal_strlit("IMPP");
            reveal_strlit("impp");
            assert(lower_text("IMPP"@) =~= "impp"@);
            assert(is_ascii_chars("IMPP"@));
        },
        PropertyKind::Lang => {
            reveal_strlit("LANG");
            reveal_strlit("lang");
            assert(lower_text("LANG"@) =~= "lang"@);
            assert(is_ascii_chars("LANG"@));
        },
        PropertyKind::Tz => {
            reveal_strlit("TZ");
            reveal_strlit("tz");
            assert(lower_text("TZ"@) =~= "tz"@);
            assert(is_ascii_chars("TZ"@));
        },
        PropertyKind::Geo => {
            reveal_strlit("GEO");
            reveal_strlit("geo");
            assert(lower_text("GEO"@) =~= "geo"@);
            assert(is_ascii_chars("GEO"@));
        },
        PropertyKind::Title => {
            reveal_strlit("TITLE");
            reveal_strlit("title");
            assert(lower_text("TITLE"@) =~= "title"@);
            assert(is_ascii_chars("TITLE"@));
        },
        PropertyKind::Role => {
            reveal_strlit("ROLE");
            reveal_strlit("role");
            assert(lower_text("ROLE"@) =~= "role"@);
            assert(is_ascii_chars("ROLE"@));
        },
        PropertyKind::Logo => {
            reveal_strlit("LOGO");
            reveal_strlit("logo");
            assert(lower_text("LOGO"@) =~= "logo"@);
            assert(is_ascii_chars("LOGO"@));
        },
        PropertyKind::Org => {
            reveal_strlit("ORG");
            reveal_strlit("org");
            assert(lower_text("ORG"@) =~= "org"@);
            assert(is_ascii_chars("ORG"@));
        },
        PropertyKind::Member => {
            reveal_strlit("MEMBER");
            reveal_strlit("member");
            assert(lower_text("MEMBER"@) =~= "member"@);
            assert(is_ascii_chars("MEMBER"@));
        },
        PropertyKind::Related => {
            reveal_strlit("RELATED");
            reveal_strlit("related");
            assert(lower_text("RELATED"@) =~= "related"@);
            assert(is_ascii_chars("RELATED"@));
        },
        PropertyKind::Categories => {
            reveal_strlit("CATEGORIES");
            reveal_strlit("categories");
            assert(lower_text("CATEGORIES"@) =~= "categories"@);
            assert(is_ascii_chars("CATEGORIES"@));
        },
        PropertyKind::Note => {
            reveal_strlit("NOTE");
            reveal_strlit("note");
            assert(lower_text("NOTE"@) =~= "note"@);
            assert(is_ascii_chars("NOTE"@));
        },
        PropertyKind::ProdId => {
            reveal_strlit("PRODID");
            reveal_strlit("prodid");
            assert(lower_text("PRODID"@) =~= "prodid"@);
            assert(is_ascii_chars("PRODID"@));
        },
        PropertyKind::Rev => {
            reveal_strlit("REV");
            reveal_strlit("rev");
            assert(lower_text("REV"@) =~= "rev"@);
            assert(is_ascii_chars("REV"@));
        },
        PropertyKind::Sound => {
            reveal_strlit("SOUND");
            reveal_strlit("sound");
            assert(lower_text("SOUND"@) =~= "sound"@);
            assert(is_ascii_chars("SOUND"@));
        },
        PropertyKind::Uid => {
            reveal_strlit("UID");
            reveal_strlit("uid");
            assert(lower_text("UID"@) =~= "uid"@);
            assert(is_ascii_chars("UID"@));
        },
        PropertyKind::ClientPidMap => {
            reveal_strlit("CLIENTPIDMAP");
            reveal_strlit("clientpidmap");
            assert(lower_text("CLIENTPIDMAP"@) =~= "clientpidmap"@);
            assert(is_ascii_chars("CLIENTPIDMAP"@));
        },
        PropertyKind::Url => {
            reveal_strlit("URL");
            reveal_strlit("url");
            assert(lower_text("URL"@) =~= "url"@);
            assert(is_ascii_chars("URL"@));
        },
        PropertyKind::Key => {
            reveal_strlit("KEY");
            reveal_strlit("key");
            assert(lower_text("KEY"@) =~= "key"@);
            assert(is_ascii_chars("KEY"@));
        },
        PropertyKind::FbUrl => {
            reveal_strlit("FBURL");
            reveal_strlit("fburl");
            assert(lower_text("FBURL"@) =~= "fburl"@);
            assert(is_ascii_chars("FBURL"@));
        },
        PropertyKind::CalAdUri => {
            reveal_strlit("CALADURI");
            reveal_strlit("caladuri");
            assert(lower_text("CALADURI"@) =~= "caladuri"@);
            assert(is_ascii_chars("CALADURI"@));
        },
        PropertyKind::CalUri => {
            reveal_strlit("CALURI");
            reveal_strlit("caluri");
            assert(lower_text("CALURI"@) =~= "caluri"@);
            assert(is_ascii_chars("CALURI"@));
        },
        PropertyKind::Xml => {
            reveal_strlit("XML");
            reveal_strlit("xml");
            assert(lower_text("XML"@) =~= "xml"@);
            assert(is_ascii_chars("XML"@));
        },
        PropertyKind::Proprietary => {
            assert(lower_text(Seq::<char>::empty()) =~= Seq::<char>::empty());
            assert(is_ascii_chars(Seq::<char>::empty()));
        },
    }
}

proof fn lemma_names_distinct()
    ensures
        forall|kind: PropertyKind|
            kind != PropertyKind::Proprietary ==> #[trigger] keyword(lower_name(kind)) == Some(
                kind,
            ),
{
    assert forall|kind: PropertyKind| kind != PropertyKind::Proprietary implies #[trigger] keyword(
        lower_name(kind),
    ) == Some(kind) by {
        lemma_name_distinct(kind);
    }
}

proof fn lemma_name_distinct(kind: PropertyKind)
    requires
        kind != PropertyKind::Proprietary,
    ensures
        keyword(lower_name(kind)) == Some(kind),
{
    match kind {
        PropertyKind::Begin => {
            reveal_strlit("begin");
        },
        PropertyKind::End => {
            reveal_strlit("end");
            reveal_strlit("begin");
            assert("end"@.len() != "begin"@.len());
        },
        PropertyKind::Version => {
            reveal_strlit("version");
            reveal_strlit("begin");
            assert("version"@.len() != "begin"@.len());
            reveal_strlit("end");
            assert("version"@.len() != "end"@.len());
        },
        PropertyKind::Source => {
            reveal_strlit("source");
            reveal_strlit("begin");
            assert("source"@.len() != "begin"@.len());
            reveal_strlit("end");
            assert("source"@.len() != "end"@.len());
            reveal_strlit("version");
            assert("source"@.len() != "version"@.len());
        },
        PropertyKind::Kind => {
            reveal_strlit("kind");
            reveal_strlit("begin");
            assert("kind"@.len() != "begin"@.len());
            reveal_strlit("end");
            assert("kind"@.len() != "end"@.len());
            reveal_strlit("version");
            assert("kind"@.len() != "version"@.len());
            reveal_strlit("source");
            assert("kind"@.len() != "source"@.len());
        },
        PropertyKind::FN => {
            reveal_strlit("fn");
            reveal_strlit("begin");
            assert("fn"@.len() != "begin"@.len());
            reveal_strlit("end");
            assert("fn"@.len() != "end"@.len());
            reveal_strlit("version");
            assert("fn"@.len() != "version"@.len());
            reveal_strlit("source");
            assert("fn"@.len() != "source"@.len());
            reveal_strlit("kind");
            assert("fn"@.len() != "kind"@.len());
        },
        PropertyKind::N => {
            reveal_strlit("n");
            reveal_strlit("begin");
            assert("n"@.len() != "begin"@.len());
            reveal_strlit("end");
            assert("n"@.len() != "end"@.len());
            reveal_strlit("version");
            assert("n"@.len() != "version"@.len());
            reveal_strlit("source");
            assert("n"@.len() != "source"@.len());
            reveal_strlit("kind");
            assert("n"@.len() != "kind"@.len());
            reveal_strlit("fn");
            assert("n"@.len() != "fn"@.len());
        },
        PropertyKind::NickName => {
            reveal_strlit("nickname");
            reveal_strlit("begin");
            assert("nickname"@.len() != "begin"@.len());
            reveal_strlit("end");
            assert("nickname"@.len() != "end"@.len());
            reveal_strlit("version");
            assert("nickname"@.len() != "version"@.len());
            reveal_strlit("source");
            assert("nickname"@.len() != "source"@.len());
            reveal_strlit("kind");
            assert("nickname"@.len() != "kind"@.len());
            reveal_strlit("fn");
            assert("nickname"@.len() != "fn"@.len());
            reveal_strlit("n");
            assert("nickname"@.len() != "n"@.len());
        },
        PropertyKind::Photo => {
            reveal_strlit("photo");
            reveal_strlit("begin");
            assert("photo"@[0] != "begin"@[0]);
            reveal_strlit("end");
            assert("photo"@.len() != "end"@.len());
            reveal_strlit("version");
            assert("photo"@.len() != "version"@.len());
            reveal_strlit("source");
            assert("photo"@.len() != "source"@.len());
            reveal_strlit("kind");
            assert("photo"@.len() != "kind"@.len());
            reveal_strlit("fn");
            assert("photo"@.len() != "fn"@.len());
            reveal_strlit("n");
            assert("photo"@.len() != "n"@.len());
            reveal_strlit("nickname");
            assert("photo"@.len() != "nickname"@.len());
        },
        PropertyKind::BDay => {
            reveal_strlit("bday");
            reveal_strlit("begin");
            assert("bday"@.len() != "begin"@.len());
            reveal_strlit("end");
            assert("bday"@.len() != "end"@.len());
            reveal_strlit("version");
            assert("bday"@.len() != "version"@.len());
            reveal_strlit("source");
            assert("bday"@.len() != "source"@.len());
            reveal_strlit("kind");
            assert("bday"@[0] != "kind"@[0]);
            reveal_strlit("fn");
            assert("bday"@.len() != "fn"@.len());
            reveal_strlit("n");
            assert("bday"@.len() != "n"@.len());
            reveal_strlit("nickname");
            assert("bday"@.len() != "nickname"@.len());
            reveal_strlit("photo");
            assert("bday"@.len() != "photo"@.len());
        },
        PropertyKind::Anniversary => {
            reveal_strlit("anniversary");
            reveal_strlit("begin");
            assert("anniversary"@.len() != "begin"@.len());
            reveal_strlit("end");
            assert("anniversary"@.len() != "end"@.len());
            reveal_strlit("version");
            assert("anniversary"@.len() != "version"@.len());
            reveal_strlit("source");
            assert("anniversary"@.len() != "source"@.len());
            reveal_strlit("kind");
            assert("anniversary"@.len() != "kind"@.len());
            reveal_strlit("fn");
            assert("anniversary"@.len() != "fn"@.len());
            reveal_strlit("n");
            assert("anniversary"@.len() != "n"@.len());
            reveal_strlit("nickname");
            assert("anniversary"@.len() != "nickname"@.len());
            reveal_strlit("photo");
            assert("anniversary"@.len() != "photo"@.len());
            reveal_strlit("bday");
            assert("anniversary"@.len() != "bday"@.len());
        },
        PropertyKind::Gender => {
            reveal_strlit("gender");
            reveal_strlit("begin");
            assert("gender"@.len() != "begin"@.len());
            reveal_strlit("end");
            assert("gender"@.len() != "end"@.len());
            reveal_strlit("version");
            assert("gender"@.len() != "version"@.len());
            reveal_strlit("source");
            assert("gender"@[0] != "source"@[0]);
            reveal_strlit("kind");
            assert("gender"@.len() != "kind"@.len());
            reveal_strlit("fn");
            assert("gender"@.len() != "fn"@.len());
            reveal_strlit("n");
            assert("gender"@.len() != "n"@.len());
            reveal_strlit("nickname");
            assert("gender"@.len() != "nickname"@.len());
            reveal_strlit("photo");
            assert("gender"@.len() != "photo"@.len());
            reveal_strlit("bday");
            assert("gender"@.len() != "bday"@.len());
            reveal_strlit("anniversary");
            assert("gender"@.len() != "anniversary"@.len());
        },
        PropertyKind::Adr => {
            reveal_strlit("adr");
            reveal_strlit("begin");
            assert("adr"@.len() != "begin"@.len());
            reveal_strlit("end");
            assert("adr"@[0] != "end"@[0]);
            reveal_strlit("version");
            assert("adr"@.len() != "version"@.len());
            reveal_strlit("source");
            assert("adr"@.len() != "source"@.len());
            reveal_strlit("kind");
            assert("adr"@.len() != "kind"@.len());
            reveal_strlit("fn");
            assert("adr"@.len() != "fn"@.len());
            reveal_strlit("n");
            assert("adr"@.len() != "n"@.len());
            reveal_strlit("nickname");
            assert("adr"@.len() != "nickname"@.len());
            reveal_strlit("photo");
            assert("adr"@.len() != "photo"@.len());
            reveal_strlit("bday");
            assert("adr"@.len() != "bday"@.len());
            reveal_strlit("anniversary");
            assert("adr"@.len() != "anniversary"@.len());
            reveal_strlit("gender");
            assert("adr"@.len() != "gender"@.len());
        },
        PropertyKind::Tel => {
            reveal_strlit("tel");
            reveal_strlit("begin");
            assert("tel"@.len() != "begin"@.len());
            reveal_strlit("end");
            assert("tel"@[0] != "end"@[0]);
            reveal_strlit("version");
            assert("tel"@.len() != "version"@.len());
            reveal_strlit("source");
            assert("tel"@.len() != "source"@.len());
            reveal_strlit("kind");
            assert("tel"@.len() != "kind"@.len());
            reveal_strlit("fn");
            assert("tel"@.len() != "fn"@.len());
            reveal_strlit("n");
            assert("tel"@.len() != "n"@.len());
            reveal_strlit("nickname");
            assert("tel"@.len() != "nickname"@.len());
            reveal_strlit("photo");
            assert("tel"@.len() != "photo"@.len());
            reveal_strlit("bday");
            assert("tel"@.len() != "bday"@.len());
            reveal_strlit("anniversary");
            assert("tel"@.len() != "anniversary"@.len());
            reveal_strlit("gender");
            assert("tel"@.len() != "gender"@.len());
            reveal_strlit("adr");
            assert("tel"@[0] != "adr"@[0]);
        },
        PropertyKind::Email => {
            reveal_strlit("email");
            reveal_strlit("begin");
            assert("email"@[0] != "begin"@[0]);
            reveal_strlit("end");
            assert("email"@.len() != "end"@.len());
            reveal_strlit("version");
            assert("email"@.len() != "version"@.len());
            reveal_strlit("source");
            assert("email"@.len() != "source"@.len());
            reveal_strlit("kind");
            assert("email"@.len() != "kind"@.len());
            reveal_strlit("fn");
            assert("email"@.len() != "fn"@.len());
            reveal_strlit("n");
            assert("email"@.len() != "n"@.len());
            reveal_strlit("nickname");
            assert("email"@.len() != "nickname"@.len());
            reveal_strlit("photo");
            assert("email"@[0] != "photo"@[0]);
            reveal_strlit("bday");
            assert("email"@.len() != "bday"@.len());
            reveal_strlit("anniversary");
            assert("email"@.len() != "anniversary"@.len());
            reveal_strlit("gender");
            assert("email"@.len() != "gender"@.len());
            reveal_strlit("adr");
            assert("email"@.len() != "adr"@.len());
            reveal_strlit("tel");
            assert("email"@.len() != "tel"@.len());
        },
        PropertyKind::Impp => {
            reveal_strlit("impp");
            reveal_strlit("begin");
            assert("impp"@.len() != "begin"@.len());
            reveal_strlit("end");
            assert("impp"@.len() != "end"@.len());
            reveal_strlit("version");
            assert("impp"@.len() != "version"@.len());
            reveal_strlit("source");
            assert("impp"@.len() != "source"@.len());
            reveal_strlit("kind");
            assert("impp"@[0] != "kind"@[0]);
            reveal_strlit("fn");
            assert("impp"@.len() != "fn"@.len());
            reveal_strlit("n");
            assert("impp"@.len() != "n"@.len());
            reveal_strlit("nickname");
            assert("impp"@.len() != "nickname"@.len());
            reveal_strlit("photo");
            assert("impp"@.len() != "photo"@.len());
            reveal_strlit("bday");
            assert("impp"@[0] != "bday"@[0]);
            reveal_strlit("anniversary");
            assert("impp"@.len() != "anniversary"@.len());
            reveal_strlit("gender");
            assert("impp"@.len() != "gender"@.len());
            reveal_strlit("adr");
            assert("impp"@.len() != "adr"@.len());
            reveal_strlit("tel");
            assert("impp"@.len() != "tel"@.len());
            reveal_strlit("email");
            assert("impp"@.len() != "email"@.len());
        },
        PropertyKind::Lang => {
            reveal_strlit("lang");
            reveal_strlit("begin");
            assert("lang"@.len() != "begin"@.len());
            reveal_strlit("end");
            assert("lang"@.len() != "end"@.len());
            reveal_strlit("version");
            assert("lang"@.len() != "version"@.len());
            reveal_strlit("source");
            assert("lang"@.len() != "source"@.len());
            reveal_strlit("kind");
            assert("lang"@[0] != "kind"@[0]);
            reveal_strlit("fn");
            assert("lang"@.len() != "fn"@.len());
            reveal_strlit("n");
            assert("lang"@.len() != "n"@.len());
            reveal_strlit("nickname");
            assert("lang"@.len() != "nickname"@.len());
            reveal_strlit("photo");
            assert("lang"@.len() != "photo"@.len());
            reveal_strlit("bday");
            assert("lang"@[0] != "bday"@[0]);
            reveal_strlit("anniversary");
            assert("lang"@.len() != "anniversary"@.len());
            reveal_strlit("gender");
            assert("lang"@.len() != "gender"@.len());
            reveal_strlit("adr");
            assert("lang"@.len() != "adr"@.len());
            reveal_strlit("tel");
            assert("lang"@.len() != "tel"@.len());
            reveal_strlit("email");
            assert("lang"@.len() != "email"@.len());
            reveal_strlit("impp");
            assert("lang"@[0] != "impp"@[0]);
        },
        PropertyKind::Tz => {
            reveal_strlit("tz");
            reveal_strlit("begin");
            assert("tz"@.len() != "begin"@.len());
            reveal_strlit("end");
            assert("tz"@.len() != "end"@.len());
            reveal_strlit("version");
            assert("tz"@.len() != "version"@.len());
            reveal_strlit("source");
            assert("tz"@.len() != "source"@.len());
            reveal_strlit("kind");
            assert("tz"@.len() != "kind"@.len());
            reveal_strlit("fn");
            assert("tz"@[0] != "fn"@[0]);
            reveal_strlit("n");
            assert("tz"@.len() != "n"@.len());
            reveal_strlit("nickname");
            assert("tz"@.len() != "nickname"@.len());
            reveal_strlit("photo");
            assert("tz"@.len() != "photo"@.len());
            reveal_strlit("bday");
            assert("tz"@.len() != "bday"@.len());
            reveal_strlit("anniversary");
            assert("tz"@.len() != "anniversary"@.len());
            reveal_strlit("gender");
            assert("tz"@.len() != "gender"@.len());
            reveal_strlit("adr");
            assert("tz"@.len() != "adr"@.len());
            reveal_strlit("tel");
            assert("tz"@.len() != "tel"@.len());
            reveal_strlit("email");
            assert("tz"@.len() != "email"@.len());
            reveal_strlit("impp");
            assert("tz"@.len() != "impp"@.len());
            reveal_strlit("lang");
            assert("tz"@.len() != "lang"@.len());
        },
        PropertyKind::Geo => {
            reveal_strlit("geo");
            reveal_strlit("begin");
            assert("geo"@.len() != "begin"@.len());
            reveal_strlit("end");
            assert("geo"@[0] != "end"@[0]);
            reveal_strlit("version");
            assert("geo"@.len() != "version"@.len());
            reveal_strlit("source");
            assert("geo"@.len() != "source"@.len());
            reveal_strlit("kind");
            assert("geo"@.len() != "kind"@.len());
            reveal_strlit("fn");
            assert("geo"@.len() != "fn"@.len());
            reveal_strlit("n");
            assert("geo"@.len() != "n"@.len());
            reveal_strlit("nickname");
            assert("geo"@.len() != "nickname"@.len());
            reveal_strlit("photo");
            assert("geo"@.len() != "photo"@.len());
            reveal_strlit("bday");
            assert("geo"@.len() != "bday"@.len());
            reveal_strlit("anniversary");
            assert("geo"@.len() != "anniversary"@.len());
            reveal_strlit("gender");
            assert("geo"@.len() != "gender"@.len());
            reveal_strlit("adr");
            assert("geo"@[0] != "adr"@[0]);
            reveal_strlit("tel");
            assert("geo"@[0] != "tel"@[0]);
            reveal_strlit("email");
            assert("geo"@.len() != "email"@.len());
            reveal_strlit("impp");
            assert("geo"@.len() != "impp"@.len());
            reveal_strlit("lang");
            assert("geo"@.len() != "lang"@.len());
            reveal_strlit("tz");
            assert("geo"@.len() != "tz"@.len());
        },
        PropertyKind::Title => {
            reveal_strlit("title");
            reveal_strlit("begin");
            assert("title"@[0] != "begin"@[0]);
            reveal_strlit("end");
            assert("title"@.len() != "end"@.len());
            reveal_strlit("version");
            assert("title"@.len() != "version"@.len());
            reveal_strlit("source");
            assert("title"@.len() != "source"@.len());
            reveal_strlit("kind");
            assert("title"@.len() != "kind"@.len());
            reveal_strlit("fn");
            assert("title"@.len() != "fn"@.len());
            reveal_strlit("n");
            assert("title"@.len() != "n"@.len());
            reveal_strlit("nickname");
            assert("title"@.len() != "nickname"@.len());
            reveal_strlit("photo");
            assert("title"@[0] != "photo"@[0]);
            reveal_strlit("bday");
            assert("title"@.len() != "bday"@.len());
            reveal_strlit("anniversary");
            assert("title"@.len() != "anniversary"@.len());
            reveal_strlit("gender");
            assert("title"@.len() != "gender"@.len());
            reveal_strlit("adr");
            assert("title"@.len() != "adr"@.len());
            reveal_strlit("tel");
            assert("title"@.len() != "tel"@.len());
            reveal_strlit("email");
            assert("title"@[0] != "email"@[0]);
            reveal_strlit("impp");
            assert("title"@.len() != "impp"@.len());
            reveal_strlit("lang");
            assert("title"@.len() != "lang"@.len());
            reveal_strlit("tz");
            assert("title"@.len() != "tz"@.len());
            reveal_strlit("geo");
            assert("title"@.len() != "geo"@.len());
        },
        PropertyKind::Role => {
            reveal_strlit("role");
            reveal_strlit("begin");
            assert("role"@.len() != "begin"@.len());
            reveal_strlit("end");
            assert("role"@.len() != "end"@.len());
            reveal_strlit("version");
            assert("role"@.len() != "version"@.len());
            reveal_strlit("source");
            assert("role"@.len() != "source"@.len());
            reveal_strlit("kind");
            assert("role"@[0] != "kind"@[0]);
            reveal_strlit("fn");
            assert("role"@.len() != "fn"@.len());
            reveal_strlit("n");
            assert("role"@.len() != "n"@.len());
            reveal_strlit("nickname");
            assert("role"@.len() != "nickname"@.len());
            reveal_strlit("photo");
            assert("role"@.len() != "photo"@.len());
            reveal_strlit("bday");
            assert("role"@[0] != "bday"@[0]);
            reveal_strlit("anniversary");
            assert("role"@.len() != "anniversary"@.len());
            reveal_strlit("gender");
            assert("role"@.len() != "gender"@.len());
            reveal_strlit("adr");
            assert("role"@.len() != "adr"@.len());
            reveal_strlit("tel");
            assert("role"@.len() != "tel"@.len());
            reveal_strlit("email");
            assert("role"@.len() != "email"@.len());
            reveal_strlit("impp");
            assert("role"@[0] != "impp"@[0]);
            reveal_strlit("lang");
            assert("role"@[0] != "lang"@[0]);
            reveal_strlit("tz");
            assert("role"@.len() != "tz"@.len());
            reveal_strlit("geo");
            assert("role"@.len() != "geo"@.len());
            reveal_strlit("title");
            assert("role"@.len() != "title"@.len());
        },
        PropertyKind::Logo => {
            reveal_strlit("logo");
            reveal_strlit("begin");
            assert("logo"@.len() != "begin"@.len());
            reveal_strlit("end");
            assert("logo"@.len() != "end"@.len());
            reveal_strlit("version");
            assert("logo"@.len() != "version"@.len());
            reveal_strlit("source");
            assert("logo"@.len() != "source"@.len());
            reveal_strlit("kind");
            assert("logo"@[0] != "kind"@[0]);
            reveal_strlit("fn");
            assert("logo"@.len() != "fn"@.len());
            reveal_strlit("n");
            assert("logo"@.len() != "n"@.len());
            reveal_strlit("nickname");
            assert("logo"@.len() != "nickname"@.len());
            reveal_strlit("photo");
            assert("logo"@.len() != "photo"@.len());
            reveal_strlit("bday");
            assert("logo"@[0] != "bday"@[0]);
            reveal_strlit("anniversary");
            assert("logo"@.len() != "anniversary"@.len());
            reveal_strlit("gender");
            assert("logo"@.len() != "gender"@.len());
            reveal_strlit("adr");
            assert("logo"@.len() != "adr"@.len());
            reveal_strlit("tel");
            assert("logo"@.len() != "tel"@.len());
            reveal_strlit("email");
            assert("logo"@.len() != "email"@.len());
            reveal_strlit("impp");
            assert("logo"@[0] != "impp"@[0]);
            reveal_strlit("lang");
            assert("logo"@[1] != "lang"@[1]);
            reveal_strlit("tz");
            assert("logo"@.len() != "tz"@.len());
            reveal_strlit("geo");
            assert("logo"@.len() != "geo"@.len());
            reveal_strlit("title");
            assert("logo"@.len() != "title"@.len());
            reveal_strlit("role");
            assert("logo"@[0] != "role"@[0]);
        },
        PropertyKind::Org => {
            reveal_strlit("org");
            reveal_strlit("begin");
            assert("org"@.len() != "begin"@.len());
            reveal_strlit("end");
            assert("org"@[0] != "end"@[0]);
            reveal_strlit("version");
            assert("org"@.len() != "version"@.len());
            reveal_strlit("source");
            assert("org"@.len() != "source"@.len());
            reveal_strlit("kind");
            assert("org"@.len() != "kind"@.len());
            reveal_strlit("fn");
            assert("org"@.len() != "fn"@.len());
            reveal_strlit("n");
            assert("org"@.len() != "n"@.len());
            reveal_strlit("nickname");
            assert("org"@.len() != "nickname"@.len());
            reveal_strlit("photo");
            assert("org"@.len() != "photo"@.len());
            reveal_strlit("bday");
            assert("org"@.len() != "bday"@.len());
            reveal_strlit("anniversary");
            assert("org"@.len() != "anniversary"@.len());
            reveal_strlit("gender");
            assert("org"@.len() != "gender"@.len());
            reveal_strlit("adr");
            assert("org"@[0] != "adr"@[0]);
            reveal_strlit("tel");
            assert("org"@[0] != "tel"@[0]);
            reveal_strlit("email");
            assert("org"@.len() != "email"@.len());
            reveal_strlit("impp");
            assert("org"@.len() != "impp"@.len());
            reveal_strlit("lang");
            assert("org"@.len() != "lang"@.len());
            reveal_strlit("tz");
            assert("org"@.len() != "tz"@.len());
            reveal_strlit("geo");
            assert("org"@[0] != "geo"@[0]);
            reveal_strlit("title");
            assert("org"@.len() != "title"@.len());
            reveal_strlit("role");
            assert("org"@.len() != "role"@.len());
            reveal_strlit("logo");
            assert("org"@.len() != "logo"@.len());
        },
        PropertyKind::Member => {
            reveal_strlit("member");
            reveal_strlit("begin");
            assert("member"@.len() != "begin"@.len());
            reveal_strlit("end");
            assert("member"@.len() != "end"@.len());
            reveal_strlit("version");
            assert("member"@.len() != "version"@.len());
            reveal_strlit("source");
            assert("member"@[0] != "source"@[0]);
            reveal_strlit("kind");
            assert("member"@.len() != "kind"@.len());
            reveal_strlit("fn");
            assert("member"@.len() != "fn"@.len());
            reveal_strlit("n");
            assert("member"@.len() != "n"@.len());
            reveal_strlit("nickname");
            assert("member"@.len() != "nickname"@.len());
            reveal_strlit("photo");
            assert("member"@.len() != "photo"@.len());
            reveal_strlit("bday");
            assert("member"@.len() != "bday"@.len());
            reveal_strlit("anniversary");
            assert("member"@.len() != "anniversary"@.len());
            reveal_strlit("gender");
            assert("member"@[0] != "gender"@[0]);
            reveal_strlit("adr");
            assert("member"@.len() != "adr"@.len());
            reveal_strlit("tel");
            assert("member"@.len() != "tel"@.len());
            reveal_strlit("email");
            assert("member"@.len() != "email"@.len());
            reveal_strlit("impp");
            assert("member"@.len() != "impp"@.len());
            reveal_strlit("lang");
            assert("member"@.len() != "lang"@.len());
            reveal_strlit("tz");
            assert("member"@.len() != "tz"@.len());
            reveal_strlit("geo");
            assert("member"@.len() != "geo"@.len());
            reveal_strlit("title");
            assert("member"@.len() != "title"@.len());
            reveal_strlit("role");
            assert("member"@.len() != "role"@.len());
            reveal_strlit("logo");
            assert("member"@.len() != "logo"@.len());
            reveal_strlit("org");
            assert("member"@.len() != "org"@.len());
        },
        PropertyKind::Related => {
            reveal_strlit("related");
            reveal_strlit("begin");
            assert("related"@.len() != "begin"@.len());
            reveal_strlit("end");
            assert("related"@.len() != "end"@.len());
            reveal_strlit("version");
            assert("related"@[0] != "version"@[0]);
            reveal_strlit("source");
            assert("related"@.len() != "source"@.len());
            reveal_strlit("kind");
            assert("related"@.len() != "kind"@.len());
            reveal_strlit("fn");
            assert("related"@.len() != "fn"@.len());
            reveal_strlit("n");
            assert("related"@.len() != "n"@.len());
            reveal_strlit("nickname");
            assert("related"@.len() != "nickname"@.len());
            reveal_strlit("photo");
            assert("related"@.len() != "photo"@.len());
            reveal_strlit("bday");
            assert("related"@.len() != "bday"@.len());
            reveal_strlit("anniversary");
            assert("related"@.len() != "anniversary"@.len());
            reveal_strlit("gender");
            assert("related"@.len() != "gender"@.len());
            reveal_strlit("adr");
            assert("related"@.len() != "adr"@.len());
            reveal_strlit("tel");
            assert("related"@.len() != "tel"@.len());
            reveal_strlit("email");
            assert("related"@.len() != "email"@.len());
            reveal_strlit("impp");
            assert("related"@.len() != "impp"@.len());
            reveal_strlit("lang");
            assert("related"@.len() != "lang"@.len());
            reveal_strlit("tz");
            assert("related"@.len() != "tz"@.len());
            reveal_strlit("geo");
            assert("related"@.len() != "geo"@.len());
            reveal_strlit("title");
            assert("related"@.len() != "title"@.len());
            reveal_strlit("role");
            assert("related"@.len() != "role"@.len());
            reveal_strlit("logo");
            assert("related"@.len() != "logo"@.len());
            reveal_strlit("org");
            assert("related"@.len() != "org"@.len());
            reveal_strlit("member");
            assert("related"@.len() != "member"@.len());
        },
        PropertyKind::Categories => {
            reveal_strlit("categories");
            reveal_strlit("begin");
            assert("categories"@.len() != "begin"@.len());
            reveal_strlit("end");
            assert("categories"@.len() != "end"@.len());
            reveal_strlit("version");
            assert("categories"@.len() != "version"@.len());
            reveal_strlit("source");
            assert("categories"@.len() != "source"@.len());
            reveal_strlit("kind");
            assert("categories"@.len() != "kind"@.len());
            reveal_strlit("fn");
            assert("categories"@.len() != "fn"@.len());
            reveal_strlit("n");
            assert("categories"@.len() != "n"@.len());
            reveal_strlit("nickname");
            assert("categories"@.len() != "nickname"@.len());
            reveal_strlit("photo");
            assert("categories"@.len() != "photo"@.len());
            reveal_strlit("bday");
            assert("categories"@.len() != "bday"@.len());
            reveal_strlit("anniversary");
            assert("categories"@.len() != "anniversary"@.len());
            reveal_strlit("gender");
            assert("categories"@.len() != "gender"@.len());
            reveal_strlit("adr");
            assert("categories"@.len() != "adr"@.len());
            reveal_strlit("tel");
            assert("categories"@.len() != "tel"@.len());
            reveal_strlit("email");
            assert("categories"@.len() != "email"@.len());
            reveal_strlit("impp");
            assert("categories"@.len() != "impp"@.len());
            reveal_strlit("lang");
            assert("categories"@.len() != "lang"@.len());
            reveal_strlit("tz");
            assert("categories"@.len() != "tz"@.len());
            reveal_strlit("geo");
            assert("categories"@.len() != "geo"@.len());
            reveal_strlit("title");
            assert("categories"@.len() != "title"@.len());
            reveal_strlit("role");
            assert("categories"@.len() != "role"@.len());
            reveal_strlit("logo");
            assert("categories"@.len() != "logo"@.len());
            reveal_strlit("org");
            assert("categories"@.len() != "org"@.len());
            reveal_strlit("member");
            assert("categories"@.len() != "member"@.len());
            reveal_strlit("related");
            assert("categories"@.len() != "related"@.len());
        },
        PropertyKind::Note => {
            reveal_strlit("note");
            reveal_strlit("begin");
            assert("note"@.len() != "begin"@.len());
            reveal_strlit("end");
            assert("note"@.len() != "end"@.len());
            reveal_strlit("version");
            assert("note"@.len() != "version"@.len());
            reveal_strlit("source");
            assert("note"@.len() != "source"@.len());
            reveal_strlit("kind");
            assert("note"@[0] != "kind"@[0]);
            reveal_strlit("fn");
            assert("note"@.len() != "fn"@.len());
            reveal_strlit("n");
            assert("note"@.len() != "n"@.len());
            reveal_strlit("nickname");
            assert("note"@.len() != "nickname"@.len());
            reveal_strlit("photo");
            assert("note"@.len() != "photo"@.len());
            reveal_strlit("bday");
            assert("note"@[0] != "bday"@[0]);
            reveal_strlit("anniversary");
            assert("note"@.len() != "anniversary"@.len());
            reveal_strlit("gender");
            assert("note"@.len() != "gender"@.len());
            reveal_strlit("adr");
            assert("note"@.len() != "adr"@.len());
            reveal_strlit("tel");
            assert("note"@.len() != "tel"@.len());
            reveal_strlit("email");
            assert("note"@.len() != "email"@.len());
            reveal_strlit("impp");
            assert("note"@[0] != "impp"@[0]);
            reveal_strlit("lang");
            assert("note"@[0] != "lang"@[0]);
            reveal_strlit("tz");
            assert("note"@.len() != "tz"@.len());
            reveal_strlit("geo");
            assert("note"@.len() != "geo"@.len());
            reveal_strlit("title");
            assert("note"@.len() != "title"@.len());
            reveal_strlit("role");
            assert("note"@[0] != "role"@[0]);
            reveal_strlit("logo");
            assert("note"@[0] != "logo"@[0]);
            reveal_strlit("org");
            assert("note"@.len() != "org"@.len());
            reveal_strlit("member");
            assert("note"@.len() != "member"@.len());
            reveal_strlit("related");
            assert("note"@.len() != "related"@.len());
            reveal_strlit("categories");
            assert("note"@.len() != "categories"@.len());
        },
        PropertyKind::ProdId => {
            reveal_strlit("prodid");
            reveal_strlit("begin");
            assert("prodid"@.len() != "begin"@.len());
            reveal_strlit("end");
            assert("prodid"@.len() != "end"@.len());
            reveal_strlit("version");
            assert("prodid"@.len() != "version"@.len());
            reveal_strlit("source");
            assert("prodid"@[0] != "source"@[0]);
            reveal_strlit("kind");
            assert("prodid"@.len() != "kind"@.len());
            reveal_strlit("fn");
            assert("prodid"@.len() != "fn"@.len());
            reveal_strlit("n");
            assert("prodid"@.len() != "n"@.len());
            reveal_strlit("nickname");
            assert("prodid"@.len() != "nickname"@.len());
            reveal_strlit("photo");
            assert("prodid"@.len() != "photo"@.len());
            reveal_strlit("bday");
            assert("prodid"@.len() != "bday"@.len());
            reveal_strlit("anniversary");
            assert("prodid"@.len() != "anniversary"@.len());
            reveal_strlit("gender");
            assert("prodid"@[0] != "gender"@[0]);
            reveal_strlit("adr");
            assert("prodid"@.len() != "adr"@.len());
            reveal_strlit("tel");
            assert("prodid"@.len() != "tel"@.len());
            reveal_strlit("email");
            assert("prodid"@.len() != "email"@.len());
            reveal_strlit("impp");
            assert("prodid"@.len() != "impp"@.len());
            reveal_strlit("lang");
            assert("prodid"@.len() != "lang"@.len());
            reveal_strlit("tz");
            assert("prodid"@.len() != "tz"@.len());
            reveal_strlit("geo");
            assert("prodid"@.len() != "geo"@.len());
            reveal_strlit("title");
            assert("prodid"@.len() != "title"@.len());
            reveal_strlit("role");
            assert("prodid"@.len() != "role"@.len());
            reveal_strlit("logo");
            assert("prodid"@.len() != "logo"@.len());
            reveal_strlit("org");
            assert("prodid"@.len() != "org"@.len());
            reveal_strlit("member");
            assert("prodid"@[0] != "member"@[0]);
            reveal_strlit("related");
            assert("prodid"@.len() != "related"@.len());
            reveal_strlit("categories");
            assert("prodid"@.len() != "categories"@.len());
            reveal_strlit("note");
            assert("prodid"@.len() != "note"@.len());
        },
        PropertyKind::Rev => {
            reveal_strlit("rev");
            reveal_strlit("begin");
            assert("rev"@.len() != "begin"@.len());
            reveal_strlit("end");
            assert("rev"@[0] != "end"@[0]);
            reveal_strlit("version");
            assert("rev"@.len() != "version"@.len());
            reveal_strlit("source");
            assert("rev"@.len() != "source"@.len());
            reveal_strlit("kind");
            assert("rev"@.len() != "kind"@.len());
            reveal_strlit("fn");
            assert("rev"@.len() != "fn"@.len());
            reveal_strlit("n");
            assert("rev"@.len() != "n"@.len());
            reveal_strlit("nickname");
            assert("rev"@.len() != "nickname"@.len());
            reveal_strlit("photo");
            assert("rev"@.len() != "photo"@.len());
            reveal_strlit("bday");
            assert("rev"@.len() != "bday"@.len());
            reveal_strlit("anniversary");
            assert("rev"@.len() != "anniversary"@.len());
            reveal_strlit("gender");
            assert("rev"@.len() != "gender"@.len());
            reveal_strlit("adr");
            assert("rev"@[0] != "adr"@[0]);
            reveal_strlit("tel");
            assert("rev"@[0] != "tel"@[0]);
            reveal_strlit("email");
            assert("rev"@.len() != "email"@.len());
            reveal_strlit("impp");
            assert("rev"@.len() != "impp"@.len());
            reveal_strlit("lang");
            assert("rev"@.len() != "lang"@.len());
            reveal_strlit("tz");
            assert("rev"@.len() != "tz"@.len());
            reveal_strlit("geo");
            assert("rev"@[0] != "geo"@[0]);
            reveal_strlit("title");
            assert("rev"@.len() != "title"@.len());
            reveal_strlit("role");
            assert("rev"@.len() != "role"@.len());
            reveal_strlit("logo");
            assert("rev"@.len() != "logo"@.len());
            reveal_strlit("org");
            assert("rev"@[0] != "org"@[0]);
            reveal_strlit("member");
            assert("rev"@.len() != "member"@.len());
            reveal_strlit("related");
            assert("rev"@.len() != "related"@.len());
            reveal_strlit("categories");
            assert("rev"@.len() != "categories"@.len());
            reveal_strlit("note");
            assert("rev"@.len() != "note"@.len());
            reveal_strlit("prodid");
            assert("rev"@.len() != "prodid"@.len());
        },
        PropertyKind::Sound => {
            reveal_strlit("sound");
            reveal_strlit("begin");
            assert("sound"@[0] != "begin"@[0]);
            reveal_strlit("end");
            assert("sound"@.len() != "end"@.len());
            reveal_strlit("version");
            assert("sound"@.len() != "version"@.len());
            reveal_strlit("source");
            assert("sound"@.len() != "source"@.len());
            reveal_strlit("kind");
            assert("sound"@.len() != "kind"@.len());
            reveal_strlit("fn");
            assert("sound"@.len() != "fn"@.len());
            reveal_strlit("n");
            assert("sound"@.len() != "n"@.len());
            reveal_strlit("nickname");
            assert("sound"@.len() != "nickname"@.len());
            reveal_strlit("photo");
            assert("sound"@[0] != "photo"@[0]);
            reveal_strlit("bday");
            assert("sound"@.len() != "bday"@.len());
            reveal_strlit("anniversary");
            assert("sound"@.len() != "anniversary"@.len());
            reveal_strlit("gender");
            assert("sound"@.len() != "gender"@.len());
            reveal_strlit("adr");
            assert("sound"@.len() != "adr"@.len());
            reveal_strlit("tel");
            assert("sound"@.len() != "tel"@.len());
            reveal_strlit("email");
            assert("sound"@[0] != "email"@[0]);
            reveal_strlit("impp");
            assert("sound"@.len() != "impp"@.len());
            reveal_strlit("lang");
            assert("sound"@.len() != "lang"@.len());
            reveal_strlit("tz");
            assert("sound"@.len() != "tz"@.len());
            reveal_strlit("geo");
            assert("sound"@.len() != "geo"@.len());
            reveal_strlit("title");
            assert("sound"@[0] != "title"@[0]);
            reveal_strlit("role");
            assert("sound"@.len() != "role"@.len());
            reveal_strlit("logo");
            assert("sound"@.len() != "logo"@.len());
            reveal_strlit("org");
            assert("sound"@.len() != "org"@.len());
            reveal_strlit("member");
            assert("sound"@.len() != "member"@.len());
            reveal_strlit("related");
            assert("sound"@.len() != "related"@.len());
            reveal_strlit("categories");
            assert("sound"@.len() != "categories"@.len());
            reveal_strlit("note");
            assert("sound"@.len() != "note"@.len());
            reveal_strlit("prodid");
            assert("sound"@.len() != "prodid"@.len());
            reveal_strlit("rev");
            assert("sound"@.len() != "rev"@.len());
        },
        PropertyKind::Uid => {
            reveal_strlit("uid");
            reveal_strlit("begin");
            assert("uid"@.len() != "begin"@.len());
            reveal_strlit("end");
            assert("uid"@[0] != "end"@[0]);
            reveal_strlit("version");
            assert("uid"@.len() != "version"@.len());
            reveal_strlit("source");
            assert("uid"@.len() != "source"@.len());
            reveal_strlit("kind");
            assert("uid"@.len() != "kind"@.len());
            reveal_strlit("fn");
            assert("uid"@.len() != "fn"@.len());
            reveal_strlit("n");
            assert("uid"@.len() != "n"@.len());
            reveal_strlit("nickname");
            assert("uid"@.len() != "nickname"@.len());
            reveal_strlit("photo");
            assert("uid"@.len() != "photo"@.len());
            reveal_strlit("bday");
            assert("uid"@.len() != "bday"@.len());
            reveal_strlit("anniversary");
            assert("uid"@.len() != "anniversary"@.len());
            reveal_strlit("gender");
            assert("uid"@.len() != "gender"@.len());
            reveal_strlit("adr");
            assert("uid"@[0] != "adr"@[0]);
            reveal_strlit("tel");
            assert("uid"@[0] != "tel"@[0]);
            reveal_strlit("email");
            assert("uid"@.len() != "email"@.len());
            reveal_strlit("impp");
            assert("uid"@.len() != "impp"@.len());
            reveal_strlit("lang");
            assert("uid"@.len() != "lang"@.len());
            reveal_strlit("tz");
            assert("uid"@.len() != "tz"@.len());
            reveal_strlit("geo");
            assert("uid"@[0] != "geo"@[0]);
            reveal_strlit("title");
            assert("uid"@.len() != "title"@.len());
            reveal_strlit("role");
            assert("uid"@.len() != "role"@.len());
            reveal_strlit("logo");
            assert("uid"@.len() != "logo"@.len());
            reveal_strlit("org");
            assert("uid"@[0] != "org"@[0]);
            reveal_strlit("member");
            assert("uid"@.len() != "member"@.len());
            reveal_strlit("related");
            assert("uid"@.len() != "related"@.len());
            reveal_strlit("categories");
            assert("uid"@.len() != "categories"@.len());
            reveal_strlit("note");
            assert("uid"@.len() != "note"@.len());
            reveal_strlit("prodid");
            assert("uid"@.len() != "prodid"@.len());
            reveal_strlit("rev");
            assert("uid"@[0] != "rev"@[0]);
            reveal_strlit("sound");
            assert("uid"@.len() != "sound"@.len());
        },
        PropertyKind::ClientPidMap => {
            reveal_strlit("clientpidmap");
            reveal_strlit("begin");
            assert("clientpidmap"@.len() != "begin"@.len());
            reveal_strlit("end");
            assert("clientpidmap"@.len() != "end"@.len());
            reveal_strlit("version");
            assert("clientpidmap"@.len() != "version"@.len());
            reveal_strlit("source");
            assert("clientpidmap"@.len() != "source"@.len());
            reveal_strlit("kind");
            assert("clientpidmap"@.len() != "kind"@.len());
            reveal_strlit("fn");
            assert("clientpidmap"@.len() != "fn"@.len());
            reveal_strlit("n");
            assert("clientpidmap"@.len() != "n"@.len());
            reveal_strlit("nickname");
            assert("clientpidmap"@.len() != "nickname"@.len());
            reveal_strlit("photo");
            assert("clientpidmap"@.len() != "photo"@.len());
            reveal_strlit("bday");
            assert("clientpidmap"@.len() != "bday"@.len());
            reveal_strlit("anniversary");
            assert("clientpidmap"@.len() != "anniversary"@.len());
            reveal_strlit("gender");
            assert("clientpidmap"@.len() != "gender"@.len());
            reveal_strlit("adr");
            assert("clientpidmap"@.len() != "adr"@.len());
            reveal_strlit("tel");
            assert("clientpidmap"@.len() != "tel"@.len());
            reveal_strlit("email");
            assert("clientpidmap"@.len() != "email"@.len());
            reveal_strlit("impp");
            assert("clientpidmap"@.len() != "impp"@.len());
            reveal_strlit("lang");
            assert("clientpidmap"@.len() != "lang"@.len());
            reveal_strlit("tz");
            assert("clientpidmap"@.len() != "tz"@.len());
            reveal_strlit("geo");
            assert("clientpidmap"@.len() != "geo"@.len());
            reveal_strlit("title");
            assert("clientpidmap"@.len() != "title"@.len());
            reveal_strlit("role");
            assert("clientpidmap"@.len() != "role"@.len());
            reveal_strlit("logo");
            assert("clientpidmap"@.len() != "logo"@.len());
            reveal_strlit("org");
            assert("clientpidmap"@.len() != "org"@.len());
            reveal_strlit("member");
            assert("clientpidmap"@.len() != "member"@.len());
            reveal_strlit("related");
            assert("clientpidmap"@.len() != "related"@.len());
            reveal_strlit("categories");
            assert("clientpidmap"@.len() != "categories"@.len());
            reveal_strlit("note");
            assert("clientpidmap"@.len() != "note"@.len());
            reveal_strlit("prodid");
            assert("clientpidmap"@.len() != "prodid"@.len());
            reveal_strlit("rev");
            assert("clientpidmap"@.len() != "rev"@.len());
            reveal_strlit("sound");
            assert("clientpidmap"@.len() != "sound"@.len());
            reveal_strlit("uid");
            assert("clientpidmap"@.len() != "uid"@.len());
        },
        PropertyKind::Url => {
            reveal_strlit("url");
            reveal_strlit("begin");
            assert("url"@.len() != "begin"@.len());
            reveal_strlit("end");
            assert("url"@[0] != "end"@[0]);
            reveal_strlit("version");
            assert("url"@.len() != "version"@.len());
            reveal_strlit("source");
            assert("url"@.len() != "source"@.len());
            reveal_strlit("kind");
            assert("url"@.len() != "kind"@.len());
            reveal_strlit("fn");
            assert("url"@.len() != "fn"@.len());
            reveal_strlit("n");
            assert("url"@.len() != "n"@.len());
            reveal_strlit("nickname");
            assert("url"@.len() != "nickname"@.len());
            reveal_strlit("photo");
            assert("url"@.len() != "photo"@.len());
            reveal_strlit("bday");
            assert("url"@.len() != "bday"@.len());
            reveal_strlit("anniversary");
            assert("url"@.len() != "anniversary"@.len());
            reveal_strlit("gender");
            assert("url"@.len() != "gender"@.len());
            reveal_strlit("adr");
            assert("url"@[0] != "adr"@[0]);
            reveal_strlit("tel");
            assert("url"@[0] != "tel"@[0]);
            reveal_strlit("email");
            assert("url"@.len() != "email"@.len());
            reveal_strlit("impp");
            assert("url"@.len() != "impp"@.len());
            reveal_strlit("lang");
            assert("url"@.len() != "lang"@.len());
            reveal_strlit("tz");
            assert("url"@.len() != "tz"@.len());
            reveal_strlit("geo");
            assert("url"@[0] != "geo"@[0]);
            reveal_strlit("title");
            assert("url"@.len() != "title"@.len());
            reveal_strlit("role");
            assert("url"@.len() != "role"@.len());
            reveal_strlit("logo");
            assert("url"@.len() != "logo"@.len());
            reveal_strlit("org");
            assert("url"@[0] != "org"@[0]);
            reveal_strlit("member");
            assert("url"@.len() != "member"@.len());
            reveal_strlit("related");
            assert("url"@.len() != "related"@.len());
            reveal_strlit("categories");
            assert("url"@.len() != "categories"@.len());
            reveal_strlit("note");
            assert("url"@.len() != "note"@.len());
            reveal_strlit("prodid");
            assert("url"@.len() != "prodid"@.len());
            reveal_strlit("rev");
            assert("url"@[0] != "rev"@[0]);
            reveal_strlit("sound");
            assert("url"@.len() != "sound"@.len());
            reveal_strlit("uid");
            assert("url"@[1] != "uid"@[1]);
            reveal_strlit("clientpidmap");
            assert("url"@.len() != "clientpidmap"@.len());
        },
        PropertyKind::Key => {
            reveal_strlit("key");
            reveal_strlit("begin");
            assert("key"@.len() != "begin"@.len());
            reveal_strlit("end");
            assert("key"@[0] != "end"@[0]);
            reveal_strlit("version");
            assert("key"@.len() != "version"@.len());
            reveal_strlit("source");
            assert("key"@.len() != "source"@.len());
            reveal_strlit("kind");
            assert("key"@.len() != "kind"@.len());
            reveal_strlit("fn");
            assert("key"@.len() != "fn"@.len());
            reveal_strlit("n");
            assert("key"@.len() != "n"@.len());
            reveal_strlit("nickname");
            assert("key"@.len() != "nickname"@.len());
            reveal_strlit("photo");
            assert("key"@.len() != "photo"@.len());
            reveal_strlit("bday");
            assert("key"@.len() != "bday"@.len());
            reveal_strlit("anniversary");
            assert("key"@.len() != "anniversary"@.len());
            reveal_strlit("gender");
            assert("key"@.len() != "gender"@.len());
            reveal_strlit("adr");
            assert("key"@[0] != "adr"@[0]);
            reveal_strlit("tel");
            assert("key"@[0] != "tel"@[0]);
            reveal_strlit("email");
            assert("key"@.len() != "email"@.len());
            reveal_strlit("impp");
            assert("key"@.len() != "impp"@.len());
            reveal_strlit("lang");
            assert("key"@.len() != "lang"@.len());
            reveal_strlit("tz");
            assert("key"@.len() != "tz"@.len());
            reveal_strlit("geo");
            assert("key"@[0] != "geo"@[0]);
            reveal_strlit("title");
            assert("key"@.len() != "title"@.len());
            reveal_strlit("role");
            assert("key"@.len() != "role"@.len());
            reveal_strlit("logo");
            assert("key"@.len() != "logo"@.len());
            reveal_strlit("org");
            assert("key"@[0] != "org"@[0]);
            reveal_strlit("member");
            assert("key"@.len() != "member"@.len());
            reveal_strlit("related");
            assert("key"@.len() != "related"@.len());
            reveal_strlit("categories");
            assert("key"@.len() != "categories"@.len());
            reveal_strlit("note");
            assert("key"@.len() != "note"@.len());
            reveal_strlit("prodid");
            assert("key"@.len() != "prodid"@.len());
            reveal_strlit("rev");
            assert("key"@[0] != "rev"@[0]);
            reveal_strlit("sound");
            assert("key"@.len() != "sound"@.len());
            reveal_strlit("uid");
            assert("key"@[0] != "uid"@[0]);
            reveal_strlit("clientpidmap");
            assert("key"@.len() != "clientpidmap"@.len());
            reveal_strlit("url");
            assert("key"@[0] != "url"@[0]);
        },
        PropertyKind::FbUrl => {
            reveal_strlit("fburl");
            reveal_strlit("begin");
            assert("fburl"@[0] != "begin"@[0]);
            reveal_strlit("end");
            assert("fburl"@.len() != "end"@.len());
            reveal_strlit("version");
            assert("fburl"@.len() != "version"@.len());
            reveal_strlit("source");
            assert("fburl"@.len() != "source"@.len());
            reveal_strlit("kind");
            assert("fburl"@.len() != "kind"@.len());
            reveal_strlit("fn");
            assert("fburl"@.len() != "fn"@.len());
            reveal_strlit("n");
            assert("fburl"@.len() != "n"@.len());
            reveal_strlit("nickname");
            assert("fburl"@.len() != "nickname"@.len());
            reveal_strlit("photo");
            assert("fburl"@[0] != "photo"@[0]);
            reveal_strlit("bday");
            assert("fburl"@.len() != "bday"@.len());
            reveal_strlit("anniversary");
            assert("fburl"@.len() != "anniversary"@.len());
            reveal_strlit("gender");
            assert("fburl"@.len() != "gender"@.len());
            reveal_strlit("adr");
            assert("fburl"@.len() != "adr"@.len());
            reveal_strlit("tel");
            assert("fburl"@.len() != "tel"@.len());
            reveal_strlit("email");
            assert("fburl"@[0] != "email"@[0]);
            reveal_strlit("impp");
            assert("fburl"@.len() != "impp"@.len());
            reveal_strlit("lang");
            assert("fburl"@.len() != "lang"@.len());
            reveal_strlit("tz");
            assert("fburl"@.len() != "tz"@.len());
            reveal_strlit("geo");
            assert("fburl"@.len() != "geo"@.len());
            reveal_strlit("title");
            assert("fburl"@[0] != "title"@[0]);
            reveal_strlit("role");
            assert("fburl"@.len() != "role"@.len());
            reveal_strlit("logo");
            assert("fburl"@.len() != "logo"@.len());
            reveal_strlit("org");
            assert("fburl"@.len() != "org"@.len());
            reveal_strlit("member");
            assert("fburl"@.len() != "member"@.len());
            reveal_strlit("related");
            assert("fburl"@.len() != "related"@.len());
            reveal_strlit("categories");
            assert("fburl"@.len() != "categories"@.len());
            reveal_strlit("note");
            assert("fburl"@.len() != "note"@.len());
            reveal_strlit("prodid");
            assert("fburl"@.len() != "prodid"@.len());
            reveal_strlit("rev");
            assert("fburl"@.len() != "rev"@.len());
            reveal_strlit("sound");
            assert("fburl"@[0] != "sound"@[0]);
            reveal_strlit("uid");
            assert("fburl"@.len() != "uid"@.len());
            reveal_strlit("clientpidmap");
            assert("fburl"@.len() != "clientpidmap"@.len());
            reveal_strlit("url");
            assert("fburl"@.len() != "url"@.len());
            reveal_strlit("key");
            assert("fburl"@.len() != "key"@.len());
        },
        PropertyKind::CalAdUri => {
            reveal_strlit("caladuri");
            reveal_strlit("begin");
            assert("caladuri"@.len() != "begin"@.len());
            reveal_strlit("end");
            assert("caladuri"@.len() != "end"@.len());
            reveal_strlit("version");
            assert("caladuri"@.len() != "version"@.len());
            reveal_strlit("source");
            assert("caladuri"@.len() != "source"@.len());
            reveal_strlit("kind");
            assert("caladuri"@.len() != "kind"@.len());
            reveal_strlit("fn");
            assert("caladuri"@.len() != "fn"@.len());
            reveal_strlit("n");
            assert("caladuri"@.len() != "n"@.len());
            reveal_strlit("nickname");
            assert("caladuri"@[0] != "nickname"@[0]);
            reveal_strlit("photo");
            assert("caladuri"@.len() != "photo"@.len());
            reveal_strlit("bday");
            assert("caladuri"@.len() != "bday"@.len());
            reveal_strlit("anniversary");
            assert("caladuri"@.len() != "anniversary"@.len());
            reveal_strlit("gender");
            assert("caladuri"@.len() != "gender"@.len());
            reveal_strlit("adr");
            assert("caladuri"@.len() != "adr"@.len());
            reveal_strlit("tel");
            assert("caladuri"@.len() != "tel"@.len());
            reveal_strlit("email");
            assert("caladuri"@.len() != "email"@.len());
            reveal_strlit("impp");
            assert("caladuri"@.len() != "impp"@.len());
            reveal_strlit("lang");
            assert("caladuri"@.len() != "lang"@.len());
            reveal_strlit("tz");
            assert("caladuri"@.len() != "tz"@.len());
            reveal_strlit("geo");
            assert("caladuri"@.len() != "geo"@.len());
            reveal_strlit("title");
            assert("caladuri"@.len() != "title"@.len());
            reveal_strlit("role");
            assert("caladuri"@.len() != "role"@.len());
            reveal_strlit("logo");
            assert("caladuri"@.len() != "logo"@.len());
            reveal_strlit("org");
            assert("caladuri"@.len() != "org"@.len());
            reveal_strlit("member");
            assert("caladuri"@.len() != "member"@.len());
            reveal_strlit("related");
            assert("caladuri"@.len() != "related"@.len());
            reveal_strlit("categories");
            assert("caladuri"@.len() != "categories"@.len());
            reveal_strlit("note");
            assert("caladuri"@.len() != "note"@.len());
            reveal_strlit("prodid");
            assert("caladuri"@.len() != "prodid"@.len());
            reveal_strlit("rev");
            assert("caladuri"@.len() != "rev"@.len());
            reveal_strlit("sound");
            assert("caladuri"@.len() != "sound"@.len());
            reveal_strlit("uid");
            assert("caladuri"@.len() != "uid"@.len());
            reveal_strlit("clientpidmap");
            assert("caladuri"@.len() != "clientpidmap"@.len());
            reveal_strlit("url");
            assert("caladuri"@.len() != "url"@.len());
            reveal_strlit("key");
            assert("caladuri"@.len() != "key"@.len());
            reveal_strlit("fburl");
            assert("caladuri"@.len() != "fburl"@.len());
        },
        PropertyKind::CalUri => {
            reveal_strlit("caluri");
            reveal_strlit("begin");
            assert("caluri"@.len() != "begin"@.len());
            reveal_strlit("end");
            assert("caluri"@.len() != "end"@.len());
            reveal_strlit("version");
            assert("caluri"@.len() != "version"@.len());
            reveal_strlit("source");
            assert("caluri"@[0] != "source"@[0]);
            reveal_strlit("kind");
            assert("caluri"@.len() != "kind"@.len());
            reveal_strlit("fn");
            assert("caluri"@.len() != "fn"@.len());
            reveal_strlit("n");
            assert("caluri"@.len() != "n"@.len());
            reveal_strlit("nickname");
            assert("caluri"@.len() != "nickname"@.len());
            reveal_strlit("photo");
            assert("caluri"@.len() != "photo"@.len());
            reveal_strlit("bday");
            assert("caluri"@.len() != "bday"@.len());
            reveal_strlit("anniversary");
            assert("caluri"@.len() != "anniversary"@.len());
            reveal_strlit("gender");
            assert("caluri"@[0] != "gender"@[0]);
            reveal_strlit("adr");
            assert("caluri"@.len() != "adr"@.len());
            reveal_strlit("tel");
            assert("caluri"@.len() != "tel"@.len());
            reveal_strlit("email");
            assert("caluri"@.len() != "email"@.len());
            reveal_strlit("impp");
            assert("caluri"@.len() != "impp"@.len());
            reveal_strlit("lang");
            assert("caluri"@.len() != "lang"@.len());
            reveal_strlit("tz");
            assert("caluri"@.len() != "tz"@.len());
            reveal_strlit("geo");
            assert("caluri"@.len() != "geo"@.len());
            reveal_strlit("title");
            assert("caluri"@.len() != "title"@.len());
            reveal_strlit("role");
            assert("caluri"@.len() != "role"@.len());
            reveal_strlit("logo");
            assert("caluri"@.len() != "logo"@.len());
            reveal_strlit("org");
            assert("caluri"@.len() != "org"@.len());
            reveal_strlit("member");
            assert("caluri"@[0] != "member"@[0]);
            reveal_strlit("related");
            assert("caluri"@.len() != "related"@.len());
            reveal_strlit("categories");
            assert("caluri"@.len() != "categories"@.len());
            reveal_strlit("note");
            assert("caluri"@.len() != "note"@.len());
            reveal_strlit("prodid");
            assert("caluri"@[0] != "prodid"@[0]);
            reveal_strlit("rev");
            assert("caluri"@.len() != "rev"@.len());
            reveal_strlit("sound");
            assert("caluri"@.len() != "sound"@.len());
            reveal_strlit("uid");
            assert("caluri"@.len() != "uid"@.len());
            reveal_strlit("clientpidmap");
            assert("caluri"@.len() != "clientpidmap"@.len());
            reveal_strlit("url");
            assert("caluri"@.len() != "url"@.len());
            reveal_strlit("key");
            assert("caluri"@.len() != "key"@.len());
            reveal_strlit("fburl");
            assert("caluri"@.len() != "fburl"@.len());
            reveal_strlit("caladuri");
            assert("caluri"@.len() != "caladuri"@.len());
        },
        PropertyKind::Xml => {
            reveal_strlit("xml");
            reveal_strlit("begin");
            assert("xml"@.len() != "begin"@.len());
            reveal_strlit("end");
            assert("xml"@[0] != "end"@[0]);
            reveal_strlit("version");
            assert("xml"@.len() != "version"@.len());
            reveal_strlit("source");
            assert("xml"@.len() != "source"@.len());
            reveal_strlit("kind");
            assert("xml"@.len() != "kind"@.len());
            reveal_strlit("fn");
            assert("xml"@.len() != "fn"@.len());
            reveal_strlit("n");
            assert("xml"@.len() != "n"@.len());
            reveal_strlit("nickname");
            assert("xml"@.len() != "nickname"@.len());
            reveal_strlit("photo");
            assert("xml"@.len() != "photo"@.len());
            reveal_strlit("bday");
            assert("xml"@.len() != "bday"@.len());
            reveal_strlit("anniversary");
            assert("xml"@.len() != "anniversary"@.len());
            reveal_strlit("gender");
            assert("xml"@.len() != "gender"@.len());
            reveal_strlit("adr");
            assert("xml"@[0] != "adr"@[0]);
            reveal_strlit("tel");
            assert("xml"@[0] != "tel"@[0]);
            reveal_strlit("email");
            assert("xml"@.len() != "email"@.len());
            reveal_strlit("impp");
            assert("xml"@.len() != "impp"@.len());
            reveal_strlit("lang");
            assert("xml"@.len() != "lang"@.len());
            reveal_strlit("tz");
            assert("xml"@.len() != "tz"@.len());
            reveal_strlit("geo");
            assert("xml"@[0] != "geo"@[0]);
            reveal_strlit("title");
            assert("xml"@.len() != "title"@.len());
            reveal_strlit("role");
            assert("xml"@.len() != "role"@.len());
            reveal_strlit("logo");
            assert("xml"@.len() != "logo"@.len());
            reveal_strlit("org");
            assert("xml"@[0] != "org"@[0]);
            reveal_strlit("member");
            assert("xml"@.len() != "member"@.len());
            reveal_strlit("related");
            assert("xml"@.len() != "related"@.len());
            reveal_strlit("categories");
            assert("xml"@.len() != "categories"@.len());
            reveal_strlit("note");
            assert("xml"@.len() != "note"@.len());
            reveal_strlit("prodid");
            assert("xml"@.len() != "prodid"@.len());
            reveal_strlit("rev");
            assert("xml"@[0] != "rev"@[0]);
            reveal_strlit("sound");
            assert("xml"@.len() != "sound"@.len());
            reveal_strlit("uid");
            assert("xml"@[0] != "uid"@[0]);
            reveal_strlit("clientpidmap");
            assert("xml"@.len() != "clientpidmap"@.len());
            reveal_strlit("url");
            assert("xml"@[0] != "url"@[0]);
            reveal_strlit("key");
            assert("xml"@[0] != "key"@[0]);
            reveal_strlit("fburl");
            assert("xml"@.len() != "fburl"@.len());
            reveal_strlit("caladuri");
            assert("xml"@.len() != "caladuri"@.len());
            reveal_strlit("caluri");
            assert("xml"@.len() != "caluri"@.len());
        },
        PropertyKind::Proprietary => {},
    }
}

proof fn lemma_names_plain()
    ensures
        forall|kind: PropertyKind|
            kind != PropertyKind::Proprietary ==> plain_name(#[trigger] kind_name(kind)),
{
    assert forall|kind: PropertyKind| kind != PropertyKind::Proprietary implies plain_name(
        #[trigger] kind_name(kind),
    ) by {
        lemma_name_plain(kind);
    }
}

proof fn lemma_name_plain(kind: PropertyKind)
    requires
        kind != PropertyKind::Proprietary,
    ensures
        plain_name(kind_name(kind)),
{
    match kind {
        PropertyKind::Begin => {
            reveal_strlit("BEGIN");
            lemma_simple_name("BEGIN"@);
        },
        PropertyKind::End => {
            reveal_strlit("END");
            lemma_simple_name("END"@);
        },
        PropertyKind::Version => {
            reveal_strlit("VERSION");
            lemma_simple_name("VERSION"@);
        },
        PropertyKind::Source => {
            reveal_strlit("SOURCE");
            lemma_simple_name("SOURCE"@);
        },
        PropertyKind::Kind => {
            reveal_strlit("KIND");
            lemma_simple_name("KIND"@);
        },
        PropertyKind::FN => {
            reveal_strlit("FN");
            lemma_simple_name("FN"@);
        },
        PropertyKind::N => {
            reveal_strlit("N");
            lemma_simple_name("N"@);
        },
        PropertyKind::NickName => {
            reveal_strlit("NICKNAME");
            lemma_simple_name("NICKNAME"@);
        },
        PropertyKind::Photo => {
            reveal_strlit("PHOTO");
            lemma_simple_name("PHOTO"@);
        },
        PropertyKind::BDay => {
            reveal_strlit("BDAY");
            lemma_simple_name("BDAY"@);
        },
        PropertyKind::Anniversary => {
            reveal_strlit("ANNIVERSARY");
            lemma_simple_name("ANNIVERSARY"@);
        },
        PropertyKind::Gender => {
            reveal_strlit("GENDER");
            lemma_simple_name("GENDER"@);
        },
        PropertyKind::Adr => {
            reveal_strlit("ADR");
            lemma_simple_name("ADR"@);
        },
        PropertyKind::Tel => {
            reveal_strlit("TEL");
            lemma_simple_name("TEL"@);
        },
        PropertyKind::Email => {
            reveal_strlit("EMAIL");
            lemma_simple_name("EMAIL"@);
        },
        PropertyKind::Impp => {
            reveal_strlit("IMPP");
            lemma_simple_name("IMPP"@);
        },
        PropertyKind::Lang => {
            reveal_strlit("LANG");
            lemma_simple_name("LANG"@);
        },
        PropertyKind::Tz => {
            reveal_strlit("TZ");
            lemma_simple_name("TZ"@);
        },
        PropertyKind::Geo => {
            reveal_strlit("GEO");
            lemma_simple_name("GEO"@);
        },
        PropertyKind::Title => {
            reveal_strlit("TITLE");
            lemma_simple_name("TITLE"@);
        },
        PropertyKind::Role => {
            reveal_strlit("ROLE");
            lemma_simple_name("ROLE"@);
        },
        PropertyKind::Logo => {
            reveal_strlit("LOGO");
            lemma_simple_name("LOGO"@);
        },
        PropertyKind::Org => {
            reveal_strlit("ORG");
            lemma_simple_name("ORG"@);
        },
        PropertyKind::Member => {
            reveal_strlit("MEMBER");
            lemma_simple_name("MEMBER"@);
        },
        PropertyKind::Related => {
            reveal_strlit("RELATED");
            lemma_simple_name("RELATED"@);
        },
        PropertyKind::Categories => {
            reveal_strlit("CATEGORIES");
            lemma_simple_name("CATEGORIES"@);
        },
        PropertyKind::Note => {
            reveal_strlit("NOTE");
            lemma_simple_name("NOTE"@);
        },
        PropertyKind::ProdId => {
            reveal_strlit("PRODID");
            lemma_simple_name("PRODID"@);
        },
        PropertyKind::Rev => {
            reveal_strlit("REV");
            lemma_simple_name("REV"@);
        },
        PropertyKind::Sound => {
            reveal_strlit("SOUND");
            lemma_simple_name("SOUND"@);
        },
        PropertyKind::Uid => {
            reveal_strlit("UID");
            lemma_simple_name("UID"@);
        },
        PropertyKind::ClientPidMap => {
            reveal_strlit("CLIENTPIDMAP");
            lemma_simple_name("CLIENTPIDMAP"@);
        },
        PropertyKind::Url => {
            reveal_strlit("URL");
            lemma_simple_name("URL"@);
        },
        PropertyKind::Key => {
            reveal_strlit("KEY");
            lemma_simple_name("KEY"@);
        },
        PropertyKind::FbUrl => {
            reveal_strlit("FBURL");
            lemma_simple_name("FBURL"@);
        },
        PropertyKind::CalAdUri => {
            reveal_strlit("CALADURI");
            lemma_simple_name("CALADURI"@);
        },
        PropertyKind::CalUri => {
            reveal_strlit("CALURI");
            lemma_simple_name("CALURI"@);
        },
        PropertyKind::Xml => {
            reveal_strlit("XML");
            lemma_simple_name("XML"@);
        },
        PropertyKind::Proprietary => {},
    }
}

/// Whether `s`, read from `i` on, holds neither `a` nor `b` unescaped and does not end in
/// the middle of an escape: a backslash always has a character after it.
pub open spec fn sealed_from(s: Seq<char>, a: char, b: char, i: int) -> bool
    decreases s.len() - i,
{
    if i >= s.len() {
        true
    } else if s[i] == '\\' {
        i + 1 < s.len() && sealed_from(s, a, b, i + 2)
    } else if s[i] == a || s[i] == b {
        false
    } else {
        sealed_from(s, a, b, i + 1)
    }
}

/// Whether `s` can stand before a semicolon or a colon of the line and leave it its
/// meaning: every semicolon and colon in `s` is escaped, and `s` does not end in the middle
/// of an escape.
pub open spec fn sealed(s: Seq<char>) -> bool {
    sealed_from(s, ';', ':', 0)
}

/// Whether `s` holds no semicolon, no colon and no backslash at all.
pub open spec fn bare(s: Seq<char>) -> bool {
    free_of(s, ';') && free_of(s, ':') && free_of(s, '\\')
}

/// A text without backslashes and without `a` and `b` is sealed against them.
pub proof fn lemma_bare_sealed(s: Seq<char>, a: char, b: char, i: int)
    requires
        0 <= i,
        free_of(s, a),
        free_of(s, b),
        free_of(s, '\\'),
    ensures
        sealed_from(s, a, b, i),
    decreases s.len() - i,
{
    if i < s.len() {
        lemma_bare_sealed(s, a, b, i + 1);
    }
}

/// What is sealed against two marks is sealed against each of them.
pub proof fn lemma_sealed_weaken(s: Seq<char>, a: char, b: char, c: char, i: int)
    requires
        0 <= i,
        sealed_from(s, a, b, i),
        c == a || c == b,
    ensures
        sealed_from(s, c, c, i),
    decreases s.len() - i,
{
    if i < s.len() {
        if s[i] == '\\' {
            lemma_sealed_weaken(s, a, b, c, i + 2);
        } else {
            lemma_sealed_weaken(s, a, b, c, i + 1);
        }
    }
}

/// Behind another text, a text is sealed as it is alone.
pub proof fn lemma_sealed_shift(x: Seq<char>, y: Seq<char>, a: char, b: char, j: int)
    requires
        0 <= j,
        sealed_from(y, a, b, j),
    ensures
        sealed_from(x + y, a, b, x.len() + j),
    decreases y.len() - j,
{
    let z = x + y;
    if j < y.len() {
        assert(z[x.len() + j] == y[j]);
        if y[j] == '\\' {
            lemma_sealed_shift(x, y, a, b, j + 2);
        } else {
            lemma_sealed_shift(x, y, a, b, j + 1);
        }
    }
}

/// Two sealed texts, one after the other, are sealed.
pub proof fn lemma_sealed_concat(x: Seq<char>, y: Seq<char>, a: char, b: char, i: int)
    requires
        0 <= i <= x.len(),
        sealed_from(x, a, b, i),
        sealed_from(y, a, b, 0),
    ensures
        sealed_from(x + y, a, b, i),
    decreases x.len() - i,
{
    let z = x + y;
    if i >= x.len() {
        lemma_sealed_shift(x, y, a, b, 0);
    } else {
        assert(z[i] == x[i]);
        if x[i] == '\\' {
            lemma_sealed_concat(x, y, a, b, i + 2);
        } else {
            lemma_sealed_concat(x, y, a, b, i + 1);
        }
    }
}

/// Behind another text, the search for an unescaped mark goes as in the text alone.
pub proof fn lemma_next_shift(x: Seq<char>, y: Seq<char>, a: char, b: char, j: int)
    requires
        0 <= j,
    ensures
        next_unescaped(x + y, a, b, x.len() + j) == x.len() + next_unescaped(y, a, b, j),
    decreases y.len() - j,
{
    let z = x + y;
    if j < y.len() {
        assert(z[x.len() + j] == y[j]);
        if y[j] == '\\' {
            if j + 1 < y.len() {
                lemma_next_shift(x, y, a, b, j + 2);
            }
        } else if !(y[j] == a || y[j] == b) {
            lemma_next_shift(x, y, a, b, j + 1);
        }
    }
}

/// The search for an unescaped mark passes over a sealed text.
pub proof fn lemma_next_sealed(x: Seq<char>, y: Seq<char>, a: char, b: char, i: int)
    requires
        0 <= i <= x.len(),
        sealed_from(x, a, b, i),
    ensures
        next_unescaped(x + y, a, b, i) == x.len() + next_unescaped(y, a, b, 0),
    decreases x.len() - i,
{
    let z = x + y;
    if i >= x.len() {
        lemma_next_shift(x, y, a, b, 0);
    } else {
        assert(z[i] == x[i]);
        if x[i] == '\\' {
            lemma_next_sealed(x, y, a, b, i + 2);
        } else {
            lemma_next_sealed(x, y, a, b, i + 1);
        }
    }
}

/// Whether `g` can stand as a group on the wire and be found again: it has a character,
/// it is sealed, and its last character is not a dot.
pub open spec fn plain_group(g: Seq<char>) -> bool {
    g.len() >= 1 && sealed(g) && g.last() != '.'
}

/// Whether `f` can stand as the raw parameters of a line: nothing, or a semicolon and at
/// least one character more, sealed against the colon.
pub open spec fn plain_params(f: Seq<char>) -> bool {
    f.len() == 0 || (f.len() >= 2 && f[0] == ';' && sealed_from(f, ':', ':', 0))
}

/// No dot is found in a name whose dots are all escaped: the dot found before stays the
/// last.
proof fn lemma_last_dot_tail(
    line: Seq<char>,
    s: int,
    off: int,
    name: Seq<char>,
    i: int,
    limit: int,
    best: int,
)
    requires
        0 <= off,
        0 <= i,
        limit < off + name.len(),
        off + name.len() <= line.len(),
        forall|j: int| 0 <= j < name.len() ==> #[trigger] line[off + j] == name[j],
        sealed_from(name, '.', '.', i),
    ensures
        last_dot(line, s, off + i, limit, best) == best,
    decreases name.len() - i,
{
    if off + i <= limit {
        assert(line[off + i] == name[i]);
        if name[i] == '\\' {
            lemma_last_dot_tail(line, s, off, name, i + 2, limit, best);
        } else {
            lemma_last_dot_tail(line, s, off, name, i + 1, limit, best);
        }
    }
}

/// The last unescaped dot is the one behind the group `g`, when the line begins with `g`,
/// that dot and a name whose dots are all escaped.
proof fn lemma_last_dot_group(
    line: Seq<char>,
    g: Seq<char>,
    name: Seq<char>,
    i: int,
    limit: int,
    best: int,
)
    requires
        0 <= i <= g.len(),
        g.len() >= 1,
        g.len() <= limit < g.len() + 1 + name.len(),
        g.len() + 1 + name.len() <= line.len(),
        forall|j: int| 0 <= j < g.len() ==> #[trigger] line[j] == g[j],
        forall|j: int| 0 <= j < name.len() ==> #[trigger] line[g.len() + 1 + j] == name[j],
        sealed_from(g, ';', ':', i),
        line[g.len() as int] == '.',
        sealed_from(name, '.', '.', 0),
    ensures
        last_dot(line, 0, i, limit, best) == g.len(),
    decreases g.len() - i,
{
    if i == g.len() {
        lemma_last_dot_tail(line, 0, (g.len() + 1) as int, name, 0, limit, i);
    } else {
        assert(line[i] == g[i]);
        if g[i] == '\\' {
            lemma_last_dot_group(line, g, name, i + 2, limit, best);
        } else if g[i] == '.' && i > 0 {
            lemma_last_dot_group(line, g, name, i + 1, limit, i);
        } else {
            lemma_last_dot_group(line, g, name, i + 1, limit, best);
        }
    }
}

/// The line made of a group, a name, raw parameters and a value falls into these parts
/// again.
pub proof fn lemma_tokenize(
    group: Option<Seq<char>>,
    name: Seq<char>,
    params: Seq<char>,
    value: Seq<char>,
)
    requires
        group is Some ==> plain_group(group->Some_0),
        plain_name(name),
        plain_params(params),
    ensures
        tokenize_spec(head_text(group, name) + params + ":"@ + value) == Some(
            Tokens {
                group,
                name,
                params: if params.len() == 0 {
                    None
                } else {
                    Some(params)
                },
                value,
            },
        ),
{
    reveal_strlit(".");
    reveal_strlit(":");
    let head = head_text(group, name);
    let tail = seq![':'] + value;
    let rest = params + tail;
    let line = head + params + ":"@ + value;
    let e = head.len() as int;
    let colon = e + params.len();
    assert(line =~= head + rest);
    assert(line.len() == colon + 1 + value.len());
    match group {
        Some(g) => {
            let dot = seq!['.'];
            lemma_bare_sealed(dot, ';', ':', 0);
            lemma_sealed_concat(g, dot, ';', ':', 0);
            lemma_sealed_concat(g + dot, name, ';', ':', 0);
            assert(head =~= g + dot + name);
        },
        None => {},
    }
    assert(sealed_from(head, ';', ':', 0));
    lemma_next_sealed(head, rest, ';', ':', 0);
    assert(rest[0] == ';' || rest[0] == ':') by {
        if params.len() > 0 {
            assert(rest[0] == params[0]);
        } else {
            assert(rest[0] == tail[0]);
        }
    }
    assert(next_unescaped(rest, ';', ':', 0) == 0);
    assert(next_unescaped(line, ';', ':', 0) == e);
    lemma_next_shift(head, rest, ':', ':', 0);
    if params.len() > 0 {
        lemma_next_sealed(params, tail, ':', ':', 0);
    } else {
        assert(rest =~= tail);
    }
    assert(tail[0] == ':');
    assert(next_unescaped(tail, ':', ':', 0) == 0);
    assert(next_unescaped(line, ':', ':', e) == colon);
    assert(matches_at(line, 0));
    assert(match_start(line, 0) == 0);
    assert(line.subrange(colon + 1, line.len() as int) =~= value);
    if params.len() > 0 {
        assert(line.subrange(e, colon) =~= params);
    }
    match group {
        Some(g) => {
            let at = g.len() as int;
            assert(line[at] == '.');
            assert forall|j: int| 0 <= j < at implies #[trigger] line[j] == g[j] by {
                assert(line[j] == head[j]);
            }
            assert forall|j: int| 0 <= j < name.len() implies #[trigger] line[at + 1 + j]
                == name[j] by {
                assert(line[at + 1 + j] == head[at + 1 + j]);
            }
            lemma_last_dot_group(line, g, name, 0, e - 2, -1);
            assert(line.subrange(0, at + 1) =~= g + seq!['.']);
            assert((g + seq!['.']).drop_last() =~= g);
            assert(trim_end(g, '.') == g);
            assert((g + seq!['.']).last() == '.');
            assert(trim_end(g + seq!['.'], '.') == g);
            assert(line.subrange(at + 1, e) =~= name);
        },
        None => {
            assert forall|j: int| 0 <= j < name.len() implies #[trigger] line[0 + j]
                == name[j] by {
                assert(line[j] == head[j]);
            }
            lemma_last_dot_tail(line, 0, 0, name, 0, e - 2, -1);
            assert(line.subrange(0, e) =~= name);
        },
    }
    assert(trim_start(name, '\0') == name);
    assert(trim_end(name, '\0') == name);
    assert(trim(name, '\0') == name);
}

/// In a text without backslashes, splitting with escapes is plain splitting.
proof fn lemma_escaped_is_split(s: Seq<char>, sep: char, i: int, start: int)
    requires
        0 <= start <= i <= s.len(),
        free_of(s, '\\'),
        sep != '\\',
    ensures
        escaped_split_from(s, sep, i, s.subrange(start, i)) == split_from(s, sep, i, start),
    decreases s.len() - i,
{
    if i >= s.len() {
        assert(s.subrange(start, i) =~= s.subrange(start, s.len() as int));
    } else if s[i] == sep {
        lemma_escaped_is_split(s, sep, i + 1, i + 1);
        assert(s.subrange(i + 1, i + 1) =~= Seq::<char>::empty());
    } else {
        lemma_escaped_is_split(s, sep, i + 1, start);
        assert(s.subrange(start, i).push(s[i]) =~= s.subrange(start, i + 1));
    }
}

/// In a text without backslashes, splitting that keeps escapes is plain splitting.
proof fn lemma_raw_is_split(s: Seq<char>, sep: char, i: int, start: int)
    requires
        0 <= start <= i <= s.len(),
        free_of(s, '\\'),
        sep != '\\',
    ensures
        raw_split_from(s, sep, i, start) == split_from(s, sep, i, start),
    decreases s.len() - i,
{
    if i >= s.len() {
    } else if s[i] == sep {
        lemma_raw_is_split(s, sep, i + 1, i + 1);
    } else {
        lemma_raw_is_split(s, sep, i + 1, start);
    }
}

/// A text that is sealed against the separator is one piece.
proof fn lemma_raw_sealed(z: Seq<char>, sep: char, i: int, start: int)
    requires
        0 <= start <= i,
        sealed_from(z, sep, sep, i),
    ensures
        raw_split_from(z, sep, i, start) == seq![z.subrange(start, z.len() as int)],
    decreases z.len() - i,
{
    if i < z.len() {
        if z[i] == '\\' {
            lemma_raw_sealed(z, sep, i + 2, start);
        } else {
            lemma_raw_sealed(z, sep, i + 1, start);
        }
    }
}

/// Whether `s`, read from `i` on, does not end in the middle of an escape.
pub open spec fn closed_from(s: Seq<char>, i: int) -> bool
    decreases s.len() - i,
{
    if i >= s.len() {
        true
    } else if s[i] == '\\' {
        i + 1 < s.len() && closed_from(s, i + 2)
    } else {
        closed_from(s, i + 1)
    }
}

proof fn lemma_sealed_closed(s: Seq<char>, a: char, b: char, i: int)
    requires
        0 <= i,
        sealed_from(s, a, b, i),
    ensures
        closed_from(s, i),
    decreases s.len() - i,
{
    if i < s.len() {
        if s[i] == '\\' {
            lemma_sealed_closed(s, a, b, i + 2);
        } else {
            lemma_sealed_closed(s, a, b, i + 1);
        }
    }
}

proof fn lemma_closed_shift(x: Seq<char>, y: Seq<char>, j: int)
    requires
        0 <= j,
        closed_from(y, j),
    ensures
        closed_from(x + y, x.len() + j),
    decreases y.len() - j,
{
    let z = x + y;
    if j < y.len() {
        assert(z[x.len() + j] == y[j]);
        if y[j] == '\\' {
            lemma_closed_shift(x, y, j + 2);
        } else {
            lemma_closed_shift(x, y, j + 1);
        }
    }
}

proof fn lemma_closed_concat(x: Seq<char>, y: Seq<char>, i: int)
    requires
        0 <= i <= x.len(),
        closed_from(x, i),
        closed_from(y, 0),
    ensures
        closed_from(x + y, i),
    decreases x.len() - i,
{
    let z = x + y;
    if i >= x.len() {
        lemma_closed_shift(x, y, 0);
    } else {
        assert(z[i] == x[i]);
        if x[i] == '\\' {
            lemma_closed_concat(x, y, i + 2);
        } else {
            lemma_closed_concat(x, y, i + 1);
        }
    }
}

/// An unescaped separator and a text that is sealed against it add one piece.
proof fn lemma_raw_push(x: Seq<char>, y: Seq<char>, sep: char, i: int, start: int)
    requires
        0 <= start <= i <= x.len(),
        closed_from(x, i),
        sealed_from(y, sep, sep, 0),
        sep != '\\',
    ensures
        raw_split_from(x + seq![sep] + y, sep, i, start) == raw_split_from(x, sep, i, start).push(
            y,
        ),
    decreases x.len() - i,
{
    let z = x + seq![sep] + y;
    if i >= x.len() {
        assert(z[i] == sep);
        lemma_sealed_shift(x + seq![sep], y, sep, sep, 0);
        lemma_raw_sealed(z, sep, i + 1, i + 1);
        assert(z.subrange(i + 1, z.len() as int) =~= y);
        assert(z.subrange(start, i) =~= x.subrange(start, x.len() as int));
        assert(seq![z.subrange(start, i)] + seq![y] =~= seq![
            x.subrange(start, x.len() as int),
        ].push(y));
    } else {
        assert(z[i] == x[i]);
        if x[i] == '\\' {
            lemma_raw_push(x, y, sep, i + 2, start);
        } else if x[i] == sep {
            lemma_raw_push(x, y, sep, i + 1, i + 1);
            assert(z.subrange(start, i) =~= x.subrange(start, i));
            assert(seq![x.subrange(start, i)] + raw_split_from(x, sep, i + 1, i + 1).push(y) =~= (
            seq![x.subrange(start, i)] + raw_split_from(x, sep, i + 1, i + 1)).push(y));
        } else {
            lemma_raw_push(x, y, sep, i + 1, start);
        }
    }
}

/// Items that are sealed, joined by a character that is no mark, are sealed.
proof fn lemma_join_sealed(parts: Seq<Seq<char>>, sep: char)
    requires
        forall|i: int| 0 <= i < parts.len() ==> sealed(#[trigger] parts[i]),
        sep != ';',
        sep != ':',
        sep != '\\',
    ensures
        sealed(join(parts, seq![sep])),
    decreases parts.len(),
{
    if parts.len() <= 1 {
    } else {
        let init = parts.drop_last();
        assert forall|i: int| 0 <= i < init.len() implies sealed(#[trigger] init[i]) by {
            assert(init[i] == parts[i]);
        }
        lemma_join_sealed(init, sep);
        lemma_bare_sealed(seq![sep], ';', ':', 0);
        lemma_sealed_concat(join(init, seq![sep]), seq![sep], ';', ':', 0);
        lemma_sealed_concat(join(init, seq![sep]) + seq![sep], parts.last(), ';', ':', 0);
    }
}

/// Whether an item can stand in a list whose items are separated by `sep`, and be found
/// again: it has a character, and none of them is the separator or a backslash.
pub open spec fn plain_item(s: Seq<char>, sep: char) -> bool {
    s.len() >= 1 && free_of(s, sep) && free_of(s, '\\')
}

/// Whether every item is plain for the separator `sep`.
pub open spec fn plain_items(l: Seq<Seq<char>>, sep: char) -> bool {
    forall|i: int| 0 <= i < l.len() ==> plain_item(#[trigger] l[i], sep)
}

/// The joined text of items is free of what the items and the separator are free of.
proof fn lemma_join_free(parts: Seq<Seq<char>>, sep: char, c: char)
    requires
        all_free_of(parts, c),
        sep != c,
    ensures
        free_of(join(parts, seq![sep]), c),
    decreases parts.len(),
{
    if parts.len() <= 1 {
    } else {
        let init = parts.drop_last();
        assert forall|i: int| 0 <= i < init.len() implies free_of(#[trigger] init[i], c) by {
            assert(init[i] == parts[i]);
        }
        lemma_join_free(init, sep, c);
        let a = join(init, seq![sep]);
        let whole = join(parts, seq![sep]);
        assert forall|i: int| 0 <= i < whole.len() implies #[trigger] whole[i] != c by {
            if i < a.len() {
                assert(whole[i] == a[i]);
            } else if i > a.len() {
                assert(whole[i] == parts.last()[i - a.len() - 1]);
            }
        }
    }
}

/// Items that are not empty are all kept.
proof fn lemma_non_empty_all(parts: Seq<Seq<char>>)
    requires
        forall|i: int| 0 <= i < parts.len() ==> (#[trigger] parts[i]).len() >= 1,
    ensures
        non_empty(parts) == parts,
    decreases parts.len(),
{
    if parts.len() > 0 {
        let init = parts.drop_last();
        assert forall|i: int| 0 <= i < init.len() implies (#[trigger] init[i]).len() >= 1 by {
            assert(init[i] == parts[i]);
        }
        lemma_non_empty_all(init);
        assert(init.push(parts.last()) =~= parts);
    }
}

proof fn lemma_plain_items(l: Seq<Seq<char>>, sep: char)
    requires
        plain_items(l, sep),
    ensures
        all_free_of(l, sep),
        all_free_of(l, '\\'),
        forall|i: int| 0 <= i < l.len() ==> (#[trigger] l[i]).len() >= 1,
{
    assert forall|i: int| 0 <= i < l.len() implies free_of(#[trigger] l[i], sep) && free_of(
        l[i],
        '\\',
    ) && l[i].len() >= 1 by {
        assert(plain_item(l[i], sep));
    }
}

/// A list of plain items, joined by `sep`, is split at `sep` with escapes resolved, empty
/// pieces dropped, into the same items.
pub proof fn law_list_text(l: Seq<Seq<char>>, sep: char)
    requires
        plain_items(l, sep),
        sep == ',' || sep == ';',
    ensures
        non_empty(escaped_split_spec(join(l, seq![sep]), sep)) == l,
        l.len() >= 1 ==> escaped_split_spec(join(l, seq![sep]), sep) == l,
        free_of(join(l, seq![sep]), '\\'),
{
    lemma_plain_items(l, sep);
    let text = join(l, seq![sep]);
    lemma_join_free(l, sep, '\\');
    lemma_escaped_is_split(text, sep, 0, 0);
    assert(text.subrange(0, 0) =~= Seq::<char>::empty());
    if l.len() >= 1 {
        law_split_join(l, sep);
        lemma_non_empty_all(l);
    } else {
        assert(text =~= Seq::<char>::empty());
        let one = seq![Seq::<char>::empty()];
        assert(split_from(text, sep, 0, 0) == seq![text.subrange(0, 0)]);
        assert(one.drop_last() =~= Seq::<Seq<char>>::empty());
        assert(non_empty(one.drop_last()) =~= Seq::<Seq<char>>::empty());
        assert(non_empty(one) =~= l);
    }
}

/// The texts of the positions of a structured value.
pub open spec fn position_texts(c: Seq<Seq<Seq<char>>>) -> Seq<Seq<char>> {
    c.map_values(|x: Seq<Seq<char>>| join(x, seq![',']))
}

proof fn lemma_components_is_join(c: Seq<Seq<Seq<char>>>)
    ensures
        components_text(c) == join(position_texts(c), seq![';']),
    decreases c.len(),
{
    reveal_strlit(",");
    reveal_strlit(";");
    assert(","@ =~= seq![',']);
    assert(";"@ =~= seq![';']);
    if c.len() == 0 {
    } else if c.len() == 1 {
    } else {
        lemma_components_is_join(c.drop_last());
        assert(position_texts(c).drop_last() =~= position_texts(c.drop_last()));
    }
}

/// Whether every item of every position has a character and holds neither a comma, nor
/// a semicolon, nor a backslash: a structured value has both separators.
pub open spec fn plain_positions(c: Seq<Seq<Seq<char>>>) -> bool {
    forall|i: int| 0 <= i < c.len() ==> plain_items(#[trigger] c[i], ',') && all_free_of(c[i], ';')
}

/// A structured value of plain items is read back as it was: the text of its positions
/// is split into the same positions and items.
pub proof fn law_components_text(c: Seq<Seq<Seq<char>>>)
    requires
        c.len() >= 1,
        plain_positions(c),
    ensures
        components(components_text(c), c.len()) == c,
{
    let texts = position_texts(c);
    let value = components_text(c);
    lemma_components_is_join(c);
    assert forall|i: int| 0 <= i < texts.len() implies free_of(#[trigger] texts[i], ';')
        && free_of(texts[i], '\\') by {
        assert(plain_items(c[i], ','));
        lemma_plain_items(c[i], ',');
        lemma_join_free(c[i], ',', ';');
        lemma_join_free(c[i], ',', '\\');
    }
    lemma_join_free(texts, ';', '\\');
    lemma_raw_is_split(value, ';', 0, 0);
    law_split_join(texts, ';');
    assert(raw_split(value, ';') == texts);
    assert forall|i: int| 0 <= i < c.len() implies component(texts, i) == c[i] by {
        assert(plain_items(c[i], ','));
        law_list_text(c[i], ',');
    }
    assert(components(value, c.len()) =~= c);
}

/// The text of a version names the version.
pub proof fn law_version_text(v: VersionValue)
    ensures
        version_of(version_text(v)) == Ok::<VersionValue, ErrorView>(v),
{
    reveal_strlit("3.0");
    reveal_strlit("4.0");
    assert("3.0"@[0] != "4.0"@[0]);
}

/// The token of a sex names the sex, and holds no semicolon.
pub proof fn law_sex_text(x: Sex)
    ensures
        sex_of(sex_text(x)) == Ok::<Sex, ErrorView>(x),
        sex_text(x).len() == 1,
        free_of(sex_text(x), ';'),
{
    reveal_strlit("m");
    reveal_strlit("f");
    reveal_strlit("o");
    reveal_strlit("n");
    reveal_strlit("u");
    assert(lower_text(sex_text(x)) =~= sex_text(x));
    assert(is_ascii_chars(sex_text(x)));
    assert("f"@[0] != "m"@[0]);
    assert("o"@[0] != "m"@[0] && "o"@[0] != "f"@[0]);
    assert("n"@[0] != "m"@[0] && "n"@[0] != "f"@[0] && "n"@[0] != "o"@[0]);
    assert("u"@[0] != "m"@[0] && "u"@[0] != "f"@[0] && "u"@[0] != "o"@[0] && "u"@[0] != "n"@[0]);
}

/// Whether a kind is read back as it is: an extension kind must not spell a standard one.
pub open spec fn plain_kind_value(k: KindValueView) -> bool {
    match k {
        KindValueView::Proprietary(x) => kind_value_of(x) == KindValueView::Proprietary(x),
        _ => true,
    }
}

/// The text of a kind names the kind.
pub proof fn law_kind_value_text(k: KindValueView)
    requires
        plain_kind_value(k),
    ensures
        kind_value_of(kind_value_text(k)) == k,
{
    reveal_strlit("individual");
    reveal_strlit("group");
    reveal_strlit("org");
    reveal_strlit("location");
    match k {
        KindValueView::Proprietary(x) => {},
        _ => {
            assert(lower_text(kind_value_text(k)) =~= kind_value_text(k));
            assert(is_ascii_chars(kind_value_text(k)));
            assert("group"@.len() != "individual"@.len());
            assert("org"@.len() != "individual"@.len());
            assert("org"@.len() != "group"@.len());
            assert("location"@.len() != "individual"@.len());
            assert("location"@.len() != "group"@.len());
            assert("location"@.len() != "org"@.len());
        },
    }
}

/// Whether the value of a property of kind `kind` can be written and read back as it is.
///
/// A text must suit the kind; a URI must be one that the URL parser maps to itself. The
/// items of a list must have a character and hold neither a backslash nor the separator
/// of the list; those of a structured value neither of its two separators. A name has five
/// positions, an address seven. A gender must have its identity component, which may be
/// empty. The URI of a PID map must hold no semicolon.
pub open spec fn plain_payload(kind: PropertyKind, v: Payload) -> bool {
    match v {
        Payload::Text(t) => if is_uri_kind(kind) {
            parsed_url(t) == Ok::<Seq<char>, UrlParseReason>(t)
        } else {
            is_text_kind(kind)
        },
        Payload::List(l) => if kind == PropertyKind::Org {
            plain_items(l, ';')
        } else {
            plain_items(l, ',') && (kind == PropertyKind::Categories || kind
                == PropertyKind::NickName)
        },
        Payload::Components(c) => plain_positions(c) && ((kind == PropertyKind::N
            && c.len() == 5) || (kind == PropertyKind::Adr && c.len() == 7)),
        Payload::Version(_) => kind == PropertyKind::Version,
        Payload::Kind(k) => kind == PropertyKind::Kind && plain_kind_value(k),
        Payload::Gender { sex, identity_component } => kind == PropertyKind::Gender
            && identity_component is Some,
        Payload::PidMap { pid_digit, uri } => kind == PropertyKind::ClientPidMap && free_of(
            uri,
            ';',
        ) && parsed_url(uri) == Ok::<Seq<char>, UrlParseReason>(uri),
        Payload::Proprietary { name, value, parameters } => false,
    }
}

/// The text of a plain value is read back as the value.
pub proof fn law_value_text(kind: PropertyKind, v: Payload)
    requires
        plain_payload(kind, v),
    ensures
        payload_of(kind, value_text(kind, v)) == Ok::<Payload, ErrorView>(v),
{
    reveal_strlit(",");
    reveal_strlit(";");
    assert(","@ =~= seq![',']);
    assert(";"@ =~= seq![';']);
    match v {
        Payload::Text(t) => {},
        Payload::List(l) => {
            if kind == PropertyKind::Org {
                law_list_text(l, ';');
            } else {
                law_list_text(l, ',');
            }
        },
        Payload::Components(c) => {
            law_components_text(c);
        },
        Payload::Version(x) => {
            law_version_text(x);
        },
        Payload::Kind(k) => {
            law_kind_value_text(k);
        },
        Payload::Gender { sex, identity_component } => {
            let id = identity_component->Some_0;
            let text = value_text(kind, v);
            match sex {
                Some(x) => {
                    law_sex_text(x);
                    let token = sex_text(x);
                    assert(text =~= token + (seq![';'] + id));
                    assert(text[1] == ';');
                    assert(text[0] == token[0]);
                    lemma_next_of_is(text, ';', ';', 0, 1);
                    assert(text.subrange(0, 1) =~= token);
                    assert(text.subrange(2, text.len() as int) =~= id);
                },
                None => {
                    assert(text =~= seq![';'] + id);
                    lemma_next_of_is(text, ';', ';', 0, 0);
                    assert(text.subrange(1, text.len() as int) =~= id);
                },
            }
        },
        Payload::PidMap { pid_digit, uri } => {
            law_u8_text(pid_digit);
            let digits = u8_text(pid_digit);
            lemma_digits_plain(pid_digit);
            lemma_split_plain(digits, ';');
            lemma_split_push(digits, uri, ';');
            let text = value_text(kind, v);
            assert(text =~= digits + seq![';'] + uri);
            assert(seq![digits].push(uri) =~= seq![digits, uri]);
        },
        Payload::Proprietary { name, value, parameters } => {},
    }
}

/// The decimal text of a number holds digits alone.
pub proof fn lemma_digits_plain(n: u8)
    ensures
        sealed(u8_text(n)),
        free_of(u8_text(n), ';'),
        free_of(u8_text(n), ':'),
        free_of(u8_text(n), ','),
        free_of(u8_text(n), '\\'),
{
    lemma_digit(n as int % 10);
    lemma_digit((n as int / 10) % 10);
    lemma_digit(n as int / 100);
    lemma_bare_sealed(u8_text(n), ';', ':', 0);
}

/// Whether a text can stand as the value of a parameter and be found again: every
/// semicolon and colon in it is escaped, and it does not end in the middle of an escape.
pub open spec fn plain_value(v: Seq<char>) -> bool {
    sealed(v)
}

/// Whether every tag is a plain value without a comma, and there is at least one.
pub open spec fn plain_tags(tags: Seq<Seq<char>>) -> bool {
    tags.len() >= 1 && forall|i: int|
        0 <= i < tags.len() ==> plain_value(#[trigger] tags[i]) && free_of(tags[i], ',')
}

/// Whether a value type is read back as it is: an extension type must begin with `X-` or
/// `x-` and be a plain value.
pub open spec fn plain_value_type(t: ValueTypeView) -> bool {
    match t {
        ValueTypeView::Proprietary(x) => is_extension(x) && plain_value(x),
        _ => true,
    }
}

/// Whether a parameter is written and read back as it is. A label and a proprietary
/// parameter never are: the first is read as a proprietary one, the second is written
/// without a key.
pub open spec fn plain_parameter(p: ParameterView) -> bool {
    match p {
        ParameterView::Label(_) => false,
        ParameterView::Proprietary(_) => false,
        ParameterView::Language(v) => plain_value(v),
        ParameterView::AltId(v) => plain_value(v),
        ParameterView::MediaType(v) => plain_value(v),
        ParameterView::CalScale(v) => plain_value(v),
        ParameterView::Geo(v) => plain_value(v),
        ParameterView::TimeZone(v) => plain_value(v),
        ParameterView::Value(t) => plain_value_type(t),
        ParameterView::Pref(_) => true,
        ParameterView::Pid(_) => true,
        ParameterView::Type(tags) => plain_tags(tags),
        ParameterView::SortAs(tags) => plain_tags(tags),
    }
}

/// Whether a text can stand as one segment of the raw parameters: it has a character and
/// is sealed.
pub open spec fn plain_segment(s: Seq<char>) -> bool {
    s.len() >= 1 && plain_value(s)
}

/// The token of a value type names the value type, and is a plain value.
pub proof fn law_value_type_text(t: ValueTypeView)
    requires
        plain_value_type(t),
    ensures
        value_type_of(value_type_text(t)) == Ok::<ValueTypeView, ErrorView>(t),
        plain_value(value_type_text(t)),
{
    match t {
        ValueTypeView::Uri => {
            reveal_strlit("uri");
            lemma_bare_sealed("uri"@, ';', ':', 0);
        },
        ValueTypeView::Text => {
            reveal_strlit("text");
            lemma_bare_sealed("text"@, ';', ':', 0);
            reveal_strlit("uri");
            assert("text"@.len() != "uri"@.len());
        },
        ValueTypeView::Date => {
            reveal_strlit("date");
            lemma_bare_sealed("date"@, ';', ':', 0);
            reveal_strlit("uri");
            assert("date"@.len() != "uri"@.len());
            reveal_strlit("text");
            assert("date"@[0] != "text"@[0]);
        },
        ValueTypeView::Time => {
            reveal_strlit("time");
            lemma_bare_sealed("time"@, ';', ':', 0);
            reveal_strlit("uri");
            assert("time"@.len() != "uri"@.len());
            reveal_strlit("text");
            assert("time"@[1] != "text"@[1]);
            reveal_strlit("date");
            assert("time"@[0] != "date"@[0]);
        },
        ValueTypeView::DateTime => {
            reveal_strlit("date-time");
            lemma_bare_sealed("date-time"@, ';', ':', 0);
            reveal_strlit("uri");
            assert("date-time"@.len() != "uri"@.len());
            reveal_strlit("text");
            assert("date-time"@.len() != "text"@.len());
            reveal_strlit("date");
            assert("date-time"@.len() != "date"@.len());
            reveal_strlit("time");
            assert("date-time"@.len() != "time"@.len());
        },
        ValueTypeView::DateAndOrTime => {
            reveal_strlit("date-and-or-time");
            lemma_bare_sealed("date-and-or-time"@, ';', ':', 0);
            reveal_strlit("uri");
            assert("date-and-or-time"@.len() != "uri"@.len());
            reveal_strlit("text");
            assert("date-and-or-time"@.len() != "text"@.len());
            reveal_strlit("date");
            assert("date-and-or-time"@.len() != "date"@.len());
            reveal_strlit("time");
            assert("date-and-or-time"@.len() != "time"@.len());
            reveal_strlit("date-time");
            assert("date-and-or-time"@.len() != "date-time"@.len());
        },
        ValueTypeView::Timestamp => {
            reveal_strlit("timestamp");
            lemma_bare_sealed("timestamp"@, ';', ':', 0);
            reveal_strlit("uri");
            assert("timestamp"@.len() != "uri"@.len());
            reveal_strlit("text");
            assert("timestamp"@.len() != "text"@.len());
            reveal_strlit("date");
            assert("timestamp"@.len() != "date"@.len());
            reveal_strlit("time");
            assert("timestamp"@.len() != "time"@.len());
            reveal_strlit("date-time");
            assert("timestamp"@[0] != "date-time"@[0]);
            reveal_strlit("date-and-or-time");
            assert("timestamp"@.len() != "date-and-or-time"@.len());
        },
        ValueTypeView::Boolean => {
            reveal_strlit("boolean");
            lemma_bare_sealed("boolean"@, ';', ':', 0);
            reveal_strlit("uri");
            assert("boolean"@.len() != "uri"@.len());
            reveal_strlit("text");
            assert("boolean"@.len() != "text"@.len());
            reveal_strlit("date");
            assert("boolean"@.len() != "date"@.len());
            reveal_strlit("time");
            assert("boolean"@.len() != "time"@.len());
            reveal_strlit("date-time");
            assert("boolean"@.len() != "date-time"@.len());
            reveal_strlit("date-and-or-time");
            assert("boolean"@.len() != "date-and-or-time"@.len());
            reveal_strlit("timestamp");
            assert("boolean"@.len() != "timestamp"@.len());
        },
        ValueTypeView::Integer => {
            reveal_strlit("integer");
            lemma_bare_sealed("integer"@, ';', ':', 0);
            reveal_strlit("uri");
            assert("integer"@.len() != "uri"@.len());
            reveal_strlit("text");
            assert("integer"@.len() != "text"@.len());
            reveal_strlit("date");
            assert("integer"@.len() != "date"@.len());
            reveal_strlit("time");
            assert("integer"@.len() != "time"@.len());
            reveal_strlit("date-time");
            assert("integer"@.len() != "date-time"@.len());
            reveal_strlit("date-and-or-time");
            assert("integer"@.len() != "date-and-or-time"@.len());
            reveal_strlit("timestamp");
            assert("integer"@.len() != "timestamp"@.len());
            reveal_strlit("boolean");
            assert("integer"@[0] != "boolean"@[0]);
        },
        ValueTypeView::Float => {
            reveal_strlit("float");
            lemma_bare_sealed("float"@, ';', ':', 0);
            reveal_strlit("uri");
            assert("float"@.len() != "uri"@.len());
            reveal_strlit("text");
            assert("float"@.len() != "text"@.len());
            reveal_strlit("date");
            assert("float"@.len() != "date"@.len());
            reveal_strlit("time");
            assert("float"@.len() != "time"@.len());
            reveal_strlit("date-time");
            assert("float"@.len() != "date-time"@.len());
            reveal_strlit("date-and-or-time");
            assert("float"@.len() != "date-and-or-time"@.len());
            reveal_strlit("timestamp");
            assert("float"@.len() != "timestamp"@.len());
            reveal_strlit("boolean");
            assert("float"@.len() != "boolean"@.len());
            reveal_strlit("integer");
            assert("float"@.len() != "integer"@.len());
        },
        ValueTypeView::UtcOffset => {
            reveal_strlit("utc-offset");
            lemma_bare_sealed("utc-offset"@, ';', ':', 0);
            reveal_strlit("uri");
            assert("utc-offset"@.len() != "uri"@.len());
            reveal_strlit("text");
            assert("utc-offset"@.len() != "text"@.len());
            reveal_strlit("date");
            assert("utc-offset"@.len() != "date"@.len());
            reveal_strlit("time");
            assert("utc-offset"@.len() != "time"@.len());
            reveal_strlit("date-time");
            assert("utc-offset"@.len() != "date-time"@.len());
            reveal_strlit("date-and-or-time");
            assert("utc-offset"@.len() != "date-and-or-time"@.len());
            reveal_strlit("timestamp");
            assert("utc-offset"@.len() != "timestamp"@.len());
            reveal_strlit("boolean");
            assert("utc-offset"@.len() != "boolean"@.len());
            reveal_strlit("integer");
            assert("utc-offset"@.len() != "integer"@.len());
            reveal_strlit("float");
            assert("utc-offset"@.len() != "float"@.len());
        },
        ValueTypeView::LanguageTag => {
            reveal_strlit("language-tag");
            lemma_bare_sealed("language-tag"@, ';', ':', 0);
            reveal_strlit("uri");
            assert("language-tag"@.len() != "uri"@.len());
            reveal_strlit("text");
            assert("language-tag"@.len() != "text"@.len());
            reveal_strlit("date");
            assert("language-tag"@.len() != "date"@.len());
            reveal_strlit("time");
            assert("language-tag"@.len() != "time"@.len());
            reveal_strlit("date-time");
            assert("language-tag"@.len() != "date-time"@.len());
            reveal_strlit("date-and-or-time");
            assert("language-tag"@.len() != "date-and-or-time"@.len());
            reveal_strlit("timestamp");
            assert("language-tag"@.len() != "timestamp"@.len());
            reveal_strlit("boolean");
            assert("language-tag"@.len() != "boolean"@.len());
            reveal_strlit("integer");
            assert("language-tag"@.len() != "integer"@.len());
            reveal_strlit("float");
            assert("language-tag"@.len() != "float"@.len());
            reveal_strlit("utc-offset");
            assert("language-tag"@.len() != "utc-offset"@.len());
        },
        ValueTypeView::Proprietary(x) => {
            reveal_strlit("uri");
            assert("uri"@[0] != x[0]);
            reveal_strlit("text");
            assert("text"@[0] != x[0]);
            reveal_strlit("date");
            assert("date"@[0] != x[0]);
            reveal_strlit("time");
            assert("time"@[0] != x[0]);
            reveal_strlit("date-time");
            assert("date-time"@[0] != x[0]);
            reveal_strlit("date-and-or-time");
            assert("date-and-or-time"@[0] != x[0]);
            reveal_strlit("timestamp");
            assert("timestamp"@[0] != x[0]);
            reveal_strlit("boolean");
            assert("boolean"@[0] != x[0]);
            reveal_strlit("integer");
            assert("integer"@[0] != x[0]);
            reveal_strlit("float");
            assert("float"@[0] != x[0]);
            reveal_strlit("utc-offset");
            assert("utc-offset"@[0] != x[0]);
            reveal_strlit("language-tag");
            assert("language-tag"@[0] != x[0]);
        },
    }
}

proof fn lemma_key_text(key: Seq<char>, v: Seq<char>, n: int)
    requires
        key.len() == n + 1,
        n >= 1,
        key[n] == '=',
        free_of(key.subrange(0, n), '='),
        bare(key),
        plain_value(v),
    ensures
        next_of(key + v, '=', '=', 0) == n,
        (key + v).subrange(0, n) == key.subrange(0, n),
        (key + v).subrange(n + 1, (key + v).len() as int) == v,
        plain_segment(key + v),
{
    let text = key + v;
    assert forall|j: int| 0 <= j < n implies text[j] != '=' by {
        assert(text[j] == key.subrange(0, n)[j]);
    }
    assert(text[n] == '=');
    lemma_next_of_is(text, '=', '=', 0, n);
    assert(text.subrange(0, n) =~= key.subrange(0, n));
    assert(text.subrange(n + 1, text.len() as int) =~= v);
    lemma_bare_sealed(key, ';', ':', 0);
    lemma_sealed_concat(key, v, ';', ':', 0);
}

proof fn lemma_key_language(v: Seq<char>)
    requires
        plain_value(v),
    ensures
        next_of("LANGUAGE="@ + v, '=', '=', 0) == 8,
        fold_case(("LANGUAGE="@ + v).subrange(0, 8)) == "language"@,
        ("LANGUAGE="@ + v).subrange(9, ("LANGUAGE="@ + v).len() as int) == v,
        plain_segment("LANGUAGE="@ + v),
        ("LANGUAGE="@ + v).len() == 9 + v.len(),
{
    reveal_strlit("LANGUAGE=");
    reveal_strlit("language");
    let key = "LANGUAGE="@;
    assert(free_of(key.subrange(0, 8), '='));
    lemma_key_text(key, v, 8);
    assert(lower_text(key.subrange(0, 8)) =~= "language"@);
    assert(is_ascii_chars(key.subrange(0, 8)));
}

proof fn lemma_key_pref(v: Seq<char>)
    requires
        plain_value(v),
    ensures
        next_of("PREF="@ + v, '=', '=', 0) == 4,
        fold_case(("PREF="@ + v).subrange(0, 4)) == "pref"@,
        ("PREF="@ + v).subrange(5, ("PREF="@ + v).len() as int) == v,
        plain_segment("PREF="@ + v),
        ("PREF="@ + v).len() == 5 + v.len(),
        "pref"@ != "language"@,
{
    reveal_strlit("PREF=");
    reveal_strlit("pref");
    let key = "PREF="@;
    assert(free_of(key.subrange(0, 4), '='));
    lemma_key_text(key, v, 4);
    assert(lower_text(key.subrange(0, 4)) =~= "pref"@);
    assert(is_ascii_chars(key.subrange(0, 4)));
    reveal_strlit("language");
    assert("pref"@.len() != "language"@.len());
}

proof fn lemma_key_altid(v: Seq<char>)
    requires
        plain_value(v),
    ensures
        next_of("ALTID="@ + v, '=', '=', 0) == 5,
        fold_case(("ALTID="@ + v).subrange(0, 5)) == "altid"@,
        ("ALTID="@ + v).subrange(6, ("ALTID="@ + v).len() as int) == v,
        plain_segment("ALTID="@ + v),
        ("ALTID="@ + v).len() == 6 + v.len(),
        "altid"@ != "language"@,
        "altid"@ != "pref"@,
{
    reveal_strlit("ALTID=");
    reveal_strlit("altid");
    let key = "ALTID="@;
    assert(free_of(key.subrange(0, 5), '='));
    lemma_key_text(key, v, 5);
    assert(lower_text(key.subrange(0, 5)) =~= "altid"@);
    assert(is_ascii_chars(key.subrange(0, 5)));
    reveal_strlit("language");
    assert("altid"@.len() != "language"@.len());
    reveal_strlit("pref");
    assert("altid"@.len() != "pref"@.len());
}

proof fn lemma_key_pid(v: Seq<char>)
    requires
        plain_value(v),
    ensures
        next_of("PID="@ + v, '=', '=', 0) == 3,
        fold_case(("PID="@ + v).subrange(0, 3)) == "pid"@,
        ("PID="@ + v).subrange(4, ("PID="@ + v).len() as int) == v,
        plain_segment("PID="@ + v),
        ("PID="@ + v).len() == 4 + v.len(),
        "pid"@ != "language"@,
        "pid"@ != "pref"@,
        "pid"@ != "altid"@,
{
    reveal_strlit("PID=");
    reveal_strlit("pid");
    let key = "PID="@;
    assert(free_of(key.subrange(0, 3), '='));
    lemma_key_text(key, v, 3);
    assert(lower_text(key.subrange(0, 3)) =~= "pid"@);
    assert(is_ascii_chars(key.subrange(0, 3)));
    reveal_strlit("language");
    assert("pid"@.len() != "language"@.len());
    reveal_strlit("pref");
    assert("pid"@.len() != "pref"@.len());
    reveal_strlit("altid");
    assert("pid"@.len() != "altid"@.len());
}

proof fn lemma_key_value(v: Seq<char>)
    requires
        plain_value(v),
    ensures
        next_of("VALUE="@ + v, '=', '=', 0) == 5,
        fold_case(("VALUE="@ + v).subrange(0, 5)) == "value"@,
        ("VALUE="@ + v).subrange(6, ("VALUE="@ + v).len() as int) == v,
        plain_segment("VALUE="@ + v),
        ("VALUE="@ + v).len() == 6 + v.len(),
        "value"@ != "language"@,
        "value"@ != "pref"@,
        "value"@ != "altid"@,
        "value"@ != "pid"@,
{
    reveal_strlit("VALUE=");
    reveal_strlit("value");
    let key = "VALUE="@;
    assert(free_of(key.subrange(0, 5), '='));
    lemma_key_text(key, v, 5);
    assert(lower_text(key.subrange(0, 5)) =~= "value"@);
    assert(is_ascii_chars(key.subrange(0, 5)));
    reveal_strlit("language");
    assert("value"@.len() != "language"@.len());
    reveal_strlit("pref");
    assert("value"@.len() != "pref"@.len());
    reveal_strlit("altid");
    assert("value"@[0] != "altid"@[0]);
    reveal_strlit("pid");
    assert("value"@.len() != "pid"@.len());
}

proof fn lemma_key_type(v: Seq<char>)
    requires
        plain_value(v),
    ensures
        next_of("TYPE="@ + v, '=', '=', 0) == 4,
        fold_case(("TYPE="@ + v).subrange(0, 4)) == "type"@,
        ("TYPE="@ + v).subrange(5, ("TYPE="@ + v).len() as int) == v,
        plain_segment("TYPE="@ + v),
        ("TYPE="@ + v).len() == 5 + v.len(),
        "type"@ != "language"@,
        "type"@ != "pref"@,
        "type"@ != "altid"@,
        "type"@ != "pid"@,
        "type"@ != "value"@,
{
    reveal_strlit("TYPE=");
    reveal_strlit("type");
    let key = "TYPE="@;
    assert(free_of(key.subrange(0, 4), '='));
    lemma_key_text(key, v, 4);
    assert(lower_text(key.subrange(0, 4)) =~= "type"@);
    assert(is_ascii_chars(key.subrange(0, 4)));
    reveal_strlit("language");
    assert("type"@.len() != "language"@.len());
    reveal_strlit("pref");
    assert("type"@[0] != "pref"@[0]);
    reveal_strlit("altid");
    assert("type"@.len() != "altid"@.len());
    reveal_strlit("pid");
    assert("type"@.len() != "pid"@.len());
    reveal_strlit("value");
    assert("type"@.len() != "value"@.len());
}

proof fn lemma_key_mediatype(v: Seq<char>)
    requires
        plain_value(v),
    ensures
        next_of("MEDIATYPE="@ + v, '=', '=', 0) == 9,
        fold_case(("MEDIATYPE="@ + v).subrange(0, 9)) == "mediatype"@,
        ("MEDIATYPE="@ + v).subrange(10, ("MEDIATYPE="@ + v).len() as int) == v,
        plain_segment("MEDIATYPE="@ + v),
        ("MEDIATYPE="@ + v).len() == 10 + v.len(),
        "mediatype"@ != "language"@,
        "mediatype"@ != "pref"@,
        "mediatype"@ != "altid"@,
        "mediatype"@ != "pid"@,
        "mediatype"@ != "value"@,
        "mediatype"@ != "type"@,
{
    reveal_strlit("MEDIATYPE=");
    reveal_strlit("mediatype");
    let key = "MEDIATYPE="@;
    assert(free_of(key.subrange(0, 9), '='));
    lemma_key_text(key, v, 9);
    assert(lower_text(key.subrange(0, 9)) =~= "mediatype"@);
    assert(is_ascii_chars(key.subrange(0, 9)));
    reveal_strlit("language");
    assert("mediatype"@.len() != "language"@.len());
    reveal_strlit("pref");
    assert("mediatype"@.len() != "pref"@.len());
    reveal_strlit("altid");
    assert("mediatype"@.len() != "altid"@.len());
    reveal_strlit("pid");
    assert("mediatype"@.len() != "pid"@.len());
    reveal_strlit("value");
    assert("mediatype"@.len() != "value"@.len());
    reveal_strlit("type");
    assert("mediatype"@.len() != "type"@.len());
}

proof fn lemma_key_calscale(v: Seq<char>)
    requires
        plain_value(v),
    ensures
        next_of("CALSCALE="@ + v, '=', '=', 0) == 8,
        fold_case(("CALSCALE="@ + v).subrange(0, 8)) == "calscale"@,
        ("CALSCALE="@ + v).subrange(9, ("CALSCALE="@ + v).len() as int) == v,
        plain_segment("CALSCALE="@ + v),
        ("CALSCALE="@ + v).len() == 9 + v.len(),
        "calscale"@ != "language"@,
        "calscale"@ != "pref"@,
        "calscale"@ != "altid"@,
        "calscale"@ != "pid"@,
        "calscale"@ != "value"@,
        "calscale"@ != "type"@,
        "calscale"@ != "mediatype"@,
{
    reveal_strlit("CALSCALE=");
    reveal_strlit("calscale");
    let key = "CALSCALE="@;
    assert(free_of(key.subrange(0, 8), '='));
    lemma_key_text(key, v, 8);
    assert(lower_text(key.subrange(0, 8)) =~= "calscale"@);
    assert(is_ascii_chars(key.subrange(0, 8)));
    reveal_strlit("language");
    assert("calscale"@[0] != "language"@[0]);
    reveal_strlit("pref");
    assert("calscale"@.len() != "pref"@.len());
    reveal_strlit("altid");
    assert("calscale"@.len() != "altid"@.len());
    reveal_strlit("pid");
    assert("calscale"@.len() != "pid"@.len());
    reveal_strlit("value");
    assert("calscale"@.len() != "value"@.len());
    reveal_strlit("type");
    assert("calscale"@.len() != "type"@.len());
    reveal_strlit("mediatype");
    assert("calscale"@.len() != "mediatype"@.len());
}

proof fn lemma_key_sort_as(v: Seq<char>)
    requires
        plain_value(v),
    ensures
        next_of("SORT-AS="@ + v, '=', '=', 0) == 7,
        fold_case(("SORT-AS="@ + v).subrange(0, 7)) == "sort-as"@,
        ("SORT-AS="@ + v).subrange(8, ("SORT-AS="@ + v).len() as int) == v,
        plain_segment("SORT-AS="@ + v),
        ("SORT-AS="@ + v).len() == 8 + v.len(),
        "sort-as"@ != "language"@,
        "sort-as"@ != "pref"@,
        "sort-as"@ != "altid"@,
        "sort-as"@ != "pid"@,
        "sort-as"@ != "value"@,
        "sort-as"@ != "type"@,
        "sort-as"@ != "mediatype"@,
        "sort-as"@ != "calscale"@,
{
    reveal_strlit("SORT-AS=");
    reveal_strlit("sort-as");
    let key = "SORT-AS="@;
    assert(free_of(key.subrange(0, 7), '='));
    lemma_key_text(key, v, 7);
    assert(lower_text(key.subrange(0, 7)) =~= "sort-as"@);
    assert(is_ascii_chars(key.subrange(0, 7)));
    reveal_strlit("language");
    assert("sort-as"@.len() != "language"@.len());
    reveal_strlit("pref");
    assert("sort-as"@.len() != "pref"@.len());
    reveal_strlit("altid");
    assert("sort-as"@.len() != "altid"@.len());
    reveal_strlit("pid");
    assert("sort-as"@.len() != "pid"@.len());
    reveal_strlit("value");
    assert("sort-as"@.len() != "value"@.len());
    reveal_strlit("type");
    assert("sort-as"@.len() != "type"@.len());
    reveal_strlit("mediatype");
    assert("sort-as"@.len() != "mediatype"@.len());
    reveal_strlit("calscale");
    assert("sort-as"@.len() != "calscale"@.len());
}

proof fn lemma_key_geo(v: Seq<char>)
    requires
        plain_value(v),
    ensures
        next_of("GEO="@ + v, '=', '=', 0) == 3,
        fold_case(("GEO="@ + v).subrange(0, 3)) == "geo"@,
        ("GEO="@ + v).subrange(4, ("GEO="@ + v).len() as int) == v,
        plain_segment("GEO="@ + v),
        ("GEO="@ + v).len() == 4 + v.len(),
        "geo"@ != "language"@,
        "geo"@ != "pref"@,
        "geo"@ != "altid"@,
        "geo"@ != "pid"@,
        "geo"@ != "value"@,
        "geo"@ != "type"@,
        "geo"@ != "mediatype"@,
        "geo"@ != "calscale"@,
        "geo"@ != "sort-as"@,
{
    reveal_strlit("GEO=");
    reveal_strlit("geo");
    let key = "GEO="@;
    assert(free_of(key.subrange(0, 3), '='));
    lemma_key_text(key, v, 3);
    assert(lower_text(key.subrange(0, 3)) =~= "geo"@);
    assert(is_ascii_chars(key.subrange(0, 3)));
    reveal_strlit("language");
    assert("geo"@.len() != "language"@.len());
    reveal_strlit("pref");
    assert("geo"@.len() != "pref"@.len());
    reveal_strlit("altid");
    assert("geo"@.len() != "altid"@.len());
    reveal_strlit("pid");
    assert("geo"@[0] != "pid"@[0]);
    reveal_strlit("value");
    assert("geo"@.len() != "value"@.len());
    reveal_strlit("type");
    assert("geo"@.len() != "type"@.len());
    reveal_strlit("mediatype");
    assert("geo"@.len() != "mediatype"@.len());
    reveal_strlit("calscale");
    assert("geo"@.len() != "calscale"@.len());
    reveal_strlit("sort-as");
    assert("geo"@.len() != "sort-as"@.len());
}

proof fn lemma_key_tz(v: Seq<char>)
    requires
        plain_value(v),
    ensures
        next_of("TZ="@ + v, '=', '=', 0) == 2,
        fold_case(("TZ="@ + v).subrange(0, 2)) == "tz"@,
        ("TZ="@ + v).subrange(3, ("TZ="@ + v).len() as int) == v,
        plain_segment("TZ="@ + v),
        ("TZ="@ + v).len() == 3 + v.len(),
        "tz"@ != "language"@,
        "tz"@ != "pref"@,
        "tz"@ != "altid"@,
        "tz"@ != "pid"@,
        "tz"@ != "value"@,
        "tz"@ != "type"@,
        "tz"@ != "mediatype"@,
        "tz"@ != "calscale"@,
        "tz"@ != "sort-as"@,
        "tz"@ != "geo"@,
{
    reveal_strlit("TZ=");
    reveal_strlit("tz");
    let key = "TZ="@;
    assert(free_of(key.subrange(0, 2), '='));
    lemma_key_text(key, v, 2);
    assert(lower_text(key.subrange(0, 2)) =~= "tz"@);
    assert(is_ascii_chars(key.subrange(0, 2)));
    reveal_strlit("language");
    assert("tz"@.len() != "language"@.len());
    reveal_strlit("pref");
    assert("tz"@.len() != "pref"@.len());
    reveal_strlit("altid");
    assert("tz"@.len() != "altid"@.len());
    reveal_strlit("pid");
    assert("tz"@.len() != "pid"@.len());
    reveal_strlit("value");
    assert("tz"@.len() != "value"@.len());
    reveal_strlit("type");
    assert("tz"@.len() != "type"@.len());
    reveal_strlit("mediatype");
    assert("tz"@.len() != "mediatype"@.len());
    reveal_strlit("calscale");
    assert("tz"@.len() != "calscale"@.len());
    reveal_strlit("sort-as");
    assert("tz"@.len() != "sort-as"@.len());
    reveal_strlit("geo");
    assert("tz"@.len() != "geo"@.len());
}

/// The text of a plain parameter is read back as the parameter, and can stand as one
/// segment of the raw parameters.
pub proof fn law_parameter_text(p: ParameterView)
    requires
        plain_parameter(p),
    ensures
        parameter_of(parameter_text(p)) == Ok::<ParameterView, ErrorView>(p),
        plain_segment(parameter_text(p)),
{
    reveal_strlit(",");
    assert(","@ =~= seq![',']);
    match p {
        ParameterView::Label(_) => {},
        ParameterView::Proprietary(_) => {},
        ParameterView::Language(v) => {
            lemma_key_language(v);
        },
        ParameterView::AltId(v) => {
            lemma_key_altid(v);
        },
        ParameterView::MediaType(v) => {
            lemma_key_mediatype(v);
        },
        ParameterView::CalScale(v) => {
            lemma_key_calscale(v);
        },
        ParameterView::Geo(v) => {
            lemma_key_geo(v);
        },
        ParameterView::TimeZone(v) => {
            lemma_key_tz(v);
        },
        ParameterView::Value(t) => {
            law_value_type_text(t);
            lemma_key_value(value_type_text(t));
        },
        ParameterView::Pref(n) => {
            law_u8_text(n);
            lemma_digits_plain(n);
            lemma_key_pref(u8_text(n));
        },
        ParameterView::Pid(x) => {
            law_pid_text(x);
            lemma_pid_plain(x);
            lemma_key_pid(pid_text(x));
        },
        ParameterView::Type(tags) => {
            lemma_tags(tags);
            lemma_key_type(join(tags, seq![',']));
        },
        ParameterView::SortAs(tags) => {
            lemma_tags(tags);
            lemma_key_sort_as(join(tags, seq![',']));
        },
    }
}

proof fn lemma_pid_plain(p: Pid)
    ensures
        plain_value(pid_text(p)),
{
    lemma_digits_plain(p.first_digit);
    match p.second_digit {
        Some(d) => {
            lemma_digits_plain(d);
            let a = u8_text(p.first_digit);
            let b = u8_text(d);
            let t = pid_text(p);
            assert forall|j: int| 0 <= j < t.len() implies #[trigger] t[j] != ';' && t[j] != ':'
                && t[j] != '\\' by {
                if j < a.len() {
                    assert(t[j] == a[j]);
                } else if j > a.len() {
                    assert(t[j] == b[j - a.len() - 1]);
                }
            }
            lemma_bare_sealed(t, ';', ':', 0);
        },
        None => {},
    }
}

proof fn lemma_tags(tags: Seq<Seq<char>>)
    requires
        plain_tags(tags),
    ensures
        split(join(tags, seq![',']), ',') == tags,
        plain_value(join(tags, seq![','])),
{
    assert forall|i: int| 0 <= i < tags.len() implies free_of(#[trigger] tags[i], ',') && sealed(
        tags[i],
    ) by {
        assert(plain_value(tags[i]));
    }
    law_split_join(tags, ',');
    lemma_join_sealed(tags, ',');
}

/// Whether every parameter of the list is plain.
pub open spec fn plain_parameters(ps: Seq<ParameterView>) -> bool {
    forall|i: int| 0 <= i < ps.len() ==> plain_parameter(#[trigger] ps[i])
}

/// The texts of the parameters.
pub open spec fn parameter_texts(ps: Seq<ParameterView>) -> Seq<Seq<char>> {
    ps.map_values(|p: ParameterView| parameter_text(p))
}

proof fn lemma_params_text(ps: Seq<ParameterView>)
    requires
        ps.len() >= 1,
        plain_parameters(ps),
    ensures
        plain_params(params_text(ps)),
        params_text(ps).len() >= 2,
        params_text(ps)[1] != ';',
        raw_split(params_text(ps).skip(1), ';') == parameter_texts(ps),
        closed_from(params_text(ps).skip(1), 0),
    decreases ps.len(),
{
    reveal_strlit(";");
    assert(";"@ =~= seq![';']);
    let t = params_text(ps);
    let semi = seq![';'];
    let last = parameter_text(ps.last());
    assert(plain_parameter(ps.last()));
    law_parameter_text(ps.last());
    assert(last[0] != ';');
    lemma_sealed_weaken(last, ';', ':', ';', 0);
    lemma_sealed_weaken(last, ';', ':', ':', 0);
    lemma_sealed_closed(last, ';', ':', 0);
    lemma_bare_sealed(semi, ':', ':', 0);
    lemma_sealed_closed(semi, ':', ':', 0);
    if ps.len() == 1 {
        assert(ps.drop_last() =~= Seq::<ParameterView>::empty());
        assert(params_text(ps.drop_last()) =~= Seq::<char>::empty());
        assert(t =~= semi + last);
        assert(t.skip(1) =~= last);
        lemma_raw_sealed(last, ';', 0, 0);
        assert(last.subrange(0, last.len() as int) =~= last);
        assert(parameter_texts(ps) =~= seq![last]);
        lemma_sealed_concat(semi, last, ':', ':', 0);
        assert(t[1] == last[0]);
    } else {
        let init = ps.drop_last();
        assert forall|i: int| 0 <= i < init.len() implies plain_parameter(#[trigger] init[i]) by {
            assert(init[i] == ps[i]);
        }
        lemma_params_text(init);
        let before = params_text(init);
        assert(t =~= before + semi + last);
        let x = before.skip(1);
        assert(t.skip(1) =~= x + semi + last);
        lemma_raw_push(x, last, ';', 0, 0);
        assert(parameter_texts(init).push(last) =~= parameter_texts(ps));
        lemma_closed_concat(x, semi, 0);
        lemma_closed_concat(x + semi, last, 0);
        lemma_sealed_concat(before, semi, ':', ':', 0);
        lemma_sealed_concat(before + semi, last, ':', ':', 0);
        assert(t[1] == before[1]);
        assert(t[0] == before[0]);
    }
}

proof fn lemma_decode_texts(ps: Seq<ParameterView>)
    requires
        plain_parameters(ps),
    ensures
        decode_segments(parameter_texts(ps)) == Ok::<Seq<ParameterView>, ErrorView>(ps),
    decreases ps.len(),
{
    if ps.len() == 0 {
        assert(ps =~= Seq::<ParameterView>::empty());
    } else {
        let tail = ps.skip(1);
        assert forall|i: int| 0 <= i < tail.len() implies plain_parameter(#[trigger] tail[i]) by {
            assert(tail[i] == ps[i + 1]);
        }
        lemma_decode_texts(tail);
        assert(plain_parameter(ps[0]));
        law_parameter_text(ps[0]);
        assert(parameter_texts(ps).skip(1) =~= parameter_texts(tail));
        assert(seq![ps[0]] + tail =~= ps);
    }
}

/// The raw parameters that a list of plain parameters is written as are read back as the
/// list.
pub proof fn law_parameters_text(ps: Seq<ParameterView>)
    requires
        ps.len() >= 1,
        plain_parameters(ps),
    ensures
        parameters_of(params_text(ps)) == Ok::<Seq<ParameterView>, ErrorView>(ps),
        plain_params(params_text(ps)),
{
    lemma_params_text(ps);
    lemma_decode_texts(ps);
    let t = params_text(ps);
    assert(t[0] == ';');
    assert(t.skip(1)[0] == t[1]);
    assert(trim_start(t.skip(1), ';') == t.skip(1));
    assert(trim_start(t, ';') == t.skip(1));
}

/// One `TYPE` parameter for each tag.
pub open spec fn tag_params(tags: Seq<Seq<char>>) -> Seq<ParameterView> {
    tags.map_values(|t: Seq<char>| ParameterView::Type(seq![t]))
}

/// The type tags as parameters; none if there are no type tags.
pub open spec fn opt_tag_params(tags: Option<Seq<Seq<char>>>) -> Seq<ParameterView> {
    match tags {
        Some(t) => tag_params(t),
        None => Seq::empty(),
    }
}

/// The parameters that a standard property writes, as a list, in the order in which they
/// are written. Each type tag is a parameter of its own; sort-as and label are left out.
pub open spec fn field_params(f: Fields) -> Seq<ParameterView> {
    let s1 = push_opt(Seq::empty(), opt_alt_id(f.altid));
    let s2 = push_opt(s1, opt_language(f.language));
    let s3 = push_opt(s2, opt_value(f.value_data_type));
    let s4 = push_opt(s3, opt_pref(f.pref));
    let s5 = push_opt(s4, opt_pid(f.pid));
    let s6 = s5 + opt_tag_params(f.type_param);
    let s7 = push_opt(s6, opt_media_type(f.mediatype));
    let s8 = push_opt(s7, opt_cal_scale(f.calscale));
    let s9 = push_opt(s8, opt_geo(f.geo));
    push_opt(s9, opt_time_zone(f.tz))
}

/// Whether the parameters in `f` are all plain, and the type tags, if present, are at
/// least one.
pub open spec fn plain_fields(f: Fields) -> bool {
    &&& f.altid is Some ==> plain_value(f.altid->Some_0)
    &&& f.language is Some ==> plain_value(f.language->Some_0)
    &&& f.value_data_type is Some ==> plain_value_type(f.value_data_type->Some_0)
    &&& f.type_param is Some ==> plain_tags(f.type_param->Some_0)
    &&& f.mediatype is Some ==> plain_value(f.mediatype->Some_0)
    &&& f.calscale is Some ==> plain_value(f.calscale->Some_0)
    &&& f.geo is Some ==> plain_value(f.geo->Some_0)
    &&& f.tz is Some ==> plain_value(f.tz->Some_0)
}

proof fn lemma_params_push(
    s: Seq<ParameterView>,
    p: Option<ParameterView>,
    prefix: Seq<char>,
    v: Option<Seq<char>>,
)
    requires
        match p {
            Some(x) => v is Some && seq![';'] + parameter_text(x) == prefix + v->Some_0,
            None => v is None,
        },
    ensures
        params_text(push_opt(s, p)) == params_text(s) + opt_param(prefix, v),
{
    reveal_strlit(";");
    assert(";"@ =~= seq![';']);
    match p {
        Some(x) => {
            assert(s.push(x).drop_last() =~= s);
            lemma_append_twice(params_text(s), seq![';'], parameter_text(x));
        },
        None => {
            assert(params_text(s) + Seq::<char>::empty() =~= params_text(s));
        },
    }
}

proof fn lemma_params_tags(s: Seq<ParameterView>, tags: Seq<Seq<char>>)
    ensures
        params_text(s + tag_params(tags)) == params_text(s) + types_text(tags),
    decreases tags.len(),
{
    reveal_strlit(";");
    reveal_strlit(",");
    reveal_strlit("TYPE=");
    reveal_strlit(";TYPE=");
    if tags.len() == 0 {
        assert(s + tag_params(tags) =~= s);
        assert(params_text(s) + types_text(tags) =~= params_text(s));
    } else {
        let init = tags.drop_last();
        let last = tags.last();
        lemma_params_tags(s, init);
        let all = s + tag_params(tags);
        assert(all.drop_last() =~= s + tag_params(init));
        assert(all.last() == ParameterView::Type(seq![last]));
        assert(join(seq![last], ","@) == last);
        assert(";"@ + ("TYPE="@ + last) =~= ";TYPE="@ + last);
        lemma_append_twice(params_text(s + tag_params(init)), ";"@, "TYPE="@ + last);
        lemma_append_twice(params_text(s), types_text(init), ";TYPE="@ + last);
        lemma_append_twice(types_text(init), ";TYPE="@, last);
    }
}

proof fn lemma_push_altid(s: Seq<ParameterView>, v: Option<Seq<char>>)
    ensures
        params_text(push_opt(s, opt_alt_id(v))) == params_text(s) + opt_param(";ALTID="@, v),
{
    reveal_strlit(";");
    reveal_strlit("ALTID=");
    reveal_strlit(";ALTID=");
    if v is Some {
        assert(seq![';'] + ("ALTID="@ + v->Some_0) =~= ";ALTID="@ + v->Some_0);
    }
    lemma_params_push(s, opt_alt_id(v), ";ALTID="@, v);
}

proof fn lemma_push_language(s: Seq<ParameterView>, v: Option<Seq<char>>)
    ensures
        params_text(push_opt(s, opt_language(v))) == params_text(s) + opt_param(";LANGUAGE="@, v),
{
    reveal_strlit(";");
    reveal_strlit("LANGUAGE=");
    reveal_strlit(";LANGUAGE=");
    if v is Some {
        assert(seq![';'] + ("LANGUAGE="@ + v->Some_0) =~= ";LANGUAGE="@ + v->Some_0);
    }
    lemma_params_push(s, opt_language(v), ";LANGUAGE="@, v);
}

proof fn lemma_push_value(s: Seq<ParameterView>, v: Option<ValueTypeView>)
    ensures
        params_text(push_opt(s, opt_value(v))) == params_text(s) + opt_param(";VALUE="@, opt_value_type_text(v)),
{
    reveal_strlit(";");
    reveal_strlit("VALUE=");
    reveal_strlit(";VALUE=");
    if v is Some {
        assert(seq![';'] + ("VALUE="@ + value_type_text(v->Some_0)) =~= ";VALUE="@ + value_type_text(v->Some_0));
    }
    lemma_params_push(s, opt_value(v), ";VALUE="@, opt_value_type_text(v));
}

proof fn lemma_push_pref(s: Seq<ParameterView>, v: Option<u8>)
    ensures
        params_text(push_opt(s, opt_pref(v))) == params_text(s) + opt_param(";PREF="@, opt_u8_text(v)),
{
    reveal_strlit(";");
    reveal_strlit("PREF=");
    reveal_strlit(";PREF=");
    if v is Some {
        assert(seq![';'] + ("PREF="@ + u8_text(v->Some_0)) =~= ";PREF="@ + u8_text(v->Some_0));
    }
    lemma_params_push(s, opt_pref(v), ";PREF="@, opt_u8_text(v));
}

proof fn lemma_push_pid(s: Seq<ParameterView>, v: Option<Pid>)
    ensures
        params_text(push_opt(s, opt_pid(v))) == params_text(s) + opt_param(";PID="@, opt_pid_text(v)),
{
    reveal_strlit(";");
    reveal_strlit("PID=");
    reveal_strlit(";PID=");
    if v is Some {
        assert(seq![';'] + ("PID="@ + pid_text(v->Some_0)) =~= ";PID="@ + pid_text(v->Some_0));
    }
    lemma_params_push(s, opt_pid(v), ";PID="@, opt_pid_text(v));
}

proof fn lemma_push_mediatype(s: Seq<ParameterView>, v: Option<Seq<char>>)
    ensures
        params_text(push_opt(s, opt_media_type(v))) == params_text(s) + opt_param(";MEDIATYPE="@, v),
{
    reveal_strlit(";");
    reveal_strlit("MEDIATYPE=");
    reveal_strlit(";MEDIATYPE=");
    if v is Some {
        assert(seq![';'] + ("MEDIATYPE="@ + v->Some_0) =~= ";MEDIATYPE="@ + v->Some_0);
    }
    lemma_params_push(s, opt_media_type(v), ";MEDIATYPE="@, v);
}

proof fn lemma_push_calscale(s: Seq<ParameterView>, v: Option<Seq<char>>)
    ensures
        params_text(push_opt(s, opt_cal_scale(v))) == params_text(s) + opt_param(";CALSCALE="@, v),
{
    reveal_strlit(";");
    reveal_strlit("CALSCALE=");
    reveal_strlit(";CALSCALE=");
    if v is Some {
        assert(seq![';'] + ("CALSCALE="@ + v->Some_0) =~= ";CALSCALE="@ + v->Some_0);
    }
    lemma_params_push(s, opt_cal_scale(v), ";CALSCALE="@, v);
}

proof fn lemma_push_geo(s: Seq<ParameterView>, v: Option<Seq<char>>)
    ensures
        params_text(push_opt(s, opt_geo(v))) == params_text(s) + opt_param(";GEO="@, v),
{
    reveal_strlit(";");
    reveal_strlit("GEO=");
    reveal_strlit(";GEO=");
    if v is Some {
        assert(seq![';'] + ("GEO="@ + v->Some_0) =~= ";GEO="@ + v->Some_0);
    }
    lemma_params_push(s, opt_geo(v), ";GEO="@, v);
}

proof fn lemma_push_tz(s: Seq<ParameterView>, v: Option<Seq<char>>)
    ensures
        params_text(push_opt(s, opt_time_zone(v))) == params_text(s) + opt_param(";TZ="@, v),
{
    reveal_strlit(";");
    reveal_strlit("TZ=");
    reveal_strlit(";TZ=");
    if v is Some {
        assert(seq![';'] + ("TZ="@ + v->Some_0) =~= ";TZ="@ + v->Some_0);
    }
    lemma_params_push(s, opt_time_zone(v), ";TZ="@, v);
}

/// The parameters of a standard property without sort-as are written as the text of
/// their list.
proof fn lemma_fields_text(f: Fields)
    requires
        f.sort_as is None,
    ensures
        fields_text(f) == params_text(field_params(f)),
{
    let empty = Seq::<ParameterView>::empty();
    let s1 = push_opt(empty, opt_alt_id(f.altid));
    let s2 = push_opt(s1, opt_language(f.language));
    let s3 = push_opt(s2, opt_value(f.value_data_type));
    let s4 = push_opt(s3, opt_pref(f.pref));
    let s5 = push_opt(s4, opt_pid(f.pid));
    let s6 = s5 + opt_tag_params(f.type_param);
    let s7 = push_opt(s6, opt_media_type(f.mediatype));
    let s8 = push_opt(s7, opt_cal_scale(f.calscale));
    let s9 = push_opt(s8, opt_geo(f.geo));
    let part1 = opt_param(";ALTID="@, f.altid);
    let part6 = opt_types_text(f.type_param);
    let part7 = opt_param(";MEDIATYPE="@, f.mediatype);
    let part8 = opt_param(";CALSCALE="@, f.calscale);
    let part9 = opt_param(";GEO="@, f.geo);
    let part10 = opt_param(";TZ="@, f.tz);
    lemma_push_altid(empty, f.altid);
    assert(params_text(empty) + part1 =~= part1);
    lemma_push_language(s1, f.language);
    lemma_push_value(s2, f.value_data_type);
    lemma_push_pref(s3, f.pref);
    lemma_push_pid(s4, f.pid);
    match f.type_param {
        Some(tags) => {
            lemma_params_tags(s5, tags);
        },
        None => {
            assert(s6 =~= s5);
            assert(params_text(s5) + part6 =~= params_text(s5));
        },
    }
    let lead = leading_fields_text(f);
    assert(params_text(s6) == lead);
    lemma_push_mediatype(s6, f.mediatype);
    lemma_push_calscale(s7, f.calscale);
    lemma_append_twice(lead, part7, part8);
    lemma_push_geo(s8, f.geo);
    assert(part7 + part8 + sort_as_text(f.sort_as) =~= part7 + part8);
    lemma_append_twice(lead, part7 + part8, part9);
    lemma_push_tz(s9, f.tz);
    lemma_append_twice(lead, part7 + part8 + part9, part10);
}

proof fn lemma_demux_push(s: Seq<ParameterView>, p: Option<ParameterView>)
    ensures
        demux(push_opt(s, p)) == match p {
            Some(x) => apply_param(demux(s), x),
            None => demux(s),
        },
{
    match p {
        Some(x) => {
            assert(s.push(x).drop_last() =~= s);
        },
        None => {},
    }
}

proof fn lemma_demux_tags(s: Seq<ParameterView>, tags: Seq<Seq<char>>)
    requires
        demux(s).fields.type_param is None,
        tags.len() >= 1,
    ensures
        demux(s + tag_params(tags)) == (Demuxed {
            fields: Fields { type_param: Some(tags), ..demux(s).fields },
            proprietary: demux(s).proprietary,
        }),
    decreases tags.len(),
{
    let init = tags.drop_last();
    let last = tags.last();
    let all = s + tag_params(tags);
    assert(all.drop_last() =~= s + tag_params(init));
    assert(all.last() == ParameterView::Type(seq![last]));
    if init.len() == 0 {
        assert(s + tag_params(init) =~= s);
        assert(seq![last] =~= tags);
    } else {
        lemma_demux_tags(s, init);
        assert(init + seq![last] =~= tags);
    }
}

/// The first five parameters that are written, as a list.
pub open spec fn leading_params(f: Fields) -> Seq<ParameterView> {
    let s1 = push_opt(Seq::empty(), opt_alt_id(f.altid));
    let s2 = push_opt(s1, opt_language(f.language));
    let s3 = push_opt(s2, opt_value(f.value_data_type));
    let s4 = push_opt(s3, opt_pref(f.pref));
    push_opt(s4, opt_pid(f.pid))
}

proof fn lemma_demux_leading(f: Fields)
    ensures
        demux(leading_params(f)) == (Demuxed {
            fields: Fields {
                altid: f.altid,
                language: f.language,
                value_data_type: f.value_data_type,
                pref: f.pref,
                pid: f.pid,
                ..no_fields()
            },
            proprietary: Seq::empty(),
        }),
{
    let empty = Seq::<ParameterView>::empty();
    let none = no_fields();
    let s1 = push_opt(empty, opt_alt_id(f.altid));
    let s2 = push_opt(s1, opt_language(f.language));
    let s3 = push_opt(s2, opt_value(f.value_data_type));
    let s4 = push_opt(s3, opt_pref(f.pref));
    lemma_demux_push(empty, opt_alt_id(f.altid));
    let f1 = Fields { altid: f.altid, ..none };
    assert(demux(s1) == (Demuxed { fields: f1, proprietary: empty }));
    lemma_demux_push(s1, opt_language(f.language));
    let f2 = Fields { language: f.language, ..f1 };
    assert(demux(s2) == (Demuxed { fields: f2, proprietary: empty }));
    lemma_demux_push(s2, opt_value(f.value_data_type));
    let f3 = Fields { value_data_type: f.value_data_type, ..f2 };
    assert(demux(s3) == (Demuxed { fields: f3, proprietary: empty }));
    lemma_demux_push(s3, opt_pref(f.pref));
    let f4 = Fields { pref: f.pref, ..f3 };
    assert(demux(s4) == (Demuxed { fields: f4, proprietary: empty }));
    lemma_demux_push(s4, opt_pid(f.pid));
}

/// Sorting the list of the parameters that are written gives the parameters back.
proof fn lemma_demux_fields(f: Fields)
    requires
        f.group is None,
        f.sort_as is None,
        f.label is None,
        f.type_param is Some ==> f.type_param->Some_0.len() >= 1,
    ensures
        demux(field_params(f)) == (Demuxed { fields: f, proprietary: Seq::empty() }),
{
    let empty = Seq::<ParameterView>::empty();
    let s5 = leading_params(f);
    let s6 = s5 + opt_tag_params(f.type_param);
    let s7 = push_opt(s6, opt_media_type(f.mediatype));
    let s8 = push_opt(s7, opt_cal_scale(f.calscale));
    let s9 = push_opt(s8, opt_geo(f.geo));
    lemma_demux_leading(f);
    let f5 = demux(s5).fields;
    match f.type_param {
        Some(tags) => {
            lemma_demux_tags(s5, tags);
        },
        None => {
            assert(s6 =~= s5);
        },
    }
    let f6 = Fields { type_param: f.type_param, ..f5 };
    assert(demux(s6) == (Demuxed { fields: f6, proprietary: empty }));
    lemma_demux_push(s6, opt_media_type(f.mediatype));
    let f7 = Fields { mediatype: f.mediatype, ..f6 };
    assert(demux(s7) == (Demuxed { fields: f7, proprietary: empty }));
    lemma_demux_push(s7, opt_cal_scale(f.calscale));
    let f8 = Fields { calscale: f.calscale, ..f7 };
    assert(demux(s8) == (Demuxed { fields: f8, proprietary: empty }));
    lemma_demux_push(s8, opt_geo(f.geo));
    let f9 = Fields { geo: f.geo, ..f8 };
    assert(demux(s9) == (Demuxed { fields: f9, proprietary: empty }));
    lemma_demux_push(s9, opt_time_zone(f.tz));
    assert(field_params(f) == push_opt(s9, opt_time_zone(f.tz)));
}

proof fn lemma_plain_push(s: Seq<ParameterView>, p: Option<ParameterView>)
    requires
        plain_parameters(s),
        p is Some ==> plain_parameter(p->Some_0),
    ensures
        plain_parameters(push_opt(s, p)),
{
    let r = push_opt(s, p);
    assert forall|i: int| 0 <= i < r.len() implies plain_parameter(#[trigger] r[i]) by {
        if i < s.len() {
            assert(r[i] == s[i]);
        }
    }
}

/// The list of the parameters that are written is plain if the parameters are.
proof fn lemma_field_params_plain(f: Fields)
    requires
        plain_fields(f),
    ensures
        plain_parameters(field_params(f)),
{
    let empty = Seq::<ParameterView>::empty();
    let s1 = push_opt(empty, opt_alt_id(f.altid));
    let s2 = push_opt(s1, opt_language(f.language));
    let s3 = push_opt(s2, opt_value(f.value_data_type));
    let s4 = push_opt(s3, opt_pref(f.pref));
    let s5 = push_opt(s4, opt_pid(f.pid));
    let tags = opt_tag_params(f.type_param);
    let s6 = s5 + tags;
    let s7 = push_opt(s6, opt_media_type(f.mediatype));
    let s8 = push_opt(s7, opt_cal_scale(f.calscale));
    let s9 = push_opt(s8, opt_geo(f.geo));
    lemma_plain_push(empty, opt_alt_id(f.altid));
    lemma_plain_push(s1, opt_language(f.language));
    lemma_plain_push(s2, opt_value(f.value_data_type));
    lemma_plain_push(s3, opt_pref(f.pref));
    lemma_plain_push(s4, opt_pid(f.pid));
    assert forall|i: int| 0 <= i < s6.len() implies plain_parameter(#[trigger] s6[i]) by {
        if i < s5.len() {
            assert(s6[i] == s5[i]);
        } else {
            let t = f.type_param->Some_0[i - s5.len()];
            assert(s6[i] == ParameterView::Type(seq![t]));
            assert(plain_value(t) && free_of(t, ','));
            assert(plain_tags(seq![t]));
        }
    }
    lemma_plain_push(s6, opt_media_type(f.mediatype));
    lemma_plain_push(s7, opt_cal_scale(f.calscale));
    lemma_plain_push(s8, opt_geo(f.geo));
    lemma_plain_push(s9, opt_time_zone(f.tz));
}

/// The text of a property on the wire, without its line break: one logical line.
pub open spec fn line_text(p: PropertyView) -> Seq<char> {
    start_text(p) + ":"@ + value_text(p.kind, p.value)
}

/// Whether a standard property can be written and read back as it is.
///
/// It carries only what its kind declares, and neither sort-as names nor a label; its
/// group, its parameters and its value are plain.
pub open spec fn round_trips(p: PropertyView) -> bool {
    &&& p.kind != PropertyKind::Proprietary
    &&& p.fields == declared(field_set(p.kind), p.fields)
    &&& p.fields.sort_as is None
    &&& p.fields.label is None
    &&& p.fields.group is Some ==> plain_group(p.fields.group->Some_0)
    &&& plain_fields(p.fields)
    &&& plain_payload(p.kind, p.value)
}

/// Decoding undoes encoding: a standard property that is plain is written as one line and
/// a line break, and that line is decoded as the property.
pub proof fn law_standard_round_trip(p: PropertyView)
    requires
        round_trips(p),
    ensures
        serialize(p) == line_text(p) + "\r\n"@,
        decode_line(line_text(p)) == Ok::<PropertyView, ErrorView>(p),
{
    let kind = p.kind;
    let group = p.fields.group;
    let name = kind_name(kind);
    let f = Fields { group: None, ..p.fields };
    let ps = field_params(f);
    let raw = fields_text(p.fields);
    let value = value_text(kind, p.value);
    let line = line_text(p);
    lemma_keyword(kind);
    law_value_text(kind, p.value);
    lemma_fields_text(f);
    assert(fields_text(p.fields) == fields_text(f));
    lemma_demux_fields(f);
    lemma_field_params_plain(f);
    if ps.len() >= 1 {
        law_parameters_text(ps);
    } else {
        assert(ps =~= Seq::<ParameterView>::empty());
    }
    lemma_tokenize(group, name, raw, value);
    assert(line == head_text(group, name) + raw + ":"@ + value);
    let d = Demuxed { fields: f, proprietary: Seq::<ParameterView>::empty() };
    assert(line_parameters(tokenize_spec(line)->Some_0.params) == Ok::<
        Seq<ParameterView>,
        ErrorView,
    >(ps));
    assert(demux(ps) == d);
    assert(unknown_field(field_set(kind), f) is None);
    assert(with_group(f, group) == p.fields);
    assert(decode_standard(kind, group, d, value) == Ok::<PropertyView, ErrorView>(p));
    assert(decode_parts(line, group, name, d, value) == Ok::<PropertyView, ErrorView>(p));
}

/// No extension name of ASCII characters is a standard name.
pub proof fn law_extension_name(name: Seq<char>)
    requires
        is_extension(name),
        is_ascii_chars(name),
    ensures
        keyword(fold_case(name)) is None,
{
    let l = lower_text(name);
    assert(l.len() == name.len());
    assert(l[0] == lower_char(name[0]));
    assert(l[1] == lower_char(name[1]));
    assert(l[1] == '-');
    reveal_strlit("begin");
    assert("begin"@[1] != l[1]);
    reveal_strlit("end");
    assert("end"@[1] != l[1]);
    reveal_strlit("version");
    assert("version"@[1] != l[1]);
    reveal_strlit("source");
    assert("source"@[1] != l[1]);
    reveal_strlit("kind");
    assert("kind"@[1] != l[1]);
    reveal_strlit("fn");
    assert("fn"@[1] != l[1]);
    reveal_strlit("n");
    assert("n"@.len() != l.len());
    reveal_strlit("nickname");
    assert("nickname"@[1] != l[1]);
    reveal_strlit("photo");
    assert("photo"@[1] != l[1]);
    reveal_strlit("bday");
    assert("bday"@[1] != l[1]);
    reveal_strlit("anniversary");
    assert("anniversary"@[1] != l[1]);
    reveal_strlit("gender");
    assert("gender"@[1] != l[1]);
    reveal_strlit("adr");
    assert("adr"@[1] != l[1]);
    reveal_strlit("tel");
    assert("tel"@[1] != l[1]);
    reveal_strlit("email");
    assert("email"@[1] != l[1]);
    reveal_strlit("impp");
    assert("impp"@[1] != l[1]);
    reveal_strlit("lang");
    assert("lang"@[1] != l[1]);
    reveal_strlit("tz");
    assert("tz"@[1] != l[1]);
    reveal_strlit("geo");
    assert("geo"@[1] != l[1]);
    reveal_strlit("title");
    assert("title"@[1] != l[1]);
    reveal_strlit("role");
    assert("role"@[1] != l[1]);
    reveal_strlit("logo");
    assert("logo"@[1] != l[1]);
    reveal_strlit("org");
    assert("org"@[1] != l[1]);
    reveal_strlit("member");
    assert("member"@[1] != l[1]);
    reveal_strlit("related");
    assert("related"@[1] != l[1]);
    reveal_strlit("categories");
    assert("categories"@[1] != l[1]);
    reveal_strlit("note");
    assert("note"@[1] != l[1]);
    reveal_strlit("prodid");
    assert("prodid"@[1] != l[1]);
    reveal_strlit("rev");
    assert("rev"@[1] != l[1]);
    reveal_strlit("sound");
    assert("sound"@[1] != l[1]);
    reveal_strlit("uid");
    assert("uid"@[1] != l[1]);
    reveal_strlit("clientpidmap");
    assert("clientpidmap"@[1] != l[1]);
    reveal_strlit("url");
    assert("url"@[1] != l[1]);
    reveal_strlit("key");
    assert("key"@[1] != l[1]);
    reveal_strlit("fburl");
    assert("fburl"@[1] != l[1]);
    reveal_strlit("caladuri");
    assert("caladuri"@[1] != l[1]);
    reveal_strlit("caluri");
    assert("caluri"@[1] != l[1]);
    reveal_strlit("xml");
    assert("xml"@[1] != l[1]);
}

/// Whether an extension property can be written and read back as it is.
///
/// Its name begins with `X-` or `x-`, is no standard name and is plain, as is its group; it carries nothing but
/// its group; its parameters are plain and stand in the order in which decoding leaves
/// them.
pub open spec fn extension_round_trips(p: PropertyView) -> bool {
    match p.value {
        Payload::Proprietary { name, value, parameters } => {
            &&& p.kind == PropertyKind::Proprietary
            &&& p.fields == with_group(no_fields(), p.fields.group)
            &&& p.fields.group is Some ==> plain_group(p.fields.group->Some_0)
            &&& is_extension(name)
            &&& keyword(fold_case(name)) is None
            &&& plain_name(name)
            &&& plain_parameters(parameters)
            &&& kept_params(demux(parameters)) == parameters
        },
        _ => false,
    }
}

/// Decoding undoes encoding for extension properties too: one that is plain is written as
/// one line and a line break, and that line is decoded as the property.
pub proof fn law_extension_round_trip(p: PropertyView)
    requires
        extension_round_trips(p),
    ensures
        serialize(p) == line_text(p) + "\r\n"@,
        decode_line(line_text(p)) == Ok::<PropertyView, ErrorView>(p),
{
    let group = p.fields.group;
    let name = p.value->Proprietary_name;
    let value = p.value->Proprietary_value;
    let ps = p.value->Proprietary_parameters;
    let raw = params_text(ps);
    let line = line_text(p);
    if ps.len() >= 1 {
        law_parameters_text(ps);
    } else {
        assert(ps =~= Seq::<ParameterView>::empty());
    }
    lemma_tokenize(group, name, raw, value);
    assert(line == head_text(group, name) + raw + ":"@ + value);
    assert(line_parameters(tokenize_spec(line)->Some_0.params) == Ok::<
        Seq<ParameterView>,
        ErrorView,
    >(ps));
    assert(decode_parts(line, group, name, demux(ps), value) == Ok::<PropertyView, ErrorView>(p));
}

/// Whether a property can be written and read back as it is.
pub open spec fn writable(p: PropertyView) -> bool {
    round_trips(p) || extension_round_trips(p)
}

/// Decoding undoes encoding: a property that is plain, standard or not, is written as one
/// line and a line break, and that line is decoded as the property.
pub proof fn law_decode_written(p: PropertyView)
    requires
        writable(p),
    ensures
        serialize(p) == line_text(p) + "\r\n"@,
        decode_line(line_text(p)) == Ok::<PropertyView, ErrorView>(p),
{
    if round_trips(p) {
        law_standard_round_trip(p);
    } else {
        law_extension_round_trip(p);
    }
}

} // verus!
