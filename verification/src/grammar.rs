//! The grammar of a content line: how one logical line falls into group, name, raw
//! parameters and raw value, and how the raw parameters fall into segments.

use crate::errors::{ErrorView, VCardError};
use crate::parameter::{parameter_views, Parameter, ParameterView};
use crate::text::{
    chars_of, find_unescaped, lemma_next_unescaped, lemma_texts_empty, lemma_texts_push,
    next_unescaped, text_of, texts,
};
use vstd::prelude::*;
use vstd::string::*;

verus! {

/// `s` without the occurrences of `c` at its end.
pub open spec fn trim_end(s: Seq<char>, c: char) -> Seq<char>
    decreases s.len(),
{
    if s.len() > 0 && s.last() == c {
        trim_end(s.drop_last(), c)
    } else {
        s
    }
}

/// `s` without the occurrences of `c` at its start.
pub open spec fn trim_start(s: Seq<char>, c: char) -> Seq<char>
    decreases s.len(),
{
    if s.len() > 0 && s[0] == c {
        trim_start(s.skip(1), c)
    } else {
        s
    }
}

/// `s` without the occurrences of `c` at either end.
pub open spec fn trim(s: Seq<char>, c: char) -> Seq<char> {
    trim_end(trim_start(s, c), c)
}

/// The index `t` such that `v[from..t]` is `v[from..to]` without the occurrences of `c` at
/// its end.
pub fn trim_end_index(v: &Vec<char>, from: usize, to: usize, c: char) -> (t: usize)
    requires
        from <= to <= v.len(),
    ensures
        from <= t <= to,
        v@.subrange(from as int, t as int) == trim_end(v@.subrange(from as int, to as int), c),
{
    let mut t: usize = to;
    while t > from && v[t - 1] == c
        invariant
            from <= t <= to <= v.len(),
            trim_end(v@.subrange(from as int, t as int), c) == trim_end(
                v@.subrange(from as int, to as int),
                c,
            ),
        decreases t,
    {
        assert(v@.subrange(from as int, t as int).drop_last() =~= v@.subrange(
            from as int,
            t - 1,
        ));
        t -= 1;
    }
    t
}

/// The index `f` such that `v[f..to]` is `v[from..to]` without the occurrences of `c` at
/// its start.
pub fn trim_start_index(v: &Vec<char>, from: usize, to: usize, c: char) -> (f: usize)
    requires
        from <= to <= v.len(),
    ensures
        from <= f <= to,
        v@.subrange(f as int, to as int) == trim_start(v@.subrange(from as int, to as int), c),
{
    let mut f: usize = from;
    while f < to && v[f] == c
        invariant
            from <= f <= to <= v.len(),
            trim_start(v@.subrange(f as int, to as int), c) == trim_start(
                v@.subrange(from as int, to as int),
                c,
            ),
        decreases to - f,
    {
        assert(v@.subrange(f as int, to as int).skip(1) =~= v@.subrange(f + 1, to as int));
        f += 1;
    }
    f
}

/// The four parts of a content line.
pub struct Tokens {
    /// The group, without the dots that end it.
    pub group: Option<Seq<char>>,
    /// The name, without NUL characters at its ends.
    pub name: Seq<char>,
    /// The raw parameters, from their first semicolon up to the colon.
    pub params: Option<Seq<char>>,
    /// Everything that follows the colon.
    pub value: Seq<char>,
}

/// Whether a property declaration begins at index `s` of `line`: a run of characters that
/// starts at `s` and ends before the first unescaped `;` or `:`, then either that colon, or
/// that semicolon followed by at least one character and, somewhere later, an unescaped
/// colon.
pub open spec fn matches_at(line: Seq<char>, s: int) -> bool {
    let e = next_unescaped(line, ';', ':', s);
    let colon = next_unescaped(line, ':', ':', e);
    0 <= s < e && e < line.len() && colon < line.len() && colon != e + 1
}

/// The first index at or after `from` where a property declaration begins; the length of
/// `line` if there is none. A run that is no declaration is passed over together with the
/// `;` or `:` that ends it.
pub open spec fn match_start(line: Seq<char>, from: int) -> int
    decreases line.len() - from,
{
    if from < 0 || from >= line.len() {
        line.len() as int
    } else if matches_at(line, from) {
        from
    } else {
        let e = next_unescaped(line, ';', ':', from);
        if e >= line.len() {
            line.len() as int
        } else {
            proof {
                lemma_next_unescaped(line, ';', ':', from);
            }
            match_start(line, e + 1)
        }
    }
}

/// The last index from `i` to `limit` that holds an unescaped dot and lies behind `s`;
/// `best` if there is none.
pub open spec fn last_dot(line: Seq<char>, s: int, i: int, limit: int, best: int) -> int
    decreases limit + 2 - i,
{
    if i > limit || i < 0 || i >= line.len() {
        best
    } else if line[i] == '\\' {
        last_dot(line, s, i + 2, limit, best)
    } else if line[i] == '.' && i > s {
        last_dot(line, s, i + 1, limit, i)
    } else {
        last_dot(line, s, i + 1, limit, best)
    }
}

/// The parts of `line`, or nothing if no property declaration begins anywhere in it.
///
/// The declaration taken is the leftmost. Its group is the text before the last unescaped
/// dot that still leaves a name of at least one character, without the dots that end it;
/// the name runs up to the first unescaped `;` or `:`; the value is everything after the
/// first unescaped colon that follows. A backslash escapes the character after it.
pub open spec fn tokenize_spec(line: Seq<char>) -> Option<Tokens> {
    let s = match_start(line, 0);
    if s >= line.len() {
        None
    } else {
        let e = next_unescaped(line, ';', ':', s);
        let d = last_dot(line, s, s, e - 2, -1);
        let colon = next_unescaped(line, ':', ':', e);
        Some(
            Tokens {
                group: if d > s {
                    Some(trim_end(line.subrange(s, d + 1), '.'))
                } else {
                    None
                },
                name: trim(
                    line.subrange(
                        if d > s {
                            d + 1
                        } else {
                            s
                        },
                        e,
                    ),
                    '\0',
                ),
                params: if e < colon {
                    Some(line.subrange(e, colon))
                } else {
                    None
                },
                value: line.subrange(colon + 1, line.len() as int),
            },
        )
    }
}

/// The parts of a content line, as owned texts.
#[derive(Debug, Clone, PartialEq)]
pub struct LineTokens {
    pub group: Option<String>,
    pub name: String,
    pub params: Option<String>,
    pub value: String,
}

impl View for LineTokens {
    type V = Tokens;

    open spec fn view(&self) -> Tokens {
        Tokens {
            group: crate::text::opt_text(self.group),
            name: self.name@,
            params: crate::text::opt_text(self.params),
            value: self.value@,
        }
    }
}

/// The view of an optional `LineTokens`.
pub open spec fn opt_tokens(t: Option<LineTokens>) -> Option<Tokens> {
    match t {
        Some(x) => Some(x@),
        None => None,
    }
}

fn find_last_dot(v: &Vec<char>, s: usize, e: usize) -> (d: Option<usize>)
    requires
        s < e <= v.len(),
    ensures
        match d {
            Some(i) => last_dot(v@, s as int, s as int, e - 2, -1) == i && s < i && i + 1 < e,
            None => last_dot(v@, s as int, s as int, e - 2, -1) == -1,
        },
{
    if e - s < 2 {
        return None;
    }
    let limit = e - 2;
    let mut best: Option<usize> = None;
    let mut i: usize = s;
    while i <= limit
        invariant
            s <= i <= limit + 2,
            limit == e - 2,
            e <= v.len(),
            match best {
                Some(b) => s < b <= limit && last_dot(v@, s as int, s as int, e - 2, -1)
                    == last_dot(v@, s as int, i as int, e - 2, b as int),
                None => last_dot(v@, s as int, s as int, e - 2, -1) == last_dot(
                    v@,
                    s as int,
                    i as int,
                    e - 2,
                    -1,
                ),
            },
        decreases limit + 2 - i,
    {
        let c = v[i];
        if c == '\\' {
            i += 2;
        } else {
            if c == '.' && i > s {
                best = Some(i);
            }
            i += 1;
        }
    }
    best
}

/// Splits one logical line into group, name, raw parameters and raw value.
pub fn tokenize(line: &str) -> (r: Option<LineTokens>)
    ensures
        opt_tokens(r) == tokenize_spec(line@),
{
    let v = chars_of(line);
    let n = v.len();
    let mut s: usize = 0;
    while s < n
        invariant
            s <= n,
            n == v.len(),
            v@ == line@,
            match_start(v@, 0) == match_start(v@, s as int),
        decreases n - s,
    {
        let e = find_unescaped(&v, ';', ':', s);
        let colon = find_unescaped(&v, ':', ':', e);
        if s < e && e < n && colon < n && colon != e + 1 {
            assert(matches_at(v@, s as int));
            let d = find_last_dot(&v, s, e);
            let (group, name_from) = match d {
                Some(i) => {
                    let t = trim_end_index(&v, s, i + 1, '.');
                    (Some(text_of(&v, s, t)), i + 1)
                },
                None => (None, s),
            };
            let name_start = trim_start_index(&v, name_from, e, '\0');
            let name_end = trim_end_index(&v, name_start, e, '\0');
            let params = if e < colon {
                Some(text_of(&v, e, colon))
            } else {
                None
            };
            return Some(
                LineTokens {
                    group,
                    name: text_of(&v, name_start, name_end),
                    params,
                    value: text_of(&v, colon + 1, n),
                },
            );
        }
        assert(!matches_at(v@, s as int));
        if e < n {
            s = e + 1;
        } else {
            return None;
        }
    }
    None
}

/// The parameters that the segments spell, or the error of the first segment that spells
/// none.
pub open spec fn decode_segments(segs: Seq<Seq<char>>) -> Result<Seq<ParameterView>, ErrorView>
    decreases segs.len(),
{
    if segs.len() == 0 {
        Ok(Seq::empty())
    } else {
        match crate::parameter::parameter_of(segs[0]) {
            Err(e) => Err(e),
            Ok(p) => prepend(seq![p], decode_segments(segs.skip(1))),
        }
    }
}

/// `r` with `head` put before what it holds, if it holds parameters.
pub open spec fn prepend(head: Seq<ParameterView>, r: Result<Seq<ParameterView>, ErrorView>)
    -> Result<Seq<ParameterView>, ErrorView> {
    match r {
        Ok(rest) => Ok(head + rest),
        Err(e) => Err(e),
    }
}

/// The parameters that the raw text `raw` spells. Semicolons at its start are dropped
/// first. What is left falls into segments at each unescaped semicolon, the escapes kept;
/// each segment is then decoded in turn.
pub open spec fn parameters_of(raw: Seq<char>) -> Result<Seq<ParameterView>, ErrorView> {
    decode_segments(raw_split(trim_start(raw, ';'), ';'))
}

/// What decoding a list of parameters produced, as mathematical values.
pub open spec fn outcome_params(r: Result<Vec<Parameter>, VCardError>) -> Result<
    Seq<ParameterView>,
    ErrorView,
> {
    match r {
        Ok(ps) => Ok(parameter_views(ps@)),
        Err(e) => Err(e@),
    }
}

/// The views of a list with one more parameter.
pub proof fn lemma_views_push(ps: Seq<Parameter>, p: Parameter)
    ensures
        parameter_views(ps.push(p)) == parameter_views(ps).push(p@),
{
    assert(parameter_views(ps.push(p)) =~= parameter_views(ps).push(p@));
}

/// The views of no parameters.
pub proof fn lemma_views_empty()
    ensures
        parameter_views(Seq::<Parameter>::empty()) == Seq::<ParameterView>::empty(),
{
    assert(parameter_views(Seq::<Parameter>::empty()) =~= Seq::<ParameterView>::empty());
}

/// Decodes the raw parameters of a content line.
pub fn parse_parameters(raw: &str) -> (r: Result<Vec<Parameter>, VCardError>)
    ensures
        outcome_params(r) == parameters_of(raw@),
{
    let v = chars_of(raw);
    let f = trim_start_index(&v, 0, v.len(), ';');
    assert(v@.subrange(0, v.len() as int) =~= v@);
    let trimmed = text_of(&v, f, v.len());
    let segments = split_unescaped(trimmed.as_str(), ';');
    let ghost all = texts(segments@);
    let mut out: Vec<Parameter> = Vec::new();
    let mut i: usize = 0;
    proof {
        lemma_views_empty();
        assert(all.skip(0) =~= all);
        match decode_segments(all) {
            Ok(ps) => {
                assert(Seq::<ParameterView>::empty() + ps =~= ps);
            },
            Err(_) => {},
        }
    }
    while i < segments.len()
        invariant
            i <= segments.len(),
            all == texts(segments@),
            parameters_of(raw@) == prepend(parameter_views(out@), decode_segments(all.skip(i as int))),
        decreases segments.len() - i,
    {
        let ghost rest = all.skip(i as int);
        proof {
            assert(rest[0] == segments@[i as int]@);
            assert(rest.skip(1) =~= all.skip(i + 1));
        }
        match Parameter::from_str(segments[i].as_str()) {
            Ok(p) => {
                proof {
                    lemma_views_push(out@, p);
                    match decode_segments(all.skip(i + 1)) {
                        Ok(tail) => {
                            assert(parameter_views(out@) + (seq![p@] + tail) =~= parameter_views(
                                out@,
                            ).push(p@) + tail);
                        },
                        Err(_) => {},
                    }
                }
                out.push(p);
            },
            Err(e) => {
                return Err(e);
            },
        }
        i += 1;
    }
    proof {
        assert(all.skip(all.len() as int) =~= Seq::<Seq<char>>::empty());
        assert(parameter_views(out@) + Seq::<ParameterView>::empty() =~= parameter_views(out@));
    }
    Ok(out)
}

/// The pieces of `s` between unescaped occurrences of `sep`, with every escape left as it
/// is written: a backslash and the character after it stay together in their piece.
pub open spec fn raw_split_from(s: Seq<char>, sep: char, i: int, start: int) -> Seq<Seq<char>>
    decreases s.len() - i,
{
    if i >= s.len() {
        seq![s.subrange(start, s.len() as int)]
    } else if s[i] == '\\' {
        if i + 1 >= s.len() {
            seq![s.subrange(start, s.len() as int)]
        } else {
            raw_split_from(s, sep, i + 2, start)
        }
    } else if s[i] == sep {
        seq![s.subrange(start, i)] + raw_split_from(s, sep, i + 1, i + 1)
    } else {
        raw_split_from(s, sep, i + 1, start)
    }
}

/// The pieces of `s` between unescaped occurrences of `sep`, escapes kept.
pub open spec fn raw_split(s: Seq<char>, sep: char) -> Seq<Seq<char>> {
    raw_split_from(s, sep, 0, 0)
}

/// Splits `item` at each unescaped `sep` and keeps the escapes in the pieces.
pub fn split_unescaped(item: &str, sep: char) -> (out: Vec<String>)
    ensures
        texts(out@) == raw_split(item@, sep),
{
    let v = chars_of(item);
    let n = v.len();
    let mut out: Vec<String> = Vec::new();
    let mut start: usize = 0;
    let mut i: usize = 0;
    proof {
        lemma_texts_empty();
    }
    while i < n
        invariant
            start <= i <= n,
            n == v.len(),
            v@ == item@,
            raw_split(item@, sep) == texts(out@) + raw_split_from(v@, sep, i as int, start as int),
        decreases n - i,
    {
        let c = v[i];
        if c == '\\' {
            if i + 1 < n {
                i += 2;
            } else {
                i += 1;
            }
        } else if c == sep {
            let piece = text_of(&v, start, i);
            proof {
                lemma_texts_push(out@, piece);
                assert(texts(out@).push(piece@) + raw_split_from(v@, sep, i + 1, i + 1) =~= texts(
                    out@,
                ) + (seq![piece@] + raw_split_from(v@, sep, i + 1, i + 1)));
            }
            out.push(piece);
            start = i + 1;
            i += 1;
        } else {
            i += 1;
        }
    }
    let piece = text_of(&v, start, n);
    proof {
        lemma_texts_push(out@, piece);
        assert(texts(out@).push(piece@) =~= texts(out@) + seq![piece@]);
    }
    out.push(piece);
    out
}

} // verus!
