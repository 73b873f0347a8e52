//! Character-level building blocks shared by the decoder and the encoder.

use vstd::prelude::*;
use vstd::string::*;
use vstd::utf8::is_ascii_chars;

verus! {

/// `String::push` of the standard library: the character is appended to the text.
pub assume_specification[ String::push ](s: &mut String, c: char)
    ensures
        final(s)@ == old(s)@.push(c),
;

/// The texts held by a sequence of strings.
pub open spec fn texts(v: Seq<String>) -> Seq<Seq<char>> {
    v.map_values(|s: String| s@)
}

/// The texts of an optional list of strings.
pub open spec fn opt_texts(v: Option<Vec<String>>) -> Option<Seq<Seq<char>>> {
    match v {
        Some(l) => Some(texts(l@)),
        None => None,
    }
}

/// The text of an optional string.
pub open spec fn opt_text(v: Option<String>) -> Option<Seq<char>> {
    match v {
        Some(s) => Some(s@),
        None => None,
    }
}

/// The texts of a list with one more string.
pub proof fn lemma_texts_push(v: Seq<String>, s: String)
    ensures
        texts(v.push(s)) == texts(v).push(s@),
{
    assert(texts(v.push(s)) =~= texts(v).push(s@));
}

/// The texts of no strings.
pub proof fn lemma_texts_empty()
    ensures
        texts(Seq::<String>::empty()) == Seq::<Seq<char>>::empty(),
{
    assert(texts(Seq::<String>::empty()) =~= Seq::<Seq<char>>::empty());
}

/// The characters of `s`, in order.
pub fn chars_of(s: &str) -> (v: Vec<char>)
    ensures
        v@ == s@,
{
    let mut v: Vec<char> = Vec::new();
    for c in it: s.chars()
        invariant
            v@ == it.seq().take(it.index()),
            it.seq() == s@,
    {
        v.push(c);
    }
    v
}

/// The text made of `v[from..to]`.
pub fn text_of(v: &Vec<char>, from: usize, to: usize) -> (s: String)
    requires
        from <= to <= v.len(),
    ensures
        s@ == v@.subrange(from as int, to as int),
{
    let mut s = String::new();
    let mut i: usize = from;
    while i < to
        invariant
            from <= i <= to <= v.len(),
            s@ == v@.subrange(from as int, i as int),
        decreases to - i,
    {
        s.push(v[i]);
        i += 1;
        assert(v@.subrange(from as int, i as int) =~= v@.subrange(from as int, i - 1).push(
            v@[i - 1],
        ));
    }
    s
}

/// Whether `v` spells exactly the text `lit`.
pub fn is_text(v: &Vec<char>, lit: &str) -> (b: bool)
    ensures
        b == (v@ == lit@),
{
    let w = chars_of(lit);
    if v.len() != w.len() {
        return false;
    }
    let mut i: usize = 0;
    while i < v.len()
        invariant
            i <= v.len(),
            v.len() == w.len(),
            w@ == lit@,
            forall|j: int| 0 <= j < i ==> v@[j] == w@[j],
        decreases v.len() - i,
    {
        if v[i] != w[i] {
            return false;
        }
        i += 1;
    }
    assert(v@ =~= w@);
    true
}

/// Whether `a` and `b` are the same text.
pub fn same_text(a: &str, b: &str) -> (r: bool)
    ensures
        r == (a@ == b@),
{
    let v = chars_of(a);
    is_text(&v, b)
}

/// The lower-case form of an ASCII capital; every other character is itself.
pub open spec fn lower_char(c: char) -> char {
    if 'A' <= c && c <= 'Z' {
        ((c as u8) + 32) as char
    } else {
        c
    }
}

/// `s` with every ASCII capital replaced by its lower-case form.
pub open spec fn lower_text(s: Seq<char>) -> Seq<char> {
    s.map_values(|c: char| lower_char(c))
}

/// What `str::to_lowercase` of the standard library makes of the text `s`.
pub uninterp spec fn unicode_lower(s: Seq<char>) -> Seq<char>;

/// `str::to_lowercase` of the standard library: the lower-case form of a text by the rules
/// of Unicode. The result is a function of the text alone; nothing more is claimed of it.
#[verifier::external_body]
pub(crate) fn to_lowercase(s: &str) -> (r: String)
    ensures
        r@ == unicode_lower(s@),
{
    s.to_lowercase()
}

/// The form of `s` under which names are compared without regard to case: for a text of
/// ASCII characters, the text with its capitals lowered; for any other text, what the
/// standard library's lower-casing makes of it.
pub open spec fn fold_case(s: Seq<char>) -> Seq<char> {
    if is_ascii_chars(s) {
        lower_text(s)
    } else {
        unicode_lower(s)
    }
}

/// The lower-case form of `c`, if it is an ASCII capital; else `c`.
pub fn to_lower(c: char) -> (r: char)
    ensures
        r == lower_char(c),
{
    if 'A' <= c && c <= 'Z' {
        ((c as u8) + 32) as char
    } else {
        c
    }
}

/// The lower-case form of `v[from..to]`.
pub fn lower_of(v: &Vec<char>, from: usize, to: usize) -> (r: Vec<char>)
    requires
        from <= to <= v.len(),
    ensures
        r@ == lower_text(v@.subrange(from as int, to as int)),
{
    let mut r: Vec<char> = Vec::new();
    let mut i: usize = from;
    while i < to
        invariant
            from <= i <= to <= v.len(),
            r@ == lower_text(v@.subrange(from as int, i as int)),
        decreases to - i,
    {
        r.push(to_lower(v[i]));
        i += 1;
        assert(lower_text(v@.subrange(from as int, i as int)) =~= lower_text(
            v@.subrange(from as int, i - 1),
        ).push(lower_char(v@[i - 1])));
    }
    assert(v@.subrange(from as int, to as int) =~= v@.subrange(from as int, i as int));
    r
}

/// The characters of `s` in the form under which names are compared.
pub fn fold(s: &str) -> (r: Vec<char>)
    ensures
        r@ == fold_case(s@),
{
    if s.is_ascii() {
        let v = chars_of(s);
        assert(v@.subrange(0, v.len() as int) =~= v@);
        lower_of(&v, 0, v.len())
    } else {
        let lowered = to_lowercase(s);
        chars_of(lowered.as_str())
    }
}

/// The first index at or after `from` that holds `a` or `b`; the length of `s` if there is
/// none.
pub open spec fn next_of(s: Seq<char>, a: char, b: char, from: int) -> int
    decreases s.len() - from,
{
    if from >= s.len() {
        s.len() as int
    } else if s[from] == a || s[from] == b {
        from
    } else {
        next_of(s, a, b, from + 1)
    }
}

/// An index `i` that has the three properties of `next_of` is `next_of`.
pub proof fn lemma_next_of_is(s: Seq<char>, a: char, b: char, from: int, i: int)
    requires
        0 <= from <= i <= s.len(),
        i < s.len() ==> (s[i] == a || s[i] == b),
        forall|j: int| from <= j < i ==> s[j] != a && s[j] != b,
    ensures
        next_of(s, a, b, from) == i,
    decreases s.len() - from,
{
    if from < i {
        lemma_next_of_is(s, a, b, from + 1, i);
    }
}

/// The first index at or after `from` that holds `a` or `b`; the length if there is none.
pub fn find_next(v: &Vec<char>, a: char, b: char, from: usize) -> (i: usize)
    requires
        from <= v.len(),
    ensures
        i == next_of(v@, a, b, from as int),
        from <= i <= v.len(),
{
    let mut i: usize = from;
    while i < v.len() && v[i] != a && v[i] != b
        invariant
            from <= i <= v.len(),
            next_of(v@, a, b, from as int) == next_of(v@, a, b, i as int),
        decreases v.len() - i,
    {
        i += 1;
    }
    i
}

/// The first index at or after `from` that holds `a` or `b` and is not escaped; the length
/// of `s` if there is none. A backslash escapes the character after it, so the two are
/// passed over together; neither `a` nor `b` is meant to be a backslash.
pub open spec fn next_unescaped(s: Seq<char>, a: char, b: char, from: int) -> int
    decreases s.len() - from,
{
    if from >= s.len() {
        s.len() as int
    } else if s[from] == '\\' {
        if from + 1 >= s.len() {
            s.len() as int
        } else {
            next_unescaped(s, a, b, from + 2)
        }
    } else if s[from] == a || s[from] == b {
        from
    } else {
        next_unescaped(s, a, b, from + 1)
    }
}

/// What the index that `next_unescaped` returns says of the text.
pub proof fn lemma_next_unescaped(s: Seq<char>, a: char, b: char, from: int)
    requires
        0 <= from <= s.len(),
    ensures
        from <= next_unescaped(s, a, b, from) <= s.len(),
        next_unescaped(s, a, b, from) < s.len() ==> (s[next_unescaped(s, a, b, from)] == a
            || s[next_unescaped(s, a, b, from)] == b),
    decreases s.len() - from,
{
    if from < s.len() {
        if s[from] == '\\' {
            if from + 1 < s.len() {
                lemma_next_unescaped(s, a, b, from + 2);
            }
        } else if !(s[from] == a || s[from] == b) {
            lemma_next_unescaped(s, a, b, from + 1);
        }
    }
}

/// The first index at or after `from` that holds `a` or `b` and is not escaped; the length
/// if there is none.
pub fn find_unescaped(v: &Vec<char>, a: char, b: char, from: usize) -> (i: usize)
    requires
        from <= v.len(),
    ensures
        i == next_unescaped(v@, a, b, from as int),
        from <= i <= v.len(),
{
    let n = v.len();
    let mut i: usize = from;
    while i < n
        invariant
            from <= i <= n,
            n == v.len(),
            next_unescaped(v@, a, b, from as int) == next_unescaped(v@, a, b, i as int),
        decreases n - i,
    {
        let c = v[i];
        if c == '\\' {
            if i + 1 >= n {
                return n;
            }
            i += 2;
        } else if c == a || c == b {
            return i;
        } else {
            i += 1;
        }
    }
    i
}

/// The pieces of `s[start..]` between occurrences of `sep`, given that no separator lies in
/// `s[start..i]`. With `i` and `start` both 0 these are the pieces of `s`; there is always
/// at least one.
pub open spec fn split_from(s: Seq<char>, sep: char, i: int, start: int) -> Seq<Seq<char>>
    decreases s.len() - i,
{
    if i >= s.len() {
        seq![s.subrange(start, s.len() as int)]
    } else if s[i] == sep {
        seq![s.subrange(start, i)] + split_from(s, sep, i + 1, i + 1)
    } else {
        split_from(s, sep, i + 1, start)
    }
}

/// The pieces of `s` between occurrences of `sep`.
pub open spec fn split(s: Seq<char>, sep: char) -> Seq<Seq<char>> {
    split_from(s, sep, 0, 0)
}

/// The pieces of `v[from..to]` between occurrences of `sep`.
pub fn split_text(v: &Vec<char>, from: usize, to: usize, sep: char) -> (out: Vec<String>)
    requires
        from <= to <= v.len(),
    ensures
        texts(out@) == split(v@.subrange(from as int, to as int), sep),
{
    let ghost s = v@.subrange(from as int, to as int);
    let mut out: Vec<String> = Vec::new();
    let mut start: usize = from;
    let mut i: usize = from;
    proof {
        lemma_texts_empty();
    }
    while i < to
        invariant
            from <= start <= i <= to <= v.len(),
            s == v@.subrange(from as int, to as int),
            split(s, sep) == texts(out@) + split_from(s, sep, i - from, start - from),
        decreases to - i,
    {
        if v[i] == sep {
            let piece = text_of(v, start, i);
            proof {
                lemma_texts_push(out@, piece);
                assert(s.subrange(start - from, i - from) =~= piece@);
                assert(texts(out@).push(piece@) + split_from(s, sep, i - from + 1, i - from + 1)
                    =~= texts(out@) + (seq![piece@] + split_from(
                    s,
                    sep,
                    i - from + 1,
                    i - from + 1,
                )));
            }
            out.push(piece);
            start = i + 1;
        }
        i += 1;
    }
    let piece = text_of(v, start, to);
    proof {
        lemma_texts_push(out@, piece);
        assert(s.subrange(start - from, s.len() as int) =~= piece@);
        assert(texts(out@).push(piece@) =~= texts(out@) + seq![piece@]);
    }
    out.push(piece);
    out
}

/// The pieces of `s` between separators, where a backslash takes the character after it into
/// the piece as it is and is itself left out. `buf` is the piece begun so far.
pub open spec fn escaped_split_from(s: Seq<char>, sep: char, i: int, buf: Seq<char>) -> Seq<
    Seq<char>,
>
    decreases s.len() - i,
{
    if i >= s.len() {
        seq![buf]
    } else if s[i] == '\\' {
        if i + 1 >= s.len() {
            seq![buf]
        } else {
            escaped_split_from(s, sep, i + 2, buf.push(s[i + 1]))
        }
    } else if s[i] == sep {
        seq![buf] + escaped_split_from(s, sep, i + 1, Seq::empty())
    } else {
        escaped_split_from(s, sep, i + 1, buf.push(s[i]))
    }
}

/// The pieces of `s` between unescaped occurrences of `sep`, escapes resolved.
pub open spec fn escaped_split_spec(s: Seq<char>, sep: char) -> Seq<Seq<char>> {
    escaped_split_from(s, sep, 0, Seq::empty())
}

/// Splits `item` at each unescaped `split`. A backslash escapes the character that follows
/// it: that character joins the current piece and the backslash is dropped.
pub fn escaped_split(item: &str, split: char) -> (out: Vec<String>)
    ensures
        texts(out@) == escaped_split_spec(item@, split),
{
    let v = chars_of(item);
    let mut out: Vec<String> = Vec::new();
    let mut buf = String::new();
    let mut i: usize = 0;
    proof {
        lemma_texts_empty();
    }
    while i < v.len()
        invariant
            i <= v.len(),
            v@ == item@,
            escaped_split_spec(item@, split) == texts(out@) + escaped_split_from(
                v@,
                split,
                i as int,
                buf@,
            ),
        decreases v.len() - i,
    {
        let c = v[i];
        if c == '\\' {
            if i + 1 < v.len() {
                buf.push(v[i + 1]);
                i += 2;
            } else {
                i += 1;
            }
        } else if c == split {
            proof {
                lemma_texts_push(out@, buf);
                assert(texts(out@).push(buf@) + escaped_split_from(
                    v@,
                    split,
                    i + 1,
                    Seq::empty(),
                ) =~= texts(out@) + (seq![buf@] + escaped_split_from(
                    v@,
                    split,
                    i + 1,
                    Seq::empty(),
                )));
            }
            out.push(buf);
            buf = String::new();
            i += 1;
        } else {
            buf.push(c);
            i += 1;
        }
    }
    proof {
        lemma_texts_push(out@, buf);
        assert(texts(out@).push(buf@) =~= texts(out@) + seq![buf@]);
    }
    out.push(buf);
    out
}

/// The pieces of `parts` that are not empty, in order.
pub open spec fn non_empty(parts: Seq<Seq<char>>) -> Seq<Seq<char>>
    decreases parts.len(),
{
    if parts.len() == 0 {
        Seq::empty()
    } else if parts.last().len() > 0 {
        non_empty(parts.drop_last()).push(parts.last())
    } else {
        non_empty(parts.drop_last())
    }
}

/// Keeps a piece unless it is empty.
pub fn filter_and_transform(input: &str) -> (r: Option<String>)
    ensures
        match r {
            Some(s) => input@.len() > 0 && s@ == input@,
            None => input@.len() == 0,
        },
{
    if input.unicode_len() == 0 {
        None
    } else {
        Some(String::from_str(input))
    }
}

/// The pieces of `parts` that are not empty.
pub fn keep_non_empty(parts: Vec<String>) -> (out: Vec<String>)
    ensures
        texts(out@) == non_empty(texts(parts@)),
{
    let mut out: Vec<String> = Vec::new();
    let mut i: usize = 0;
    proof {
        lemma_texts_empty();
        assert(texts(parts@).take(0) =~= Seq::<Seq<char>>::empty());
    }
    while i < parts.len()
        invariant
            i <= parts.len(),
            texts(out@) == non_empty(texts(parts@).take(i as int)),
        decreases parts.len() - i,
    {
        let ghost before = texts(parts@).take(i as int);
        proof {
            assert(texts(parts@).take(i + 1) =~= before.push(parts@[i as int]@));
            assert(before.push(parts@[i as int]@).drop_last() =~= before);
        }
        match filter_and_transform(parts[i].as_str()) {
            Some(s) => {
                proof {
                    lemma_texts_push(out@, s);
                }
                out.push(s);
            },
            None => {},
        }
        i += 1;
    }
    assert(texts(parts@).take(parts.len() as int) =~= texts(parts@));
    out
}

/// `parts` with `sep` between each two neighbours.
pub open spec fn join(parts: Seq<Seq<char>>, sep: Seq<char>) -> Seq<char>
    decreases parts.len(),
{
    if parts.len() == 0 {
        Seq::empty()
    } else if parts.len() == 1 {
        parts[0]
    } else {
        join(parts.drop_last(), sep) + sep + parts.last()
    }
}

/// Appends to `out` the items of `parts`, separated by `sep`.
pub fn push_joined(out: &mut String, parts: &Vec<String>, sep: &str)
    ensures
        final(out)@ == old(out)@ + join(texts(parts@), sep@),
{
    let mut i: usize = 0;
    assert(texts(parts@).take(0) =~= Seq::<Seq<char>>::empty());
    assert(out@ =~= old(out)@ + join(texts(parts@).take(0), sep@));
    while i < parts.len()
        invariant
            i <= parts.len(),
            out@ == old(out)@ + join(texts(parts@).take(i as int), sep@),
        decreases parts.len() - i,
    {
        let ghost before = texts(parts@).take(i as int);
        let ghost now = texts(parts@).take(i + 1);
        proof {
            assert(now.drop_last() =~= before);
            assert(now.last() == parts@[i as int]@);
        }
        if i > 0 {
            out.append(sep);
        }
        out.append(parts[i].as_str());
        i += 1;
        assert(out@ =~= old(out)@ + join(now, sep@));
    }
    assert(texts(parts@).take(parts.len() as int) =~= texts(parts@));
}

/// The character of a decimal digit.
pub open spec fn digit_char(d: int) -> char
    recommends
        0 <= d <= 9,
{
    ((48 + d) as u8) as char
}

/// The decimal text of `n`, without leading zeros.
pub open spec fn u8_text(n: u8) -> Seq<char> {
    if n < 10 {
        seq![digit_char(n as int)]
    } else if n < 100 {
        seq![digit_char(n as int / 10), digit_char(n as int % 10)]
    } else {
        seq![digit_char(n as int / 100), digit_char((n as int / 10) % 10), digit_char(n as int % 10)]
    }
}

fn digit_of(d: u8) -> (c: char)
    requires
        d <= 9,
    ensures
        c == digit_char(d as int),
{
    (48u8 + d) as char
}

/// Appends to `out` the decimal text of `n`.
pub fn push_u8(out: &mut String, n: u8)
    ensures
        final(out)@ == old(out)@ + u8_text(n),
{
    if n >= 100 {
        out.push(digit_of(n / 100));
    }
    if n >= 10 {
        out.push(digit_of((n / 10) % 10));
    }
    out.push(digit_of(n % 10));
    assert(out@ =~= old(out)@ + u8_text(n));
}

/// Whether `c` is one of the ten decimal digits.
pub open spec fn is_digit(c: char) -> bool {
    '0' <= c && c <= '9'
}

/// The number that the decimal digits `s` spell; 0 for no digits.
pub open spec fn decimal_value(s: Seq<char>) -> nat
    decreases s.len(),
{
    if s.len() == 0 {
        0
    } else {
        (decimal_value(s.drop_last()) * 10 + ((s.last() as u8) - 48)) as nat
    }
}

/// The digits of a number text: the text without its leading plus sign, if it has one.
pub open spec fn digits_of(s: Seq<char>) -> Seq<char> {
    if s.len() > 0 && s[0] == '+' {
        s.skip(1)
    } else {
        s
    }
}

/// Whether `s` is a number from 0 to 255 in decimal: an optional plus sign, then one or more
/// digits, leading zeros allowed.
pub open spec fn is_u8_text(s: Seq<char>) -> bool {
    let d = digits_of(s);
    d.len() > 0 && (forall|i: int| 0 <= i < d.len() ==> is_digit(#[trigger] d[i]))
        && decimal_value(d) <= 255
}

/// `std::num::ParseIntError`, the error of the standard library's number parsing. It is
/// carried through as it comes; nothing is claimed of it.
#[verifier::external_type_specification]
#[verifier::external_body]
pub struct ExParseIntError(std::num::ParseIntError);

/// `std::string::FromUtf8Error`, the error of the standard library's UTF-8 decoding. It is
/// carried through as it comes; nothing is claimed of it.
#[verifier::external_type_specification]
#[verifier::external_body]
pub struct ExFromUtf8Error(std::string::FromUtf8Error);

/// `str::parse::<u8>` of the standard library. It succeeds exactly on an optional plus sign
/// followed by one or more decimal digits whose value fits in a `u8`, and returns that
/// value.
#[verifier::external_body]
pub(crate) fn parse_u8(s: &str) -> (r: Result<u8, std::num::ParseIntError>)
    ensures
        r is Ok <==> is_u8_text(s@),
        r is Ok ==> r->Ok_0 as nat == decimal_value(digits_of(s@)),
{
    s.parse::<u8>()
}

/// `String::from_utf8` of the standard library. It succeeds exactly on well-formed UTF-8
/// and returns the text that the bytes encode.
#[verifier::external_body]
pub(crate) fn text_from_utf8(bytes: Vec<u8>) -> (r: Result<String, std::string::FromUtf8Error>)
    ensures
        r is Ok <==> vstd::utf8::valid_utf8(bytes@),
        r is Ok ==> r->Ok_0@ == vstd::utf8::decode_utf8(bytes@),
{
    String::from_utf8(bytes)
}

} // verus!
