//! What holds of the library as a whole, proved from the contracts of its parts.

use crate::card::{fold_property, is_single, single_name, VCardView};
use crate::containers::{alt_of, group_add, is_preferred, rank_in, same_alt_id};
use crate::errors::ErrorView;
use crate::model::{PropertyKind, PropertyView};
use crate::reader::{
    continue_line, inspect, is_blank, is_fold, lemma_scan_line, lemma_scan_line_plain,
    lemma_skip_line, logical_line, next_line, next_property, scan_line, skip_line, LineEnd,
    LineInspection, LineOutcome, LineScan, ReaderView,
};
use crate::inverse::{law_decode_written, line_text, writable};
use crate::reader::{after_inspect, after_line};
use crate::wire::serialize;
use vstd::prelude::*;
use vstd::utf8::{
    encode_utf8, encode_utf8_decode_utf8, encode_utf8_valid_utf8, is_ascii_chars,
    is_ascii_chars_encode_utf8,
};

verus! {

/// An empty group takes any property. A group of one takes a second property exactly if
/// the two have the same alt-id, where a missing alt-id is the empty one; the second then
/// stands behind the first. A mismatch is an error that names both alt-ids.
pub proof fn law_alt_id(a: PropertyView, b: PropertyView)
    ensures
        group_add(Seq::empty(), a) == Ok::<Seq<PropertyView>, ErrorView>(seq![a]),
        alt_of(a) == alt_of(b) ==> group_add(seq![a], b) == Ok::<Seq<PropertyView>, ErrorView>(
            seq![a, b],
        ),
        alt_of(a) != alt_of(b) ==> group_add(seq![a], b) == Err::<Seq<PropertyView>, ErrorView>(
            ErrorView::InvalidAltID { expected_altid: alt_of(a), actual_altid: alt_of(b) },
        ),
{
    assert(Seq::<PropertyView>::empty().push(a) =~= seq![a]);
    assert(seq![a].push(b) =~= seq![a, b]);
}

/// Whatever a group takes is added at its end: the members before stay where they were.
/// A group whose members share their alt-id keeps doing so.
pub proof fn law_group_keeps_order(g: Seq<PropertyView>, p: PropertyView)
    requires
        group_add(g, p) is Ok,
    ensures
        group_add(g, p)->Ok_0.len() == g.len() + 1,
        forall|i: int| 0 <= i < g.len() ==> group_add(g, p)->Ok_0[i] == g[i],
        group_add(g, p)->Ok_0[g.len() as int] == p,
        same_alt_id(g) ==> same_alt_id(group_add(g, p)->Ok_0),
{
    let r = group_add(g, p)->Ok_0;
    if same_alt_id(g) {
        assert forall|i: int| 0 <= i < r.len() implies alt_of(#[trigger] r[i]) == alt_of(r[0]) by {
            if i < g.len() {
                assert(r[i] == g[i]);
            }
        }
    }
}

/// Among members with the ranks 10, 50 and none, the preferred one is the member with
/// rank 10, wherever it stands: a missing rank counts as 100.
pub proof fn law_preference(g: Seq<PropertyView>, p: PropertyView)
    requires
        g.len() == 3,
        exists|i: int| 0 <= i < 3 && g[i].fields.pref == Some(10u8),
        exists|i: int| 0 <= i < 3 && g[i].fields.pref == Some(50u8),
        exists|i: int| 0 <= i < 3 && g[i].fields.pref == None::<u8>,
        is_preferred(g, p),
    ensures
        p.fields.pref == Some(10u8),
{
    let i = choose|i: int| 0 <= i < 3 && g[i].fields.pref == Some(10u8);
    let j = choose|j: int| 0 <= j < 3 && #[trigger] g[j] == p;
    assert(rank_in(p) <= rank_in(g[i]));
    assert(rank_in(g[0]) >= 10 && rank_in(g[1]) >= 10 && rank_in(g[2]) >= 10);
}

/// A card takes a property that may occur once only once: after one was folded in, a
/// second of its kind is a cardinality error, whatever else the card holds.
pub proof fn law_single_occurs_once(c: VCardView, p: PropertyView, q: PropertyView, more: bool)
    requires
        is_single(p.kind),
        q.kind == p.kind,
        fold_property(c, p, more) is Ok,
    ensures
        fold_property(fold_property(c, p, more)->Ok_0.0, q, more) == Err::<
            (VCardView, bool),
            ErrorView,
        >(ErrorView::InvalidCardinality { expected: 1, property: single_name(p.kind) }),
{
}

/// Inside a card, every `VERSION` and every `BEGIN` is one too many: the card was opened
/// by one of each.
pub proof fn law_version_and_begin_occur_once(c: VCardView, p: PropertyView, more: bool)
    ensures
        p.kind == PropertyKind::Version ==> fold_property(c, p, more) == Err::<
            (VCardView, bool),
            ErrorView,
        >(ErrorView::InvalidCardinality { expected: 1, property: "VERSION"@ }),
        p.kind == PropertyKind::Begin ==> fold_property(c, p, more) == Err::<
            (VCardView, bool),
            ErrorView,
        >(ErrorView::InvalidCardinality { expected: 1, property: "BEGIN"@ }),
{
}

/// Whether no byte of `s` is a carriage return.
pub open spec fn no_carriage_return(s: Seq<u8>) -> bool {
    forall|i: int| 0 <= i < s.len() ==> #[trigger] s[i] != 13
}

/// The two bytes of a line break.
pub open spec fn line_break() -> Seq<u8> {
    seq![13u8, 10u8]
}

/// A physical line is read into the buffer exactly if the buffer then holds no more than
/// the allowed number of bytes: at the limit it is read, one byte above it the reading fails
/// for length.
pub proof fn law_line_limit(content: Seq<u8>, rest: Seq<u8>, buf: Seq<u8>, max: u64)
    requires
        no_carriage_return(content),
    ensures
        buf.len() + content.len() <= max ==> scan_line(content + line_break() + rest, buf, max)
            == (LineScan { end: LineEnd::Complete, buf: buf + content, rest }),
        buf.len() + content.len() > max ==> scan_line(
            content + line_break() + rest,
            buf,
            max,
        ).end is TooLong,
    decreases content.len(),
{
    let input = content + line_break() + rest;
    if buf.len() > max {
    } else if content.len() == 0 {
        assert(input[0] == 13 && input[1] == 10);
        assert(input.skip(2) =~= rest);
        assert(buf + content =~= buf);
    } else {
        assert(input[0] == content[0]);
        assert(input.skip(1) =~= content.skip(1) + line_break() + rest);
        assert(buf.push(content[0]) + content.skip(1) =~= buf + content);
        law_line_limit(content.skip(1), rest, buf.push(content[0]), max);
    }
}

/// What follows the first physical line of a folded line: for each further piece a fold
/// mark, the piece, and a line break.
pub open spec fn continuation(pieces: Seq<Seq<u8>>, marks: Seq<u8>) -> Seq<u8>
    decreases pieces.len(),
{
    if pieces.len() == 0 {
        Seq::empty()
    } else {
        seq![marks[0]] + pieces[0] + line_break() + continuation(pieces.skip(1), marks.skip(1))
    }
}

/// The pieces, one after the other.
pub open spec fn joined(pieces: Seq<Seq<u8>>) -> Seq<u8>
    decreases pieces.len(),
{
    if pieces.len() == 0 {
        Seq::empty()
    } else {
        pieces[0] + joined(pieces.skip(1))
    }
}

/// A logical line on the wire, folded: its first piece on a physical line of its own, each
/// further piece on a physical line that begins with a fold mark.
pub open spec fn folded(first: Seq<u8>, pieces: Seq<Seq<u8>>, marks: Seq<u8>) -> Seq<u8> {
    first + line_break() + continuation(pieces, marks)
}

/// The same logical line on the wire, on one physical line.
pub open spec fn unfolded(first: Seq<u8>, pieces: Seq<Seq<u8>>) -> Seq<u8> {
    first + joined(pieces) + line_break()
}

/// Whether the pieces can be folded: there is a fold mark for each, and each piece is free
/// of carriage returns and begins with a byte that is not blank.
pub open spec fn foldable(pieces: Seq<Seq<u8>>, marks: Seq<u8>) -> bool {
    &&& marks.len() == pieces.len()
    &&& forall|i: int| 0 <= i < marks.len() ==> is_fold(#[trigger] marks[i])
    &&& forall|i: int|
        0 <= i < pieces.len() ==> no_carriage_return(#[trigger] pieces[i]) && pieces[i].len() > 0
            && !is_blank(pieces[i][0])
}

proof fn lemma_joined(pieces: Seq<Seq<u8>>)
    requires
        forall|i: int| 0 <= i < pieces.len() ==> no_carriage_return(#[trigger] pieces[i]),
    ensures
        no_carriage_return(joined(pieces)),
    decreases pieces.len(),
{
    if pieces.len() > 0 {
        let tail = pieces.skip(1);
        assert forall|i: int| 0 <= i < tail.len() implies no_carriage_return(
            #[trigger] tail[i],
        ) by {
            assert(tail[i] == pieces[i + 1]);
        }
        lemma_joined(tail);
        assert forall|i: int| 0 <= i < joined(pieces).len() implies #[trigger] joined(pieces)[i]
            != 13 by {
            if i < pieces[0].len() {
                assert(joined(pieces)[i] == pieces[0][i]);
            } else {
                assert(joined(pieces)[i] == joined(tail)[i - pieces[0].len()]);
            }
        }
    }
}

proof fn lemma_continuation(
    pieces: Seq<Seq<u8>>,
    marks: Seq<u8>,
    rest: Seq<u8>,
    buf: Seq<u8>,
    max: u64,
)
    requires
        foldable(pieces, marks),
        buf.len() <= max,
    ensures
        buf.len() + joined(pieces).len() <= max ==> continue_line(
            continuation(pieces, marks) + rest,
            buf,
            max,
        ) == continue_line(rest, buf + joined(pieces), max),
        buf.len() + joined(pieces).len() > max ==> continue_line(
            continuation(pieces, marks) + rest,
            buf,
            max,
        ).outcome is TooLong,
    decreases pieces.len(),
{
    if pieces.len() == 0 {
        assert(continuation(pieces, marks) + rest =~= rest);
        assert(buf + joined(pieces) =~= buf);
    } else {
        let tail = pieces.skip(1);
        let tail_marks = marks.skip(1);
        let after = continuation(tail, tail_marks) + rest;
        let input = continuation(pieces, marks) + rest;
        assert(input =~= seq![marks[0]] + (pieces[0] + line_break() + after));
        assert(input[0] == marks[0]);
        assert(input[1] == pieces[0][0]);
        assert(inspect(input) == LineInspection::LogicalLine);
        assert(input.skip(1) =~= pieces[0] + line_break() + after);
        law_line_limit(pieces[0], after, buf, max);
        assert(joined(pieces).len() == pieces[0].len() + joined(tail).len());
        if buf.len() + pieces[0].len() <= max {
            assert forall|i: int| 0 <= i < tail.len() implies no_carriage_return(
                #[trigger] tail[i],
            ) && tail[i].len() > 0 && !is_blank(tail[i][0]) by {
                assert(tail[i] == pieces[i + 1]);
            }
            assert forall|i: int| 0 <= i < tail_marks.len() implies is_fold(
                #[trigger] tail_marks[i],
            ) by {
                assert(tail_marks[i] == marks[i + 1]);
            }
            lemma_continuation(tail, tail_marks, rest, buf + pieces[0], max);
            assert((buf + pieces[0]) + joined(tail) =~= buf + joined(pieces));
        }
    }
}

/// Folding changes nothing: a logical line that is folded into any number of physical
/// lines, each continuation marked by one space or tab, is read as the same line written
/// on one physical line: the same bytes and the same word on whether content follows, or
/// for both the failure for length. What is left of the source is the same too.
pub proof fn law_folding(
    first: Seq<u8>,
    pieces: Seq<Seq<u8>>,
    marks: Seq<u8>,
    rest: Seq<u8>,
    max: u64,
)
    requires
        no_carriage_return(first),
        foldable(pieces, marks),
        inspect(rest) is NoMoreContent || inspect(rest) is NewProperty,
    ensures
        logical_line(folded(first, pieces, marks) + rest, max).outcome == logical_line(
            unfolded(first, pieces) + rest,
            max,
        ).outcome,
        first.len() + joined(pieces).len() <= max ==> logical_line(
            folded(first, pieces, marks) + rest,
            max,
        ) == logical_line(unfolded(first, pieces) + rest, max) && logical_line(
            unfolded(first, pieces) + rest,
            max,
        ).outcome == (LineOutcome::Line {
            bytes: first + joined(pieces),
            more: inspect(rest) is NewProperty,
        }),
        first.len() + joined(pieces).len() > max ==> logical_line(
            unfolded(first, pieces) + rest,
            max,
        ).outcome is TooLong,
{
    let empty = Seq::<u8>::empty();
    let after = continuation(pieces, marks) + rest;
    assert(folded(first, pieces, marks) + rest =~= first + line_break() + after);
    law_line_limit(first, after, empty, max);
    assert(empty + first =~= first);
    let whole = first + joined(pieces);
    lemma_joined(pieces);
    assert(no_carriage_return(whole)) by {
        assert forall|i: int| 0 <= i < whole.len() implies #[trigger] whole[i] != 13 by {
            if i < first.len() {
                assert(whole[i] == first[i]);
            } else {
                assert(whole[i] == joined(pieces)[i - first.len()]);
            }
        }
    }
    assert(unfolded(first, pieces) + rest =~= whole + line_break() + rest);
    law_line_limit(whole, rest, empty, max);
    assert(empty + whole =~= whole);
    if first.len() <= max {
        lemma_continuation(pieces, marks, rest, first, max);
    }
}

/// Folding changes nothing of what is decoded: the folded line gives the property, or the
/// error, that the line on one physical line gives.
pub proof fn law_folded_property(
    first: Seq<u8>,
    pieces: Seq<Seq<u8>>,
    marks: Seq<u8>,
    rest: Seq<u8>,
    max: u64,
)
    requires
        no_carriage_return(first),
        foldable(pieces, marks),
        inspect(rest) is NoMoreContent || inspect(rest) is NewProperty,
    ensures
        next_property(
            ReaderView { input: folded(first, pieces, marks) + rest, max },
        ) == next_property(ReaderView { input: unfolded(first, pieces) + rest, max }),
{
    law_folding(first, pieces, marks, rest, max);
}

/// A logical line is read exactly if it holds no more than the allowed number of bytes,
/// folded or not: at the limit it is read whole, one byte above it the reading fails for
/// length.
pub proof fn law_logical_line_limit(
    first: Seq<u8>,
    pieces: Seq<Seq<u8>>,
    marks: Seq<u8>,
    rest: Seq<u8>,
    max: u64,
)
    requires
        no_carriage_return(first),
        foldable(pieces, marks),
        inspect(rest) is NoMoreContent || inspect(rest) is NewProperty,
    ensures
        first.len() + joined(pieces).len() <= max <==> logical_line(
            folded(first, pieces, marks) + rest,
            max,
        ).outcome is Line,
        first.len() + joined(pieces).len() > max <==> next_line(
            ReaderView { input: folded(first, pieces, marks) + rest, max },
        ) == Err::<(Seq<char>, bool), ErrorView>(ErrorView::MaxLineLengthExceeded(max)),
{
    law_folding(first, pieces, marks, rest, max);
}

/// The bytes of a text that is followed by another are the bytes of the one, then those of
/// the other.
pub proof fn lemma_encode_concat(a: Seq<char>, b: Seq<char>)
    ensures
        encode_utf8(a + b) == encode_utf8(a) + encode_utf8(b),
    decreases a.len(),
{
    if a.len() == 0 {
        assert(a + b =~= b);
        assert(encode_utf8(a) + encode_utf8(b) =~= encode_utf8(b));
    } else {
        lemma_encode_concat(a.drop_first(), b);
        assert((a + b).drop_first() =~= a.drop_first() + b);
        assert(encode_utf8(a + b) =~= encode_utf8(a) + encode_utf8(b));
    }
}

/// The bytes of the line break of the wire text.
pub proof fn lemma_encode_line_break()
    ensures
        encode_utf8("\r\n"@) == line_break(),
{
    reveal_strlit("\r\n");
    let s = "\r\n"@;
    assert(is_ascii_chars(s));
    is_ascii_chars_encode_utf8(s);
    assert(encode_utf8(s) =~= line_break());
}

/// What is written is read back: the wire text of a plain property, given to a
/// reader that allows its length, is read and decoded as the property. The wire text must
/// hold no carriage return but that of its line break, and what follows it must not begin
/// like a continuation line.
pub proof fn law_read_written(p: PropertyView, rest: Seq<u8>, max: u64)
    requires
        writable(p),
        no_carriage_return(encode_utf8(line_text(p))),
        encode_utf8(line_text(p)).len() <= max,
        inspect(rest) is NoMoreContent || inspect(rest) is NewProperty,
    ensures
        next_property(ReaderView { input: encode_utf8(serialize(p)) + rest, max })
            == Ok::<(PropertyView, bool), ErrorView>((p, inspect(rest) is NewProperty)),
        after_line(ReaderView { input: encode_utf8(serialize(p)) + rest, max })
            == (ReaderView { input: after_inspect(rest), max }),
{
    let line = line_text(p);
    let bytes = encode_utf8(line);
    law_decode_written(p);
    lemma_encode_concat(line, "\r\n"@);
    lemma_encode_line_break();
    law_line_limit(bytes, rest, Seq::empty(), max);
    assert(Seq::<u8>::empty() + bytes =~= bytes);
    encode_utf8_valid_utf8(line);
    encode_utf8_decode_utf8(line);
}

proof fn lemma_continued_line(input: Seq<u8>, buf: Seq<u8>, max: u64)
    requires
        no_carriage_return(buf),
    ensures
        match continue_line(input, buf, max).outcome {
            LineOutcome::Line { bytes, more } => no_carriage_return(bytes) && (more ==> inspect(
                continue_line(input, buf, max).rest,
            ) is NewProperty) && (!more ==> continue_line(input, buf, max).rest.len() == 0),
            _ => true,
        },
    decreases input.len(),
{
    match inspect(input) {
        LineInspection::Discard => {
            lemma_skip_line(input);
            match skip_line(input) {
                Some(rest) => {
                    lemma_continued_line(rest, buf, max);
                },
                None => {},
            }
        },
        LineInspection::LogicalLine => {
            let s = scan_line(input.skip(1), buf, max);
            lemma_scan_line(input.skip(1), buf, max);
            lemma_scan_line_plain(input.skip(1), buf, max);
            if s.end is Complete {
                lemma_continued_line(s.rest, s.buf, max);
            }
        },
        _ => {},
    }
}

/// A logical line that is read holds no carriage return, so no line break is left in it.
/// If content follows it, what is left of the source begins with the next property,
/// unread; if none follows, nothing is left of the source.
pub proof fn law_line_end(input: Seq<u8>, max: u64)
    ensures
        match logical_line(input, max).outcome {
            LineOutcome::Line { bytes, more } => no_carriage_return(bytes) && (more ==> inspect(
                logical_line(input, max).rest,
            ) is NewProperty) && (!more ==> logical_line(input, max).rest.len() == 0),
            _ => true,
        },
{
    let none = Seq::<u8>::empty();
    let s = scan_line(input, none, max);
    lemma_scan_line_plain(input, none, max);
    lemma_continued_line(s.rest, s.buf, max);
}

/// Lines that are thrown away never count: a logical line is read whatever the length of
/// the malformed continuation lines between its physical lines.
pub proof fn law_discard_is_free(junk: Seq<u8>, rest: Seq<u8>, buf: Seq<u8>, max: u64)
    requires
        junk.len() >= 2,
        is_fold(junk[0]),
        is_blank(junk[1]),
        no_carriage_return(junk),
    ensures
        continue_line(junk + line_break() + rest, buf, max) == continue_line(rest, buf, max),
{
    let input = junk + line_break() + rest;
    assert(input[0] == junk[0]);
    assert(input[1] == junk[1]);
    assert(inspect(input) is Discard);
    lemma_skip_plain(junk, rest);
}

proof fn lemma_skip_plain(junk: Seq<u8>, rest: Seq<u8>)
    requires
        no_carriage_return(junk),
    ensures
        skip_line(junk + line_break() + rest) == Some(rest),
    decreases junk.len(),
{
    let input = junk + line_break() + rest;
    if junk.len() == 0 {
        assert(input[0] == 13 && input[1] == 10);
        assert(input.skip(2) =~= rest);
    } else {
        assert(input[0] == junk[0]);
        assert(input.skip(1) =~= junk.skip(1) + line_break() + rest);
        lemma_skip_plain(junk.skip(1), rest);
    }
}

} // verus!
