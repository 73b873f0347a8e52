//! A card that is written is read back as it was: the round trip of a whole card, for the
//! cards that the wire text can carry without loss.

use crate::card::{
    card_text, closing_text, contact_text, empty_card, fold_property, is_grouped, is_multi,
    is_single, opening_text, single_text, version_line, work_text, VCardView,
};
use crate::containers::{
    alt_of, bucket_index, group_add, lemma_bucket_index, multi_add_view, same_alt_id, well_keyed,
};
use crate::errors::ErrorView;
use crate::inverse::{law_decode_written, line_text, writable};
use crate::laws::{law_read_written, lemma_encode_concat, line_break, no_carriage_return};
use crate::model::{no_fields, Payload, PropertyKind, PropertyView, VersionValue};
use crate::reader::{
    accumulate, after_accumulate, after_line, after_parse_card, inspect, is_fold, next_property,
    parse_card, ReaderView,
};
use crate::wire::{buckets_text, lemma_append_twice, seq_text, serialize};
use vstd::prelude::*;
use vstd::utf8::{encode_utf8, is_ascii_chars, is_ascii_chars_encode_utf8};

verus! {

/// Whether `p` is a property of the body of a card: none of `BEGIN`, `VERSION`, `END`.
pub open spec fn in_body(p: PropertyView) -> bool {
    p.kind != PropertyKind::Begin && p.kind != PropertyKind::End && p.kind
        != PropertyKind::Version
}

/// Whether the wire text of `p` is read back by a reader that allows `max` bytes for a
/// line: `p` is plain, its line is short enough and holds no carriage return, and it does
/// not begin with a space or a tab.
pub open spec fn readable(p: PropertyView, max: u64) -> bool {
    &&& writable(p)
    &&& no_carriage_return(encode_utf8(line_text(p)))
    &&& encode_utf8(line_text(p)).len() <= max
    &&& !is_fold(encode_utf8(serialize(p))[0])
}

/// Whether every property of `ps` is readable and of the body of a card.
pub open spec fn all_readable(ps: Seq<PropertyView>, max: u64) -> bool {
    forall|i: int| 0 <= i < ps.len() ==> readable(#[trigger] ps[i], max) && in_body(ps[i])
}

/// The card after the properties `ps` were folded in, one after the other, each followed
/// by content.
pub open spec fn fold_all(c: VCardView, ps: Seq<PropertyView>) -> Result<VCardView, ErrorView>
    decreases ps.len(),
{
    if ps.len() == 0 {
        Ok(c)
    } else {
        match fold_property(c, ps[0], true) {
            Ok(next) => fold_all(next.0, ps.skip(1)),
            Err(e) => Err(e),
        }
    }
}

/// The wire text of a list with a property put before it.
pub proof fn lemma_seq_text_front(p: PropertyView, ps: Seq<PropertyView>)
    ensures
        seq_text(seq![p] + ps) == serialize(p) + seq_text(ps),
    decreases ps.len(),
{
    let all = seq![p] + ps;
    if ps.len() == 0 {
        assert(all.drop_last() =~= Seq::<PropertyView>::empty());
        assert(all.last() == p);
        assert(seq_text(all.drop_last()) =~= Seq::<char>::empty());
        assert(seq_text(all) =~= serialize(p));
        assert(serialize(p) + seq_text(ps) =~= serialize(p));
    } else {
        lemma_seq_text_front(p, ps.drop_last());
        assert(all.drop_last() =~= seq![p] + ps.drop_last());
        assert(all.last() == ps.last());
        lemma_append_twice(serialize(p), seq_text(ps.drop_last()), serialize(ps.last()));
    }
}

/// The wire text of two lists, one after the other.
pub proof fn lemma_seq_text_concat(a: Seq<PropertyView>, b: Seq<PropertyView>)
    ensures
        seq_text(a + b) == seq_text(a) + seq_text(b),
    decreases b.len(),
{
    if b.len() == 0 {
        assert(a + b =~= a);
        assert(seq_text(a) + seq_text(b) =~= seq_text(a));
    } else {
        lemma_seq_text_concat(a, b.drop_last());
        assert((a + b).drop_last() =~= a + b.drop_last());
        assert((a + b).last() == b.last());
        lemma_append_twice(seq_text(a), seq_text(b.drop_last()), serialize(b.last()));
    }
}

/// The wire text of a property ends in a line break, so its bytes are at least two.
proof fn lemma_wire_bytes(p: PropertyView)
    requires
        writable(p),
    ensures
        encode_utf8(serialize(p)) == encode_utf8(line_text(p)) + line_break(),
        encode_utf8(serialize(p)).len() >= 2,
{
    law_decode_written(p);
    lemma_encode_concat(line_text(p), "\r\n"@);
    crate::laws::lemma_encode_line_break();
}

/// The bytes of a list of readable properties, followed by the beginning of a property,
/// begin like a property.
proof fn lemma_list_start(ps: Seq<PropertyView>, tail: Seq<u8>, max: u64)
    requires
        all_readable(ps, max),
        inspect(tail) is NewProperty,
    ensures
        inspect(encode_utf8(seq_text(ps)) + tail) is NewProperty,
{
    let after = encode_utf8(seq_text(ps)) + tail;
    if ps.len() > 0 {
        let q = ps[0];
        assert(readable(q, max));
        assert(seq![q] + ps.skip(1) =~= ps);
        lemma_seq_text_front(q, ps.skip(1));
        lemma_encode_concat(serialize(q), seq_text(ps.skip(1)));
        lemma_wire_bytes(q);
        assert(after[0] == encode_utf8(serialize(q))[0]);
    } else {
        assert(after =~= tail);
    }
}

/// Reading the wire text of one readable property folds it into the card.
proof fn lemma_read_one(p: PropertyView, after: Seq<u8>, c: VCardView, max: u64)
    requires
        readable(p, max),
        in_body(p),
        inspect(after) is NewProperty,
        fold_property(c, p, true) is Ok,
    ensures
        accumulate(ReaderView { input: encode_utf8(serialize(p)) + after, max }, c)
            == accumulate(
            ReaderView { input: after, max },
            fold_property(c, p, true)->Ok_0.0,
        ),
        after_accumulate(ReaderView { input: encode_utf8(serialize(p)) + after, max }, c)
            == after_accumulate(
            ReaderView { input: after, max },
            fold_property(c, p, true)->Ok_0.0,
        ),
{
    law_read_written(p, after, max);
    let next = fold_property(c, p, true)->Ok_0;
    assert(next.1 == false);
}

/// Reading the wire text of a list of readable properties folds them into the card, and
/// leaves the reader at what follows the list.
pub proof fn lemma_read_list(
    ps: Seq<PropertyView>,
    tail: Seq<u8>,
    c: VCardView,
    max: u64,
)
    requires
        all_readable(ps, max),
        fold_all(c, ps) is Ok,
        inspect(tail) is NewProperty,
    ensures
        accumulate(ReaderView { input: encode_utf8(seq_text(ps)) + tail, max }, c)
            == accumulate(ReaderView { input: tail, max }, fold_all(c, ps)->Ok_0),
        after_accumulate(ReaderView { input: encode_utf8(seq_text(ps)) + tail, max }, c)
            == after_accumulate(
            ReaderView { input: tail, max },
            fold_all(c, ps)->Ok_0,
        ),
    decreases ps.len(),
{
    if ps.len() == 0 {
        assert(encode_utf8(seq_text(ps)) + tail =~= tail);
    } else {
        let p = ps[0];
        let rest = ps.skip(1);
        assert(readable(p, max) && in_body(p));
        assert(seq![p] + rest =~= ps);
        lemma_seq_text_front(p, rest);
        lemma_encode_concat(serialize(p), seq_text(rest));
        let after = encode_utf8(seq_text(rest)) + tail;
        let input = encode_utf8(seq_text(ps)) + tail;
        assert(input =~= encode_utf8(serialize(p)) + after);
        assert(all_readable(rest, max)) by {
            assert forall|i: int| 0 <= i < rest.len() implies readable(#[trigger] rest[i], max)
                && in_body(rest[i]) by {
                assert(rest[i] == ps[i + 1]);
            }
        }
        lemma_list_start(rest, tail, max);
        lemma_read_one(p, after, c, max);
        lemma_read_list(rest, tail, fold_property(c, p, true)->Ok_0.0, max);
    }
}

/// The place of a kind in the order in which a card writes its sections; 35 for the kinds
/// that have no section.
pub open spec fn position(k: PropertyKind) -> int {
    match k {
        PropertyKind::Source => 0,
        PropertyKind::Kind => 1,
        PropertyKind::Xml => 2,
        PropertyKind::FN => 3,
        PropertyKind::N => 4,
        PropertyKind::NickName => 5,
        PropertyKind::Photo => 6,
        PropertyKind::BDay => 7,
        PropertyKind::Anniversary => 8,
        PropertyKind::Gender => 9,
        PropertyKind::Adr => 10,
        PropertyKind::Tel => 11,
        PropertyKind::Email => 12,
        PropertyKind::Impp => 13,
        PropertyKind::Lang => 14,
        PropertyKind::Tz => 15,
        PropertyKind::Geo => 16,
        PropertyKind::Title => 17,
        PropertyKind::Role => 18,
        PropertyKind::Logo => 19,
        PropertyKind::Org => 20,
        PropertyKind::Member => 21,
        PropertyKind::Related => 22,
        PropertyKind::Categories => 23,
        PropertyKind::Note => 24,
        PropertyKind::ProdId => 25,
        PropertyKind::Rev => 26,
        PropertyKind::Uid => 27,
        PropertyKind::ClientPidMap => 28,
        PropertyKind::Sound => 29,
        PropertyKind::Url => 30,
        PropertyKind::Key => 31,
        PropertyKind::FbUrl => 32,
        PropertyKind::CalUri => 33,
        PropertyKind::CalAdUri => 34,
        _ => 35,
    }
}

/// The kind whose section is written at place `j`.
pub open spec fn kind_at(j: int) -> PropertyKind {
    if j == 0 {
        PropertyKind::Source
    } else if j == 1 {
        PropertyKind::Kind
    } else if j == 2 {
        PropertyKind::Xml
    } else if j == 3 {
        PropertyKind::FN
    } else if j == 4 {
        PropertyKind::N
    } else if j == 5 {
        PropertyKind::NickName
    } else if j == 6 {
        PropertyKind::Photo
    } else if j == 7 {
        PropertyKind::BDay
    } else if j == 8 {
        PropertyKind::Anniversary
    } else if j == 9 {
        PropertyKind::Gender
    } else if j == 10 {
        PropertyKind::Adr
    } else if j == 11 {
        PropertyKind::Tel
    } else if j == 12 {
        PropertyKind::Email
    } else if j == 13 {
        PropertyKind::Impp
    } else if j == 14 {
        PropertyKind::Lang
    } else if j == 15 {
        PropertyKind::Tz
    } else if j == 16 {
        PropertyKind::Geo
    } else if j == 17 {
        PropertyKind::Title
    } else if j == 18 {
        PropertyKind::Role
    } else if j == 19 {
        PropertyKind::Logo
    } else if j == 20 {
        PropertyKind::Org
    } else if j == 21 {
        PropertyKind::Member
    } else if j == 22 {
        PropertyKind::Related
    } else if j == 23 {
        PropertyKind::Categories
    } else if j == 24 {
        PropertyKind::Note
    } else if j == 25 {
        PropertyKind::ProdId
    } else if j == 26 {
        PropertyKind::Rev
    } else if j == 27 {
        PropertyKind::Uid
    } else if j == 28 {
        PropertyKind::ClientPidMap
    } else if j == 29 {
        PropertyKind::Sound
    } else if j == 30 {
        PropertyKind::Url
    } else if j == 31 {
        PropertyKind::Key
    } else if j == 32 {
        PropertyKind::FbUrl
    } else if j == 33 {
        PropertyKind::CalUri
    } else {
        PropertyKind::CalAdUri
    }
}

/// Each kind with a section stands at its own place, and has one of the three shapes.
pub proof fn lemma_places()
    ensures
        forall|k: PropertyKind|
            (is_single(k) || is_grouped(k) || is_multi(k)) ==> 0 <= #[trigger] position(k) < 35
                && kind_at(position(k)) == k,
        forall|j: int|
            0 <= j < 35 ==> position(#[trigger] kind_at(j)) == j && (is_single(kind_at(j))
                || is_grouped(kind_at(j)) || is_multi(kind_at(j))),
        forall|k: PropertyKind|
            !(is_single(k) || is_grouped(k) || is_multi(k)) ==> #[trigger] position(k) == 35,
{
}

/// The members of the buckets, bucket after bucket.
pub open spec fn flatten(bs: Seq<Seq<PropertyView>>) -> Seq<PropertyView>
    decreases bs.len(),
{
    if bs.len() == 0 {
        Seq::empty()
    } else {
        flatten(bs.drop_last()) + bs.last()
    }
}

/// The properties that the section of kind `k` writes, in the order written.
pub open spec fn section(c: VCardView, k: PropertyKind) -> Seq<PropertyView> {
    if is_single(k) {
        if c.singles.contains_key(k) {
            seq![c.singles[k]]
        } else {
            Seq::empty()
        }
    } else if is_grouped(k) {
        c.groups[k]
    } else if is_multi(k) {
        flatten(c.buckets[k])
    } else {
        Seq::empty()
    }
}

/// The properties that the first `j` sections write.
pub open spec fn body_upto(c: VCardView, j: int) -> Seq<PropertyView>
    decreases j,
{
    if j <= 0 {
        Seq::empty()
    } else {
        body_upto(c, j - 1) + section(c, kind_at(j - 1))
    }
}

/// The properties between the version and the end of a card, in the order written: the
/// sections in their fixed order, then the extension properties.
pub open spec fn body(c: VCardView) -> Seq<PropertyView> {
    body_upto(c, 35) + c.proprietary
}

/// The card that holds of `c` the first `j` sections and no extension property.
pub open spec fn upto(c: VCardView, j: int) -> VCardView {
    VCardView {
        version: c.version,
        singles: Map::new(
            |k: PropertyKind| c.singles.contains_key(k) && position(k) < j,
            |k: PropertyKind| c.singles[k],
        ),
        groups: Map::new(
            |k: PropertyKind| is_grouped(k),
            |k: PropertyKind|
                if position(k) < j {
                    c.groups[k]
                } else {
                    Seq::empty()
                },
        ),
        buckets: Map::new(
            |k: PropertyKind| is_multi(k),
            |k: PropertyKind|
                if position(k) < j {
                    c.buckets[k]
                } else {
                    Seq::empty()
                },
        ),
        proprietary: Seq::empty(),
    }
}

/// Whether every property of `ps` is of kind `k`.
pub open spec fn all_of_kind(ps: Seq<PropertyView>, k: PropertyKind) -> bool {
    forall|i: int| 0 <= i < ps.len() ==> (#[trigger] ps[i]).kind == k
}

/// Whether a card is well formed: each property stands under its own kind; there is an
/// entry for each kind that has a group or buckets, and for no other; the renderings of a
/// logical value share their alt-id; buckets are well keyed.
pub open spec fn well_formed(c: VCardView) -> bool {
    &&& forall|k: PropertyKind| #[trigger]
        c.singles.contains_key(k) ==> is_single(k) && c.singles[k].kind == k
    &&& forall|k: PropertyKind| #[trigger] c.groups.contains_key(k) <==> is_grouped(k)
    &&& forall|k: PropertyKind|
        is_grouped(k) ==> all_of_kind(#[trigger] c.groups[k], k) && same_alt_id(c.groups[k])
    &&& forall|k: PropertyKind| #[trigger] c.buckets.contains_key(k) <==> is_multi(k)
    &&& forall|k: PropertyKind|
        is_multi(k) ==> well_keyed(#[trigger] c.buckets[k]) && forall|i: int|
            0 <= i < c.buckets[k].len() ==> all_of_kind(#[trigger] c.buckets[k][i], k)
    &&& all_of_kind(c.proprietary, PropertyKind::Proprietary)
}

/// Folding two lists, one after the other, is folding the one, then the other.
pub proof fn lemma_fold_concat(c: VCardView, a: Seq<PropertyView>, b: Seq<PropertyView>)
    ensures
        fold_all(c, a + b) == match fold_all(c, a) {
            Ok(next) => fold_all(next, b),
            Err(e) => Err(e),
        },
    decreases a.len(),
{
    if a.len() == 0 {
        assert(a + b =~= b);
    } else {
        assert((a + b)[0] == a[0]);
        assert((a + b).skip(1) =~= a.skip(1) + b);
        match fold_property(c, a[0], true) {
            Ok(next) => {
                lemma_fold_concat(next.0, a.skip(1), b);
            },
            Err(e) => {},
        }
    }
}

/// `c` with the group of kind `k` replaced.
pub open spec fn with_group_of(c: VCardView, k: PropertyKind, g: Seq<PropertyView>) -> VCardView {
    VCardView { groups: c.groups.insert(k, g), ..c }
}

/// `c` with the buckets of kind `k` replaced.
pub open spec fn with_buckets_of(c: VCardView, k: PropertyKind, b: Seq<Seq<PropertyView>>)
    -> VCardView {
    VCardView { buckets: c.buckets.insert(k, b), ..c }
}

/// Renderings that share their alt-id with the group are all taken, in their order.
proof fn lemma_fold_group(c: VCardView, g: Seq<PropertyView>, k: PropertyKind)
    requires
        is_grouped(k),
        c.groups.contains_key(k),
        all_of_kind(g, k),
        same_alt_id(c.groups[k] + g),
    ensures
        fold_all(c, g) == Ok::<VCardView, ErrorView>(with_group_of(c, k, c.groups[k] + g)),
    decreases g.len(),
{
    let held = c.groups[k];
    if g.len() == 0 {
        assert(held + g =~= held);
        assert(c.groups.insert(k, held) =~= c.groups);
    } else {
        let p = g[0];
        assert(p.kind == k);
        let all = held + g;
        assert(all[held.len() as int] == p);
        if held.len() > 0 {
            assert(all[0] == held[0]);
            assert(alt_of(all[held.len() as int]) == alt_of(all[0]));
        }
        let next = with_group_of(c, k, held.push(p));
        assert(fold_property(c, p, true) == Ok::<(VCardView, bool), ErrorView>((next, false)));
        let rest = g.skip(1);
        assert(held.push(p) + rest =~= all);
        assert(all_of_kind(rest, k)) by {
            assert forall|i: int| 0 <= i < rest.len() implies (#[trigger] rest[i]).kind == k by {
                assert(rest[i] == g[i + 1]);
            }
        }
        lemma_fold_group(next, rest, k);
        assert(next.groups.insert(k, all) =~= c.groups.insert(k, all));
    }
}

/// Where no bucket is keyed by `key`, none is found.
proof fn lemma_bucket_index_none(b: Seq<Seq<PropertyView>>, key: Seq<char>, from: int)
    requires
        0 <= from <= b.len(),
        forall|i: int| from <= i < b.len() ==> !((#[trigger] b[i]).len() > 0 && alt_of(b[i][0]) == key),
    ensures
        bucket_index(b, key, from) == b.len(),
    decreases b.len() - from,
{
    if from < b.len() {
        lemma_bucket_index_none(b, key, from + 1);
    }
}

/// Where the last bucket is the only one keyed by `key`, it is the one found.
proof fn lemma_bucket_index_last(b: Seq<Seq<PropertyView>>, key: Seq<char>, from: int)
    requires
        0 <= from < b.len(),
        b.last().len() > 0,
        alt_of(b.last()[0]) == key,
        forall|i: int|
            from <= i < b.len() - 1 ==> !((#[trigger] b[i]).len() > 0 && alt_of(b[i][0]) == key),
    ensures
        bucket_index(b, key, from) == b.len() - 1,
    decreases b.len() - from,
{
    if from < b.len() - 1 {
        lemma_bucket_index_last(b, key, from + 1);
    }
}

/// Members with the key of the last bucket, which no other bucket has, all join it.
proof fn lemma_fold_into_bucket(c: VCardView, ms: Seq<PropertyView>, k: PropertyKind)
    requires
        is_multi(k),
        c.buckets.contains_key(k),
        c.buckets[k].len() >= 1,
        c.buckets[k].last().len() >= 1,
        all_of_kind(ms, k),
        forall|i: int| 0 <= i < ms.len() ==> alt_of(#[trigger] ms[i]) == alt_of(
            c.buckets[k].last()[0],
        ),
        forall|i: int|
            0 <= i < c.buckets[k].len() - 1 ==> !((#[trigger] c.buckets[k][i]).len() > 0 && alt_of(
                c.buckets[k][i][0],
            ) == alt_of(c.buckets[k].last()[0])),
    ensures
        fold_all(c, ms) == Ok::<VCardView, ErrorView>(
            with_buckets_of(
                c,
                k,
                c.buckets[k].update(c.buckets[k].len() - 1, c.buckets[k].last() + ms),
            ),
        ),
    decreases ms.len(),
{
    let b = c.buckets[k];
    let last = b.len() - 1;
    let key = alt_of(b.last()[0]);
    if ms.len() == 0 {
        assert(b.last() + ms =~= b.last());
        assert(b.update(last, b.last()) =~= b);
        assert(c.buckets.insert(k, b) =~= c.buckets);
    } else {
        let p = ms[0];
        assert(p.kind == k);
        assert(alt_of(p) == key);
        lemma_bucket_index_last(b, key, 0);
        let b1 = b.update(last, b.last().push(p));
        assert(multi_add_view(b, p) == b1);
        let next = with_buckets_of(c, k, b1);
        assert(fold_property(c, p, true) == Ok::<(VCardView, bool), ErrorView>((next, false)));
        let rest = ms.skip(1);
        assert(all_of_kind(rest, k)) by {
            assert forall|i: int| 0 <= i < rest.len() implies (#[trigger] rest[i]).kind == k by {
                assert(rest[i] == ms[i + 1]);
            }
        }
        assert forall|i: int| 0 <= i < rest.len() implies alt_of(#[trigger] rest[i]) == alt_of(
            b1.last()[0],
        ) by {
            assert(rest[i] == ms[i + 1]);
            assert(b1.last()[0] == b.last()[0]);
        }
        assert forall|i: int| 0 <= i < b1.len() - 1 implies !((#[trigger] b1[i]).len() > 0
            && alt_of(b1[i][0]) == alt_of(b1.last()[0])) by {
            assert(b1[i] == b[i]);
            assert(b1.last()[0] == b.last()[0]);
        }
        lemma_fold_into_bucket(next, rest, k);
        assert(b1.last() + rest =~= b.last() + ms);
        assert(b1.update(last, b1.last() + rest) =~= b.update(last, b.last() + ms));
        assert(next.buckets.insert(k, b.update(last, b.last() + ms)) =~= c.buckets.insert(
            k,
            b.update(last, b.last() + ms),
        ));
    }
}

/// The members of a bucket whose key no bucket of the card has make a new bucket.
proof fn lemma_fold_new_bucket(c: VCardView, b: Seq<PropertyView>, k: PropertyKind)
    requires
        is_multi(k),
        c.buckets.contains_key(k),
        b.len() >= 1,
        same_alt_id(b),
        all_of_kind(b, k),
        forall|i: int|
            0 <= i < c.buckets[k].len() ==> !((#[trigger] c.buckets[k][i]).len() > 0 && alt_of(
                c.buckets[k][i][0],
            ) == alt_of(b[0])),
    ensures
        fold_all(c, b) == Ok::<VCardView, ErrorView>(with_buckets_of(c, k, c.buckets[k].push(b))),
{
    let held = c.buckets[k];
    let p = b[0];
    assert(p.kind == k);
    lemma_bucket_index_none(held, alt_of(p), 0);
    let b1 = held.push(seq![p]);
    assert(multi_add_view(held, p) == b1);
    let next = with_buckets_of(c, k, b1);
    assert(fold_property(c, p, true) == Ok::<(VCardView, bool), ErrorView>((next, false)));
    let rest = b.skip(1);
    assert(all_of_kind(rest, k)) by {
        assert forall|i: int| 0 <= i < rest.len() implies (#[trigger] rest[i]).kind == k by {
            assert(rest[i] == b[i + 1]);
        }
    }
    assert forall|i: int| 0 <= i < rest.len() implies alt_of(#[trigger] rest[i]) == alt_of(
        b1.last()[0],
    ) by {
        assert(rest[i] == b[i + 1]);
    }
    assert forall|i: int| 0 <= i < b1.len() - 1 implies !((#[trigger] b1[i]).len() > 0 && alt_of(
        b1[i][0],
    ) == alt_of(b1.last()[0])) by {
        assert(b1[i] == held[i]);
    }
    lemma_fold_into_bucket(next, rest, k);
    assert(seq![p] + rest =~= b);
    assert(b1.update(b1.len() - 1, b1.last() + rest) =~= held.push(b));
    assert(next.buckets.insert(k, held.push(b)) =~= c.buckets.insert(k, held.push(b)));
}

/// Buckets that are well keyed together with those of the card are rebuilt, bucket after
/// bucket, behind those of the card.
proof fn lemma_fold_buckets(c: VCardView, bs: Seq<Seq<PropertyView>>, k: PropertyKind)
    requires
        is_multi(k),
        c.buckets.contains_key(k),
        well_keyed(c.buckets[k] + bs),
        forall|i: int| 0 <= i < bs.len() ==> all_of_kind(#[trigger] bs[i], k),
    ensures
        fold_all(c, flatten(bs)) == Ok::<VCardView, ErrorView>(
            with_buckets_of(c, k, c.buckets[k] + bs),
        ),
    decreases bs.len(),
{
    let held = c.buckets[k];
    if bs.len() == 0 {
        assert(held + bs =~= held);
        assert(c.buckets.insert(k, held) =~= c.buckets);
    } else {
        let init = bs.drop_last();
        let last = bs.last();
        let all = held + bs;
        assert(well_keyed(held + init)) by {
            let part = held + init;
            assert forall|i: int| 0 <= i < part.len() implies (#[trigger] part[i]).len() > 0
                && same_alt_id(part[i]) by {
                assert(part[i] == all[i]);
            }
            assert forall|i: int, j: int|
                0 <= i < part.len() && 0 <= j < part.len() && i != j implies alt_of(
                (#[trigger] part[i])[0],
            ) != alt_of((#[trigger] part[j])[0]) by {
                assert(part[i] == all[i]);
                assert(part[j] == all[j]);
            }
        }
        assert forall|i: int| 0 <= i < init.len() implies all_of_kind(#[trigger] init[i], k) by {
            assert(init[i] == bs[i]);
        }
        lemma_fold_buckets(c, init, k);
        let mid = with_buckets_of(c, k, held + init);
        lemma_fold_concat(c, flatten(init), last);
        assert(all[all.len() - 1] == last);
        assert(last.len() > 0 && same_alt_id(last));
        assert forall|i: int| 0 <= i < mid.buckets[k].len() implies !((
        #[trigger] mid.buckets[k][i]).len() > 0 && alt_of(mid.buckets[k][i][0]) == alt_of(last[0]))
        by {
            assert(mid.buckets[k][i] == all[i]);
        }
        lemma_fold_new_bucket(mid, last, k);
        assert((held + init).push(last) =~= held + bs);
        assert(mid.buckets.insert(k, held + bs) =~= c.buckets.insert(k, held + bs));
    }
}

/// Extension properties are all taken, in their order.
proof fn lemma_fold_proprietary(c: VCardView, ps: Seq<PropertyView>)
    requires
        all_of_kind(ps, PropertyKind::Proprietary),
    ensures
        fold_all(c, ps) == Ok::<VCardView, ErrorView>(
            VCardView { proprietary: c.proprietary + ps, ..c },
        ),
    decreases ps.len(),
{
    if ps.len() == 0 {
        assert(c.proprietary + ps =~= c.proprietary);
    } else {
        let p = ps[0];
        assert(p.kind == PropertyKind::Proprietary);
        let next = VCardView { proprietary: c.proprietary.push(p), ..c };
        assert(fold_property(c, p, true) == Ok::<(VCardView, bool), ErrorView>((next, false)));
        let rest = ps.skip(1);
        assert(all_of_kind(rest, PropertyKind::Proprietary)) by {
            assert forall|i: int| 0 <= i < rest.len() implies (#[trigger] rest[i]).kind
                == PropertyKind::Proprietary by {
                assert(rest[i] == ps[i + 1]);
            }
        }
        lemma_fold_proprietary(next, rest);
        assert(c.proprietary.push(p) + rest =~= c.proprietary + ps);
    }
}

/// Folding the section at place `j` into the card of the first `j` sections gives the card
/// of the first `j + 1` sections.
proof fn lemma_fold_section(c: VCardView, j: int)
    requires
        well_formed(c),
        0 <= j < 35,
    ensures
        fold_all(upto(c, j), section(c, kind_at(j))) == Ok::<VCardView, ErrorView>(upto(c, j + 1)),
{
    lemma_places();
    let k = kind_at(j);
    let before = upto(c, j);
    let after = upto(c, j + 1);
    assert(position(k) == j);
    assert forall|other: PropertyKind| other != k implies (#[trigger] position(other) < j + 1
        <==> position(other) < j) by {
        if position(other) == j {
            assert(kind_at(position(other)) == other);
        }
    }
    if is_single(k) {
        assert(before.groups =~= after.groups);
        assert(before.buckets =~= after.buckets);
        if c.singles.contains_key(k) {
            let p = c.singles[k];
            assert(p.kind == k);
            assert(!before.singles.contains_key(k));
            assert(before.singles.insert(k, p) =~= after.singles);
            let next = VCardView { singles: before.singles.insert(k, p), ..before };
            assert(fold_property(before, p, true) == Ok::<(VCardView, bool), ErrorView>(
                (next, false),
            ));
            assert(seq![p].skip(1) =~= Seq::<PropertyView>::empty());
            assert(fold_all(next, seq![p].skip(1)) == Ok::<VCardView, ErrorView>(next));
        } else {
            assert(before.singles =~= after.singles);
        }
    } else if is_grouped(k) {
        let g = c.groups[k];
        assert(!c.singles.contains_key(k));
        assert(before.singles =~= after.singles);
        assert(before.buckets =~= after.buckets);
        assert(before.groups[k] + g =~= g);
        lemma_fold_group(before, g, k);
        assert(before.groups.insert(k, g) =~= after.groups);
    } else {
        let b = c.buckets[k];
        assert(is_multi(k));
        assert(!c.singles.contains_key(k));
        assert(before.singles =~= after.singles);
        assert(before.groups =~= after.groups);
        assert(before.buckets[k] + b =~= b);
        lemma_fold_buckets(before, b, k);
        assert(before.buckets.insert(k, b) =~= after.buckets);
    }
}

/// Folding the first `j` sections into an empty card gives the card of those sections.
proof fn lemma_rebuild_upto(c: VCardView, j: int)
    requires
        well_formed(c),
        0 <= j <= 35,
    ensures
        fold_all(empty_card(c.version), body_upto(c, j)) == Ok::<VCardView, ErrorView>(upto(c, j)),
    decreases j,
{
    if j == 0 {
        let e = empty_card(c.version);
        let u = upto(c, 0);
        lemma_places();
        assert forall|k: PropertyKind| position(k) >= 0 by {
            if is_single(k) || is_grouped(k) || is_multi(k) {
            }
        }
        assert(u.singles =~= e.singles);
        assert(u.groups =~= e.groups);
        assert(u.buckets =~= e.buckets);
    } else {
        lemma_rebuild_upto(c, j - 1);
        lemma_fold_concat(empty_card(c.version), body_upto(c, j - 1), section(c, kind_at(j - 1)));
        lemma_fold_section(c, j - 1);
    }
}

/// Folding what a well-formed card writes into an empty card of its version gives the card
/// back.
pub proof fn law_rebuild(c: VCardView)
    requires
        well_formed(c),
    ensures
        fold_all(empty_card(c.version), body(c)) == Ok::<VCardView, ErrorView>(c),
{
    lemma_places();
    lemma_rebuild_upto(c, 35);
    lemma_fold_concat(empty_card(c.version), body_upto(c, 35), c.proprietary);
    let u = upto(c, 35);
    lemma_fold_proprietary(u, c.proprietary);
    assert(u.proprietary + c.proprietary =~= c.proprietary);
    assert(u.singles =~= c.singles);
    assert(u.groups =~= c.groups);
    assert(u.buckets =~= c.buckets);
}

/// The wire text of buckets is the wire text of their members, bucket after bucket.
proof fn lemma_buckets_text(bs: Seq<Seq<PropertyView>>)
    ensures
        buckets_text(bs) == seq_text(flatten(bs)),
    decreases bs.len(),
{
    if bs.len() > 0 {
        lemma_buckets_text(bs.drop_last());
        lemma_seq_text_concat(flatten(bs.drop_last()), bs.last());
    }
}

/// The wire text of the section of kind `k`, as a card writes it.
pub open spec fn section_text(c: VCardView, k: PropertyKind) -> Seq<char> {
    if is_single(k) {
        single_text(c, k)
    } else if is_grouped(k) {
        seq_text(c.groups[k])
    } else {
        buckets_text(c.buckets[k])
    }
}

proof fn lemma_section_text(c: VCardView, k: PropertyKind)
    requires
        is_single(k) || is_grouped(k) || is_multi(k),
    ensures
        section_text(c, k) == seq_text(section(c, k)),
{
    if is_single(k) {
        if c.singles.contains_key(k) {
            let one = seq![c.singles[k]];
            assert(one.drop_last() =~= Seq::<PropertyView>::empty());
            assert(seq_text(one.drop_last()) =~= Seq::<char>::empty());
            assert(seq_text(one) =~= serialize(c.singles[k]));
        }
    } else if is_grouped(k) {
    } else {
        lemma_buckets_text(c.buckets[k]);
    }
}

/// The text of the first `j` sections is that of the first `j - 1`, then that of the
/// section at place `j - 1`.
proof fn lemma_text_step(c: VCardView, j: int)
    requires
        1 <= j <= 35,
    ensures
        seq_text(body_upto(c, j)) == seq_text(body_upto(c, j - 1)) + section_text(
            c,
            kind_at(j - 1),
        ),
{
    lemma_places();
    lemma_section_text(c, kind_at(j - 1));
    lemma_seq_text_concat(body_upto(c, j - 1), section(c, kind_at(j - 1)));
}

/// The text of the last ten sections of a card.
pub open spec fn last_sections_text(c: VCardView) -> Seq<char> {
    single_text(c, PropertyKind::ProdId)
        + single_text(c, PropertyKind::Rev)
        + single_text(c, PropertyKind::Uid)
        + single_text(c, PropertyKind::ClientPidMap)
        + buckets_text(c.buckets[PropertyKind::Sound])
        + buckets_text(c.buckets[PropertyKind::Url])
        + buckets_text(c.buckets[PropertyKind::Key])
        + buckets_text(c.buckets[PropertyKind::FbUrl])
        + buckets_text(c.buckets[PropertyKind::CalUri])
        + buckets_text(c.buckets[PropertyKind::CalAdUri])
}

proof fn lemma_opening_text_0(c: VCardView)
    ensures
        "BEGIN:VCARD\r\n"@ + version_line(c.version) + seq_text(body_upto(c, 4)) == "BEGIN:VCARD\r\n"@ + version_line(c.version)
            + buckets_text(c.buckets[PropertyKind::Source])
            + single_text(c, PropertyKind::Kind)
            + buckets_text(c.buckets[PropertyKind::Xml])
            + buckets_text(c.buckets[PropertyKind::FN]),
{
    let base = "BEGIN:VCARD\r\n"@ + version_line(c.version);
    assert(base + seq_text(body_upto(c, 0)) =~= base);
    lemma_text_step(c, 1);
    assert(kind_at(0) == PropertyKind::Source);
    assert(section_text(c, PropertyKind::Source) == buckets_text(c.buckets[PropertyKind::Source]));
    lemma_append_twice(
        base,
        seq_text(body_upto(c, 0)),
        buckets_text(c.buckets[PropertyKind::Source]),
    );
    assert(base + seq_text(body_upto(c, 1)) == "BEGIN:VCARD\r\n"@ + version_line(c.version)
            + buckets_text(c.buckets[PropertyKind::Source]));
    lemma_text_step(c, 2);
    assert(kind_at(1) == PropertyKind::Kind);
    assert(section_text(c, PropertyKind::Kind) == single_text(c, PropertyKind::Kind));
    lemma_append_twice(base, seq_text(body_upto(c, 1)), single_text(c, PropertyKind::Kind));
    assert(base + seq_text(body_upto(c, 2)) == "BEGIN:VCARD\r\n"@ + version_line(c.version)
            + buckets_text(c.buckets[PropertyKind::Source])
            + single_text(c, PropertyKind::Kind));
    lemma_text_step(c, 3);
    assert(kind_at(2) == PropertyKind::Xml);
    assert(section_text(c, PropertyKind::Xml) == buckets_text(c.buckets[PropertyKind::Xml]));
    lemma_append_twice(base, seq_text(body_upto(c, 2)), buckets_text(c.buckets[PropertyKind::Xml]));
    assert(base + seq_text(body_upto(c, 3)) == "BEGIN:VCARD\r\n"@ + version_line(c.version)
            + buckets_text(c.buckets[PropertyKind::Source])
            + single_text(c, PropertyKind::Kind)
            + buckets_text(c.buckets[PropertyKind::Xml]));
    lemma_text_step(c, 4);
    assert(kind_at(3) == PropertyKind::FN);
    assert(section_text(c, PropertyKind::FN) == buckets_text(c.buckets[PropertyKind::FN]));
    lemma_append_twice(base, seq_text(body_upto(c, 3)), buckets_text(c.buckets[PropertyKind::FN]));
    assert(base + seq_text(body_upto(c, 4)) == "BEGIN:VCARD\r\n"@ + version_line(c.version)
            + buckets_text(c.buckets[PropertyKind::Source])
            + single_text(c, PropertyKind::Kind)
            + buckets_text(c.buckets[PropertyKind::Xml])
            + buckets_text(c.buckets[PropertyKind::FN]));
}

proof fn lemma_opening_text_1(c: VCardView)
    ensures
        "BEGIN:VCARD\r\n"@ + version_line(c.version) + seq_text(body_upto(c, 8)) == "BEGIN:VCARD\r\n"@ + version_line(c.version)
            + buckets_text(c.buckets[PropertyKind::Source])
            + single_text(c, PropertyKind::Kind)
            + buckets_text(c.buckets[PropertyKind::Xml])
            + buckets_text(c.buckets[PropertyKind::FN])
            + seq_text(c.groups[PropertyKind::N])
            + buckets_text(c.buckets[PropertyKind::NickName])
            + buckets_text(c.buckets[PropertyKind::Photo])
            + seq_text(c.groups[PropertyKind::BDay]),
{
    let base = "BEGIN:VCARD\r\n"@ + version_line(c.version);
    lemma_opening_text_0(c);
    lemma_text_step(c, 5);
    assert(kind_at(4) == PropertyKind::N);
    assert(section_text(c, PropertyKind::N) == seq_text(c.groups[PropertyKind::N]));
    lemma_append_twice(base, seq_text(body_upto(c, 4)), seq_text(c.groups[PropertyKind::N]));
    assert(base + seq_text(body_upto(c, 5)) == "BEGIN:VCARD\r\n"@ + version_line(c.version)
            + buckets_text(c.buckets[PropertyKind::Source])
            + single_text(c, PropertyKind::Kind)
            + buckets_text(c.buckets[PropertyKind::Xml])
            + buckets_text(c.buckets[PropertyKind::FN])
            + seq_text(c.groups[PropertyKind::N]));
    lemma_text_step(c, 6);
    assert(kind_at(5) == PropertyKind::NickName);
    assert(section_text(c, PropertyKind::NickName) == buckets_text(c.buckets[PropertyKind::NickName]));
    lemma_append_twice(
        base,
        seq_text(body_upto(c, 5)),
        buckets_text(c.buckets[PropertyKind::NickName]),
    );
    assert(base + seq_text(body_upto(c, 6)) == "BEGIN:VCARD\r\n"@ + version_line(c.version)
            + buckets_text(c.buckets[PropertyKind::Source])
            + single_text(c, PropertyKind::Kind)
            + buckets_text(c.buckets[PropertyKind::Xml])
            + buckets_text(c.buckets[PropertyKind::FN])
            + seq_text(c.groups[PropertyKind::N])
            + buckets_text(c.buckets[PropertyKind::NickName]));
    lemma_text_step(c, 7);
    assert(kind_at(6) == PropertyKind::Photo);
    assert(section_text(c, PropertyKind::Photo) == buckets_text(c.buckets[PropertyKind::Photo]));
    lemma_append_twice(
        base,
        seq_text(body_upto(c, 6)),
        buckets_text(c.buckets[PropertyKind::Photo]),
    );
    assert(base + seq_text(body_upto(c, 7)) == "BEGIN:VCARD\r\n"@ + version_line(c.version)
            + buckets_text(c.buckets[PropertyKind::Source])
            + single_text(c, PropertyKind::Kind)
            + buckets_text(c.buckets[PropertyKind::Xml])
            + buckets_text(c.buckets[PropertyKind::FN])
            + seq_text(c.groups[PropertyKind::N])
            + buckets_text(c.buckets[PropertyKind::NickName])
            + buckets_text(c.buckets[PropertyKind::Photo]));
    lemma_text_step(c, 8);
    assert(kind_at(7) == PropertyKind::BDay);
    assert(section_text(c, PropertyKind::BDay) == seq_text(c.groups[PropertyKind::BDay]));
    lemma_append_twice(base, seq_text(body_upto(c, 7)), seq_text(c.groups[PropertyKind::BDay]));
    assert(base + seq_text(body_upto(c, 8)) == "BEGIN:VCARD\r\n"@ + version_line(c.version)
            + buckets_text(c.buckets[PropertyKind::Source])
            + single_text(c, PropertyKind::Kind)
            + buckets_text(c.buckets[PropertyKind::Xml])
            + buckets_text(c.buckets[PropertyKind::FN])
            + seq_text(c.groups[PropertyKind::N])
            + buckets_text(c.buckets[PropertyKind::NickName])
            + buckets_text(c.buckets[PropertyKind::Photo])
            + seq_text(c.groups[PropertyKind::BDay]));
}

proof fn lemma_opening_text(c: VCardView)
    ensures
        "BEGIN:VCARD\r\n"@ + version_line(c.version) + seq_text(body_upto(c, 10)) == opening_text(c),
{
    let base = "BEGIN:VCARD\r\n"@ + version_line(c.version);
    lemma_opening_text_1(c);
    lemma_text_step(c, 9);
    assert(kind_at(8) == PropertyKind::Anniversary);
    assert(section_text(c, PropertyKind::Anniversary) == seq_text(c.groups[PropertyKind::Anniversary]));
    lemma_append_twice(
        base,
        seq_text(body_upto(c, 8)),
        seq_text(c.groups[PropertyKind::Anniversary]),
    );
    assert(base + seq_text(body_upto(c, 9)) == "BEGIN:VCARD\r\n"@ + version_line(c.version)
            + buckets_text(c.buckets[PropertyKind::Source])
            + single_text(c, PropertyKind::Kind)
            + buckets_text(c.buckets[PropertyKind::Xml])
            + buckets_text(c.buckets[PropertyKind::FN])
            + seq_text(c.groups[PropertyKind::N])
            + buckets_text(c.buckets[PropertyKind::NickName])
            + buckets_text(c.buckets[PropertyKind::Photo])
            + seq_text(c.groups[PropertyKind::BDay])
            + seq_text(c.groups[PropertyKind::Anniversary]));
    lemma_text_step(c, 10);
    assert(kind_at(9) == PropertyKind::Gender);
    assert(section_text(c, PropertyKind::Gender) == single_text(c, PropertyKind::Gender));
    lemma_append_twice(base, seq_text(body_upto(c, 9)), single_text(c, PropertyKind::Gender));
    assert(base + seq_text(body_upto(c, 10)) == "BEGIN:VCARD\r\n"@ + version_line(c.version)
            + buckets_text(c.buckets[PropertyKind::Source])
            + single_text(c, PropertyKind::Kind)
            + buckets_text(c.buckets[PropertyKind::Xml])
            + buckets_text(c.buckets[PropertyKind::FN])
            + seq_text(c.groups[PropertyKind::N])
            + buckets_text(c.buckets[PropertyKind::NickName])
            + buckets_text(c.buckets[PropertyKind::Photo])
            + seq_text(c.groups[PropertyKind::BDay])
            + seq_text(c.groups[PropertyKind::Anniversary])
            + single_text(c, PropertyKind::Gender));
}

proof fn lemma_contact_text_0(c: VCardView)
    ensures
        seq_text(body_upto(c, 14)) == seq_text(body_upto(c, 10)) + (buckets_text(c.buckets[PropertyKind::Adr])
            + buckets_text(c.buckets[PropertyKind::Tel])
            + buckets_text(c.buckets[PropertyKind::Email])
            + buckets_text(c.buckets[PropertyKind::Impp])),
{
    let base = seq_text(body_upto(c, 10));
    lemma_text_step(c, 11);
    assert(kind_at(10) == PropertyKind::Adr);
    assert(section_text(c, PropertyKind::Adr) == buckets_text(c.buckets[PropertyKind::Adr]));
    assert(seq_text(body_upto(c, 11)) == base + (buckets_text(c.buckets[PropertyKind::Adr])));
    lemma_text_step(c, 12);
    assert(kind_at(11) == PropertyKind::Tel);
    assert(section_text(c, PropertyKind::Tel) == buckets_text(c.buckets[PropertyKind::Tel]));
    lemma_append_twice(
        base,
        buckets_text(c.buckets[PropertyKind::Adr]),
        buckets_text(c.buckets[PropertyKind::Tel]),
    );
    assert(seq_text(body_upto(c, 12)) == base + (buckets_text(c.buckets[PropertyKind::Adr])
            + buckets_text(c.buckets[PropertyKind::Tel])));
    lemma_text_step(c, 13);
    assert(kind_at(12) == PropertyKind::Email);
    assert(section_text(c, PropertyKind::Email) == buckets_text(c.buckets[PropertyKind::Email]));
    lemma_append_twice(base, buckets_text(c.buckets[PropertyKind::Adr])
            + buckets_text(c.buckets[PropertyKind::Tel]), buckets_text(c.buckets[PropertyKind::Email]));
    assert(seq_text(body_upto(c, 13)) == base + (buckets_text(c.buckets[PropertyKind::Adr])
            + buckets_text(c.buckets[PropertyKind::Tel])
            + buckets_text(c.buckets[PropertyKind::Email])));
    lemma_text_step(c, 14);
    assert(kind_at(13) == PropertyKind::Impp);
    assert(section_text(c, PropertyKind::Impp) == buckets_text(c.buckets[PropertyKind::Impp]));
    lemma_append_twice(base, buckets_text(c.buckets[PropertyKind::Adr])
            + buckets_text(c.buckets[PropertyKind::Tel])
            + buckets_text(c.buckets[PropertyKind::Email]), buckets_text(c.buckets[PropertyKind::Impp]));
    assert(seq_text(body_upto(c, 14)) == base + (buckets_text(c.buckets[PropertyKind::Adr])
            + buckets_text(c.buckets[PropertyKind::Tel])
            + buckets_text(c.buckets[PropertyKind::Email])
            + buckets_text(c.buckets[PropertyKind::Impp])));
}

proof fn lemma_contact_text(c: VCardView)
    ensures
        seq_text(body_upto(c, 17)) == seq_text(body_upto(c, 10)) + (contact_text(c)),
{
    let base = seq_text(body_upto(c, 10));
    lemma_contact_text_0(c);
    lemma_text_step(c, 15);
    assert(kind_at(14) == PropertyKind::Lang);
    assert(section_text(c, PropertyKind::Lang) == buckets_text(c.buckets[PropertyKind::Lang]));
    lemma_append_twice(base, buckets_text(c.buckets[PropertyKind::Adr])
            + buckets_text(c.buckets[PropertyKind::Tel])
            + buckets_text(c.buckets[PropertyKind::Email])
            + buckets_text(c.buckets[PropertyKind::Impp]), buckets_text(c.buckets[PropertyKind::Lang]));
    assert(seq_text(body_upto(c, 15)) == base + (buckets_text(c.buckets[PropertyKind::Adr])
            + buckets_text(c.buckets[PropertyKind::Tel])
            + buckets_text(c.buckets[PropertyKind::Email])
            + buckets_text(c.buckets[PropertyKind::Impp])
            + buckets_text(c.buckets[PropertyKind::Lang])));
    lemma_text_step(c, 16);
    assert(kind_at(15) == PropertyKind::Tz);
    assert(section_text(c, PropertyKind::Tz) == buckets_text(c.buckets[PropertyKind::Tz]));
    lemma_append_twice(base, buckets_text(c.buckets[PropertyKind::Adr])
            + buckets_text(c.buckets[PropertyKind::Tel])
            + buckets_text(c.buckets[PropertyKind::Email])
            + buckets_text(c.buckets[PropertyKind::Impp])
            + buckets_text(c.buckets[PropertyKind::Lang]), buckets_text(c.buckets[PropertyKind::Tz]));
    assert(seq_text(body_upto(c, 16)) == base + (buckets_text(c.buckets[PropertyKind::Adr])
            + buckets_text(c.buckets[PropertyKind::Tel])
            + buckets_text(c.buckets[PropertyKind::Email])
            + buckets_text(c.buckets[PropertyKind::Impp])
            + buckets_text(c.buckets[PropertyKind::Lang])
            + buckets_text(c.buckets[PropertyKind::Tz])));
    lemma_text_step(c, 17);
    assert(kind_at(16) == PropertyKind::Geo);
    assert(section_text(c, PropertyKind::Geo) == buckets_text(c.buckets[PropertyKind::Geo]));
    lemma_append_twice(base, buckets_text(c.buckets[PropertyKind::Adr])
            + buckets_text(c.buckets[PropertyKind::Tel])
            + buckets_text(c.buckets[PropertyKind::Email])
            + buckets_text(c.buckets[PropertyKind::Impp])
            + buckets_text(c.buckets[PropertyKind::Lang])
            + buckets_text(c.buckets[PropertyKind::Tz]), buckets_text(c.buckets[PropertyKind::Geo]));
    assert(seq_text(body_upto(c, 17)) == base + (buckets_text(c.buckets[PropertyKind::Adr])
            + buckets_text(c.buckets[PropertyKind::Tel])
            + buckets_text(c.buckets[PropertyKind::Email])
            + buckets_text(c.buckets[PropertyKind::Impp])
            + buckets_text(c.buckets[PropertyKind::Lang])
            + buckets_text(c.buckets[PropertyKind::Tz])
            + buckets_text(c.buckets[PropertyKind::Geo])));
}

proof fn lemma_work_text_0(c: VCardView)
    ensures
        seq_text(body_upto(c, 21)) == seq_text(body_upto(c, 17)) + (buckets_text(c.buckets[PropertyKind::Title])
            + buckets_text(c.buckets[PropertyKind::Role])
            + buckets_text(c.buckets[PropertyKind::Logo])
            + buckets_text(c.buckets[PropertyKind::Org])),
{
    let base = seq_text(body_upto(c, 17));
    lemma_text_step(c, 18);
    assert(kind_at(17) == PropertyKind::Title);
    assert(section_text(c, PropertyKind::Title) == buckets_text(c.buckets[PropertyKind::Title]));
    assert(seq_text(body_upto(c, 18)) == base + (buckets_text(c.buckets[PropertyKind::Title])));
    lemma_text_step(c, 19);
    assert(kind_at(18) == PropertyKind::Role);
    assert(section_text(c, PropertyKind::Role) == buckets_text(c.buckets[PropertyKind::Role]));
    lemma_append_twice(
        base,
        buckets_text(c.buckets[PropertyKind::Title]),
        buckets_text(c.buckets[PropertyKind::Role]),
    );
    assert(seq_text(body_upto(c, 19)) == base + (buckets_text(c.buckets[PropertyKind::Title])
            + buckets_text(c.buckets[PropertyKind::Role])));
    lemma_text_step(c, 20);
    assert(kind_at(19) == PropertyKind::Logo);
    assert(section_text(c, PropertyKind::Logo) == buckets_text(c.buckets[PropertyKind::Logo]));
    lemma_append_twice(base, buckets_text(c.buckets[PropertyKind::Title])
            + buckets_text(c.buckets[PropertyKind::Role]), buckets_text(c.buckets[PropertyKind::Logo]));
    assert(seq_text(body_upto(c, 20)) == base + (buckets_text(c.buckets[PropertyKind::Title])
            + buckets_text(c.buckets[PropertyKind::Role])
            + buckets_text(c.buckets[PropertyKind::Logo])));
    lemma_text_step(c, 21);
    assert(kind_at(20) == PropertyKind::Org);
    assert(section_text(c, PropertyKind::Org) == buckets_text(c.buckets[PropertyKind::Org]));
    lemma_append_twice(base, buckets_text(c.buckets[PropertyKind::Title])
            + buckets_text(c.buckets[PropertyKind::Role])
            + buckets_text(c.buckets[PropertyKind::Logo]), buckets_text(c.buckets[PropertyKind::Org]));
    assert(seq_text(body_upto(c, 21)) == base + (buckets_text(c.buckets[PropertyKind::Title])
            + buckets_text(c.buckets[PropertyKind::Role])
            + buckets_text(c.buckets[PropertyKind::Logo])
            + buckets_text(c.buckets[PropertyKind::Org])));
}

proof fn lemma_work_text(c: VCardView)
    ensures
        seq_text(body_upto(c, 25)) == seq_text(body_upto(c, 17)) + (work_text(c)),
{
    let base = seq_text(body_upto(c, 17));
    lemma_work_text_0(c);
    lemma_text_step(c, 22);
    assert(kind_at(21) == PropertyKind::Member);
    assert(section_text(c, PropertyKind::Member) == buckets_text(c.buckets[PropertyKind::Member]));
    lemma_append_twice(base, buckets_text(c.buckets[PropertyKind::Title])
            + buckets_text(c.buckets[PropertyKind::Role])
            + buckets_text(c.buckets[PropertyKind::Logo])
            + buckets_text(c.buckets[PropertyKind::Org]), buckets_text(c.buckets[PropertyKind::Member]));
    assert(seq_text(body_upto(c, 22)) == base + (buckets_text(c.buckets[PropertyKind::Title])
            + buckets_text(c.buckets[PropertyKind::Role])
            + buckets_text(c.buckets[PropertyKind::Logo])
            + buckets_text(c.buckets[PropertyKind::Org])
            + buckets_text(c.buckets[PropertyKind::Member])));
    lemma_text_step(c, 23);
    assert(kind_at(22) == PropertyKind::Related);
    assert(section_text(c, PropertyKind::Related) == buckets_text(c.buckets[PropertyKind::Related]));
    lemma_append_twice(base, buckets_text(c.buckets[PropertyKind::Title])
            + buckets_text(c.buckets[PropertyKind::Role])
            + buckets_text(c.buckets[PropertyKind::Logo])
            + buckets_text(c.buckets[PropertyKind::Org])
            + buckets_text(c.buckets[PropertyKind::Member]), buckets_text(c.buckets[PropertyKind::Related]));
    assert(seq_text(body_upto(c, 23)) == base + (buckets_text(c.buckets[PropertyKind::Title])
            + buckets_text(c.buckets[PropertyKind::Role])
            + buckets_text(c.buckets[PropertyKind::Logo])
            + buckets_text(c.buckets[PropertyKind::Org])
            + buckets_text(c.buckets[PropertyKind::Member])
            + buckets_text(c.buckets[PropertyKind::Related])));
    lemma_text_step(c, 24);
    assert(kind_at(23) == PropertyKind::Categories);
    assert(section_text(c, PropertyKind::Categories) == buckets_text(c.buckets[PropertyKind::Categories]));
    lemma_append_twice(base, buckets_text(c.buckets[PropertyKind::Title])
            + buckets_text(c.buckets[PropertyKind::Role])
            + buckets_text(c.buckets[PropertyKind::Logo])
            + buckets_text(c.buckets[PropertyKind::Org])
            + buckets_text(c.buckets[PropertyKind::Member])
            + buckets_text(c.buckets[PropertyKind::Related]), buckets_text(c.buckets[PropertyKind::Categories]));
    assert(seq_text(body_upto(c, 24)) == base + (buckets_text(c.buckets[PropertyKind::Title])
            + buckets_text(c.buckets[PropertyKind::Role])
            + buckets_text(c.buckets[PropertyKind::Logo])
            + buckets_text(c.buckets[PropertyKind::Org])
            + buckets_text(c.buckets[PropertyKind::Member])
            + buckets_text(c.buckets[PropertyKind::Related])
            + buckets_text(c.buckets[PropertyKind::Categories])));
    lemma_text_step(c, 25);
    assert(kind_at(24) == PropertyKind::Note);
    assert(section_text(c, PropertyKind::Note) == buckets_text(c.buckets[PropertyKind::Note]));
    lemma_append_twice(base, buckets_text(c.buckets[PropertyKind::Title])
            + buckets_text(c.buckets[PropertyKind::Role])
            + buckets_text(c.buckets[PropertyKind::Logo])
            + buckets_text(c.buckets[PropertyKind::Org])
            + buckets_text(c.buckets[PropertyKind::Member])
            + buckets_text(c.buckets[PropertyKind::Related])
            + buckets_text(c.buckets[PropertyKind::Categories]), buckets_text(c.buckets[PropertyKind::Note]));
    assert(seq_text(body_upto(c, 25)) == base + (buckets_text(c.buckets[PropertyKind::Title])
            + buckets_text(c.buckets[PropertyKind::Role])
            + buckets_text(c.buckets[PropertyKind::Logo])
            + buckets_text(c.buckets[PropertyKind::Org])
            + buckets_text(c.buckets[PropertyKind::Member])
            + buckets_text(c.buckets[PropertyKind::Related])
            + buckets_text(c.buckets[PropertyKind::Categories])
            + buckets_text(c.buckets[PropertyKind::Note])));
}

proof fn lemma_last_sections_text_0(c: VCardView)
    ensures
        seq_text(body_upto(c, 29)) == seq_text(body_upto(c, 25)) + (single_text(c, PropertyKind::ProdId)
            + single_text(c, PropertyKind::Rev)
            + single_text(c, PropertyKind::Uid)
            + single_text(c, PropertyKind::ClientPidMap)),
{
    let base = seq_text(body_upto(c, 25));
    lemma_text_step(c, 26);
    assert(kind_at(25) == PropertyKind::ProdId);
    assert(section_text(c, PropertyKind::ProdId) == single_text(c, PropertyKind::ProdId));
    assert(seq_text(body_upto(c, 26)) == base + (single_text(c, PropertyKind::ProdId)));
    lemma_text_step(c, 27);
    assert(kind_at(26) == PropertyKind::Rev);
    assert(section_text(c, PropertyKind::Rev) == single_text(c, PropertyKind::Rev));
    lemma_append_twice(
        base,
        single_text(c, PropertyKind::ProdId),
        single_text(c, PropertyKind::Rev),
    );
    assert(seq_text(body_upto(c, 27)) == base + (single_text(c, PropertyKind::ProdId)
            + single_text(c, PropertyKind::Rev)));
    lemma_text_step(c, 28);
    assert(kind_at(27) == PropertyKind::Uid);
    assert(section_text(c, PropertyKind::Uid) == single_text(c, PropertyKind::Uid));
    lemma_append_twice(base, single_text(c, PropertyKind::ProdId)
            + single_text(c, PropertyKind::Rev), single_text(c, PropertyKind::Uid));
    assert(seq_text(body_upto(c, 28)) == base + (single_text(c, PropertyKind::ProdId)
            + single_text(c, PropertyKind::Rev)
            + single_text(c, PropertyKind::Uid)));
    lemma_text_step(c, 29);
    assert(kind_at(28) == PropertyKind::ClientPidMap);
    assert(section_text(c, PropertyKind::ClientPidMap) == single_text(c, PropertyKind::ClientPidMap));
    lemma_append_twice(base, single_text(c, PropertyKind::ProdId)
            + single_text(c, PropertyKind::Rev)
            + single_text(c, PropertyKind::Uid), single_text(c, PropertyKind::ClientPidMap));
    assert(seq_text(body_upto(c, 29)) == base + (single_text(c, PropertyKind::ProdId)
            + single_text(c, PropertyKind::Rev)
            + single_text(c, PropertyKind::Uid)
            + single_text(c, PropertyKind::ClientPidMap)));
}

proof fn lemma_last_sections_text_1(c: VCardView)
    ensures
        seq_text(body_upto(c, 33)) == seq_text(body_upto(c, 25)) + (single_text(c, PropertyKind::ProdId)
            + single_text(c, PropertyKind::Rev)
            + single_text(c, PropertyKind::Uid)
            + single_text(c, PropertyKind::ClientPidMap)
            + buckets_text(c.buckets[PropertyKind::Sound])
            + buckets_text(c.buckets[PropertyKind::Url])
            + buckets_text(c.buckets[PropertyKind::Key])
            + buckets_text(c.buckets[PropertyKind::FbUrl])),
{
    let base = seq_text(body_upto(c, 25));
    lemma_last_sections_text_0(c);
    lemma_text_step(c, 30);
    assert(kind_at(29) == PropertyKind::Sound);
    assert(section_text(c, PropertyKind::Sound) == buckets_text(c.buckets[PropertyKind::Sound]));
    lemma_append_twice(base, single_text(c, PropertyKind::ProdId)
            + single_text(c, PropertyKind::Rev)
            + single_text(c, PropertyKind::Uid)
            + single_text(c, PropertyKind::ClientPidMap), buckets_text(c.buckets[PropertyKind::Sound]));
    assert(seq_text(body_upto(c, 30)) == base + (single_text(c, PropertyKind::ProdId)
            + single_text(c, PropertyKind::Rev)
            + single_text(c, PropertyKind::Uid)
            + single_text(c, PropertyKind::ClientPidMap)
            + buckets_text(c.buckets[PropertyKind::Sound])));
    lemma_text_step(c, 31);
    assert(kind_at(30) == PropertyKind::Url);
    assert(section_text(c, PropertyKind::Url) == buckets_text(c.buckets[PropertyKind::Url]));
    lemma_append_twice(base, single_text(c, PropertyKind::ProdId)
            + single_text(c, PropertyKind::Rev)
            + single_text(c, PropertyKind::Uid)
            + single_text(c, PropertyKind::ClientPidMap)
            + buckets_text(c.buckets[PropertyKind::Sound]), buckets_text(c.buckets[PropertyKind::Url]));
    assert(seq_text(body_upto(c, 31)) == base + (single_text(c, PropertyKind::ProdId)
            + single_text(c, PropertyKind::Rev)
            + single_text(c, PropertyKind::Uid)
            + single_text(c, PropertyKind::ClientPidMap)
            + buckets_text(c.buckets[PropertyKind::Sound])
            + buckets_text(c.buckets[PropertyKind::Url])));
    lemma_text_step(c, 32);
    assert(kind_at(31) == PropertyKind::Key);
    assert(section_text(c, PropertyKind::Key) == buckets_text(c.buckets[PropertyKind::Key]));
    lemma_append_twice(base, single_text(c, PropertyKind::ProdId)
            + single_text(c, PropertyKind::Rev)
            + single_text(c, PropertyKind::Uid)
            + single_text(c, PropertyKind::ClientPidMap)
            + buckets_text(c.buckets[PropertyKind::Sound])
            + buckets_text(c.buckets[PropertyKind::Url]), buckets_text(c.buckets[PropertyKind::Key]));
    assert(seq_text(body_upto(c, 32)) == base + (single_text(c, PropertyKind::ProdId)
            + single_text(c, PropertyKind::Rev)
            + single_text(c, PropertyKind::Uid)
            + single_text(c, PropertyKind::ClientPidMap)
            + buckets_text(c.buckets[PropertyKind::Sound])
            + buckets_text(c.buckets[PropertyKind::Url])
            + buckets_text(c.buckets[PropertyKind::Key])));
    lemma_text_step(c, 33);
    assert(kind_at(32) == PropertyKind::FbUrl);
    assert(section_text(c, PropertyKind::FbUrl) == buckets_text(c.buckets[PropertyKind::FbUrl]));
    lemma_append_twice(base, single_text(c, PropertyKind::ProdId)
            + single_text(c, PropertyKind::Rev)
            + single_text(c, PropertyKind::Uid)
            + single_text(c, PropertyKind::ClientPidMap)
            + buckets_text(c.buckets[PropertyKind::Sound])
            + buckets_text(c.buckets[PropertyKind::Url])
            + buckets_text(c.buckets[PropertyKind::Key]), buckets_text(c.buckets[PropertyKind::FbUrl]));
    assert(seq_text(body_upto(c, 33)) == base + (single_text(c, PropertyKind::ProdId)
            + single_text(c, PropertyKind::Rev)
            + single_text(c, PropertyKind::Uid)
            + single_text(c, PropertyKind::ClientPidMap)
            + buckets_text(c.buckets[PropertyKind::Sound])
            + buckets_text(c.buckets[PropertyKind::Url])
            + buckets_text(c.buckets[PropertyKind::Key])
            + buckets_text(c.buckets[PropertyKind::FbUrl])));
}

proof fn lemma_last_sections_text(c: VCardView)
    ensures
        seq_text(body_upto(c, 35)) == seq_text(body_upto(c, 25)) + (last_sections_text(c)),
{
    let base = seq_text(body_upto(c, 25));
    lemma_last_sections_text_1(c);
    lemma_text_step(c, 34);
    assert(kind_at(33) == PropertyKind::CalUri);
    assert(section_text(c, PropertyKind::CalUri) == buckets_text(c.buckets[PropertyKind::CalUri]));
    lemma_append_twice(base, single_text(c, PropertyKind::ProdId)
            + single_text(c, PropertyKind::Rev)
            + single_text(c, PropertyKind::Uid)
            + single_text(c, PropertyKind::ClientPidMap)
            + buckets_text(c.buckets[PropertyKind::Sound])
            + buckets_text(c.buckets[PropertyKind::Url])
            + buckets_text(c.buckets[PropertyKind::Key])
            + buckets_text(c.buckets[PropertyKind::FbUrl]), buckets_text(c.buckets[PropertyKind::CalUri]));
    assert(seq_text(body_upto(c, 34)) == base + (single_text(c, PropertyKind::ProdId)
            + single_text(c, PropertyKind::Rev)
            + single_text(c, PropertyKind::Uid)
            + single_text(c, PropertyKind::ClientPidMap)
            + buckets_text(c.buckets[PropertyKind::Sound])
            + buckets_text(c.buckets[PropertyKind::Url])
            + buckets_text(c.buckets[PropertyKind::Key])
            + buckets_text(c.buckets[PropertyKind::FbUrl])
            + buckets_text(c.buckets[PropertyKind::CalUri])));
    lemma_text_step(c, 35);
    assert(kind_at(34) == PropertyKind::CalAdUri);
    assert(section_text(c, PropertyKind::CalAdUri) == buckets_text(c.buckets[PropertyKind::CalAdUri]));
    lemma_append_twice(base, single_text(c, PropertyKind::ProdId)
            + single_text(c, PropertyKind::Rev)
            + single_text(c, PropertyKind::Uid)
            + single_text(c, PropertyKind::ClientPidMap)
            + buckets_text(c.buckets[PropertyKind::Sound])
            + buckets_text(c.buckets[PropertyKind::Url])
            + buckets_text(c.buckets[PropertyKind::Key])
            + buckets_text(c.buckets[PropertyKind::FbUrl])
            + buckets_text(c.buckets[PropertyKind::CalUri]), buckets_text(c.buckets[PropertyKind::CalAdUri]));
    assert(seq_text(body_upto(c, 35)) == base + (single_text(c, PropertyKind::ProdId)
            + single_text(c, PropertyKind::Rev)
            + single_text(c, PropertyKind::Uid)
            + single_text(c, PropertyKind::ClientPidMap)
            + buckets_text(c.buckets[PropertyKind::Sound])
            + buckets_text(c.buckets[PropertyKind::Url])
            + buckets_text(c.buckets[PropertyKind::Key])
            + buckets_text(c.buckets[PropertyKind::FbUrl])
            + buckets_text(c.buckets[PropertyKind::CalUri])
            + buckets_text(c.buckets[PropertyKind::CalAdUri])));
}

proof fn lemma_closing_text(c: VCardView)
    ensures
        seq_text(body_upto(c, 25)) + closing_text(c) == seq_text(body_upto(c, 35)) + seq_text(
            c.proprietary,
        ) + "END:VCARD\r\n"@,
{
    let base = seq_text(body_upto(c, 25));
    lemma_last_sections_text(c);
    assert(closing_text(c) == last_sections_text(c) + seq_text(c.proprietary)
        + "END:VCARD\r\n"@);
    lemma_append_twice(base, last_sections_text(c), seq_text(c.proprietary));
    lemma_append_twice(
        base,
        last_sections_text(c) + seq_text(c.proprietary),
        "END:VCARD\r\n"@,
    );
}

/// The wire text of a card is its opening line, the line of its version, the wire text of
/// the properties of its body, and its closing line.
pub proof fn lemma_card_text(c: VCardView)
    ensures
        card_text(c) == "BEGIN:VCARD\r\n"@ + version_line(c.version) + seq_text(body(c))
            + "END:VCARD\r\n"@,
{
    let base = "BEGIN:VCARD\r\n"@ + version_line(c.version);
    let u10 = seq_text(body_upto(c, 10));
    let u17 = seq_text(body_upto(c, 17));
    let u25 = seq_text(body_upto(c, 25));
    let u35 = seq_text(body_upto(c, 35));
    let x = seq_text(c.proprietary);
    let end = "END:VCARD\r\n"@;
    lemma_opening_text(c);
    lemma_contact_text(c);
    lemma_work_text(c);
    lemma_closing_text(c);
    lemma_seq_text_concat(body_upto(c, 35), c.proprietary);
    assert(u17 == u10 + contact_text(c));
    assert(u25 == u17 + work_text(c));
    lemma_append_twice(base, u10, contact_text(c));
    lemma_append_twice(base, u17, work_text(c));
    lemma_append_twice(base, u25, closing_text(c));
    lemma_append_twice(base, u35 + x, end);
}

/// The view of the line that opens or closes a card.
pub open spec fn tag_line(kind: PropertyKind) -> PropertyView {
    PropertyView { kind, fields: no_fields(), value: Payload::Text("VCARD"@) }
}

/// The view of the line of the version.
pub open spec fn version_view(v: VersionValue) -> PropertyView {
    PropertyView { kind: PropertyKind::Version, fields: no_fields(), value: Payload::Version(v) }
}

/// A text of ASCII characters without a carriage return, which does not begin with a
/// space or a tab, is readable as a line: its bytes are its characters.
pub proof fn lemma_ascii_line(line: Seq<char>)
    requires
        line.len() >= 1,
        is_ascii_chars(line),
        forall|i: int| 0 <= i < line.len() ==> #[trigger] line[i] != '\r',
        line[0] != ' ',
        line[0] != '\t',
    ensures
        no_carriage_return(encode_utf8(line)),
        encode_utf8(line).len() == line.len(),
        !is_fold(encode_utf8(line)[0]),
{
    is_ascii_chars_encode_utf8(line);
    let bytes = encode_utf8(line);
    assert forall|i: int| 0 <= i < bytes.len() implies #[trigger] bytes[i] != 13 by {
        assert(bytes[i] == line[i] as u8);
        assert('\0' <= line[i] <= '\u{7f}');
        assert(line[i] != '\r');
    }
    assert(bytes[0] == line[0] as u8);
    assert('\0' <= line[0] <= '\u{7f}');
}

/// A plain property whose line is short enough and made of ASCII characters without a
/// carriage return, and does not begin with a space or a tab, is readable.
pub proof fn law_ascii_readable(p: PropertyView, max: u64)
    requires
        writable(p),
        is_ascii_chars(line_text(p)),
        forall|i: int| 0 <= i < line_text(p).len() ==> #[trigger] line_text(p)[i] != '\r',
        line_text(p).len() >= 1,
        line_text(p)[0] != ' ',
        line_text(p)[0] != '\t',
        line_text(p).len() <= max,
    ensures
        readable(p, max),
{
    lemma_ascii_line(line_text(p));
    lemma_wire_bytes(p);
    let bytes = encode_utf8(line_text(p));
    assert(encode_utf8(serialize(p))[0] == bytes[0]);
}

proof fn lemma_literal_line(line: Seq<char>)
    requires
        line.len() >= 1,
        forall|i: int| 0 <= i < line.len() ==> '!' <= #[trigger] line[i] <= '~',
    ensures
        no_carriage_return(encode_utf8(line)),
        encode_utf8(line).len() == line.len(),
        !is_fold(encode_utf8(line)[0]),
{
    assert(is_ascii_chars(line));
    lemma_ascii_line(line);
}

/// The line that opens a card is readable, and is written as `BEGIN:VCARD`.
proof fn lemma_begin_line(max: u64)
    requires
        max >= 11,
    ensures
        serialize(tag_line(PropertyKind::Begin)) == "BEGIN:VCARD\r\n"@,
        readable(tag_line(PropertyKind::Begin), max),
{
    let p = tag_line(PropertyKind::Begin);
    reveal_strlit("BEGIN");
    reveal_strlit(":");
    reveal_strlit("VCARD");
    reveal_strlit("\r\n");
    reveal_strlit("BEGIN:VCARD\r\n");
    reveal_strlit("BEGIN:VCARD");
    assert(crate::wire::fields_text(no_fields()) =~= Seq::<char>::empty());
    assert(line_text(p) =~= "BEGIN:VCARD"@);
    assert(serialize(p) =~= "BEGIN:VCARD\r\n"@);
    assert(crate::inverse::round_trips(p));
    lemma_literal_line("BEGIN:VCARD"@);
    lemma_wire_bytes(p);
}

/// The line that closes a card is readable, and is written as `END:VCARD`.
proof fn lemma_end_line(max: u64)
    requires
        max >= 11,
    ensures
        serialize(tag_line(PropertyKind::End)) == "END:VCARD\r\n"@,
        readable(tag_line(PropertyKind::End), max),
{
    let p = tag_line(PropertyKind::End);
    reveal_strlit("END");
    reveal_strlit(":");
    reveal_strlit("VCARD");
    reveal_strlit("\r\n");
    reveal_strlit("END:VCARD\r\n");
    reveal_strlit("END:VCARD");
    assert(crate::wire::fields_text(no_fields()) =~= Seq::<char>::empty());
    assert(line_text(p) =~= "END:VCARD"@);
    assert(serialize(p) =~= "END:VCARD\r\n"@);
    assert(crate::inverse::round_trips(p));
    lemma_literal_line("END:VCARD"@);
    lemma_wire_bytes(p);
}

/// The line of the version is readable.
proof fn lemma_version_line(v: VersionValue, max: u64)
    requires
        max >= 11,
    ensures
        serialize(version_view(v)) == version_line(v),
        readable(version_view(v), max),
{
    let p = version_view(v);
    reveal_strlit("VERSION");
    reveal_strlit(":");
    reveal_strlit("3.0");
    reveal_strlit("4.0");
    reveal_strlit("VERSION:3.0");
    reveal_strlit("VERSION:4.0");
    assert(crate::wire::fields_text(no_fields()) =~= Seq::<char>::empty());
    assert(crate::inverse::round_trips(p));
    match v {
        VersionValue::V3 => {
            assert(line_text(p) =~= "VERSION:3.0"@);
            lemma_literal_line("VERSION:3.0"@);
        },
        VersionValue::V4 => {
            assert(line_text(p) =~= "VERSION:4.0"@);
            lemma_literal_line("VERSION:4.0"@);
        },
    }
    lemma_wire_bytes(p);
}

/// The bytes that follow the opening line of a written card.
pub open spec fn after_begin(c: VCardView) -> Seq<u8> {
    encode_utf8(version_line(c.version)) + after_version(c)
}

/// The bytes that follow the line of the version of a written card.
pub open spec fn after_version(c: VCardView) -> Seq<u8> {
    encode_utf8(seq_text(body(c))) + encode_utf8("END:VCARD\r\n"@)
}

proof fn lemma_bytes_twice(a: Seq<u8>, b: Seq<u8>, c: Seq<u8>)
    ensures
        (a + b) + c == a + (b + c),
{
    assert((a + b) + c =~= a + (b + c));
}

/// Bytes that begin like a property still do so when more bytes follow.
proof fn lemma_inspect_prefix(a: Seq<u8>, b: Seq<u8>)
    requires
        a.len() >= 2,
        !is_fold(a[0]),
    ensures
        inspect(a + b) is NewProperty,
{
    assert((a + b)[0] == a[0]);
}

proof fn lemma_card_encoding(c: VCardView)
    ensures
        encode_utf8(card_text(c)) == encode_utf8("BEGIN:VCARD\r\n"@) + after_begin(c),
{
    let text_b = "BEGIN:VCARD\r\n"@;
    let text_v = version_line(c.version);
    let text_m = seq_text(body(c));
    let text_e = "END:VCARD\r\n"@;
    lemma_card_text(c);
    lemma_encode_concat(text_b + text_v + text_m, text_e);
    lemma_encode_concat(text_b + text_v, text_m);
    lemma_encode_concat(text_b, text_v);
    let b = encode_utf8(text_b);
    let v = encode_utf8(text_v);
    let m = encode_utf8(text_m);
    let e = encode_utf8(text_e);
    lemma_bytes_twice(b + v, m, e);
    lemma_bytes_twice(b, v, m + e);
}

proof fn lemma_card_starts(c: VCardView, max: u64)
    requires
        all_readable(body(c), max),
        max >= 11,
    ensures
        inspect(after_begin(c)) is NewProperty,
        inspect(after_version(c)) is NewProperty,
        inspect(encode_utf8("END:VCARD\r\n"@)) is NewProperty,
{
    let bytes_v = encode_utf8(version_line(c.version));
    let bytes_e = encode_utf8("END:VCARD\r\n"@);
    lemma_version_line(c.version, max);
    lemma_end_line(max);
    lemma_wire_bytes(version_view(c.version));
    lemma_wire_bytes(tag_line(PropertyKind::End));
    assert(bytes_e.len() >= 2 && !is_fold(bytes_e[0]));
    assert(bytes_v.len() >= 2 && !is_fold(bytes_v[0]));
    lemma_list_start(body(c), bytes_e, max);
    lemma_inspect_prefix(bytes_v, after_version(c));
}

proof fn lemma_read_end(c: VCardView, max: u64)
    requires
        max >= 11,
    ensures
        accumulate(ReaderView { input: encode_utf8("END:VCARD\r\n"@), max }, c) == Ok::<
            VCardView,
            ErrorView,
        >(c),
        after_accumulate(ReaderView { input: encode_utf8("END:VCARD\r\n"@), max }, c)
            == (ReaderView { input: Seq::empty(), max }),
{
    let end = tag_line(PropertyKind::End);
    let none = Seq::<u8>::empty();
    let bytes = encode_utf8("END:VCARD\r\n"@);
    lemma_end_line(max);
    assert(bytes =~= encode_utf8(serialize(end)) + none);
    assert(inspect(none) is NoMoreContent);
    law_read_written(end, none, max);
    let r = ReaderView { input: bytes, max };
    assert(next_property(r) == Ok::<(PropertyView, bool), ErrorView>((end, false)));
    assert(fold_property(c, end, false) == Ok::<(VCardView, bool), ErrorView>((c, true)));
}

proof fn lemma_read_body(c: VCardView, max: u64)
    requires
        well_formed(c),
        all_readable(body(c), max),
        max >= 11,
    ensures
        accumulate(ReaderView { input: after_version(c), max }, empty_card(c.version))
            == Ok::<VCardView, ErrorView>(c),
        after_accumulate(
            ReaderView { input: after_version(c), max },
            empty_card(c.version),
        ) == (ReaderView { input: Seq::empty(), max }),
{
    lemma_card_starts(c, max);
    law_rebuild(c);
    lemma_read_list(body(c), encode_utf8("END:VCARD\r\n"@), empty_card(c.version), max);
    lemma_read_end(c, max);
}

/// A card is read in three steps: the opening line, the line of the version, the body.
proof fn lemma_parse_card(
    r0: ReaderView,
    r1: ReaderView,
    r2: ReaderView,
    last: ReaderView,
    c: VCardView,
)
    requires
        next_property(r0) == Ok::<(PropertyView, bool), ErrorView>(
            (tag_line(PropertyKind::Begin), true),
        ),
        after_line(r0) == r1,
        next_property(r1) == Ok::<(PropertyView, bool), ErrorView>(
            (version_view(c.version), true),
        ),
        after_line(r1) == r2,
        accumulate(r2, empty_card(c.version)) == Ok::<VCardView, ErrorView>(c),
        after_accumulate(r2, empty_card(c.version)) == last,
    ensures
        parse_card(r0) == Ok::<VCardView, ErrorView>(c),
        after_parse_card(r0) == last,
{
}

/// A card that is written is read back as it was.
///
/// For every card that is well formed and whose properties are readable, reading its wire
/// text gives the card, and leaves nothing of the text. The reader must allow at least the
/// eleven bytes of the opening line.
pub proof fn law_card_round_trip(c: VCardView, max: u64)
    requires
        well_formed(c),
        all_readable(body(c), max),
        max >= 11,
    ensures
        parse_card(ReaderView { input: encode_utf8(card_text(c)), max }) == Ok::<
            VCardView,
            ErrorView,
        >(c),
        after_parse_card(ReaderView { input: encode_utf8(card_text(c)), max })
            == (ReaderView { input: Seq::empty(), max }),
{
    lemma_begin_line(max);
    lemma_version_line(c.version, max);
    lemma_card_encoding(c);
    lemma_card_starts(c, max);
    law_read_written(tag_line(PropertyKind::Begin), after_begin(c), max);
    law_read_written(version_view(c.version), after_version(c), max);
    lemma_read_body(c, max);
    lemma_parse_card(
        ReaderView { input: encode_utf8(card_text(c)), max },
        ReaderView { input: after_begin(c), max },
        ReaderView { input: after_version(c), max },
        ReaderView { input: Seq::empty(), max },
        c,
    );
}

/// An empty card is well formed.
pub proof fn lemma_empty_well_formed(v: VersionValue)
    ensures
        well_formed(empty_card(v)),
{
    let c = empty_card(v);
    assert forall|k: PropertyKind| is_multi(k) implies well_keyed(#[trigger] c.buckets[k]) by {
        assert(c.buckets[k] =~= Seq::<Seq<PropertyView>>::empty());
    }
}

/// Folding a property into a well-formed card leaves it well formed.
pub proof fn lemma_fold_well_formed(c: VCardView, p: PropertyView, more: bool)
    requires
        well_formed(c),
        fold_property(c, p, more) is Ok,
    ensures
        well_formed(fold_property(c, p, more)->Ok_0.0),
{
    let next = fold_property(c, p, more)->Ok_0.0;
    let k = p.kind;
    if k == PropertyKind::End {
    } else if is_single(k) {
        assert forall|other: PropertyKind| #[trigger]
            next.singles.contains_key(other) implies is_single(other) && next.singles[other].kind
            == other by {
            if other != k {
                assert(c.singles.contains_key(other));
            }
        }
    } else if is_grouped(k) {
        let g = c.groups[k];
        let g1 = group_add(g, p)->Ok_0;
        assert forall|other: PropertyKind| is_grouped(other) implies all_of_kind(
            #[trigger] next.groups[other],
            other,
        ) && same_alt_id(next.groups[other]) by {
            if other == k {
                assert(all_of_kind(g, k));
                assert forall|i: int| 0 <= i < g1.len() implies (#[trigger] g1[i]).kind == k by {
                    if i < g.len() {
                        assert(g1[i] == g[i]);
                    }
                }
                assert(same_alt_id(g));
                assert forall|i: int| 0 <= i < g1.len() implies alt_of(#[trigger] g1[i])
                    == alt_of(g1[0]) by {
                    if i < g.len() {
                        assert(g1[i] == g[i]);
                    }
                }
            } else {
                assert(next.groups[other] == c.groups[other]);
            }
        }
    } else if is_multi(k) {
        let b = c.buckets[k];
        let b1 = multi_add_view(b, p);
        lemma_bucket_index(b, alt_of(p), 0);
        assert forall|other: PropertyKind| is_multi(other) implies well_keyed(
            #[trigger] next.buckets[other],
        ) && forall|i: int|
            0 <= i < next.buckets[other].len() ==> all_of_kind(
                #[trigger] next.buckets[other][i],
                other,
            ) by {
            if other == k {
                assert(well_keyed(b));
                crate::containers::lemma_multi_add_well_keyed(b, p);
                let at = bucket_index(b, alt_of(p), 0);
                assert forall|i: int| 0 <= i < b1.len() implies all_of_kind(
                    #[trigger] b1[i],
                    k,
                ) by {
                    if 0 <= at < b.len() {
                        if i == at {
                            assert(all_of_kind(b[at], k));
                            assert forall|j: int| 0 <= j < b1[i].len() implies (
                            #[trigger] b1[i][j]).kind == k by {
                                if j < b[at].len() {
                                    assert(b1[i][j] == b[at][j]);
                                }
                            }
                        } else {
                            assert(b1[i] == b[i]);
                            assert(all_of_kind(b[i], k));
                        }
                    } else {
                        if i < b.len() {
                            assert(b1[i] == b[i]);
                            assert(all_of_kind(b[i], k));
                        }
                    }
                }
            } else {
                assert(next.buckets[other] == c.buckets[other]);
            }
        }
    } else {
        assert(k == PropertyKind::Proprietary);
        assert forall|i: int| 0 <= i < next.proprietary.len() implies (
        #[trigger] next.proprietary[i]).kind == PropertyKind::Proprietary by {
            if i < c.proprietary.len() {
                assert(next.proprietary[i] == c.proprietary[i]);
            }
        }
    }
}

/// The card that properties complete, starting from a well-formed card, is well formed.
pub proof fn lemma_accumulate_well_formed(r: ReaderView, c: VCardView)
    requires
        well_formed(c),
        accumulate(r, c) is Ok,
    ensures
        well_formed(accumulate(r, c)->Ok_0),
    decreases r.input.len(),
{
    match next_property(r) {
        Err(e) => {},
        Ok(read) => {
            match fold_property(c, read.0, read.1) {
                Err(e) => {},
                Ok(next) => {
                    lemma_fold_well_formed(c, read.0, read.1);
                    if !next.1 {
                        crate::reader::lemma_logical_line(r.input, r.max);
                        lemma_accumulate_well_formed(after_line(r), next.0);
                    }
                },
            }
        },
    }
}

/// Every card that is read is well formed.
pub proof fn law_read_card_well_formed(r: ReaderView)
    requires
        parse_card(r) is Ok,
    ensures
        well_formed(parse_card(r)->Ok_0),
{
    let first = next_property(r)->Ok_0;
    let r1 = after_line(r);
    let second = next_property(r1)->Ok_0;
    let v = crate::reader::declared_version(second.0);
    lemma_empty_well_formed(v);
    lemma_accumulate_well_formed(after_line(r1), empty_card(v));
}

/// The round trip: a card that was read, if its properties are readable, is written as a
/// text from which the same card is read.
pub proof fn law_round_trip(r: ReaderView, max: u64)
    requires
        parse_card(r) is Ok,
        all_readable(body(parse_card(r)->Ok_0), max),
        max >= 11,
    ensures
        parse_card(
            ReaderView { input: encode_utf8(card_text(parse_card(r)->Ok_0)), max },
        ) == parse_card(r),
{
    law_read_card_well_formed(r);
    law_card_round_trip(parse_card(r)->Ok_0, max);
}

} // verus!
