//! The containers that group the properties of a card by alt-id and find the preferred one.

use crate::errors::{ErrorView, VCardError};
use crate::model::{alt_id_of, rank_of, Alternative, Preferable, PropertyView, WireText};
use crate::text::same_text;
use crate::wire::{buckets_text, lemma_append_twice, seq_text};
use vstd::prelude::*;
use vstd::string::*;

verus! {

/// The views of a sequence of properties.
pub open spec fn views_of<T: View<V = PropertyView>>(s: Seq<T>) -> Seq<PropertyView> {
    s.map_values(|x: T| x@)
}

/// The views of a sequence of buckets of properties.
pub open spec fn bucket_views<T: View<V = PropertyView>>(b: Seq<Seq<T>>) -> Seq<
    Seq<PropertyView>,
> {
    b.map_values(|s: Seq<T>| views_of(s))
}

/// The alt-id of a property; empty if it has none.
pub open spec fn alt_of(p: PropertyView) -> Seq<char> {
    alt_id_of(p.fields.altid)
}

/// The preference rank of a property; 100 if it has none.
pub open spec fn rank_in(p: PropertyView) -> u8 {
    rank_of(p.fields.pref)
}

/// Whether all of `g` have the alt-id of the first.
pub open spec fn same_alt_id(g: Seq<PropertyView>) -> bool {
    forall|i: int| 0 <= i < g.len() ==> alt_of(#[trigger] g[i]) == alt_of(g[0])
}

/// `g` with `p` added at its end. An empty `g` takes any `p`; another takes `p` only if it
/// has the alt-id of the first member.
pub open spec fn group_add(g: Seq<PropertyView>, p: PropertyView) -> Result<
    Seq<PropertyView>,
    ErrorView,
> {
    if g.len() == 0 || alt_of(g[0]) == alt_of(p) {
        Ok(g.push(p))
    } else {
        Err(ErrorView::InvalidAltID { expected_altid: alt_of(g[0]), actual_altid: alt_of(p) })
    }
}

/// Whether `p` is one of `g` and none of `g` has a smaller rank.
pub open spec fn is_preferred(g: Seq<PropertyView>, p: PropertyView) -> bool {
    g.contains(p) && forall|i: int| 0 <= i < g.len() ==> rank_in(p) <= rank_in(#[trigger] g[i])
}

/// The alternative renderings of one logical value, in the order in which they were added.
/// Built by `add_value` alone, all members share one alt-id.
#[derive(Debug, PartialEq)]
pub struct AltIDContainer<T: Alternative>(Vec<T>);

impl<T: Alternative> View for AltIDContainer<T> {
    type V = Seq<T>;

    closed spec fn view(&self) -> Seq<T> {
        self.0@
    }
}

impl<T: Alternative> Default for AltIDContainer<T> {
    fn default() -> (r: Self)
        ensures
            r@ == Seq::<T>::empty(),
    {
        AltIDContainer(Vec::new())
    }
}

impl<T: Alternative> AltIDContainer<T> {
    /// Whether all members share one alt-id.
    pub open spec fn wf(&self) -> bool {
        same_alt_id(views_of(self@))
    }

    /// An empty container.
    pub fn new() -> (r: Self)
        ensures
            r@ == Seq::<T>::empty(),
            r.wf(),
    {
        AltIDContainer(Vec::new())
    }

    /// A container of the given items, in their order. Their alt-ids are not compared.
    pub fn from_vec(items: Vec<T>) -> (r: Self)
        ensures
            r@ == items@,
    {
        AltIDContainer(items)
    }

    /// Adds `item` at the end, unless its alt-id differs from that of the first member.
    pub fn add_value(&mut self, item: T) -> (r: Result<(), VCardError>)
        ensures
            match group_add(views_of(old(self)@), item@) {
                Ok(g) => r is Ok && final(self)@ == old(self)@.push(item) && views_of(
                    final(self)@,
                ) == g,
                Err(e) => r is Err && r->Err_0@ == e && final(self)@ == old(self)@,
            },
            old(self).wf() ==> final(self).wf(),
    {
        if self.0.len() == 0 {
            self.0.push(item);
            assert(views_of(self@) =~= views_of(old(self)@).push(item@));
            return Ok(());
        }
        let prev = self.0[0].get_alt_id();
        let actual = item.get_alt_id();
        if !same_text(prev, actual) {
            return Err(
                VCardError::InvalidAltID {
                    expected_altid: String::from_str(prev),
                    actual_altid: String::from_str(actual),
                },
            );
        }
        self.0.push(item);
        assert(views_of(self@) =~= views_of(old(self)@).push(item@));
        Ok(())
    }

    /// The members, in the order in which they were added.
    pub fn values(&self) -> (r: &[T])
        ensures
            r@ == self@,
    {
        self.0.as_slice()
    }

    /// The members, in the order in which they were added; the container is given up.
    pub fn take_values(self) -> (r: Vec<T>)
        ensures
            r@ == self@,
    {
        self.0
    }

    /// The number of members.
    pub fn len(&self) -> (n: usize)
        ensures
            n == self@.len(),
    {
        self.0.len()
    }

    /// The member at index `i`.
    pub fn get(&self, i: usize) -> (r: &T)
        requires
            i < self@.len(),
        ensures
            *r == self@[i as int],
    {
        &self.0[i]
    }
}

impl<T: Alternative + Preferable> AltIDContainer<T> {
    /// A member with the smallest preference rank; nothing if the container is empty.
    /// Which of several members with that rank is returned is not specified.
    pub fn get_prefered_value(&self) -> (r: Option<&T>)
        ensures
            match r {
                Some(x) => is_preferred(views_of(self@), x@) && self@.contains(*x),
                None => self@.len() == 0,
            },
    {
        let mut best: Option<&T> = None;
        let mut i: usize = 0;
        while i < self.0.len()
            invariant
                i <= self.0.len(),
                match best {
                    Some(x) => (exists|j: int| 0 <= j < i && self@[j] == *x) && forall|k: int|
                        0 <= k < i ==> rank_in(x@) <= rank_in(#[trigger] self@[k]@),
                    None => i == 0,
                },
            decreases self.0.len() - i,
        {
            let item = &self.0[i];
            match best {
                None => {
                    best = Some(item);
                },
                Some(x) => {
                    if x.get_pref() > item.get_pref() {
                        best = Some(item);
                    }
                },
            }
            assert(self@[i as int] == *item);
            i += 1;
        }
        proof {
            match best {
                Some(x) => {
                    let j = choose|j: int| 0 <= j < self@.len() && self@[j] == *x;
                    assert(views_of(self@)[j] == x@);
                    assert forall|k: int| 0 <= k < views_of(self@).len() implies rank_in(x@)
                        <= rank_in(#[trigger] views_of(self@)[k]) by {
                        assert(views_of(self@)[k] == self@[k]@);
                    }
                },
                None => {},
            }
        }
        best
    }
}

impl<T: Alternative + WireText> AltIDContainer<T> {
    /// Appends the wire text of each member, in order.
    pub fn write_to(&self, out: &mut String)
        ensures
            final(out)@ == old(out)@ + seq_text(views_of(self@)),
    {
        let mut i: usize = 0;
        assert(views_of(self@).take(0) =~= Seq::<PropertyView>::empty());
        assert(out@ =~= old(out)@ + seq_text(views_of(self@).take(0)));
        while i < self.0.len()
            invariant
                i <= self.0.len(),
                out@ == old(out)@ + seq_text(views_of(self@).take(i as int)),
            decreases self.0.len() - i,
        {
            let ghost before = views_of(self@).take(i as int);
            let ghost now = views_of(self@).take(i + 1);
            proof {
                assert(now.drop_last() =~= before);
                assert(now.last() == self@[i as int]@);
                lemma_append_twice(old(out)@, seq_text(before), crate::wire::serialize(now.last()));
            }
            self.0[i].write_to(out);
            i += 1;
        }
        assert(views_of(self@).take(self@.len() as int) =~= views_of(self@));
    }

    /// The wire text of the members, in order.
    pub fn to_string(&self) -> (s: String)
        ensures
            s@ == seq_text(views_of(self@)),
    {
        let mut s = String::new();
        self.write_to(&mut s);
        assert(s@ =~= seq_text(views_of(self@)));
        s
    }
}

/// The first index at or after `from` of a bucket whose first member has the alt-id `key`;
/// the number of buckets if there is none.
pub open spec fn bucket_index(b: Seq<Seq<PropertyView>>, key: Seq<char>, from: int) -> int
    decreases b.len() - from,
{
    if from >= b.len() {
        b.len() as int
    } else if b[from].len() > 0 && alt_of(b[from][0]) == key {
        from
    } else {
        bucket_index(b, key, from + 1)
    }
}

/// The index that `bucket_index` returns lies between `from` and the number of buckets.
pub proof fn lemma_bucket_index(b: Seq<Seq<PropertyView>>, key: Seq<char>, from: int)
    requires
        0 <= from <= b.len(),
    ensures
        from <= bucket_index(b, key, from) <= b.len(),
    decreases b.len() - from,
{
    if from < b.len() && !(b[from].len() > 0 && alt_of(b[from][0]) == key) {
        lemma_bucket_index(b, key, from + 1);
    }
}

/// The buckets after `item` was added: at the end of the bucket of its alt-id, or in a new
/// bucket at the end if no bucket has its alt-id.
pub open spec fn multi_add<T: View<V = PropertyView>>(b: Seq<Seq<T>>, item: T) -> Seq<Seq<T>> {
    let i = bucket_index(bucket_views(b), alt_of(item@), 0);
    if 0 <= i < b.len() {
        b.update(i, b[i].push(item))
    } else {
        b.push(seq![item])
    }
}

/// `multi_add` on views.
pub open spec fn multi_add_view(b: Seq<Seq<PropertyView>>, p: PropertyView) -> Seq<
    Seq<PropertyView>,
> {
    let i = bucket_index(b, alt_of(p), 0);
    if 0 <= i < b.len() {
        b.update(i, b[i].push(p))
    } else {
        b.push(seq![p])
    }
}

/// Adding to the buckets and taking views is taking views and adding.
pub proof fn lemma_multi_add_views<T: View<V = PropertyView>>(b: Seq<Seq<T>>, item: T)
    ensures
        bucket_views(multi_add(b, item)) == multi_add_view(bucket_views(b), item@),
{
    let vb = bucket_views(b);
    let i = bucket_index(vb, alt_of(item@), 0);
    lemma_bucket_index(vb, alt_of(item@), 0);
    if 0 <= i < b.len() {
        assert(views_of(b[i].push(item)) =~= vb[i].push(item@));
        assert(bucket_views(b.update(i, b[i].push(item))) =~= vb.update(i, vb[i].push(item@)));
    } else {
        assert(views_of(seq![item]) =~= seq![item@]);
        assert(bucket_views(b.push(seq![item])) =~= vb.push(seq![item@]));
    }
}

/// Whether every bucket has a member, the members of a bucket share their alt-id, and no
/// two buckets have the same alt-id.
pub open spec fn well_keyed(b: Seq<Seq<PropertyView>>) -> bool {
    &&& forall|i: int| 0 <= i < b.len() ==> (#[trigger] b[i]).len() > 0 && same_alt_id(b[i])
    &&& forall|i: int, j: int|
        0 <= i < b.len() && 0 <= j < b.len() && i != j ==> alt_of((#[trigger] b[i])[0]) != alt_of(
            (#[trigger] b[j])[0],
        )
}

/// Adding a property keeps the buckets well keyed.
pub proof fn lemma_multi_add_well_keyed(b: Seq<Seq<PropertyView>>, p: PropertyView)
    requires
        well_keyed(b),
    ensures
        well_keyed(multi_add_view(b, p)),
{
    let i = bucket_index(b, alt_of(p), 0);
    lemma_bucket_index(b, alt_of(p), 0);
    lemma_bucket_index_found(b, alt_of(p), 0);
    let r = multi_add_view(b, p);
    if 0 <= i < b.len() {
        assert forall|k: int| 0 <= k < r.len() implies (#[trigger] r[k]).len() > 0 && same_alt_id(
            r[k],
        ) by {
            if k == i {
                assert(b[i].len() > 0 && same_alt_id(b[i]));
                assert forall|m: int| 0 <= m < r[k].len() implies alt_of(#[trigger] r[k][m])
                    == alt_of(r[k][0]) by {
                    if m < b[i].len() {
                        assert(r[k][m] == b[i][m]);
                    }
                }
            } else {
                assert(r[k] == b[k]);
            }
        }
        assert forall|k: int, j: int|
            0 <= k < r.len() && 0 <= j < r.len() && k != j implies alt_of((#[trigger] r[k])[0])
            != alt_of((#[trigger] r[j])[0]) by {
            assert(b[k].len() > 0 && b[j].len() > 0);
            assert(r[k][0] == b[k][0]);
            assert(r[j][0] == b[j][0]);
        }
    } else {
        assert forall|k: int| 0 <= k < r.len() implies (#[trigger] r[k]).len() > 0 && same_alt_id(
            r[k],
        ) by {
            if k < b.len() {
                assert(r[k] == b[k]);
            }
        }
        assert forall|k: int, j: int|
            0 <= k < r.len() && 0 <= j < r.len() && k != j implies alt_of((#[trigger] r[k])[0])
            != alt_of((#[trigger] r[j])[0]) by {
            if k < b.len() {
                assert(r[k] == b[k]);
                assert(b[k].len() > 0);
            }
            if j < b.len() {
                assert(r[j] == b[j]);
                assert(b[j].len() > 0);
            }
        }
    }
}

/// What the index that `bucket_index` returns says of the buckets.
pub proof fn lemma_bucket_index_found(b: Seq<Seq<PropertyView>>, key: Seq<char>, from: int)
    requires
        0 <= from <= b.len(),
    ensures
        bucket_index(b, key, from) < b.len() ==> b[bucket_index(b, key, from)].len() > 0 && alt_of(
            b[bucket_index(b, key, from)][0],
        ) == key,
        forall|k: int|
            from <= k < bucket_index(b, key, from) ==> !((#[trigger] b[k]).len() > 0 && alt_of(
                b[k][0],
            ) == key),
    decreases b.len() - from,
{
    if from < b.len() && !(b[from].len() > 0 && alt_of(b[from][0]) == key) {
        lemma_bucket_index_found(b, key, from + 1);
    }
}

/// The properties of one kind that a card holds: one bucket for each alt-id in use, in the
/// order in which the alt-ids first came.
#[derive(Debug, PartialEq)]
pub struct MultiAltIDContainer<T: Alternative> {
    buckets: Vec<AltIDContainer<T>>,
}

impl<T: Alternative> View for MultiAltIDContainer<T> {
    type V = Seq<Seq<T>>;

    closed spec fn view(&self) -> Seq<Seq<T>> {
        self.buckets@.map_values(|b: AltIDContainer<T>| b@)
    }
}

impl<T: Alternative> Default for MultiAltIDContainer<T> {
    fn default() -> (r: Self)
        ensures
            r@ == Seq::<Seq<T>>::empty(),
    {
        MultiAltIDContainer::new()
    }
}

impl<T: Alternative> MultiAltIDContainer<T> {
    #[verifier::type_invariant]
    spec fn well_formed(&self) -> bool {
        well_keyed(bucket_views(self@))
    }

    /// A container without buckets.
    pub fn new() -> (r: Self)
        ensures
            r@ == Seq::<Seq<T>>::empty(),
    {
        let r = MultiAltIDContainer { buckets: Vec::new() };
        assert(r@ =~= Seq::<Seq<T>>::empty());
        assert(bucket_views(r@) =~= Seq::<Seq<PropertyView>>::empty());
        r
    }

    /// Adds `value` to the bucket of its alt-id, which is made if it is not there yet.
    pub fn add_value(&mut self, value: T)
        ensures
            final(self)@ == multi_add(old(self)@, value),
    {
        proof {
            use_type_invariant(&*self);
        }
        let ghost b = self@;
        let ghost vb = bucket_views(b);
        let ghost key = alt_of(value@);
        let n = self.buckets.len();
        let mut i: usize = 0;
        let mut found = false;
        while i < n && !found
            invariant
                i <= n,
                n == self.buckets.len(),
                self@ == b,
                vb == bucket_views(b),
                key == alt_of(value@),
                bucket_index(vb, key, 0) == bucket_index(vb, key, i as int),
                found ==> i < n && vb[i as int].len() > 0 && alt_of(vb[i as int][0]) == key,
            decreases n - i + if found { 0int } else { 1int },
        {
            assert(vb[i as int] == views_of(self.buckets@[i as int]@));
            if self.buckets[i].len() > 0 {
                let first = self.buckets[i].get(0);
                assert(vb[i as int][0] == first@);
                if same_text(first.get_alt_id(), value.get_alt_id()) {
                    found = true;
                }
            }
            if !found {
                i += 1;
            }
        }
        proof {
            lemma_multi_add_views(b, value);
            lemma_multi_add_well_keyed(vb, value@);
        }
        let mut buckets: Vec<AltIDContainer<T>> = Vec::new();
        core::mem::swap(&mut self.buckets, &mut buckets);
        assert(buckets@.map_values(|b: AltIDContainer<T>| b@) == b);
        if i < n {
            assert(bucket_index(vb, key, 0) == i);
            let mut bucket = buckets.remove(i);
            assert(bucket@ == b[i as int]);
            assert(views_of(bucket@) == vb[i as int]);
            match bucket.add_value(value) {
                Ok(()) => {},
                Err(_) => {
                    assert(false);
                },
            }
            buckets.insert(i, bucket);
        } else {
            let mut items: Vec<T> = Vec::new();
            items.push(value);
            assert(items@ =~= seq![value]);
            buckets.push(AltIDContainer::from_vec(items));
        }
        assert(buckets@.map_values(|b: AltIDContainer<T>| b@) =~= multi_add(b, value));
        self.buckets = buckets;
    }

    /// The buckets, in the order in which their alt-ids first came.
    pub fn values(&self) -> (r: &Vec<AltIDContainer<T>>)
        ensures
            r@.map_values(|b: AltIDContainer<T>| b@) == self@,
            well_keyed(bucket_views(self@)),
    {
        proof {
            use_type_invariant(self);
        }
        &self.buckets
    }

    /// The buckets, in the order in which their alt-ids first came; the container is given up.
    pub fn take_values(self) -> (r: Vec<AltIDContainer<T>>)
        ensures
            r@.map_values(|b: AltIDContainer<T>| b@) == self@,
    {
        self.buckets
    }
}

/// Whether `p` is in one of the buckets `b` and nothing in any bucket has a smaller rank.
pub open spec fn is_preferred_of_all(b: Seq<Seq<PropertyView>>, p: PropertyView) -> bool {
    &&& exists|i: int| 0 <= i < b.len() && (#[trigger] b[i]).contains(p)
    &&& forall|i: int, j: int|
        0 <= i < b.len() && 0 <= j < b[i].len() ==> rank_in(p) <= rank_in(#[trigger] b[i][j])
}

impl<T: Alternative + Preferable> MultiAltIDContainer<T> {
    /// A member of some bucket with the smallest preference rank of all buckets; nothing if
    /// there is no member. Which of several members with that rank is returned is not specified.
    pub fn get_prefered_value(&self) -> (r: Option<&T>)
        ensures
            match r {
                Some(x) => is_preferred_of_all(bucket_views(self@), x@) && exists|i: int|
                    0 <= i < self@.len() && (#[trigger] self@[i]).contains(*x),
                None => forall|i: int| 0 <= i < self@.len() ==> (#[trigger] self@[i]).len() == 0,
            },
    {
        let ghost vb = bucket_views(self@);
        let mut best: Option<&T> = None;
        let mut i: usize = 0;
        while i < self.buckets.len()
            invariant
                i <= self.buckets.len(),
                vb == bucket_views(self@),
                match best {
                    Some(x) => (exists|k: int| 0 <= k < i && (#[trigger] self@[k]).contains(*x))
                        && (exists|k: int| 0 <= k < i && (#[trigger] vb[k]).contains(x@))
                        && forall|k: int, j: int|
                        0 <= k < i && 0 <= j < vb[k].len() ==> rank_in(x@) <= rank_in(
                            #[trigger] vb[k][j],
                        ),
                    None => forall|k: int| 0 <= k < i ==> (#[trigger] self@[k]).len() == 0,
                },
            decreases self.buckets.len() - i,
        {
            assert(vb[i as int] == views_of(self.buckets@[i as int]@));
            assert(self@[i as int] == self.buckets@[i as int]@);
            match self.buckets[i].get_prefered_value() {
                Some(c) => {
                    match best {
                        None => {
                            best = Some(c);
                        },
                        Some(x) => {
                            if x.get_pref() > c.get_pref() {
                                best = Some(c);
                            }
                        },
                    }
                },
                None => {
                    assert(vb[i as int].len() == 0);
                },
            }
            i += 1;
        }
        best
    }
}

impl<T: Alternative + WireText> MultiAltIDContainer<T> {
    /// Appends the wire text of each member, bucket after bucket.
    pub fn write_to(&self, out: &mut String)
        ensures
            final(out)@ == old(out)@ + buckets_text(bucket_views(self@)),
    {
        let ghost vb = bucket_views(self@);
        let mut i: usize = 0;
        assert(vb.take(0) =~= Seq::<Seq<PropertyView>>::empty());
        assert(out@ =~= old(out)@ + buckets_text(vb.take(0)));
        while i < self.buckets.len()
            invariant
                i <= self.buckets.len(),
                vb == bucket_views(self@),
                out@ == old(out)@ + buckets_text(vb.take(i as int)),
            decreases self.buckets.len() - i,
        {
            let ghost before = vb.take(i as int);
            let ghost now = vb.take(i + 1);
            proof {
                assert(now.drop_last() =~= before);
                assert(now.last() == views_of(self.buckets@[i as int]@));
                lemma_append_twice(old(out)@, buckets_text(before), seq_text(now.last()));
            }
            self.buckets[i].write_to(out);
            i += 1;
        }
        assert(vb.take(vb.len() as int) =~= vb);
    }

    /// The wire text of the members, bucket after bucket.
    pub fn to_string(&self) -> (s: String)
        ensures
            s@ == buckets_text(bucket_views(self@)),
    {
        let mut s = String::new();
        self.write_to(&mut s);
        assert(s@ =~= buckets_text(bucket_views(self@)));
        s
    }
}

} // verus!
