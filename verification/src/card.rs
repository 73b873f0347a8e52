//! A whole card: what it holds, how one more property is folded into it, and its wire text.

use crate::containers::{
    bucket_views, group_add, lemma_multi_add_views, multi_add_view, views_of, AltIDContainer,
    MultiAltIDContainer,
};
use crate::errors::{ErrorView, VCardError};
use crate::model::{Payload, PropertyKind, PropertyView, VersionValue, WireText};
use crate::property::Property;
use crate::records::{
    Adr, Anniversary, BDay, CalAdURI, CalURI, Categories, ClientPidMap, Email, FbURL, FN,
    Gender, Geo, Impp, Key, Kind, Lang, Logo, Member, N, Nickname, Note, Org, Photo, ProdId,
    ProprietaryProperty, Related, Rev, Role, Sound, Source, Tel, Title, Tz, Uid, VcardURL,
    Version, Xml,
};
use crate::text::same_text;
use crate::wire::{buckets_text, lemma_append_twice, seq_text, serialize};
use vstd::prelude::*;
use vstd::string::*;

verus! {

/// A single card.
#[derive(Debug, PartialEq)]
pub struct VCard {
    pub version: Version,
    pub source: MultiAltIDContainer<Source>,
    pub kind: Option<Kind>,
    pub xml: MultiAltIDContainer<Xml>,
    pub fn_property: MultiAltIDContainer<FN>,
    pub n: AltIDContainer<N>,
    pub nickname: MultiAltIDContainer<Nickname>,
    pub photo: MultiAltIDContainer<Photo>,
    pub bday: AltIDContainer<BDay>,
    pub anniversary: AltIDContainer<Anniversary>,
    pub gender: Option<Gender>,
    pub adr: MultiAltIDContainer<Adr>,
    pub tel: MultiAltIDContainer<Tel>,
    pub email: MultiAltIDContainer<Email>,
    pub impp: MultiAltIDContainer<Impp>,
    pub lang: MultiAltIDContainer<Lang>,
    pub tz: MultiAltIDContainer<Tz>,
    pub geo: MultiAltIDContainer<Geo>,
    pub title: MultiAltIDContainer<Title>,
    pub role: MultiAltIDContainer<Role>,
    pub logo: MultiAltIDContainer<Logo>,
    pub org: MultiAltIDContainer<Org>,
    pub member: MultiAltIDContainer<Member>,
    pub related: MultiAltIDContainer<Related>,
    pub categories: MultiAltIDContainer<Categories>,
    pub note: MultiAltIDContainer<Note>,
    pub prodid: Option<ProdId>,
    pub rev: Option<Rev>,
    pub sound: MultiAltIDContainer<Sound>,
    pub uid: Option<Uid>,
    pub clientpidmap: Option<ClientPidMap>,
    pub url: MultiAltIDContainer<VcardURL>,
    pub key: MultiAltIDContainer<Key>,
    pub fburl: MultiAltIDContainer<FbURL>,
    pub caluri: MultiAltIDContainer<CalURI>,
    pub caladuri: MultiAltIDContainer<CalAdURI>,
    pub proprietary_properties: Vec<ProprietaryProperty>,
}

/// Whether a card holds at most one property of this kind.
pub open spec fn is_single(k: PropertyKind) -> bool {
    k == PropertyKind::Kind
        || k == PropertyKind::Gender
        || k == PropertyKind::ProdId
        || k == PropertyKind::Rev
        || k == PropertyKind::Uid
        || k == PropertyKind::ClientPidMap
}

/// Whether a card holds one logical value of this kind, with its alternative renderings.
pub open spec fn is_grouped(k: PropertyKind) -> bool {
    k == PropertyKind::N
        || k == PropertyKind::BDay
        || k == PropertyKind::Anniversary
}

/// Whether a card holds any number of logical values of this kind.
pub open spec fn is_multi(k: PropertyKind) -> bool {
    k == PropertyKind::Source
        || k == PropertyKind::Xml
        || k == PropertyKind::FN
        || k == PropertyKind::NickName
        || k == PropertyKind::Photo
        || k == PropertyKind::Adr
        || k == PropertyKind::Tel
        || k == PropertyKind::Email
        || k == PropertyKind::Impp
        || k == PropertyKind::Lang
        || k == PropertyKind::Tz
        || k == PropertyKind::Geo
        || k == PropertyKind::Title
        || k == PropertyKind::Role
        || k == PropertyKind::Logo
        || k == PropertyKind::Org
        || k == PropertyKind::Member
        || k == PropertyKind::Related
        || k == PropertyKind::Categories
        || k == PropertyKind::Note
        || k == PropertyKind::Sound
        || k == PropertyKind::Url
        || k == PropertyKind::Key
        || k == PropertyKind::FbUrl
        || k == PropertyKind::CalUri
        || k == PropertyKind::CalAdUri
}

/// The name under which a cardinality error reports a property that may occur once.
pub open spec fn single_name(k: PropertyKind) -> Seq<char> {
    match k {
        PropertyKind::Kind => "kind"@,
        PropertyKind::Gender => "gender"@,
        PropertyKind::ProdId => "prodid"@,
        PropertyKind::Rev => "rev"@,
        PropertyKind::Uid => "uid"@,
        PropertyKind::ClientPidMap => "clientpidmap"@,
        _ => Seq::empty(),
    }
}

/// A card as a mathematical value.
pub struct VCardView {
    pub version: VersionValue,
    /// The properties that may occur once, where present.
    pub singles: Map<PropertyKind, PropertyView>,
    /// For each kind with one logical value: its renderings, in the order added.
    pub groups: Map<PropertyKind, Seq<PropertyView>>,
    /// For each kind with many logical values: one bucket for each alt-id.
    pub buckets: Map<PropertyKind, Seq<Seq<PropertyView>>>,
    /// The extension properties, in the order added.
    pub proprietary: Seq<PropertyView>,
}

/// The view of an optional property.
pub open spec fn opt_view<T: View<V = PropertyView>>(v: Option<T>) -> Option<PropertyView> {
    match v {
        Some(x) => Some(x@),
        None => None,
    }
}

impl VCard {
    /// The property of kind `k` that may occur once, if the card has it.
    pub open spec fn single(&self, k: PropertyKind) -> Option<PropertyView> {
        match k {
            PropertyKind::Kind => opt_view(self.kind),
            PropertyKind::Gender => opt_view(self.gender),
            PropertyKind::ProdId => opt_view(self.prodid),
            PropertyKind::Rev => opt_view(self.rev),
            PropertyKind::Uid => opt_view(self.uid),
            PropertyKind::ClientPidMap => opt_view(self.clientpidmap),
            _ => None,
        }
    }

    /// The renderings of the one logical value of kind `k`.
    pub open spec fn group_of(&self, k: PropertyKind) -> Seq<PropertyView> {
        match k {
            PropertyKind::N => views_of(self.n@),
            PropertyKind::BDay => views_of(self.bday@),
            PropertyKind::Anniversary => views_of(self.anniversary@),
            _ => Seq::empty(),
        }
    }

    /// The buckets of kind `k`.
    pub open spec fn buckets_of(&self, k: PropertyKind) -> Seq<Seq<PropertyView>> {
        match k {
            PropertyKind::Source => bucket_views(self.source@),
            PropertyKind::Xml => bucket_views(self.xml@),
            PropertyKind::FN => bucket_views(self.fn_property@),
            PropertyKind::NickName => bucket_views(self.nickname@),
            PropertyKind::Photo => bucket_views(self.photo@),
            PropertyKind::Adr => bucket_views(self.adr@),
            PropertyKind::Tel => bucket_views(self.tel@),
            PropertyKind::Email => bucket_views(self.email@),
            PropertyKind::Impp => bucket_views(self.impp@),
            PropertyKind::Lang => bucket_views(self.lang@),
            PropertyKind::Tz => bucket_views(self.tz@),
            PropertyKind::Geo => bucket_views(self.geo@),
            PropertyKind::Title => bucket_views(self.title@),
            PropertyKind::Role => bucket_views(self.role@),
            PropertyKind::Logo => bucket_views(self.logo@),
            PropertyKind::Org => bucket_views(self.org@),
            PropertyKind::Member => bucket_views(self.member@),
            PropertyKind::Related => bucket_views(self.related@),
            PropertyKind::Categories => bucket_views(self.categories@),
            PropertyKind::Note => bucket_views(self.note@),
            PropertyKind::Sound => bucket_views(self.sound@),
            PropertyKind::Url => bucket_views(self.url@),
            PropertyKind::Key => bucket_views(self.key@),
            PropertyKind::FbUrl => bucket_views(self.fburl@),
            PropertyKind::CalUri => bucket_views(self.caluri@),
            PropertyKind::CalAdUri => bucket_views(self.caladuri@),
            _ => Seq::empty(),
        }
    }
}

impl View for VCard {
    type V = VCardView;

    open spec fn view(&self) -> VCardView {
        VCardView {
            version: self.version.value,
            singles: Map::new(
                |k: PropertyKind| self.single(k) is Some,
                |k: PropertyKind| self.single(k)->Some_0,
            ),
            groups: Map::new(|k: PropertyKind| is_grouped(k), |k: PropertyKind| self.group_of(k)),
            buckets: Map::new(|k: PropertyKind| is_multi(k), |k: PropertyKind| self.buckets_of(k)),
            proprietary: views_of(self.proprietary_properties@),
        }
    }
}

/// A card of the given version that holds nothing else.
pub open spec fn empty_card(version: VersionValue) -> VCardView {
    VCardView {
        version,
        singles: Map::empty(),
        groups: Map::new(|k: PropertyKind| is_grouped(k), |k: PropertyKind| Seq::empty()),
        buckets: Map::new(|k: PropertyKind| is_multi(k), |k: PropertyKind| Seq::empty()),
        proprietary: Seq::empty(),
    }
}

/// The card after the property `p` was read, and whether `p` ended the card. `more` says
/// whether content follows `p`.
///
/// A second `VERSION` or `BEGIN` is one too many. `END` ends the card if its tag is `VCARD`
/// and nothing follows. A property that may occur once must not be there yet. A rendering
/// joins its logical value, an extension property the list at its end.
pub open spec fn fold_property(c: VCardView, p: PropertyView, more: bool) -> Result<
    (VCardView, bool),
    ErrorView,
> {
    if p.kind == PropertyKind::Version {
        Err(ErrorView::InvalidCardinality { expected: 1, property: "VERSION"@ })
    } else if p.kind == PropertyKind::Begin {
        Err(ErrorView::InvalidCardinality { expected: 1, property: "BEGIN"@ })
    } else if p.kind == PropertyKind::End {
        if p.value == Payload::Text("VCARD"@) && !more {
            Ok((c, true))
        } else {
            Err(ErrorView::InvalidEndProperty)
        }
    } else if is_single(p.kind) {
        if c.singles.contains_key(p.kind) {
            Err(ErrorView::InvalidCardinality { expected: 1, property: single_name(p.kind) })
        } else {
            Ok((VCardView { singles: c.singles.insert(p.kind, p), ..c }, false))
        }
    } else if is_grouped(p.kind) {
        match group_add(c.groups[p.kind], p) {
            Ok(g) => Ok((VCardView { groups: c.groups.insert(p.kind, g), ..c }, false)),
            Err(e) => Err(e),
        }
    } else if is_multi(p.kind) {
        Ok(
            (
                VCardView {
                    buckets: c.buckets.insert(p.kind, multi_add_view(c.buckets[p.kind], p)),
                    ..c
                },
                false,
            ),
        )
    } else {
        Ok((VCardView { proprietary: c.proprietary.push(p), ..c }, false))
    }
}

/// The wire text of an optional property: nothing if it is absent.
pub open spec fn opt_line(p: Option<PropertyView>) -> Seq<char> {
    match p {
        Some(x) => serialize(x),
        None => Seq::empty(),
    }
}

/// The wire text of the property of kind `k` that may occur once.
pub open spec fn single_text(c: VCardView, k: PropertyKind) -> Seq<char> {
    if c.singles.contains_key(k) {
        serialize(c.singles[k])
    } else {
        Seq::empty()
    }
}

/// The line of the version.
pub open spec fn version_line(v: VersionValue) -> Seq<char> {
    serialize(
        PropertyView {
            kind: PropertyKind::Version,
            fields: crate::model::no_fields(),
            value: Payload::Version(v),
        },
    )
}

/// The first part of a card: the opening line, the version, and what names the object.
pub open spec fn opening_text(c: VCardView) -> Seq<char> {
    "BEGIN:VCARD\r\n"@
        + version_line(c.version)
        + buckets_text(c.buckets[PropertyKind::Source])
        + single_text(c, PropertyKind::Kind)
        + buckets_text(c.buckets[PropertyKind::Xml])
        + buckets_text(c.buckets[PropertyKind::FN])
        + seq_text(c.groups[PropertyKind::N])
        + buckets_text(c.buckets[PropertyKind::NickName])
        + buckets_text(c.buckets[PropertyKind::Photo])
        + seq_text(c.groups[PropertyKind::BDay])
        + seq_text(c.groups[PropertyKind::Anniversary])
        + single_text(c, PropertyKind::Gender)
}

/// The second part of a card: how the object is reached.
pub open spec fn contact_text(c: VCardView) -> Seq<char> {
    buckets_text(c.buckets[PropertyKind::Adr])
        + buckets_text(c.buckets[PropertyKind::Tel])
        + buckets_text(c.buckets[PropertyKind::Email])
        + buckets_text(c.buckets[PropertyKind::Impp])
        + buckets_text(c.buckets[PropertyKind::Lang])
        + buckets_text(c.buckets[PropertyKind::Tz])
        + buckets_text(c.buckets[PropertyKind::Geo])
}

/// The third part of a card: what the object does, and what is said of it.
pub open spec fn work_text(c: VCardView) -> Seq<char> {
    buckets_text(c.buckets[PropertyKind::Title])
        + buckets_text(c.buckets[PropertyKind::Role])
        + buckets_text(c.buckets[PropertyKind::Logo])
        + buckets_text(c.buckets[PropertyKind::Org])
        + buckets_text(c.buckets[PropertyKind::Member])
        + buckets_text(c.buckets[PropertyKind::Related])
        + buckets_text(c.buckets[PropertyKind::Categories])
        + buckets_text(c.buckets[PropertyKind::Note])
}

/// The last part of a card: what identifies the card, its links, the extension
/// properties and the closing line.
pub open spec fn closing_text(c: VCardView) -> Seq<char> {
    single_text(c, PropertyKind::ProdId)
        + single_text(c, PropertyKind::Rev)
        + single_text(c, PropertyKind::Uid)
        + single_text(c, PropertyKind::ClientPidMap)
        + buckets_text(c.buckets[PropertyKind::Sound])
        + buckets_text(c.buckets[PropertyKind::Url])
        + buckets_text(c.buckets[PropertyKind::Key])
        + buckets_text(c.buckets[PropertyKind::FbUrl])
        + buckets_text(c.buckets[PropertyKind::CalUri])
        + buckets_text(c.buckets[PropertyKind::CalAdUri])
        + seq_text(c.proprietary)
        + "END:VCARD\r\n"@
}

/// The wire text of a card. The singletons and the containers come in a fixed order; the
/// members of a container come in the order in which it holds them.
pub open spec fn card_text(c: VCardView) -> Seq<char> {
    opening_text(c) + contact_text(c) + work_text(c) + closing_text(c)
}

/// Appends the wire text of `input` to `out`, if there is a property.
pub fn write_vcard_property<T: WireText>(out: &mut String, input: &Option<T>)
    ensures
        final(out)@ == old(out)@ + opt_line(opt_view(*input)),
{
    match input {
        Some(item) => {
            item.write_to(out);
        },
        None => {
            assert(out@ =~= old(out)@ + opt_line(opt_view(*input)));
        },
    }
}

impl Default for VCard {
    fn default() -> (r: VCard)
        ensures
            r@ == empty_card(VersionValue::V4),
    {
        let r = VCard::new(Version { value: VersionValue::V4 });
        r
    }
}

impl VCard {
    /// A card of the given version that holds nothing else.
    pub fn new(version: Version) -> (r: VCard)
        ensures
            r@ == empty_card(version.value),
    {
        let r = VCard {
            version,
            source: MultiAltIDContainer::new(),
            kind: None,
            xml: MultiAltIDContainer::new(),
            fn_property: MultiAltIDContainer::new(),
            n: AltIDContainer::new(),
            nickname: MultiAltIDContainer::new(),
            photo: MultiAltIDContainer::new(),
            bday: AltIDContainer::new(),
            anniversary: AltIDContainer::new(),
            gender: None,
            adr: MultiAltIDContainer::new(),
            tel: MultiAltIDContainer::new(),
            email: MultiAltIDContainer::new(),
            impp: MultiAltIDContainer::new(),
            lang: MultiAltIDContainer::new(),
            tz: MultiAltIDContainer::new(),
            geo: MultiAltIDContainer::new(),
            title: MultiAltIDContainer::new(),
            role: MultiAltIDContainer::new(),
            logo: MultiAltIDContainer::new(),
            org: MultiAltIDContainer::new(),
            member: MultiAltIDContainer::new(),
            related: MultiAltIDContainer::new(),
            categories: MultiAltIDContainer::new(),
            note: MultiAltIDContainer::new(),
            prodid: None,
            rev: None,
            sound: MultiAltIDContainer::new(),
            uid: None,
            clientpidmap: None,
            url: MultiAltIDContainer::new(),
            key: MultiAltIDContainer::new(),
            fburl: MultiAltIDContainer::new(),
            caluri: MultiAltIDContainer::new(),
            caladuri: MultiAltIDContainer::new(),
            proprietary_properties: Vec::new(),
        };
        proof {
            assert(bucket_views(r.source@) =~= Seq::<Seq<PropertyView>>::empty());
            assert(bucket_views(r.xml@) =~= Seq::<Seq<PropertyView>>::empty());
            assert(bucket_views(r.fn_property@) =~= Seq::<Seq<PropertyView>>::empty());
            assert(views_of(r.n@) =~= Seq::<PropertyView>::empty());
            assert(bucket_views(r.nickname@) =~= Seq::<Seq<PropertyView>>::empty());
            assert(bucket_views(r.photo@) =~= Seq::<Seq<PropertyView>>::empty());
            assert(views_of(r.bday@) =~= Seq::<PropertyView>::empty());
            assert(views_of(r.anniversary@) =~= Seq::<PropertyView>::empty());
            assert(bucket_views(r.adr@) =~= Seq::<Seq<PropertyView>>::empty());
            assert(bucket_views(r.tel@) =~= Seq::<Seq<PropertyView>>::empty());
            assert(bucket_views(r.email@) =~= Seq::<Seq<PropertyView>>::empty());
            assert(bucket_views(r.impp@) =~= Seq::<Seq<PropertyView>>::empty());
            assert(bucket_views(r.lang@) =~= Seq::<Seq<PropertyView>>::empty());
            assert(bucket_views(r.tz@) =~= Seq::<Seq<PropertyView>>::empty());
            assert(bucket_views(r.geo@) =~= Seq::<Seq<PropertyView>>::empty());
            assert(bucket_views(r.title@) =~= Seq::<Seq<PropertyView>>::empty());
            assert(bucket_views(r.role@) =~= Seq::<Seq<PropertyView>>::empty());
            assert(bucket_views(r.logo@) =~= Seq::<Seq<PropertyView>>::empty());
            assert(bucket_views(r.org@) =~= Seq::<Seq<PropertyView>>::empty());
            assert(bucket_views(r.member@) =~= Seq::<Seq<PropertyView>>::empty());
            assert(bucket_views(r.related@) =~= Seq::<Seq<PropertyView>>::empty());
            assert(bucket_views(r.categories@) =~= Seq::<Seq<PropertyView>>::empty());
            assert(bucket_views(r.note@) =~= Seq::<Seq<PropertyView>>::empty());
            assert(bucket_views(r.sound@) =~= Seq::<Seq<PropertyView>>::empty());
            assert(bucket_views(r.url@) =~= Seq::<Seq<PropertyView>>::empty());
            assert(bucket_views(r.key@) =~= Seq::<Seq<PropertyView>>::empty());
            assert(bucket_views(r.fburl@) =~= Seq::<Seq<PropertyView>>::empty());
            assert(bucket_views(r.caluri@) =~= Seq::<Seq<PropertyView>>::empty());
            assert(bucket_views(r.caladuri@) =~= Seq::<Seq<PropertyView>>::empty());
            assert(r@.singles =~= Map::<PropertyKind, PropertyView>::empty());
            assert(r@.groups =~= empty_card(version.value).groups);
            assert(r@.buckets =~= empty_card(version.value).buckets);
            assert(r@.proprietary =~= Seq::<PropertyView>::empty());
        }
        r
    }

    fn add_source(&mut self, x: Source)
        ensures
            fold_property(old(self)@, x@, false) == Ok::<(VCardView, bool), ErrorView>(
                (final(self)@, false),
            ),
    {
        proof {
            lemma_multi_add_views(self.source@, x);
        }
        self.source.add_value(x);
        proof {
            let c = old(self)@;
            assert(self@.singles =~= c.singles);
            assert(self@.groups =~= c.groups);
            assert(self@.buckets =~= c.buckets.insert(
                PropertyKind::Source,
                multi_add_view(c.buckets[PropertyKind::Source], x@),
            ));
        }
    }

    fn set_kind(&mut self, x: Kind) -> (r: Result<(), VCardError>)
        ensures
            match fold_property(old(self)@, x@, false) {
                Ok(next) => r is Ok && next == (final(self)@, false),
                Err(e) => r is Err && r->Err_0@ == e && final(self)@ == old(self)@,
            },
    {
        if self.kind.is_some() {
            return Err(
                VCardError::InvalidCardinality {
                    expected: 1,
                    property: String::from_str("kind"),
                },
            );
        }
        self.kind = Some(x);
        proof {
            let c = old(self)@;
            assert(self@.groups =~= c.groups);
            assert(self@.buckets =~= c.buckets);
            assert(self@.singles =~= c.singles.insert(PropertyKind::Kind, x@));
        }
        Ok(())
    }

    fn add_xml(&mut self, x: Xml)
        ensures
            fold_property(old(self)@, x@, false) == Ok::<(VCardView, bool), ErrorView>(
                (final(self)@, false),
            ),
    {
        proof {
            lemma_multi_add_views(self.xml@, x);
        }
        self.xml.add_value(x);
        proof {
            let c = old(self)@;
            assert(self@.singles =~= c.singles);
            assert(self@.groups =~= c.groups);
            assert(self@.buckets =~= c.buckets.insert(
                PropertyKind::Xml,
                multi_add_view(c.buckets[PropertyKind::Xml], x@),
            ));
        }
    }

    fn add_fn_property(&mut self, x: FN)
        ensures
            fold_property(old(self)@, x@, false) == Ok::<(VCardView, bool), ErrorView>(
                (final(self)@, false),
            ),
    {
        proof {
            lemma_multi_add_views(self.fn_property@, x);
        }
        self.fn_property.add_value(x);
        proof {
            let c = old(self)@;
            assert(self@.singles =~= c.singles);
            assert(self@.groups =~= c.groups);
            assert(self@.buckets =~= c.buckets.insert(
                PropertyKind::FN,
                multi_add_view(c.buckets[PropertyKind::FN], x@),
            ));
        }
    }

    fn add_n(&mut self, x: N) -> (r: Result<(), VCardError>)
        ensures
            match fold_property(old(self)@, x@, false) {
                Ok(next) => r is Ok && next == (final(self)@, false),
                Err(e) => r is Err && r->Err_0@ == e && final(self)@ == old(self)@,
            },
    {
        let r = self.n.add_value(x);
        proof {
            let c = old(self)@;
            assert(self@.singles =~= c.singles);
            assert(self@.buckets =~= c.buckets);
            if r is Ok {
                assert(self@.groups =~= c.groups.insert(
                    PropertyKind::N,
                    views_of(self.n@),
                ));
            } else {
                assert(self@.groups =~= c.groups);
            }
        }
        r
    }

    fn add_nickname(&mut self, x: Nickname)
        ensures
            fold_property(old(self)@, x@, false) == Ok::<(VCardView, bool), ErrorView>(
                (final(self)@, false),
            ),
    {
        proof {
            lemma_multi_add_views(self.nickname@, x);
        }
        self.nickname.add_value(x);
        proof {
            let c = old(self)@;
            assert(self@.singles =~= c.singles);
            assert(self@.groups =~= c.groups);
            assert(self@.buckets =~= c.buckets.insert(
                PropertyKind::NickName,
                multi_add_view(c.buckets[PropertyKind::NickName], x@),
            ));
        }
    }

    fn add_photo(&mut self, x: Photo)
        ensures
            fold_property(old(self)@, x@, false) == Ok::<(VCardView, bool), ErrorView>(
                (final(self)@, false),
            ),
    {
        proof {
            lemma_multi_add_views(self.photo@, x);
        }
        self.photo.add_value(x);
        proof {
            let c = old(self)@;
            assert(self@.singles =~= c.singles);
            assert(self@.groups =~= c.groups);
            assert(self@.buckets =~= c.buckets.insert(
                PropertyKind::Photo,
                multi_add_view(c.buckets[PropertyKind::Photo], x@),
            ));
        }
    }

    fn add_bday(&mut self, x: BDay) -> (r: Result<(), VCardError>)
        ensures
            match fold_property(old(self)@, x@, false) {
                Ok(next) => r is Ok && next == (final(self)@, false),
                Err(e) => r is Err && r->Err_0@ == e && final(self)@ == old(self)@,
            },
    {
        let r = self.bday.add_value(x);
        proof {
            let c = old(self)@;
            assert(self@.singles =~= c.singles);
            assert(self@.buckets =~= c.buckets);
            if r is Ok {
                assert(self@.groups =~= c.groups.insert(
                    PropertyKind::BDay,
                    views_of(self.bday@),
                ));
            } else {
                assert(self@.groups =~= c.groups);
            }
        }
        r
    }

    fn add_anniversary(&mut self, x: Anniversary) -> (r: Result<(), VCardError>)
        ensures
            match fold_property(old(self)@, x@, false) {
                Ok(next) => r is Ok && next == (final(self)@, false),
                Err(e) => r is Err && r->Err_0@ == e && final(self)@ == old(self)@,
            },
    {
        let r = self.anniversary.add_value(x);
        proof {
            let c = old(self)@;
            assert(self@.singles =~= c.singles);
            assert(self@.buckets =~= c.buckets);
            if r is Ok {
                assert(self@.groups =~= c.groups.insert(
                    PropertyKind::Anniversary,
                    views_of(self.anniversary@),
                ));
            } else {
                assert(self@.groups =~= c.groups);
            }
        }
        r
    }

    fn set_gender(&mut self, x: Gender) -> (r: Result<(), VCardError>)
        ensures
            match fold_property(old(self)@, x@, false) {
                Ok(next) => r is Ok && next == (final(self)@, false),
                Err(e) => r is Err && r->Err_0@ == e && final(self)@ == old(self)@,
            },
    {
        if self.gender.is_some() {
            return Err(
                VCardError::InvalidCardinality {
                    expected: 1,
                    property: String::from_str("gender"),
                },
            );
        }
        self.gender = Some(x);
        proof {
            let c = old(self)@;
            assert(self@.groups =~= c.groups);
            assert(self@.buckets =~= c.buckets);
            assert(self@.singles =~= c.singles.insert(PropertyKind::Gender, x@));
        }
        Ok(())
    }

    fn add_adr(&mut self, x: Adr)
        ensures
            fold_property(old(self)@, x@, false) == Ok::<(VCardView, bool), ErrorView>(
                (final(self)@, false),
            ),
    {
        proof {
            lemma_multi_add_views(self.adr@, x);
        }
        self.adr.add_value(x);
        proof {
            let c = old(self)@;
            assert(self@.singles =~= c.singles);
            assert(self@.groups =~= c.groups);
            assert(self@.buckets =~= c.buckets.insert(
                PropertyKind::Adr,
                multi_add_view(c.buckets[PropertyKind::Adr], x@),
            ));
        }
    }

    fn add_tel(&mut self, x: Tel)
        ensures
            fold_property(old(self)@, x@, false) == Ok::<(VCardView, bool), ErrorView>(
                (final(self)@, false),
            ),
    {
        proof {
            lemma_multi_add_views(self.tel@, x);
        }
        self.tel.add_value(x);
        proof {
            let c = old(self)@;
            assert(self@.singles =~= c.singles);
            assert(self@.groups =~= c.groups);
            assert(self@.buckets =~= c.buckets.insert(
                PropertyKind::Tel,
                multi_add_view(c.buckets[PropertyKind::Tel], x@),
            ));
        }
    }

    fn add_email(&mut self, x: Email)
        ensures
            fold_property(old(self)@, x@, false) == Ok::<(VCardView, bool), ErrorView>(
                (final(self)@, false),
            ),
    {
        proof {
            lemma_multi_add_views(self.email@, x);
        }
        self.email.add_value(x);
        proof {
            let c = old(self)@;
            assert(self@.singles =~= c.singles);
            assert(self@.groups =~= c.groups);
            assert(self@.buckets =~= c.buckets.insert(
                PropertyKind::Email,
                multi_add_view(c.buckets[PropertyKind::Email], x@),
            ));
        }
    }

    fn add_impp(&mut self, x: Impp)
        ensures
            fold_property(old(self)@, x@, false) == Ok::<(VCardView, bool), ErrorView>(
                (final(self)@, false),
            ),
    {
        proof {
            lemma_multi_add_views(self.impp@, x);
        }
        self.impp.add_value(x);
        proof {
            let c = old(self)@;
            assert(self@.singles =~= c.singles);
            assert(self@.groups =~= c.groups);
            assert(self@.buckets =~= c.buckets.insert(
                PropertyKind::Impp,
                multi_add_view(c.buckets[PropertyKind::Impp], x@),
            ));
        }
    }

    fn add_lang(&mut self, x: Lang)
        ensures
            fold_property(old(self)@, x@, false) == Ok::<(VCardView, bool), ErrorView>(
                (final(self)@, false),
            ),
    {
        proof {
            lemma_multi_add_views(self.lang@, x);
        }
        self.lang.add_value(x);
        proof {
            let c = old(self)@;
            assert(self@.singles =~= c.singles);
            assert(self@.groups =~= c.groups);
            assert(self@.buckets =~= c.buckets.insert(
                PropertyKind::Lang,
                multi_add_view(c.buckets[PropertyKind::Lang], x@),
            ));
        }
    }

    fn add_tz(&mut self, x: Tz)
        ensures
            fold_property(old(self)@, x@, false) == Ok::<(VCardView, bool), ErrorView>(
                (final(self)@, false),
            ),
    {
        proof {
            lemma_multi_add_views(self.tz@, x);
        }
        self.tz.add_value(x);
        proof {
            let c = old(self)@;
            assert(self@.singles =~= c.singles);
            assert(self@.groups =~= c.groups);
            assert(self@.buckets =~= c.buckets.insert(
                PropertyKind::Tz,
                multi_add_view(c.buckets[PropertyKind::Tz], x@),
            ));
        }
    }

    fn add_geo(&mut self, x: Geo)
        ensures
            fold_property(old(self)@, x@, false) == Ok::<(VCardView, bool), ErrorView>(
                (final(self)@, false),
            ),
    {
        proof {
            lemma_multi_add_views(self.geo@, x);
        }
        self.geo.add_value(x);
        proof {
            let c = old(self)@;
            assert(self@.singles =~= c.singles);
            assert(self@.groups =~= c.groups);
            assert(self@.buckets =~= c.buckets.insert(
                PropertyKind::Geo,
                multi_add_view(c.buckets[PropertyKind::Geo], x@),
            ));
        }
    }

    fn add_title(&mut self, x: Title)
        ensures
            fold_property(old(self)@, x@, false) == Ok::<(VCardView, bool), ErrorView>(
                (final(self)@, false),
            ),
    {
        proof {
            lemma_multi_add_views(self.title@, x);
        }
        self.title.add_value(x);
        proof {
            let c = old(self)@;
            assert(self@.singles =~= c.singles);
            assert(self@.groups =~= c.groups);
            assert(self@.buckets =~= c.buckets.insert(
                PropertyKind::Title,
                multi_add_view(c.buckets[PropertyKind::Title], x@),
            ));
        }
    }

    fn add_role(&mut self, x: Role)
        ensures
            fold_property(old(self)@, x@, false) == Ok::<(VCardView, bool), ErrorView>(
                (final(self)@, false),
            ),
    {
        proof {
            lemma_multi_add_views(self.role@, x);
        }
        self.role.add_value(x);
        proof {
            let c = old(self)@;
            assert(self@.singles =~= c.singles);
            assert(self@.groups =~= c.groups);
            assert(self@.buckets =~= c.buckets.insert(
                PropertyKind::Role,
                multi_add_view(c.buckets[PropertyKind::Role], x@),
            ));
        }
    }

    fn add_logo(&mut self, x: Logo)
        ensures
            fold_property(old(self)@, x@, false) == Ok::<(VCardView, bool), ErrorView>(
                (final(self)@, false),
            ),
    {
        proof {
            lemma_multi_add_views(self.logo@, x);
        }
        self.logo.add_value(x);
        proof {
            let c = old(self)@;
            assert(self@.singles =~= c.singles);
            assert(self@.groups =~= c.groups);
            assert(self@.buckets =~= c.buckets.insert(
                PropertyKind::Logo,
                multi_add_view(c.buckets[PropertyKind::Logo], x@),
            ));
        }
    }

    fn add_org(&mut self, x: Org)
        ensures
            fold_property(old(self)@, x@, false) == Ok::<(VCardView, bool), ErrorView>(
                (final(self)@, false),
            ),
    {
        proof {
            lemma_multi_add_views(self.org@, x);
        }
        self.org.add_value(x);
        proof {
            let c = old(self)@;
            assert(self@.singles =~= c.singles);
            assert(self@.groups =~= c.groups);
            assert(self@.buckets =~= c.buckets.insert(
                PropertyKind::Org,
                multi_add_view(c.buckets[PropertyKind::Org], x@),
            ));
        }
    }

    fn add_member(&mut self, x: Member)
        ensures
            fold_property(old(self)@, x@, false) == Ok::<(VCardView, bool), ErrorView>(
                (final(self)@, false),
            ),
    {
        proof {
            lemma_multi_add_views(self.member@, x);
        }
        self.member.add_value(x);
        proof {
            let c = old(self)@;
            assert(self@.singles =~= c.singles);
            assert(self@.groups =~= c.groups);
            assert(self@.buckets =~= c.buckets.insert(
                PropertyKind::Member,
                multi_add_view(c.buckets[PropertyKind::Member], x@),
            ));
        }
    }

    fn add_related(&mut self, x: Related)
        ensures
            fold_property(old(self)@, x@, false) == Ok::<(VCardView, bool), ErrorView>(
                (final(self)@, false),
            ),
    {
        proof {
            lemma_multi_add_views(self.related@, x);
        }
        self.related.add_value(x);
        proof {
            let c = old(self)@;
            assert(self@.singles =~= c.singles);
            assert(self@.groups =~= c.groups);
            assert(self@.buckets =~= c.buckets.insert(
                PropertyKind::Related,
                multi_add_view(c.buckets[PropertyKind::Related], x@),
            ));
        }
    }

    fn add_categories(&mut self, x: Categories)
        ensures
            fold_property(old(self)@, x@, false) == Ok::<(VCardView, bool), ErrorView>(
                (final(self)@, false),
            ),
    {
        proof {
            lemma_multi_add_views(self.categories@, x);
        }
        self.categories.add_value(x);
        proof {
            let c = old(self)@;
            assert(self@.singles =~= c.singles);
            assert(self@.groups =~= c.groups);
            assert(self@.buckets =~= c.buckets.insert(
                PropertyKind::Categories,
                multi_add_view(c.buckets[PropertyKind::Categories], x@),
            ));
        }
    }

    fn add_note(&mut self, x: Note)
        ensures
            fold_property(old(self)@, x@, false) == Ok::<(VCardView, bool), ErrorView>(
                (final(self)@, false),
            ),
    {
        proof {
            lemma_multi_add_views(self.note@, x);
        }
        self.note.add_value(x);
        proof {
            let c = old(self)@;
            assert(self@.singles =~= c.singles);
            assert(self@.groups =~= c.groups);
            assert(self@.buckets =~= c.buckets.insert(
                PropertyKind::Note,
                multi_add_view(c.buckets[PropertyKind::Note], x@),
            ));
        }
    }

    fn set_prodid(&mut self, x: ProdId) -> (r: Result<(), VCardError>)
        ensures
            match fold_property(old(self)@, x@, false) {
                Ok(next) => r is Ok && next == (final(self)@, false),
                Err(e) => r is Err && r->Err_0@ == e && final(self)@ == old(self)@,
            },
    {
        if self.prodid.is_some() {
            return Err(
                VCardError::InvalidCardinality {
                    expected: 1,
                    property: String::from_str("prodid"),
                },
            );
        }
        self.prodid = Some(x);
        proof {
            let c = old(self)@;
            assert(self@.groups =~= c.groups);
            assert(self@.buckets =~= c.buckets);
            assert(self@.singles =~= c.singles.insert(PropertyKind::ProdId, x@));
        }
        Ok(())
    }

    fn set_rev(&mut self, x: Rev) -> (r: Result<(), VCardError>)
        ensures
            match fold_property(old(self)@, x@, false) {
                Ok(next) => r is Ok && next == (final(self)@, false),
                Err(e) => r is Err && r->Err_0@ == e && final(self)@ == old(self)@,
            },
    {
        if self.rev.is_some() {
            return Err(
                VCardError::InvalidCardinality {
                    expected: 1,
                    property: String::from_str("rev"),
                },
            );
        }
        self.rev = Some(x);
        proof {
            let c = old(self)@;
            assert(self@.groups =~= c.groups);
            assert(self@.buckets =~= c.buckets);
            assert(self@.singles =~= c.singles.insert(PropertyKind::Rev, x@));
        }
        Ok(())
    }

    fn add_sound(&mut self, x: Sound)
        ensures
            fold_property(old(self)@, x@, false) == Ok::<(VCardView, bool), ErrorView>(
                (final(self)@, false),
            ),
    {
        proof {
            lemma_multi_add_views(self.sound@, x);
        }
        self.sound.add_value(x);
        proof {
            let c = old(self)@;
            assert(self@.singles =~= c.singles);
            assert(self@.groups =~= c.groups);
            assert(self@.buckets =~= c.buckets.insert(
                PropertyKind::Sound,
                multi_add_view(c.buckets[PropertyKind::Sound], x@),
            ));
        }
    }

    fn set_uid(&mut self, x: Uid) -> (r: Result<(), VCardError>)
        ensures
            match fold_property(old(self)@, x@, false) {
                Ok(next) => r is Ok && next == (final(self)@, false),
                Err(e) => r is Err && r->Err_0@ == e && final(self)@ == old(self)@,
            },
    {
        if self.uid.is_some() {
            return Err(
                VCardError::InvalidCardinality {
                    expected: 1,
                    property: String::from_str("uid"),
                },
            );
        }
        self.uid = Some(x);
        proof {
            let c = old(self)@;
            assert(self@.groups =~= c.groups);
            assert(self@.buckets =~= c.buckets);
            assert(self@.singles =~= c.singles.insert(PropertyKind::Uid, x@));
        }
        Ok(())
    }

    fn set_clientpidmap(&mut self, x: ClientPidMap) -> (r: Result<(), VCardError>)
        ensures
            match fold_property(old(self)@, x@, false) {
                Ok(next) => r is Ok && next == (final(self)@, false),
                Err(e) => r is Err && r->Err_0@ == e && final(self)@ == old(self)@,
            },
    {
        if self.clientpidmap.is_some() {
            return Err(
                VCardError::InvalidCardinality {
                    expected: 1,
                    property: String::from_str("clientpidmap"),
                },
            );
        }
        self.clientpidmap = Some(x);
        proof {
            let c = old(self)@;
            assert(self@.groups =~= c.groups);
            assert(self@.buckets =~= c.buckets);
            assert(self@.singles =~= c.singles.insert(PropertyKind::ClientPidMap, x@));
        }
        Ok(())
    }

    fn add_url(&mut self, x: VcardURL)
        ensures
            fold_property(old(self)@, x@, false) == Ok::<(VCardView, bool), ErrorView>(
                (final(self)@, false),
            ),
    {
        proof {
            lemma_multi_add_views(self.url@, x);
        }
        self.url.add_value(x);
        proof {
            let c = old(self)@;
            assert(self@.singles =~= c.singles);
            assert(self@.groups =~= c.groups);
            assert(self@.buckets =~= c.buckets.insert(
                PropertyKind::Url,
                multi_add_view(c.buckets[PropertyKind::Url], x@),
            ));
        }
    }

    fn add_key(&mut self, x: Key)
        ensures
            fold_property(old(self)@, x@, false) == Ok::<(VCardView, bool), ErrorView>(
                (final(self)@, false),
            ),
    {
        proof {
            lemma_multi_add_views(self.key@, x);
        }
        self.key.add_value(x);
        proof {
            let c = old(self)@;
            assert(self@.singles =~= c.singles);
            assert(self@.groups =~= c.groups);
            assert(self@.buckets =~= c.buckets.insert(
                PropertyKind::Key,
                multi_add_view(c.buckets[PropertyKind::Key], x@),
            ));
        }
    }

    fn add_fburl(&mut self, x: FbURL)
        ensures
            fold_property(old(self)@, x@, false) == Ok::<(VCardView, bool), ErrorView>(
                (final(self)@, false),
            ),
    {
        proof {
            lemma_multi_add_views(self.fburl@, x);
        }
        self.fburl.add_value(x);
        proof {
            let c = old(self)@;
            assert(self@.singles =~= c.singles);
            assert(self@.groups =~= c.groups);
            assert(self@.buckets =~= c.buckets.insert(
                PropertyKind::FbUrl,
                multi_add_view(c.buckets[PropertyKind::FbUrl], x@),
            ));
        }
    }

    fn add_caluri(&mut self, x: CalURI)
        ensures
            fold_property(old(self)@, x@, false) == Ok::<(VCardView, bool), ErrorView>(
                (final(self)@, false),
            ),
    {
        proof {
            lemma_multi_add_views(self.caluri@, x);
        }
        self.caluri.add_value(x);
        proof {
            let c = old(self)@;
            assert(self@.singles =~= c.singles);
            assert(self@.groups =~= c.groups);
            assert(self@.buckets =~= c.buckets.insert(
                PropertyKind::CalUri,
                multi_add_view(c.buckets[PropertyKind::CalUri], x@),
            ));
        }
    }

    fn add_caladuri(&mut self, x: CalAdURI)
        ensures
            fold_property(old(self)@, x@, false) == Ok::<(VCardView, bool), ErrorView>(
                (final(self)@, false),
            ),
    {
        proof {
            lemma_multi_add_views(self.caladuri@, x);
        }
        self.caladuri.add_value(x);
        proof {
            let c = old(self)@;
            assert(self@.singles =~= c.singles);
            assert(self@.groups =~= c.groups);
            assert(self@.buckets =~= c.buckets.insert(
                PropertyKind::CalAdUri,
                multi_add_view(c.buckets[PropertyKind::CalAdUri], x@),
            ));
        }
    }

    fn add_proprietary(&mut self, x: ProprietaryProperty)
        ensures
            fold_property(old(self)@, x@, false) == Ok::<(VCardView, bool), ErrorView>(
                (final(self)@, false),
            ),
    {
        self.proprietary_properties.push(x);
        proof {
            let c = old(self)@;
            assert(self@.singles =~= c.singles);
            assert(self@.groups =~= c.groups);
            assert(self@.buckets =~= c.buckets);
            assert(self@.proprietary =~= c.proprietary.push(x@));
        }
    }

    /// Folds one more property into the card. Returns whether the property ended the card.
    /// On an error the card is as it was.
    pub fn add_property(&mut self, prop: Property, more: bool) -> (r: Result<bool, VCardError>)
        ensures
            match fold_property(old(self)@, prop@, more) {
                Ok(next) => r is Ok && next == (final(self)@, r->Ok_0),
                Err(e) => r is Err && r->Err_0@ == e && final(self)@ == old(self)@,
            },
    {
        match prop {
            Property::Version(_) => Err(
                VCardError::InvalidCardinality {
                    expected: 1,
                    property: String::from_str("VERSION"),
                },
            ),
            Property::Begin { value } => Err(
                VCardError::InvalidCardinality { expected: 1, property: String::from_str("BEGIN") },
            ),
            Property::End { value } => {
                if same_text(value.as_str(), "VCARD") && !more {
                    Ok(true)
                } else {
                    Err(VCardError::InvalidEndProperty)
                }
            },
            Property::Source(x) => {
                self.add_source(x);
                Ok(false)
            },
            Property::Kind(x) => match self.set_kind(x) {
                Ok(()) => Ok(false),
                Err(e) => Err(e),
            },
            Property::Xml(x) => {
                self.add_xml(x);
                Ok(false)
            },
            Property::FN(x) => {
                self.add_fn_property(x);
                Ok(false)
            },
            Property::N(x) => match self.add_n(x) {
                Ok(()) => Ok(false),
                Err(e) => Err(e),
            },
            Property::NickName(x) => {
                self.add_nickname(x);
                Ok(false)
            },
            Property::Photo(x) => {
                self.add_photo(x);
                Ok(false)
            },
            Property::BDay(x) => match self.add_bday(x) {
                Ok(()) => Ok(false),
                Err(e) => Err(e),
            },
            Property::Anniversary(x) => match self.add_anniversary(x) {
                Ok(()) => Ok(false),
                Err(e) => Err(e),
            },
            Property::Gender(x) => match self.set_gender(x) {
                Ok(()) => Ok(false),
                Err(e) => Err(e),
            },
            Property::Adr(x) => {
                self.add_adr(x);
                Ok(false)
            },
            Property::Tel(x) => {
                self.add_tel(x);
                Ok(false)
            },
            Property::Email(x) => {
                self.add_email(x);
                Ok(false)
            },
            Property::Impp(x) => {
                self.add_impp(x);
                Ok(false)
            },
            Property::Lang(x) => {
                self.add_lang(x);
                Ok(false)
            },
            Property::Tz(x) => {
                self.add_tz(x);
                Ok(false)
            },
            Property::Geo(x) => {
                self.add_geo(x);
                Ok(false)
            },
            Property::Title(x) => {
                self.add_title(x);
                Ok(false)
            },
            Property::Role(x) => {
                self.add_role(x);
                Ok(false)
            },
            Property::Logo(x) => {
                self.add_logo(x);
                Ok(false)
            },
            Property::Org(x) => {
                self.add_org(x);
                Ok(false)
            },
            Property::Member(x) => {
                self.add_member(x);
                Ok(false)
            },
            Property::Related(x) => {
                self.add_related(x);
                Ok(false)
            },
            Property::Categories(x) => {
                self.add_categories(x);
                Ok(false)
            },
            Property::Note(x) => {
                self.add_note(x);
                Ok(false)
            },
            Property::ProdId(x) => match self.set_prodid(x) {
                Ok(()) => Ok(false),
                Err(e) => Err(e),
            },
            Property::Rev(x) => match self.set_rev(x) {
                Ok(()) => Ok(false),
                Err(e) => Err(e),
            },
            Property::Sound(x) => {
                self.add_sound(x);
                Ok(false)
            },
            Property::Uid(x) => match self.set_uid(x) {
                Ok(()) => Ok(false),
                Err(e) => Err(e),
            },
            Property::ClientPidMap(x) => match self.set_clientpidmap(x) {
                Ok(()) => Ok(false),
                Err(e) => Err(e),
            },
            Property::Url(x) => {
                self.add_url(x);
                Ok(false)
            },
            Property::Key(x) => {
                self.add_key(x);
                Ok(false)
            },
            Property::FbUrl(x) => {
                self.add_fburl(x);
                Ok(false)
            },
            Property::CalUri(x) => {
                self.add_caluri(x);
                Ok(false)
            },
            Property::CalAdUri(x) => {
                self.add_caladuri(x);
                Ok(false)
            },
            Property::Proprietary(x) => {
                self.add_proprietary(x);
                Ok(false)
            },
        }
    }

    fn write_opening(&self, out: &mut String)
        ensures
            final(out)@ == old(out)@ + opening_text(self@),
    {
        let ghost c = self@;
        let ghost base = old(out)@;
        out.append("BEGIN:VCARD\r\n");
        let ghost acc = "BEGIN:VCARD\r\n"@;
        self.version.write_to(out);
        proof {
            lemma_append_twice(base, acc, version_line(c.version));
            acc = acc + version_line(c.version);
        }
        assert(c.buckets[PropertyKind::Source] == bucket_views(self.source@));
        let ghost prev = out@;
        self.source.write_to(out);
        proof {
            assert(out@ == prev + buckets_text(c.buckets[PropertyKind::Source]));
            lemma_append_twice(base, acc, buckets_text(c.buckets[PropertyKind::Source]));
            acc = acc + buckets_text(c.buckets[PropertyKind::Source]);
        }
        assert(out@ == base + acc);
        assert(single_text(c, PropertyKind::Kind) == opt_line(opt_view(self.kind)));
        let ghost prev = out@;
        write_vcard_property(out, &self.kind);
        proof {
            assert(out@ == prev + single_text(c, PropertyKind::Kind));
            lemma_append_twice(base, acc, single_text(c, PropertyKind::Kind));
            acc = acc + single_text(c, PropertyKind::Kind);
        }
        assert(out@ == base + acc);
        assert(c.buckets[PropertyKind::Xml] == bucket_views(self.xml@));
        let ghost prev = out@;
        self.xml.write_to(out);
        proof {
            assert(out@ == prev + buckets_text(c.buckets[PropertyKind::Xml]));
            lemma_append_twice(base, acc, buckets_text(c.buckets[PropertyKind::Xml]));
            acc = acc + buckets_text(c.buckets[PropertyKind::Xml]);
        }
        assert(out@ == base + acc);
        assert(c.buckets[PropertyKind::FN] == bucket_views(self.fn_property@));
        let ghost prev = out@;
        self.fn_property.write_to(out);
        proof {
            assert(out@ == prev + buckets_text(c.buckets[PropertyKind::FN]));
            lemma_append_twice(base, acc, buckets_text(c.buckets[PropertyKind::FN]));
            acc = acc + buckets_text(c.buckets[PropertyKind::FN]);
        }
        assert(out@ == base + acc);
        assert(c.groups[PropertyKind::N] == views_of(self.n@));
        let ghost prev = out@;
        self.n.write_to(out);
        proof {
            assert(out@ == prev + seq_text(c.groups[PropertyKind::N]));
            lemma_append_twice(base, acc, seq_text(c.groups[PropertyKind::N]));
            acc = acc + seq_text(c.groups[PropertyKind::N]);
        }
        assert(out@ == base + acc);
        assert(c.buckets[PropertyKind::NickName] == bucket_views(self.nickname@));
        let ghost prev = out@;
        self.nickname.write_to(out);
        proof {
            assert(out@ == prev + buckets_text(c.buckets[PropertyKind::NickName]));
            lemma_append_twice(base, acc, buckets_text(c.buckets[PropertyKind::NickName]));
            acc = acc + buckets_text(c.buckets[PropertyKind::NickName]);
        }
        assert(out@ == base + acc);
        assert(c.buckets[PropertyKind::Photo] == bucket_views(self.photo@));
        let ghost prev = out@;
        self.photo.write_to(out);
        proof {
            assert(out@ == prev + buckets_text(c.buckets[PropertyKind::Photo]));
            lemma_append_twice(base, acc, buckets_text(c.buckets[PropertyKind::Photo]));
            acc = acc + buckets_text(c.buckets[PropertyKind::Photo]);
        }
        assert(out@ == base + acc);
        assert(c.groups[PropertyKind::BDay] == views_of(self.bday@));
        let ghost prev = out@;
        self.bday.write_to(out);
        proof {
            assert(out@ == prev + seq_text(c.groups[PropertyKind::BDay]));
            lemma_append_twice(base, acc, seq_text(c.groups[PropertyKind::BDay]));
            acc = acc + seq_text(c.groups[PropertyKind::BDay]);
        }
        assert(out@ == base + acc);
        assert(c.groups[PropertyKind::Anniversary] == views_of(self.anniversary@));
        let ghost prev = out@;
        self.anniversary.write_to(out);
        proof {
            assert(out@ == prev + seq_text(c.groups[PropertyKind::Anniversary]));
            lemma_append_twice(base, acc, seq_text(c.groups[PropertyKind::Anniversary]));
            acc = acc + seq_text(c.groups[PropertyKind::Anniversary]);
        }
        assert(out@ == base + acc);
        assert(single_text(c, PropertyKind::Gender) == opt_line(opt_view(self.gender)));
        let ghost prev = out@;
        write_vcard_property(out, &self.gender);
        proof {
            assert(out@ == prev + single_text(c, PropertyKind::Gender));
            lemma_append_twice(base, acc, single_text(c, PropertyKind::Gender));
            acc = acc + single_text(c, PropertyKind::Gender);
        }
        assert(out@ == base + acc);
    }

    fn write_contact(&self, out: &mut String)
        ensures
            final(out)@ == old(out)@ + contact_text(self@),
    {
        let ghost c = self@;
        let ghost base = old(out)@;
        assert(c.buckets[PropertyKind::Adr] == bucket_views(self.adr@));
        self.adr.write_to(out);
        let ghost acc = buckets_text(c.buckets[PropertyKind::Adr]);
        assert(out@ == base + acc);
        assert(c.buckets[PropertyKind::Tel] == bucket_views(self.tel@));
        let ghost prev = out@;
        self.tel.write_to(out);
        proof {
            assert(out@ == prev + buckets_text(c.buckets[PropertyKind::Tel]));
            lemma_append_twice(base, acc, buckets_text(c.buckets[PropertyKind::Tel]));
            acc = acc + buckets_text(c.buckets[PropertyKind::Tel]);
        }
        assert(out@ == base + acc);
        assert(c.buckets[PropertyKind::Email] == bucket_views(self.email@));
        let ghost prev = out@;
        self.email.write_to(out);
        proof {
            assert(out@ == prev + buckets_text(c.buckets[PropertyKind::Email]));
            lemma_append_twice(base, acc, buckets_text(c.buckets[PropertyKind::Email]));
            acc = acc + buckets_text(c.buckets[PropertyKind::Email]);
        }
        assert(out@ == base + acc);
        assert(c.buckets[PropertyKind::Impp] == bucket_views(self.impp@));
        let ghost prev = out@;
        self.impp.write_to(out);
        proof {
            assert(out@ == prev + buckets_text(c.buckets[PropertyKind::Impp]));
            lemma_append_twice(base, acc, buckets_text(c.buckets[PropertyKind::Impp]));
            acc = acc + buckets_text(c.buckets[PropertyKind::Impp]);
        }
        assert(out@ == base + acc);
        assert(c.buckets[PropertyKind::Lang] == bucket_views(self.lang@));
        let ghost prev = out@;
        self.lang.write_to(out);
        proof {
            assert(out@ == prev + buckets_text(c.buckets[PropertyKind::Lang]));
            lemma_append_twice(base, acc, buckets_text(c.buckets[PropertyKind::Lang]));
            acc = acc + buckets_text(c.buckets[PropertyKind::Lang]);
        }
        assert(out@ == base + acc);
        assert(c.buckets[PropertyKind::Tz] == bucket_views(self.tz@));
        let ghost prev = out@;
        self.tz.write_to(out);
        proof {
            assert(out@ == prev + buckets_text(c.buckets[PropertyKind::Tz]));
            lemma_append_twice(base, acc, buckets_text(c.buckets[PropertyKind::Tz]));
            acc = acc + buckets_text(c.buckets[PropertyKind::Tz]);
        }
        assert(out@ == base + acc);
        assert(c.buckets[PropertyKind::Geo] == bucket_views(self.geo@));
        let ghost prev = out@;
        self.geo.write_to(out);
        proof {
            assert(out@ == prev + buckets_text(c.buckets[PropertyKind::Geo]));
            lemma_append_twice(base, acc, buckets_text(c.buckets[PropertyKind::Geo]));
            acc = acc + buckets_text(c.buckets[PropertyKind::Geo]);
        }
        assert(out@ == base + acc);
    }

    fn write_work(&self, out: &mut String)
        ensures
            final(out)@ == old(out)@ + work_text(self@),
    {
        let ghost c = self@;
        let ghost base = old(out)@;
        assert(c.buckets[PropertyKind::Title] == bucket_views(self.title@));
        self.title.write_to(out);
        let ghost acc = buckets_text(c.buckets[PropertyKind::Title]);
        assert(out@ == base + acc);
        assert(c.buckets[PropertyKind::Role] == bucket_views(self.role@));
        let ghost prev = out@;
        self.role.write_to(out);
        proof {
            assert(out@ == prev + buckets_text(c.buckets[PropertyKind::Role]));
            lemma_append_twice(base, acc, buckets_text(c.buckets[PropertyKind::Role]));
            acc = acc + buckets_text(c.buckets[PropertyKind::Role]);
        }
        assert(out@ == base + acc);
        assert(c.buckets[PropertyKind::Logo] == bucket_views(self.logo@));
        let ghost prev = out@;
        self.logo.write_to(out);
        proof {
            assert(out@ == prev + buckets_text(c.buckets[PropertyKind::Logo]));
            lemma_append_twice(base, acc, buckets_text(c.buckets[PropertyKind::Logo]));
            acc = acc + buckets_text(c.buckets[PropertyKind::Logo]);
        }
        assert(out@ == base + acc);
        assert(c.buckets[PropertyKind::Org] == bucket_views(self.org@));
        let ghost prev = out@;
        self.org.write_to(out);
        proof {
            assert(out@ == prev + buckets_text(c.buckets[PropertyKind::Org]));
            lemma_append_twice(base, acc, buckets_text(c.buckets[PropertyKind::Org]));
            acc = acc + buckets_text(c.buckets[PropertyKind::Org]);
        }
        assert(out@ == base + acc);
        assert(c.buckets[PropertyKind::Member] == bucket_views(self.member@));
        let ghost prev = out@;
        self.member.write_to(out);
        proof {
            assert(out@ == prev + buckets_text(c.buckets[PropertyKind::Member]));
            lemma_append_twice(base, acc, buckets_text(c.buckets[PropertyKind::Member]));
            acc = acc + buckets_text(c.buckets[PropertyKind::Member]);
        }
        assert(out@ == base + acc);
        assert(c.buckets[PropertyKind::Related] == bucket_views(self.related@));
        let ghost prev = out@;
        self.related.write_to(out);
        proof {
            assert(out@ == prev + buckets_text(c.buckets[PropertyKind::Related]));
            lemma_append_twice(base, acc, buckets_text(c.buckets[PropertyKind::Related]));
            acc = acc + buckets_text(c.buckets[PropertyKind::Related]);
        }
        assert(out@ == base + acc);
        assert(c.buckets[PropertyKind::Categories] == bucket_views(self.categories@));
        let ghost prev = out@;
        self.categories.write_to(out);
        proof {
            assert(out@ == prev + buckets_text(c.buckets[PropertyKind::Categories]));
            lemma_append_twice(base, acc, buckets_text(c.buckets[PropertyKind::Categories]));
            acc = acc + buckets_text(c.buckets[PropertyKind::Categories]);
        }
        assert(out@ == base + acc);
        assert(c.buckets[PropertyKind::Note] == bucket_views(self.note@));
        let ghost prev = out@;
        self.note.write_to(out);
        proof {
            assert(out@ == prev + buckets_text(c.buckets[PropertyKind::Note]));
            lemma_append_twice(base, acc, buckets_text(c.buckets[PropertyKind::Note]));
            acc = acc + buckets_text(c.buckets[PropertyKind::Note]);
        }
        assert(out@ == base + acc);
    }

    fn write_closing(&self, out: &mut String)
        ensures
            final(out)@ == old(out)@ + closing_text(self@),
    {
        let ghost c = self@;
        let ghost base = old(out)@;
        assert(single_text(c, PropertyKind::ProdId) == opt_line(opt_view(self.prodid)));
        write_vcard_property(out, &self.prodid);
        let ghost acc = single_text(c, PropertyKind::ProdId);
        assert(out@ == base + acc);
        assert(single_text(c, PropertyKind::Rev) == opt_line(opt_view(self.rev)));
        let ghost prev = out@;
        write_vcard_property(out, &self.rev);
        proof {
            assert(out@ == prev + single_text(c, PropertyKind::Rev));
            lemma_append_twice(base, acc, single_text(c, PropertyKind::Rev));
            acc = acc + single_text(c, PropertyKind::Rev);
        }
        assert(out@ == base + acc);
        assert(single_text(c, PropertyKind::Uid) == opt_line(opt_view(self.uid)));
        let ghost prev = out@;
        write_vcard_property(out, &self.uid);
        proof {
            assert(out@ == prev + single_text(c, PropertyKind::Uid));
            lemma_append_twice(base, acc, single_text(c, PropertyKind::Uid));
            acc = acc + single_text(c, PropertyKind::Uid);
        }
        assert(out@ == base + acc);
        assert(single_text(c, PropertyKind::ClientPidMap) == opt_line(opt_view(self.clientpidmap)));
        let ghost prev = out@;
        write_vcard_property(out, &self.clientpidmap);
        proof {
            assert(out@ == prev + single_text(c, PropertyKind::ClientPidMap));
            lemma_append_twice(base, acc, single_text(c, PropertyKind::ClientPidMap));
            acc = acc + single_text(c, PropertyKind::ClientPidMap);
        }
        assert(out@ == base + acc);
        assert(c.buckets[PropertyKind::Sound] == bucket_views(self.sound@));
        let ghost prev = out@;
        self.sound.write_to(out);
        proof {
            assert(out@ == prev + buckets_text(c.buckets[PropertyKind::Sound]));
            lemma_append_twice(base, acc, buckets_text(c.buckets[PropertyKind::Sound]));
            acc = acc + buckets_text(c.buckets[PropertyKind::Sound]);
        }
        assert(out@ == base + acc);
        assert(c.buckets[PropertyKind::Url] == bucket_views(self.url@));
        let ghost prev = out@;
        self.url.write_to(out);
        proof {
            assert(out@ == prev + buckets_text(c.buckets[PropertyKind::Url]));
            lemma_append_twice(base, acc, buckets_text(c.buckets[PropertyKind::Url]));
            acc = acc + buckets_text(c.buckets[PropertyKind::Url]);
        }
        assert(out@ == base + acc);
        assert(c.buckets[PropertyKind::Key] == bucket_views(self.key@));
        let ghost prev = out@;
        self.key.write_to(out);
        proof {
            assert(out@ == prev + buckets_text(c.buckets[PropertyKind::Key]));
            lemma_append_twice(base, acc, buckets_text(c.buckets[PropertyKind::Key]));
            acc = acc + buckets_text(c.buckets[PropertyKind::Key]);
        }
        assert(out@ == base + acc);
        assert(c.buckets[PropertyKind::FbUrl] == bucket_views(self.fburl@));
        let ghost prev = out@;
        self.fburl.write_to(out);
        proof {
            assert(out@ == prev + buckets_text(c.buckets[PropertyKind::FbUrl]));
            lemma_append_twice(base, acc, buckets_text(c.buckets[PropertyKind::FbUrl]));
            acc = acc + buckets_text(c.buckets[PropertyKind::FbUrl]);
        }
        assert(out@ == base + acc);
        assert(c.buckets[PropertyKind::CalUri] == bucket_views(self.caluri@));
        let ghost prev = out@;
        self.caluri.write_to(out);
        proof {
            assert(out@ == prev + buckets_text(c.buckets[PropertyKind::CalUri]));
            lemma_append_twice(base, acc, buckets_text(c.buckets[PropertyKind::CalUri]));
            acc = acc + buckets_text(c.buckets[PropertyKind::CalUri]);
        }
        assert(out@ == base + acc);
        assert(c.buckets[PropertyKind::CalAdUri] == bucket_views(self.caladuri@));
        let ghost prev = out@;
        self.caladuri.write_to(out);
        proof {
            assert(out@ == prev + buckets_text(c.buckets[PropertyKind::CalAdUri]));
            lemma_append_twice(base, acc, buckets_text(c.buckets[PropertyKind::CalAdUri]));
            acc = acc + buckets_text(c.buckets[PropertyKind::CalAdUri]);
        }
        assert(out@ == base + acc);
        let mut i: usize = 0;
        let ghost ps = c.proprietary;
        assert(ps.take(0) =~= Seq::<PropertyView>::empty());
        assert(out@ =~= base + acc + seq_text(ps.take(0)));
        while i < self.proprietary_properties.len()
            invariant
                i <= self.proprietary_properties.len(),
                ps == views_of(self.proprietary_properties@),
                out@ == base + acc + seq_text(ps.take(i as int)),
            decreases self.proprietary_properties.len() - i,
        {
            let ghost before = ps.take(i as int);
            let ghost now = ps.take(i + 1);
            proof {
                assert(now.drop_last() =~= before);
                assert(now.last() == self.proprietary_properties@[i as int]@);
                lemma_append_twice(base + acc, seq_text(before), serialize(now.last()));
            }
            self.proprietary_properties[i].write_to(out);
            i += 1;
        }
        assert(ps.take(ps.len() as int) =~= ps);
        out.append("END:VCARD\r\n");
        proof {
            lemma_append_twice(base, acc, seq_text(ps));
            lemma_append_twice(base, acc + seq_text(ps), "END:VCARD\r\n"@);
        }
    }

    /// Appends the wire text of the card to `out`.
    pub fn write_to(&self, out: &mut String)
        ensures
            final(out)@ == old(out)@ + card_text(self@),
    {
        let ghost c = self@;
        let ghost base = old(out)@;
        self.write_opening(out);
        self.write_contact(out);
        self.write_work(out);
        self.write_closing(out);
        proof {
            lemma_append_twice(base, opening_text(c), contact_text(c));
            lemma_append_twice(base, opening_text(c) + contact_text(c), work_text(c));
            lemma_append_twice(
                base,
                opening_text(c) + contact_text(c) + work_text(c),
                closing_text(c),
            );
        }
    }

    /// The wire text of the card.
    pub fn to_string(&self) -> (s: String)
        ensures
            s@ == card_text(self@),
    {
        let mut s = String::new();
        self.write_to(&mut s);
        assert(s@ =~= card_text(self@));
        s
    }
}

} // verus!
