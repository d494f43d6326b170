//! The kinds of field, their order, and how a field's annotations decide its kind.

use crate::decl::{Annotation, AnnotationView, Carrier, EntryView, MetaEntry};
use crate::text::{
    lemma_text_le_antisymmetric, lemma_text_le_reflexive, lemma_text_le_total,
    lemma_text_le_transitive, precedes_text, same_text, text_le, unquote, unquoted,
};
use vstd::prelude::*;

verus! {

/// What a field is on the wire. The variants stand in their order: where the annotations
/// of a field name several kinds, the first in this order is the field's kind.
#[derive(Clone, Debug, PartialEq, Eq, PartialOrd, Ord)]
pub enum FieldKind {
    Optional,
    Repeated,
    Int,
    Bool,
    Bytes,
    String,
    /// One of several alternatives, with the name of the group.
    OneOf(String),
    /// An enumeration stored as an integer, with the name of the enumeration's type.
    Enumeration(String),
}

/// What a `FieldKind` is to a contract: its names as sequences of characters.
pub enum KindView {
    Optional,
    Repeated,
    Int,
    Bool,
    Bytes,
    String,
    OneOf(Seq<char>),
    Enumeration(Seq<char>),
}

impl View for FieldKind {
    type V = KindView;

    open spec fn view(&self) -> KindView {
        match *self {
            FieldKind::Optional => KindView::Optional,
            FieldKind::Repeated => KindView::Repeated,
            FieldKind::Int => KindView::Int,
            FieldKind::Bool => KindView::Bool,
            FieldKind::Bytes => KindView::Bytes,
            FieldKind::String => KindView::String,
            FieldKind::OneOf(name) => KindView::OneOf(name@),
            FieldKind::Enumeration(name) => KindView::Enumeration(name@),
        }
    }
}

impl DeepView for FieldKind {
    type V = KindView;

    open spec fn deep_view(&self) -> KindView {
        self@
    }
}

/// The place of a kind's variant in the order.
pub open spec fn rank(kind: KindView) -> nat {
    match kind {
        KindView::Optional => 0,
        KindView::Repeated => 1,
        KindView::Int => 2,
        KindView::Bool => 3,
        KindView::Bytes => 4,
        KindView::String => 5,
        KindView::OneOf(_) => 6,
        KindView::Enumeration(_) => 7,
    }
}

/// The name that a kind carries; empty for a kind that carries none.
pub open spec fn label(kind: KindView) -> Seq<char> {
    match kind {
        KindView::OneOf(name) => name,
        KindView::Enumeration(name) => name,
        _ => Seq::empty(),
    }
}

/// The order of the kinds: by variant first, and within a variant by the name it carries.
pub open spec fn precedes(a: KindView, b: KindView) -> bool {
    rank(a) < rank(b) || (rank(a) == rank(b) && text_le(label(a), label(b)))
}

/// The keywords of the four integer widths.
pub open spec fn is_integer_keyword(word: Seq<char>) -> bool {
    word == "int32"@ || word == "int64"@ || word == "uint32"@ || word == "uint64"@
}

/// The kind that one entry of an annotation names, if it names one.
pub open spec fn entry_kind(entry: EntryView) -> Option<KindView> {
    match entry {
        EntryView::Word(word) => {
            if word == "optional"@ {
                Some(KindView::Optional)
            } else if word == "repeated"@ {
                Some(KindView::Repeated)
            } else if word == "bytes"@ {
                Some(KindView::Bytes)
            } else if word == "string"@ {
                Some(KindView::String)
            } else if word == "bool"@ {
                Some(KindView::Bool)
            } else if is_integer_keyword(word) {
                Some(KindView::Int)
            } else {
                None
            }
        },
        EntryView::NameValue(name, literal) => {
            if name == "enumeration"@ {
                Some(KindView::Enumeration(unquoted(literal)))
            } else if name == "oneof"@ {
                Some(KindView::OneOf(unquoted(literal)))
            } else {
                None
            }
        },
        EntryView::Other => None,
    }
}

/// The first in the order of two candidates; the earlier one where neither is there.
pub open spec fn first_of(earlier: Option<KindView>, later: Option<KindView>) -> Option<KindView> {
    match (earlier, later) {
        (None, _) => later,
        (_, None) => earlier,
        (Some(a), Some(b)) => if precedes(a, b) {
            earlier
        } else {
            later
        },
    }
}

/// The first in the order of the kinds that the entries name; `None` where they name none.
pub open spec fn least_kind(entries: Seq<EntryView>) -> Option<KindView>
    decreases entries.len(),
{
    if entries.len() == 0 {
        None
    } else {
        first_of(least_kind(entries.drop_last()), entry_kind(entries.last()))
    }
}

/// The entries of the wire annotations among these, in the order in which they stand.
pub open spec fn wire_entries(attrs: Seq<AnnotationView>) -> Seq<EntryView>
    decreases attrs.len(),
{
    if attrs.len() == 0 {
        Seq::empty()
    } else if attrs.last().carrier == Carrier::Wire {
        wire_entries(attrs.drop_last()) + attrs.last().entries
    } else {
        wire_entries(attrs.drop_last())
    }
}

/// The kind of a field with these annotations: the first in the order of the kinds that
/// the entries of its wire annotations name, all of them taken together.
pub open spec fn field_kind(attrs: Seq<AnnotationView>) -> Option<KindView> {
    least_kind(wire_entries(attrs))
}

/// Of two kinds one precedes the other.
pub proof fn lemma_precedes_total(a: KindView, b: KindView)
    ensures
        precedes(a, b) || precedes(b, a),
{
    lemma_text_le_total(label(a), label(b));
}

/// Two kinds that precede each other are the same kind.
pub proof fn lemma_precedes_antisymmetric(a: KindView, b: KindView)
    requires
        precedes(a, b),
        precedes(b, a),
    ensures
        a == b,
{
    lemma_text_le_antisymmetric(label(a), label(b));
}

/// A kind that precedes a second, which precedes a third, precedes the third.
pub proof fn lemma_precedes_transitive(a: KindView, b: KindView, c: KindView)
    requires
        precedes(a, b),
        precedes(b, c),
    ensures
        precedes(a, c),
{
    if rank(a) == rank(b) && rank(b) == rank(c) {
        lemma_text_le_transitive(label(a), label(b), label(c));
    }
}

/// `least_kind` picks a kind that some entry names and that precedes every kind that any
/// entry names; it is `None` only where no entry names a kind.
pub proof fn lemma_least_kind_is_least(entries: Seq<EntryView>)
    ensures
        least_kind(entries) is None <==> forall|i: int|
            0 <= i < entries.len() ==> entry_kind(#[trigger] entries[i]) is None,
        least_kind(entries) matches Some(least) ==> {
            &&& exists|i: int|
                0 <= i < entries.len() && entry_kind(#[trigger] entries[i]) == Some(least)
            &&& forall|i: int|
                0 <= i < entries.len() ==> (entry_kind(#[trigger] entries[i]) matches Some(kind)
                    ==> precedes(least, kind))
        },
    decreases entries.len(),
{
    if entries.len() > 0 {
        let head = entries.drop_last();
        let n = head.len() as int;
        lemma_least_kind_is_least(head);
        assert(forall|i: int| 0 <= i < n ==> head[i] == entries[i]);
        assert(entries.last() == entries[n]);
        let earlier = least_kind(head);
        let later = entry_kind(entries.last());
        match least_kind(entries) {
            None => {
                assert forall|i: int| 0 <= i < entries.len() implies entry_kind(
                    #[trigger] entries[i],
                ) is None by {
                    if i < n {
                        assert(entry_kind(head[i]) is None);
                    }
                }
            },
            Some(least) => {
                if earlier == Some(least) {
                    let w = choose|i: int|
                        0 <= i < n && entry_kind(#[trigger] head[i]) == Some(least);
                    assert(entry_kind(entries[w]) == Some(least));
                } else {
                    assert(entry_kind(entries[n]) == Some(least));
                }
                assert forall|i: int| 0 <= i < entries.len() implies (entry_kind(
                    #[trigger] entries[i],
                ) matches Some(kind) ==> precedes(least, kind)) by {
                    if let Some(kind) = entry_kind(entries[i]) {
                        if i < n {
                            assert(entry_kind(head[i]) == Some(kind));
                            let before = earlier->0;
                            assert(precedes(before, kind));
                            if before != least {
                                lemma_precedes_total(before, least);
                                lemma_precedes_transitive(least, before, kind);
                            }
                        } else {
                            if later != Some(least) {
                                assert(precedes(least, kind));
                            } else {
                                lemma_text_le_reflexive(label(kind));
                            }
                        }
                    }
                }
            },
        }
    }
}

/// Where exactly one entry names a kind, that kind is the field's: nothing competes with it.
pub proof fn lemma_single_keyword(entries: Seq<EntryView>, at: int, kind: KindView)
    requires
        0 <= at < entries.len(),
        entry_kind(entries[at]) == Some(kind),
        forall|i: int| 0 <= i < entries.len() && i != at ==> entry_kind(entries[i]) is None,
    ensures
        least_kind(entries) == Some(kind),
{
    lemma_least_kind_is_least(entries);
    let least = least_kind(entries)->0;
    let w = choose|i: int| 0 <= i < entries.len() && entry_kind(#[trigger] entries[i]) == Some(least);
    assert(w == at);
}

/// Each of `wire_entries` is an entry of a wire annotation: the result names the
/// annotation and the place of the entry in it.
pub proof fn lemma_wire_entry_source(attrs: Seq<AnnotationView>, at: int) -> (source: (int, int))
    requires
        0 <= at < wire_entries(attrs).len(),
    ensures
        0 <= source.0 < attrs.len(),
        attrs[source.0].carrier == Carrier::Wire,
        0 <= source.1 < attrs[source.0].entries.len(),
        attrs[source.0].entries[source.1] == wire_entries(attrs)[at],
    decreases attrs.len(),
{
    let head = attrs.drop_last();
    let before = wire_entries(head).len() as int;
    if at < before {
        let source = lemma_wire_entry_source(head, at);
        assert(head[source.0] == attrs[source.0]);
        source
    } else {
        (attrs.len() - 1, at - before)
    }
}

/// Each entry of a wire annotation is among `wire_entries`: the result is its place.
pub proof fn lemma_wire_entry_place(attrs: Seq<AnnotationView>, annotation: int, entry: int) -> (at:
    int)
    requires
        0 <= annotation < attrs.len(),
        attrs[annotation].carrier == Carrier::Wire,
        0 <= entry < attrs[annotation].entries.len(),
    ensures
        0 <= at < wire_entries(attrs).len(),
        wire_entries(attrs)[at] == attrs[annotation].entries[entry],
    decreases attrs.len(),
{
    let head = attrs.drop_last();
    if annotation < attrs.len() - 1 {
        assert(head[annotation] == attrs[annotation]);
        lemma_wire_entry_place(head, annotation, entry)
    } else {
        wire_entries(head).len() + entry
    }
}

/// A field with one keyword among the entries of its wire annotations has the kind that
/// the keyword names, wherever the keyword stands.
pub proof fn lemma_single_keyword_field(
    attrs: Seq<AnnotationView>,
    at: int,
    entry: int,
    kind: KindView,
)
    requires
        0 <= at < attrs.len(),
        attrs[at].carrier == Carrier::Wire,
        0 <= entry < attrs[at].entries.len(),
        entry_kind(attrs[at].entries[entry]) == Some(kind),
        forall|i: int, j: int|
            0 <= i < attrs.len() && attrs[i].carrier == Carrier::Wire && 0 <= j
                < attrs[i].entries.len() && !(i == at && j == entry) ==> entry_kind(
                #[trigger] attrs[i].entries[j],
            ) is None,
    ensures
        field_kind(attrs) == Some(kind),
{
    let all = wire_entries(attrs);
    let place = lemma_wire_entry_place(attrs, at, entry);
    lemma_least_kind_is_least(all);
    assert(entry_kind(all[place]) is Some);
    let least = least_kind(all)->0;
    let found = choose|i: int| 0 <= i < all.len() && entry_kind(#[trigger] all[i]) == Some(least);
    let source = lemma_wire_entry_source(attrs, found);
    assert(entry_kind(attrs[source.0].entries[source.1]) is Some);
}

/// Where several wire annotations name a kind, the least of all that they name is the
/// field's kind, whichever annotation names it.
pub proof fn lemma_field_kind_is_least(attrs: Seq<AnnotationView>)
    ensures
        field_kind(attrs) is None <==> forall|i: int, j: int|
            0 <= i < attrs.len() && attrs[i].carrier == Carrier::Wire && 0 <= j
                < attrs[i].entries.len() ==> entry_kind(#[trigger] attrs[i].entries[j]) is None,
        field_kind(attrs) matches Some(least) ==> forall|i: int, j: int|
            0 <= i < attrs.len() && attrs[i].carrier == Carrier::Wire && 0 <= j
                < attrs[i].entries.len() ==> (entry_kind(
                #[trigger] attrs[i].entries[j],
            ) matches Some(kind) ==> precedes(least, kind)),
{
    let all = wire_entries(attrs);
    lemma_least_kind_is_least(all);
    assert forall|i: int, j: int|
        0 <= i < attrs.len() && attrs[i].carrier == Carrier::Wire && 0 <= j
            < attrs[i].entries.len() implies (field_kind(attrs) is None ==> entry_kind(
        #[trigger] attrs[i].entries[j],
    ) is None) && (field_kind(attrs) matches Some(least) ==> (entry_kind(
        attrs[i].entries[j],
    ) matches Some(kind) ==> precedes(least, kind))) by {
        let place = lemma_wire_entry_place(attrs, i, j);
        assert(all[place] == attrs[i].entries[j]);
    }
    if field_kind(attrs) is Some {
        let least = field_kind(attrs)->0;
        let found = choose|i: int| 0 <= i < all.len() && entry_kind(#[trigger] all[i]) == Some(least);
        let source = lemma_wire_entry_source(attrs, found);
        assert(entry_kind(attrs[source.0].entries[source.1]) is Some);
    }
}

impl FieldKind {
    /// Whether this kind comes before `other`, or is `other`, in the order of the kinds.
    pub fn precedes(&self, other: &FieldKind) -> (before: bool)
        ensures
            before == precedes(self@, other@),
    {
        let (mine, theirs) = (self.rank(), other.rank());
        if mine != theirs {
            mine < theirs
        } else {
            match (self, other) {
                (FieldKind::OneOf(a), FieldKind::OneOf(b)) => precedes_text(a.as_str(), b.as_str()),
                (FieldKind::Enumeration(a), FieldKind::Enumeration(b)) => precedes_text(
                    a.as_str(),
                    b.as_str(),
                ),
                _ => true,
            }
        }
    }

    /// The place of this kind's variant in the order, from 0.
    pub fn rank(&self) -> (place: u8)
        ensures
            place == rank(self@),
    {
        match self {
            FieldKind::Optional => 0,
            FieldKind::Repeated => 1,
            FieldKind::Int => 2,
            FieldKind::Bool => 3,
            FieldKind::Bytes => 4,
            FieldKind::String => 5,
            FieldKind::OneOf(_) => 6,
            FieldKind::Enumeration(_) => 7,
        }
    }

    /// The kind that one entry names, if it names one.
    pub fn from_entry(entry: &MetaEntry) -> (kind: Option<FieldKind>)
        ensures
            kind.deep_view() == entry_kind(entry@),
    {
        match entry {
            MetaEntry::Word(word) => {
                let word = word.as_str();
                if same_text(word, "optional") {
                    Some(FieldKind::Optional)
                } else if same_text(word, "repeated") {
                    Some(FieldKind::Repeated)
                } else if same_text(word, "bytes") {
                    Some(FieldKind::Bytes)
                } else if same_text(word, "string") {
                    Some(FieldKind::String)
                } else if same_text(word, "bool") {
                    Some(FieldKind::Bool)
                } else if same_text(word, "int32") || same_text(word, "int64") || same_text(
                    word,
                    "uint32",
                ) || same_text(word, "uint64") {
                    Some(FieldKind::Int)
                } else {
                    None
                }
            },
            MetaEntry::NameValue(name, literal) => {
                if same_text(name.as_str(), "enumeration") {
                    Some(FieldKind::Enumeration(unquote(literal.as_str())))
                } else if same_text(name.as_str(), "oneof") {
                    Some(FieldKind::OneOf(unquote(literal.as_str())))
                } else {
                    None
                }
            },
            MetaEntry::Other => None,
        }
    }

    /// The first in the order of `best` and the kinds that the entries name, where `best`
    /// is the first of the kinds that the entries seen so far name.
    fn least_with(
        best: Option<FieldKind>,
        entries: &Vec<MetaEntry>,
        Ghost(seen): Ghost<Seq<EntryView>>,
    ) -> (least: Option<FieldKind>)
        requires
            best.deep_view() == least_kind(seen),
        ensures
            least.deep_view() == least_kind(seen + entries.deep_view()),
    {
        let ghost here = entries.deep_view();
        let mut best = best;
        let mut i: usize = 0;
        assert(seen + here.take(0) =~= seen);
        while i < entries.len()
            invariant
                i <= entries.len(),
                here == entries.deep_view(),
                best.deep_view() == least_kind(seen + here.take(i as int)),
            decreases entries.len() - i,
        {
            proof {
                let more = seen + here.take(i + 1);
                assert(more.drop_last() =~= seen + here.take(i as int));
                assert(more.last() == entries[i as int]@);
            }
            let candidate = FieldKind::from_entry(&entries[i]);
            best =
            match (best, candidate) {
                (None, later) => later,
                (earlier, None) => earlier,
                (Some(a), Some(b)) => if a.precedes(&b) {
                    Some(a)
                } else {
                    Some(b)
                },
            };
            i += 1;
        }
        assert(here.take(i as int) =~= here);
        best
    }

    /// The kind that a list of entries gives: the first in the order of the kinds that
    /// they name, `None` where they name none.
    pub fn classify(entries: &Vec<MetaEntry>) -> (kind: Option<FieldKind>)
        ensures
            kind.deep_view() == least_kind(entries.deep_view()),
    {
        assert(Seq::<EntryView>::empty() + entries.deep_view() =~= entries.deep_view());
        FieldKind::least_with(None, entries, Ghost(Seq::empty()))
    }

    /// The kind of a field with these annotations, where they name one: the first in the
    /// order of the kinds that the entries of its wire annotations name, all of them
    /// taken together. `None` where they name none.
    pub fn try_from_attrs(attrs: &Vec<Annotation>) -> (kind: Option<FieldKind>)
        ensures
            kind.deep_view() == field_kind(attrs.deep_view()),
    {
        let ghost all = attrs.deep_view();
        let mut best: Option<FieldKind> = None;
        let mut i: usize = 0;
        while i < attrs.len()
            invariant
                i <= attrs.len(),
                all == attrs.deep_view(),
                best.deep_view() == least_kind(wire_entries(all.take(i as int))),
            decreases attrs.len() - i,
        {
            proof {
                let next = all.take(i + 1);
                assert(next.drop_last() =~= all.take(i as int));
                assert(next.last() == attrs[i as int]@);
            }
            if let Carrier::Wire = attrs[i].carrier {
                best =
                FieldKind::least_with(
                    best,
                    &attrs[i].entries,
                    Ghost(wire_entries(all.take(i as int))),
                );
            }
            i += 1;
        }
        assert(all.take(i as int) =~= all);
        best
    }

    /// The kind of a field with these annotations: the first in the order of the kinds
    /// that the entries of its wire annotations name, all of them taken together.
    ///
    /// The annotations of a field name at least one kind. Where that is not known,
    /// `try_from_attrs` tells.
    pub fn from_attrs(attrs: &Vec<Annotation>) -> (kind: FieldKind)
        requires
            field_kind(attrs.deep_view()) is Some,
        ensures
            Some(kind@) == field_kind(attrs.deep_view()),
    {
        FieldKind::try_from_attrs(attrs).unwrap()
    }
}

} // verus!
