//! Hints: named, typed attributes of a notification, and their place in the
//! dictionary that carries them on the wire.

use crate::wire::{
    copy_bytes, distinct_keys, entries_view, DictEntry, DictEntryView, Variant, VariantView,
};
use vstd::prelude::*;

verus! {

/// The value of a hint.
#[derive(Debug, PartialEq, Eq)]
pub enum HintValue {
    /// A string.
    Str(String),
    /// A signed 32-bit integer.
    Int32(i32),
    /// A byte.
    Byte(u8),
    /// A boolean.
    Bool(bool),
    /// An array of bytes.
    Bytes(Vec<u8>),
    /// A value of a type that the wire's type table does not hold, named by
    /// its signature.
    Raw(String),
}

/// What a [`HintValue`] stands for.
pub enum HintValueView {
    Str(Seq<char>),
    Int32(i32),
    Byte(u8),
    Bool(bool),
    Bytes(Seq<u8>),
    Raw(Seq<char>),
}

impl View for HintValue {
    type V = HintValueView;

    open spec fn view(&self) -> HintValueView {
        match self {
            HintValue::Str(s) => HintValueView::Str(s@),
            HintValue::Int32(n) => HintValueView::Int32(*n),
            HintValue::Byte(b) => HintValueView::Byte(*b),
            HintValue::Bool(b) => HintValueView::Bool(*b),
            HintValue::Bytes(bytes) => HintValueView::Bytes(bytes@),
            HintValue::Raw(sig) => HintValueView::Raw(sig@),
        }
    }
}

impl Clone for HintValue {
    fn clone(&self) -> (copy: Self)
        ensures
            copy@ == self@,
    {
        match self {
            HintValue::Str(s) => HintValue::Str(s.clone()),
            HintValue::Int32(n) => HintValue::Int32(*n),
            HintValue::Byte(b) => HintValue::Byte(*b),
            HintValue::Bool(b) => HintValue::Bool(*b),
            HintValue::Bytes(bytes) => HintValue::Bytes(copy_bytes(bytes)),
            HintValue::Raw(sig) => HintValue::Raw(sig.clone()),
        }
    }
}

/// A named attribute of a notification.
#[derive(Debug, PartialEq, Eq)]
pub struct Hint {
    pub key: String,
    pub value: HintValue,
}

/// What a [`Hint`] stands for.
pub struct HintView {
    pub key: Seq<char>,
    pub value: HintValueView,
}

impl View for Hint {
    type V = HintView;

    open spec fn view(&self) -> HintView {
        HintView { key: self.key@, value: self.value@ }
    }
}

impl Clone for Hint {
    fn clone(&self) -> (copy: Self)
        ensures
            copy@ == self@,
    {
        Hint { key: self.key.clone(), value: self.value.clone() }
    }
}

/// The hints of a sequence, each by what it stands for.
pub open spec fn hints_view(hints: Seq<Hint>) -> Seq<HintView> {
    hints.map_values(|h: Hint| h@)
}

/// No key occurs in two hints.
pub open spec fn distinct_hint_keys(hints: Seq<HintView>) -> bool {
    forall|i: int, j: int| 0 <= i < j < hints.len() ==> hints[i].key != hints[j].key
}

/// Why a single hint has no counterpart on the other side of the codec.
#[derive(Clone, Copy, Debug, PartialEq, Eq, Structural)]
pub enum HintError {
    /// The hint's value has a type that the wire's type table does not hold.
    Unrepresentable,
    /// The entry's value has a type that no hint can take.
    UnrecognizedType,
}

/// The type table, from hints to the wire: the variant that carries a
/// hint's value, if there is one.
pub open spec fn wire_form(value: HintValueView) -> Option<VariantView> {
    match value {
        HintValueView::Str(s) => Some(VariantView::Str(s)),
        HintValueView::Int32(n) => Some(VariantView::Int32(n)),
        HintValueView::Byte(b) => Some(VariantView::Byte(b)),
        HintValueView::Bool(b) => Some(VariantView::Bool(b)),
        HintValueView::Bytes(bytes) => Some(VariantView::ByteArray(bytes)),
        HintValueView::Raw(_) => None,
    }
}

/// The type table, from the wire to hints: the hint value that a variant
/// carries, if its type is one of the table's.
pub open spec fn hint_form(value: VariantView) -> Option<HintValueView> {
    match value {
        VariantView::Str(s) => Some(HintValueView::Str(s)),
        VariantView::Int32(n) => Some(HintValueView::Int32(n)),
        VariantView::Byte(b) => Some(HintValueView::Byte(b)),
        VariantView::Bool(b) => Some(HintValueView::Bool(b)),
        VariantView::ByteArray(bytes) => Some(HintValueView::Bytes(bytes)),
        VariantView::Unrecognized(_) => None,
    }
}

/// The dictionary entry that carries a hint, if its value can be carried.
pub open spec fn encoded(hint: HintView) -> Option<DictEntryView> {
    match wire_form(hint.value) {
        Some(value) => Some(DictEntryView { key: hint.key, value }),
        None => None,
    }
}

/// The hint that a dictionary entry carries, if its value is of a type
/// that a hint can take.
pub open spec fn decoded(entry: DictEntryView) -> Option<HintView> {
    match hint_form(entry.value) {
        Some(value) => Some(HintView { key: entry.key, value }),
        None => None,
    }
}

/// The entries that carry a sequence of hints: one for each hint that can
/// be carried, in the order of the hints.
pub open spec fn encode_all(hints: Seq<HintView>) -> Seq<DictEntryView>
    decreases hints.len(),
{
    if hints.len() == 0 {
        Seq::empty()
    } else {
        match encoded(hints.last()) {
            Some(entry) => encode_all(hints.drop_last()).push(entry),
            None => encode_all(hints.drop_last()),
        }
    }
}

/// The hints that a sequence of entries carries: one for each entry of a
/// type that a hint can take, in the order of the entries.
pub open spec fn decode_all(entries: Seq<DictEntryView>) -> Seq<HintView>
    decreases entries.len(),
{
    if entries.len() == 0 {
        Seq::empty()
    } else {
        match decoded(entries.last()) {
            Some(hint) => decode_all(entries.drop_last()).push(hint),
            None => decode_all(entries.drop_last()),
        }
    }
}

/// Encodes one hint. A raw value has no place on the wire.
pub fn encode_hint(hint: &Hint) -> (result: Result<DictEntry, HintError>)
    ensures
        match encoded(hint@) {
            Some(entry) => result is Ok && result->Ok_0@ == entry,
            None => result == Err::<DictEntry, HintError>(HintError::Unrepresentable),
        },
{
    let value = match &hint.value {
        HintValue::Str(s) => Variant::Str(s.clone()),
        HintValue::Int32(n) => Variant::Int32(*n),
        HintValue::Byte(b) => Variant::Byte(*b),
        HintValue::Bool(b) => Variant::Bool(*b),
        HintValue::Bytes(bytes) => Variant::ByteArray(copy_bytes(bytes)),
        HintValue::Raw(_) => {
            return Err(HintError::Unrepresentable);
        },
    };
    Ok(DictEntry { key: hint.key.clone(), value })
}

/// Decodes one entry. A value of a type outside the table is no hint.
pub fn decode_hint(entry: &DictEntry) -> (result: Result<Hint, HintError>)
    ensures
        match decoded(entry@) {
            Some(hint) => result is Ok && result->Ok_0@ == hint,
            None => result == Err::<Hint, HintError>(HintError::UnrecognizedType),
        },
{
    let value = match &entry.value {
        Variant::Str(s) => HintValue::Str(s.clone()),
        Variant::Int32(n) => HintValue::Int32(*n),
        Variant::Byte(b) => HintValue::Byte(*b),
        Variant::Bool(b) => HintValue::Bool(*b),
        Variant::ByteArray(bytes) => HintValue::Bytes(copy_bytes(bytes)),
        Variant::Unrecognized(_) => {
            return Err(HintError::UnrecognizedType);
        },
    };
    Ok(Hint { key: entry.key.clone(), value })
}

/// Encodes the hints that can be carried, in their order, and leaves out
/// the others. No hint makes the whole encoding fail.
pub fn encode_hints(hints: &Vec<Hint>) -> (entries: Vec<DictEntry>)
    ensures
        entries_view(entries@) == encode_all(hints_view(hints@)),
{
    let mut entries: Vec<DictEntry> = Vec::new();
    let mut i: usize = 0;
    while i < hints.len()
        invariant
            i <= hints.len(),
            entries_view(entries@) == encode_all(hints_view(hints@).take(i as int)),
        decreases hints.len() - i,
    {
        let ghost before = entries_view(entries@);
        proof {
            let upto = hints_view(hints@).take(i as int + 1);
            assert(upto.drop_last() == hints_view(hints@).take(i as int));
            assert(upto.last() == hints@[i as int]@);
        }
        match encode_hint(&hints[i]) {
            Ok(entry) => {
                entries.push(entry);
                assert(entries_view(entries@) == before.push(entry@));
            },
            Err(_) => {},
        }
        i += 1;
    }
    assert(hints_view(hints@).take(hints.len() as int) == hints_view(hints@));
    entries
}

/// Decodes the entries that carry a hint, in their order, and leaves out
/// the others. No entry makes the whole decoding fail.
pub fn decode_hints(entries: &Vec<DictEntry>) -> (hints: Vec<Hint>)
    ensures
        hints_view(hints@) == decode_all(entries_view(entries@)),
{
    let mut hints: Vec<Hint> = Vec::new();
    let mut i: usize = 0;
    while i < entries.len()
        invariant
            i <= entries.len(),
            hints_view(hints@) == decode_all(entries_view(entries@).take(i as int)),
        decreases entries.len() - i,
    {
        let ghost before = hints_view(hints@);
        proof {
            let upto = entries_view(entries@).take(i as int + 1);
            assert(upto.drop_last() == entries_view(entries@).take(i as int));
            assert(upto.last() == entries@[i as int]@);
        }
        match decode_hint(&entries[i]) {
            Ok(hint) => {
                hints.push(hint);
                assert(hints_view(hints@) == before.push(hint@));
            },
            Err(_) => {},
        }
        i += 1;
    }
    assert(entries_view(entries@).take(entries.len() as int) == entries_view(entries@));
    hints
}

/// Whether a hint can be carried on the wire.
pub open spec fn carried() -> spec_fn(HintView) -> bool {
    |h: HintView| encoded(h) is Some
}

/// Whether an entry carries a hint.
pub open spec fn recognized() -> spec_fn(DictEntryView) -> bool {
    |e: DictEntryView| decoded(e) is Some
}

/// Whether `entry` carries one of `hints`.
pub open spec fn carries_one_of(hints: Seq<HintView>, entry: DictEntryView) -> bool {
    exists|i: int| 0 <= i < hints.len() && encoded(#[trigger] hints[i]) == Some(entry)
}

/// Whether one of `entries` carries `hint`.
pub open spec fn carried_by_one_of(entries: Seq<DictEntryView>, hint: HintView) -> bool {
    exists|i: int| 0 <= i < entries.len() && decoded(#[trigger] entries[i]) == Some(hint)
}

/// The two directions of the type table undo each other.
pub proof fn lemma_type_table(hint: HintValueView, variant: VariantView)
    ensures
        wire_form(hint) matches Some(v) ==> hint_form(v) == Some(hint),
        hint_form(variant) matches Some(h) ==> wire_form(h) == Some(variant),
        wire_form(hint) is None <==> hint is Raw,
        hint_form(variant) is None <==> variant is Unrecognized,
        wire_form(hint) matches Some(v) ==> !(v is Unrecognized),
        hint_form(variant) matches Some(h) ==> !(h is Raw),
{
}

/// Encoding leaves the order and the keys as they are: the entries are
/// those of the hints that can be carried, and no more than there are hints.
pub proof fn lemma_encode_all_keeps(hints: Seq<HintView>)
    ensures
        encode_all(hints).len() <= hints.len(),
        forall|k: int|
            0 <= k < encode_all(hints).len() ==> carries_one_of(
                hints,
                #[trigger] encode_all(hints)[k],
            ),
        forall|i: int|
            0 <= i < hints.len() && encoded(#[trigger] hints[i]) is Some ==> encode_all(
                hints,
            ).contains(encoded(hints[i])->0),
    decreases hints.len(),
{
    if hints.len() > 0 {
        let rest = hints.drop_last();
        lemma_encode_all_keeps(rest);
        let all = encode_all(hints);
        assert forall|k: int| 0 <= k < all.len() implies carries_one_of(
            hints,
            #[trigger] all[k],
        ) by {
            if k < encode_all(rest).len() {
                assert(carries_one_of(rest, encode_all(rest)[k]));
                let i = choose|i: int|
                    0 <= i < rest.len() && encoded(#[trigger] rest[i]) == Some(
                        encode_all(rest)[k],
                    );
                assert(hints[i] == rest[i]);
            } else {
                assert(encoded(hints[hints.len() - 1]) == Some(all[k]));
            }
        }
        assert forall|i: int|
            0 <= i < hints.len() && encoded(#[trigger] hints[i]) is Some implies all.contains(
            encoded(hints[i])->0,
        ) by {
            if i < rest.len() {
                assert(hints[i] == rest[i]);
                let k = choose|k: int|
                    0 <= k < encode_all(rest).len() && encode_all(rest)[k] == encoded(rest[i])->0;
                assert(all[k] == encoded(hints[i])->0);
            } else {
                assert(all[all.len() - 1] == encoded(hints[i])->0);
            }
        }
    }
}

/// Decoding leaves the order and the keys as they are: the hints are those
/// of the entries that carry one, and no more than there are entries.
pub proof fn lemma_decode_all_keeps(entries: Seq<DictEntryView>)
    ensures
        decode_all(entries).len() <= entries.len(),
        forall|k: int|
            0 <= k < decode_all(entries).len() ==> carried_by_one_of(
                entries,
                #[trigger] decode_all(entries)[k],
            ),
        forall|i: int|
            0 <= i < entries.len() && decoded(#[trigger] entries[i]) is Some ==> decode_all(
                entries,
            ).contains(decoded(entries[i])->0),
    decreases entries.len(),
{
    if entries.len() > 0 {
        let rest = entries.drop_last();
        lemma_decode_all_keeps(rest);
        let all = decode_all(entries);
        assert forall|k: int| 0 <= k < all.len() implies carried_by_one_of(
            entries,
            #[trigger] all[k],
        ) by {
            if k < decode_all(rest).len() {
                assert(carried_by_one_of(rest, decode_all(rest)[k]));
                let i = choose|i: int|
                    0 <= i < rest.len() && decoded(#[trigger] rest[i]) == Some(
                        decode_all(rest)[k],
                    );
                assert(entries[i] == rest[i]);
            } else {
                assert(decoded(entries[entries.len() - 1]) == Some(all[k]));
            }
        }
        assert forall|i: int|
            0 <= i < entries.len() && decoded(#[trigger] entries[i]) is Some implies all.contains(
            decoded(entries[i])->0,
        ) by {
            if i < rest.len() {
                assert(entries[i] == rest[i]);
                let k = choose|k: int|
                    0 <= k < decode_all(rest).len() && decode_all(rest)[k] == decoded(rest[i])->0;
                assert(all[k] == decoded(entries[i])->0);
            } else {
                assert(all[all.len() - 1] == decoded(entries[i])->0);
            }
        }
    }
}

/// Encoding a set of hints and decoding the result gives back the hints
/// that can be carried, in their order. Where every hint can be carried,
/// that is the set itself.
pub proof fn lemma_encode_then_decode(hints: Seq<HintView>)
    ensures
        decode_all(encode_all(hints)) == hints.filter(carried()),
        (forall|i: int| 0 <= i < hints.len() ==> !(#[trigger] hints[i].value is Raw))
            ==> decode_all(encode_all(hints)) == hints,
    decreases hints.len(),
{
    reveal(Seq::filter);
    if hints.len() > 0 {
        let rest = hints.drop_last();
        lemma_encode_then_decode(rest);
        match encoded(hints.last()) {
            Some(entry) => {
                assert(encode_all(hints).drop_last() == encode_all(rest));
                assert(decoded(entry) == Some(hints.last()));
            },
            None => {},
        }
        if forall|i: int| 0 <= i < hints.len() ==> !(#[trigger] hints[i].value is Raw) {
            assert forall|i: int| 0 <= i < rest.len() implies !(#[trigger] rest[i].value
                is Raw) by {
                assert(rest[i] == hints[i]);
            }
            assert(!(hints[hints.len() - 1].value is Raw));
            assert(rest.push(hints.last()) == hints);
        }
    }
}

/// Decoding a dictionary and encoding the result gives back the entries
/// that carry a hint, in their order.
pub proof fn lemma_decode_then_encode(entries: Seq<DictEntryView>)
    ensures
        encode_all(decode_all(entries)) == entries.filter(recognized()),
    decreases entries.len(),
{
    reveal(Seq::filter);
    if entries.len() > 0 {
        let rest = entries.drop_last();
        lemma_decode_then_encode(rest);
        match decoded(entries.last()) {
            Some(hint) => {
                assert(decode_all(entries).drop_last() == decode_all(rest));
                assert(encoded(hint) == Some(entries.last()));
            },
            None => {},
        }
    }
}

/// Where no two hints share a key, no two of their entries do.
pub proof fn lemma_encode_all_distinct(hints: Seq<HintView>)
    requires
        distinct_hint_keys(hints),
    ensures
        distinct_keys(encode_all(hints)),
    decreases hints.len(),
{
    if hints.len() > 0 {
        let rest = hints.drop_last();
        assert(distinct_hint_keys(rest)) by {
            assert forall|i: int, j: int| 0 <= i < j < rest.len() implies rest[i].key
                != rest[j].key by {
                    assert(rest[i] == hints[i] && rest[j] == hints[j]);
            }
        }
        lemma_encode_all_distinct(rest);
        lemma_encode_all_keeps(rest);
        let all = encode_all(hints);
        assert forall|a: int, b: int| 0 <= a < b < all.len() implies all[a].key != all[b].key by {
            if b >= encode_all(rest).len() {
                assert(carries_one_of(rest, encode_all(rest)[a]));
                let i = choose|i: int|
                    0 <= i < rest.len() && encoded(#[trigger] rest[i]) == Some(
                        encode_all(rest)[a],
                    );
                assert(rest[i] == hints[i]);
                assert(hints[i].key != hints[hints.len() - 1].key);
            }
        }
    }
}

/// Where no two entries share a key, no two of their hints do.
pub proof fn lemma_decode_all_distinct(entries: Seq<DictEntryView>)
    requires
        distinct_keys(entries),
    ensures
        distinct_hint_keys(decode_all(entries)),
    decreases entries.len(),
{
    if entries.len() > 0 {
        let rest = entries.drop_last();
        assert(distinct_keys(rest)) by {
            assert forall|i: int, j: int| 0 <= i < j < rest.len() implies rest[i].key
                != rest[j].key by {
                    assert(rest[i] == entries[i] && rest[j] == entries[j]);
            }
        }
        lemma_decode_all_distinct(rest);
        lemma_decode_all_keeps(rest);
        let all = decode_all(entries);
        assert forall|a: int, b: int| 0 <= a < b < all.len() implies all[a].key != all[b].key by {
            if b >= decode_all(rest).len() {
                assert(carried_by_one_of(rest, decode_all(rest)[a]));
                let i = choose|i: int|
                    0 <= i < rest.len() && decoded(#[trigger] rest[i]) == Some(
                        decode_all(rest)[a],
                    );
                assert(rest[i] == entries[i]);
                assert(entries[i].key != entries[entries.len() - 1].key);
            }
        }
    }
}

} // verus!
