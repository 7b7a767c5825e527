//! From a raw key sequence to a preview in phonetic symbols.
//!
//! A [`LayoutTable`] says which symbol each key of the keyboard stands for.
//! Conversion looks every typed character up, cuts the symbols into
//! syllables after each tone marker and shows the syllables in one bracketed
//! line.

use crate::text::{lower, to_lower};
use vstd::prelude::*;

verus! {

/// What a layout table is, as mathematics.
pub struct LayoutModel {
    pub name: Seq<char>,
    pub notes: Option<Seq<char>>,
    /// From a key, written as a string, to its symbol.
    pub map: Map<Seq<char>, Seq<char>>,
}

/// The text of an optional string.
pub open spec fn opt_text(s: Option<String>) -> Option<Seq<char>> {
    match s {
        Some(t) => Some(t@),
        None => None,
    }
}

/// The text of an optional borrowed string.
pub open spec fn opt_ref_text(s: Option<&String>) -> Option<Seq<char>> {
    match s {
        Some(t) => Some(t@),
        None => None,
    }
}

/// The symbol that a typed character stands for: the entry under the
/// character's small letter, if there is one.
pub open spec fn symbol_for(map: Map<Seq<char>, Seq<char>>, ch: char) -> Option<Seq<char>> {
    let key = seq![lower(ch)];
    if map.contains_key(key) {
        Some(map[key])
    } else {
        None
    }
}

struct LayoutEntry {
    key: String,
    symbol: String,
}

/// The mapping that a list of entries stands for. An entry replaces every
/// earlier one with the same key.
spec fn mapping_of(entries: Seq<LayoutEntry>) -> Map<Seq<char>, Seq<char>>
    decreases entries.len(),
{
    if entries.len() == 0 {
        Map::empty()
    } else {
        mapping_of(entries.drop_last()).insert(entries.last().key@, entries.last().symbol@)
    }
}

/// A keyboard layout: a name, optional notes and the symbol of each key.
pub struct LayoutTable {
    name: String,
    notes: Option<String>,
    entries: Vec<LayoutEntry>,
}

impl View for LayoutTable {
    type V = LayoutModel;

    closed spec fn view(&self) -> LayoutModel {
        LayoutModel {
            name: self.name@,
            notes: opt_text(self.notes),
            map: mapping_of(self.entries@),
        }
    }
}

impl LayoutTable {
    /// A table without entries.
    pub fn new(name: String, notes: Option<String>) -> (r: Self)
        ensures
            r@ == (LayoutModel { name: name@, notes: opt_text(notes), map: Map::empty() }),
    {
        LayoutTable { name, notes, entries: Vec::new() }
    }

    /// The table that stands in where no layout could be read: it is named
    /// `"empty"` and maps nothing.
    pub fn empty() -> (r: Self)
        ensures
            r@ == (LayoutModel { name: "empty"@, notes: None, map: Map::empty() }),
    {
        LayoutTable { name: String::from_str("empty"), notes: None, entries: Vec::new() }
    }

    /// The layout that was read or, where reading failed, the empty table:
    /// loading never fails the caller.
    pub fn load(parsed: Option<LayoutTable>) -> (r: Self)
        ensures
            parsed matches Some(t) ==> r@ == t@,
            parsed is None ==> r@ == (LayoutModel {
                name: "empty"@,
                notes: None,
                map: Map::empty(),
            }),
    {
        match parsed {
            Some(t) => t,
            None => LayoutTable::empty(),
        }
    }

    /// The name of the layout.
    pub fn name(&self) -> (r: &str)
        ensures
            r@ == self@.name,
    {
        self.name.as_str()
    }

    /// The notes that come with the layout.
    pub fn notes(&self) -> (r: Option<&String>)
        ensures
            opt_ref_text(r) == self@.notes,
    {
        match &self.notes {
            Some(n) => Some(n),
            None => None,
        }
    }

    /// Lets `key` stand for `symbol`, in place of what it stood for before.
    pub fn insert(&mut self, key: String, symbol: String)
        ensures
            final(self)@ == (LayoutModel {
                map: old(self)@.map.insert(key@, symbol@),
                ..old(self)@
            }),
    {
        let ghost before = self.entries@;
        self.entries.push(LayoutEntry { key, symbol });
        assert(self.entries@.drop_last() == before);
    }

    /// The symbol of a typed character, whatever its case.
    pub fn lookup(&self, ch: char) -> (r: Option<&String>)
        ensures
            opt_ref_text(r) == symbol_for(self@.map, ch),
    {
        let wanted = to_lower(ch);
        let mut i: usize = self.entries.len();
        assert(self.entries@.take(i as int) == self.entries@);
        while i > 0
            invariant
                i <= self.entries.len(),
                wanted == lower(ch),
                symbol_for(self@.map, ch) == symbol_for(mapping_of(self.entries@.take(i as int)), ch),
            decreases i,
        {
            i = i - 1;
            let entry = &self.entries[i];
            proof {
                assert(self.entries@.take(i + 1).drop_last() == self.entries@.take(i as int));
            }
            let key = entry.key.as_str();
            if key.unicode_len() == 1 && key.get_char(0) == wanted {
                assert(entry.key@ == seq![wanted]);
                return Some(&entry.symbol);
            }
        }
        None
    }
}

/// The symbols of a raw key sequence, in order: the symbol of each character
/// that the layout maps. The other characters leave no trace.
pub open spec fn symbols_of(map: Map<Seq<char>, Seq<char>>, raw: Seq<char>) -> Seq<Seq<char>> {
    raw.filter_map(|ch: char| symbol_for(map, ch))
}

/// Turns a raw key sequence into phonetic symbols, key by key.
pub fn to_bopomofo_symbols(layout: &LayoutTable, raw: &str) -> (r: Vec<String>)
    ensures
        r.deep_view() == symbols_of(layout@.map, raw@),
        forall|i: int| 0 <= i < r.len() ==> layout@.map.contains_value(#[trigger] r[i]@),
{
    let ghost f = |ch: char| symbol_for(layout@.map, ch);
    let mut out: Vec<String> = Vec::new();
    for ch in it: raw.chars()
        invariant
            it.seq() == raw@,
            f == |ch: char| symbol_for(layout@.map, ch),
            out.deep_view() == raw@.take(it.index()).filter_map(f),
            forall|i: int| 0 <= i < out.len() ==> layout@.map.contains_value(#[trigger] out[i]@),
    {
        proof {
            raw@.lemma_filter_map_take_succ(f, it.index());
        }
        let ghost before = out.deep_view();
        match layout.lookup(ch) {
            Some(symbol) => {
                out.push(symbol.clone());
                assert(out.deep_view() == before + seq![symbol@]);
            },
            None => {},
        }
    }
    assert(raw@.take(raw@.len() as int) == raw@);
    out
}

/// Whether a character is one of the five tone markers.
pub open spec fn is_tone_char(c: char) -> bool {
    c == '\u{02D9}' || c == '\u{02CA}' || c == '\u{02C7}' || c == '\u{02CB}' || c == '\u{02EE}'
}

/// Whether a symbol is a tone marker. A tone marker ends the syllable that
/// it stands in.
pub open spec fn is_tone(symbol: Seq<char>) -> bool {
    symbol.len() == 1 && is_tone_char(symbol[0])
}

/// Decides [`is_tone`].
pub fn is_tone_marker(symbol: &str) -> (r: bool)
    ensures
        r == is_tone(symbol@),
{
    if symbol.unicode_len() != 1 {
        return false;
    }
    let c = symbol.get_char(0);
    c == '\u{02D9}' || c == '\u{02CA}' || c == '\u{02C7}' || c == '\u{02CB}' || c == '\u{02EE}'
}

/// The syllables of a symbol sequence. A symbol joins the syllable of the
/// symbol before it, unless that symbol is a tone marker or there is none:
/// then it starts a syllable of its own.
pub open spec fn syllables_of(symbols: Seq<Seq<char>>) -> Seq<Seq<char>>
    decreases symbols.len(),
{
    if symbols.len() == 0 {
        Seq::empty()
    } else {
        let before = symbols.drop_last();
        let done = syllables_of(before);
        if before.len() > 0 && !is_tone(before.last()) {
            done.drop_last().push(done.last() + symbols.last())
        } else {
            done.push(symbols.last())
        }
    }
}

/// How many of the symbols are tone markers.
pub open spec fn tone_count(symbols: Seq<Seq<char>>) -> nat {
    symbols.filter(|s: Seq<char>| is_tone(s)).len()
}

/// Whether the sequence ends inside a syllable: it has a last symbol, and
/// that symbol is no tone marker.
pub open spec fn ends_open(symbols: Seq<Seq<char>>) -> bool {
    symbols.len() > 0 && !is_tone(symbols.last())
}

/// Symbols always make at least one syllable.
pub proof fn lemma_syllables_nonempty(symbols: Seq<Seq<char>>)
    requires
        symbols.len() > 0,
    ensures
        syllables_of(symbols).len() > 0,
    decreases symbols.len(),
{
    let before = symbols.drop_last();
    if before.len() > 0 {
        lemma_syllables_nonempty(before);
    }
}

/// Segmentation loses nothing: the syllables, written one after the other,
/// are the symbols written one after the other.
pub proof fn lemma_syllables_lossless(symbols: Seq<Seq<char>>)
    ensures
        syllables_of(symbols).flatten() == symbols.flatten(),
    decreases symbols.len(),
{
    if symbols.len() > 0 {
        let before = symbols.drop_last();
        let last = symbols.last();
        let done = syllables_of(before);
        lemma_syllables_lossless(before);
        assert(symbols == before.push(last));
        before.lemma_flatten_push(last);
        if before.len() > 0 && !is_tone(before.last()) {
            lemma_syllables_nonempty(before);
            assert(done == done.drop_last().push(done.last()));
            done.drop_last().lemma_flatten_push(done.last());
            done.drop_last().lemma_flatten_push(done.last() + last);
        } else {
            done.lemma_flatten_push(last);
        }
    }
}

/// There is one syllable for each tone marker, and one more exactly where
/// the sequence ends inside a syllable.
pub proof fn lemma_syllable_count(symbols: Seq<Seq<char>>)
    ensures
        syllables_of(symbols).len() == tone_count(symbols) + if ends_open(symbols) {
            1nat
        } else {
            0nat
        },
    decreases symbols.len(),
{
    if symbols.len() > 0 {
        let before = symbols.drop_last();
        let last = symbols.last();
        lemma_syllable_count(before);
        assert(symbols == before.push(last));
        before.lemma_filter_len_push(|s: Seq<char>| is_tone(s), last);
        if before.len() > 0 {
            lemma_syllables_nonempty(before);
        }
    }
}

/// Cuts a symbol sequence into syllables: a syllable ends with its tone
/// marker, and what follows the last tone marker is a syllable too.
pub fn segment_syllables(symbols: &[String]) -> (r: Vec<String>)
    ensures
        r.deep_view() == syllables_of(symbols.deep_view()),
        r.deep_view().flatten() == symbols.deep_view().flatten(),
        r.len() == tone_count(symbols.deep_view()) + if ends_open(symbols.deep_view()) {
            1nat
        } else {
            0nat
        },
{
    let ghost all = symbols.deep_view();
    let mut res: Vec<String> = Vec::new();
    let mut buf: String = String::new();
    let mut open: bool = false;
    let mut i: usize = 0;
    while i < symbols.len()
        invariant
            i <= symbols.len(),
            all == symbols.deep_view(),
            open ==> syllables_of(all.take(i as int)) == res.deep_view().push(buf@),
            !open ==> syllables_of(all.take(i as int)) == res.deep_view() && buf@.len() == 0,
            open == ends_open(all.take(i as int)),
        decreases symbols.len() - i,
    {
        let symbol = symbols[i].as_str();
        proof {
            assert(all.take(i + 1).drop_last() == all.take(i as int));
            assert(all.take(i + 1).last() == symbol@);
            if open {
                assert(res.deep_view().push(buf@).drop_last() == res.deep_view());
            } else {
                assert(buf@ + symbol@ == symbol@);
            }
        }
        buf.append(symbol);
        if is_tone_marker(symbol) {
            let ghost closed = res.deep_view();
            res.push(buf);
            assert(res.deep_view() == closed.push(buf@));
            buf = String::new();
            open = false;
        } else {
            open = true;
        }
        i = i + 1;
    }
    if open {
        let ghost closed = res.deep_view();
        res.push(buf);
        assert(res.deep_view() == closed.push(buf@));
    }
    proof {
        assert(all.take(i as int) == all);
        lemma_syllables_lossless(all);
        lemma_syllable_count(all);
    }
    res
}

/// The parts written one after the other, with one space between
/// neighbours.
pub open spec fn join_spaced(parts: Seq<Seq<char>>) -> Seq<char>
    decreases parts.len(),
{
    if parts.len() == 0 {
        Seq::empty()
    } else if parts.len() == 1 {
        parts[0]
    } else {
        join_spaced(parts.drop_last()) + seq![' '] + parts.last()
    }
}

/// The preview line of some syllables: the syllables, a space apart, between
/// tortoise-shell brackets.
pub open spec fn preview_of(syllables: Seq<Seq<char>>) -> Seq<char> {
    seq!['\u{3014}'] + join_spaced(syllables) + seq!['\u{3015}']
}

/// The candidates of a raw key sequence: none where the layout maps none of
/// its characters, else the one preview line of its syllables.
pub open spec fn candidates_of(map: Map<Seq<char>, Seq<char>>, raw: Seq<char>) -> Seq<Seq<char>> {
    let symbols = symbols_of(map, raw);
    if symbols.len() == 0 {
        Seq::empty()
    } else {
        seq![preview_of(syllables_of(symbols))]
    }
}

/// Whether the layout maps no character of the raw key sequence.
pub open spec fn maps_nothing(map: Map<Seq<char>, Seq<char>>, raw: Seq<char>) -> bool {
    forall|i: int| 0 <= i < raw.len() ==> symbol_for(map, #[trigger] raw[i]) is None
}

/// Every symbol of a conversion is a value of the layout: conversion
/// invents no symbol.
pub proof fn lemma_symbols_from_layout(map: Map<Seq<char>, Seq<char>>, raw: Seq<char>)
    ensures
        forall|i: int|
            0 <= i < symbols_of(map, raw).len() ==> map.contains_value(
                #[trigger] symbols_of(map, raw)[i],
            ),
    decreases raw.len(),
{
    if raw.len() > 0 {
        let rest = raw.drop_last();
        lemma_symbols_from_layout(map, rest);
        let found = symbol_for(map, raw.last());
        assert forall|i: int| 0 <= i < symbols_of(map, raw).len() implies map.contains_value(
            #[trigger] symbols_of(map, raw)[i],
        ) by {
            if i < symbols_of(map, rest).len() {
                assert(symbols_of(map, raw)[i] == symbols_of(map, rest)[i]);
            } else {
                assert(found is Some);
                assert(symbols_of(map, raw)[i] == map[seq![lower(raw.last())]]);
                assert(map.contains_key(seq![lower(raw.last())]));
            }
        }
    }
}

/// A key sequence has symbols exactly where the layout maps one of its
/// characters.
pub proof fn lemma_no_symbols_iff_maps_nothing(map: Map<Seq<char>, Seq<char>>, raw: Seq<char>)
    ensures
        symbols_of(map, raw).len() == 0 <==> maps_nothing(map, raw),
    decreases raw.len(),
{
    if raw.len() > 0 {
        let rest = raw.drop_last();
        lemma_no_symbols_iff_maps_nothing(map, rest);
        if maps_nothing(map, raw) {
            assert forall|i: int| 0 <= i < rest.len() implies symbol_for(
                map,
                #[trigger] rest[i],
            ) is None by {
                assert(rest[i] == raw[i]);
            }
            assert(symbol_for(map, raw[raw.len() - 1]) is None);
        }
        if symbols_of(map, raw).len() == 0 {
            assert forall|i: int| 0 <= i < raw.len() implies symbol_for(
                map,
                #[trigger] raw[i],
            ) is None by {
                if i < rest.len() {
                    assert(rest[i] == raw[i]);
                }
            }
        }
    }
}

/// The empty key sequence, and one that the layout maps no character of,
/// have no candidates.
pub proof fn lemma_unmapped_input_has_no_candidates(
    map: Map<Seq<char>, Seq<char>>,
    raw: Seq<char>,
)
    ensures
        candidates_of(map, Seq::empty()).len() == 0,
        maps_nothing(map, raw) <==> candidates_of(map, raw).len() == 0,
{
    lemma_no_symbols_iff_maps_nothing(map, raw);
    lemma_no_symbols_iff_maps_nothing(map, Seq::empty());
}

/// Writes the syllables on one line, a space apart, between brackets.
fn preview_line(syllables: &Vec<String>) -> (r: String)
    ensures
        r@ == preview_of(syllables.deep_view()),
{
    let ghost parts = syllables.deep_view();
    let mut line: String = String::new();
    proof {
        reveal_strlit("\u{3014}");
        reveal_strlit("\u{3015}");
        reveal_strlit(" ");
    }
    line.append("\u{3014}");
    assert(line@ == seq!['\u{3014}']);
    let mut i: usize = 0;
    while i < syllables.len()
        invariant
            i <= syllables.len(),
            parts == syllables.deep_view(),
            " "@ == seq![' '],
            line@ == seq!['\u{3014}'] + join_spaced(parts.take(i as int)),
        decreases syllables.len() - i,
    {
        proof {
            assert(parts.take(i + 1).drop_last() == parts.take(i as int));
            assert(parts.take(i + 1).last() == syllables[i as int]@);
        }
        if i > 0 {
            line.append(" ");
        }
        line.append(syllables[i].as_str());
        i = i + 1;
    }
    assert(parts.take(i as int) == parts);
    line.append("\u{3015}");
    line
}

/// Converts a raw key sequence into its candidates: a preview of the
/// phonetic syllables that the keys stand for in the layout.
pub fn convert_raw_english_to_candidates(layout: &LayoutTable, raw: &str) -> (r: Vec<String>)
    ensures
        r.deep_view() == candidates_of(layout@.map, raw@),
        r.len() == 0 <==> maps_nothing(layout@.map, raw@),
{
    proof {
        lemma_unmapped_input_has_no_candidates(layout@.map, raw@);
    }
    let symbols = to_bopomofo_symbols(layout, raw);
    let mut out: Vec<String> = Vec::new();
    if symbols.len() == 0 {
        assert(out.deep_view() == Seq::<Seq<char>>::empty());
        return out;
    }
    let slice = symbols.as_slice();
    assert(slice.deep_view() == symbols.deep_view());
    let syllables = segment_syllables(slice);
    let line = preview_line(&syllables);
    out.push(line);
    assert(out.deep_view() == seq![line@]);
    out
}

} // verus!
