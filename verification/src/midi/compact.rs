use vstd::prelude::*;

use std::collections::HashMap;

use super::track::{MidiNote, ParsedMidiTrack, ParsedTrackModel, opt_string_view};
use crate::text::{decimal_chars, decimal_digits, string_from_chars};

verus! {

/// A track of the piano roll: its position and its label.
pub struct MidiTrack {
    pub index: usize,
    pub label: String,
}

/// The values of `s` in order of first appearance, each once.
pub open spec fn distinct_in_order(s: Seq<usize>) -> Seq<usize>
    decreases s.len(),
{
    if s.len() == 0 {
        Seq::empty()
    } else {
        let d = distinct_in_order(s.drop_last());
        if d.contains(s.last()) {
            d
        } else {
            d.push(s.last())
        }
    }
}

/// The track indices of the notes, in order.
pub open spec fn note_tracks(notes: Seq<MidiNote>) -> Seq<usize> {
    notes.map_values(|n: MidiNote| n.track_index)
}

/// Position of the first occurrence of `x` in `s` (its length when absent).
pub open spec fn first_index(s: Seq<usize>, x: usize) -> int
    decreases s.len(),
{
    if s.len() == 0 {
        0
    } else if s[0] == x {
        0
    } else {
        1 + first_index(s.drop_first(), x)
    }
}

/// The label stated by the first parsed track with raw index `raw`.
pub open spec fn stated_label(tracks: Seq<ParsedTrackModel>, raw: usize) -> Option<Seq<char>>
    decreases tracks.len(),
{
    if tracks.len() == 0 {
        None
    } else if tracks[0].raw_index == raw {
        tracks[0].explicit_label
    } else {
        stated_label(tracks.drop_first(), raw)
    }
}

/// `Track n`, the label of the track at position `index` (counting from one) that states none.
pub open spec fn default_track_label(index: nat) -> Seq<char> {
    seq!['T', 'r', 'a', 'c', 'k', ' '] + decimal_digits(index + 1)
}

/// The label of compacted track `i`, which holds the notes of raw track `raw`.
pub open spec fn compact_label(tracks: Seq<ParsedTrackModel>, raw: usize, i: nat) -> Seq<char> {
    match stated_label(tracks, raw) {
        Some(label) => label,
        None => default_track_label(i),
    }
}

/// The notes with each track index replaced by its position among the tracks that hold notes.
pub open spec fn remap_notes(notes: Seq<MidiNote>, used: Seq<usize>) -> Seq<MidiNote> {
    notes.map_values(
        |n: MidiNote| MidiNote { track_index: first_index(used, n.track_index) as usize, ..n },
    )
}

proof fn lemma_distinct_in_order_contains(s: Seq<usize>)
    ensures
        forall|i: int| 0 <= i < s.len() ==> distinct_in_order(s).contains(#[trigger] s[i]),
        forall|k: int|
            0 <= k < distinct_in_order(s).len() ==> s.contains(#[trigger] distinct_in_order(s)[k]),
    decreases s.len(),
{
    if s.len() > 0 {
        lemma_distinct_in_order_contains(s.drop_last());
        let d = distinct_in_order(s.drop_last());
        assert forall|i: int| 0 <= i < s.len() implies distinct_in_order(s).contains(
            #[trigger] s[i],
        ) by {
            if i < s.len() - 1 {
                assert(s[i] == s.drop_last()[i]);
                assert(d.contains(s[i]));
                if !d.contains(s.last()) {
                    let k = choose|k: int| 0 <= k < d.len() && d[k] == s[i];
                    assert(d.push(s.last())[k] == s[i]);
                }
            } else {
                if !d.contains(s.last()) {
                    assert(d.push(s.last())[d.len() as int] == s.last());
                }
            }
        }
        assert forall|k: int| 0 <= k < distinct_in_order(s).len() implies s.contains(
            #[trigger] distinct_in_order(s)[k],
        ) by {
            if k < d.len() {
                assert(distinct_in_order(s)[k] == d[k]);
                assert(s.drop_last().contains(d[k]));
                let j = choose|j: int| 0 <= j < s.drop_last().len() && s.drop_last()[j] == d[k];
                assert(s[j] == d[k]);
            } else {
                assert(distinct_in_order(s)[k] == s[s.len() - 1]);
            }
        }
    }
}

proof fn lemma_first_index_found(s: Seq<usize>, x: usize)
    requires
        s.contains(x),
    ensures
        0 <= first_index(s, x) < s.len(),
        s[first_index(s, x)] == x,
    decreases s.len(),
{
    if s[0] != x {
        let k = choose|k: int| 0 <= k < s.len() && s[k] == x;
        assert(s.drop_first()[k - 1] == x);
        lemma_first_index_found(s.drop_first(), x);
    }
}

/// Position of `x` among `used` (its length when absent).
fn position_of(used: &Vec<usize>, x: usize) -> (r: usize)
    ensures
        r == first_index(used@, x),
{
    let mut i: usize = 0;
    proof {
        assert(used@.subrange(0, used@.len() as int) =~= used@);
    }
    while i < used.len()
        invariant
            i <= used@.len(),
            forall|j: int| 0 <= j < i ==> used@[j] != x,
            first_index(used@, x) == i + first_index(used@.subrange(i as int, used@.len() as int), x),
        decreases used.len() - i,
    {
        if used[i] == x {
            proof {
                let t = used@.subrange(i as int, used@.len() as int);
                assert(t[0] == x);
            }
            return i;
        }
        proof {
            let t = used@.subrange(i as int, used@.len() as int);
            assert(t.drop_first() =~= used@.subrange(i + 1, used@.len() as int));
        }
        i = i + 1;
    }
    proof {
        assert(used@.subrange(i as int, used@.len() as int) =~= Seq::<usize>::empty());
    }
    i
}

/// `Track n` for the track at position `index` (counting from one).
fn default_label(index: usize) -> (s: String)
    requires
        index < usize::MAX,
    ensures
        s@ == default_track_label(index as nat),
{
    let mut chars: Vec<char> = Vec::new();
    chars.push('T');
    chars.push('r');
    chars.push('a');
    chars.push('c');
    chars.push('k');
    chars.push(' ');
    let next: usize = index + 1;
    let mut digits = decimal_chars(next as u64);
    chars.append(&mut digits);
    proof {
        assert(chars@ =~= default_track_label(index as nat));
    }
    string_from_chars(&chars)
}

/// The label the first parsed track with raw index `raw` states for itself.
fn stated_label_exec(tracks: &Vec<ParsedMidiTrack>, raw: usize, models: Ghost<
    Seq<ParsedTrackModel>,
>) -> (r: Option<String>)
    requires
        tracks@.len() == models@.len(),
        forall|i: int| 0 <= i < tracks@.len() ==> #[trigger] tracks@[i].matches(models@[i]),
    ensures
        opt_string_view(r) == stated_label(models@, raw),
{
    let mut i: usize = 0;
    proof {
        assert(models@.subrange(0, models@.len() as int) =~= models@);
    }
    while i < tracks.len()
        invariant
            i <= tracks@.len(),
            tracks@.len() == models@.len(),
            forall|k: int| 0 <= k < tracks@.len() ==> #[trigger] tracks@[k].matches(models@[k]),
            stated_label(models@, raw) == stated_label(
                models@.subrange(i as int, models@.len() as int),
                raw,
            ),
        decreases tracks.len() - i,
    {
        let track = &tracks[i];
        proof {
            let t = models@.subrange(i as int, models@.len() as int);
            assert(t[0] == models@[i as int]);
            assert(t.drop_first() =~= models@.subrange(i + 1, models@.len() as int));
            assert(tracks@[i as int].matches(models@[i as int]));
        }
        if track.raw_index == raw {
            return match &track.explicit_label {
                Some(label) => Some(label.clone()),
                None => None,
            };
        }
        i = i + 1;
    }
    proof {
        assert(models@.subrange(i as int, models@.len() as int) =~= Seq::<ParsedTrackModel>::empty());
    }
    None
}

/// Drops tracks that hold no notes: the tracks that do are numbered in order of their
/// first note, each labelled as it states or `Track n`, and every note refers to its
/// track by that number.
pub fn compact_tracks_and_notes(
    tracks: &Vec<ParsedMidiTrack>,
    notes: &mut Vec<MidiNote>,
    models: Ghost<Seq<ParsedTrackModel>>,
) -> (out: Vec<MidiTrack>)
    requires
        tracks@.len() == models@.len(),
        forall|i: int| 0 <= i < tracks@.len() ==> #[trigger] tracks@[i].matches(models@[i]),
    ensures
        ({
            let used = distinct_in_order(note_tracks(old(notes)@));
            &&& out@.len() == used.len()
            &&& forall|i: int|
                0 <= i < out@.len() ==> (#[trigger] out@[i]).index == i && out@[i].label@
                    == compact_label(models@, used[i], i as nat)
            &&& final(notes)@ == remap_notes(old(notes)@, used)
        }),
{
    let ghost original = notes@;
    let mut used: Vec<usize> = Vec::new();
    let mut i: usize = 0;
    while i < notes.len()
        invariant
            notes@ == original,
            i <= notes@.len(),
            used@ == distinct_in_order(note_tracks(notes@.subrange(0, i as int))),
        decreases notes.len() - i,
    {
        let raw = notes[i].track_index;
        proof {
            let t = notes@.subrange(0, i + 1);
            assert(t.drop_last() =~= notes@.subrange(0, i as int));
            assert(note_tracks(t).drop_last() =~= note_tracks(t.drop_last()));
            assert(note_tracks(t).last() == raw);
        }
        let position = position_of(&used, raw);
        proof {
            lemma_first_index_le(used@, raw);
            if position < used@.len() {
                lemma_first_index_found_back(used@, raw);
            } else {
                lemma_first_index_absent(used@, raw);
            }
        }
        if position == used.len() {
            used.push(raw);
        }
        i = i + 1;
    }
    proof {
        assert(notes@.subrange(0, i as int) =~= notes@);
        lemma_distinct_len(note_tracks(original));
    }
    let mut compacted: Vec<MidiTrack> = Vec::new();
    let mut raw_to_compact: HashMap<usize, usize> = HashMap::with_capacity(used.len());
    proof {
        lemma_distinct_in_order_unique(note_tracks(original));
    }
    let mut k: usize = 0;
    while k < used.len()
        invariant
            k <= used@.len(),
            forall|a: int, b: int| 0 <= a < b < used@.len() ==> used@[a] != used@[b],
            forall|j: int|
                0 <= j < k ==> #[trigger] raw_to_compact@.contains_key(used@[j])
                    && raw_to_compact@[used@[j]] == j,
            used@.len() <= original.len(),
            used@ == distinct_in_order(note_tracks(original)),
            tracks@.len() == models@.len(),
            forall|j: int| 0 <= j < tracks@.len() ==> #[trigger] tracks@[j].matches(models@[j]),
            compacted@.len() == k,
            forall|j: int|
                0 <= j < k ==> (#[trigger] compacted@[j]).index == j && compacted@[j].label@
                    == compact_label(models@, used@[j], j as nat),
        decreases used.len() - k,
    {
        let raw = used[k];
        let label = match stated_label_exec(tracks, raw, models) {
            Some(label) => label,
            None => default_label(k),
        };
        compacted.push(MidiTrack { index: k, label });
        raw_to_compact.insert(raw, k);
        proof {
            assert forall|j: int| 0 <= j < k + 1 implies #[trigger] raw_to_compact@.contains_key(used@[j])
                && raw_to_compact@[used@[j]] == j by {
                if j < k {
                    assert(used@[j] != used@[k as int]);
                }
            }
        }
        k = k + 1;
    }
    let ghost used_view = used@;
    let mut n: usize = 0;
    while n < notes.len()
        invariant
            n <= notes@.len(),
            notes@.len() == original.len(),
            used@ == used_view,
            used_view == distinct_in_order(note_tracks(original)),
            forall|j: int| n <= j < notes@.len() ==> notes@[j] == original[j],
            forall|j: int| 0 <= j < n ==> notes@[j] == remap_notes(original, used_view)[j],
            forall|a: int, b: int| 0 <= a < b < used_view.len() ==> used_view[a] != used_view[b],
            forall|j: int|
                0 <= j < used_view.len() ==> #[trigger] raw_to_compact@.contains_key(used_view[j])
                    && raw_to_compact@[used_view[j]] == j,
        decreases notes.len() - n,
    {
        let note = notes[n];
        proof {
            lemma_distinct_in_order_contains(note_tracks(original));
            assert(note_tracks(original)[n as int] == note.track_index);
            lemma_first_index_found(used_view, note.track_index);
            let f = first_index(used_view, note.track_index);
            assert(raw_to_compact@.contains_key(used_view[f]));
        }
        let position = match raw_to_compact.get(&note.track_index) {
            Some(compact_index) => *compact_index,
            None => note.track_index,
        };
        notes.set(n, MidiNote { track_index: position, ..note });
        n = n + 1;
    }
    proof {
        assert(notes@ =~= remap_notes(original, used_view));
    }
    compacted
}

proof fn lemma_first_index_found_back(s: Seq<usize>, x: usize)
    requires
        first_index(s, x) < s.len(),
    ensures
        s.contains(x),
    decreases s.len(),
{
    if s.len() > 0 && s[0] != x {
        lemma_first_index_found_back(s.drop_first(), x);
        let k = choose|k: int| 0 <= k < s.drop_first().len() && s.drop_first()[k] == x;
        assert(s[k + 1] == x);
    }
}

proof fn lemma_first_index_absent(s: Seq<usize>, x: usize)
    requires
        first_index(s, x) >= s.len(),
    ensures
        !s.contains(x),
    decreases s.len(),
{
    if s.len() > 0 {
        if s[0] == x {
            assert(false);
        } else {
            lemma_first_index_absent(s.drop_first(), x);
            assert forall|k: int| 0 <= k < s.len() implies s[k] != x by {
                if k > 0 {
                    assert(s[k] == s.drop_first()[k - 1]);
                }
            }
        }
    }
}

proof fn lemma_first_index_le(s: Seq<usize>, x: usize)
    ensures
        0 <= first_index(s, x) <= s.len(),
    decreases s.len(),
{
    if s.len() > 0 && s[0] != x {
        lemma_first_index_le(s.drop_first(), x);
    }
}

proof fn lemma_distinct_len(s: Seq<usize>)
    ensures
        distinct_in_order(s).len() <= s.len(),
    decreases s.len(),
{
    if s.len() > 0 {
        lemma_distinct_len(s.drop_last());
    }
}

/// The values kept in order of first appearance are all different.
proof fn lemma_distinct_in_order_unique(s: Seq<usize>)
    ensures
        forall|a: int, b: int|
            0 <= a < b < distinct_in_order(s).len() ==> distinct_in_order(s)[a] != distinct_in_order(s)[b],
    decreases s.len(),
{
    if s.len() > 0 {
        lemma_distinct_in_order_unique(s.drop_last());
        let d = distinct_in_order(s.drop_last());
        if !d.contains(s.last()) {
            assert forall|a: int, b: int| 0 <= a < b < d.push(s.last()).len() implies d.push(s.last())[a]
                != d.push(s.last())[b] by {
                if b == d.len() {
                    assert(d[a] != s.last());
                }
            }
        }
    }
}

} // verus!
