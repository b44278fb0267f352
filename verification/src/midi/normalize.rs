use vstd::prelude::*;

use super::track::{MidiNote, TempoChange, TimeSignatureChange, sat_add_u64};

verus! {

/// Notes are ordered by start tick, then pitch, then track.
pub open spec fn note_key_le(a: MidiNote, b: MidiNote) -> bool {
    ||| a.start_tick < b.start_tick
    ||| a.start_tick == b.start_tick && a.pitch < b.pitch
    ||| a.start_tick == b.start_tick && a.pitch == b.pitch && a.track_index <= b.track_index
}

/// `x` placed into `s` after every element that does not order after it.
pub open spec fn insert_note(s: Seq<MidiNote>, x: MidiNote) -> Seq<MidiNote>
    decreases s.len(),
{
    if s.len() == 0 {
        seq![x]
    } else if !note_key_le(s.last(), x) {
        insert_note(s.drop_last(), x).push(s.last())
    } else {
        s.push(x)
    }
}

/// The stable sort of `s` by note order.
pub open spec fn sort_notes(s: Seq<MidiNote>) -> Seq<MidiNote>
    decreases s.len(),
{
    if s.len() == 0 {
        s
    } else {
        insert_note(sort_notes(s.drop_last()), s.last())
    }
}

proof fn lemma_insert_note_split(s: Seq<MidiNote>, x: MidiNote, j: int)
    requires
        0 <= j <= s.len(),
        forall|k: int| j <= k < s.len() ==> !note_key_le(#[trigger] s[k], x),
    ensures
        insert_note(s, x) == insert_note(s.subrange(0, j), x) + s.subrange(j, s.len() as int),
    decreases s.len() - j,
{
    if j < s.len() {
        lemma_insert_note_split(s, x, j + 1);
        let t = s.subrange(0, j + 1);
        assert(t.drop_last() =~= s.subrange(0, j));
        assert(t.last() == s[j]);
        assert(insert_note(t, x) == insert_note(s.subrange(0, j), x).push(s[j]));
        assert(insert_note(s.subrange(0, j), x).push(s[j]) + s.subrange(j + 1, s.len() as int)
            =~= insert_note(s.subrange(0, j), x) + s.subrange(j, s.len() as int));
    } else {
        assert(s.subrange(0, j) =~= s);
        assert(s.subrange(j, s.len() as int) =~= Seq::<MidiNote>::empty());
    }
}

/// Each note orders no later than every note after it.
pub open spec fn notes_ordered(s: Seq<MidiNote>) -> bool {
    forall|i: int, j: int| 0 <= i < j < s.len() ==> note_key_le(#[trigger] s[i], #[trigger] s[j])
}

proof fn lemma_insert_note_bounded(s: Seq<MidiNote>, x: MidiNote, y: MidiNote)
    requires
        forall|k: int| 0 <= k < s.len() ==> note_key_le(#[trigger] s[k], y),
        note_key_le(x, y),
    ensures
        forall|k: int| 0 <= k < insert_note(s, x).len() ==> note_key_le(#[trigger] insert_note(s, x)[k], y),
    decreases s.len(),
{
    if s.len() > 0 && !note_key_le(s.last(), x) {
        lemma_insert_note_bounded(s.drop_last(), x, y);
        let t = insert_note(s.drop_last(), x);
        assert forall|k: int| 0 <= k < t.push(s.last()).len() implies note_key_le(#[trigger] t.push(s.last())[k], y) by {
            if k < t.len() {
                assert(t.push(s.last())[k] == t[k]);
            }
        }
    } else if s.len() > 0 {
        assert forall|k: int| 0 <= k < s.push(x).len() implies note_key_le(#[trigger] s.push(x)[k], y) by {
            if k < s.len() {
                assert(s.push(x)[k] == s[k]);
            }
        }
    }
}

proof fn lemma_insert_note_ordered(s: Seq<MidiNote>, x: MidiNote)
    requires
        notes_ordered(s),
    ensures
        notes_ordered(insert_note(s, x)),
        insert_note(s, x).to_multiset() == s.to_multiset().insert(x),
    decreases s.len(),
{
    broadcast use vstd::seq_lib::group_to_multiset_ensures;

    if s.len() == 0 {
        assert(seq![x] =~= Seq::<MidiNote>::empty().push(x));
        assert(s =~= Seq::<MidiNote>::empty());
    } else if !note_key_le(s.last(), x) {
        let d = s.drop_last();
        assert(notes_ordered(d)) by {
            assert forall|i: int, j: int| 0 <= i < j < d.len() implies note_key_le(#[trigger] d[i], #[trigger] d[j]) by {
                assert(d[i] == s[i] && d[j] == s[j]);
            }
        }
        lemma_insert_note_ordered(d, x);
        let t = insert_note(d, x);
        assert forall|k: int| 0 <= k < d.len() implies note_key_le(#[trigger] d[k], s.last()) by {
            assert(d[k] == s[k]);
        }
        lemma_insert_note_bounded(d, x, s.last());
        assert forall|i: int, j: int| 0 <= i < j < t.push(s.last()).len() implies note_key_le(
            #[trigger] t.push(s.last())[i],
            #[trigger] t.push(s.last())[j],
        ) by {
            assert(t.push(s.last())[i] == t[i]);
            if j < t.len() {
                assert(t.push(s.last())[j] == t[j]);
            }
        }
        assert(s =~= d.push(s.last()));
        assert(t.push(s.last()).to_multiset() =~= s.to_multiset().insert(x));
    } else {
        assert forall|i: int, j: int| 0 <= i < j < s.push(x).len() implies note_key_le(
            #[trigger] s.push(x)[i],
            #[trigger] s.push(x)[j],
        ) by {
            assert(s.push(x)[i] == s[i]);
            if j < s.len() {
                assert(s.push(x)[j] == s[j]);
            } else if i < s.len() - 1 {
                assert(note_key_le(s[i], s[s.len() - 1]));
            }
        }
    }
}

/// Sorting puts the notes in order and keeps every one of them.
pub proof fn law_sorted_notes_are_ordered(notes: Seq<MidiNote>)
    ensures
        notes_ordered(sort_notes(notes)),
        sort_notes(notes).to_multiset() == notes.to_multiset(),
    decreases notes.len(),
{
    broadcast use vstd::seq_lib::group_to_multiset_ensures;

    if notes.len() > 0 {
        law_sorted_notes_are_ordered(notes.drop_last());
        lemma_insert_note_ordered(sort_notes(notes.drop_last()), notes.last());
        assert(notes =~= notes.drop_last().push(notes.last()));
    }
}

fn insert_note_exec(v: &mut Vec<MidiNote>, x: MidiNote)
    ensures
        final(v)@ == insert_note(old(v)@, x),
{
    let mut j = v.len();
    while j > 0 && !note_le(&v[j - 1], &x)
        invariant
            j <= v@.len(),
            v@ == old(v)@,
            forall|k: int| j <= k < v@.len() ==> !note_key_le(#[trigger] v@[k], x),
        decreases j,
    {
        j = j - 1;
    }
    proof {
        lemma_insert_note_split(v@, x, j as int);
        let p = v@.subrange(0, j as int);
        if j > 0 {
            assert(p.last() == v@[j - 1]);
            assert(insert_note(p, x) == p.push(x));
        } else {
            assert(insert_note(p, x) == seq![x]);
        }
    }
    v.insert(j, x);
    proof {
        assert(v@ =~= insert_note(old(v)@.subrange(0, j as int), x) + old(v)@.subrange(
            j as int,
            old(v)@.len() as int,
        ));
    }
}

/// Whether `a` does not order after `b`.
pub fn note_le(a: &MidiNote, b: &MidiNote) -> (r: bool)
    ensures
        r == note_key_le(*a, *b),
{
    a.start_tick < b.start_tick || (a.start_tick == b.start_tick && a.pitch < b.pitch) || (
    a.start_tick == b.start_tick && a.pitch == b.pitch && a.track_index <= b.track_index)
}

/// Sorts notes by start tick, pitch and track, keeping the order of equal notes.
pub fn sort_notes_exec(notes: &Vec<MidiNote>) -> (out: Vec<MidiNote>)
    ensures
        out@ == sort_notes(notes@),
{
    let mut out: Vec<MidiNote> = Vec::new();
    let mut i: usize = 0;
    while i < notes.len()
        invariant
            i <= notes@.len(),
            out@ == sort_notes(notes@.subrange(0, i as int)),
        decreases notes.len() - i,
    {
        proof {
            let t = notes@.subrange(0, i + 1);
            assert(t.drop_last() =~= notes@.subrange(0, i as int));
        }
        insert_note_exec(&mut out, notes[i]);
        i = i + 1;
    }
    proof {
        assert(notes@.subrange(0, i as int) =~= notes@);
    }
    out
}

/// `x` placed into `s` after every element whose tick is not later.
pub open spec fn insert_tempo(s: Seq<TempoChange>, x: TempoChange) -> Seq<TempoChange>
    decreases s.len(),
{
    if s.len() == 0 {
        seq![x]
    } else if s.last().tick > x.tick {
        insert_tempo(s.drop_last(), x).push(s.last())
    } else {
        s.push(x)
    }
}

/// The stable sort of tempo changes by tick.
pub open spec fn sort_tempos(s: Seq<TempoChange>) -> Seq<TempoChange>
    decreases s.len(),
{
    if s.len() == 0 {
        s
    } else {
        insert_tempo(sort_tempos(s.drop_last()), s.last())
    }
}

/// Of consecutive changes at the same tick only the last is kept.
pub open spec fn dedup_tempos(s: Seq<TempoChange>) -> Seq<TempoChange>
    decreases s.len(),
{
    if s.len() == 0 {
        s
    } else {
        let d = dedup_tempos(s.drop_last());
        if d.len() > 0 && d.last().tick == s.last().tick {
            d.update(d.len() - 1, s.last())
        } else {
            d.push(s.last())
        }
    }
}

/// Tempo changes sorted by tick, one per tick (the last given), starting at tick zero
/// with 120 BPM when no change is given there.
pub open spec fn spec_normalize_tempos(s: Seq<TempoChange>) -> Seq<TempoChange> {
    let d = dedup_tempos(sort_tempos(s));
    if d.len() == 0 || d[0].tick != 0 {
        seq![TempoChange { tick: 0, micros_per_quarter: 500000 }] + d
    } else {
        d
    }
}

/// Each change lies at a later tick than the one before.
pub open spec fn tempo_ticks_increase(s: Seq<TempoChange>) -> bool {
    forall|i: int, j: int| 0 <= i < j < s.len() ==> (#[trigger] s[i]).tick < (#[trigger] s[j]).tick
}

spec fn tempo_ticks_sorted(s: Seq<TempoChange>) -> bool {
    forall|i: int, j: int| 0 <= i < j < s.len() ==> (#[trigger] s[i]).tick <= (#[trigger] s[j]).tick
}

proof fn lemma_insert_tempo_bounded(s: Seq<TempoChange>, x: TempoChange, y: u64)
    requires
        forall|k: int| 0 <= k < s.len() ==> (#[trigger] s[k]).tick <= y,
        x.tick <= y,
    ensures
        forall|k: int| 0 <= k < insert_tempo(s, x).len() ==> (#[trigger] insert_tempo(s, x)[k]).tick <= y,
    decreases s.len(),
{
    if s.len() > 0 && s.last().tick > x.tick {
        lemma_insert_tempo_bounded(s.drop_last(), x, y);
        let t = insert_tempo(s.drop_last(), x);
        assert forall|k: int| 0 <= k < t.push(s.last()).len() implies (#[trigger] t.push(s.last())[k]).tick <= y by {
            if k < t.len() {
                assert(t.push(s.last())[k] == t[k]);
            }
        }
    } else if s.len() > 0 {
        assert forall|k: int| 0 <= k < s.push(x).len() implies (#[trigger] s.push(x)[k]).tick <= y by {
            if k < s.len() {
                assert(s.push(x)[k] == s[k]);
            }
        }
    }
}

proof fn lemma_sort_tempos_sorted(s: Seq<TempoChange>)
    ensures
        tempo_ticks_sorted(sort_tempos(s)),
    decreases s.len(),
{
    if s.len() > 0 {
        lemma_sort_tempos_sorted(s.drop_last());
        lemma_insert_tempo_sorted(sort_tempos(s.drop_last()), s.last());
    }
}

proof fn lemma_insert_tempo_sorted(s: Seq<TempoChange>, x: TempoChange)
    requires
        tempo_ticks_sorted(s),
    ensures
        tempo_ticks_sorted(insert_tempo(s, x)),
    decreases s.len(),
{
    if s.len() > 0 && s.last().tick > x.tick {
        let d = s.drop_last();
        assert(tempo_ticks_sorted(d)) by {
            assert forall|i: int, j: int| 0 <= i < j < d.len() implies (#[trigger] d[i]).tick <= (#[trigger] d[j]).tick by {
                assert(d[i] == s[i] && d[j] == s[j]);
            }
        }
        lemma_insert_tempo_sorted(d, x);
        assert forall|k: int| 0 <= k < d.len() implies (#[trigger] d[k]).tick <= s.last().tick by {
            assert(d[k] == s[k]);
        }
        lemma_insert_tempo_bounded(d, x, s.last().tick);
        let t = insert_tempo(d, x);
        assert forall|i: int, j: int| 0 <= i < j < t.push(s.last()).len() implies (#[trigger] t.push(s.last())[i]).tick
            <= (#[trigger] t.push(s.last())[j]).tick by {
            assert(t.push(s.last())[i] == t[i]);
            if j < t.len() {
                assert(t.push(s.last())[j] == t[j]);
            }
        }
    } else if s.len() > 0 {
        assert forall|i: int, j: int| 0 <= i < j < s.push(x).len() implies (#[trigger] s.push(x)[i]).tick
            <= (#[trigger] s.push(x)[j]).tick by {
            assert(s.push(x)[i] == s[i]);
            if j < s.len() {
                assert(s.push(x)[j] == s[j]);
            } else if i < s.len() - 1 {
                assert(s[i].tick <= s[s.len() - 1].tick);
            }
        }
    }
}

proof fn lemma_dedup_tempos_increase(s: Seq<TempoChange>)
    requires
        tempo_ticks_sorted(s),
    ensures
        tempo_ticks_increase(dedup_tempos(s)),
        s.len() == 0 <==> dedup_tempos(s).len() == 0,
        s.len() > 0 ==> dedup_tempos(s).last().tick == s.last().tick,
    decreases s.len(),
{
    if s.len() > 0 {
        let p = s.drop_last();
        assert(tempo_ticks_sorted(p)) by {
            assert forall|i: int, j: int| 0 <= i < j < p.len() implies (#[trigger] p[i]).tick <= (#[trigger] p[j]).tick by {
                assert(p[i] == s[i] && p[j] == s[j]);
            }
        }
        lemma_dedup_tempos_increase(p);
        let d = dedup_tempos(p);
        if d.len() > 0 {
            assert(p.last() == s[s.len() - 2]);
            assert(d.last().tick <= s.last().tick);
        }
        if d.len() > 0 && d.last().tick == s.last().tick {
            let u = d.update(d.len() - 1, s.last());
            assert forall|i: int, j: int| 0 <= i < j < u.len() implies (#[trigger] u[i]).tick < (#[trigger] u[j]).tick by {
                assert(u[i] == d[i]);
                if j < d.len() - 1 {
                    assert(u[j] == d[j]);
                } else {
                    assert(d[i].tick < d[d.len() - 1].tick);
                }
            }
        } else {
            let u = d.push(s.last());
            assert forall|i: int, j: int| 0 <= i < j < u.len() implies (#[trigger] u[i]).tick < (#[trigger] u[j]).tick by {
                assert(u[i] == d[i]);
                if j < d.len() {
                    assert(u[j] == d[j]);
                } else if i < d.len() - 1 {
                    assert(d[i].tick < d[d.len() - 1].tick);
                }
            }
        }
    }
}

/// The tempo map starts at tick zero and holds one change per tick, in tick order.
pub proof fn law_tempo_map_starts_at_zero_and_increases(s: Seq<TempoChange>)
    ensures
        spec_normalize_tempos(s).len() > 0,
        spec_normalize_tempos(s)[0].tick == 0,
        tempo_ticks_increase(spec_normalize_tempos(s)),
{
    lemma_sort_tempos_sorted(s);
    lemma_dedup_tempos_increase(sort_tempos(s));
    let d = dedup_tempos(sort_tempos(s));
    if d.len() == 0 || d[0].tick != 0 {
        let r = seq![TempoChange { tick: 0, micros_per_quarter: 500000 }] + d;
        assert forall|i: int, j: int| 0 <= i < j < r.len() implies (#[trigger] r[i]).tick < (#[trigger] r[j]).tick by {
            assert(r[j] == d[j - 1]);
            if i > 0 {
                assert(r[i] == d[i - 1]);
            } else if j - 1 > 0 {
                assert(d[0].tick < d[j - 1].tick);
            }
        }
    }
}

proof fn lemma_insert_tempo_split(s: Seq<TempoChange>, x: TempoChange, j: int)
    requires
        0 <= j <= s.len(),
        forall|k: int| j <= k < s.len() ==> #[trigger] s[k].tick > x.tick,
    ensures
        insert_tempo(s, x) == insert_tempo(s.subrange(0, j), x) + s.subrange(j, s.len() as int),
    decreases s.len() - j,
{
    if j < s.len() {
        lemma_insert_tempo_split(s, x, j + 1);
        let t = s.subrange(0, j + 1);
        assert(t.drop_last() =~= s.subrange(0, j));
        assert(t.last() == s[j]);
        assert(insert_tempo(s.subrange(0, j), x).push(s[j]) + s.subrange(j + 1, s.len() as int)
            =~= insert_tempo(s.subrange(0, j), x) + s.subrange(j, s.len() as int));
    } else {
        assert(s.subrange(0, j) =~= s);
        assert(s.subrange(j, s.len() as int) =~= Seq::<TempoChange>::empty());
    }
}

fn insert_tempo_exec(v: &mut Vec<TempoChange>, x: TempoChange)
    ensures
        final(v)@ == insert_tempo(old(v)@, x),
{
    let mut j = v.len();
    while j > 0 && v[j - 1].tick > x.tick
        invariant
            j <= v@.len(),
            v@ == old(v)@,
            forall|k: int| j <= k < v@.len() ==> #[trigger] v@[k].tick > x.tick,
        decreases j,
    {
        j = j - 1;
    }
    proof {
        lemma_insert_tempo_split(v@, x, j as int);
        let p = v@.subrange(0, j as int);
        if j > 0 {
            assert(p.last() == v@[j - 1]);
        }
    }
    v.insert(j, x);
    proof {
        assert(v@ =~= insert_tempo(old(v)@.subrange(0, j as int), x) + old(v)@.subrange(
            j as int,
            old(v)@.len() as int,
        ));
    }
}

/// Orders tempo changes by tick, keeps the last change of each tick, and starts the
/// list at tick zero (120 BPM) when no change is given there.
pub fn normalize_tempos(tempos: &Vec<TempoChange>) -> (out: Vec<TempoChange>)
    ensures
        out@ == spec_normalize_tempos(tempos@),
{
    let mut sorted: Vec<TempoChange> = Vec::new();
    let mut i: usize = 0;
    while i < tempos.len()
        invariant
            i <= tempos@.len(),
            sorted@ == sort_tempos(tempos@.subrange(0, i as int)),
        decreases tempos.len() - i,
    {
        proof {
            let t = tempos@.subrange(0, i + 1);
            assert(t.drop_last() =~= tempos@.subrange(0, i as int));
        }
        insert_tempo_exec(&mut sorted, tempos[i]);
        i = i + 1;
    }
    proof {
        assert(tempos@.subrange(0, i as int) =~= tempos@);
    }
    let mut normalized: Vec<TempoChange> = Vec::new();
    let mut k: usize = 0;
    while k < sorted.len()
        invariant
            k <= sorted@.len(),
            normalized@ == dedup_tempos(sorted@.subrange(0, k as int)),
        decreases sorted.len() - k,
    {
        let tempo = sorted[k];
        proof {
            let t = sorted@.subrange(0, k + 1);
            assert(t.drop_last() =~= sorted@.subrange(0, k as int));
        }
        let n = normalized.len();
        if n > 0 && normalized[n - 1].tick == tempo.tick {
            normalized.set(n - 1, tempo);
        } else {
            normalized.push(tempo);
        }
        k = k + 1;
    }
    proof {
        assert(sorted@.subrange(0, k as int) =~= sorted@);
    }
    if normalized.len() == 0 || normalized[0].tick != 0 {
        normalized.insert(0, TempoChange { tick: 0, micros_per_quarter: 500000 });
        proof {
            assert(normalized@ =~= seq![TempoChange { tick: 0, micros_per_quarter: 500000 }]
                + dedup_tempos(sort_tempos(tempos@)));
        }
    }
    normalized
}

/// `x` placed into `s` after every element whose tick is not later.
pub open spec fn insert_signature(s: Seq<TimeSignatureChange>, x: TimeSignatureChange) -> Seq<
    TimeSignatureChange,
>
    decreases s.len(),
{
    if s.len() == 0 {
        seq![x]
    } else if s.last().tick > x.tick {
        insert_signature(s.drop_last(), x).push(s.last())
    } else {
        s.push(x)
    }
}

/// The stable sort of time-signature changes by tick.
pub open spec fn sort_signatures(s: Seq<TimeSignatureChange>) -> Seq<TimeSignatureChange>
    decreases s.len(),
{
    if s.len() == 0 {
        s
    } else {
        insert_signature(sort_signatures(s.drop_last()), s.last())
    }
}

/// Of consecutive changes at the same tick only the last is kept.
pub open spec fn dedup_signatures(s: Seq<TimeSignatureChange>) -> Seq<TimeSignatureChange>
    decreases s.len(),
{
    if s.len() == 0 {
        s
    } else {
        let d = dedup_signatures(s.drop_last());
        if d.len() > 0 && d.last().tick == s.last().tick {
            d.update(d.len() - 1, s.last())
        } else {
            d.push(s.last())
        }
    }
}

/// Time-signature changes sorted by tick, one per tick (the last given), starting at
/// tick zero with 4/4 when no change is given there.
pub open spec fn spec_normalize_signatures(s: Seq<TimeSignatureChange>) -> Seq<
    TimeSignatureChange,
> {
    let d = dedup_signatures(sort_signatures(s));
    if d.len() == 0 || d[0].tick != 0 {
        seq![TimeSignatureChange { tick: 0, numerator: 4, denominator: 4 }] + d
    } else {
        d
    }
}

/// Each change lies at a later tick than the one before.
pub open spec fn signature_ticks_increase(s: Seq<TimeSignatureChange>) -> bool {
    forall|i: int, j: int| 0 <= i < j < s.len() ==> (#[trigger] s[i]).tick < (#[trigger] s[j]).tick
}

spec fn signature_ticks_sorted(s: Seq<TimeSignatureChange>) -> bool {
    forall|i: int, j: int| 0 <= i < j < s.len() ==> (#[trigger] s[i]).tick <= (#[trigger] s[j]).tick
}

proof fn lemma_insert_signature_bounded(s: Seq<TimeSignatureChange>, x: TimeSignatureChange, y: u64)
    requires
        forall|k: int| 0 <= k < s.len() ==> (#[trigger] s[k]).tick <= y,
        x.tick <= y,
    ensures
        forall|k: int| 0 <= k < insert_signature(s, x).len() ==> (#[trigger] insert_signature(s, x)[k]).tick <= y,
    decreases s.len(),
{
    if s.len() > 0 && s.last().tick > x.tick {
        lemma_insert_signature_bounded(s.drop_last(), x, y);
        let t = insert_signature(s.drop_last(), x);
        assert forall|k: int| 0 <= k < t.push(s.last()).len() implies (#[trigger] t.push(s.last())[k]).tick <= y by {
            if k < t.len() {
                assert(t.push(s.last())[k] == t[k]);
            }
        }
    } else if s.len() > 0 {
        assert forall|k: int| 0 <= k < s.push(x).len() implies (#[trigger] s.push(x)[k]).tick <= y by {
            if k < s.len() {
                assert(s.push(x)[k] == s[k]);
            }
        }
    }
}

proof fn lemma_sort_signatures_sorted(s: Seq<TimeSignatureChange>)
    ensures
        signature_ticks_sorted(sort_signatures(s)),
    decreases s.len(),
{
    if s.len() > 0 {
        lemma_sort_signatures_sorted(s.drop_last());
        lemma_insert_signature_sorted(sort_signatures(s.drop_last()), s.last());
    }
}

proof fn lemma_insert_signature_sorted(s: Seq<TimeSignatureChange>, x: TimeSignatureChange)
    requires
        signature_ticks_sorted(s),
    ensures
        signature_ticks_sorted(insert_signature(s, x)),
    decreases s.len(),
{
    if s.len() > 0 && s.last().tick > x.tick {
        let d = s.drop_last();
        assert(signature_ticks_sorted(d)) by {
            assert forall|i: int, j: int| 0 <= i < j < d.len() implies (#[trigger] d[i]).tick <= (#[trigger] d[j]).tick by {
                assert(d[i] == s[i] && d[j] == s[j]);
            }
        }
        lemma_insert_signature_sorted(d, x);
        assert forall|k: int| 0 <= k < d.len() implies (#[trigger] d[k]).tick <= s.last().tick by {
            assert(d[k] == s[k]);
        }
        lemma_insert_signature_bounded(d, x, s.last().tick);
        let t = insert_signature(d, x);
        assert forall|i: int, j: int| 0 <= i < j < t.push(s.last()).len() implies (#[trigger] t.push(s.last())[i]).tick
            <= (#[trigger] t.push(s.last())[j]).tick by {
            assert(t.push(s.last())[i] == t[i]);
            if j < t.len() {
                assert(t.push(s.last())[j] == t[j]);
            }
        }
    } else if s.len() > 0 {
        assert forall|i: int, j: int| 0 <= i < j < s.push(x).len() implies (#[trigger] s.push(x)[i]).tick
            <= (#[trigger] s.push(x)[j]).tick by {
            assert(s.push(x)[i] == s[i]);
            if j < s.len() {
                assert(s.push(x)[j] == s[j]);
            } else if i < s.len() - 1 {
                assert(s[i].tick <= s[s.len() - 1].tick);
            }
        }
    }
}

proof fn lemma_dedup_signatures_increase(s: Seq<TimeSignatureChange>)
    requires
        signature_ticks_sorted(s),
    ensures
        signature_ticks_increase(dedup_signatures(s)),
        s.len() == 0 <==> dedup_signatures(s).len() == 0,
        s.len() > 0 ==> dedup_signatures(s).last().tick == s.last().tick,
    decreases s.len(),
{
    if s.len() > 0 {
        let p = s.drop_last();
        assert(signature_ticks_sorted(p)) by {
            assert forall|i: int, j: int| 0 <= i < j < p.len() implies (#[trigger] p[i]).tick <= (#[trigger] p[j]).tick by {
                assert(p[i] == s[i] && p[j] == s[j]);
            }
        }
        lemma_dedup_signatures_increase(p);
        let d = dedup_signatures(p);
        if d.len() > 0 {
            assert(p.last() == s[s.len() - 2]);
            assert(d.last().tick <= s.last().tick);
        }
        if d.len() > 0 && d.last().tick == s.last().tick {
            let u = d.update(d.len() - 1, s.last());
            assert forall|i: int, j: int| 0 <= i < j < u.len() implies (#[trigger] u[i]).tick < (#[trigger] u[j]).tick by {
                assert(u[i] == d[i]);
                if j < d.len() - 1 {
                    assert(u[j] == d[j]);
                } else {
                    assert(d[i].tick < d[d.len() - 1].tick);
                }
            }
        } else {
            let u = d.push(s.last());
            assert forall|i: int, j: int| 0 <= i < j < u.len() implies (#[trigger] u[i]).tick < (#[trigger] u[j]).tick by {
                assert(u[i] == d[i]);
                if j < d.len() {
                    assert(u[j] == d[j]);
                } else if i < d.len() - 1 {
                    assert(d[i].tick < d[d.len() - 1].tick);
                }
            }
        }
    }
}

/// The time-signature map starts at tick zero and holds one change per tick, in tick order.
pub proof fn law_signature_map_starts_at_zero_and_increases(s: Seq<TimeSignatureChange>)
    ensures
        spec_normalize_signatures(s).len() > 0,
        spec_normalize_signatures(s)[0].tick == 0,
        signature_ticks_increase(spec_normalize_signatures(s)),
{
    lemma_sort_signatures_sorted(s);
    lemma_dedup_signatures_increase(sort_signatures(s));
    let d = dedup_signatures(sort_signatures(s));
    if d.len() == 0 || d[0].tick != 0 {
        let r = seq![TimeSignatureChange { tick: 0, numerator: 4, denominator: 4 }] + d;
        assert forall|i: int, j: int| 0 <= i < j < r.len() implies (#[trigger] r[i]).tick < (#[trigger] r[j]).tick by {
            assert(r[j] == d[j - 1]);
            if i > 0 {
                assert(r[i] == d[i - 1]);
            } else if j - 1 > 0 {
                assert(d[0].tick < d[j - 1].tick);
            }
        }
    }
}

proof fn lemma_insert_signature_split(s: Seq<TimeSignatureChange>, x: TimeSignatureChange, j: int)
    requires
        0 <= j <= s.len(),
        forall|k: int| j <= k < s.len() ==> #[trigger] s[k].tick > x.tick,
    ensures
        insert_signature(s, x) == insert_signature(s.subrange(0, j), x) + s.subrange(
            j,
            s.len() as int,
        ),
    decreases s.len() - j,
{
    if j < s.len() {
        lemma_insert_signature_split(s, x, j + 1);
        let t = s.subrange(0, j + 1);
        assert(t.drop_last() =~= s.subrange(0, j));
        assert(t.last() == s[j]);
        assert(insert_signature(s.subrange(0, j), x).push(s[j]) + s.subrange(
            j + 1,
            s.len() as int,
        ) =~= insert_signature(s.subrange(0, j), x) + s.subrange(j, s.len() as int));
    } else {
        assert(s.subrange(0, j) =~= s);
        assert(s.subrange(j, s.len() as int) =~= Seq::<TimeSignatureChange>::empty());
    }
}

fn insert_signature_exec(v: &mut Vec<TimeSignatureChange>, x: TimeSignatureChange)
    ensures
        final(v)@ == insert_signature(old(v)@, x),
{
    let mut j = v.len();
    while j > 0 && v[j - 1].tick > x.tick
        invariant
            j <= v@.len(),
            v@ == old(v)@,
            forall|k: int| j <= k < v@.len() ==> #[trigger] v@[k].tick > x.tick,
        decreases j,
    {
        j = j - 1;
    }
    proof {
        lemma_insert_signature_split(v@, x, j as int);
        let p = v@.subrange(0, j as int);
        if j > 0 {
            assert(p.last() == v@[j - 1]);
        }
    }
    v.insert(j, x);
    proof {
        assert(v@ =~= insert_signature(old(v)@.subrange(0, j as int), x) + old(v)@.subrange(
            j as int,
            old(v)@.len() as int,
        ));
    }
}

/// Orders time-signature changes by tick, keeps the last change of each tick, and starts
/// the list at tick zero (4/4) when no change is given there.
pub fn normalize_time_signatures(signatures: &Vec<TimeSignatureChange>) -> (out: Vec<
    TimeSignatureChange,
>)
    ensures
        out@ == spec_normalize_signatures(signatures@),
{
    let mut sorted: Vec<TimeSignatureChange> = Vec::new();
    let mut i: usize = 0;
    while i < signatures.len()
        invariant
            i <= signatures@.len(),
            sorted@ == sort_signatures(signatures@.subrange(0, i as int)),
        decreases signatures.len() - i,
    {
        proof {
            let t = signatures@.subrange(0, i + 1);
            assert(t.drop_last() =~= signatures@.subrange(0, i as int));
        }
        insert_signature_exec(&mut sorted, signatures[i]);
        i = i + 1;
    }
    proof {
        assert(signatures@.subrange(0, i as int) =~= signatures@);
    }
    let mut normalized: Vec<TimeSignatureChange> = Vec::new();
    let mut k: usize = 0;
    while k < sorted.len()
        invariant
            k <= sorted@.len(),
            normalized@ == dedup_signatures(sorted@.subrange(0, k as int)),
        decreases sorted.len() - k,
    {
        let signature = sorted[k];
        proof {
            let t = sorted@.subrange(0, k + 1);
            assert(t.drop_last() =~= sorted@.subrange(0, k as int));
        }
        let n = normalized.len();
        if n > 0 && normalized[n - 1].tick == signature.tick {
            normalized.set(n - 1, signature);
        } else {
            normalized.push(signature);
        }
        k = k + 1;
    }
    proof {
        assert(sorted@.subrange(0, k as int) =~= sorted@);
    }
    if normalized.len() == 0 || normalized[0].tick != 0 {
        normalized.insert(0, TimeSignatureChange { tick: 0, numerator: 4, denominator: 4 });
        proof {
            assert(normalized@ =~= seq![
                TimeSignatureChange { tick: 0, numerator: 4, denominator: 4 },
            ] + dedup_signatures(sort_signatures(signatures@)));
        }
    }
    normalized
}

/// Length of one bar in ticks: four quarters times the numerator over the denominator
/// (each at least one), with saturating multiplication.
pub open spec fn spec_bar_length_ticks(ppq: u16, signature: TimeSignatureChange) -> u64 {
    let numerator: int = if signature.numerator >= 1 {
        signature.numerator as int
    } else {
        1
    };
    let denominator: int = if signature.denominator >= 1 {
        signature.denominator as int
    } else {
        1
    };
    let quarter4: int = if ppq as int * 4 > u64::MAX {
        u64::MAX as int
    } else {
        ppq as int * 4
    };
    let whole: int = if quarter4 * numerator > u64::MAX {
        u64::MAX as int
    } else {
        quarter4 * numerator
    };
    (whole / denominator) as u64
}

/// Ticks per bar under a time signature.
pub fn bar_length_ticks(ppq: u16, signature: TimeSignatureChange) -> (r: u64)
    ensures
        r == spec_bar_length_ticks(ppq, signature),
{
    let quarter = ppq as u64;
    let numerator: u64 = if signature.numerator >= 1 {
        signature.numerator as u64
    } else {
        1
    };
    let denominator: u64 = if signature.denominator >= 1 {
        signature.denominator as u64
    } else {
        1
    };
    let quarter4: u64 = quarter * 4;
    proof {
        assert(quarter4 * numerator <= 65535 * 4 * 255) by (nonlinear_arith)
            requires
                quarter4 <= 65535 * 4,
                numerator <= 255,
        ;
    }
    let whole: u64 = quarter4 * numerator;
    whole / denominator
}

/// A bar lasts four quarter notes times the numerator over the denominator (each taken as
/// one when zero), rounded down: its length times the denominator is at most
/// `ppq * 4 * numerator`, and one tick more would pass it. A 6/8 bar at 480 ticks a quarter
/// lasts 1440 ticks.
pub proof fn law_bar_length_follows_the_meter(ppq: u16, signature: TimeSignatureChange)
    ensures
        ({
            let n: int = if signature.numerator >= 1 { signature.numerator as int } else { 1 };
            let d: int = if signature.denominator >= 1 { signature.denominator as int } else { 1 };
            let len = spec_bar_length_ticks(ppq, signature) as int;
            &&& len * d <= ppq as int * 4 * n
            &&& ppq as int * 4 * n < (len + 1) * d
        }),
{
    let n: int = if signature.numerator >= 1 { signature.numerator as int } else { 1 };
    let d: int = if signature.denominator >= 1 { signature.denominator as int } else { 1 };
    let q: int = ppq as int;
    let w: int = q * 4 * n;
    assert(0 <= w <= 65535 * 4 * 255) by (nonlinear_arith)
        requires
            w == q * 4 * n,
            0 <= q <= 65535,
            1 <= n <= 255,
    ;
    let len: int = w / d;
    assert(len * d <= w && w < (len + 1) * d && 0 <= len <= w) by (nonlinear_arith)
        requires
            len == w / d,
            d >= 1,
            w >= 0,
    ;
    assert(spec_bar_length_ticks(ppq, signature) as int == len);
}

/// The bar lines laid from `tick` on, one bar of `bar` ticks apart, while they lie at or
/// before `total` and before `end`, appended to `lines` (a line already last is not repeated).
pub open spec fn bar_grid(tick: u64, end: u64, total: u64, bar: u64, lines: Seq<u64>) -> Seq<u64>
    recommends
        bar >= 1,
    decreases u64::MAX - tick,
    when bar >= 1
{
    if tick <= total && tick < end {
        let next_lines = if lines.len() > 0 && lines.last() == tick {
            lines
        } else {
            lines.push(tick)
        };
        bar_grid(sat_add_u64(tick, bar as int), end, total, bar, next_lines)
    } else {
        lines
    }
}

/// Where the segment of signature `i` ends: at the next signature, or just past the end.
pub open spec fn segment_end(total: u64, signatures: Seq<TimeSignatureChange>, i: int) -> u64 {
    if i + 1 < signatures.len() {
        signatures[i + 1].tick
    } else {
        sat_add_u64(total, 1)
    }
}

/// Bar lines of the segments of signatures `i..` appended to `lines`.
pub open spec fn bar_lines_from(
    total: u64,
    ppq: u16,
    signatures: Seq<TimeSignatureChange>,
    i: int,
    lines: Seq<u64>,
) -> Seq<u64>
    decreases signatures.len() - i,
{
    if i < 0 || i >= signatures.len() {
        lines
    } else {
        let bar = if spec_bar_length_ticks(ppq, signatures[i]) >= 1 {
            spec_bar_length_ticks(ppq, signatures[i])
        } else {
            1
        };
        bar_lines_from(
            total,
            ppq,
            signatures,
            i + 1,
            bar_grid(signatures[i].tick, segment_end(total, signatures, i), total, bar, lines),
        )
    }
}

/// The bar lines of the piano roll: each signature lays bars from its tick up to the
/// next signature (or the end); never empty.
pub open spec fn spec_bar_lines(total: u64, ppq: u16, signatures: Seq<TimeSignatureChange>) -> Seq<
    u64,
> {
    let lines = bar_lines_from(total, ppq, signatures, 0, Seq::empty());
    if lines.len() == 0 {
        seq![0u64]
    } else {
        lines
    }
}

/// Each bar line lies after the one before.
pub open spec fn lines_increase(lines: Seq<u64>) -> bool {
    forall|i: int, j: int| 0 <= i < j < lines.len() ==> #[trigger] lines[i] < #[trigger] lines[j]
}

proof fn lemma_bar_grid_increases(tick: u64, end: u64, total: u64, bar: u64, lines: Seq<u64>)
    requires
        bar >= 1,
        lines_increase(lines),
        lines.len() > 0 ==> lines.last() <= tick,
    ensures
        lines_increase(bar_grid(tick, end, total, bar, lines)),
        bar_grid(tick, end, total, bar, lines).len() > 0 ==> (bar_grid(tick, end, total, bar, lines).last()
            < end || (lines.len() > 0 && bar_grid(tick, end, total, bar, lines).last() == lines.last())),
    decreases u64::MAX - tick,
{
    if tick <= total && tick < end {
        let next_lines = if lines.len() > 0 && lines.last() == tick {
            lines
        } else {
            lines.push(tick)
        };
        assert(lines_increase(next_lines)) by {
            if !(lines.len() > 0 && lines.last() == tick) {
                assert forall|i: int, j: int| 0 <= i < j < next_lines.len() implies #[trigger] next_lines[i]
                    < #[trigger] next_lines[j] by {
                    assert(next_lines[i] == lines[i]);
                    if j < lines.len() {
                        assert(next_lines[j] == lines[j]);
                    } else if i < lines.len() - 1 {
                        assert(lines[i] < lines[lines.len() - 1]);
                    }
                }
            }
        }
        assert(next_lines.last() == tick);
        lemma_bar_grid_increases(sat_add_u64(tick, bar as int), end, total, bar, next_lines);
    }
}

proof fn lemma_bar_lines_from_increase(
    total: u64,
    ppq: u16,
    signatures: Seq<TimeSignatureChange>,
    i: int,
    lines: Seq<u64>,
)
    requires
        signature_ticks_increase(signatures),
        0 <= i,
        lines_increase(lines),
        lines.len() > 0 && i < signatures.len() ==> lines.last() <= signatures[i].tick,
    ensures
        lines_increase(bar_lines_from(total, ppq, signatures, i, lines)),
    decreases signatures.len() - i,
{
    if i < signatures.len() {
        let bar = if spec_bar_length_ticks(ppq, signatures[i]) >= 1 {
            spec_bar_length_ticks(ppq, signatures[i])
        } else {
            1
        };
        let end = segment_end(total, signatures, i);
        lemma_bar_grid_increases(signatures[i].tick, end, total, bar, lines);
        let grid = bar_grid(signatures[i].tick, end, total, bar, lines);
        if grid.len() > 0 && i + 1 < signatures.len() {
            assert(signatures[i].tick < signatures[i + 1].tick);
        }
        lemma_bar_lines_from_increase(total, ppq, signatures, i + 1, grid);
    }
}

/// With time signatures at increasing ticks, the bar lines lie at increasing ticks.
pub proof fn law_bar_lines_increase(total: u64, ppq: u16, signatures: Seq<TimeSignatureChange>)
    requires
        signature_ticks_increase(signatures),
    ensures
        lines_increase(spec_bar_lines(total, ppq, signatures)),
{
    lemma_bar_lines_from_increase(total, ppq, signatures, 0, Seq::empty());
}

/// Laying a grid from `tick` adds lines exactly one bar apart, starting at `tick`, up to the
/// last one at or before `total` and before `end`.
proof fn lemma_bar_grid_steps(tick: u64, end: u64, total: u64, bar: u64, lines: Seq<u64>)
    requires
        bar >= 1,
        lines.len() > 0 ==> lines.last() < tick,
    ensures
        ({
            let r = bar_grid(tick, end, total, bar, lines);
            let k = r.len() - lines.len();
            &&& r.len() >= lines.len()
            &&& r.subrange(0, lines.len() as int) == lines
            &&& forall|i: int| lines.len() <= i < r.len() ==> #[trigger] r[i] == tick + (i - lines.len()) * bar
            &&& forall|i: int| lines.len() <= i < r.len() ==> #[trigger] r[i] <= total && r[i] < end
            &&& tick + k * bar > total || tick + k * bar >= end
            &&& tick <= total && tick < end ==> r.len() > lines.len()
        }),
    decreases u64::MAX - tick,
{
    let r = bar_grid(tick, end, total, bar, lines);
    if tick <= total && tick < end {
        let next_lines = lines.push(tick);
        let next = sat_add_u64(tick, bar as int);
        assert(r == bar_grid(next, end, total, bar, next_lines));
        if tick + bar > u64::MAX {
            assert(next == u64::MAX);
            assert(next >= end);
            assert(bar_grid(next, end, total, bar, next_lines) == next_lines);
            assert(r.subrange(0, lines.len() as int) =~= lines);
            assert forall|i: int| lines.len() <= i < r.len() implies #[trigger] r[i] == tick + (i - lines.len()) * bar by {
                assert(i == lines.len());
                assert((i - lines.len()) * bar == 0) by (nonlinear_arith)
                    requires
                        i == lines.len(),
                ;
            }
        } else {
            assert(next == tick + bar);
            lemma_bar_grid_steps(next, end, total, bar, next_lines);
            let k = r.len() - lines.len();
            assert(r.subrange(0, next_lines.len() as int).subrange(0, lines.len() as int) =~= r.subrange(0, lines.len() as int));
            assert(r.subrange(0, lines.len() as int) =~= lines);
            assert forall|i: int| lines.len() <= i < r.len() implies #[trigger] r[i] == tick + (i - lines.len()) * bar by {
                if i == lines.len() {
                    assert(r[i] == r.subrange(0, next_lines.len() as int)[i]);
                    assert(r[i] == next_lines[i]);
                    assert((i - lines.len()) * bar == 0) by (nonlinear_arith)
                        requires
                            i == lines.len(),
                    ;
                } else {
                    assert(r[i] == next + (i - next_lines.len()) * bar);
                    assert(next + (i - next_lines.len()) * bar == tick + (i - lines.len()) * bar) by (nonlinear_arith)
                        requires
                            next == tick + bar,
                            next_lines.len() == lines.len() + 1,
                    ;
                }
            }
            assert(next + (k - 1) * bar == tick + k * bar) by (nonlinear_arith)
                requires
                    next == tick + bar,
            ;
        }
    } else {
        assert(r == lines);
        assert(r.subrange(0, lines.len() as int) =~= lines);
    }
}

/// Under a single time signature from the start, the bar lines lie evenly one bar length
/// apart from tick zero, and they cover the piece: the last lies at or before its end, and
/// one bar later would pass it.
pub proof fn law_one_meter_lays_evenly_spaced_bar_lines(total: u64, ppq: u16, signature: TimeSignatureChange)
    requires
        signature.tick == 0,
        total < u64::MAX,
    ensures
        ({
            let lines = spec_bar_lines(total, ppq, seq![signature]);
            let bar = if spec_bar_length_ticks(ppq, signature) >= 1 {
                spec_bar_length_ticks(ppq, signature) as int
            } else {
                1
            };
            &&& lines.len() >= 1
            &&& forall|i: int| 0 <= i < lines.len() ==> #[trigger] lines[i] == i * bar
            &&& (lines.len() - 1) * bar <= total
            &&& lines.len() * bar > total
        }),
{
    let sigs = seq![signature];
    let bar: u64 = if spec_bar_length_ticks(ppq, signature) >= 1 {
        spec_bar_length_ticks(ppq, signature)
    } else {
        1
    };
    let end = segment_end(total, sigs, 0);
    assert(end == total + 1);
    let grid = bar_grid(0, end, total, bar, Seq::empty());
    assert(bar_lines_from(total, ppq, sigs, 1, grid) == grid);
    assert(bar_lines_from(total, ppq, sigs, 0, Seq::empty()) == grid);
    lemma_bar_grid_steps(0, end, total, bar, Seq::empty());
    let n = grid.len() as int;
    assert(grid[n - 1] == (n - 1) * bar);
    assert(grid[n - 1] <= total);
}

/// Bar-line ticks for the whole piece.
pub fn build_bar_lines(total_ticks: u64, ppq: u16, signatures: &Vec<TimeSignatureChange>) -> (out:
    Vec<u64>)
    ensures
        out@ == spec_bar_lines(total_ticks, ppq, signatures@),
{
    let mut lines: Vec<u64> = Vec::new();
    let mut index: usize = 0;
    while index < signatures.len()
        invariant
            index <= signatures@.len(),
            bar_lines_from(total_ticks, ppq, signatures@, 0, Seq::empty()) == bar_lines_from(
                total_ticks,
                ppq,
                signatures@,
                index as int,
                lines@,
            ),
        decreases signatures.len() - index,
    {
        let signature = signatures[index];
        let start_tick = signature.tick;
        let end_tick = if index + 1 < signatures.len() {
            signatures[index + 1].tick
        } else {
            total_ticks.saturating_add(1)
        };
        let raw = bar_length_ticks(ppq, signature);
        let bar_length = if raw >= 1 {
            raw
        } else {
            1
        };
        let ghost before = lines@;
        let mut tick = start_tick;
        while tick <= total_ticks && tick < end_tick
            invariant
                bar_length >= 1,
                bar_grid(start_tick, end_tick, total_ticks, bar_length, before) == bar_grid(
                    tick,
                    end_tick,
                    total_ticks,
                    bar_length,
                    lines@,
                ),
            decreases u64::MAX - tick,
        {
            let n = lines.len();
            if !(n > 0 && lines[n - 1] == tick) {
                lines.push(tick);
            }
            tick = tick.saturating_add(bar_length);
        }
        index = index + 1;
    }
    if lines.len() == 0 {
        lines.push(0);
    }
    lines
}

/// Lowest pitch of the notes.
pub open spec fn min_pitch(notes: Seq<MidiNote>) -> u8
    recommends
        notes.len() > 0,
    decreases notes.len(),
{
    if notes.len() <= 1 {
        notes[0].pitch
    } else if notes.last().pitch < min_pitch(notes.drop_last()) {
        notes.last().pitch
    } else {
        min_pitch(notes.drop_last())
    }
}

/// Highest pitch of the notes.
pub open spec fn max_pitch(notes: Seq<MidiNote>) -> u8
    recommends
        notes.len() > 0,
    decreases notes.len(),
{
    if notes.len() <= 1 {
        notes[0].pitch
    } else if notes.last().pitch > max_pitch(notes.drop_last()) {
        notes.last().pitch
    } else {
        max_pitch(notes.drop_last())
    }
}

/// The pitch range the roll shows: the notes' range widened to at least A0 (21) to C8 (108).
pub open spec fn spec_pitch_range(notes: Seq<MidiNote>) -> (u8, u8) {
    if notes.len() == 0 {
        (21, 108)
    } else {
        (
            if min_pitch(notes) < 21 {
                min_pitch(notes)
            } else {
                21
            },
            if max_pitch(notes) > 108 {
                max_pitch(notes)
            } else {
                108
            },
        )
    }
}

/// Pitch range to display for the notes.
pub fn note_pitch_range(notes: &Vec<MidiNote>) -> (r: (u8, u8))
    ensures
        r == spec_pitch_range(notes@),
{
    if notes.len() == 0 {
        return (21, 108);
    }
    let mut lo = notes[0].pitch;
    let mut hi = notes[0].pitch;
    let mut i: usize = 1;
    while i < notes.len()
        invariant
            1 <= i <= notes@.len(),
            lo == min_pitch(notes@.subrange(0, i as int)),
            hi == max_pitch(notes@.subrange(0, i as int)),
        decreases notes.len() - i,
    {
        proof {
            let t = notes@.subrange(0, i + 1);
            assert(t.drop_last() =~= notes@.subrange(0, i as int));
        }
        let p = notes[i].pitch;
        if p < lo {
            lo = p;
        }
        if p > hi {
            hi = p;
        }
        i = i + 1;
    }
    proof {
        assert(notes@.subrange(0, i as int) =~= notes@);
    }
    (
        if lo < 21 {
            lo
        } else {
            21
        },
        if hi > 108 {
            hi
        } else {
            108
        },
    )
}

} // verus!
