//! MIDI piano-roll data: the notes, tracks, tempo and meter of a standard MIDI file.

pub mod compact;
pub mod normalize;
pub mod reader;
pub mod track;

use vstd::prelude::*;

use crate::paths::{path_extension, path_file_stem, spec_path_extension, spec_path_file_stem};
use crate::text::{
    chars_equal, chars_of, has_prefix, owned, parse_u32_chars, spec_parse_u32, starts_with_chars,
};
use compact::{
    MidiTrack, compact_label, compact_tracks_and_notes, distinct_in_order, note_tracks,
    remap_notes,
};
use normalize::{
    build_bar_lines, normalize_tempos, normalize_time_signatures, note_pitch_range,
    sort_notes, sort_notes_exec, spec_bar_lines, spec_normalize_signatures,
    spec_normalize_tempos, spec_pitch_range,
};
use reader::{ByteReader, be16, be32};
use track::{
    MidiNote, MidiParseError, ParsedMidiTrack, ParsedTrackModel, TempoChange,
    TimeSignatureChange, max_u64, parse_midi_track, spec_parse_track,
};

verus! {

/// Everything the piano roll shows of one MIDI file.
pub struct MidiRollData {
    pub ppq: u16,
    pub total_ticks: u64,
    pub notes: Vec<MidiNote>,
    pub tracks: Vec<MidiTrack>,
    pub time_signatures: Vec<TimeSignatureChange>,
    pub tempo_changes: Vec<TempoChange>,
    pub bar_lines: Vec<u64>,
    pub min_pitch: u8,
    pub max_pitch: u8,
}

/// The MIDI header: track count, ticks per quarter note, and the bytes it spans.
pub struct HeaderModel {
    pub track_count: u16,
    pub ppq: u16,
    pub used: nat,
}

/// `b"MThd"`.
pub open spec fn is_header_tag(b: Seq<u8>) -> bool {
    b[0] == 0x4Du8 && b[1] == 0x54u8 && b[2] == 0x68u8 && b[3] == 0x64u8
}

/// `b"MTrk"`.
pub open spec fn is_track_tag(b: Seq<u8>) -> bool {
    b[0] == 0x4Du8 && b[1] == 0x54u8 && b[2] == 0x72u8 && b[3] == 0x6Bu8
}

/// The header chunk at the start of a MIDI file: `MThd`, a length of at least six, the
/// format, track count and division, and any extra header bytes; SMPTE timing is refused.
pub open spec fn spec_header(b: Seq<u8>) -> Result<HeaderModel, MidiParseError> {
    if b.len() < 4 {
        Err(MidiParseError::MissingHeader)
    } else if !is_header_tag(b) {
        Err(MidiParseError::InvalidHeaderChunk)
    } else if b.len() < 8 {
        Err(MidiParseError::TruncatedHeader)
    } else if be32(b[4], b[5], b[6], b[7]) < 6 {
        Err(MidiParseError::InvalidHeaderLength(be32(b[4], b[5], b[6], b[7]) as u32))
    } else if b.len() < 10 {
        Err(MidiParseError::MissingFormat)
    } else if b.len() < 12 {
        Err(MidiParseError::MissingTrackCount)
    } else if b.len() < 14 {
        Err(MidiParseError::MissingDivision)
    } else if 14 + (be32(b[4], b[5], b[6], b[7]) - 6) > b.len() {
        Err(MidiParseError::TruncatedExtendedHeader)
    } else if be16(b[12], b[13]) >= 0x8000 {
        Err(MidiParseError::SmpteTiming)
    } else {
        Ok(
            HeaderModel {
                track_count: be16(b[10], b[11]) as u16,
                ppq: be16(b[12], b[13]) as u16,
                used: (14 + (be32(b[4], b[5], b[6], b[7]) - 6)) as nat,
            },
        )
    }
}

/// The ticks per quarter note are the header's division word, most significant byte first.
pub proof fn law_header_division_is_big_endian(b: Seq<u8>)
    requires
        spec_header(b) is Ok,
    ensures
        spec_header(b) matches Ok(h) && h.ppq / 256 == b[12] && h.ppq % 256 == b[13],
{
    let hi: int = b[12] as int;
    let lo: int = b[13] as int;
    let v: int = hi * 256 + lo;
    assert(v / 256 == hi && v % 256 == lo && 0 <= v < 65536) by (nonlinear_arith)
        requires
            v == hi * 256 + lo,
            0 <= hi < 256,
            0 <= lo < 256,
    ;
}

/// The track chunks `index..count` at the start of `rem`, each read as a track.
pub open spec fn spec_chunks(rem: Seq<u8>, index: nat, count: nat) -> Result<
    Seq<ParsedTrackModel>,
    MidiParseError,
>
    decreases count - index,
{
    if index >= count {
        Ok(Seq::empty())
    } else if rem.len() < 4 {
        Err(MidiParseError::TruncatedTrackHeader)
    } else if !is_track_tag(rem) {
        Err(MidiParseError::InvalidTrackChunk)
    } else if rem.len() < 8 {
        Err(MidiParseError::TruncatedTrackLength)
    } else if 8 + be32(rem[4], rem[5], rem[6], rem[7]) > rem.len() {
        Err(MidiParseError::TruncatedTrackData)
    } else {
        let end = 8 + be32(rem[4], rem[5], rem[6], rem[7]);
        match spec_parse_track(index as u16, rem.subrange(8, end)) {
            Err(e) => Err(e),
            Ok(track) => match spec_chunks(rem.subrange(end, rem.len() as int), index + 1, count) {
                Err(e) => Err(e),
                Ok(rest) => Ok(seq![track] + rest),
            },
        }
    }
}

pub open spec fn all_notes(tracks: Seq<ParsedTrackModel>) -> Seq<MidiNote>
    decreases tracks.len(),
{
    if tracks.len() == 0 {
        Seq::empty()
    } else {
        all_notes(tracks.drop_last()) + tracks.last().notes
    }
}

pub open spec fn all_tempos(tracks: Seq<ParsedTrackModel>) -> Seq<TempoChange>
    decreases tracks.len(),
{
    if tracks.len() == 0 {
        Seq::empty()
    } else {
        all_tempos(tracks.drop_last()) + tracks.last().tempo_changes
    }
}

pub open spec fn all_signatures(tracks: Seq<ParsedTrackModel>) -> Seq<TimeSignatureChange>
    decreases tracks.len(),
{
    if tracks.len() == 0 {
        Seq::empty()
    } else {
        all_signatures(tracks.drop_last()) + tracks.last().time_signatures
    }
}

/// The longest track length in ticks.
pub open spec fn longest_track(tracks: Seq<ParsedTrackModel>) -> u64
    decreases tracks.len(),
{
    if tracks.len() == 0 {
        0
    } else {
        max_u64(longest_track(tracks.drop_last()), tracks.last().total_ticks)
    }
}

/// What a MIDI file holds, once read.
pub struct MidiRollModel {
    pub ppq: u16,
    pub total_ticks: u64,
    pub notes: Seq<MidiNote>,
    pub track_labels: Seq<Seq<char>>,
    pub time_signatures: Seq<TimeSignatureChange>,
    pub tempo_changes: Seq<TempoChange>,
    pub bar_lines: Seq<u64>,
    pub min_pitch: u8,
    pub max_pitch: u8,
}

/// The piano-roll data assembled from the parsed tracks: tracks without notes dropped,
/// notes sorted, the length covering every note, tempo and meter normalized.
pub open spec fn spec_assemble(ppq: u16, tracks: Seq<ParsedTrackModel>) -> MidiRollModel {
    let used = distinct_in_order(note_tracks(all_notes(tracks)));
    let notes = sort_notes(remap_notes(all_notes(tracks), used));
    let total = if notes.len() > 0 {
        max_u64(longest_track(tracks), notes.last().end_tick)
    } else {
        longest_track(tracks)
    };
    let signatures = spec_normalize_signatures(all_signatures(tracks));
    MidiRollModel {
        ppq,
        total_ticks: total,
        notes,
        track_labels: Seq::new(used.len(), |i: int| compact_label(tracks, used[i], i as nat)),
        time_signatures: signatures,
        tempo_changes: spec_normalize_tempos(all_tempos(tracks)),
        bar_lines: spec_bar_lines(total, ppq, signatures),
        min_pitch: spec_pitch_range(notes).0,
        max_pitch: spec_pitch_range(notes).1,
    }
}

/// A standard MIDI file read in full.
pub open spec fn spec_parse_midi(b: Seq<u8>) -> Result<MidiRollModel, MidiParseError> {
    match spec_header(b) {
        Err(e) => Err(e),
        Ok(h) => match spec_chunks(b.subrange(h.used as int, b.len() as int), 0, h.track_count as nat) {
            Err(e) => Err(e),
            Ok(tracks) => Ok(spec_assemble(h.ppq, tracks)),
        },
    }
}

/// The notes of a MIDI file come out ordered by start tick, then pitch, then track.
pub proof fn law_parsed_notes_are_ordered(bytes: Seq<u8>)
    ensures
        spec_parse_midi(bytes) matches Ok(m) ==> normalize::notes_ordered(m.notes),
{
    if let Ok(h) = spec_header(bytes) {
        if let Ok(tracks) = spec_chunks(bytes.subrange(h.used as int, bytes.len() as int), 0, h.track_count as nat) {
            let used = distinct_in_order(note_tracks(all_notes(tracks)));
            normalize::law_sorted_notes_are_ordered(remap_notes(all_notes(tracks), used));
        }
    }
}

/// The tempo and time-signature maps of a MIDI file start at tick zero and hold one change
/// per tick, in tick order; its bar lines lie at increasing ticks.
pub proof fn law_parsed_maps_start_at_zero(bytes: Seq<u8>)
    ensures
        spec_parse_midi(bytes) matches Ok(m) ==> {
            &&& m.tempo_changes.len() > 0 && m.tempo_changes[0].tick == 0
            &&& normalize::tempo_ticks_increase(m.tempo_changes)
            &&& m.time_signatures.len() > 0 && m.time_signatures[0].tick == 0
            &&& normalize::signature_ticks_increase(m.time_signatures)
            &&& normalize::lines_increase(m.bar_lines)
        },
{
    if let Ok(h) = spec_header(bytes) {
        if let Ok(tracks) = spec_chunks(bytes.subrange(h.used as int, bytes.len() as int), 0, h.track_count as nat) {
            normalize::law_tempo_map_starts_at_zero_and_increases(all_tempos(tracks));
            normalize::law_signature_map_starts_at_zero_and_increases(all_signatures(tracks));
            let m = spec_assemble(h.ppq, tracks);
            normalize::law_bar_lines_increase(m.total_ticks, h.ppq, m.time_signatures);
        }
    }
}

impl MidiRollData {
    /// The label of the track at `track_index`: that of the first track with that index.
    pub fn track_label(&self, track_index: usize) -> (r: Option<&str>)
        ensures
            match r {
                Some(label) => exists|i: int|
                    0 <= i < self.tracks@.len() && (#[trigger] self.tracks@[i]).index == track_index
                        && label@ == self.tracks@[i].label@ && forall|j: int|
                        0 <= j < i ==> (#[trigger] self.tracks@[j]).index != track_index,
                None => forall|i: int| 0 <= i < self.tracks@.len() ==> (#[trigger] self.tracks@[i]).index != track_index,
            },
    {
        let mut i: usize = 0;
        while i < self.tracks.len()
            invariant
                i <= self.tracks@.len(),
                forall|j: int| 0 <= j < i ==> (#[trigger] self.tracks@[j]).index != track_index,
            decreases self.tracks.len() - i,
        {
            if self.tracks[i].index == track_index {
                return Some(self.tracks[i].label.as_str());
            }
            i += 1;
        }
        None
    }
}

impl MidiRollData {
    pub open spec fn matches(&self, m: MidiRollModel) -> bool {
        &&& self.ppq == m.ppq
        &&& self.total_ticks == m.total_ticks
        &&& self.notes@ == m.notes
        &&& self.tracks@.len() == m.track_labels.len()
        &&& forall|i: int|
            0 <= i < self.tracks@.len() ==> (#[trigger] self.tracks@[i]).index == i
                && self.tracks@[i].label@ == m.track_labels[i]
        &&& self.time_signatures@ == m.time_signatures
        &&& self.tempo_changes@ == m.tempo_changes
        &&& self.bar_lines@ == m.bar_lines
        &&& self.min_pitch == m.min_pitch
        &&& self.max_pitch == m.max_pitch
    }
}

fn read_header(reader: &mut ByteReader) -> (r: Result<(u16, u16), MidiParseError>)
    requires
        old(reader).wf(),
        old(reader).cursor == 0,
    ensures
        final(reader).wf(),
        final(reader).bytes == old(reader).bytes,
        match spec_header(old(reader).bytes@) {
            Err(e) => r == Err::<(u16, u16), MidiParseError>(e),
            Ok(h) => r == Ok::<(u16, u16), MidiParseError>((h.track_count, h.ppq))
                && final(reader).cursor == h.used,
        },
{
    let ghost b = reader.bytes@;
    proof {
        assert(reader.remaining() =~= b);
    }
    let tag = match reader.read_exact(4) {
        Some(tag) => tag,
        None => return Err(MidiParseError::MissingHeader),
    };
    if !(tag[0] == 0x4D && tag[1] == 0x54 && tag[2] == 0x68 && tag[3] == 0x64) {
        return Err(MidiParseError::InvalidHeaderChunk);
    }
    let header_length = match reader.read_u32_be() {
        Some(len) => len,
        None => return Err(MidiParseError::TruncatedHeader),
    };
    if header_length < 6 {
        return Err(MidiParseError::InvalidHeaderLength(header_length));
    }
    match reader.read_u16_be() {
        Some(_) => {},
        None => return Err(MidiParseError::MissingFormat),
    }
    let track_count = match reader.read_u16_be() {
        Some(count) => count,
        None => return Err(MidiParseError::MissingTrackCount),
    };
    let division = match reader.read_u16_be() {
        Some(division) => division,
        None => return Err(MidiParseError::MissingDivision),
    };
    let extra_len = header_length - 6;
    match reader.read_exact(extra_len as usize) {
        Some(_) => {},
        None => return Err(MidiParseError::TruncatedExtendedHeader),
    }
    if (division & 0x8000) != 0 {
        proof {
            assert(division & 0x8000 != 0 ==> division >= 0x8000) by (bit_vector);
        }
        return Err(MidiParseError::SmpteTiming);
    }
    proof {
        assert(division & 0x8000 == 0 ==> division < 0x8000) by (bit_vector);
    }
    Ok((track_count, division))
}

fn read_track_chunk<'a>(reader: &mut ByteReader<'a>) -> (r: Result<&'a [u8], MidiParseError>)
    requires
        old(reader).wf(),
    ensures
        final(reader).wf(),
        final(reader).bytes == old(reader).bytes,
        ({
            let rem = old(reader).remaining();
            if rem.len() < 4 {
                r == Err::<&'a [u8], MidiParseError>(MidiParseError::TruncatedTrackHeader)
            } else if !is_track_tag(rem) {
                r == Err::<&'a [u8], MidiParseError>(MidiParseError::InvalidTrackChunk)
            } else if rem.len() < 8 {
                r == Err::<&'a [u8], MidiParseError>(MidiParseError::TruncatedTrackLength)
            } else if 8 + be32(rem[4], rem[5], rem[6], rem[7]) > rem.len() {
                r == Err::<&'a [u8], MidiParseError>(MidiParseError::TruncatedTrackData)
            } else {
                let end = 8 + be32(rem[4], rem[5], rem[6], rem[7]);
                r is Ok && r->Ok_0@ == rem.subrange(8, end) && final(reader).remaining()
                    == rem.subrange(end, rem.len() as int)
            }
        }),
{
    let ghost rem = reader.remaining();
    let tag = match reader.read_exact(4) {
        Some(tag) => tag,
        None => return Err(MidiParseError::TruncatedTrackHeader),
    };
    if !(tag[0] == 0x4D && tag[1] == 0x54 && tag[2] == 0x72 && tag[3] == 0x6B) {
        return Err(MidiParseError::InvalidTrackChunk);
    }
    let track_len = match reader.read_u32_be() {
        Some(len) => len,
        None => return Err(MidiParseError::TruncatedTrackLength),
    };
    match reader.read_exact(track_len as usize) {
        Some(data) => {
            proof {
                assert(data@ =~= rem.subrange(8, 8 + track_len));
                assert(reader.remaining() =~= rem.subrange(8 + track_len, rem.len() as int));
            }
            Ok(data)
        },
        None => Err(MidiParseError::TruncatedTrackData),
    }
}

proof fn lemma_all_notes_push(tracks: Seq<ParsedTrackModel>, t: ParsedTrackModel)
    ensures
        all_notes(tracks.push(t)) == all_notes(tracks) + t.notes,
        all_tempos(tracks.push(t)) == all_tempos(tracks) + t.tempo_changes,
        all_signatures(tracks.push(t)) == all_signatures(tracks) + t.time_signatures,
        longest_track(tracks.push(t)) == max_u64(longest_track(tracks), t.total_ticks),
{
    assert(tracks.push(t).drop_last() =~= tracks);
}

proof fn lemma_chunks_step(
    models: Seq<ParsedTrackModel>,
    rem: Seq<u8>,
    index: nat,
    count: nat,
    model: ParsedTrackModel,
    rest: Seq<u8>,
)
    requires
        index < count,
        index < 65536,
        rem.len() >= 8,
        is_track_tag(rem),
        8 + be32(rem[4], rem[5], rem[6], rem[7]) <= rem.len(),
        spec_parse_track(index as u16, rem.subrange(8, 8 + be32(rem[4], rem[5], rem[6], rem[7])))
            == Ok::<ParsedTrackModel, MidiParseError>(model),
        rest == rem.subrange(8 + be32(rem[4], rem[5], rem[6], rem[7]), rem.len() as int),
    ensures
        prepend_tracks(models, spec_chunks(rem, index, count)) == prepend_tracks(
            models.push(model),
            spec_chunks(rest, index + 1, count),
        ),
{
    match spec_chunks(rest, index + 1, count) {
        Ok(tail) => {
            assert(models + (seq![model] + tail) =~= models.push(model) + tail);
        },
        Err(_) => {},
    }
}

pub open spec fn prepend_tracks(
    prefix: Seq<ParsedTrackModel>,
    r: Result<Seq<ParsedTrackModel>, MidiParseError>,
) -> Result<Seq<ParsedTrackModel>, MidiParseError> {
    match r {
        Ok(rest) => Ok(prefix + rest),
        Err(e) => Err(e),
    }
}

/// Reads a standard MIDI file: every track's notes, tempo and meter, assembled for the
/// piano roll.
pub fn parse_midi_roll_bytes(bytes: &[u8]) -> (r: Result<MidiRollData, MidiParseError>)
    ensures
        match spec_parse_midi(bytes@) {
            Err(e) => r == Err::<MidiRollData, MidiParseError>(e),
            Ok(m) => r is Ok && r->Ok_0.matches(m),
        },
{
    let mut reader = ByteReader::new(bytes);
    let (track_count, ppq) = match read_header(&mut reader) {
        Ok(h) => h,
        Err(e) => return Err(e),
    };
    let ghost after_header = reader.remaining();
    let ghost count = track_count as nat;
    let mut notes: Vec<MidiNote> = Vec::new();
    let mut parsed_tracks: Vec<ParsedMidiTrack> = Vec::new();
    let mut tempo_changes: Vec<TempoChange> = Vec::new();
    let mut time_signatures: Vec<TimeSignatureChange> = Vec::new();
    let mut total_ticks: u64 = 0;
    let ghost mut models: Seq<ParsedTrackModel> = Seq::empty();
    let mut track_index: u16 = 0;
    while track_index < track_count
        invariant
            reader.wf(),
            reader.bytes == bytes,
            track_index <= track_count,
            count == track_count as nat,
            spec_parse_midi(bytes@) == match spec_chunks(after_header, 0, count) {
                Err(e) => Err(e),
                Ok(t) => Ok(spec_assemble(ppq, t)),
            },
            spec_chunks(after_header, 0, count) == prepend_tracks(
                models,
                spec_chunks(reader.remaining(), track_index as nat, count),
            ),
            models.len() == track_index,
            parsed_tracks@.len() == models.len(),
            forall|i: int|
                0 <= i < parsed_tracks@.len() ==> #[trigger] parsed_tracks@[i].matches(models[i]),
            notes@ == all_notes(models),
            tempo_changes@ == all_tempos(models),
            time_signatures@ == all_signatures(models),
            total_ticks == longest_track(models),
        decreases track_count - track_index,
    {
        let ghost rem = reader.remaining();
        let data = match read_track_chunk(&mut reader) {
            Ok(data) => data,
            Err(e) => {
                proof {
                    assert(spec_chunks(rem, track_index as nat, count) == Err::<
                        Seq<ParsedTrackModel>,
                        MidiParseError,
                    >(e));
                }
                return Err(e);
            },
        };
        let track = match parse_midi_track(track_index, data) {
            Ok(track) => track,
            Err(e) => {
                proof {
                    assert((track_index as nat) as u16 == track_index);
                    assert(spec_chunks(rem, track_index as nat, count) == Err::<
                        Seq<ParsedTrackModel>,
                        MidiParseError,
                    >(e));
                }
                return Err(e);
            },
        };
        let ghost model = spec_parse_track(track_index, data@)->Ok_0;
        proof {
            lemma_all_notes_push(models, model);
            lemma_chunks_step(models, rem, track_index as nat, count, model, reader.remaining());
        }
        if track.total_ticks > total_ticks {
            total_ticks = track.total_ticks;
        }
        let mut track_notes = track.notes.clone();
        let mut track_tempos = track.tempo_changes.clone();
        let mut track_signatures = track.time_signatures.clone();
        proof {
            assert(track_notes@ =~= track.notes@);
            assert(track_tempos@ =~= track.tempo_changes@);
            assert(track_signatures@ =~= track.time_signatures@);
        }
        notes.append(&mut track_notes);
        tempo_changes.append(&mut track_tempos);
        time_signatures.append(&mut track_signatures);
        parsed_tracks.push(track);
        proof {
            models = models.push(model);
        }
        track_index = track_index + 1;
    }
    proof {
        assert(models + Seq::<ParsedTrackModel>::empty() =~= models);
    }
    finish_roll(ppq, parsed_tracks, notes, tempo_changes, time_signatures, total_ticks, Ghost(models))
}

fn finish_roll(
    ppq: u16,
    parsed_tracks: Vec<ParsedMidiTrack>,
    notes: Vec<MidiNote>,
    tempo_changes: Vec<TempoChange>,
    time_signatures: Vec<TimeSignatureChange>,
    total_ticks: u64,
    models: Ghost<Seq<ParsedTrackModel>>,
) -> (r: Result<MidiRollData, MidiParseError>)
    requires
        parsed_tracks@.len() == models@.len(),
        forall|i: int| 0 <= i < parsed_tracks@.len() ==> #[trigger] parsed_tracks@[i].matches(models@[i]),
        notes@ == all_notes(models@),
        tempo_changes@ == all_tempos(models@),
        time_signatures@ == all_signatures(models@),
        total_ticks == longest_track(models@),
    ensures
        r is Ok && r->Ok_0.matches(spec_assemble(ppq, models@)),
{
    let mut notes = notes;
    let tracks = compact_tracks_and_notes(&parsed_tracks, &mut notes, models);
    let sorted = sort_notes_exec(&notes);
    let mut total = total_ticks;
    if sorted.len() > 0 {
        let last_end = sorted[sorted.len() - 1].end_tick;
        if last_end > total {
            total = last_end;
        }
    }
    let tempos = normalize_tempos(&tempo_changes);
    let signatures = normalize_time_signatures(&time_signatures);
    let bar_lines = build_bar_lines(total, ppq, &signatures);
    let (min_pitch, max_pitch) = note_pitch_range(&sorted);
    proof {
        let m = spec_assemble(ppq, models@);
        assert(tracks@.len() == m.track_labels.len());
        assert forall|i: int| 0 <= i < tracks@.len() implies (#[trigger] tracks@[i]).index == i
            && tracks@[i].label@ == m.track_labels[i] by {}
    }
    let data = MidiRollData {
        ppq,
        total_ticks: total,
        notes: sorted,
        tracks,
        time_signatures: signatures,
        tempo_changes: tempos,
        bar_lines,
        min_pitch,
        max_pitch,
    };
    Ok(data)
}

/// Whether `a` and `b` are equal ignoring ASCII case (`str::eq_ignore_ascii_case`).
pub open spec fn eq_ignore_ascii_case(a: Seq<char>, b: Seq<char>) -> bool {
    a.len() == b.len() && forall|i: int| 0 <= i < a.len() ==> ascii_lower(#[trigger] a[i]) == ascii_lower(b[i])
}

/// `c` with ASCII upper-case letters mapped to lower case.
pub open spec fn ascii_lower(c: char) -> char {
    if 'A' <= c <= 'Z' {
        ((c as u32) + 32) as char
    } else {
        c
    }
}

fn lower_char(c: char) -> (r: char)
    ensures
        r == ascii_lower(c),
{
    if 'A' <= c && c <= 'Z' {
        ((c as u8) + 32) as char
    } else {
        c
    }
}

/// Whether two strings are equal ignoring ASCII case.
pub fn str_eq_ignore_ascii_case(a: &str, b: &str) -> (r: bool)
    ensures
        r == eq_ignore_ascii_case(a@, b@),
{
    let ca = chars_of(a);
    let cb = chars_of(b);
    if ca.len() != cb.len() {
        return false;
    }
    let mut i: usize = 0;
    while i < ca.len()
        invariant
            ca@ == a@,
            cb@ == b@,
            ca@.len() == cb@.len(),
            i <= ca@.len(),
            forall|j: int| 0 <= j < i ==> ascii_lower(#[trigger] ca@[j]) == ascii_lower(cb@[j]),
        decreases ca.len() - i,
    {
        if lower_char(ca[i]) != lower_char(cb[i]) {
            return false;
        }
        i = i + 1;
    }
    true
}

/// A path names a MIDI file: its extension is `mid` or `midi`, in any case.
pub open spec fn spec_is_midi_file(path: Seq<char>) -> bool {
    match spec_path_extension(path) {
        Some(ext) => eq_ignore_ascii_case(ext, seq!['m', 'i', 'd']) || eq_ignore_ascii_case(
            ext,
            seq!['m', 'i', 'd', 'i'],
        ),
        None => false,
    }
}

/// Whether the path names a MIDI file.
pub fn is_midi_file(path: &str) -> (r: bool)
    ensures
        r == spec_is_midi_file(path@),
{
    match path_extension(path) {
        Some(ext) => {
            let mid = owned("mid");
            let midi = owned("midi");
            proof {
                reveal_strlit("mid");
                reveal_strlit("midi");
                assert(mid@ =~= seq!['m', 'i', 'd']);
                assert(midi@ =~= seq!['m', 'i', 'd', 'i']);
            }
            str_eq_ignore_ascii_case(ext.as_str(), mid.as_str()) || str_eq_ignore_ascii_case(
                ext.as_str(),
                midi.as_str(),
            )
        },
        None => false,
    }
}

/// The page or part number of a MIDI file of the score: 1 for `stem` itself, `n` for
/// `stem-n`, nothing otherwise.
pub open spec fn spec_midi_file_index(file_stem: Seq<char>, score_stem: Seq<char>) -> Option<u32> {
    if file_stem == score_stem {
        Some(1)
    } else if has_prefix(file_stem, score_stem.push('-')) {
        spec_parse_u32(file_stem.subrange((score_stem.len() + 1) as int, file_stem.len() as int))
    } else {
        None
    }
}

/// Sort position of a MIDI file of the score (see `spec_midi_file_index`).
pub fn midi_file_index(file_stem: &str, score_stem: &str) -> (r: Option<u32>)
    ensures
        r == spec_midi_file_index(file_stem@, score_stem@),
{
    let file = chars_of(file_stem);
    let score = chars_of(score_stem);
    if chars_equal(file.as_slice(), score.as_slice()) {
        return Some(1);
    }
    let mut prefix = score.clone();
    prefix.push('-');
    proof {
        assert(prefix@ =~= score@.push('-'));
    }
    if !starts_with_chars(file.as_slice(), prefix.as_slice()) {
        return None;
    }
    let suffix = crate::text::chars_from(file.as_slice(), prefix.len());
    parse_u32_chars(suffix.as_slice())
}

/// A MIDI file belongs to the score: its stem is the score's or `stem-…`.
pub open spec fn spec_is_score_midi_stem(file_stem: Seq<char>, score_stem: Seq<char>) -> bool {
    file_stem == score_stem || has_prefix(file_stem, score_stem.push('-'))
}

/// Whether a file stem belongs to the score's MIDI output.
pub fn is_score_midi_stem(file_stem: &str, score_stem: &str) -> (r: bool)
    ensures
        r == spec_is_score_midi_stem(file_stem@, score_stem@),
{
    let file = chars_of(file_stem);
    let score = chars_of(score_stem);
    if chars_equal(file.as_slice(), score.as_slice()) {
        return true;
    }
    let mut prefix = score.clone();
    prefix.push('-');
    proof {
        assert(prefix@ =~= score@.push('-'));
    }
    starts_with_chars(file.as_slice(), prefix.as_slice())
}

/// The stem of `path` when it names a MIDI file of the score.
pub open spec fn spec_matching_midi_file_stem(path: Seq<char>, score_stem: Seq<char>) -> Option<
    Seq<char>,
> {
    match spec_path_file_stem(path) {
        Some(stem) => if spec_is_midi_file(path) && spec_is_score_midi_stem(stem, score_stem) {
            Some(stem)
        } else {
            None
        },
        None => None,
    }
}

/// The file stem of `path`, when it names one of the score's MIDI files.
pub fn matching_midi_file_stem(path: &str, score_stem: &str) -> (r: Option<String>)
    ensures
        track::opt_string_view(r) == spec_matching_midi_file_stem(path@, score_stem@),
{
    let stem = match path_file_stem(path) {
        Some(stem) => stem,
        None => return None,
    };
    if is_midi_file(path) && is_score_midi_stem(stem.as_str(), score_stem) {
        Some(stem)
    } else {
        None
    }
}

/// The order in which a MIDI file of the score is listed: its index, or last when it has none.
pub fn midi_roll_sort_index(file_stem: &str, score_stem: &str) -> (r: u32)
    ensures
        r == match spec_midi_file_index(file_stem@, score_stem@) {
            Some(i) => i,
            None => u32::MAX,
        },
{
    match midi_file_index(file_stem, score_stem) {
        Some(i) => i,
        None => u32::MAX,
    }
}

} // verus!
