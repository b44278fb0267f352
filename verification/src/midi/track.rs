use vstd::prelude::*;

use super::reader::{ByteReader, lemma_spec_vlq_bounds, spec_vlq};
use crate::text::{concat_strs, decimal_digits, decimal_string, owned, spec_trim, spec_utf8_lossy, trim_str, utf8_lossy};

verus! {

/// A sounding note of the piano roll.
#[derive(Debug, Clone, Copy, PartialEq, Eq)]
pub struct MidiNote {
    pub start_tick: u64,
    pub end_tick: u64,
    pub pitch: u8,
    pub track_index: usize,
}

/// A tempo change (microseconds per quarter note) at a tick.
#[derive(Debug, Clone, Copy, PartialEq, Eq)]
pub struct TempoChange {
    pub tick: u64,
    pub micros_per_quarter: u32,
}

/// A time-signature change at a tick.
#[derive(Debug, Clone, Copy, PartialEq, Eq)]
pub struct TimeSignatureChange {
    pub tick: u64,
    pub numerator: u8,
    pub denominator: u8,
}

/// A note that has been switched on and not yet off.
#[derive(Debug, Clone, Copy, PartialEq, Eq)]
pub struct ActiveNote {
    pub channel: u8,
    pub pitch: u8,
    pub start_tick: u64,
    pub track_index: usize,
}

/// The kind of length-prefixed event whose data was malformed.
#[derive(Debug, Clone, Copy, PartialEq, Eq)]
pub enum EventDataKind {
    Meta,
    Sysex,
}

/// Why a MIDI file could not be read.
#[derive(Debug, Clone, Copy, PartialEq, Eq)]
pub enum MidiParseError {
    MissingHeader,
    InvalidHeaderChunk,
    TruncatedHeader,
    InvalidHeaderLength(u32),
    MissingFormat,
    MissingTrackCount,
    MissingDivision,
    TruncatedExtendedHeader,
    SmpteTiming,
    TruncatedTrackHeader,
    InvalidTrackChunk,
    TruncatedTrackLength,
    TruncatedTrackData,
    InvalidDeltaTime,
    TruncatedEvent,
    RunningStatusBeforeStatus,
    TruncatedMetaEvent,
    InvalidEventLength(EventDataKind),
    TruncatedEventData(EventDataKind),
    TruncatedChannelEvent,
}

/// How the malformed event is named in messages.
pub open spec fn spec_event_kind_name(kind: EventDataKind) -> Seq<char> {
    match kind {
        EventDataKind::Meta => "meta event"@,
        EventDataKind::Sysex => "sysex event"@,
    }
}

/// What a message says of the file after its path.
pub open spec fn spec_midi_error_detail(error: MidiParseError) -> Seq<char> {
    match error {
        MidiParseError::MissingHeader => "is missing MThd header"@,
        MidiParseError::InvalidHeaderChunk => "has invalid header chunk"@,
        MidiParseError::TruncatedHeader => "has truncated header"@,
        MidiParseError::InvalidHeaderLength(n) => "has invalid header length "@ + decimal_digits(
            n as nat,
        ),
        MidiParseError::MissingFormat => "is missing format"@,
        MidiParseError::MissingTrackCount => "is missing track count"@,
        MidiParseError::MissingDivision => "is missing division"@,
        MidiParseError::TruncatedExtendedHeader => "has truncated extended header"@,
        MidiParseError::SmpteTiming => "uses SMPTE timing which is not supported"@,
        MidiParseError::TruncatedTrackHeader => "has truncated track header"@,
        MidiParseError::InvalidTrackChunk => "has invalid track chunk"@,
        MidiParseError::TruncatedTrackLength => "has truncated track length"@,
        MidiParseError::TruncatedTrackData => "has truncated track data"@,
        MidiParseError::InvalidDeltaTime => "has invalid delta time"@,
        MidiParseError::TruncatedEvent => "has truncated event"@,
        MidiParseError::RunningStatusBeforeStatus => "uses running status before status byte"@,
        MidiParseError::TruncatedMetaEvent => "has truncated meta event"@,
        MidiParseError::InvalidEventLength(kind) => "has invalid "@ + spec_event_kind_name(kind)
            + " length"@,
        MidiParseError::TruncatedEventData(kind) => "has truncated "@ + spec_event_kind_name(kind)
            + " data"@,
        MidiParseError::TruncatedChannelEvent => "has truncated channel event"@,
    }
}

fn event_kind_name(kind: EventDataKind) -> (r: &'static str)
    ensures
        r@ == spec_event_kind_name(kind),
{
    match kind {
        EventDataKind::Meta => "meta event",
        EventDataKind::Sysex => "sysex event",
    }
}

impl MidiParseError {
    fn detail(&self) -> (r: String)
        ensures
            r@ == spec_midi_error_detail(*self),
    {
        match self {
            MidiParseError::MissingHeader => owned("is missing MThd header"),
            MidiParseError::InvalidHeaderChunk => owned("has invalid header chunk"),
            MidiParseError::TruncatedHeader => owned("has truncated header"),
            MidiParseError::InvalidHeaderLength(n) => concat_strs(
                "has invalid header length ",
                decimal_string(*n as u64).as_str(),
            ),
            MidiParseError::MissingFormat => owned("is missing format"),
            MidiParseError::MissingTrackCount => owned("is missing track count"),
            MidiParseError::MissingDivision => owned("is missing division"),
            MidiParseError::TruncatedExtendedHeader => owned("has truncated extended header"),
            MidiParseError::SmpteTiming => owned("uses SMPTE timing which is not supported"),
            MidiParseError::TruncatedTrackHeader => owned("has truncated track header"),
            MidiParseError::InvalidTrackChunk => owned("has invalid track chunk"),
            MidiParseError::TruncatedTrackLength => owned("has truncated track length"),
            MidiParseError::TruncatedTrackData => owned("has truncated track data"),
            MidiParseError::InvalidDeltaTime => owned("has invalid delta time"),
            MidiParseError::TruncatedEvent => owned("has truncated event"),
            MidiParseError::RunningStatusBeforeStatus => owned("uses running status before status byte"),
            MidiParseError::TruncatedMetaEvent => owned("has truncated meta event"),
            MidiParseError::InvalidEventLength(kind) => {
                let head = concat_strs("has invalid ", event_kind_name(*kind));
                concat_strs(head.as_str(), " length")
            },
            MidiParseError::TruncatedEventData(kind) => {
                let head = concat_strs("has truncated ", event_kind_name(*kind));
                concat_strs(head.as_str(), " data")
            },
            MidiParseError::TruncatedChannelEvent => owned("has truncated channel event"),
        }
    }

    /// The message reported for the MIDI file at `path`: `MIDI file <path> <detail>`.
    pub fn message(&self, path: &str) -> (r: String)
        ensures
            r@ == "MIDI file "@ + path@ + " "@ + spec_midi_error_detail(*self),
    {
        let head = concat_strs("MIDI file ", path);
        let spaced = concat_strs(head.as_str(), " ");
        concat_strs(spaced.as_str(), self.detail().as_str())
    }
}

/// What is known of a track while its events are read.
pub struct TrackModel {
    pub absolute_tick: u64,
    pub running_status: Option<u8>,
    pub track_name: Option<Seq<char>>,
    pub instrument_name: Option<Seq<char>>,
    pub active: Seq<ActiveNote>,
    pub notes: Seq<MidiNote>,
    pub tempo_changes: Seq<TempoChange>,
    pub time_signatures: Seq<TimeSignatureChange>,
}

/// The events of one track once read to its end.
pub struct ParsedTrackModel {
    pub raw_index: usize,
    pub explicit_label: Option<Seq<char>>,
    pub notes: Seq<MidiNote>,
    pub tempo_changes: Seq<TempoChange>,
    pub time_signatures: Seq<TimeSignatureChange>,
    pub total_ticks: u64,
}

/// Outcome of reading one event.
pub enum StepModel {
    Failed(MidiParseError),
    Read { model: TrackModel, used: nat, end: bool },
}

pub open spec fn sat_add_u64(a: u64, b: int) -> u64 {
    if a + b > u64::MAX {
        u64::MAX
    } else {
        (a + b) as u64
    }
}

pub open spec fn max_u64(a: u64, b: u64) -> u64 {
    if a >= b {
        a
    } else {
        b
    }
}

/// The trimmed text of a meta event, when it is not empty.
pub open spec fn spec_meta_text(data: Seq<u8>) -> Option<Seq<char>> {
    let text = spec_trim(spec_utf8_lossy(data));
    if text.len() == 0 {
        None
    } else {
        Some(text)
    }
}

/// The tempo a three-byte tempo meta event sets.
pub open spec fn spec_meta_tempo(tick: u64, data: Seq<u8>) -> Option<TempoChange> {
    if data.len() == 3 {
        Some(
            TempoChange {
                tick,
                micros_per_quarter: (data[0] as int * 65536 + data[1] as int * 256
                    + data[2] as int) as u32,
            },
        )
    } else {
        None
    }
}

/// A tempo event's three bytes are the microseconds per quarter note, most significant
/// first: the tempo's high byte is the first, its middle byte the second, its low byte the
/// third (so `07 A1 20` is 500000, 120 beats a minute).
pub proof fn law_tempo_bytes_are_big_endian(tick: u64, data: Seq<u8>)
    requires
        data.len() == 3,
    ensures
        spec_meta_tempo(tick, data) matches Some(t) && t.tick == tick
            && t.micros_per_quarter / 65536 == data[0]
            && (t.micros_per_quarter / 256) % 256 == data[1]
            && t.micros_per_quarter % 256 == data[2],
{
    let b0: int = data[0] as int;
    let b1: int = data[1] as int;
    let b2: int = data[2] as int;
    let v: int = b0 * 65536 + b1 * 256 + b2;
    assert(0 <= v < 0x1000000) by (nonlinear_arith)
        requires
            v == b0 * 65536 + b1 * 256 + b2,
            0 <= b0 < 256,
            0 <= b1 < 256,
            0 <= b2 < 256,
    ;
    assert(v / 65536 == b0 && (v / 256) % 256 == b1 && v % 256 == b2) by (nonlinear_arith)
        requires
            v == b0 * 65536 + b1 * 256 + b2,
            0 <= b0 < 256,
            0 <= b1 < 256,
            0 <= b2 < 256,
    ;
}

/// `2` raised to `power` in eight-bit arithmetic that wraps (zero from the eighth power on).
pub open spec fn wrapping_pow2_u8(power: u8) -> u8 {
    if power < 8 {
        (1u8 << power) as u8
    } else {
        0
    }
}

/// The time signature a meta event of at least two bytes sets: the numerator and the
/// power-of-two denominator, each at least one.
pub open spec fn spec_meta_time_signature(tick: u64, data: Seq<u8>) -> Option<TimeSignatureChange> {
    if data.len() >= 2 {
        Some(
            TimeSignatureChange {
                tick,
                numerator: if data[0] >= 1 {
                    data[0]
                } else {
                    1
                },
                denominator: if wrapping_pow2_u8(data[1]) >= 1 {
                    wrapping_pow2_u8(data[1])
                } else {
                    1
                },
            },
        )
    } else {
        None
    }
}

/// A time-signature event gives the beats of a bar in its first byte (zero counts as one) and
/// the beat's note value as a power of two in its second: the denominator is two raised to
/// that power, so `06 03` is 6/8.
pub proof fn law_time_signature_denominator_is_a_power_of_two(tick: u64, data: Seq<u8>)
    requires
        data.len() >= 2,
        data[1] < 8,
    ensures
        spec_meta_time_signature(tick, data) matches Some(s) && s.tick == tick && s.denominator as nat
            == vstd::arithmetic::power2::pow2(data[1] as nat) && (data[0] >= 1 ==> s.numerator
            == data[0]) && (data[0] == 0 ==> s.numerator == 1),
{
    vstd::bits::lemma_u8_pow2_no_overflow(data[1] as nat);
    vstd::bits::lemma_u8_shl_is_mul(1u8, data[1]);
}

pub open spec fn opt_seq<T>(o: Option<T>) -> Seq<T> {
    match o {
        Some(x) => seq![x],
        None => Seq::empty(),
    }
}

/// A meta event of the given type and data applied to the track; `true` ends the track.
pub open spec fn spec_apply_meta(m: TrackModel, meta_type: u8, data: Seq<u8>) -> (TrackModel, bool) {
    if meta_type == 0x2F {
        (m, true)
    } else if meta_type == 0x03 {
        (TrackModel { track_name: spec_meta_text(data), ..m }, false)
    } else if meta_type == 0x04 {
        (
            TrackModel {
                instrument_name: if m.instrument_name is None {
                    spec_meta_text(data)
                } else {
                    m.instrument_name
                },
                ..m
            },
            false,
        )
    } else if meta_type == 0x51 {
        (
            TrackModel {
                tempo_changes: m.tempo_changes + opt_seq(spec_meta_tempo(m.absolute_tick, data)),
                ..m
            },
            false,
        )
    } else if meta_type == 0x58 {
        (
            TrackModel {
                time_signatures: m.time_signatures + opt_seq(
                    spec_meta_time_signature(m.absolute_tick, data),
                ),
                ..m
            },
            false,
        )
    } else {
        (m, false)
    }
}

/// Index of the most recently started note on `channel` and `pitch` that is still on.
pub open spec fn last_active_index(active: Seq<ActiveNote>, channel: u8, pitch: u8) -> Option<int>
    decreases active.len(),
{
    if active.len() == 0 {
        None
    } else if active.last().channel == channel && active.last().pitch == pitch {
        Some(active.len() - 1)
    } else {
        last_active_index(active.drop_last(), channel, pitch)
    }
}

/// The note an active note becomes when it ends at `end_tick` (it lasts at least one tick).
pub open spec fn closed_note(active: ActiveNote, end_tick: u64) -> MidiNote {
    MidiNote {
        start_tick: active.start_tick,
        end_tick: max_u64(end_tick, sat_add_u64(active.start_tick, 1)),
        pitch: active.pitch,
        track_index: active.track_index,
    }
}

/// A note-on for `pitch` on `channel` at the current tick.
pub open spec fn spec_start_note(m: TrackModel, channel: u8, pitch: u8, track_index: u16) -> TrackModel {
    TrackModel {
        active: m.active.push(
            ActiveNote {
                channel,
                pitch,
                start_tick: m.absolute_tick,
                track_index: track_index as usize,
            },
        ),
        ..m
    }
}

/// A note-off for `pitch` on `channel`: the latest matching note ends now.
pub open spec fn spec_finish_note(m: TrackModel, channel: u8, pitch: u8) -> TrackModel {
    match last_active_index(m.active, channel, pitch) {
        Some(i) => TrackModel {
            active: m.active.remove(i),
            notes: m.notes.push(closed_note(m.active[i], m.absolute_tick)),
            ..m
        },
        None => m,
    }
}

/// A channel event applied to the track: note-on starts a note, note-off (or note-on
/// with velocity zero) ends one, anything else changes nothing.
pub open spec fn spec_apply_channel(
    m: TrackModel,
    status: u8,
    data1: u8,
    data2: Option<u8>,
    track_index: u16,
) -> TrackModel {
    let event_type = status & 0xF0u8;
    let channel = status & 0x0Fu8;
    if event_type == 0x80 {
        spec_finish_note(m, channel, data1)
    } else if event_type == 0x90 && data2 == Some(0u8) {
        spec_finish_note(m, channel, data1)
    } else if event_type == 0x90 {
        spec_start_note(m, channel, data1, track_index)
    } else {
        m
    }
}

/// Number of data bytes of a channel message with this status.
pub open spec fn spec_channel_data_len(status: u8) -> nat {
    let t = status & 0xF0u8;
    if t == 0xC0 || t == 0xD0 {
        1
    } else {
        2
    }
}

/// The data of a length-prefixed event at the start of `rem`, and how many bytes it spans.
pub open spec fn spec_length_prefixed(rem: Seq<u8>, kind: EventDataKind) -> Result<
    (Seq<u8>, nat),
    MidiParseError,
> {
    match spec_vlq(rem) {
        None => Err(MidiParseError::InvalidEventLength(kind)),
        Some((len, n)) => if n + len > rem.len() {
            Err(MidiParseError::TruncatedEventData(kind))
        } else {
            Ok((rem.subrange(n as int, n + len), (n + len) as nat))
        },
    }
}

/// One event read from `rem` (which holds the rest of the track) and applied to `m`.
pub open spec fn spec_track_step(m: TrackModel, rem: Seq<u8>, track_index: u16) -> StepModel {
    match spec_vlq(rem) {
        None => StepModel::Failed(MidiParseError::InvalidDeltaTime),
        Some((delta, n)) => {
            let m1 = TrackModel { absolute_tick: sat_add_u64(m.absolute_tick, delta), ..m };
            let r1 = rem.subrange(n as int, rem.len() as int);
            if r1.len() == 0 {
                StepModel::Failed(MidiParseError::TruncatedEvent)
            } else if r1[0] < 0x80 && m1.running_status is None {
                StepModel::Failed(MidiParseError::RunningStatusBeforeStatus)
            } else {
                let status = if r1[0] < 0x80 {
                    m1.running_status->0
                } else {
                    r1[0]
                };
                let first = if r1[0] < 0x80 {
                    Some(r1[0])
                } else {
                    None
                };
                let m2 = if r1[0] < 0x80 {
                    m1
                } else {
                    TrackModel {
                        running_status: if r1[0] < 0xF0 {
                            Some(r1[0])
                        } else {
                            None
                        },
                        ..m1
                    }
                };
                let r2 = r1.subrange(1, r1.len() as int);
                let used2 = n + 1;
                if status == 0xFF {
                    if r2.len() == 0 {
                        StepModel::Failed(MidiParseError::TruncatedMetaEvent)
                    } else {
                        match spec_length_prefixed(
                            r2.subrange(1, r2.len() as int),
                            EventDataKind::Meta,
                        ) {
                            Err(e) => StepModel::Failed(e),
                            Ok((data, k)) => {
                                let applied = spec_apply_meta(m2, r2[0], data);
                                StepModel::Read {
                                    model: applied.0,
                                    used: used2 + 1 + k,
                                    end: applied.1,
                                }
                            },
                        }
                    }
                } else if status == 0xF0 || status == 0xF7 {
                    match spec_length_prefixed(r2, EventDataKind::Sysex) {
                        Err(e) => StepModel::Failed(e),
                        Ok((data, k)) => StepModel::Read { model: m2, used: used2 + k, end: false },
                    }
                } else {
                    let data_len = spec_channel_data_len(status);
                    let reads1 = first is None;
                    let k1: nat = if reads1 {
                        1
                    } else {
                        0
                    };
                    if reads1 && r2.len() == 0 {
                        StepModel::Failed(MidiParseError::TruncatedChannelEvent)
                    } else {
                        let data1 = if reads1 {
                            r2[0]
                        } else {
                            first->0
                        };
                        let r3 = r2.subrange(k1 as int, r2.len() as int);
                        if data_len == 2 && r3.len() == 0 {
                            StepModel::Failed(MidiParseError::TruncatedChannelEvent)
                        } else {
                            let data2 = if data_len == 2 {
                                Some(r3[0])
                            } else {
                                None
                            };
                            let k2: nat = if data_len == 2 {
                                1
                            } else {
                                0
                            };
                            StepModel::Read {
                                model: spec_apply_channel(m2, status, data1, data2, track_index),
                                used: used2 + k1 + k2,
                                end: false,
                            }
                        }
                    }
                }
            }
        },
    }
}

/// Notes still on at the end of the track close at its last tick.
pub open spec fn spec_close_remaining(m: TrackModel) -> TrackModel
    decreases m.active.len(),
{
    if m.active.len() == 0 {
        m
    } else {
        spec_close_remaining(
            TrackModel {
                active: m.active.drop_last(),
                notes: m.notes.push(closed_note(m.active.last(), m.absolute_tick)),
                ..m
            },
        )
    }
}

proof fn lemma_length_prefixed_consumes(rem: Seq<u8>, kind: EventDataKind)
    ensures
        spec_length_prefixed(rem, kind) matches Ok((data, k)) ==> 1 <= k <= rem.len(),
{
    lemma_spec_vlq_bounds(rem);
}

/// A successful step consumes at least one byte and no more than remain.
pub proof fn lemma_step_consumes(m: TrackModel, rem: Seq<u8>, track_index: u16)
    ensures
        spec_track_step(m, rem, track_index) matches StepModel::Read { used, .. } ==> 1 <= used
            <= rem.len(),
{
    lemma_spec_vlq_bounds(rem);
    if let Some((delta, n)) = spec_vlq(rem) {
        let r1 = rem.subrange(n as int, rem.len() as int);
        if r1.len() > 0 {
            let r2 = r1.subrange(1, r1.len() as int);
            if r2.len() > 0 {
                lemma_length_prefixed_consumes(r2.subrange(1, r2.len() as int), EventDataKind::Meta);
            }
            lemma_length_prefixed_consumes(r2, EventDataKind::Sysex);
        }
    }
}

/// The events of `rem` applied to `m` up to the end-of-track event or the end of the
/// data, then the notes still on closed.
pub open spec fn spec_run_track(m: TrackModel, rem: Seq<u8>, track_index: u16) -> Result<
    TrackModel,
    MidiParseError,
>
    decreases rem.len(),
{
    if rem.len() == 0 {
        Ok(spec_close_remaining(m))
    } else {
        match spec_track_step(m, rem, track_index) {
            StepModel::Failed(e) => Err(e),
            StepModel::Read { model, used, end } => {
                proof {
                    lemma_step_consumes(m, rem, track_index);
                }
                if end {
                    Ok(spec_close_remaining(model))
                } else {
                    spec_run_track(model, rem.subrange(used as int, rem.len() as int), track_index)
                }
            },
        }
    }
}

/// The label a track states for itself: its trimmed name, else its trimmed instrument name.
pub open spec fn spec_explicit_track_label(
    track_name: Option<Seq<char>>,
    instrument_name: Option<Seq<char>>,
) -> Option<Seq<char>> {
    if track_name is Some && spec_trim(track_name->0).len() > 0 {
        Some(spec_trim(track_name->0))
    } else if instrument_name is Some && spec_trim(instrument_name->0).len() > 0 {
        Some(spec_trim(instrument_name->0))
    } else {
        None
    }
}

pub open spec fn initial_track_model() -> TrackModel {
    TrackModel {
        absolute_tick: 0,
        running_status: None,
        track_name: None,
        instrument_name: None,
        active: Seq::empty(),
        notes: Seq::empty(),
        tempo_changes: Seq::empty(),
        time_signatures: Seq::empty(),
    }
}

/// The events of the track whose chunk data is `data`.
pub open spec fn spec_parse_track(track_index: u16, data: Seq<u8>) -> Result<
    ParsedTrackModel,
    MidiParseError,
> {
    match spec_run_track(initial_track_model(), data, track_index) {
        Err(e) => Err(e),
        Ok(m) => Ok(
            ParsedTrackModel {
                raw_index: track_index as usize,
                explicit_label: spec_explicit_track_label(m.track_name, m.instrument_name),
                notes: m.notes,
                tempo_changes: m.tempo_changes,
                time_signatures: m.time_signatures,
                total_ticks: m.absolute_tick,
            },
        ),
    }
}

pub open spec fn opt_string_view(o: Option<String>) -> Option<Seq<char>> {
    match o {
        Some(s) => Some(s@),
        None => None,
    }
}

/// The events of one track, with the label it states for itself.
pub struct ParsedMidiTrack {
    pub raw_index: usize,
    pub explicit_label: Option<String>,
    pub notes: Vec<MidiNote>,
    pub tempo_changes: Vec<TempoChange>,
    pub time_signatures: Vec<TimeSignatureChange>,
    pub total_ticks: u64,
}

impl ParsedMidiTrack {
    pub open spec fn matches(&self, p: ParsedTrackModel) -> bool {
        &&& self.raw_index == p.raw_index
        &&& opt_string_view(self.explicit_label) == p.explicit_label
        &&& self.notes@ == p.notes
        &&& self.tempo_changes@ == p.tempo_changes
        &&& self.time_signatures@ == p.time_signatures
        &&& self.total_ticks == p.total_ticks
    }
}

struct MidiTrackState {
    track_index: u16,
    absolute_tick: u64,
    running_status: Option<u8>,
    track_name: Option<String>,
    instrument_name: Option<String>,
    active_notes: Vec<ActiveNote>,
    notes: Vec<MidiNote>,
    tempo_changes: Vec<TempoChange>,
    time_signatures: Vec<TimeSignatureChange>,
}

impl MidiTrackState {
    spec fn model(&self) -> TrackModel {
        TrackModel {
            absolute_tick: self.absolute_tick,
            running_status: self.running_status,
            track_name: opt_string_view(self.track_name),
            instrument_name: opt_string_view(self.instrument_name),
            active: self.active_notes@,
            notes: self.notes@,
            tempo_changes: self.tempo_changes@,
            time_signatures: self.time_signatures@,
        }
    }

    fn new(track_index: u16) -> (s: Self)
        ensures
            s.model() == initial_track_model(),
            s.track_index == track_index,
    {
        MidiTrackState {
            track_index,
            absolute_tick: 0,
            running_status: None,
            track_name: None,
            instrument_name: None,
            active_notes: Vec::new(),
            notes: Vec::new(),
            tempo_changes: Vec::new(),
            time_signatures: Vec::new(),
        }
    }

    fn start_active_note(&mut self, channel: u8, pitch: u8)
        ensures
            final(self).model() == spec_start_note(
                old(self).model(),
                channel,
                pitch,
                old(self).track_index,
            ),
            final(self).track_index == old(self).track_index,
    {
        let note = ActiveNote {
            channel,
            pitch,
            start_tick: self.absolute_tick,
            track_index: self.track_index as usize,
        };
        self.active_notes.push(note);
    }

    fn finish_active_note(&mut self, channel: u8, pitch: u8)
        ensures
            final(self).model() == spec_finish_note(old(self).model(), channel, pitch),
            final(self).track_index == old(self).track_index,
    {
        let mut i = self.active_notes.len();
        proof {
            assert(self.active_notes@.subrange(0, i as int) =~= self.active_notes@);
        }
        while i > 0
            invariant
                i <= self.active_notes@.len(),
                *self == *old(self),
                last_active_index(self.active_notes@, channel, pitch) == last_active_index(
                    self.active_notes@.subrange(0, i as int),
                    channel,
                    pitch,
                ),
            decreases i,
        {
            let candidate = self.active_notes[i - 1];
            if candidate.channel == channel && candidate.pitch == pitch {
                proof {
                    let sub = self.active_notes@.subrange(0, i as int);
                    assert(sub.last() == candidate);
                }
                let active = self.active_notes.remove(i - 1);
                let end_tick = if self.absolute_tick >= active.start_tick.saturating_add(1) {
                    self.absolute_tick
                } else {
                    active.start_tick.saturating_add(1)
                };
                self.notes.push(
                    MidiNote {
                        start_tick: active.start_tick,
                        end_tick,
                        pitch,
                        track_index: active.track_index,
                    },
                );
                return;
            }
            proof {
                let sub = self.active_notes@.subrange(0, i as int);
                assert(sub.drop_last() =~= self.active_notes@.subrange(0, i - 1));
            }
            i = i - 1;
        }
        proof {
            assert(self.active_notes@.subrange(0, 0) =~= Seq::<ActiveNote>::empty());
        }
    }

    fn apply_meta_event(&mut self, meta_type: u8, data: &[u8]) -> (end: bool)
        ensures
            (final(self).model(), end) == spec_apply_meta(old(self).model(), meta_type, data@),
            final(self).track_index == old(self).track_index,
    {
        if meta_type == 0x2F {
            true
        } else if meta_type == 0x03 {
            self.track_name = non_empty_meta_text(data);
            false
        } else if meta_type == 0x04 {
            if self.instrument_name.is_none() {
                self.instrument_name = non_empty_meta_text(data);
            }
            false
        } else if meta_type == 0x51 {
            if let Some(tempo) = meta_tempo(self.absolute_tick, data) {
                self.tempo_changes.push(tempo);
            }
            proof {
                assert(self.tempo_changes@ =~= old(self).tempo_changes@ + opt_seq(
                    spec_meta_tempo(old(self).absolute_tick, data@),
                ));
            }
            false
        } else if meta_type == 0x58 {
            if let Some(signature) = meta_time_signature(self.absolute_tick, data) {
                self.time_signatures.push(signature);
            }
            proof {
                assert(self.time_signatures@ =~= old(self).time_signatures@ + opt_seq(
                    spec_meta_time_signature(old(self).absolute_tick, data@),
                ));
            }
            false
        } else {
            false
        }
    }

    fn apply_channel_event(&mut self, status: u8, data1: u8, data2: Option<u8>)
        ensures
            final(self).model() == spec_apply_channel(
                old(self).model(),
                status,
                data1,
                data2,
                old(self).track_index,
            ),
            final(self).track_index == old(self).track_index,
    {
        let event_type = status & 0xF0;
        let channel = status & 0x0F;
        if event_type == 0x80 {
            self.finish_active_note(channel, data1);
        } else if event_type == 0x90 && data2 == Some(0u8) {
            self.finish_active_note(channel, data1);
        } else if event_type == 0x90 {
            self.start_active_note(channel, data1);
        }
    }

    fn read_event(&mut self, reader: &mut ByteReader) -> (r: Result<bool, MidiParseError>)
        requires
            old(reader).wf(),
        ensures
            final(reader).wf(),
            final(reader).bytes == old(reader).bytes,
            final(self).track_index == old(self).track_index,
            match spec_track_step(old(self).model(), old(reader).remaining(), old(self).track_index) {
                StepModel::Failed(e) => r == Err::<bool, MidiParseError>(e),
                StepModel::Read { model, used, end } => r == Ok::<bool, MidiParseError>(end)
                    && final(self).model() == model && final(reader).remaining()
                    == old(reader).remaining().subrange(
                    used as int,
                    old(reader).remaining().len() as int,
                ),
            },
    {
        let ghost rem = reader.remaining();
        let ghost m0 = self.model();
        proof {
            lemma_spec_vlq_bounds(rem);
        }
        let delta = match reader.read_vlq() {
            Some(delta) => delta,
            None => return Err(MidiParseError::InvalidDeltaTime),
        };
        let ghost n = (reader.cursor - old(reader).cursor) as nat;
        self.absolute_tick = self.absolute_tick.saturating_add(delta as u64);
        let ghost r1 = reader.remaining();
        proof {
            assert(r1 == rem.subrange(n as int, rem.len() as int));
        }
        let status_or_data = match reader.read_u8() {
            Some(b) => b,
            None => return Err(MidiParseError::TruncatedEvent),
        };
        let mut first_data: Option<u8> = None;
        let status: u8;
        if status_or_data < 0x80 {
            match self.running_status {
                Some(running) => {
                    status = running;
                    first_data = Some(status_or_data);
                },
                None => return Err(MidiParseError::RunningStatusBeforeStatus),
            }
        } else {
            status = status_or_data;
            self.running_status = if status_or_data < 0xF0 {
                Some(status_or_data)
            } else {
                None
            };
        }
        let ghost r2 = reader.remaining();
        proof {
            assert(r2 =~= r1.subrange(1, r1.len() as int));
            assert(r2 =~= rem.subrange((n + 1) as int, rem.len() as int));
        }
        if status == 0xFF {
            let meta_type = match reader.read_u8() {
                Some(t) => t,
                None => return Err(MidiParseError::TruncatedMetaEvent),
            };
            let ghost r3 = reader.remaining();
            proof {
                assert(r3 =~= r2.subrange(1, r2.len() as int));
                assert(r3 =~= rem.subrange((n + 2) as int, rem.len() as int));
            }
            let data = match read_length_prefixed(reader, EventDataKind::Meta) {
                Ok(data) => data,
                Err(e) => return Err(e),
            };
            let end = self.apply_meta_event(meta_type, data);
            proof {
                let k = match spec_length_prefixed(r3, EventDataKind::Meta) {
                    Ok((d, k)) => k,
                    Err(_) => 0,
                };
                lemma_length_prefixed_consumes(r3, EventDataKind::Meta);
                assert(reader.remaining() =~= rem.subrange(
                    (n + 1 + 1 + k) as int,
                    rem.len() as int,
                ));
            }
            Ok(end)
        } else if status == 0xF0 || status == 0xF7 {
            match read_length_prefixed(reader, EventDataKind::Sysex) {
                Ok(_) => {},
                Err(e) => return Err(e),
            }
            proof {
                let k = match spec_length_prefixed(r2, EventDataKind::Sysex) {
                    Ok((d, k)) => k,
                    Err(_) => 0,
                };
                lemma_length_prefixed_consumes(r2, EventDataKind::Sysex);
                assert(reader.remaining() =~= rem.subrange((n + 1 + k) as int, rem.len() as int));
            }
            Ok(false)
        } else {
            let data_len: usize = if (status & 0xF0) == 0xC0 || (status & 0xF0) == 0xD0 {
                1
            } else {
                2
            };
            let data1 = match first_data {
                Some(d) => d,
                None => match reader.read_u8() {
                    Some(d) => d,
                    None => return Err(MidiParseError::TruncatedChannelEvent),
                },
            };
            let ghost r3 = reader.remaining();
            let data2 = if data_len == 2 {
                match reader.read_u8() {
                    Some(d) => Some(d),
                    None => return Err(MidiParseError::TruncatedChannelEvent),
                }
            } else {
                None
            };
            self.apply_channel_event(status, data1, data2);
            proof {
                let k1: nat = if first_data is None {
                    1
                } else {
                    0
                };
                assert(r3 =~= r2.subrange(k1 as int, r2.len() as int));
                let k2: nat = if data_len == 2 {
                    1
                } else {
                    0
                };
                assert(reader.remaining() =~= rem.subrange(
                    (n + 1 + k1 + k2) as int,
                    rem.len() as int,
                ));
            }
            Ok(false)
        }
    }

    fn close_remaining(&mut self)
        ensures
            final(self).model() == spec_close_remaining(old(self).model()),
            final(self).track_index == old(self).track_index,
    {
        while self.active_notes.len() > 0
            invariant
                spec_close_remaining(self.model()) == spec_close_remaining(old(self).model()),
                self.track_index == old(self).track_index,
            decreases self.active_notes@.len(),
        {
            let active = self.active_notes.pop().unwrap();
            let end_tick = if self.absolute_tick >= active.start_tick.saturating_add(1) {
                self.absolute_tick
            } else {
                active.start_tick.saturating_add(1)
            };
            self.notes.push(
                MidiNote {
                    start_tick: active.start_tick,
                    end_tick,
                    pitch: active.pitch,
                    track_index: active.track_index,
                },
            );
        }
    }
}

/// The data of a length-prefixed event, consumed from `reader`.
fn read_length_prefixed<'a>(reader: &mut ByteReader<'a>, kind: EventDataKind) -> (r: Result<
    &'a [u8],
    MidiParseError,
>)
    requires
        old(reader).wf(),
    ensures
        final(reader).wf(),
        final(reader).bytes == old(reader).bytes,
        match spec_length_prefixed(old(reader).remaining(), kind) {
            Err(e) => r == Err::<&'a [u8], MidiParseError>(e),
            Ok((data, k)) => r is Ok && r->Ok_0@ == data && final(reader).remaining() == old(
                reader,
            ).remaining().subrange(k as int, old(reader).remaining().len() as int),
        },
{
    let ghost rem = reader.remaining();
    proof {
        lemma_spec_vlq_bounds(rem);
    }
    let data_len = match reader.read_vlq() {
        Some(len) => len,
        None => return Err(MidiParseError::InvalidEventLength(kind)),
    };
    let ghost r1 = reader.remaining();
    match reader.read_exact(data_len as usize) {
        Some(data) => {
            proof {
                let n = spec_vlq(rem).unwrap().1;
                assert(data@ =~= rem.subrange(n as int, n + data_len));
                assert(reader.remaining() =~= rem.subrange(n + data_len, rem.len() as int));
            }
            Ok(data)
        },
        None => Err(MidiParseError::TruncatedEventData(kind)),
    }
}

/// Trimmed text of a meta event, when it is not empty.
fn non_empty_meta_text(data: &[u8]) -> (r: Option<String>)
    ensures
        opt_string_view(r) == spec_meta_text(data@),
{
    let decoded = utf8_lossy(data);
    let text = trim_str(decoded.as_str());
    if text.as_str().unicode_len() == 0 {
        None
    } else {
        Some(text)
    }
}

/// The tempo a tempo meta event carries, when its data is three bytes long.
fn meta_tempo(tick: u64, data: &[u8]) -> (r: Option<TempoChange>)
    ensures
        r == spec_meta_tempo(tick, data@),
{
    if data.len() != 3 {
        return None;
    }
    let hi = data[0] as u32;
    let mid = data[1] as u32;
    let lo = data[2] as u32;
    Some(TempoChange { tick, micros_per_quarter: hi * 65536 + mid * 256 + lo })
}

/// The time signature a time-signature meta event carries.
fn meta_time_signature(tick: u64, data: &[u8]) -> (r: Option<TimeSignatureChange>)
    ensures
        r == spec_meta_time_signature(tick, data@),
{
    if data.len() < 2 {
        return None;
    }
    let numerator = data[0];
    let power = data[1];
    let pow: u8 = if power < 8 {
        1u8 << power
    } else {
        0
    };
    Some(
        TimeSignatureChange {
            tick,
            numerator: if numerator >= 1 {
                numerator
            } else {
                1
            },
            denominator: if pow >= 1 {
                pow
            } else {
                1
            },
        },
    )
}

/// The label a track states for itself: its trimmed name, else its trimmed instrument name.
pub fn explicit_track_label(track_name: &Option<String>, instrument_name: &Option<String>) -> (r:
    Option<String>)
    ensures
        opt_string_view(r) == spec_explicit_track_label(
            opt_string_view(*track_name),
            opt_string_view(*instrument_name),
        ),
{
    if let Some(name) = track_name {
        let trimmed = trim_str(name.as_str());
        if trimmed.as_str().unicode_len() > 0 {
            return Some(trimmed);
        }
    }
    if let Some(name) = instrument_name {
        let trimmed = trim_str(name.as_str());
        if trimmed.as_str().unicode_len() > 0 {
            return Some(trimmed);
        }
    }
    None
}

/// Reads every event of one track chunk.
pub fn parse_midi_track(track_index: u16, track_bytes: &[u8]) -> (r: Result<
    ParsedMidiTrack,
    MidiParseError,
>)
    ensures
        match spec_parse_track(track_index, track_bytes@) {
            Err(e) => r == Err::<ParsedMidiTrack, MidiParseError>(e),
            Ok(p) => r is Ok && r->Ok_0.matches(p),
        },
{
    let mut reader = ByteReader::new(track_bytes);
    let mut state = MidiTrackState::new(track_index);
    while !reader.is_eof()
        invariant
            reader.wf(),
            reader.bytes == track_bytes,
            state.track_index == track_index,
            spec_run_track(initial_track_model(), track_bytes@, track_index) == spec_run_track(
                state.model(),
                reader.remaining(),
                track_index,
            ),
        decreases reader.remaining().len(),
    {
        let ghost rem = reader.remaining();
        let ghost m = state.model();
        proof {
            lemma_step_consumes(m, rem, track_index);
        }
        match state.read_event(&mut reader) {
            Err(e) => return Err(e),
            Ok(end) => {
                if end {
                    state.close_remaining();
                    return Ok(finish_parsed_track(state));
                }
            },
        }
    }
    state.close_remaining();
    Ok(finish_parsed_track(state))
}

fn finish_parsed_track(state: MidiTrackState) -> (p: ParsedMidiTrack)
    ensures
        p.raw_index == state.track_index as usize,
        opt_string_view(p.explicit_label) == spec_explicit_track_label(
            state.model().track_name,
            state.model().instrument_name,
        ),
        p.notes@ == state.notes@,
        p.tempo_changes@ == state.tempo_changes@,
        p.time_signatures@ == state.time_signatures@,
        p.total_ticks == state.absolute_tick,
{
    let explicit_label = explicit_track_label(&state.track_name, &state.instrument_name);
    ParsedMidiTrack {
        raw_index: state.track_index as usize,
        explicit_label,
        notes: state.notes,
        tempo_changes: state.tempo_changes,
        time_signatures: state.time_signatures,
        total_ticks: state.absolute_tick,
    }
}

} // verus!
