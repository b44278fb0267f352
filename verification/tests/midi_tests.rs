use lilypalooza::midi::track::{EventDataKind, MidiParseError, TempoChange, TimeSignatureChange};
use lilypalooza::midi::{
    is_midi_file, is_score_midi_stem, matching_midi_file_stem, midi_file_index,
    parse_midi_roll_bytes,
};

fn header(track_count: u16, ppq: u16) -> Vec<u8> {
    let mut bytes = b"MThd".to_vec();
    bytes.extend_from_slice(&6u32.to_be_bytes());
    bytes.extend_from_slice(&1u16.to_be_bytes());
    bytes.extend_from_slice(&track_count.to_be_bytes());
    bytes.extend_from_slice(&ppq.to_be_bytes());
    bytes
}

fn track(events: &[u8]) -> Vec<u8> {
    let mut bytes = b"MTrk".to_vec();
    bytes.extend_from_slice(&(events.len() as u32).to_be_bytes());
    bytes.extend_from_slice(events);
    bytes
}

fn meta_text(kind: u8, text: &[u8]) -> Vec<u8> {
    let mut event = vec![0x00, 0xFF, kind, text.len() as u8];
    event.extend_from_slice(text);
    event
}

#[test]
fn midi_index_matches_primary_and_suffix() {
    assert_eq!(midi_file_index("score", "score"), Some(1));
    assert_eq!(midi_file_index("score-2", "score"), Some(2));
}

#[test]
fn midi_index_ignores_non_matching_stem() {
    assert_eq!(midi_file_index("other", "score"), None);
    assert_eq!(midi_file_index("score-final", "score"), None);
}

#[test]
fn parse_midi_roll_compacts_non_musical_tracks() {
    let mut tempo_track = meta_text(0x03, b"Tempo");
    tempo_track.extend_from_slice(&[0x00, 0xFF, 0x51, 0x03, 0x07, 0xA1, 0x20]);
    tempo_track.extend_from_slice(&[0x00, 0xFF, 0x2F, 0x00]);
    let mut note_track = meta_text(0x03, b"Violin");
    note_track.extend_from_slice(&[0x00, 0x90, 60, 100]);
    note_track.extend_from_slice(&[0x83, 0x60, 0x80, 60, 0]);
    note_track.extend_from_slice(&[0x00, 0xFF, 0x2F, 0x00]);
    let mut bytes = header(2, 480);
    bytes.extend(track(&tempo_track));
    bytes.extend(track(&note_track));

    let data = parse_midi_roll_bytes(&bytes).expect("midi should parse");

    assert_eq!(data.tracks.len(), 1);
    assert_eq!(data.tracks[0].index, 0);
    assert_eq!(data.tracks[0].label, "Violin");
    assert_eq!(data.notes.len(), 1);
    assert_eq!(data.notes[0].track_index, 0);
}

#[test]
fn parse_midi_roll_reads_notes_tempo_and_meter() {
    let mut events = vec![0x00, 0xFF, 0x58, 0x04, 3, 2, 24, 8];
    events.extend_from_slice(&[0x00, 0x90, 64, 90]);
    events.extend_from_slice(&[0x00, 62, 80]);
    events.extend_from_slice(&[0x60, 0x80, 64, 0]);
    events.extend_from_slice(&[0x00, 0x90, 62, 0]);
    events.extend_from_slice(&[0x00, 0xFF, 0x2F, 0x00]);
    let mut bytes = header(1, 96);
    bytes.extend(track(&events));

    let data = parse_midi_roll_bytes(&bytes).expect("midi should parse");

    assert_eq!(data.ppq, 96);
    assert_eq!(data.total_ticks, 96);
    assert_eq!(data.notes.len(), 2);
    assert_eq!(data.notes[0].pitch, 62);
    assert_eq!(data.notes[1].pitch, 64);
    assert_eq!(data.notes[0].end_tick, 96);
    assert_eq!(data.tracks[0].label, "Track 1");
    assert_eq!(
        data.tempo_changes,
        vec![TempoChange {
            tick: 0,
            micros_per_quarter: 500_000
        }]
    );
    assert_eq!(
        data.time_signatures,
        vec![TimeSignatureChange {
            tick: 0,
            numerator: 3,
            denominator: 4
        }]
    );
    assert_eq!(data.bar_lines, vec![0]);
    assert_eq!((data.min_pitch, data.max_pitch), (21, 108));
}

#[test]
fn parse_midi_roll_closes_hanging_notes_and_lays_bars() {
    let mut events = vec![0x00, 0x90, 10, 1];
    events.extend_from_slice(&[0x83, 0x60, 0x90, 120, 1]);
    events.extend_from_slice(&[0x8F, 0x00, 0xFF, 0x2F, 0x00]);
    let mut bytes = header(1, 480);
    bytes.extend(track(&events));

    let data = parse_midi_roll_bytes(&bytes).expect("midi should parse");

    assert_eq!(data.total_ticks, 480 + 1920);
    assert_eq!(data.notes.len(), 2);
    assert!(data.notes.iter().all(|note| note.end_tick == 2400));
    assert_eq!(data.bar_lines, vec![0, 1920]);
    assert_eq!((data.min_pitch, data.max_pitch), (10, 120));
}

#[test]
fn parse_midi_roll_reports_malformed_files() {
    assert_eq!(
        parse_midi_roll_bytes(b"MTh").err(),
        Some(MidiParseError::MissingHeader)
    );
    assert_eq!(
        parse_midi_roll_bytes(b"RIFF0000").err(),
        Some(MidiParseError::InvalidHeaderChunk)
    );
    let mut smpte = b"MThd".to_vec();
    smpte.extend_from_slice(&6u32.to_be_bytes());
    smpte.extend_from_slice(&[0, 1, 0, 1, 0xE7, 0x28]);
    assert_eq!(
        parse_midi_roll_bytes(&smpte).err(),
        Some(MidiParseError::SmpteTiming)
    );
    let mut running = header(1, 96);
    running.extend(track(&[0x00, 0x40, 0x40]));
    assert_eq!(
        parse_midi_roll_bytes(&running).err(),
        Some(MidiParseError::RunningStatusBeforeStatus)
    );
    let mut missing_track = header(2, 96);
    missing_track.extend(track(&[0x00, 0xFF, 0x2F, 0x00]));
    assert_eq!(
        parse_midi_roll_bytes(&missing_track).err(),
        Some(MidiParseError::TruncatedTrackHeader)
    );
}

#[test]
fn midi_file_names_are_matched_to_the_score() {
    assert!(is_midi_file("/build/score.MID"));
    assert!(is_midi_file("score.midi"));
    assert!(!is_midi_file("score.svg"));
    assert!(is_score_midi_stem("score-3", "score"));
    assert!(!is_score_midi_stem("scores", "score"));
    assert_eq!(
        matching_midi_file_stem("/build/score-2.midi", "score").as_deref(),
        Some("score-2")
    );
    assert_eq!(matching_midi_file_stem("/build/other.midi", "score"), None);
    assert_eq!(midi_file_index("score-+7", "score"), Some(7));
    assert_eq!(midi_file_index("score-4294967296", "score"), None);
}

#[test]
fn parse_errors_name_the_file_and_the_fault() {
    assert_eq!(
        MidiParseError::MissingHeader.message("/b/score.midi"),
        "MIDI file /b/score.midi is missing MThd header"
    );
    assert_eq!(
        MidiParseError::InvalidHeaderLength(4).message("x.midi"),
        "MIDI file x.midi has invalid header length 4"
    );
    assert_eq!(
        MidiParseError::TruncatedEventData(EventDataKind::Sysex).message("x.midi"),
        "MIDI file x.midi has truncated sysex event data"
    );
    assert_eq!(
        MidiParseError::InvalidEventLength(EventDataKind::Meta).message("x.midi"),
        "MIDI file x.midi has invalid meta event length"
    );
}

#[test]
fn parsed_notes_and_maps_come_out_in_tick_order() {
    let mut first = vec![0x00, 0x90, 67, 100];
    first.extend_from_slice(&[0x83, 0x60, 0x80, 67, 0]);
    first.extend_from_slice(&[0x00, 0xFF, 0x58, 0x04, 3, 2, 24, 8]);
    first.extend_from_slice(&[0x87, 0x40, 0xFF, 0x51, 0x03, 0x07, 0xA1, 0x20]);
    first.extend_from_slice(&[0x00, 0xFF, 0x2F, 0x00]);
    let mut second = vec![0x00, 0x90, 55, 90];
    second.extend_from_slice(&[0x81, 0x70, 0x90, 60, 90]);
    second.extend_from_slice(&[0x83, 0x60, 0x80, 55, 0]);
    second.extend_from_slice(&[0x00, 0x80, 60, 0]);
    second.extend_from_slice(&[0x00, 0xFF, 0x2F, 0x00]);
    let mut bytes = header(2, 480);
    bytes.extend(track(&first));
    bytes.extend(track(&second));

    let data = parse_midi_roll_bytes(&bytes).expect("midi should parse");

    let keys: Vec<(u64, u8, usize)> = data
        .notes
        .iter()
        .map(|note| (note.start_tick, note.pitch, note.track_index))
        .collect();
    assert_eq!(keys, vec![(0, 55, 1), (0, 67, 0), (240, 60, 1)]);
    assert!(keys.windows(2).all(|pair| pair[0] <= pair[1]));

    let tempo_ticks: Vec<u64> = data.tempo_changes.iter().map(|change| change.tick).collect();
    assert_eq!(tempo_ticks, vec![0, 1440]);
    let meter_ticks: Vec<u64> = data.time_signatures.iter().map(|change| change.tick).collect();
    assert_eq!(meter_ticks, vec![0, 480]);
    assert_eq!(data.bar_lines.first(), Some(&0));
    assert!(data.bar_lines.windows(2).all(|pair| pair[0] < pair[1]));
}

#[test]
fn track_labels_are_found_by_track_index() {
    let mut note_track = meta_text(0x03, b"Violin");
    note_track.extend_from_slice(&[0x00, 0x90, 60, 100]);
    note_track.extend_from_slice(&[0x83, 0x60, 0x80, 60, 0]);
    note_track.extend_from_slice(&[0x00, 0xFF, 0x2F, 0x00]);
    let mut bytes = header(1, 480);
    bytes.extend(track(&note_track));

    let data = parse_midi_roll_bytes(&bytes).expect("midi should parse");
    assert_eq!(data.track_label(0), Some("Violin"));
    assert_eq!(data.track_label(1), None);
}
