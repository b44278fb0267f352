//! Verified core of the Lilypalooza score workstation: LilyPond version checks,
//! MIDI piano-roll parsing, and the decision logic behind the editor, file browser,
//! mixer, prompts and workspace panes.

pub mod text;

pub mod midi;
pub mod paths;
pub mod lilypond;
pub mod browser;
pub mod compile;
pub mod disk_state;
pub mod editor_tabs;
pub mod keys;
pub mod layout;
pub mod prompts;
pub mod project;
pub mod rename;
pub mod shortcuts;
pub mod mixer;
pub mod dock;
pub mod workspace;
pub mod startup;
pub mod svg;
pub mod routing;
pub mod viewers;
pub mod watch;
pub mod logger;
pub mod track_rename;
