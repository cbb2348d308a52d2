//! Ear-training exercise engine: notes and their keyboard mapping, volume
//! envelopes, the exercise session state machine, decoded voice answers and
//! the session slot.

pub mod envelope;
pub mod manager;
pub mod notes;
pub mod session;
pub mod tuning;
pub mod voice;

pub use envelope::{calculate_volume_info, Gain, VolumeInfo, VolumeTimings};
pub use manager::Manager;
pub use notes::{get_all_notes, relative_note_to_absolute, Note};
pub use voice::{init_wav_files_from_bytes, load_wav_files, DecodeError, VoiceStore, WavFile};
pub use tuning::{ExerciseCommand, Tuning};
pub use session::{ConfigError, Exercise, ExerciseGenerator};
