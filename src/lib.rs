//! A soundboard driven by a barcode-scanner-style input device: digits typed
//! by the device and closed by Enter form a code, and the code selects a
//! sound file to be played.
//!
//! The library holds the decisions: which key events count, how the code is
//! accumulated, how a code is resolved against the catalog, and what is done
//! with the resolved file. Opening the device, probing the filesystem and
//! playing audio are left to the caller.

mod buffer;
mod catalog;
mod cli;
mod dispatch;
mod keys;

pub use keys::{
    get_char, is_digit_char, is_digit_code, spec_digit_of, InputEvent, EV_KEY, KEY_0, KEY_1,
    KEY_2, KEY_3, KEY_4, KEY_5, KEY_6, KEY_7, KEY_8, KEY_9, KEY_ENTER, VALUE_PRESSED,
    VALUE_RELEASED, VALUE_REPEATED,
};

pub use buffer::{
    all_digits, buffer_after, completed_code, digits_typed, is_terminator, lemma_digits_then_enter,
    lemma_non_presses_ignored, lemma_other_keys_ignored, lemma_terminator_clears, next_buffer,
    typed_digit, CodeBuffer,
};

pub use catalog::{
    codes_distinct, entries_map, has_code, joined_path, pairs_map, trimmed, SoundCatalog,
};

pub use dispatch::{
    dispatches, lemma_lookup_outcomes, opt_view, playback_for, reports_missing, spec_playback,
    Playback, Soundboard,
};

pub use cli::{parse_args, Args, ArgsError};
