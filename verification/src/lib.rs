//! Core logic of a screen-grabbing tool: output formats and the file
//! names derived from them, capture delays, annotation tools, keyboard
//! shortcut recording and matching, the capture timers of the grabbing
//! windows, and the resize cursor of the selection area.
mod controllers;
mod cursor;
mod decimal;
mod format;
mod keys;
mod state;
mod timer;
mod tools;

pub use controllers::{
    AreaAction, AreaController, AreaEvent, CaptureProgress, CaptureStep, Enter, EnterView, NO_TIMER,
    ShortcutController,
    lemma_area_actions, lemma_capture_only_after_pause, lemma_recorded_ascii_shortcut_fires,
    lemma_recorded_shortcut_fires, lemma_shortcut_ignores_letter_case,
};
pub use cursor::{
    CursorData, CursorKind, PointerPlace, handle_under, lemma_cursor_consistent, lemma_cursor_shapes,
    lemma_handle_reach, lemma_handle_sides,
};
pub use decimal::{lemma_decimal_digits, lemma_decimal_injective, push_decimal};
pub use format::{ImageFormat, lemma_extension_injective, lemma_extension_is_dotted};
pub use keys::{
    ALL_MODIFIERS, ALT, CAPS_LOCK, FN_LOCK, KeyInput, LOCK_MASK, NUM_LOCK, SCROLL_LOCK,
    SYMBOL_LOCK, apply_locks, lemma_charcode_of_keys, lemma_shortcut_matches_both_cases,
    lemma_with_locks, matches_shortcut, note_lock_key,
};
pub use state::{
    AppState, NameSearch, lemma_candidates_distinct, lemma_save_writes_probed_location,
    lemma_search_bounded, lemma_search_finds_first_free,
};
pub use timer::{SHORT_PAUSE_MILLIS, Timer, lemma_countdown_bounds};
pub use tools::{Direction, Tools};
