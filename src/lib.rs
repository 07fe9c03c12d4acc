//! Locating the current user's desktop directory on Windows.
//!
//! The operating system offers several ways to find the desktop, none of
//! which is always available. This library holds the decisions of that
//! search: which query to make next, how to read the buffers that the
//! native calls fill in, and how to build a path when only the profile
//! directory or the user name is known. The queries themselves are made by
//! the caller, which hands each answer back.
//!
//! Paths are held as UTF-16 code units, the encoding of the native calls, so
//! that no name is altered on its way through.

mod folder;
mod note;
mod resolve;
mod wide;

pub use folder::{
    csidl_of, win_bool, win_bool_of, ConstantSpecialItemIdList, CSIDL_DESKTOP, FALSE, MAX_PATH, TRUE,
    UNLEN,
};
pub use wide::{
    before_nul, get_special_folder_path, get_user_name, is_first_nul, user_name_fits, wide_len,
    UserNameError,
};
pub use note::{note_bytes, note_contents, note_name, note_path};
pub use resolve::{
    advance, answer_for, answer_view, desktop_segment, first_query, is_separator, join_desktop, join_segment,
    joined, lemma_all_failed_is_exhausted, lemma_known_folder_wins, lemma_profile_fallback,
    lemma_search_follows_priority, lemma_special_folder_follows, lemma_user_name_fallback,
    next_step, profile_desktop, resolution, run_from, search_outcome, special_desktop_query,
    user_desktop, user_desktop_path, users_root, Query, Step, StepView, PROFILE_VARIABLE,
};
