//! Line editing for terminal input: a decoder from raw input bytes to
//! logical keys, the editing rules of a single-line buffer with a cursor,
//! and recall of earlier lines from a history.
//!
//! Buffers are sequences of characters and the cursor counts characters, so
//! it never falls inside the encoding of one. Space is the only word
//! delimiter.

use vstd::prelude::*;

pub mod console;
pub mod decode;
pub mod editor;
pub mod history;
pub mod key;
pub mod text;

pub use console::console_key;
pub use decode::{parse_esc_seq, read_key};
pub use editor::readch;
pub use history::HistoryNav;
pub use key::Key;

verus! {

} // verus!
