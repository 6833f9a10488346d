//! A verified core for a raw-mode terminal demo: it renders a `#` border
//! frame with a centered dimension label, decides how each input byte is
//! handled, and computes the terminal-mode flag transitions for entering
//! and leaving raw mode. All actual terminal I/O lives outside this crate.

pub mod frame;
pub mod input;
pub mod mode;
pub mod text;

use vstd::prelude::*;

verus! {

} // verus!
