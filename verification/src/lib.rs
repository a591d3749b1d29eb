//! Verified core of the Rnote user interface: the decisions that the
//! widgets take on input events, actions, file events and settings, stated
//! over plain values.

use vstd::prelude::*;

pub mod autosave;
pub mod canvas;
pub mod closing;
pub mod colors;
pub mod constraints;
pub mod document;
pub mod env;
pub mod export;
pub mod feedback;
pub mod icons;
pub mod import;
pub mod input;
pub mod layout;
pub mod styles;
pub mod text;
pub mod timestamp;
pub mod window;
pub mod workspace;

verus! {

} // verus!
