use vstd::prelude::*;

pub mod entry;
pub mod secret;
pub mod text;
pub mod docs;
pub mod picker;
pub mod listing;
pub mod lookup;
pub mod theme;
pub mod widgets;
pub mod tui;
pub mod naming;
pub mod import;
pub mod layout;
pub mod cli;
pub mod cam;
pub mod laws;

verus! {

} // verus!
