//! Aviate: FAA chart and NASR airport data, the verified core.
use vstd::prelude::*;

pub mod app;
pub mod chart;
pub mod error_dlg;
pub mod find_dlg;
pub mod geom;
pub mod main_widget;
pub mod nasr;
pub mod select_dialog;
pub mod select_dlg;
pub mod select_menu;
pub mod text;
pub mod touch;
pub mod util;

verus! {

} // verus!
