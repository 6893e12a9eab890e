//! The interface state that one panel instance carries between frames.

use vstd::prelude::*;

verus! {

/// Scroll offset and selection cursor of the list that a panel displays.
#[derive(Clone, Debug, PartialEq, Eq)]
pub struct AppScrollWidgetState {
    /// Index of the first visible row.
    pub current_scroll_position: usize,
    /// Index of the selected row, if one is selected.
    pub selected: Option<usize>,
}

impl AppScrollWidgetState {
    /// Holds of the state of a list that was never scrolled: the offset is
    /// zero and no row is selected.
    pub open spec fn is_initial(&self) -> bool {
        &&& self.current_scroll_position == 0
        &&& self.selected is None
    }
}

impl Default for AppScrollWidgetState {
    fn default() -> (state: Self)
        ensures
            state.is_initial(),
    {
        AppScrollWidgetState { current_scroll_position: 0, selected: None }
    }
}

/// Cache of the column widths that were computed for a table.
#[derive(Clone, Debug, PartialEq, Eq)]
pub struct CanvasTableWidthState {
    /// The widths that the columns ask for.
    pub desired_column_widths: Vec<u16>,
    /// The widths that the columns were given.
    pub calculated_column_widths: Vec<u16>,
}

impl CanvasTableWidthState {
    /// Holds of a cache in which nothing was computed yet: both lists of
    /// widths are empty.
    pub open spec fn is_initial(&self) -> bool {
        &&& self.desired_column_widths@ == Seq::<u16>::empty()
        &&& self.calculated_column_widths@ == Seq::<u16>::empty()
    }
}

impl Default for CanvasTableWidthState {
    fn default() -> (state: Self)
        ensures
            state.is_initial(),
    {
        CanvasTableWidthState {
            desired_column_widths: Vec::new(),
            calculated_column_widths: Vec::new(),
        }
    }
}

} // verus!
