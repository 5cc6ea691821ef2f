use vstd::prelude::*;

use crate::states::region_select::{SelectionResult, SelectionView};

verus! {

/// What the clock is doing: letting the user pick a region, or showing the
/// time of the region that was picked.
#[derive(Clone, Debug, PartialEq, Eq)]
pub enum State {
    RegionSelect,
    Time(SelectionResult),
}

/// A state as a plain value.
pub enum StateView {
    RegionSelect,
    Time(SelectionView),
}

impl View for State {
    type V = StateView;

    open spec fn view(&self) -> StateView {
        match self {
            State::RegionSelect => StateView::RegionSelect,
            State::Time(selection) => StateView::Time(selection@),
        }
    }
}

} // verus!
