//! The granularities at which the datepicker shows and selects dates.
use vstd::prelude::*;

verus! {

/// Types of views for the datepicker, from the coarsest to the finest.
#[derive(Debug, Copy, Clone, PartialEq, Eq, Structural)]
pub enum DialogViewType {
    /// A block of twenty years, starting at a year that is a multiple of twenty
    Years,
    /// One full year, with the selection of a month
    Months,
    /// One full month, with the selection of a day
    Days,
}

impl DialogViewType {
    /// The position of the view type on the scale `Years < Months < Days`.
    pub open spec fn rank(self) -> int {
        match self {
            DialogViewType::Years => 0,
            DialogViewType::Months => 1,
            DialogViewType::Days => 2,
        }
    }

    /// Returns the position of the view type on the scale `Years < Months < Days`.
    pub fn scale(&self) -> (r: u8)
        ensures
            r as int == self.rank(),
    {
        match self {
            DialogViewType::Years => 0,
            DialogViewType::Months => 1,
            DialogViewType::Days => 2,
        }
    }

    /// Returns true if `self` is strictly finer than `other`.
    pub fn is_finer_than(&self, other: &DialogViewType) -> (r: bool)
        ensures
            r == (self.rank() > other.rank()),
    {
        self.scale() > other.scale()
    }

    /// Returns the larger view type, if such exists, otherwise returns None
    pub fn larger_type(&self) -> (r: Option<Self>)
        ensures
            r is None <==> *self == DialogViewType::Years,
            r matches Some(t) ==> t.rank() == self.rank() - 1,
    {
        match self {
            DialogViewType::Years => None,
            DialogViewType::Months => Some(DialogViewType::Years),
            DialogViewType::Days => Some(DialogViewType::Months),
        }
    }
}

impl Default for DialogViewType {
    fn default() -> (r: Self)
        ensures
            r == DialogViewType::Days,
    {
        DialogViewType::Days
    }
}

} // verus!
