use vstd::prelude::*;

verus! {

/// Types of views for the datepicker, from the coarsest to the finest.
#[derive(Clone, Copy, Debug, PartialEq, Eq, Structural, Hash)]
pub enum DialogViewType {
    /// a group of `YEARS_IN_YEAR_SELECTION` years, starting at a multiple of 20
    Years,
    /// one full year with the selection of a month
    Months,
    /// one full month with the selection of a day
    Days,
}

impl DialogViewType {
    /// How fine the view is: Years 1, Months 2, Days 3.
    pub open spec fn rank(self) -> int {
        match self {
            DialogViewType::Years => 1,
            DialogViewType::Months => 2,
            DialogViewType::Days => 3,
        }
    }

    /// The coarser view of `self`, if there is one.
    pub open spec fn coarser(self) -> Option<DialogViewType> {
        match self {
            DialogViewType::Years => None,
            DialogViewType::Months => Some(DialogViewType::Years),
            DialogViewType::Days => Some(DialogViewType::Months),
        }
    }

    /// How fine the view is: Years 1, Months 2, Days 3.
    pub fn specificity(&self) -> (r: u8)
        ensures
            r == self.rank(),
    {
        match self {
            DialogViewType::Years => 1,
            DialogViewType::Months => 2,
            DialogViewType::Days => 3,
        }
    }

    /// Whether `self` shows smaller units than `other`.
    pub fn is_finer_than(&self, other: &DialogViewType) -> (r: bool)
        ensures
            r == (self.rank() > other.rank()),
    {
        self.specificity() > other.specificity()
    }

    /// Returns the larger view type, if such exists, otherwise returns `None`.
    pub fn larger_type(&self) -> (r: Option<DialogViewType>)
        ensures
            r == self.coarser(),
            r matches Some(t) ==> t.rank() == self.rank() - 1,
    {
        match self {
            DialogViewType::Years => None,
            DialogViewType::Months => Some(DialogViewType::Years),
            DialogViewType::Days => Some(DialogViewType::Months),
        }
    }
}

impl Default for DialogViewType {
    /// The finest view, `Days`.
    fn default() -> (r: DialogViewType)
        ensures
            r == DialogViewType::Days,
    {
        DialogViewType::Days
    }
}

} // verus!
