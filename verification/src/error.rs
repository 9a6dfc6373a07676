use vstd::prelude::*;

verus! {

/// What a panel, a linked axis group or a style stack can refuse.
#[derive(Clone, Copy, Debug, PartialEq, Eq, Structural)]
pub enum PlotError {
    /// A series was submitted with coordinate lists of different lengths.
    DataLengthMismatch,
    /// An operation of the draw scope was used while the panel was not drawing.
    QueryOutsideDrawScope,
    /// The draw scope ended with style overrides that were pushed inside it
    /// still in force.
    UnreleasedStyleOverride,
    /// A style override was released while a later one was still in force.
    OutOfOrderRelease,
    /// The panel was asked for a step that its current phase does not allow.
    InvalidTransition,
    /// A shared range was written through an axis that is not linked.
    AxisNotLinked,
}

impl PlotError {
    /// Whether the error shows a bug of the caller, to be surfaced at once.
    /// The one error that does not is a series with lists of different
    /// lengths: that series is skipped and the frame goes on.
    pub fn is_fatal(self) -> (fatal: bool)
        ensures
            fatal == (self != PlotError::DataLengthMismatch),
    {
        match self {
            PlotError::DataLengthMismatch => false,
            _ => true,
        }
    }
}

} // verus!
