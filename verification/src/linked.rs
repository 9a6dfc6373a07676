use vstd::prelude::*;
use crate::axis::{AxisConfig, AxisLimit, AxisRange, AxisSelector, Persistence};
use crate::error::PlotError;
use crate::panel::{ChartPanel, PanelView, Phase};

verus! {

/// One axis range that several panels share. The host owns it and hands it to
/// each panel in turn; panels are drawn one after another, so that each sees
/// what the one before it wrote.
#[derive(Debug)]
pub struct LinkedAxisGroup {
    range: AxisRange,
}

impl View for LinkedAxisGroup {
    type V = AxisRange;

    closed spec fn view(&self) -> AxisRange {
        self.range
    }
}

/// What a write of `range` through `axis` of `panel` comes to: the error
/// that refuses it, or the range that the shared range then holds.
pub open spec fn written_back(panel: PanelView, axis: AxisSelector, range: AxisRange) -> Result<
    AxisRange,
    PlotError,
> {
    if !panel.in_draw_scope() {
        Err(PlotError::QueryOutsideDrawScope)
    } else if !panel.axes.spec_get(axis).linked {
        Err(PlotError::AxisNotLinked)
    } else {
        Ok(range)
    }
}

impl LinkedAxisGroup {
    /// A shared range that starts as `initial_range`.
    pub fn new(initial_range: AxisRange) -> (group: LinkedAxisGroup)
        ensures
            group@ == initial_range,
    {
        LinkedAxisGroup { range: initial_range }
    }

    /// The range as it stands now.
    pub fn range(&self) -> (range: AxisRange)
        ensures
            range == self@,
    {
        self.range
    }

    /// Links `axis` of `panel` to this group, before the panel is drawn: the
    /// axis is held to the group's current range on every frame.
    pub fn attach(&self, panel: &mut ChartPanel, axis: AxisSelector) -> (result: Result<
        (),
        PlotError,
    >)
        ensures
            match result {
                Ok(_) => old(panel)@.phase == Phase::Configured
                    && final(panel)@ == old(panel)@.attached(axis, self@),
                Err(error) => old(panel)@.phase != Phase::Configured
                    && error == PlotError::InvalidTransition && final(panel)@ == old(panel)@,
            },
    {
        match panel.phase {
            Phase::Configured => {
                let previous = panel.axes.get(axis);
                panel.axes = panel.axes.set(
                    axis,
                    AxisConfig {
                        limit: Some(
                            AxisLimit { range: self.range, persistence: Persistence::Always },
                        ),
                        linked: true,
                        flags: previous.flags,
                    },
                );
                Ok(())
            },
            _ => Err(PlotError::InvalidTransition),
        }
    }

    /// Takes the range that the user's panning or zooming gave a linked axis
    /// of `panel`, inside the panel's draw scope. A refused write leaves the
    /// group as it was.
    pub fn write_back(
        &mut self,
        panel: &ChartPanel,
        axis: AxisSelector,
        range: AxisRange,
    ) -> (result: Result<(), PlotError>)
        ensures
            match written_back(panel@, axis, range) {
                Ok(written) => result == Ok::<(), PlotError>(()) && final(self)@ == written,
                Err(error) => result == Err::<(), PlotError>(error) && final(self)@ == old(self)@,
            },
    {
        if !panel.is_drawing() {
            Err(PlotError::QueryOutsideDrawScope)
        } else if !panel.axis(axis).linked {
            Err(PlotError::AxisNotLinked)
        } else {
            self.range = range;
            Ok(())
        }
    }
}

/// What one panel writes into a shared range in its draw scope is what the
/// next panel attached to the group is held to, on every frame.
pub proof fn lemma_next_panel_sees_write(
    initial: AxisRange,
    first: PanelView,
    second: PanelView,
    axis: AxisSelector,
    mark: u64,
    range: AxisRange,
)
    requires
        first.phase == Phase::Configured,
    ensures
        ({
            let drawing = first.attached(axis, initial).begun(mark);
            let shared = written_back(drawing, axis, range);
            &&& shared == Ok::<AxisRange, PlotError>(range)
            &&& second.attached(axis, shared.unwrap()).axes.spec_get(axis).limit == Some(
                AxisLimit { range, persistence: Persistence::Always },
            )
            &&& second.attached(axis, shared.unwrap()).axes.spec_get(axis).linked
        }),
{
}

/// A panel attached to a group is held to the range the group had then.
pub proof fn lemma_attached_panel_sees_group(panel: PanelView, axis: AxisSelector, range: AxisRange)
    ensures
        panel.attached(axis, range).axes.spec_get(axis).limit == Some(
            AxisLimit { range, persistence: Persistence::Always },
        ),
        forall|other: AxisSelector|
            other != axis ==> panel.attached(axis, range).axes.spec_get(other)
                == panel.axes.spec_get(other),
{
}

} // verus!
