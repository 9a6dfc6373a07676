use vstd::prelude::*;
use crate::axis::{
    AxisConfig, AxisFlags, AxisLimit, AxisRange, AxisRanges, AxisSelector, AxisTable, Persistence,
    PlotFlags,
};
use crate::error::PlotError;
use crate::series::{
    abscissas, contains_label, has_label, ordinates, pair_samples, paired, series_views, Point,
    Series, SeriesView,
};
use crate::style::{lemma_mark_parts_old_from_new, pushed_since, serials_ordered, StyleEntry, StyleStack};
use crate::ticks::{mark_views, TickMark, TickSet, TickSetView, TickTable, TickTableView};

verus! {

/// Where a panel stands in its one frame of life.
#[derive(Clone, Copy, Debug, PartialEq, Eq, Structural)]
pub enum Phase {
    Unconfigured,
    Configured,
    Drawing,
    Closed,
}

/// The size of a panel in pixels. Each dimension is an IEEE 754 single
/// carried as its 32 bits.
#[derive(Clone, Copy, Debug, PartialEq, Eq, Structural)]
pub struct PanelSize {
    pub width: u32,
    pub height: u32,
}

/// Whether the single with these bits is greater than zero: its sign bit is
/// clear, it is not zero and it is no NaN. Infinity counts as positive.
pub open spec fn positive_single(bits: u32) -> bool {
    0 < bits <= 0x7F80_0000u32
}

/// A point in both spaces: where it lies in the data, and where on the screen.
#[derive(Clone, Copy, Debug, PartialEq, Eq, Structural)]
pub struct Conversion {
    pub data: Point,
    pub pixels: Point,
}

/// One frame's worth of a chart.
#[derive(Debug)]
pub struct ChartPanel {
    pub(crate) phase: Phase,
    pub(crate) title: String,
    pub(crate) size: PanelSize,
    pub(crate) flags: PlotFlags,
    pub(crate) axes: AxisTable,
    pub(crate) ticks: TickTable,
    pub(crate) series: Vec<Series>,
    pub(crate) style_mark: u64,
    pub(crate) hover: Option<Point>,
}

/// What a panel holds, as plain values.
pub struct PanelView {
    pub phase: Phase,
    pub title: Seq<char>,
    pub size: PanelSize,
    pub flags: PlotFlags,
    pub axes: AxisTable,
    /// The ticks that replace the backend's own, per axis.
    pub ticks: TickTableView,
    /// The series submitted in this frame, in the order of submission.
    pub series: Seq<SeriesView>,
    /// The serial that the style stack had reached when the draw scope was
    /// entered: overrides with this serial or a later one were pushed inside.
    pub style_mark: u64,
    /// The pointer's position in the data as last captured in the draw scope,
    /// `None` while the pointer was outside the panel or nothing was captured.
    pub hover: Option<Point>,
}

impl PanelView {
    /// A panel that nothing was done to yet.
    pub open spec fn blank() -> PanelView {
        PanelView {
            phase: Phase::Unconfigured,
            title: Seq::<char>::empty(),
            size: PanelSize { width: 0, height: 0 },
            flags: PlotFlags::spec_none(),
            axes: (AxisRanges { x: None, y1: None, y2: None, y3: None }).spec_table(
                Persistence::Always,
            ),
            ticks: TickTableView::empty(),
            series: Seq::<SeriesView>::empty(),
            style_mark: 0,
            hover: None,
        }
    }

    /// Whether the panel can still take a configuration.
    pub open spec fn can_configure(self) -> bool {
        self.phase == Phase::Unconfigured || self.phase == Phase::Configured
    }

    /// The panel that a configuration gives: what was passed, and nothing
    /// left of what the panel held before.
    pub open spec fn configured(
        size: PanelSize,
        title: Seq<char>,
        ranges: AxisRanges,
        persistence: Persistence,
        flags: PlotFlags,
    ) -> PanelView {
        PanelView {
            phase: Phase::Configured,
            title,
            size,
            flags,
            axes: ranges.spec_table(persistence),
            ticks: TickTableView::empty(),
            series: Seq::<SeriesView>::empty(),
            style_mark: 0,
            hover: None,
        }
    }

    /// The size the panel asks for, or `None` where it leaves the layout to
    /// the backend because a dimension is not positive.
    pub open spec fn layout_size(self) -> Option<PanelSize> {
        if positive_single(self.size.width) && positive_single(self.size.height) {
            Some(self.size)
        } else {
            None
        }
    }

    /// Whether the operations of the draw scope are valid.
    pub open spec fn in_draw_scope(self) -> bool {
        self.phase == Phase::Drawing
    }

    /// The panel on entering its draw scope when the style stack has reached
    /// the serial `mark`.
    pub open spec fn begun(self, mark: u64) -> PanelView {
        PanelView {
            phase: Phase::Drawing,
            series: Seq::<SeriesView>::empty(),
            style_mark: mark,
            hover: None,
            ..self
        }
    }

    /// The panel on leaving its draw scope: what was captured stays.
    pub open spec fn ended(self) -> PanelView {
        PanelView { phase: Phase::Closed, ..self }
    }

    /// The panel with one more series, after those it has.
    pub open spec fn with_series(self, label: Seq<char>, points: Seq<Point>) -> PanelView {
        PanelView { series: self.series.push(SeriesView { label, points }), ..self }
    }

    /// The panel with `hover` as its captured pointer position.
    pub open spec fn with_hover(self, hover: Option<Point>) -> PanelView {
        PanelView { hover, ..self }
    }

    /// The panel with the options of `axis` replaced by `flags`.
    pub open spec fn with_axis_flags(self, axis: AxisSelector, flags: AxisFlags) -> PanelView {
        PanelView {
            axes: self.axes.spec_set(axis, AxisConfig { flags, ..self.axes.spec_get(axis) }),
            ..self
        }
    }

    /// The panel with the ticks of `axis` replaced by `ticks`.
    pub open spec fn with_ticks(self, axis: AxisSelector, ticks: TickSetView) -> PanelView {
        PanelView { ticks: self.ticks.set(axis, Some(ticks)), ..self }
    }

    /// The panel with `axis` linked and held to `range` on every frame.
    pub open spec fn attached(self, axis: AxisSelector, range: AxisRange) -> PanelView {
        PanelView {
            axes: self.axes.spec_set(
                axis,
                AxisConfig {
                    limit: Some(AxisLimit { range, persistence: Persistence::Always }),
                    linked: true,
                    flags: self.axes.spec_get(axis).flags,
                },
            ),
            ..self
        }
    }
}

/// How a draw scope closes on what its body left: the panel as it stands
/// then, with the style stack, gives the panel that is handed back and the
/// verdict. An override that was pushed inside the scope and is still in
/// force is reported. A body that left the scope by itself is reported and
/// the panel kept as the body left it.
pub open spec fn drawn(after_body: PanelView, stack: Seq<StyleEntry>) -> (
    PanelView,
    Result<(), PlotError>,
) {
    if !after_body.in_draw_scope() {
        (after_body, Err(PlotError::InvalidTransition))
    } else if pushed_since(stack, after_body.style_mark) {
        (after_body.ended(), Err(PlotError::UnreleasedStyleOverride))
    } else {
        (after_body.ended(), Ok(()))
    }
}

impl View for ChartPanel {
    type V = PanelView;

    open(crate) spec fn view(&self) -> PanelView {
        PanelView {
            phase: self.phase,
            title: self.title@,
            size: self.size,
            flags: self.flags,
            axes: self.axes,
            ticks: self.ticks@,
            series: series_views(self.series@),
            style_mark: self.style_mark,
            hover: self.hover,
        }
    }
}

impl ChartPanel {
    /// A panel that nothing was done to yet.
    pub fn new() -> (panel: ChartPanel)
        ensures
            panel@ == PanelView::blank(),
    {
        let panel = ChartPanel {
            phase: Phase::Unconfigured,
            title: String::new(),
            size: PanelSize { width: 0, height: 0 },
            flags: PlotFlags::none(),
            axes: AxisRanges::free().table(Persistence::Always),
            ticks: TickTable::empty(),
            series: Vec::new(),
            style_mark: 0,
            hover: None,
        };
        assert(series_views(panel.series@) =~= Seq::<SeriesView>::empty());
        panel
    }

    /// Captures a configuration. A panel takes one until it is drawn; a later
    /// one replaces an earlier one whole.
    pub fn configure(
        &mut self,
        size: PanelSize,
        title: String,
        ranges: AxisRanges,
        persistence: Persistence,
        flags: PlotFlags,
    ) -> (result: Result<(), PlotError>)
        ensures
            match result {
                Ok(_) => old(self)@.can_configure() && final(self)@ == PanelView::configured(
                    size,
                    title@,
                    ranges,
                    persistence,
                    flags,
                ),
                Err(error) => !old(self)@.can_configure() && error == PlotError::InvalidTransition
                    && final(self)@ == old(self)@,
            },
    {
        match self.phase {
            Phase::Unconfigured | Phase::Configured => {
                self.phase = Phase::Configured;
                self.title = title;
                self.size = size;
                self.flags = flags;
                self.axes = ranges.table(persistence);
                self.ticks = TickTable::empty();
                self.series = Vec::new();
                self.style_mark = 0;
                self.hover = None;
                assert(series_views(self.series@) =~= Seq::<SeriesView>::empty());
                Ok(())
            },
            _ => Err(PlotError::InvalidTransition),
        }
    }

    /// Replaces the options of one axis of a configured panel, before it is
    /// drawn.
    pub fn set_axis_flags(&mut self, axis: AxisSelector, flags: AxisFlags) -> (result: Result<
        (),
        PlotError,
    >)
        ensures
            match result {
                Ok(_) => old(self)@.phase == Phase::Configured && final(self)@ == old(self)@.with_axis_flags(
                    axis,
                    flags,
                ),
                Err(error) => old(self)@.phase != Phase::Configured && error
                    == PlotError::InvalidTransition
                    && final(self)@ == old(self)@,
            },
    {
        match self.phase {
            Phase::Configured => {
                let previous = self.axes.get(axis);
                self.axes = self.axes.set(axis, AxisConfig { flags, ..previous });
                Ok(())
            },
            _ => Err(PlotError::InvalidTransition),
        }
    }

    /// Replaces the ticks of one axis of a configured panel by `marks`,
    /// before it is drawn. With `show_default` the backend's own ticks are
    /// drawn as well.
    pub fn set_ticks(
        &mut self,
        axis: AxisSelector,
        marks: Vec<TickMark>,
        show_default: bool,
    ) -> (result: Result<(), PlotError>)
        ensures
            match result {
                Ok(_) => old(self)@.phase == Phase::Configured && final(self)@ == old(self)@.with_ticks(
                    axis,
                    TickSetView { marks: mark_views(marks@), show_default },
                ),
                Err(error) => old(self)@.phase != Phase::Configured && error
                    == PlotError::InvalidTransition
                    && final(self)@ == old(self)@,
            },
    {
        match self.phase {
            Phase::Configured => {
                self.ticks.set(axis, Some(TickSet { marks, show_default }));
                Ok(())
            },
            _ => Err(PlotError::InvalidTransition),
        }
    }

    /// Enters the draw scope. A panel is drawn once, after it was configured.
    /// The serial that `styles` has reached is kept, to tell at the end which
    /// overrides were pushed inside the scope.
    pub fn begin_draw(&mut self, styles: &StyleStack) -> (result: Result<(), PlotError>)
        ensures
            match result {
                Ok(_) => old(self)@.phase == Phase::Configured
                    && final(self)@ == old(self)@.begun(styles.next_serial()),
                Err(error) => old(self)@.phase != Phase::Configured
                    && error == PlotError::InvalidTransition && final(self)@ == old(self)@,
            },
    {
        match self.phase {
            Phase::Configured => {
                self.phase = Phase::Drawing;
                self.series = Vec::new();
                self.style_mark = styles.mark();
                self.hover = None;
                assert(series_views(self.series@) =~= Seq::<SeriesView>::empty());
                Ok(())
            },
            _ => Err(PlotError::InvalidTransition),
        }
    }

    /// Leaves the draw scope. The panel is closed whatever `styles` holds; an
    /// override pushed inside the scope and still in force is reported. A
    /// panel that is not drawing stays as it is.
    pub fn end_draw(&mut self, styles: &StyleStack) -> (result: Result<(), PlotError>)
        ensures
            final(self)@ == drawn(old(self)@, styles@).0,
            result == drawn(old(self)@, styles@).1,
    {
        match self.phase {
            Phase::Drawing => {
                self.phase = Phase::Closed;
                if styles.holds_override_since(self.style_mark) {
                    Err(PlotError::UnreleasedStyleOverride)
                } else {
                    Ok(())
                }
            },
            _ => Err(PlotError::InvalidTransition),
        }
    }

    /// Draws the panel: enters the draw scope, runs `body` once, at once, on
    /// the panel and the style stack, and leaves the scope on what the body
    /// hands back. On a panel that is not configured the body is not run and
    /// panel and stack come back as they were.
    pub fn draw<F>(self, styles: StyleStack, body: F) -> (out: (
        ChartPanel,
        StyleStack,
        Result<(), PlotError>,
    )) where F: FnOnce(ChartPanel, StyleStack) -> (ChartPanel, StyleStack)
        requires
            forall|start: ChartPanel|
                start@ == self@.begun(styles.next_serial()) ==> call_requires(body, (start, styles)),
        ensures
            if self@.phase == Phase::Configured {
                exists|start: ChartPanel, after: ChartPanel|
                    start@ == self@.begun(styles.next_serial()) && #[trigger] call_ensures(
                        body,
                        (start, styles),
                        (after, out.1),
                    ) && out.0@ == drawn(after@, out.1@).0 && out.2 == drawn(after@, out.1@).1
            } else {
                out.0@ == self@ && out.1@ == styles@ && out.2 == Err::<(), PlotError>(
                    PlotError::InvalidTransition,
                )
            },
    {
        let mut panel = self;
        match panel.begin_draw(&styles) {
            Err(error) => (panel, styles, Err(error)),
            Ok(_) => {
                let ghost start = panel;
                let (mut after, styles_after) = body(panel, styles);
                let ghost left = after;
                let result = if after.is_drawing() {
                    after.end_draw(&styles_after)
                } else {
                    Err(PlotError::InvalidTransition)
                };
                let out = (after, styles_after, result);
                assert(call_ensures(body, (start, styles), (left, out.1)));
                out
            },
        }
    }

    /// Takes one line series: the samples `(xs[i], ys[i])` under `label`.
    /// Valid in the draw scope only. Lists of different lengths are refused
    /// and leave the panel, with the series it has, as it was.
    pub fn submit_line_series(&mut self, label: String, xs: &[u64], ys: &[u64]) -> (result: Result<
        (),
        PlotError,
    >)
        ensures
            match result {
                Ok(_) => old(self)@.in_draw_scope() && xs@.len() == ys@.len() && final(self)@
                    == old(self)@.with_series(label@, paired(xs@, ys@)),
                Err(error) => final(self)@ == old(self)@ && if old(self)@.in_draw_scope() {
                    xs@.len() != ys@.len() && error == PlotError::DataLengthMismatch
                } else {
                    error == PlotError::QueryOutsideDrawScope
                },
            },
    {
        match self.phase {
            Phase::Drawing => {},
            _ => {
                return Err(PlotError::QueryOutsideDrawScope);
            },
        }
        match pair_samples(xs, ys) {
            Ok(points) => {
                let ghost before = self.series@;
                let series = Series { label, points };
                self.series.push(series);
                assert(series_views(self.series@) =~= series_views(before).push(series@));
                Ok(())
            },
            Err(error) => Err(error),
        }
    }

    /// Captures the pointer's position in the data, from the backend's
    /// reading: whether the pointer is over the panel, and where. The
    /// position counts only while the pointer is over the panel.
    pub fn query_hover_position(&mut self, hovered: bool, position: Point) -> (result: Result<
        Option<Point>,
        PlotError,
    >)
        ensures
            match result {
                Ok(hover) => old(self)@.in_draw_scope() && hover == (if hovered {
                    Some(position)
                } else {
                    None
                }) && final(self)@ == old(self)@.with_hover(hover),
                Err(error) => !old(self)@.in_draw_scope() && error
                    == PlotError::QueryOutsideDrawScope && final(self)@ == old(self)@,
            },
    {
        match self.phase {
            Phase::Drawing => {
                let hover = if hovered {
                    Some(position)
                } else {
                    None
                };
                self.hover = hover;
                Ok(hover)
            },
            _ => Err(PlotError::QueryOutsideDrawScope),
        }
    }

    /// Admits the backend's answer to where `data_point` lies on the screen.
    pub fn query_pixel_position(&self, data_point: Point, pixels: Point) -> (result: Result<
        Conversion,
        PlotError,
    >)
        ensures
            match result {
                Ok(conversion) => self@.in_draw_scope() && conversion == (Conversion {
                    data: data_point,
                    pixels,
                }),
                Err(error) => !self@.in_draw_scope() && error == PlotError::QueryOutsideDrawScope,
            },
    {
        match self.phase {
            Phase::Drawing => Ok(Conversion { data: data_point, pixels }),
            _ => Err(PlotError::QueryOutsideDrawScope),
        }
    }

    /// Admits the backend's answer to where `pixel_point` lies in the data.
    /// The point need not be over the panel.
    pub fn query_data_position(&self, pixel_point: Point, data: Point) -> (result: Result<
        Conversion,
        PlotError,
    >)
        ensures
            match result {
                Ok(conversion) => self@.in_draw_scope() && conversion == (Conversion {
                    data,
                    pixels: pixel_point,
                }),
                Err(error) => !self@.in_draw_scope() && error == PlotError::QueryOutsideDrawScope,
            },
    {
        match self.phase {
            Phase::Drawing => Ok(Conversion { data, pixels: pixel_point }),
            _ => Err(PlotError::QueryOutsideDrawScope),
        }
    }

    /// Whether the pointer is over the legend entry of `label`, from the
    /// backend's reading for that label. A label that no series of this frame
    /// carries is never hovered.
    pub fn query_legend_entry_hovered(&self, label: &String, pointer_on_entry: bool) -> (result: Result<
        bool,
        PlotError,
    >)
        ensures
            match result {
                Ok(hovered) => self@.in_draw_scope() && hovered == (pointer_on_entry && has_label(
                    self@.series,
                    label@,
                )),
                Err(error) => !self@.in_draw_scope() && error == PlotError::QueryOutsideDrawScope,
            },
    {
        match self.phase {
            Phase::Drawing => Ok(pointer_on_entry && contains_label(&self.series, label)),
            _ => Err(PlotError::QueryOutsideDrawScope),
        }
    }

    /// The phase the panel is in.
    pub fn phase(&self) -> (phase: Phase)
        ensures
            phase == self@.phase,
    {
        self.phase
    }

    /// Whether the operations of the draw scope are valid.
    pub fn is_drawing(&self) -> (drawing: bool)
        ensures
            drawing == self@.in_draw_scope(),
    {
        match self.phase {
            Phase::Drawing => true,
            _ => false,
        }
    }

    /// The title the panel was configured with.
    pub fn title(&self) -> (title: &String)
        ensures
            title@ == self@.title,
    {
        &self.title
    }

    /// The options the panel was configured with.
    pub fn flags(&self) -> (flags: PlotFlags)
        ensures
            flags == self@.flags,
    {
        self.flags
    }

    /// What the panel holds for `axis`.
    pub fn axis(&self, axis: AxisSelector) -> (config: AxisConfig)
        ensures
            config == self@.axes.spec_get(axis),
    {
        self.axes.get(axis)
    }

    /// The ticks that replace the backend's own on `axis`, if any do.
    pub fn ticks(&self, axis: AxisSelector) -> (ticks: Option<&TickSet>)
        ensures
            match ticks {
                Some(set) => self@.ticks.get(axis) == Some(set@),
                None => self@.ticks.get(axis) is None,
            },
    {
        self.ticks.get(axis)
    }

    /// The size the panel asks for, or `None` where it leaves the layout to
    /// the backend because a dimension is not positive.
    pub fn layout_size(&self) -> (size: Option<PanelSize>)
        ensures
            size == self@.layout_size(),
    {
        if 0 < self.size.width && self.size.width <= 0x7F80_0000u32 && 0 < self.size.height
            && self.size.height <= 0x7F80_0000u32 {
            Some(self.size)
        } else {
            None
        }
    }

    /// How many series were submitted in this frame.
    pub fn series_count(&self) -> (count: usize)
        ensures
            count == self@.series.len(),
    {
        self.series.len()
    }

    /// The series submitted as number `index`, counting from zero.
    pub fn series(&self, index: usize) -> (found: Option<&Series>)
        ensures
            match found {
                Some(series) => index < self@.series.len() && series@ == self@.series[index as int],
                None => index >= self@.series.len(),
            },
    {
        if index < self.series.len() {
            Some(&self.series[index])
        } else {
            None
        }
    }

    /// The coordinate lists of the series submitted as number `index`, as
    /// they were handed in.
    pub fn submitted_points(&self, index: usize) -> (found: Option<(Vec<u64>, Vec<u64>)>)
        ensures
            match found {
                Some(lists) => index < self@.series.len() && lists.0@ == abscissas(
                    self@.series[index as int].points,
                ) && lists.1@ == ordinates(self@.series[index as int].points),
                None => index >= self@.series.len(),
            },
    {
        if index < self.series.len() {
            let series = &self.series[index];
            Some((series.xs(), series.ys()))
        } else {
            None
        }
    }

    /// The pointer position that was captured in the draw scope. It can be
    /// read in any phase.
    pub fn captured_hover(&self) -> (hover: Option<Point>)
        ensures
            hover == self@.hover,
    {
        self.hover
    }
}

/// A series submitted with lists of one length reads back as those lists, and
/// the series before it stay as they were.
pub proof fn lemma_submitted_series_reads_back(
    panel: PanelView,
    label: Seq<char>,
    xs: Seq<u64>,
    ys: Seq<u64>,
)
    requires
        xs.len() == ys.len(),
    ensures
        ({
            let after = panel.with_series(label, paired(xs, ys));
            &&& after.series.len() == panel.series.len() + 1
            &&& after.series.last().label == label
            &&& abscissas(after.series.last().points) == xs
            &&& ordinates(after.series.last().points) == ys
            &&& after.series.drop_last() == panel.series
        }),
{
    crate::series::lemma_pairing_round_trip(xs, ys);
    let after = panel.with_series(label, paired(xs, ys));
    assert(after.series.drop_last() =~= panel.series);
}

/// However a draw scope closes, the panel that comes out of it is outside
/// the scope: every query on it is refused, it takes no configuration, and
/// it cannot be drawn again.
pub proof fn lemma_drawn_panel_is_out_of_scope(after_body: PanelView, stack: Seq<StyleEntry>)
    ensures
        !drawn(after_body, stack).0.in_draw_scope(),
        after_body.in_draw_scope() ==> drawn(after_body, stack).0.phase == Phase::Closed,
        after_body.in_draw_scope() ==> !drawn(after_body, stack).0.can_configure(),
        after_body.in_draw_scope() ==> drawn(after_body, stack).0.hover == after_body.hover
            && drawn(after_body, stack).0.series == after_body.series,
{
}

/// A draw scope answers for its own overrides only. Take a panel that
/// entered its scope when the stack `stack` had reached the serial `next`.
/// Whatever part of that stack is still in force at the end, the scope
/// closes well; with one override pushed since on top of it, however much
/// was released before, the scope reports it.
pub proof fn lemma_scope_answers_for_its_own_overrides(
    panel: PanelView,
    stack: Seq<StyleEntry>,
    next: u64,
    kept: int,
    entry: StyleEntry,
)
    requires
        panel.in_draw_scope(),
        panel.style_mark == next,
        serials_ordered(stack, next),
        0 <= kept <= stack.len(),
        entry.serial >= next,
    ensures
        drawn(panel, stack.take(kept)).1 == Ok::<(), PlotError>(()),
        drawn(panel, stack.take(kept).push(entry)).1 == Err::<(), PlotError>(
            PlotError::UnreleasedStyleOverride,
        ),
{
    lemma_mark_parts_old_from_new(stack, next, kept, entry);
}

} // verus!
