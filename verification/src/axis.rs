use vstd::prelude::*;

verus! {

/// The bounds of one axis. A caller keeps `min` at or below `max`; nothing
/// here depends on it.
#[derive(Clone, Copy, Debug, PartialEq, Eq, Structural)]
pub struct AxisRange {
    pub min: u64,
    pub max: u64,
}

/// When forced limits apply: on every frame, or on the first one only, after
/// which the user's panning and zooming stick.
#[derive(Clone, Copy, Debug, PartialEq, Eq, Structural)]
pub enum Persistence {
    Always,
    Once,
}

/// One of the four axes of a panel.
#[derive(Clone, Copy, Debug, PartialEq, Eq, Structural)]
pub enum AxisSelector {
    X,
    Y1,
    Y2,
    Y3,
}

/// Limits forced on an axis.
#[derive(Clone, Copy, Debug, PartialEq, Eq, Structural)]
pub struct AxisLimit {
    pub range: AxisRange,
    pub persistence: Persistence,
}

/// The options of one axis. All are off by default.
#[derive(Clone, Copy, Debug, PartialEq, Eq, Structural)]
pub struct AxisFlags {
    pub no_grid_lines: bool,
    pub no_tick_marks: bool,
    pub no_tick_labels: bool,
    pub log_scale: bool,
    pub time: bool,
    pub invert: bool,
    pub lock_min: bool,
    pub lock_max: bool,
}

/// The options of a panel. All are off by default.
#[derive(Clone, Copy, Debug, PartialEq, Eq, Structural)]
pub struct PlotFlags {
    pub no_legend: bool,
    pub no_menus: bool,
    pub no_box_select: bool,
    pub no_mouse_position: bool,
    pub no_highlight: bool,
    pub no_child: bool,
    pub axis_equal: bool,
    pub y_axis_2: bool,
    pub y_axis_3: bool,
    pub query: bool,
    pub crosshairs: bool,
    pub anti_aliased: bool,
}

impl AxisFlags {
    /// No option set.
    pub open spec fn spec_none() -> AxisFlags {
        AxisFlags {
            no_grid_lines: false,
            no_tick_marks: false,
            no_tick_labels: false,
            log_scale: false,
            time: false,
            invert: false,
            lock_min: false,
            lock_max: false,
        }
    }

    /// No option set.
    #[verifier::when_used_as_spec(spec_none)]
    pub fn none() -> (flags: AxisFlags)
        ensures
            flags == AxisFlags::spec_none(),
    {
        AxisFlags {
            no_grid_lines: false,
            no_tick_marks: false,
            no_tick_labels: false,
            log_scale: false,
            time: false,
            invert: false,
            lock_min: false,
            lock_max: false,
        }
    }

    /// Every option that is set in `self` or in `other`.
    pub fn union(self, other: AxisFlags) -> (flags: AxisFlags)
        ensures
            flags == (AxisFlags {
                no_grid_lines: self.no_grid_lines || other.no_grid_lines,
                no_tick_marks: self.no_tick_marks || other.no_tick_marks,
                no_tick_labels: self.no_tick_labels || other.no_tick_labels,
                log_scale: self.log_scale || other.log_scale,
                time: self.time || other.time,
                invert: self.invert || other.invert,
                lock_min: self.lock_min || other.lock_min,
                lock_max: self.lock_max || other.lock_max,
            }),
    {
        AxisFlags {
            no_grid_lines: self.no_grid_lines || other.no_grid_lines,
            no_tick_marks: self.no_tick_marks || other.no_tick_marks,
            no_tick_labels: self.no_tick_labels || other.no_tick_labels,
            log_scale: self.log_scale || other.log_scale,
            time: self.time || other.time,
            invert: self.invert || other.invert,
            lock_min: self.lock_min || other.lock_min,
            lock_max: self.lock_max || other.lock_max,
        }
    }
}

impl PlotFlags {
    /// No option set.
    pub open spec fn spec_none() -> PlotFlags {
        PlotFlags {
            no_legend: false,
            no_menus: false,
            no_box_select: false,
            no_mouse_position: false,
            no_highlight: false,
            no_child: false,
            axis_equal: false,
            y_axis_2: false,
            y_axis_3: false,
            query: false,
            crosshairs: false,
            anti_aliased: false,
        }
    }

    /// No option set.
    #[verifier::when_used_as_spec(spec_none)]
    pub fn none() -> (flags: PlotFlags)
        ensures
            flags == PlotFlags::spec_none(),
    {
        PlotFlags {
            no_legend: false,
            no_menus: false,
            no_box_select: false,
            no_mouse_position: false,
            no_highlight: false,
            no_child: false,
            axis_equal: false,
            y_axis_2: false,
            y_axis_3: false,
            query: false,
            crosshairs: false,
            anti_aliased: false,
        }
    }

    /// Every option that is set in `self` or in `other`.
    pub fn union(self, other: PlotFlags) -> (flags: PlotFlags)
        ensures
            flags == (PlotFlags {
                no_legend: self.no_legend || other.no_legend,
                no_menus: self.no_menus || other.no_menus,
                no_box_select: self.no_box_select || other.no_box_select,
                no_mouse_position: self.no_mouse_position || other.no_mouse_position,
                no_highlight: self.no_highlight || other.no_highlight,
                no_child: self.no_child || other.no_child,
                axis_equal: self.axis_equal || other.axis_equal,
                y_axis_2: self.y_axis_2 || other.y_axis_2,
                y_axis_3: self.y_axis_3 || other.y_axis_3,
                query: self.query || other.query,
                crosshairs: self.crosshairs || other.crosshairs,
                anti_aliased: self.anti_aliased || other.anti_aliased,
            }),
    {
        PlotFlags {
            no_legend: self.no_legend || other.no_legend,
            no_menus: self.no_menus || other.no_menus,
            no_box_select: self.no_box_select || other.no_box_select,
            no_mouse_position: self.no_mouse_position || other.no_mouse_position,
            no_highlight: self.no_highlight || other.no_highlight,
            no_child: self.no_child || other.no_child,
            axis_equal: self.axis_equal || other.axis_equal,
            y_axis_2: self.y_axis_2 || other.y_axis_2,
            y_axis_3: self.y_axis_3 || other.y_axis_3,
            query: self.query || other.query,
            crosshairs: self.crosshairs || other.crosshairs,
            anti_aliased: self.anti_aliased || other.anti_aliased,
        }
    }
}

/// What a panel holds for one axis.
#[derive(Clone, Copy, Debug, PartialEq, Eq, Structural)]
pub struct AxisConfig {
    /// The forced limits, if any.
    pub limit: Option<AxisLimit>,
    /// Whether the limits come from a shared range.
    pub linked: bool,
    pub flags: AxisFlags,
}

impl AxisConfig {
    /// An axis left to the backend, or held to `range` under `persistence`.
    pub open spec fn spec_with_range(range: Option<AxisRange>, persistence: Persistence) -> AxisConfig {
        AxisConfig {
            limit: match range {
                Some(range) => Some(AxisLimit { range, persistence }),
                None => None,
            },
            linked: false,
            flags: AxisFlags::spec_none(),
        }
    }

    /// An axis left to the backend, or held to `range` under `persistence`.
    #[verifier::when_used_as_spec(spec_with_range)]
    pub fn with_range(range: Option<AxisRange>, persistence: Persistence) -> (config: AxisConfig)
        ensures
            config == AxisConfig::spec_with_range(range, persistence),
    {
        AxisConfig {
            limit: match range {
                Some(range) => Some(AxisLimit { range, persistence }),
                None => None,
            },
            linked: false,
            flags: AxisFlags::none(),
        }
    }
}

/// One value for each of the four axes.
#[derive(Clone, Copy, Debug, PartialEq, Eq, Structural)]
pub struct AxisTable {
    pub x: AxisConfig,
    pub y1: AxisConfig,
    pub y2: AxisConfig,
    pub y3: AxisConfig,
}

impl AxisTable {
    /// The entry of `axis`.
    pub open spec fn spec_get(self, axis: AxisSelector) -> AxisConfig {
        match axis {
            AxisSelector::X => self.x,
            AxisSelector::Y1 => self.y1,
            AxisSelector::Y2 => self.y2,
            AxisSelector::Y3 => self.y3,
        }
    }

    /// The table with the entry of `axis` replaced by `config`.
    pub open spec fn spec_set(self, axis: AxisSelector, config: AxisConfig) -> AxisTable {
        match axis {
            AxisSelector::X => AxisTable { x: config, ..self },
            AxisSelector::Y1 => AxisTable { y1: config, ..self },
            AxisSelector::Y2 => AxisTable { y2: config, ..self },
            AxisSelector::Y3 => AxisTable { y3: config, ..self },
        }
    }

    /// The entry of `axis`.
    #[verifier::when_used_as_spec(spec_get)]
    pub fn get(self, axis: AxisSelector) -> (config: AxisConfig)
        ensures
            config == self.spec_get(axis),
    {
        match axis {
            AxisSelector::X => self.x,
            AxisSelector::Y1 => self.y1,
            AxisSelector::Y2 => self.y2,
            AxisSelector::Y3 => self.y3,
        }
    }

    /// The table with the entry of `axis` replaced by `config`.
    #[verifier::when_used_as_spec(spec_set)]
    pub fn set(self, axis: AxisSelector, config: AxisConfig) -> (table: AxisTable)
        ensures
            table == self.spec_set(axis, config),
    {
        match axis {
            AxisSelector::X => AxisTable { x: config, ..self },
            AxisSelector::Y1 => AxisTable { y1: config, ..self },
            AxisSelector::Y2 => AxisTable { y2: config, ..self },
            AxisSelector::Y3 => AxisTable { y3: config, ..self },
        }
    }
}

/// The ranges a panel is configured with: one per axis, each optional.
#[derive(Clone, Copy, Debug, PartialEq, Eq, Structural)]
pub struct AxisRanges {
    pub x: Option<AxisRange>,
    pub y1: Option<AxisRange>,
    pub y2: Option<AxisRange>,
    pub y3: Option<AxisRange>,
}

impl AxisRanges {
    /// The table that holds each axis to its range, where it has one, under
    /// `persistence`.
    pub open spec fn spec_table(self, persistence: Persistence) -> AxisTable {
        AxisTable {
            x: AxisConfig::spec_with_range(self.x, persistence),
            y1: AxisConfig::spec_with_range(self.y1, persistence),
            y2: AxisConfig::spec_with_range(self.y2, persistence),
            y3: AxisConfig::spec_with_range(self.y3, persistence),
        }
    }

    /// The table that holds each axis to its range, where it has one, under
    /// `persistence`.
    #[verifier::when_used_as_spec(spec_table)]
    pub fn table(self, persistence: Persistence) -> (table: AxisTable)
        ensures
            table == self.spec_table(persistence),
    {
        AxisTable {
            x: AxisConfig::with_range(self.x, persistence),
            y1: AxisConfig::with_range(self.y1, persistence),
            y2: AxisConfig::with_range(self.y2, persistence),
            y3: AxisConfig::with_range(self.y3, persistence),
        }
    }

    /// No axis held to a range.
    pub fn free() -> (ranges: AxisRanges)
        ensures
            ranges == (AxisRanges { x: None, y1: None, y2: None, y3: None }),
    {
        AxisRanges { x: None, y1: None, y2: None, y3: None }
    }
}

} // verus!
