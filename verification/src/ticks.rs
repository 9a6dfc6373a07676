use vstd::prelude::*;
use crate::axis::AxisSelector;

verus! {

/// One tick that replaces the backend's own: where it stands on the axis,
/// and the text beside it, if it has one.
#[derive(Debug)]
pub struct TickMark {
    pub position: u64,
    pub label: Option<String>,
}

/// What a tick holds, as plain values.
pub struct TickMarkView {
    pub position: u64,
    pub label: Option<Seq<char>>,
}

impl View for TickMark {
    type V = TickMarkView;

    open spec fn view(&self) -> TickMarkView {
        TickMarkView {
            position: self.position,
            label: match self.label {
                Some(text) => Some(text@),
                None => None,
            },
        }
    }
}

/// The ticks of one axis.
#[derive(Debug)]
pub struct TickSet {
    pub marks: Vec<TickMark>,
    /// Whether the backend's own ticks are drawn as well.
    pub show_default: bool,
}

/// What a tick set holds, as plain values.
pub struct TickSetView {
    pub marks: Seq<TickMarkView>,
    pub show_default: bool,
}

/// The list of what each tick holds.
pub open spec fn mark_views(marks: Seq<TickMark>) -> Seq<TickMarkView> {
    Seq::new(marks.len(), |i: int| marks[i]@)
}

/// The positions of the ticks, in order.
pub open spec fn positions_of(marks: Seq<TickMarkView>) -> Seq<u64> {
    Seq::new(marks.len(), |i: int| marks[i].position)
}

/// The texts of the ticks, in order; a tick without one gives the empty text.
pub open spec fn texts_of(marks: Seq<TickMarkView>) -> Seq<Seq<char>> {
    Seq::new(
        marks.len(),
        |i: int|
            match marks[i].label {
                Some(text) => text,
                None => Seq::<char>::empty(),
            },
    )
}

/// The list of what each text holds.
pub open spec fn text_views(texts: Seq<String>) -> Seq<Seq<char>> {
    Seq::new(texts.len(), |i: int| texts[i]@)
}

/// Whether some tick of the list has a text.
pub open spec fn any_labelled(marks: Seq<TickMarkView>) -> bool {
    exists|i: int| 0 <= i < marks.len() && (#[trigger] marks[i]).label is Some
}

impl View for TickSet {
    type V = TickSetView;

    open spec fn view(&self) -> TickSetView {
        TickSetView { marks: mark_views(self.marks@), show_default: self.show_default }
    }
}

impl TickSet {
    /// Whether some tick has a text, so that the set is drawn with texts.
    pub fn is_labelled(&self) -> (labelled: bool)
        ensures
            labelled == any_labelled(self@.marks),
    {
        let mut i: usize = 0;
        while i < self.marks.len()
            invariant
                i <= self.marks@.len(),
                forall|j: int| 0 <= j < i ==> (#[trigger] mark_views(self.marks@)[j]).label is None,
            decreases self.marks@.len() - i,
        {
            if self.marks[i].label.is_some() {
                assert(mark_views(self.marks@)[i as int].label is Some);
                return true;
            }
            i = i + 1;
        }
        false
    }

    /// The positions of the ticks, in order.
    pub fn positions(&self) -> (positions: Vec<u64>)
        ensures
            positions@ == positions_of(self@.marks),
    {
        let mut positions: Vec<u64> = Vec::new();
        let mut i: usize = 0;
        while i < self.marks.len()
            invariant
                i <= self.marks@.len(),
                positions@.len() == i,
                forall|j: int| 0 <= j < i ==> positions@[j] == self.marks@[j].position,
            decreases self.marks@.len() - i,
        {
            positions.push(self.marks[i].position);
            i = i + 1;
        }
        assert(positions@ =~= positions_of(self@.marks));
        positions
    }

    /// The texts of the ticks, in order; a tick without one gives the empty
    /// text.
    pub fn texts(&self) -> (texts: Vec<String>)
        ensures
            text_views(texts@) == texts_of(self@.marks),
    {
        let mut texts: Vec<String> = Vec::new();
        let mut i: usize = 0;
        while i < self.marks.len()
            invariant
                i <= self.marks@.len(),
                texts@.len() == i,
                forall|j: int| 0 <= j < i ==> (#[trigger] texts@[j])@ == texts_of(self@.marks)[j],
            decreases self.marks@.len() - i,
        {
            let text = match &self.marks[i].label {
                Some(text) => text.clone(),
                None => String::new(),
            };
            texts.push(text);
            i = i + 1;
        }
        assert(text_views(texts@) =~= texts_of(self@.marks));
        texts
    }
}

/// The view of a tick set that may be absent.
pub open spec fn optional_view(ticks: Option<TickSet>) -> Option<TickSetView> {
    match ticks {
        Some(set) => Some(set@),
        None => None,
    }
}

/// The tick sets of a panel: one per axis, each optional.
#[derive(Debug)]
pub struct TickTable {
    pub x: Option<TickSet>,
    pub y1: Option<TickSet>,
    pub y2: Option<TickSet>,
    pub y3: Option<TickSet>,
}

/// What a tick table holds, as plain values.
pub struct TickTableView {
    pub x: Option<TickSetView>,
    pub y1: Option<TickSetView>,
    pub y2: Option<TickSetView>,
    pub y3: Option<TickSetView>,
}

impl TickTableView {
    /// No axis with ticks of its own.
    pub open spec fn empty() -> TickTableView {
        TickTableView { x: None, y1: None, y2: None, y3: None }
    }

    /// The entry of `axis`.
    pub open spec fn get(self, axis: AxisSelector) -> Option<TickSetView> {
        match axis {
            AxisSelector::X => self.x,
            AxisSelector::Y1 => self.y1,
            AxisSelector::Y2 => self.y2,
            AxisSelector::Y3 => self.y3,
        }
    }

    /// The table with the entry of `axis` replaced by `ticks`.
    pub open spec fn set(self, axis: AxisSelector, ticks: Option<TickSetView>) -> TickTableView {
        match axis {
            AxisSelector::X => TickTableView { x: ticks, ..self },
            AxisSelector::Y1 => TickTableView { y1: ticks, ..self },
            AxisSelector::Y2 => TickTableView { y2: ticks, ..self },
            AxisSelector::Y3 => TickTableView { y3: ticks, ..self },
        }
    }
}

impl View for TickTable {
    type V = TickTableView;

    open spec fn view(&self) -> TickTableView {
        TickTableView {
            x: optional_view(self.x),
            y1: optional_view(self.y1),
            y2: optional_view(self.y2),
            y3: optional_view(self.y3),
        }
    }
}

impl TickTable {
    /// No axis with ticks of its own.
    pub fn empty() -> (table: TickTable)
        ensures
            table@ == TickTableView::empty(),
    {
        TickTable { x: None, y1: None, y2: None, y3: None }
    }

    /// The ticks of `axis`, if it has its own.
    pub fn get(&self, axis: AxisSelector) -> (ticks: Option<&TickSet>)
        ensures
            match ticks {
                Some(set) => self@.get(axis) == Some(set@),
                None => self@.get(axis) is None,
            },
    {
        match axis {
            AxisSelector::X => self.x.as_ref(),
            AxisSelector::Y1 => self.y1.as_ref(),
            AxisSelector::Y2 => self.y2.as_ref(),
            AxisSelector::Y3 => self.y3.as_ref(),
        }
    }

    /// Replaces the ticks of `axis`.
    pub fn set(&mut self, axis: AxisSelector, ticks: Option<TickSet>)
        ensures
            final(self)@ == old(self)@.set(axis, optional_view(ticks)),
    {
        match axis {
            AxisSelector::X => {
                self.x = ticks;
            },
            AxisSelector::Y1 => {
                self.y1 = ticks;
            },
            AxisSelector::Y2 => {
                self.y2 = ticks;
            },
            AxisSelector::Y3 => {
                self.y3 = ticks;
            },
        }
    }
}

} // verus!
