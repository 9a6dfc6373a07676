use vstd::prelude::*;
use crate::error::PlotError;

verus! {

/// A point of the plane. In data space each coordinate holds the 64 bits of
/// a double; on the screen, in pixels, it holds the 32 bits of a single.
#[derive(Clone, Copy, Debug, PartialEq, Eq, Structural)]
pub struct Point {
    pub x: u64,
    pub y: u64,
}

/// One named line: its legend label and its samples in drawing order.
#[derive(Debug)]
pub struct Series {
    pub label: String,
    pub points: Vec<Point>,
}

/// What a series holds, as plain sequences.
pub struct SeriesView {
    pub label: Seq<char>,
    pub points: Seq<Point>,
}

impl View for Series {
    type V = SeriesView;

    open spec fn view(&self) -> SeriesView {
        SeriesView { label: self.label@, points: self.points@ }
    }
}

/// The samples made of the i-th abscissa and the i-th ordinate, for each i.
pub open spec fn paired(xs: Seq<u64>, ys: Seq<u64>) -> Seq<Point>
    recommends
        xs.len() == ys.len(),
{
    Seq::new(xs.len(), |i: int| Point { x: xs[i], y: ys[i] })
}

/// The abscissas of the samples, in order.
pub open spec fn abscissas(points: Seq<Point>) -> Seq<u64> {
    Seq::new(points.len(), |i: int| points[i].x)
}

/// The ordinates of the samples, in order.
pub open spec fn ordinates(points: Seq<Point>) -> Seq<u64> {
    Seq::new(points.len(), |i: int| points[i].y)
}

/// The list of what each series holds.
pub open spec fn series_views(series: Seq<Series>) -> Seq<SeriesView> {
    Seq::new(series.len(), |i: int| series[i]@)
}

/// Whether some series of the list carries `label`.
pub open spec fn has_label(series: Seq<SeriesView>, label: Seq<char>) -> bool {
    exists|i: int| 0 <= i < series.len() && (#[trigger] series[i]).label == label
}

/// Pairs two coordinate lists into samples, or refuses lists of different
/// lengths.
pub fn pair_samples(xs: &[u64], ys: &[u64]) -> (result: Result<Vec<Point>, PlotError>)
    ensures
        match result {
            Ok(points) => xs@.len() == ys@.len() && points@ == paired(xs@, ys@),
            Err(error) => xs@.len() != ys@.len() && error == PlotError::DataLengthMismatch,
        },
{
    if xs.len() != ys.len() {
        return Err(PlotError::DataLengthMismatch);
    }
    let mut points: Vec<Point> = Vec::new();
    let mut i: usize = 0;
    while i < xs.len()
        invariant
            xs@.len() == ys@.len(),
            i <= xs@.len(),
            points@ == paired(xs@.subrange(0, i as int), ys@.subrange(0, i as int)),
        decreases xs@.len() - i,
    {
        points.push(Point { x: xs[i], y: ys[i] });
        i = i + 1;
        assert(points@ =~= paired(xs@.subrange(0, i as int), ys@.subrange(0, i as int)));
    }
    assert(xs@.subrange(0, i as int) =~= xs@);
    assert(ys@.subrange(0, i as int) =~= ys@);
    Ok(points)
}

/// Looks for a series that carries `label`.
pub fn contains_label(series: &Vec<Series>, label: &String) -> (found: bool)
    ensures
        found == has_label(series_views(series@), label@),
{
    let mut i: usize = 0;
    while i < series.len()
        invariant
            i <= series@.len(),
            forall|j: int| 0 <= j < i ==> (#[trigger] series_views(series@)[j]).label != label@,
        decreases series@.len() - i,
    {
        if series[i].label == *label {
            assert(series_views(series@)[i as int].label == label@);
            return true;
        }
        i = i + 1;
    }
    false
}

impl Series {
    /// The abscissas of the series, as they were submitted.
    pub fn xs(&self) -> (xs: Vec<u64>)
        ensures
            xs@ == abscissas(self@.points),
    {
        let mut xs: Vec<u64> = Vec::new();
        let mut i: usize = 0;
        while i < self.points.len()
            invariant
                i <= self.points@.len(),
                xs@ == abscissas(self.points@.subrange(0, i as int)),
            decreases self.points@.len() - i,
        {
            xs.push(self.points[i].x);
            i = i + 1;
            assert(xs@ =~= abscissas(self.points@.subrange(0, i as int)));
        }
        assert(self.points@.subrange(0, i as int) =~= self.points@);
        xs
    }

    /// The ordinates of the series, as they were submitted.
    pub fn ys(&self) -> (ys: Vec<u64>)
        ensures
            ys@ == ordinates(self@.points),
    {
        let mut ys: Vec<u64> = Vec::new();
        let mut i: usize = 0;
        while i < self.points.len()
            invariant
                i <= self.points@.len(),
                ys@ == ordinates(self.points@.subrange(0, i as int)),
            decreases self.points@.len() - i,
        {
            ys.push(self.points[i].y);
            i = i + 1;
            assert(ys@ =~= ordinates(self.points@.subrange(0, i as int)));
        }
        assert(self.points@.subrange(0, i as int) =~= self.points@);
        ys
    }
}

/// Coordinate lists of one length come back from their samples unchanged.
pub proof fn lemma_pairing_round_trip(xs: Seq<u64>, ys: Seq<u64>)
    requires
        xs.len() == ys.len(),
    ensures
        abscissas(paired(xs, ys)) == xs,
        ordinates(paired(xs, ys)) == ys,
{
    assert(abscissas(paired(xs, ys)) =~= xs);
    assert(ordinates(paired(xs, ys)) =~= ys);
}

} // verus!
