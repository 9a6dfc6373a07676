use vstd::prelude::*;
use crate::error::PlotError;

verus! {

/// A visual attribute that an override can change.
#[derive(Clone, Copy, Debug, PartialEq, Eq, Structural)]
pub enum StyleAttribute {
    PlotBackground,
    LineColor,
    FillColor,
    Marker,
    MarkerSize,
    LineWeight,
}

/// The value an attribute is overridden with. Colour channels and scalars are
/// IEEE 754 singles carried as their 32 bits.
#[derive(Clone, Copy, Debug, PartialEq, Eq, Structural)]
pub enum StyleValue {
    Color { red: u32, green: u32, blue: u32, alpha: u32 },
    Integer(i32),
    Scalar(u32),
}

/// One override in force.
#[derive(Clone, Copy, Debug, PartialEq, Eq, Structural)]
pub struct StyleEntry {
    pub attribute: StyleAttribute,
    pub value: StyleValue,
    /// The number of the push that put it in force, counted per stack from
    /// zero. A later push has a greater number, whatever was released between.
    pub serial: u64,
}

/// Whether `attribute` takes a value of the kind of `value`: the three
/// colours take a colour, the three variables take a number.
pub open spec fn fits(attribute: StyleAttribute, value: StyleValue) -> bool {
    match value {
        StyleValue::Color { .. } => attribute == StyleAttribute::PlotBackground || attribute
            == StyleAttribute::LineColor || attribute == StyleAttribute::FillColor,
        StyleValue::Integer(_) | StyleValue::Scalar(_) => attribute == StyleAttribute::Marker
            || attribute == StyleAttribute::MarkerSize || attribute == StyleAttribute::LineWeight,
    }
}

/// Whether `attribute` takes a value of the kind of `value`.
pub fn accepts(attribute: StyleAttribute, value: StyleValue) -> (ok: bool)
    ensures
        ok == fits(attribute, value),
{
    let colour = match attribute {
        StyleAttribute::PlotBackground | StyleAttribute::LineColor | StyleAttribute::FillColor => true,
        StyleAttribute::Marker | StyleAttribute::MarkerSize | StyleAttribute::LineWeight => false,
    };
    match value {
        StyleValue::Color { .. } => colour,
        StyleValue::Integer(_) | StyleValue::Scalar(_) => !colour,
    }
}

/// Whether the serials grow from the bottom of the stack to its top and all
/// lie below `next`, the serial of the next push.
pub open spec fn serials_ordered(stack: Seq<StyleEntry>, next: u64) -> bool {
    &&& forall|i: int, j: int|
        0 <= i < j < stack.len() ==> (#[trigger] stack[i]).serial < (#[trigger] stack[j]).serial
    &&& forall|i: int| 0 <= i < stack.len() ==> (#[trigger] stack[i]).serial < next
}

/// Whether some override on the stack was pushed at serial `mark` or later.
pub open spec fn pushed_since(stack: Seq<StyleEntry>, mark: u64) -> bool {
    exists|i: int| 0 <= i < stack.len() && (#[trigger] stack[i]).serial >= mark
}

/// The value in force for `attribute`: that of the latest override of it that
/// is still on the stack, or `None` where the backend's default applies.
pub open spec fn effective_value(stack: Seq<StyleEntry>, attribute: StyleAttribute) -> Option<
    StyleValue,
>
    decreases stack.len(),
{
    if stack.len() == 0 {
        None
    } else if stack.last().attribute == attribute {
        Some(stack.last().value)
    } else {
        effective_value(stack.drop_last(), attribute)
    }
}

/// The stack after releasing the override that was pushed at `depth`, or
/// `None` where that override is not the latest one in force.
pub open spec fn released(stack: Seq<StyleEntry>, depth: nat) -> Option<Seq<StyleEntry>> {
    if depth == stack.len() && depth > 0 {
        Some(stack.drop_last())
    } else {
        None
    }
}

/// The overrides in force, oldest first.
pub struct StyleStack {
    entries: Vec<StyleEntry>,
    next_serial: u64,
}

/// The right to release one override. It is handed out by `push` and used up
/// by `release`.
#[derive(Debug)]
pub struct StyleHandle {
    depth: usize,
}

impl StyleHandle {
    /// The height of the stack right after the override was pushed.
    pub closed spec fn depth(&self) -> nat {
        self.depth as nat
    }
}

impl View for StyleStack {
    type V = Seq<StyleEntry>;

    closed spec fn view(&self) -> Seq<StyleEntry> {
        self.entries@
    }
}

impl StyleStack {
    /// The serial that the next push gets: how many pushes the stack has seen.
    pub closed spec fn next_serial(&self) -> u64 {
        self.next_serial
    }

    /// Whether the serials on the stack are in the order of the pushes. Every
    /// stack made by `new`, `push` and `release` is so.
    pub open spec fn well_formed(&self) -> bool {
        serials_ordered(self@, self.next_serial())
    }

    /// A stack with no override in force, that has seen no push.
    pub fn new() -> (stack: StyleStack)
        ensures
            stack@ == Seq::<StyleEntry>::empty(),
            stack.next_serial() == 0,
            stack.well_formed(),
    {
        StyleStack { entries: Vec::new(), next_serial: 0 }
    }

    /// The serial that the next push gets. An override is on the stack since
    /// this moment exactly if its serial is this one or a later one.
    pub fn mark(&self) -> (mark: u64)
        ensures
            mark == self.next_serial(),
    {
        self.next_serial
    }

    /// Whether some override in force was pushed at serial `mark` or later.
    pub fn holds_override_since(&self, mark: u64) -> (held: bool)
        ensures
            held == pushed_since(self@, mark),
    {
        let mut i: usize = self.entries.len();
        while i > 0
            invariant
                i <= self.entries@.len(),
                forall|j: int| i <= j < self.entries@.len() ==> (#[trigger] self.entries@[j]).serial < mark,
            decreases i,
        {
            i = i - 1;
            if self.entries[i].serial >= mark {
                return true;
            }
        }
        false
    }

    /// How many overrides are in force.
    pub fn depth(&self) -> (depth: usize)
        ensures
            depth == self@.len(),
    {
        self.entries.len()
    }

    /// Puts an override in force and hands out the right to release it. The
    /// count of pushes has to fit its 64 bits.
    pub fn push(&mut self, attribute: StyleAttribute, value: StyleValue) -> (handle: StyleHandle)
        requires
            old(self).next_serial() < u64::MAX,
        ensures
            final(self)@ == old(self)@.push(
                StyleEntry { attribute, value, serial: old(self).next_serial() },
            ),
            final(self).next_serial() == old(self).next_serial() + 1,
            handle.depth() == old(self)@.len() + 1,
            old(self).well_formed() ==> final(self).well_formed(),
    {
        let serial = self.next_serial;
        self.next_serial = serial + 1;
        self.entries.push(StyleEntry { attribute, value, serial });
        StyleHandle { depth: self.entries.len() }
    }

    /// Puts an override in force where the attribute takes a value of that
    /// kind and the count of pushes still fits; otherwise the stack stays as
    /// it is and no handle is handed out.
    pub fn try_push(&mut self, attribute: StyleAttribute, value: StyleValue) -> (handle: Option<
        StyleHandle,
    >)
        ensures
            match handle {
                Some(pushed) => fits(attribute, value) && old(self).next_serial() < u64::MAX
                    && final(self)@ == old(self)@.push(
                        StyleEntry { attribute, value, serial: old(self).next_serial() },
                    )
                    && final(self).next_serial() == old(self).next_serial() + 1
                    && pushed.depth() == old(self)@.len() + 1,
                None => !(fits(attribute, value) && old(self).next_serial() < u64::MAX)
                    && final(self)@ == old(self)@
                    && final(self).next_serial() == old(self).next_serial(),
            },
            old(self).well_formed() ==> final(self).well_formed(),
    {
        if accepts(attribute, value) && self.next_serial < u64::MAX {
            Some(self.push(attribute, value))
        } else {
            None
        }
    }

    /// Releases the override that `handle` stands for. Only the latest
    /// override in force can be released; any other leaves the stack as it is.
    pub fn release(&mut self, handle: StyleHandle) -> (result: Result<(), PlotError>)
        ensures
            match released(old(self)@, handle.depth()) {
                Some(rest) => result == Ok::<(), PlotError>(()) && final(self)@ == rest,
                None => result == Err::<(), PlotError>(PlotError::OutOfOrderRelease)
                    && final(self)@ == old(self)@,
            },
            final(self).next_serial() == old(self).next_serial(),
            old(self).well_formed() ==> final(self).well_formed(),
    {
        if handle.depth == self.entries.len() && handle.depth > 0 {
            self.entries.pop();
            Ok(())
        } else {
            Err(PlotError::OutOfOrderRelease)
        }
    }

    /// The value in force for `attribute`, if any override of it is.
    pub fn current(&self, attribute: StyleAttribute) -> (value: Option<StyleValue>)
        ensures
            value == effective_value(self@, attribute),
    {
        let mut i: usize = self.entries.len();
        assert(self.entries@.subrange(0, i as int) =~= self.entries@);
        while i > 0
            invariant
                i <= self.entries@.len(),
                effective_value(self.entries@, attribute) == effective_value(
                    self.entries@.subrange(0, i as int),
                    attribute,
                ),
            decreases i,
        {
            let entry = self.entries[i - 1];
            assert(self.entries@.subrange(0, i as int).last() == entry);
            assert(self.entries@.subrange(0, i as int).drop_last() =~= self.entries@.subrange(
                0,
                i - 1,
            ));
            if entry.attribute == attribute {
                return Some(entry.value);
            }
            i = i - 1;
        }
        None
    }
}

/// Two overrides pushed and then released latest first leave the stack, and
/// with it the value in force for every attribute, exactly as before.
pub proof fn lemma_release_in_order_restores(
    stack: Seq<StyleEntry>,
    first: StyleEntry,
    second: StyleEntry,
    attribute: StyleAttribute,
)
    ensures
        released(stack.push(first).push(second), stack.len() + 2) == Some(stack.push(first)),
        released(stack.push(first), stack.len() + 1) == Some(stack),
        effective_value(
            released(
                released(stack.push(first).push(second), stack.len() + 2).unwrap(),
                stack.len() + 1,
            ).unwrap(),
            attribute,
        ) == effective_value(stack, attribute),
{
    assert(stack.push(first).push(second).drop_last() =~= stack.push(first));
    assert(stack.push(first).drop_last() =~= stack);
}

/// With two overrides in force, releasing the earlier one first is refused.
pub proof fn lemma_release_out_of_order_refused(
    stack: Seq<StyleEntry>,
    first: StyleEntry,
    second: StyleEntry,
)
    ensures
        released(stack.push(first).push(second), stack.len() + 1) is None,
{
}

/// On a stack whose serials are in order, the topmost override tells
/// whether any override was pushed since `mark`.
pub proof fn lemma_top_tells_pushed_since(stack: Seq<StyleEntry>, next: u64, mark: u64)
    requires
        serials_ordered(stack, next),
    ensures
        pushed_since(stack, mark) == (stack.len() > 0 && stack.last().serial >= mark),
{
    if stack.len() > 0 && stack.last().serial >= mark {
        assert(stack[stack.len() - 1].serial >= mark);
    }
}

/// What was in force when the mark was taken is never counted as pushed
/// since, however much of it was released meanwhile; what is pushed from
/// then on is counted for as long as it stays on the stack.
pub proof fn lemma_mark_parts_old_from_new(
    stack: Seq<StyleEntry>,
    next: u64,
    kept: int,
    entry: StyleEntry,
)
    requires
        serials_ordered(stack, next),
        0 <= kept <= stack.len(),
        entry.serial >= next,
    ensures
        !pushed_since(stack.take(kept), next),
        pushed_since(stack.take(kept).push(entry), next),
{
    let after = stack.take(kept).push(entry);
    assert(after[kept].serial >= next);
}

/// An override governs its attribute from the push until its release, and
/// leaves every other attribute as it was.
pub proof fn lemma_push_governs_attribute(
    stack: Seq<StyleEntry>,
    entry: StyleEntry,
    attribute: StyleAttribute,
)
    ensures
        effective_value(stack.push(entry), attribute) == if entry.attribute == attribute {
            Some(entry.value)
        } else {
            effective_value(stack, attribute)
        },
{
    assert(stack.push(entry).drop_last() =~= stack);
}

} // verus!
