//! The percentage state of one running operation.
use vstd::prelude::*;
use crate::layout::{closing, is_closing, is_meter, meter};
use crate::paint::Tone;

verus! {

/// Why a percentage could not be computed from a range and a value.
#[derive(Clone, Copy, Debug, PartialEq, Eq, Structural)]
pub enum RangeError {
    /// The range is empty: `max <= min`.
    EmptyRange,
    /// The value lies outside `min..=max`.
    OutOfRange,
}

/// The whole percentage that `value` reaches on the way from `min` to `max`,
/// rounded down.
pub open spec fn percent_of(min: nat, max: nat, value: nat) -> nat {
    ((value - min) * 100 / (max - min)) as nat
}

/// What `percentage` gives for a range and a value.
pub open spec fn percentage_spec(min: nat, max: nat, value: nat) -> Result<nat, RangeError> {
    if max <= min {
        Err(RangeError::EmptyRange)
    } else if value < min || max < value {
        Err(RangeError::OutOfRange)
    } else {
        Ok(percent_of(min, max, value))
    }
}

/// The percentage of `value` between `min` and `max`, rounded down.
pub fn percentage(min: usize, max: usize, value: usize) -> (r: Result<u8, RangeError>)
    ensures
        match (r, percentage_spec(min as nat, max as nat, value as nat)) {
            (Ok(p), Ok(q)) => p as nat == q,
            (Err(e), Err(f)) => e == f,
            _ => false,
        },
        r is Ok ==> r->Ok_0 <= 100,
{
    if max <= min {
        Err(RangeError::EmptyRange)
    } else if value < min || max < value {
        Err(RangeError::OutOfRange)
    } else {
        let part = (value - min) as u128;
        let span = (max - min) as u128;
        assert(part * 100 <= span * 100) by (nonlinear_arith)
            requires
                part <= span,
        ;
        let p = part * 100 / span;
        proof {
            vstd::arithmetic::div_mod::lemma_div_is_ordered(
                (part * 100) as int,
                (span * 100) as int,
                span as int,
            );
            vstd::arithmetic::div_mod::lemma_div_multiples_vanish(100, span as int);
        }
        Ok(p as u8)
    }
}

/// The state of one running operation: its fixed label, description and
/// padding, the current percentage, and the line last drawn for it.
pub struct Progress<'a> {
    action: &'a str,
    description: &'a str,
    padding: usize,
    value: u8,
    line: String,
}

impl<'a> Progress<'a> {
    /// The current percentage.
    pub closed spec fn percent(&self) -> nat {
        self.value as nat
    }

    /// The label of the operation.
    pub closed spec fn action(&self) -> Seq<char> {
        self.action@
    }

    /// The description shown while the operation runs.
    pub closed spec fn description(&self) -> Seq<char> {
        self.description@
    }

    /// The width of the column that holds the label.
    pub closed spec fn padding(&self) -> nat {
        self.padding as nat
    }

    /// The line last drawn; empty before the first one.
    pub closed spec fn shown(&self) -> Seq<char> {
        self.line@
    }

    /// The percentage is a valid one.
    pub open spec fn wf(&self) -> bool {
        self.percent() <= 100
    }

    /// `self` has the label, description and padding of `other`.
    pub open spec fn same_frame(&self, other: &Progress<'a>) -> bool {
        &&& self.action() == other.action()
        &&& self.description() == other.description()
        &&& self.padding() == other.padding()
    }

    /// The line last drawn shows the label in `tone`, the current percentage,
    /// and `text` aligned to the width of the description.
    pub open spec fn shows(&self, tone: Tone, text: Seq<char>) -> bool {
        is_meter(
            self.shown(),
            tone,
            self.action(),
            self.padding(),
            self.percent(),
            text,
            self.description().len(),
        )
    }

    /// The line last drawn is a closing line: the label in `tone`, the current
    /// percentage, `text` aligned to the width of the description, a newline.
    pub open spec fn closes(&self, tone: Tone, text: Seq<char>) -> bool {
        is_closing(
            self.shown(),
            tone,
            self.action(),
            self.padding(),
            self.percent(),
            text,
            self.description().len(),
        )
    }

    /// The line last drawn is the running line at the current percentage.
    pub open spec fn shows_running(&self) -> bool {
        self.shows(Tone::Pending, self.description())
    }

    /// `next` is what a successful setting of the percentage to `value` leaves
    /// behind from `self`: the same frame, `value` percent, the running line.
    pub open spec fn set_to(&self, value: nat, next: &Progress<'a>) -> bool {
        &&& next.same_frame(self)
        &&& next.percent() == value
        &&& next.shows_running()
    }

    /// A fresh state at 0 percent, with nothing drawn yet.
    pub fn new(action: &'a str, description: &'a str, padding: usize) -> (r: Progress<'a>)
        ensures
            r.action() == action@,
            r.description() == description@,
            r.padding() == padding as nat,
            r.percent() == 0,
            r.shown() == Seq::<char>::empty(),
            r.wf(),
    {
        Progress { action, description, padding, value: 0, line: String::new() }
    }

    /// The current percentage.
    pub fn value(&self) -> (r: u8)
        ensures
            r as nat == self.percent(),
    {
        self.value
    }

    /// The line last drawn.
    pub fn line(&self) -> (r: &str)
        ensures
            r@ == self.shown(),
    {
        self.line.as_str()
    }

    /// The line last drawn, taken out of the state.
    pub fn into_line(self) -> (r: String)
        ensures
            r@ == self.shown(),
    {
        self.line
    }

    /// Draws the running line at the current percentage.
    fn redraw(&mut self)
        ensures
            final(self).same_frame(old(self)),
            final(self).percent() == old(self).percent(),
            final(self).shows_running(),
    {
        let width = self.description.unicode_len();
        self.line = meter(Tone::Pending, self.action, self.padding, self.value, self.description, width);
    }

    /// Sets the percentage that `value` reaches on the way from `min` to `max`,
    /// and draws the running line. An empty range or a value outside it is
    /// refused, and the state is left as it was.
    pub fn set_from(&mut self, min: usize, max: usize, value: usize) -> (r: Result<(), RangeError>)
        ensures
            final(self).same_frame(old(self)),
            r is Ok <==> min < max && min <= value <= max,
            r == Err::<(), RangeError>(RangeError::EmptyRange) <==> max <= min,
            r == Err::<(), RangeError>(RangeError::OutOfRange) <==> min < max && (value < min || max < value),
            r is Ok ==> final(self).percent() == percent_of(min as nat, max as nat, value as nat)
                && final(self).shows_running() && final(self).wf(),
            r is Err ==> *final(self) == *old(self),
    {
        match percentage(min, max, value) {
            Ok(p) => {
                self.value = p;
                self.redraw();
                Ok(())
            },
            Err(e) => Err(e),
        }
    }

    /// Sets the percentage to `value` and draws the running line; a value
    /// above 100 is refused, and the state is left as it was.
    pub fn set(&mut self, value: usize) -> (r: Result<(), RangeError>)
        ensures
            final(self).same_frame(old(self)),
            r is Ok <==> value <= 100,
            r is Ok ==> old(self).set_to(value as nat, final(self)),
            r is Err ==> r == Err::<(), RangeError>(RangeError::OutOfRange) && *final(self) == *old(self),
    {
        let r = self.set_from(0, 100, value);
        assert(value * 100 / 100 == value) by (nonlinear_arith);
        r
    }

    /// Raises the percentage by `offset` and draws the running line; a result
    /// above 100 is refused, and the state is left as it was.
    pub fn increment(&mut self, offset: usize) -> (r: Result<(), RangeError>)
        ensures
            final(self).same_frame(old(self)),
            r is Ok <==> old(self).percent() + offset <= 100,
            r is Ok ==> old(self).set_to(old(self).percent() + offset as nat, final(self)),
            r is Err ==> r == Err::<(), RangeError>(RangeError::OutOfRange) && *final(self) == *old(self),
    {
        match (self.value as usize).checked_add(offset) {
            Some(target) => self.set(target),
            None => Err(RangeError::OutOfRange),
        }
    }

    /// Sets the percentage to 0 and draws the running line.
    pub fn initialize(&mut self)
        ensures
            final(self).same_frame(old(self)),
            final(self).percent() == 0,
            final(self).shows_running(),
            final(self).wf(),
    {
        let r = self.set_from(0, 100, 0);
        assert(r is Ok);
    }

    /// Completes the operation: the percentage becomes 100, and the closing
    /// line shows the label as a success with `result` in place of the
    /// description.
    pub fn ok(&mut self, result: &str)
        ensures
            final(self).same_frame(old(self)),
            final(self).percent() == 100,
            final(self).closes(Tone::Success, result@),
            final(self).wf(),
    {
        self.value = 100;
        let width = self.description.unicode_len();
        self.line = closing(Tone::Success, self.action, self.padding, self.value, result, width);
    }

    /// Fails the operation: the percentage stays where it was, and the closing
    /// line shows the label as a failure with `error` in place of the
    /// description.
    pub fn err(&mut self, error: &str)
        ensures
            final(self).same_frame(old(self)),
            final(self).percent() == old(self).percent(),
            final(self).closes(Tone::Failure, error@),
    {
        let width = self.description.unicode_len();
        self.line = closing(Tone::Failure, self.action, self.padding, self.value, error, width);
    }
}

/// Raising the percentage by `offset` after setting it to `value` ends in the
/// state that setting it to `value + offset` directly ends in.
pub proof fn lemma_increment_after_set<'a>(
    start: Progress<'a>,
    after_set: Progress<'a>,
    after_increment: Progress<'a>,
    direct: Progress<'a>,
    value: nat,
    offset: nat,
)
    requires
        value + offset <= 100,
        start.set_to(value, &after_set),
        after_set.set_to(after_set.percent() + offset, &after_increment),
        start.set_to(value + offset, &direct),
    ensures
        after_increment.same_frame(&direct),
        after_increment.percent() == direct.percent(),
        after_increment.shows_running(),
        direct.shows_running(),
{
}

} // verus!
