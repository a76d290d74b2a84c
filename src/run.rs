//! Running an operation under a progress line, and settling its outcome.
use vstd::prelude::*;
use vstd::string::to_string_from_display_ensures;
use crate::layout::is_closing;
use crate::paint::Tone;
use crate::progress::Progress;

verus! {

/// The padding of the label column when none is given.
pub const DEFAULT_PADDING: usize = 12;

/// The value handed back for an outcome: the first component of a success,
/// or the error itself.
pub open spec fn forwarded<R, D, E>(outcome: Result<(R, D), E>) -> Result<R, E> {
    match outcome {
        Ok((value, _)) => Ok(value),
        Err(error) => Err(error),
    }
}

/// `text` is how `value` displays.
pub open spec fn displays<T: std::fmt::Display>(value: T, text: Seq<char>) -> bool {
    exists|s: String| to_string_from_display_ensures::<T>(&value, s) && s@ == text
}

impl<'a> Progress<'a> {
    /// Settles the outcome of the operation: a success completes the progress
    /// and shows its display value, a failure keeps the percentage and shows
    /// the error. Returns the success value, or the error unchanged.
    pub fn conclude<R, D: std::fmt::Display, E: std::fmt::Display>(
        &mut self,
        outcome: Result<(R, D), E>,
    ) -> (r: Result<R, E>)
        ensures
            r == forwarded(outcome),
            final(self).same_frame(old(self)),
            outcome is Ok ==> final(self).percent() == 100 && exists|text: Seq<char>|
                displays(outcome->Ok_0.1, text) && final(self).closes(Tone::Success, text),
            outcome is Err ==> final(self).percent() == old(self).percent() && exists|text: Seq<char>|
                displays(outcome->Err_0, text) && final(self).closes(Tone::Failure, text),
    {
        match outcome {
            Ok((value, shown)) => {
                let text = shown.to_string();
                self.ok(text.as_str());
                Ok(value)
            },
            Err(error) => {
                let text = error.to_string();
                self.err(text.as_str());
                Err(error)
            },
        }
    }
}

/// Runs `function` on `progress`: draws the running line at 0 percent, hands
/// the state to `function`, then settles what it returned. The state that
/// `function` left behind is completed on a success and kept, percentage
/// included, on a failure.
pub fn run<'a, F, R, D, E>(progress: &mut Progress<'a>, function: F) -> (r: Result<R, E>)
    where
        F: FnOnce(&mut Progress<'a>) -> Result<(R, D), E>,
        D: std::fmt::Display,
        E: std::fmt::Display,
    requires
        forall|p: &mut Progress<'a>| #[trigger] function.requires((p,)),
    ensures
        exists|p: &mut Progress<'a>, outcome: Result<(R, D), E>|
            {
                &&& function.ensures((p,), outcome)
                &&& p.same_frame(old(progress))
                &&& p.percent() == 0
                &&& p.shows_running()
                &&& r == forwarded(outcome)
                &&& final(progress).same_frame(final(p))
                &&& outcome is Ok ==> final(progress).percent() == 100 && exists|text: Seq<char>|
                    displays(outcome->Ok_0.1, text) && final(progress).closes(Tone::Success, text)
                &&& outcome is Err ==> final(progress).percent() == final(p).percent()
                    && exists|text: Seq<char>|
                    displays(outcome->Err_0, text) && final(progress).closes(Tone::Failure, text)
            },
{
    progress.initialize();
    let outcome = function(progress);
    progress.conclude(outcome)
}

/// Runs `function` under a progress line labelled `action` in a column of
/// `padding` characters, with `description` shown while it runs. `function`
/// gets the state with the 0 percent line drawn. Returns the success value of
/// `function`, or its error unchanged, and the one closing line drawn after
/// `function` returned: a success at 100 percent with the display value, or a
/// failure at the percentage `function` left, with the error.
pub fn proceed_padded<F, R, D, E>(action: &str, description: &str, function: F, padding: usize) -> (r:
    (Result<R, E>, String))
    where
        F: FnOnce(&mut Progress) -> Result<(R, D), E>,
        D: std::fmt::Display,
        E: std::fmt::Display,
    requires
        forall|p: &mut Progress| #[trigger] function.requires((p,)),
    ensures
        exists|p: &mut Progress, outcome: Result<(R, D), E>|
            {
                &&& function.ensures((p,), outcome)
                &&& p.action() == action@
                &&& p.description() == description@
                &&& p.padding() == padding as nat
                &&& p.percent() == 0
                &&& p.shows_running()
                &&& r.0 == forwarded(outcome)
                &&& outcome is Ok ==> exists|text: Seq<char>|
                    displays(outcome->Ok_0.1, text) && is_closing(
                        r.1@,
                        Tone::Success,
                        final(p).action(),
                        final(p).padding(),
                        100,
                        text,
                        final(p).description().len(),
                    )
                &&& outcome is Err ==> exists|text: Seq<char>|
                    displays(outcome->Err_0, text) && is_closing(
                        r.1@,
                        Tone::Failure,
                        final(p).action(),
                        final(p).padding(),
                        final(p).percent(),
                        text,
                        final(p).description().len(),
                    )
            },
{
    let mut progress = Progress::new(action, description, padding);
    let result = run(&mut progress, function);
    (result, progress.into_line())
}

/// Runs `function` under a progress line as `proceed_padded` does, with the
/// label in a column of the default width.
pub fn proceed<F, R, D, E>(action: &str, description: &str, function: F) -> (r: (Result<R, E>, String))
    where
        F: FnOnce(&mut Progress) -> Result<(R, D), E>,
        D: std::fmt::Display,
        E: std::fmt::Display,
    requires
        forall|p: &mut Progress| #[trigger] function.requires((p,)),
    ensures
        exists|p: &mut Progress, outcome: Result<(R, D), E>|
            {
                &&& function.ensures((p,), outcome)
                &&& p.action() == action@
                &&& p.description() == description@
                &&& p.padding() == DEFAULT_PADDING as nat
                &&& p.percent() == 0
                &&& p.shows_running()
                &&& r.0 == forwarded(outcome)
                &&& outcome is Ok ==> exists|text: Seq<char>|
                    displays(outcome->Ok_0.1, text) && is_closing(
                        r.1@,
                        Tone::Success,
                        final(p).action(),
                        final(p).padding(),
                        100,
                        text,
                        final(p).description().len(),
                    )
                &&& outcome is Err ==> exists|text: Seq<char>|
                    displays(outcome->Err_0, text) && is_closing(
                        r.1@,
                        Tone::Failure,
                        final(p).action(),
                        final(p).padding(),
                        final(p).percent(),
                        text,
                        final(p).description().len(),
                    )
            },
{
    proceed_padded(action, description, function, DEFAULT_PADDING)
}

} // verus!
