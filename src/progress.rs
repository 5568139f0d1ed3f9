use vstd::prelude::*;

verus! {

/// What a task reports at one point in time.
#[derive(Clone, Debug, PartialEq, Eq)]
pub enum Progress<P, D, E> {
    /// An intermediate report; more will follow.
    Current(P),
    /// The work finished successfully.
    Completed(D),
    /// The work failed.
    Error(E),
    /// The work stopped because cancellation was requested and honoured.
    Canceled,
}

impl<P, D, E> Progress<P, D, E> {
    /// A terminal report ends the task: nothing is reported after it.
    pub open spec fn spec_is_terminal(&self) -> bool {
        !(self is Current)
    }

    #[verifier::when_used_as_spec(spec_is_terminal)]
    pub fn is_terminal(&self) -> (r: bool)
        ensures
            r == self.spec_is_terminal(),
    {
        match self {
            Progress::Current(_) => false,
            _ => true,
        }
    }
}

/// Turns what came back from a payload into the value that ends its task.
///
/// `returned` is `None` when the payload failed before it could return (it
/// panicked), and a payload that returned a non-terminal value has not finished
/// either: both become `Error(failure)`, so the task always ends with a terminal
/// value and nobody waits for one that cannot come.
pub fn conclude<P, D, E>(returned: Option<Progress<P, D, E>>, failure: E) -> (r: Progress<P, D, E>)
    ensures
        r.is_terminal(),
        match returned {
            Some(p) => if p.is_terminal() { r == p } else { r == Progress::<P, D, E>::Error(failure) },
            None => r == Progress::<P, D, E>::Error(failure),
        },
{
    match returned {
        Some(p) => {
            if p.is_terminal() {
                p
            } else {
                Progress::Error(failure)
            }
        },
        None => Progress::Error(failure),
    }
}

} // verus!
