use vstd::prelude::*;

verus! {

/// Why a spend is rejected. Every kind is final: nothing is retried.
#[derive(Clone, Copy, Debug, PartialEq, Eq, Structural)]
pub enum Error {
    /// The lock's argument bytes are empty.
    MissingIdentifier,
    /// The argument bytes or the rule bytes are not valid UTF-8.
    EncodingError,
    /// The witness carries no lock field, hence no rule.
    MissingRule,
    /// The rule does not compile, fails while it runs, runs out of budget,
    /// returns something other than an integer, or returns a negative price.
    RuleError,
    /// The committed capacity is below the required capacity.
    InsufficientCapacity,
}

/// The outcome of one validation run.
#[derive(Clone, Copy, Debug, PartialEq, Eq, Structural)]
pub enum Verdict {
    Accept,
    Reject(Error),
}

impl Verdict {
    /// Whether the spend is authorised.
    pub fn is_accept(&self) -> (b: bool)
        ensures
            b == (*self == Verdict::Accept),
    {
        match self {
            Verdict::Accept => true,
            Verdict::Reject(_) => false,
        }
    }

    /// `Ok(())` for an accepted spend, the error kind for a rejected one.
    pub fn into_result(self) -> (r: Result<(), Error>)
        ensures
            r == (match self {
                Verdict::Accept => Ok::<(), Error>(()),
                Verdict::Reject(kind) => Err::<(), Error>(kind),
            }),
    {
        match self {
            Verdict::Accept => Ok(()),
            Verdict::Reject(kind) => Err(kind),
        }
    }
}

} // verus!
