use vstd::prelude::*;
use vstd::string::StringExecFns;

verus! {

/// Why a ledger operation did not take place.
#[derive(Debug, PartialEq, Eq)]
pub enum LedgerError {
    /// The account has no counter of this name.
    CounterNotFound(String),
}

/// The text that reports a missing counter called `name`.
pub open spec fn not_found_text(name: Seq<char>) -> Seq<char> {
    "Counter '"@ + name + "' not found"@
}

impl LedgerError {
    /// The name of the counter that the error is about.
    pub open spec fn counter(&self) -> Seq<char> {
        match self {
            LedgerError::CounterNotFound(name) => name@,
        }
    }

    /// The line to show to the user.
    pub fn message(&self) -> (text: String)
        ensures
            text@ == not_found_text(self.counter()),
    {
        match self {
            LedgerError::CounterNotFound(name) => {
                let mut text = String::from_str("Counter '");
                text.append(name.as_str());
                text.append("' not found");
                text
            },
        }
    }
}

} // verus!
