use crate::error::{not_found_text, LedgerError};
use crate::ledger::Blockchain;
use crate::model::{counter_created, counter_stepped, counter_value, AccountView, LedgerView, Step};
use vstd::prelude::*;
use vstd::string::{StrSliceExecFns, StringExecFns};

verus! {

/// The one address that the session works on.
pub const ADDRESS: &'static str = "user1";

/// The one counter that the session drives.
pub const COUNTER: &'static str = "default";

/// What the user asked for on one line of the menu.
#[derive(Debug, Clone, Copy, PartialEq, Eq, Structural)]
pub enum Choice {
    Increment,
    Decrement,
    Exit,
    Invalid,
}

/// What the session has to do after a choice has been carried out.
#[derive(Debug, PartialEq, Eq)]
pub enum Reply {
    /// The counter has moved; show the menu again.
    Moved,
    /// The counter could not be moved; report the error and show the menu
    /// again.
    Failed(LedgerError),
    /// The entry was none of the menu's; say so and show the menu again.
    Invalid,
    /// Leave the loop.
    Exit,
}

impl Reply {
    /// The line that the reply has the session print, if any.
    pub open spec fn notice_text(&self) -> Option<Seq<char>> {
        match self {
            Reply::Moved => None,
            Reply::Failed(error) => Some("Error: "@ + not_found_text(error.counter())),
            Reply::Invalid => Some("Invalid choice"@),
            Reply::Exit => None,
        }
    }

    /// The line to print before the menu is shown again: the error's
    /// message after `Error: `, or the notice of an invalid entry.
    pub fn notice(&self) -> (line: Option<String>)
        ensures
            match line {
                Some(text) => self.notice_text() == Some(text@),
                None => self.notice_text() is None,
            },
    {
        match self {
            Reply::Moved => None,
            Reply::Failed(error) => {
                let mut text = String::from_str("Error: ");
                text.append(error.message().as_str());
                Some(text)
            },
            Reply::Invalid => Some(String::from_str("Invalid choice")),
            Reply::Exit => None,
        }
    }
}

/// A line of input without the whitespace at its two ends, where
/// whitespace is what Unicode's property `White_Space` says it is.
pub uninterp spec fn trimmed(line: Seq<char>) -> Seq<char>;

/// The choice that a trimmed entry stands for.
pub open spec fn choice_of(entry: Seq<char>) -> Choice {
    if entry == "1"@ {
        Choice::Increment
    } else if entry == "2"@ {
        Choice::Decrement
    } else if entry == "3"@ {
        Choice::Exit
    } else {
        Choice::Invalid
    }
}

/// The ledger after a choice has been carried out.
pub open spec fn ledger_after(ledger: LedgerView, choice: Choice) -> LedgerView {
    match choice {
        Choice::Increment => counter_stepped(ledger, ADDRESS@, COUNTER@, Step::Increment),
        Choice::Decrement => counter_stepped(ledger, ADDRESS@, COUNTER@, Step::Decrement),
        Choice::Exit => ledger,
        Choice::Invalid => ledger,
    }
}

/// The value that the menu shows for a ledger: that of the session's
/// counter, and zero where there is none.
pub open spec fn shown(ledger: LedgerView) -> int {
    match counter_value(ledger, ADDRESS@, COUNTER@) {
        Some(value) => value,
        None => 0,
    }
}

/// Calls `str::trim` of the standard library. Its result is taken to be
/// `trimmed` of the line: the same characters in give the same characters
/// out. Nothing else is claimed of it.
#[verifier::external_body]
fn trim(line: &str) -> (entry: &str)
    ensures
        entry@ == trimmed(line@),
{
    line.trim()
}

/// A ledger ready for the session: it holds the session's account with
/// the session's counter at zero, and nothing else.
pub fn start() -> (ledger: Blockchain)
    ensures
        ledger.wf(),
        ledger@ == counter_created(Map::<Seq<char>, AccountView>::empty(), ADDRESS@, COUNTER@),
{
    let mut ledger = Blockchain::new();
    ledger.create_counter(ADDRESS, COUNTER);
    ledger
}

/// The value to show above the menu.
pub fn shown_value(ledger: &Blockchain) -> (value: i64)
    requires
        ledger.wf(),
    ensures
        value == shown(ledger@),
{
    match ledger.get_counter(ADDRESS, COUNTER) {
        Some(value) => value,
        None => 0,
    }
}

/// Reads a trimmed entry: `1`, `2` and `3` are the menu's three choices,
/// and every other entry is invalid.
pub fn parse_choice(entry: &str) -> (choice: Choice)
    ensures
        choice == choice_of(entry@),
{
    proof {
        reveal_strlit("1");
        reveal_strlit("2");
        reveal_strlit("3");
    }
    if entry.unicode_len() != 1 {
        return Choice::Invalid;
    }
    let mark = entry.get_char(0);
    if mark == '1' {
        assert(entry@ =~= "1"@);
        Choice::Increment
    } else if mark == '2' {
        assert(entry@ =~= "2"@);
        Choice::Decrement
    } else if mark == '3' {
        assert(entry@ =~= "3"@);
        Choice::Exit
    } else {
        Choice::Invalid
    }
}

/// Reads a line as the user typed it: the whitespace at its ends, the
/// line's end among it, does not count.
pub fn read_choice(line: &str) -> (choice: Choice)
    ensures
        choice == choice_of(trimmed(line@)),
{
    parse_choice(trim(line))
}

/// Carries a choice out on the session's counter and says what to do next.
/// Only an increment or a decrement touches the ledger.
pub fn apply_choice(ledger: &mut Blockchain, choice: Choice) -> (reply: Reply)
    requires
        old(ledger).wf(),
        choice == Choice::Increment ==> shown(old(ledger)@) < i64::MAX,
        choice == Choice::Decrement ==> shown(old(ledger)@) > i64::MIN,
    ensures
        final(ledger).wf(),
        final(ledger)@ == ledger_after(old(ledger)@, choice),
        match choice {
            Choice::Increment | Choice::Decrement => match reply {
                Reply::Moved => counter_value(old(ledger)@, ADDRESS@, COUNTER@) is Some,
                Reply::Failed(error) => counter_value(old(ledger)@, ADDRESS@, COUNTER@) is None
                    && error.counter() == COUNTER@,
                _ => false,
            },
            Choice::Exit => reply == Reply::Exit,
            Choice::Invalid => reply == Reply::Invalid,
        },
{
    match choice {
        Choice::Increment => match ledger.increment_counter(ADDRESS, COUNTER) {
            Ok(_) => Reply::Moved,
            Err(error) => Reply::Failed(error),
        },
        Choice::Decrement => match ledger.decrement_counter(ADDRESS, COUNTER) {
            Ok(_) => Reply::Moved,
            Err(error) => Reply::Failed(error),
        },
        Choice::Exit => Reply::Exit,
        Choice::Invalid => Reply::Invalid,
    }
}

} // verus!
