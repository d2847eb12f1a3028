use vstd::prelude::*;
use vstd::string::StringExecFns;
use crate::decimal::{decimal, digits};

verus! {

/// The actions that a user can issue. Each is plain data; one that names a
/// row does so by the row's position in the list at the time of rendering.
#[derive(Debug, Clone, Copy, PartialEq, Eq, Structural)]
pub enum Message {
    AcceptAll,
    ReviewChange(usize),
    IgnoreChange(usize),
    FinishReview,
    RowClicked(usize),
}

impl Message {
    /// The row that the action names, if it names one.
    pub open spec fn spec_index(&self) -> Option<usize> {
        match *self {
            Message::ReviewChange(i) | Message::IgnoreChange(i) | Message::RowClicked(i) => Some(i),
            Message::AcceptAll | Message::FinishReview => None,
        }
    }

    /// Whether the action can be carried out on a list of `len` rows: it
    /// names no row, or one that the list has.
    pub open spec fn applies_to(self, len: nat) -> bool {
        match self.spec_index() {
            Some(i) => i < len,
            None => true,
        }
    }

    /// The line that reports the action.
    pub open spec fn spec_describe(self) -> Seq<char> {
        match self {
            Message::AcceptAll => "Accept All"@,
            Message::ReviewChange(i) => "Review "@ + digits(i as nat),
            Message::IgnoreChange(i) => "Ignore "@ + digits(i as nat),
            Message::FinishReview => "Finish Review"@,
            Message::RowClicked(i) => "Row "@ + digits(i as nat) + " clicked"@,
        }
    }

    /// The row that the action names, if it names one.
    #[verifier::when_used_as_spec(spec_index)]
    pub fn index(&self) -> (index: Option<usize>)
        ensures
            index == self.spec_index(),
    {
        match self {
            Message::ReviewChange(i) | Message::IgnoreChange(i) | Message::RowClicked(i) => Some(*i),
            Message::AcceptAll | Message::FinishReview => None,
        }
    }

    /// Writes the line that reports the action.
    pub fn describe(&self) -> (line: String)
        ensures
            line@ == self.spec_describe(),
    {
        match self {
            Message::AcceptAll => String::from_str("Accept All"),
            Message::ReviewChange(i) => {
                let mut line = String::from_str("Review ");
                line.append(decimal(*i).as_str());
                line
            },
            Message::IgnoreChange(i) => {
                let mut line = String::from_str("Ignore ");
                line.append(decimal(*i).as_str());
                line
            },
            Message::FinishReview => String::from_str("Finish Review"),
            Message::RowClicked(i) => {
                let mut line = String::from_str("Row ");
                line.append(decimal(*i).as_str());
                line.append(" clicked");
                line
            },
        }
    }
}

} // verus!
