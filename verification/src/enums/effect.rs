use vstd::prelude::*;
use vstd::string::StringExecFns;
use crate::enums::message::Message;

verus! {

/// What the host has to do after an action was applied. Each effect goes to
/// the intent sink once.
#[derive(Debug, Clone, Copy, PartialEq, Eq, Structural)]
pub enum Effect {
    /// The action was taken: report it.
    Notify(Message),
    /// The action named a row that the list does not have. Nothing was done:
    /// report the action as stale.
    StaleIndex(Message),
}

impl Effect {
    /// The effect of an action on a list of `len` rows.
    pub open spec fn of(message: Message, len: nat) -> Effect {
        if message.applies_to(len) {
            Effect::Notify(message)
        } else {
            Effect::StaleIndex(message)
        }
    }

    /// The action that caused the effect.
    pub open spec fn spec_message(&self) -> Message {
        match *self {
            Effect::Notify(message) | Effect::StaleIndex(message) => message,
        }
    }

    /// The line that the intent sink receives.
    pub open spec fn spec_describe(self) -> Seq<char> {
        match self {
            Effect::Notify(message) => message.spec_describe(),
            Effect::StaleIndex(message) => "Stale: "@ + message.spec_describe(),
        }
    }

    /// The action that caused the effect.
    #[verifier::when_used_as_spec(spec_message)]
    pub fn message(&self) -> (message: Message)
        ensures
            message == self.spec_message(),
    {
        match self {
            Effect::Notify(message) | Effect::StaleIndex(message) => *message,
        }
    }

    /// Writes the line that the intent sink receives.
    pub fn describe(&self) -> (line: String)
        ensures
            line@ == self.spec_describe(),
    {
        match self {
            Effect::Notify(message) => message.describe(),
            Effect::StaleIndex(message) => {
                let mut line = String::from_str("Stale: ");
                line.append(message.describe().as_str());
                line
            },
        }
    }
}

} // verus!
