//! The bot's command vocabulary.  Parsing of the command syntax happens at
//! the chat boundary outside this library; these enums carry the parsed
//! result through the handlers.

use vstd::prelude::*;

verus! {

/// A command any user may issue.
#[derive(Clone, Debug, PartialEq, Eq)]
pub enum Command {
    Help,
    Start,
}

/// A command reserved for administrators.
#[derive(Clone, Debug, PartialEq, Eq)]
pub enum AdminCommand {
    AddChannel { id_name: String },
    DelChannel { id: String },
    ListChannels,
    ToggleSubscription,
    Fingerprint,
}

} // verus!
