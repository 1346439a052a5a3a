//! The fixed prompt pair sent to the transcript provider with each
//! document's text.

use vstd::prelude::*;
use vstd::string::StringExecFns;

verus! {

/// The system and user prompts that frame every transcript request.
pub struct ConversationPrompt {
    pub system: String,
    pub user: String,
}

impl Default for ConversationPrompt {
    /// The fixed prompt pair: the system prompt constrains the output, the
    /// user prompt introduces the document text appended after it.
    fn default() -> (r: Self)
        ensures
            r.system@ == (
            "You are an expert at converting technical documentation into natural conversations between a student and a teacher. Keep the technical accuracy but make it engaging and easier to understand. IMPORTANT: Output should have at most 4096 characters. It is also important to not include any json or code blocks in the output. ")@,
            r.user@ == (
            "Convert the following markdown documentation into a natural conversation between two Software Developers, first named Jaf is an expert in the protocol we are talking about, a second named Paul is a frontend developer who is new to this protocol. Preserve all technical information but make it more engaging:")@,
    {
        ConversationPrompt {
            system: String::from_str(
                "You are an expert at converting technical documentation into natural conversations between a student and a teacher. Keep the technical accuracy but make it engaging and easier to understand. IMPORTANT: Output should have at most 4096 characters. It is also important to not include any json or code blocks in the output. ",
            ),
            user: String::from_str(
                "Convert the following markdown documentation into a natural conversation between two Software Developers, first named Jaf is an expert in the protocol we are talking about, a second named Paul is a frontend developer who is new to this protocol. Preserve all technical information but make it more engaging:",
            ),
        }
    }
}

} // verus!
