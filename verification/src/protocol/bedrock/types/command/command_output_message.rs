//! One message of a command's output.

use vstd::prelude::*;

verus! {

pub struct CommandOutputMessage {
    pub message_id: String,
    pub is_internal: bool,
    pub parameters: Vec<String>,
}

pub struct CommandOutputMessageView {
    pub message_id: Seq<char>,
    pub is_internal: bool,
    pub parameters: Seq<Seq<char>>,
}

impl View for CommandOutputMessage {
    type V = CommandOutputMessageView;

    open spec fn view(&self) -> CommandOutputMessageView {
        CommandOutputMessageView {
            message_id: self.message_id@,
            is_internal: self.is_internal,
            parameters: self.parameters@.map_values(|p: String| p@),
        }
    }
}

} // verus!
