//! Who a command came from.

use vstd::prelude::*;

verus! {

pub struct CommandOriginData {
    pub origin_type: String,
    pub uuid: String,
    pub request_id: String,
    pub player_actor_unique_id: i64,
}

pub struct CommandOriginDataView {
    pub origin_type: Seq<char>,
    pub uuid: Seq<char>,
    pub request_id: Seq<char>,
    pub player_actor_unique_id: i64,
}

impl View for CommandOriginData {
    type V = CommandOriginDataView;

    open spec fn view(&self) -> CommandOriginDataView {
        CommandOriginDataView {
            origin_type: self.origin_type@,
            uuid: self.uuid@,
            request_id: self.request_id@,
            player_actor_unique_id: self.player_actor_unique_id,
        }
    }
}

} // verus!
