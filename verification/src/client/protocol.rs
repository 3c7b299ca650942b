use vstd::prelude::*;

use crate::data::{ClientLocalData, ClientNetworkData, RoomData, UserMessageData};

verus! {

/// Where a piece of data from the server goes: to the app task, as the matching
/// local data.
pub open spec fn routed(data: ClientNetworkData) -> ClientLocalData {
    match data {
        ClientNetworkData::ReceiveMessages(ms) => ClientLocalData::ReceiveMessages(ms),
        ClientNetworkData::JoinAccepted(id) => ClientLocalData::JoinAccepted(id),
        ClientNetworkData::RoomAdded(d) => ClientLocalData::AddRoomAccepted(d),
    }
}

/// Hands what the server sent over the network to the client's network task.
pub struct ClientProtocol {}

impl ClientProtocol {
    pub fn new() -> (r: ClientProtocol) {
        ClientProtocol {  }
    }

    /// What the network task is told of one piece of data the server sent.
    pub fn accept(&self, data: ClientNetworkData) -> (r: ClientLocalData)
        ensures
            r == routed(data),
            data matches ClientNetworkData::ReceiveMessages(ms) ==> r
                == ClientLocalData::ReceiveMessages(ms),
            data matches ClientNetworkData::JoinAccepted(id) ==> r == ClientLocalData::JoinAccepted(
                id,
            ),
            data matches ClientNetworkData::RoomAdded(d) ==> r == ClientLocalData::AddRoomAccepted(d),
    {
        match data {
            ClientNetworkData::ReceiveMessages(ms) => ClientLocalData::ReceiveMessages(ms),
            ClientNetworkData::JoinAccepted(id) => ClientLocalData::JoinAccepted(id),
            ClientNetworkData::RoomAdded(d) => ClientLocalData::AddRoomAccepted(d),
        }
    }
}

/// Each answer of the server reaches the app task unchanged: a batch of messages as
/// that batch, an accepted join as that room, an added room as that room to store.
pub proof fn lemma_answers_routed_unchanged(
    ms: Vec<UserMessageData>,
    id: String,
    d: RoomData,
)
    ensures
        routed(ClientNetworkData::ReceiveMessages(ms)) == ClientLocalData::ReceiveMessages(ms),
        routed(ClientNetworkData::JoinAccepted(id)) == ClientLocalData::JoinAccepted(id),
        routed(ClientNetworkData::RoomAdded(d)) == ClientLocalData::AddRoomAccepted(d),
{
}

}
