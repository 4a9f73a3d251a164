use vstd::prelude::*;

use crate::content::MessageEventContent;

verus! {

/// A user's relationship to a room, as carried by a membership event.
#[derive(Clone, Copy, Debug, PartialEq, Eq, Structural)]
pub enum MembershipState {
    Join,
    Leave,
    Ban,
    Invite,
    Knock,
}

/// An event whose payload could not be decrypted. Decryption happens
/// elsewhere, so the renderer needs nothing of its payload.
pub struct EncryptedEvent;

/// A change of a user's membership in a room. `state_key` is the raw
/// identifier of the user whose membership changed.
pub struct MemberEvent {
    pub state_key: String,
    pub membership: MembershipState,
}

/// A message posted to a room.
pub struct MessageEvent {
    pub content: MessageEventContent,
}

/// Every event family that the renderer handles.
pub enum Event {
    Undecryptable(EncryptedEvent),
    MembershipChanged(MemberEvent),
    MessagePosted(MessageEvent),
}

} // verus!
