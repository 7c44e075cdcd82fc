//! The room that is made for a user who shares none with the notifier.

use vstd::prelude::*;
use vstd::string::StringExecFns;
use crate::user_id::UserId;

verus! {

/// The name of every room that the notifier makes.
pub const ROOM_NAME: &'static str = "compute-notify";

/// The settings that a homeserver applies to a new room as a whole.
#[derive(Clone, Copy, Debug, PartialEq, Eq, Structural)]
pub enum RoomPreset {
    PrivateChat,
    PublicChat,
    TrustedPrivateChat,
}

/// Whether a room is listed in the homeserver's directory.
#[derive(Clone, Copy, Debug, PartialEq, Eq, Structural)]
pub enum Visibility {
    Public,
    Private,
}

/// A request to make a room. What it does not hold (a topic, an alias, a
/// room version, initial state, invitations by third-party id, overrides of
/// the creation content or of the power levels) is left unset.
#[derive(Clone, Debug)]
pub struct RoomRequest {
    pub name: Option<String>,
    pub invite: Vec<UserId>,
    pub is_direct: bool,
    pub preset: Option<RoomPreset>,
    pub visibility: Visibility,
}

/// The mathematical value of a [`RoomRequest`].
pub struct RoomRequestView {
    pub name: Option<Seq<char>>,
    pub invite: Seq<Seq<char>>,
    pub is_direct: bool,
    pub preset: Option<RoomPreset>,
    pub visibility: Visibility,
}

impl View for RoomRequest {
    type V = RoomRequestView;

    open spec fn view(&self) -> RoomRequestView {
        RoomRequestView {
            name: match self.name {
                Some(name) => Some(name@),
                None => None,
            },
            invite: Seq::new(self.invite@.len(), |i: int| self.invite@[i]@),
            is_direct: self.is_direct,
            preset: self.preset,
            visibility: self.visibility,
        }
    }
}

/// The room for `target`: a direct, private chat outside the directory,
/// named [`ROOM_NAME`], to which `target` alone is invited.
pub open spec fn room_request(target: Seq<char>) -> RoomRequestView {
    RoomRequestView {
        name: Some(ROOM_NAME@),
        invite: seq![target],
        is_direct: true,
        preset: Some(RoomPreset::PrivateChat),
        visibility: Visibility::Private,
    }
}

/// The request for the room in which `target_user` will be notified.
pub fn create_room(target_user: &UserId) -> (request: RoomRequest)
    ensures
        request@ == room_request(target_user@),
{
    let mut invite: Vec<UserId> = Vec::new();
    invite.push(target_user.clone());
    let request = RoomRequest {
        name: Some(String::from_str(ROOM_NAME)),
        invite,
        is_direct: true,
        preset: Some(RoomPreset::PrivateChat),
        visibility: Visibility::Private,
    };
    assert(request@.invite =~= seq![target_user@]);
    request
}

} // verus!
