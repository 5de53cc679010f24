//! Study rooms: a named room with an owner.

use vstd::prelude::*;
use crate::identity::Identity;

verus! {

/// A study room.
#[derive(Clone, Debug, PartialEq, Eq)]
pub struct StudyRoom {
    pub owner: Identity,
    pub name: String,
    pub is_public: bool,
}

/// Context of `create_room`.
#[derive(Clone, Debug, PartialEq, Eq)]
pub struct CreateRoom {
    pub room: StudyRoom,
    pub owner: Identity,
}

/// Fills the room of the context: it belongs to the caller and has the given
/// name and visibility.
pub fn create_room(ctx: &mut CreateRoom, room_name: String, is_public: bool)
    ensures
        final(ctx).owner == old(ctx).owner,
        final(ctx).room == (StudyRoom { owner: old(ctx).owner, name: room_name, is_public }),
{
    ctx.room.owner = ctx.owner;
    ctx.room.name = room_name;
    ctx.room.is_public = is_public;
}

/// Context of `mint_room_nft`.
#[derive(Clone, Debug, PartialEq, Eq)]
pub struct MintRoomNFT {
    pub room: StudyRoom,
    pub owner: Identity,
}

/// Mints nothing yet: the room and its owner stay as they are.
pub fn mint_room_nft(ctx: &mut MintRoomNFT, room_id: u64)
    ensures
        *final(ctx) == *old(ctx),
{
}

} // verus!
