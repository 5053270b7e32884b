//! The decisions taken before the chat starts: which room to enter, where
//! the pseudo comes from, and what the client's own address is.
use vstd::prelude::*;
use crate::api::IdentityResponse;
use crate::config::AppConfig;
use crate::text::{push_text, string_of};

verus! {

/// How the chat gets its room.
pub enum RoomPlan {
    /// Create a direct room named `name` with these members.
    Create { name: String, members: Vec<String> },
    /// Join this existing room.
    Join(String),
}

/// The text shown when neither a room nor an invitation is given.
pub open spec fn missing_room_error() -> Seq<char> {
    "Error: provide --room <id> or --invite <address>"@
}

/// The room to use: an invitation creates a room named `Chat with <address>`
/// whose one member is that address (an invitation wins over a room id); a
/// room id joins that room; with neither, an error.
pub fn plan_room(room: Option<String>, invite: Option<String>) -> (r: Result<RoomPlan, String>)
    ensures
        invite matches Some(a) ==> (r matches Ok(RoomPlan::Create { name, members }) && name@
            == "Chat with "@ + a@ && members@.len() == 1 && members@[0]@ == a@),
        invite is None && room is Some ==> (r matches Ok(RoomPlan::Join(id)) && id@
            == room->0@),
        invite is None && room is None ==> (r matches Err(e) && e@ == missing_room_error()),
{
    match invite {
        Some(addr) => {
            let mut out: Vec<char> = Vec::new();
            push_text(&mut out, "Chat with ");
            push_text(&mut out, addr.as_str());
            let name = string_of(&out);
            let mut members: Vec<String> = Vec::new();
            members.push(addr);
            Ok(RoomPlan::Create { name, members })
        },
        None => match room {
            Some(id) => Ok(RoomPlan::Join(id)),
            None => Err("Error: provide --room <id> or --invite <address>".to_owned()),
        },
    }
}

/// Where the pseudo comes from.
pub enum PseudoPlan {
    /// Ask the user; keep the answer on disk when `save` holds.
    Prompt { save: bool },
    /// Use the stored pseudo.
    Stored(String),
}

/// Where the pseudo comes from: with a temporary configuration it is asked
/// and not kept; otherwise the stored one is used, or, when there is none,
/// it is asked and kept.
pub fn plan_pseudo(tmpconf: bool, stored: Option<AppConfig>) -> (r: PseudoPlan)
    ensures
        tmpconf ==> (r == (PseudoPlan::Prompt { save: false })),
        (!tmpconf && stored is None) ==> (r == (PseudoPlan::Prompt { save: true })),
        (!tmpconf && stored is Some) ==> (r matches PseudoPlan::Stored(p) && p@
            == stored->0.pseudo@),
{
    if tmpconf {
        return PseudoPlan::Prompt { save: false };
    }
    match stored {
        Some(cfg) => PseudoPlan::Stored(cfg.pseudo),
        None => PseudoPlan::Prompt { save: true },
    }
}

/// The client's own address: the identity's address, or empty when the
/// identity could not be read.
pub fn own_address_from(identity: Result<IdentityResponse, String>) -> (r: String)
    ensures
        r@ == match identity {
            Ok(id) => id.address@,
            Err(_) => Seq::<char>::empty(),
        },
{
    match identity {
        Ok(id) => id.address,
        Err(_) => String::new(),
    }
}

} // verus!
