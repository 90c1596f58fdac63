//! Shape of one upstream appearance ("emblem") reply.
//!
//! The sink decorates a notification with the player's emblem; the engine
//! only carries the URL through.

use vstd::prelude::*;

verus! {

/// One reply to an appearance request.
pub struct EmblemResponse {
    pub data: Data,
}

/// The payload of an appearance reply.
pub struct Data {
    pub emblem_url: String,
}

} // verus!
