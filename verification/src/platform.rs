//! What the library takes from the chat platform's client crate, serenity.
//!
//! Nothing here is proved: the contract states what serenity's source
//! shows of the function that the body calls.

use serenity::model::id::GuildId;
use vstd::prelude::*;

verus! {

/// The guild id that stands in for an event without one.
pub const SENTINEL_GUILD: u64 = 1;

/// The default of serenity's `GuildId`, as a number.
///
/// `GuildId::default` is the least non-zero id, which is
/// [`SENTINEL_GUILD`].
#[verifier::external_body]
pub(crate) fn default_guild_id() -> (id: u64)
    ensures
        id == SENTINEL_GUILD,
{
    GuildId::default().get()
}

} // verus!
