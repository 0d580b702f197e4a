//! The guilds that the bot serves.

use crate::snowflake::{parse_snowflakes_from_env, snowflakes_of};
use vstd::prelude::*;

verus! {

/// The guilds to serve: those that the configured text lists, or
/// `fallback` where no text is configured or it lists none.
pub open spec fn allowed_of(value: Option<Seq<char>>, fallback: Seq<u64>) -> Seq<u64> {
    match value {
        Some(text) => match snowflakes_of(text) {
            Some(guilds) => guilds,
            None => fallback,
        },
        None => fallback,
    }
}

/// Makes the list of the guilds to serve, once, from the text of the
/// configuration variable where it is set.
pub fn allowed_guilds(value: Option<&str>, fallback: Vec<u64>) -> (guilds: Vec<u64>)
    ensures
        guilds@ == allowed_of(
            match value {
                Some(text) => Some(text@),
                None => None,
            },
            fallback@,
        ),
{
    let same = |id: u64| -> (out: u64)
        ensures
            out == id,
        { id };
    match parse_snowflakes_from_env(value, same) {
        Some(guilds) => {
            proof {
                assert(guilds@ =~= snowflakes_of(value->0@)->0);
            }
            guilds
        },
        None => fallback,
    }
}

/// Whether the guild `gid` is one of `allowed`.
pub fn is_guild_allowed(allowed: &Vec<u64>, gid: u64) -> (found: bool)
    ensures
        found == allowed@.contains(gid),
{
    let mut i: usize = 0;
    while i < allowed.len()
        invariant
            i <= allowed@.len(),
            forall|j: int| 0 <= j < i ==> allowed@[j] != gid,
        decreases allowed@.len() - i,
    {
        if allowed[i] == gid {
            return true;
        }
        i += 1;
    }
    false
}

} // verus!
