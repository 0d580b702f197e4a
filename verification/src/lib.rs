//! Pin redirection for a chat integration, with machine-checked contracts.
//!
//! When a message is pinned in a watched channel, the pin is rendered as a
//! summary, posted to the guild's archive channel and then unpinned.
//!
//! The library decides and computes; it makes no call to the platform itself.
//! [`router::handle`] is the router: one decision at a time, it names the
//! call to make next. [`summary::resolve_message_to_embed`] is the
//! summarizer. [`runs`] states what whole runs of the router do. The other
//! modules hold the helpers of the bot around them.

pub mod boundary;
pub mod choice;
pub mod guilds;
pub mod link;
pub mod model;
pub mod platform;
pub mod router;
pub mod runs;
pub mod snowflake;
pub mod summary;
pub mod text;

pub use boundary::floor_char_boundary;
pub use choice::random_choice;
pub use guilds::is_guild_allowed;
pub use link::send_url_as_embed;
pub use router::handle;
pub use snowflake::{parse_snowflake_from_env, parse_snowflakes_from_env};
pub use summary::resolve_message_to_embed;
