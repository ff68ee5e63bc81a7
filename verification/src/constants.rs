//! Fixed settings of the service.
use vstd::prelude::*;

verus! {

/// Root of the Instagram Graph API.
pub const BASE_URL: &'static str = "https://graph.instagram.com";

/// Version segment of the Instagram Graph API paths.
pub const INSTAGRAM_API_VERSION: &'static str = "v23.0";

/// Messages asked for per page; a shorter page is the last one.
pub const MESSAGE_FETCH_LIMIT: usize = 20;

/// Address the webhook server listens on.
pub const SERVER_ADDRESS: &'static str = "0.0.0.0";

/// Port the webhook server listens on.
pub const SERVER_PORT: u16 = 8080;

/// The Discord channel that setup keeps; every other channel is recreated.
pub const DISCORD_MOD_CHANNEL_NAME: &'static str = "mod";

/// The account the bot speaks for; conversation listings name the other participant.
pub const OWN_USERNAME: &'static str = "iaminthebasement";

/// The platform segment that the webhook routes serve.
pub const INSTAGRAM_PLATFORM: &'static str = "instagram";

} // verus!
