//! Client-side wire formats of the RakNet transport and the Minecraft Bedrock
//! game protocol, with the download bookkeeping for server resource packs.

pub mod client;
pub mod protocol;
pub mod session;
pub mod utils;
pub mod wire;
