//! The MyAnimeList client the program signs in as.
use vstd::prelude::*;

verus! {

/// The client configuration: the id of the MyAnimeList API client.
pub struct ClientConfig {
    pub client_id: String,
}

/// Why the client configuration is wanted.
#[derive(Clone, Copy, PartialEq, Eq, Structural, Debug)]
pub enum ClientConfigAction {
    /// To set it anew.
    Overwrite,
    /// To read it.
    Get,
}

/// Whether the user is to be asked for the client id: when it is to be set
/// anew, or when no configuration is stored yet.
pub fn check_client_config(action: ClientConfigAction, config_exists: bool) -> (ask: bool)
    ensures
        ask == (!config_exists || action == ClientConfigAction::Overwrite),
{
    !config_exists || action == ClientConfigAction::Overwrite
}

/// The configuration to store once the user entered a client id: that id.
pub fn set_client_config(client_id: String) -> (c: ClientConfig)
    ensures
        c.client_id == client_id,
{
    ClientConfig { client_id }
}

} // verus!
