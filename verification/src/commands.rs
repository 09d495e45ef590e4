//! What the host application keeps of its configuration: the mode it runs
//! in and the port of its hub.

use vstd::prelude::*;
use vstd::string::*;

verus! {

/// The role of this controller.
#[derive(Debug, Clone, Copy, PartialEq, Eq, Hash, Structural)]
pub enum AppMode {
    Master,
    Slave,
}

/// Where a slave finds its master.
#[derive(Debug, Clone, PartialEq, Eq)]
pub struct NetworkConfig {
    pub host: String,
    pub port: u16,
}

/// The port of a hub that has not been given one.
pub const DEFAULT_PORT: u16 = 8080;

/// The host application's state.
#[derive(Debug, Clone, PartialEq, Eq)]
pub struct AppState {
    mode: Option<AppMode>,
    network_port: u16,
}

impl AppState {
    pub closed spec fn spec_mode(&self) -> Option<AppMode> {
        self.mode
    }

    pub closed spec fn spec_network_port(&self) -> u16 {
        self.network_port
    }

    /// No mode chosen yet, and the default port.
    pub fn new() -> (state: Self)
        ensures
            state.spec_mode() is None,
            state.spec_network_port() == DEFAULT_PORT,
    {
        AppState { mode: None, network_port: DEFAULT_PORT }
    }

    #[verifier::when_used_as_spec(spec_network_port)]
    pub fn network_port(&self) -> (port: u16)
        ensures
            port == self.spec_network_port(),
    {
        self.network_port
    }
}

/// Chooses the mode. The port is not touched.
pub fn set_app_mode(state: &mut AppState, mode: AppMode)
    ensures
        final(state).spec_mode() == Some(mode),
        final(state).spec_network_port() == old(state).spec_network_port(),
{
    state.mode = Some(mode);
}

/// The mode chosen, if one has been.
pub fn get_app_mode(state: &AppState) -> (mode: Option<AppMode>)
    ensures
        mode == state.spec_mode(),
{
    state.mode
}

/// Notes the port that the hub is to listen on. The mode is not touched.
pub fn start_master_server(state: &mut AppState, port: u16)
    ensures
        final(state).spec_network_port() == port,
        final(state).spec_mode() == old(state).spec_mode(),
{
    state.network_port = port;
}

/// The greeting for a name.
pub open spec fn greeting(name: Seq<char>) -> Seq<char> {
    "Hello, "@ + name + "! You've been greeted from Rust!"@
}

pub fn greet(name: &str) -> (text: String)
    ensures
        text@ == greeting(name@),
{
    let mut text = "Hello, ".to_owned();
    text.append(name);
    text.append("! You've been greeted from Rust!");
    text
}

} // verus!
