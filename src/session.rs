//! What one bus session is opened with, and what polling it can yield.

use crate::config::Config;
use vstd::prelude::*;

verus! {

/// Client identifier presented to the broker.
pub const CLIENT_ID: &'static str = "auto_screen_switch";

/// The single topic that carries control messages; subscribed at most once
/// per delivery.
pub const CONTROL_TOPIC: &'static str = "actuator/autoScreenSwitch";

/// Keep-alive interval of a session, in seconds.
pub const KEEP_ALIVE_SECS: u64 = 60;

/// Largest packet a session sends or accepts, in bytes.
pub const MAX_PACKET_SIZE: usize = 102400;

/// Longest a single poll of an open session waits, in milliseconds.
pub const POLL_TIMEOUT_MS: u64 = 500;

/// Everything needed to open a session: the configuration it was loaded
/// with and the connection settings.
#[derive(Debug)]
pub struct SessionParams {
    pub config: Config,
    pub keep_alive_secs: u64,
    pub clean_session: bool,
    pub max_packet_size: usize,
}

impl SessionParams {
    /// The settings of a session to the broker that `config` names: clean
    /// session, the standard keep-alive and packet size.
    pub fn for_config(config: Config) -> (r: SessionParams)
        ensures
            r == (SessionParams {
                config,
                keep_alive_secs: KEEP_ALIVE_SECS,
                clean_session: true,
                max_packet_size: MAX_PACKET_SIZE,
            }),
    {
        SessionParams {
            config,
            keep_alive_secs: KEEP_ALIVE_SECS,
            clean_session: true,
            max_packet_size: MAX_PACKET_SIZE,
        }
    }
}

/// The outcome of one poll of an open session.
#[derive(Debug)]
pub enum PollResult {
    /// A message arrived on the control topic.
    Message(Vec<u8>),
    /// Nothing arrived within the poll timeout.
    Idle,
    /// The broker closed the session.
    Disconnected,
    /// The connection failed; the text says how.
    TransportError(String),
}

} // verus!
