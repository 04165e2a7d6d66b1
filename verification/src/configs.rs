//! The settings of a run, as values. Reading them from the environment is
//! the caller's work; the defaults and what the settings mean are here.

use crate::chains::Chain;
use vstd::prelude::*;
use vstd::string::StringExecFns;

verus! {

/// The number of blocks in a batch where none is set.
pub const DEFAULT_BATCH_SIZE: usize = 200;

/// The seconds between two reconciliation passes.
pub const SYNC_INTERVAL_SECONDS: u64 = 30;

/// The milliseconds before a dropped subscription is taken up again.
pub const RESUBSCRIBE_DELAY_MILLIS: u64 = 500;

/// The settings of a run.
#[derive(Clone, Debug)]
pub struct Config {
    pub chain: Chain,
    pub rpc_http_url: String,
    /// The WebSocket endpoint of the node, where there is one.
    pub ws_url: Option<String>,
    pub db_host: String,
    pub db_username: String,
    pub db_password: String,
    pub db_name: String,
    /// The first block of the backfill.
    pub start_block: u32,
    /// Where the backfill ends: a positive number is the block before
    /// which it stops for good; 0 follows the node's tip without end; -1
    /// does the same and follows new heads whether or not a WebSocket
    /// endpoint is set.
    pub end_block: i64,
    pub batch_size: usize,
    /// Skip the backfill and only follow new heads.
    pub new_blocks_only: bool,
    pub debug: bool,
    pub explorer_server_host: String,
    pub explorer_server_port: String,
}

/// What the environment held, each setting as far as it was given.
pub struct Settings {
    pub rpc_http_url: String,
    pub ws_url: Option<String>,
    pub db_host: String,
    pub db_username: String,
    pub db_password: String,
    pub db_name: String,
    pub start_block: Option<u32>,
    pub end_block: Option<i64>,
    pub batch_size: Option<usize>,
    pub new_blocks_only: Option<bool>,
    pub debug: Option<bool>,
    pub explorer_server_host: Option<String>,
    pub explorer_server_port: Option<String>,
}

/// Whether a backfill with this end stops for good once nothing is
/// missing.
pub open spec fn is_bounded(end_block: i64) -> bool {
    end_block > 0
}

/// Whether new heads are followed: with a WebSocket endpoint and an end
/// of 0, or with an end of -1 whatever else is set.
pub open spec fn follows_heads(ws_configured: bool, end_block: i64) -> bool {
    (ws_configured && end_block == 0) || end_block == -1
}

impl Config {
    /// The settings with a default for each that was not given: the
    /// backfill starts at block 0 and has no end, a batch has 200
    /// blocks, the backfill is not skipped, and the read surface listens
    /// on `0.0.0.0:8200`.
    pub fn new(chain: Chain, settings: Settings) -> (config: Config)
        ensures
            config.chain == chain,
            config.rpc_http_url == settings.rpc_http_url,
            config.ws_url == settings.ws_url,
            config.db_host == settings.db_host,
            config.db_username == settings.db_username,
            config.db_password == settings.db_password,
            config.db_name == settings.db_name,
            config.start_block == settings.start_block.unwrap_or(0),
            config.end_block == settings.end_block.unwrap_or(0),
            config.batch_size == settings.batch_size.unwrap_or(DEFAULT_BATCH_SIZE),
            config.new_blocks_only == settings.new_blocks_only.unwrap_or(false),
            config.debug == settings.debug.unwrap_or(false),
            config.explorer_server_host@ == match settings.explorer_server_host {
                Some(host) => host@,
                None => "0.0.0.0"@,
            },
            config.explorer_server_port@ == match settings.explorer_server_port {
                Some(port) => port@,
                None => "8200"@,
            },
    {
        let explorer_server_host = match settings.explorer_server_host {
            Some(host) => host,
            None => String::from_str("0.0.0.0"),
        };
        let explorer_server_port = match settings.explorer_server_port {
            Some(port) => port,
            None => String::from_str("8200"),
        };
        Config {
            chain,
            rpc_http_url: settings.rpc_http_url,
            ws_url: settings.ws_url,
            db_host: settings.db_host,
            db_username: settings.db_username,
            db_password: settings.db_password,
            db_name: settings.db_name,
            start_block: match settings.start_block {
                Some(v) => v,
                None => 0,
            },
            end_block: match settings.end_block {
                Some(v) => v,
                None => 0,
            },
            batch_size: match settings.batch_size {
                Some(v) => v,
                None => DEFAULT_BATCH_SIZE,
            },
            new_blocks_only: match settings.new_blocks_only {
                Some(v) => v,
                None => false,
            },
            debug: match settings.debug {
                Some(v) => v,
                None => false,
            },
            explorer_server_host,
            explorer_server_port,
        }
    }

    /// Whether the backfill stops for good once nothing is missing.
    pub fn is_bounded(&self) -> (bounded: bool)
        ensures
            bounded == is_bounded(self.end_block),
    {
        self.end_block > 0
    }

    /// Whether the tip follower runs.
    pub fn follows_heads(&self) -> (follows: bool)
        ensures
            follows == follows_heads(self.ws_url is Some, self.end_block),
    {
        (self.ws_url.is_some() && self.end_block == 0) || self.end_block == -1
    }

    /// The address on which the read surface listens: host, a colon, and
    /// port.
    pub fn explorer_address(&self) -> (address: String)
        ensures
            address@ == self.explorer_server_host@ + ":"@ + self.explorer_server_port@,
    {
        self.explorer_server_host.clone().concat(":").concat(self.explorer_server_port.as_str())
    }
}

} // verus!
