//! Service configuration, as loaded from the configuration files.
use vstd::prelude::*;

verus! {

/// Logging configuration.
#[derive(Clone, Debug)]
pub struct Log {
    pub level: String,
}

/// The upstream market-data socket: its address, the instruments to
/// subscribe to, and the access token.
#[derive(Clone, Debug)]
pub struct Tinkoff {
    pub ws: String,
    pub figis: Vec<String>,
    pub token: String,
}

/// A network address of a gRPC endpoint.
#[derive(Clone, Debug)]
pub struct Grpc {
    pub addr: String,
}

/// The endpoints this service connects to.
#[derive(Clone, Debug)]
pub struct Client {
    pub tinkoff: Tinkoff,
    pub pr: Grpc,
}

/// The deployment environment.
#[derive(Clone, Copy, Debug, PartialEq, Eq, Structural)]
pub enum Env {
    Development,
    Testing,
    Production,
}

/// The whole configuration.
#[derive(Clone, Debug)]
pub struct Settings {
    pub log: Log,
    pub env: Env,
    pub server: Grpc,
    pub client: Client,
}

} // verus!
