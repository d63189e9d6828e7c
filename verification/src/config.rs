//! Service configuration and its defaults.
use vstd::prelude::*;
use crate::store::StoreBackend;

verus! {

/// The whole configuration of the service.
pub struct AppConfig {
    pub server: ServerConfig,
    pub captcha: CaptchaConfig,
    pub store: StoreConfig,
}

/// How long issued answers stay valid.
pub struct CaptchaConfig {
    pub expire_seconds: usize,
}

/// Where the HTTP server listens.
pub struct ServerConfig {
    pub host: String,
    pub port: u16,
}

/// Which store keeps the answers, and the address of a remote one.
pub struct StoreConfig {
    pub backend: StoreBackend,
    pub url: String,
}

impl AppConfig {
    /// The default configuration is this one.
    pub open spec fn is_default(&self) -> bool {
        &&& self.server.host@ == "127.0.0.1"@
        &&& self.server.port == 3000
        &&& self.captcha.expire_seconds == 120
        &&& self.store.backend is Memory
        &&& self.store.url@ == "redis://localhost:6379"@
    }
}

impl Default for AppConfig {
    /// Listen on 127.0.0.1:3000, keep answers 120 seconds, in memory; the
    /// remote store address defaults to `redis://localhost:6379`.
    fn default() -> (c: Self)
        ensures
            c.is_default(),
    {
        AppConfig {
            server: ServerConfig { host: String::from_str("127.0.0.1"), port: 3000 },
            captcha: CaptchaConfig { expire_seconds: 120 },
            store: StoreConfig {
                backend: StoreBackend::Memory,
                url: String::from_str("redis://localhost:6379"),
            },
        }
    }
}

} // verus!
