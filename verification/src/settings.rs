//! Process configuration as plain values. Loading from files and the
//! environment is I/O and happens outside the library; the library works on
//! the loaded values.

use vstd::prelude::*;
use vstd::string::StringExecFns;

use crate::digits::{dec_digits, fmt_u64};

verus! {

/// Logging configuration.
pub struct Logger {
    pub level: String,
}

/// Container runtime configuration for the locally managed store.
pub struct Docker {
    pub platform: String,
}

/// Record store configuration.
pub struct Sdb {
    pub host: String,
    pub port: u16,
    pub image: String,
    pub tag: String,
    pub container_name: String,
    pub namespace: String,
    pub database: String,
    pub username: String,
    pub password: String,
}

/// The whole process configuration.
pub struct Settings {
    pub environment: String,
    pub logger: Logger,
    pub docker: Docker,
    pub sdb: Sdb,
}

impl Sdb {
    /// The websocket endpoint of the store.
    pub fn endpoint(&self) -> (s: String)
        ensures
            s@ == "ws://"@ + self.host@ + ":"@ + dec_digits(self.port as nat),
    {
        let port = fmt_u64(self.port as u64);
        String::from_str("ws://").concat(self.host.as_str()).concat(":").concat(port.as_str())
    }

    /// The image reference of the locally managed store instance.
    pub fn image_ref(&self) -> (s: String)
        ensures
            s@ == self.image@ + ":"@ + self.tag@,
    {
        String::from_str(self.image.as_str()).concat(":").concat(self.tag.as_str())
    }
}

impl Settings {
    /// Whether this process runs against an externally hosted store rather
    /// than a locally managed instance.
    pub fn is_production(&self) -> (b: bool)
        ensures
            b == (self.environment@ == "production"@),
    {
        let prod = String::from_str("production");
        self.environment == prod
    }
}

} // verus!
