use vstd::prelude::*;

verus! {

/// Address the gateway listens on when the configuration names none.
pub const DEFAULT_LISTEN_ADDR: &'static str = "127.0.0.1";

/// Port the gateway listens on when the configuration names none.
pub const DEFAULT_LISTEN_PORT: u16 = 8080;

/// Address and port the gateway listens on.
#[derive(Debug, Clone, PartialEq, Eq)]
pub struct Setting {
    pub listen_addr: String,
    pub listen_port: u16,
}

} // verus!
