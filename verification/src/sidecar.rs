//! The local helper process that serves the analysis API.

use vstd::prelude::*;
use crate::text::{decimal, decimal_string};

verus! {

/// The port the helper process listens on, on the loopback interface.
pub const SIDECAR_PORT: u16 = 18080;

/// The command-line arguments the helper process is started with.
pub fn sidecar_args() -> (args: Vec<String>)
    ensures
        args@.len() == 2,
        args@[0]@ == "--port"@,
        args@[1]@ == decimal(SIDECAR_PORT as nat),
{
    let mut args: Vec<String> = Vec::new();
    args.push(String::from_str("--port"));
    args.push(decimal_string(SIDECAR_PORT as u32));
    args
}

} // verus!
