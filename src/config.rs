use vstd::prelude::*;

verus! {

/// How a session is set up.
pub struct Config {
    /// Where the volume is to be mounted.
    pub mount_point: String,
    /// Whether the driver runs with its own debug output.
    pub debug_driver: bool,
    /// The credential for the storage service.
    pub dropbox_token: String,
}

} // verus!
