//! Host-provided settings of the engine.
use vstd::prelude::*;

verus! {

/// Where the identity store is, how the host names this service, and the
/// names of the managed binary and of its release asset.
#[derive(Debug)]
pub struct Config {
    pub replit_db_url: String,
    pub repl_slug: String,
    pub repl_owner: String,
    pub bin_name: String,
    pub asset_name: String,
}

impl Config {
    /// Settings from the host's values; the binary is installed as `x` and
    /// found in the release archive as `xray`.
    pub fn new(replit_db_url: String, repl_slug: String, repl_owner: String) -> (r: Config)
        ensures
            r.replit_db_url@ == replit_db_url@,
            r.repl_slug@ == repl_slug@,
            r.repl_owner@ == repl_owner@,
            r.bin_name@ == "x"@,
            r.asset_name@ == "xray"@,
    {
        Config {
            replit_db_url,
            repl_slug,
            repl_owner,
            bin_name: String::from_str("x"),
            asset_name: String::from_str("xray"),
        }
    }

    /// The managed binary's path, in the working directory.
    pub fn bin_path(&self) -> (r: String)
        ensures
            r@ == "./"@ + self.bin_name@,
    {
        String::from_str("./").concat(self.bin_name.as_str())
    }
}

} // verus!
