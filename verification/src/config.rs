//! Persistent settings and session metadata.
//!
//! The values themselves and the paths they are stored under are verified
//! here; reading the platform's data directory and the files on disk is
//! outside work, which hands this module the directory as plain text.

use vstd::prelude::*;

use vstd::string::StringExecFns;

verus! {

/// User configuration.
pub struct Config {
    /// How deep the library scan descends into the directory tree.
    pub scan_depth_limit: usize,
}

impl Default for Config {
    /// The configuration used until the user saves one.
    fn default() -> (c: Self)
        ensures
            c.scan_depth_limit == 12,
    {
        Config { scan_depth_limit: 12 }
    }
}

impl Config {
    /// The directory configuration files live in: the player's own folder
    /// under the platform's local data directory, handed in as text.
    pub fn config_dir(data_dir: &str) -> (r: String)
        ensures
            r@ == data_dir@ + "/aquinas"@,
    {
        Meta::config_dir(data_dir)
    }
}

/// Session metadata remembered across runs.
pub struct Meta {
    /// The directory the library was rooted at when the player last ran.
    pub last_path: Option<String>,
}

impl Default for Meta {
    /// The metadata used until a session saves one: no last path.
    fn default() -> (m: Self)
        ensures
            m.last_path is None,
    {
        Meta { last_path: None }
    }
}

impl Meta {
    /// The directory metadata files live in: the player's own folder under
    /// the platform's local data directory, handed in as text.
    pub fn config_dir(data_dir: &str) -> (r: String)
        ensures
            r@ == data_dir@ + "/aquinas"@,
    {
        let mut dir = data_dir.to_owned();
        dir.append("/aquinas");
        dir
    }
}

} // verus!
