use vstd::prelude::*;

verus! {

/// Node settings: where they were read from, the peer identity and zone to
/// use, and the channel port.
#[derive(Debug, Clone)]
pub struct Config {
    pub config_path: Option<String>,
    pub peer_identity: Option<String>,
    pub cadet_port: u16,
    pub gns_zone: Option<String>,
}

impl Default for Config {
    fn default() -> (r: Config)
        ensures
            r.config_path is None,
            r.peer_identity is None,
            r.cadet_port == 0,
            r.gns_zone is None,
    {
        Config { config_path: None, peer_identity: None, cadet_port: 0, gns_zone: None }
    }
}

impl Config {
    /// Default settings that remember the file they belong to.
    pub fn from_file(path: String) -> (r: Config)
        ensures
            r.config_path matches Some(p) && p@ == path@,
            r.peer_identity is None,
            r.cadet_port == 0,
            r.gns_zone is None,
    {
        Config { config_path: Some(path), peer_identity: None, cadet_port: 0, gns_zone: None }
    }
}

} // verus!
