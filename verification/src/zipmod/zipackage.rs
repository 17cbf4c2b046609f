use vstd::prelude::*;

verus! {

/// One end of a transfer: a directory path and, when it is reached over the
/// network, the host, port and credentials to reach it with. An empty host
/// means the path is local.
#[derive(Debug)]
pub struct ZIPackage {
    pub path: String,
    pub host: String,
    pub port: u16,
    pub username: String,
    pub password: String,
}

impl ZIPackage {
    /// A package for `path` with no network credentials: every other text
    /// field empty and port 0.
    pub fn local(path: String) -> (pkg: ZIPackage)
        ensures
            pkg.path == path,
            pkg.host@ == Seq::<char>::empty(),
            pkg.port == 0,
            pkg.username@ == Seq::<char>::empty(),
            pkg.password@ == Seq::<char>::empty(),
    {
        ZIPackage {
            path,
            host: String::new(),
            port: 0,
            username: String::new(),
            password: String::new(),
        }
    }
}

} // verus!
