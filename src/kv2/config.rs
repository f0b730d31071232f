//! Requests on the configuration of a key-value mount.

use vstd::prelude::*;
use crate::request::{Endpoint, Method, RequestBody, VersioningOptions, join_path, slash_join};

verus! {

/// Reads the configuration of the mounted key-value engine.
pub fn read(mount: &str) -> (r: Endpoint)
    ensures
        r.method == Method::Get,
        r.path@ == slash_join(mount@, "config"@),
        r.query@.len() == 0,
        r.body is Empty,
{
    Endpoint { method: Method::Get, path: join_path(mount, "config"), query: Vec::new(), body: RequestBody::Empty }
}

/// Updates the configuration of the mounted key-value engine; options left
/// `None` keep theirs.
pub fn set(mount: &str, opts: Option<VersioningOptions>) -> (r: Endpoint)
    ensures
        r.method == Method::Post,
        r.path@ == slash_join(mount@, "config"@),
        r.query@.len() == 0,
        r.body matches RequestBody::Options(o) && match opts {
            Some(given) => o == given,
            None => o.max_versions is None && o.cas_required is None && o.delete_version_after is None,
        },
{
    let o = match opts {
        Some(given) => given,
        None => VersioningOptions::new(),
    };
    Endpoint { method: Method::Post, path: join_path(mount, "config"), query: Vec::new(), body: RequestBody::Options(o) }
}

} // verus!
