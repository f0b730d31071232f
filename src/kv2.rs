//! Requests of the versioned key-value secrets engine.
//!
//! Each function builds the one request of its call; the transport sends it
//! and [`crate::api`] decides the outcome. Soft delete, undelete and destroy
//! are distinct operations of the server, each with an endpoint of its own.

use vstd::prelude::*;
use crate::request::{Endpoint, Method, RequestBody, VersioningOptions, join_path, slash_join};
use crate::responses::{ListSecretsResponse, ReadSecretResponse};

pub mod config;

verus! {

/// The path of an operation on the secret at `path` of the mount `mount`:
/// `mount/operation/path`.
pub open spec fn secret_path(mount: Seq<char>, operation: Seq<char>, path: Seq<char>) -> Seq<char> {
    slash_join(slash_join(mount, operation), path)
}

/// `e` is a request with the given method and path, no query and an empty body.
pub open spec fn is_plain(e: Endpoint, method: Method, path: Seq<char>) -> bool {
    &&& e.method == method
    &&& e.path@ == path
    &&& e.query@.len() == 0
    &&& e.body is Empty
}

/// `e` is a request with the given method and path, no query, and a body of
/// the given versions.
pub open spec fn is_versions(e: Endpoint, method: Method, path: Seq<char>, versions: Seq<u64>) -> bool {
    &&& e.method == method
    &&& e.path@ == path
    &&& e.query@.len() == 0
    &&& e.body matches RequestBody::Versions(v) && v@ == versions
}

fn secret_endpoint(mount: &str, operation: &str, path: &str, method: Method, body: RequestBody) -> (r: Endpoint)
    ensures
        r.method == method,
        r.path@ == secret_path(mount@, operation@, path@),
        r.query@.len() == 0,
        r.body == body,
{
    let prefix = join_path(mount, operation);
    Endpoint {
        method,
        path: join_path(prefix.as_str(), path),
        query: Vec::new(),
        body,
    }
}

/// Soft-deletes the latest version of a secret.
pub fn delete_latest(mount: &str, path: &str) -> (r: Endpoint)
    ensures
        is_plain(r, Method::Delete, secret_path(mount@, "data"@, path@)),
{
    secret_endpoint(mount, "data", path, Method::Delete, RequestBody::Empty)
}

/// Deletes all metadata and every version of a secret.
pub fn delete_metadata(mount: &str, path: &str) -> (r: Endpoint)
    ensures
        is_plain(r, Method::Delete, secret_path(mount@, "metadata"@, path@)),
{
    secret_endpoint(mount, "metadata", path, Method::Delete, RequestBody::Empty)
}

/// Soft-deletes the given versions of a secret.
pub fn delete_versions(mount: &str, path: &str, versions: Vec<u64>) -> (r: Endpoint)
    ensures
        is_versions(r, Method::Post, secret_path(mount@, "delete"@, path@), versions@),
{
    secret_endpoint(mount, "delete", path, Method::Post, RequestBody::Versions(versions))
}

/// Permanently deletes the given versions of a secret.
pub fn destroy_versions(mount: &str, path: &str, versions: Vec<u64>) -> (r: Endpoint)
    ensures
        is_versions(r, Method::Post, secret_path(mount@, "destroy"@, path@), versions@),
{
    secret_endpoint(mount, "destroy", path, Method::Post, RequestBody::Versions(versions))
}

/// Restores the given soft-deleted versions of a secret.
pub fn undelete_versions(mount: &str, path: &str, versions: Vec<u64>) -> (r: Endpoint)
    ensures
        is_versions(r, Method::Post, secret_path(mount@, "undelete"@, path@), versions@),
{
    secret_endpoint(mount, "undelete", path, Method::Post, RequestBody::Versions(versions))
}

/// Lists the keys under a path.
pub fn list(mount: &str, path: &str) -> (r: Endpoint)
    ensures
        is_plain(r, Method::List, secret_path(mount@, "metadata"@, path@)),
{
    secret_endpoint(mount, "metadata", path, Method::List, RequestBody::Empty)
}

/// The keys of a listing.
pub fn list_keys(res: ListSecretsResponse) -> (r: Vec<String>)
    ensures
        r == res.keys,
{
    res.keys
}

/// Reads the latest version of a secret.
pub fn read(mount: &str, path: &str) -> (r: Endpoint)
    ensures
        is_plain(r, Method::Get, secret_path(mount@, "data"@, path@)),
{
    secret_endpoint(mount, "data", path, Method::Get, RequestBody::Empty)
}

/// Reads the given version of a secret.
pub fn read_version(mount: &str, path: &str, version: u64) -> (r: Endpoint)
    ensures
        r.method == Method::Get,
        r.path@ == secret_path(mount@, "data"@, path@),
        r.query@.len() == 1,
        r.query@[0].0@ == "version"@,
        r.query@[0].1 == version,
        r.body is Empty,
{
    let mut e = secret_endpoint(mount, "data", path, Method::Get, RequestBody::Empty);
    e.query.push((String::from_str("version"), version));
    e
}

/// The payload of a secret as read.
pub fn read_data(res: ReadSecretResponse) -> (r: serde_json::Value)
    ensures
        r == res.data,
{
    res.data
}

/// Reads the metadata of a secret.
pub fn read_metadata(mount: &str, path: &str) -> (r: Endpoint)
    ensures
        is_plain(r, Method::Get, secret_path(mount@, "metadata"@, path@)),
{
    secret_endpoint(mount, "metadata", path, Method::Get, RequestBody::Empty)
}

/// Writes a new version of a secret holding `data`.
pub fn set(mount: &str, path: &str, data: serde_json::Value) -> (r: Endpoint)
    ensures
        is_write(r, mount@, path@, data),
{
    secret_endpoint(mount, "data", path, Method::Post, RequestBody::Data(data))
}

/// Updates the settings of a secret; options left `None` keep theirs.
pub fn set_metadata(mount: &str, path: &str, opts: Option<VersioningOptions>) -> (r: Endpoint)
    ensures
        r.method == Method::Post,
        r.path@ == secret_path(mount@, "metadata"@, path@),
        r.query@.len() == 0,
        r.body matches RequestBody::Options(o) && match opts {
            Some(given) => o == given,
            None => o.max_versions is None && o.cas_required is None && o.delete_version_after is None,
        },
{
    let o = match opts {
        Some(given) => given,
        None => VersioningOptions::new(),
    };
    secret_endpoint(mount, "metadata", path, Method::Post, RequestBody::Options(o))
}

/// `e` writes `data` as a new version of the secret at `path` of `mount`.
pub open spec fn is_write(e: Endpoint, mount: Seq<char>, path: Seq<char>, data: serde_json::Value) -> bool {
    &&& e.method == Method::Post
    &&& e.path@ == secret_path(mount, "data"@, path)
    &&& e.query@.len() == 0
    &&& e.body == RequestBody::Data(data)
}

/// A write and a later read of the same mount and path address the same
/// secret, and the write hands the caller's payload to the server unchanged.
pub proof fn lemma_write_then_read(
    mount: Seq<char>,
    path: Seq<char>,
    data: serde_json::Value,
    write: Endpoint,
    read: Endpoint,
)
    requires
        is_write(write, mount, path, data),
        is_plain(read, Method::Get, secret_path(mount, "data"@, path)),
    ensures
        write.path@ == read.path@,
        write.body matches RequestBody::Data(d) && d == data,
{
}

/// Soft delete, undelete and destroy of the same versions of one secret
/// carry the same versions, and each goes to its own operation of that
/// secret: the three requests differ in their operation segment only.
pub proof fn lemma_version_operations(
    mount: Seq<char>,
    path: Seq<char>,
    versions: Seq<u64>,
    delete: Endpoint,
    undelete: Endpoint,
    destroy: Endpoint,
)
    requires
        is_versions(delete, Method::Post, secret_path(mount, "delete"@, path), versions),
        is_versions(undelete, Method::Post, secret_path(mount, "undelete"@, path), versions),
        is_versions(destroy, Method::Post, secret_path(mount, "destroy"@, path), versions),
    ensures
        delete.body matches RequestBody::Versions(a) && undelete.body matches RequestBody::Versions(b)
            && destroy.body matches RequestBody::Versions(c) && a@ == b@ && b@ == c@,
        delete.path@ != undelete.path@,
        delete.path@ != destroy.path@,
        undelete.path@ != destroy.path@,
{
    reveal_strlit("delete");
    reveal_strlit("undelete");
    reveal_strlit("destroy");
    reveal_strlit("/");
    assert(delete.path@.len() + 2 == undelete.path@.len());
    assert(delete.path@.len() + 1 == destroy.path@.len());
}

} // verus!
