//! The store of blobs behind the admin server.
use vstd::prelude::*;

use crate::http::{Failure, Status};

verus! {

/// Size limits by name, as the server is configured.
#[verifier::external_type_specification]
#[verifier::external_body]
pub struct ExLimits(rocket::data::Limits);

/// The limit that applies to each name without a slash, in bytes.
pub uninterp spec fn limit_table(limits: rocket::data::Limits) -> Map<Seq<char>, u64>;

/// Calls `Limits::get` of `rocket` and counts the limit in bytes.
///
/// Trusted: for a name without a slash, which has no levels above it, the result is
/// fixed by the limits and the name. That names which differ in case alone share a limit
/// is not stated.
#[verifier::external_body]
fn limit_of(limits: &rocket::data::Limits, name: &str) -> (limit: Option<u64>)
    requires
        !name@.contains('/'),
    ensures
        limit is Some <==> limit_table(*limits).dom().contains(name@),
        limit matches Some(n) ==> n == limit_table(*limits)[name@],
{
    limits.get(name).map(|limit| limit.as_u64())
}

/// The limit on the size of a blob where none is configured: ten mebibytes.
pub const DEFAULT_BLOB_LIMIT: u64 = 10485760;

/// The limit on the size of a blob, given the one that is configured.
pub fn blob_limit_or_default(configured: Option<u64>) -> (limit: u64)
    ensures
        limit == match configured {
            Some(n) => n,
            None => DEFAULT_BLOB_LIMIT,
        },
        configured is None ==> limit == 10 * 1024 * 1024,
{
    configured.unwrap_or(DEFAULT_BLOB_LIMIT)
}

/// The limit on the size of a blob that is stored, in bytes.
pub fn blob_limit(limits: &rocket::data::Limits) -> (limit: u64)
    ensures
        limit == if limit_table(*limits).dom().contains("Admin.PutObject"@) {
            limit_table(*limits)["Admin.PutObject"@]
        } else {
            DEFAULT_BLOB_LIMIT
        },
{
    proof {
        reveal_strlit("Admin.PutObject");
    }
    blob_limit_or_default(limit_of(limits, "Admin.PutObject"))
}

/// What the store is asked to keep: a blob of a kind under its hash, of which no more than
/// `limit` bytes are read.
#[derive(Debug)]
pub struct BlobRequest {
    pub hash: Vec<u8>,
    pub kind: String,
    pub limit: u64,
}

/// What a request to store a blob asks of the store: the hash and the kind as they are
/// given, and the limit that is configured.
pub fn blob_request(
    hash: Vec<u8>,
    kind: String,
    limits: &rocket::data::Limits,
) -> (request: BlobRequest)
    ensures
        request.hash == hash,
        request.kind == kind,
        request.limit == if limit_table(*limits).dom().contains("Admin.PutObject"@) {
            limit_table(*limits)["Admin.PutObject"@]
        } else {
            DEFAULT_BLOB_LIMIT
        },
{
    BlobRequest { hash, kind, limit: blob_limit(limits) }
}

/// The answer to a request to store a blob, given what the store said: its answer, or
/// the text of its error.
pub fn blob_post(stored: Result<Vec<u8>, String>) -> (answer: Result<Vec<u8>, Failure>)
    ensures
        stored matches Ok(hash) ==> answer == Ok::<Vec<u8>, Failure>(hash),
        stored matches Err(message) ==> answer == Err::<Vec<u8>, Failure>(
            Failure { status: Status::InternalServerError, message },
        ),
{
    match stored {
        Ok(hash) => Ok(hash),
        Err(message) => Err(Failure { status: Status::InternalServerError, message }),
    }
}

/// The answer to a request for a blob, given what came of opening its file.
pub fn blob_get<F, E>(opened: Result<F, E>) -> (answer: Result<F, Failure>)
    ensures
        opened matches Ok(file) ==> answer == Ok::<F, Failure>(file),
        opened is Err ==> (answer matches Err(failure) && failure.status == Status::NotFound
            && failure.message@ == "Object not found"@),
{
    match opened {
        Ok(file) => Ok(file),
        Err(_) => Err(
            Failure { status: Status::NotFound, message: "Object not found".to_owned() },
        ),
    }
}

} // verus!
