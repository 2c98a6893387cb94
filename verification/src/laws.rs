//! Cross-operation guarantees of the registry, each stated over the publish
//! and download contracts and proved once for every state and input.

use crate::checksum::sha256_hex_of;
use crate::error::RegistryError;
use crate::models::{PublishRequest, PublishResponse};
use crate::registry::{download_outcome, publish_outcome, Registry};
use vstd::prelude::*;

verus! {

/// The request may be published by `owner_id`: the name is free, or the
/// caller owns it and the version is new.
pub open spec fn publishable(pre: Registry, owner_id: u64, req: PublishRequest) -> bool {
    ||| !pre.catalog.has_crate_named(req.name@)
    ||| (pre.catalog.crate_named(req.name@).owner_id == owner_id
        && !pre.catalog.has_version_row(pre.catalog.crate_named(req.name@).id, req.vers@))
}

/// Publishing a valid, never-before-published `(name, version, bytes)`
/// succeeds; a download of that pair then returns exactly those bytes, and
/// the recorded checksum equals the digest of those bytes.
pub proof fn lemma_publish_then_download(
    pre: Registry,
    mid: Registry,
    post: Registry,
    owner_id: u64,
    req: PublishRequest,
    data: Seq<u8>,
    now: u64,
    rp: Result<PublishResponse, RegistryError>,
    rd: Result<Seq<u8>, RegistryError>,
)
    requires
        pre.wf(),
        mid.wf(),
        req.spec_valid(),
        data.len() <= u64::MAX,
        publishable(pre, owner_id, req),
        publish_outcome(pre, mid, owner_id, req, data, now, rp),
        download_outcome(mid, post, req.name@, req.vers@, rd),
    ensures
        rp is Ok,
        rd == Ok::<Seq<u8>, RegistryError>(data),
        mid.catalog.version_row(mid.catalog.crate_named(req.name@).id, req.vers@).checksum@
            == sha256_hex_of(data),
        mid.catalog.version_row(mid.catalog.crate_named(req.name@).id, req.vers@).file_size
            == data.len(),
{
    let cid = mid.catalog.crate_named(req.name@).id;
    let w = mid.catalog.versions@.len() - 1;
    mid.catalog.lemma_version_row_pins(cid, req.vers@, w);
}

/// Publishing the same `(name, version)` twice — same or different bytes,
/// same publisher — has the second call fail with `Conflict`, and the first
/// call's stored bytes and recorded checksum remain unchanged.
pub proof fn lemma_republish_conflict(
    pre: Registry,
    mid: Registry,
    post: Registry,
    owner_id: u64,
    req1: PublishRequest,
    data1: Seq<u8>,
    now1: u64,
    resp: PublishResponse,
    req2: PublishRequest,
    data2: Seq<u8>,
    now2: u64,
    r2: Result<PublishResponse, RegistryError>,
)
    requires
        pre.wf(),
        mid.wf(),
        publish_outcome(pre, mid, owner_id, req1, data1, now1, Ok(resp)),
        req2.name@ == req1.name@,
        req2.vers@ == req1.vers@,
        req2.spec_valid(),
        publish_outcome(mid, post, owner_id, req2, data2, now2, r2),
    ensures
        r2 == Err::<PublishResponse, RegistryError>(RegistryError::Conflict),
        post == mid,
        post.blobs.spec_data(req1.name@, req1.vers@) == data1,
        post.catalog.version_row(post.catalog.crate_named(req1.name@).id, req1.vers@).checksum@
            == sha256_hex_of(data1),
{
    let cid = mid.catalog.crate_named(req1.name@).id;
    let w = mid.catalog.versions@.len() - 1;
    mid.catalog.lemma_version_row_pins(cid, req1.vers@, w);
}

/// After a first publish claims a new name, a second publish of that name by
/// a different principal fails with `Forbidden` and changes nothing: exactly
/// one package row carries the name, owned by the first publisher.
pub proof fn lemma_new_name_single_owner(
    pre: Registry,
    mid: Registry,
    post: Registry,
    first_owner: u64,
    req1: PublishRequest,
    data1: Seq<u8>,
    now1: u64,
    resp: PublishResponse,
    second_owner: u64,
    req2: PublishRequest,
    data2: Seq<u8>,
    now2: u64,
    r2: Result<PublishResponse, RegistryError>,
)
    requires
        pre.wf(),
        mid.wf(),
        !pre.catalog.has_crate_named(req1.name@),
        publish_outcome(pre, mid, first_owner, req1, data1, now1, Ok(resp)),
        second_owner != first_owner,
        req2.name@ == req1.name@,
        req2.spec_valid(),
        publish_outcome(mid, post, second_owner, req2, data2, now2, r2),
    ensures
        r2 == Err::<PublishResponse, RegistryError>(RegistryError::Forbidden),
        post == mid,
        post.catalog.has_crate_named(req1.name@),
        post.catalog.crate_named(req1.name@).owner_id == first_owner,
        forall|i: int, j: int|
            0 <= i < post.catalog.crates@.len() && 0 <= j < post.catalog.crates@.len()
                && (#[trigger] post.catalog.crates@[i]).name@ == req1.name@
                && (#[trigger] post.catalog.crates@[j]).name@ == req1.name@ ==> i == j,
{
    assert forall|i: int, j: int|
        0 <= i < post.catalog.crates@.len() && 0 <= j < post.catalog.crates@.len()
            && (#[trigger] post.catalog.crates@[i]).name@ == req1.name@
            && (#[trigger] post.catalog.crates@[j]).name@ == req1.name@ implies i == j by {
        if i < j {
            assert(mid.catalog.crates@[i].name@ != mid.catalog.crates@[j].name@);
        } else if j < i {
            assert(mid.catalog.crates@[j].name@ != mid.catalog.crates@[i].name@);
        }
    }
}

/// A publish by a principal who does not own the already-registered name
/// fails with `Forbidden` and changes nothing — in particular it creates no
/// version row and writes no blob.
pub proof fn lemma_foreign_publish_forbidden(
    pre: Registry,
    post: Registry,
    owner_id: u64,
    req: PublishRequest,
    data: Seq<u8>,
    now: u64,
    r: Result<PublishResponse, RegistryError>,
)
    requires
        pre.catalog.has_crate_named(req.name@),
        pre.catalog.crate_named(req.name@).owner_id != owner_id,
        req.spec_valid(),
        publish_outcome(pre, post, owner_id, req, data, now, r),
    ensures
        r == Err::<PublishResponse, RegistryError>(RegistryError::Forbidden),
        post == pre,
        post.catalog.versions@ == pre.catalog.versions@,
{
}

/// Directional atomicity: in a well-formed registry, every visible version
/// row has retrievable bytes whose length and digest match the row. A blob
/// without a row is possible; the converse never is.
pub proof fn lemma_version_row_implies_blob(reg: Registry, i: int)
    requires
        reg.wf(),
        0 <= i < reg.catalog.versions@.len(),
    ensures
        ({
            let v = reg.catalog.versions@[i];
            let name = reg.catalog.crate_with_id(v.crate_id).name@;
            &&& reg.blobs.spec_has(name, v.version@)
            &&& reg.blobs.spec_data(name, v.version@).len() == v.file_size
            &&& sha256_hex_of(reg.blobs.spec_data(name, v.version@)) == v.checksum@
        }),
{
    assert(reg.version_consistent(i));
}

/// A download of a `(name, version)` that holds no blob returns `NotFound`
/// and mutates nothing — in particular no download counter moves.
pub proof fn lemma_download_missing(
    pre: Registry,
    post: Registry,
    name: Seq<char>,
    version: Seq<char>,
    r: Result<Seq<u8>, RegistryError>,
)
    requires
        !pre.blobs.spec_has(name, version),
        download_outcome(pre, post, name, version, r),
    ensures
        r == Err::<Seq<u8>, RegistryError>(RegistryError::NotFound),
        post == pre,
        forall|i: int|
            0 <= i < pre.catalog.crates@.len()
                ==> (#[trigger] post.catalog.crates@[i]).downloads
                == pre.catalog.crates@[i].downloads,
{
}

} // verus!
