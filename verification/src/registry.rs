//! The publish and download pipelines over the two stores.
//!
//! The registry pairs the catalog with the blob store and enforces the
//! ordering contract between them: ownership and uniqueness are checked
//! before any byte is written, the blob is written next, and the version row
//! is committed last. The well-formedness invariant [`Registry::consistent`]
//! is the directional atomicity guarantee: every visible version row has
//! retrievable bytes whose length and digest match the row — a written blob
//! without a row is possible (and harmless), the converse never is.

use crate::blob::BlobStore;
use crate::catalog::{bumped, new_crate_row, new_version_row, same_but_downloads, Catalog};
use crate::checksum::{sha256_hex, sha256_hex_of};
use crate::error::RegistryError;
use crate::models::{PublishRequest, PublishResponse};
use vstd::prelude::*;

verus! {

/// The catalog after a download of the package named `name`: the one row's
/// counter is bumped, everything else is untouched.
pub open spec fn bumped_catalog(pre: Catalog, post: Catalog, name: Seq<char>) -> bool {
    &&& post.versions@ == pre.versions@
    &&& post.next_id == pre.next_id
    &&& post.crates@.len() == pre.crates@.len()
    &&& if pre.has_crate_named(name) {
        let k = pre.crate_index_of(name);
        &&& forall|i: int|
            0 <= i < pre.crates@.len() && i != k ==> post.crates@[i] == pre.crates@[i]
        &&& same_but_downloads(pre.crates@[k], post.crates@[k], bumped(pre.crates@[k].downloads))
    } else {
        post.crates@ == pre.crates@
    }
}

/// A registry: the relational catalog and the blob store, kept consistent by
/// the publish pipeline.
pub struct Registry {
    pub catalog: Catalog,
    pub blobs: BlobStore,
}

impl Registry {
    /// Version row `i` has retrievable, checksum-matching bytes.
    pub open spec fn version_consistent(self, i: int) -> bool {
        let v = self.catalog.versions@[i];
        let name = self.catalog.crate_with_id(v.crate_id).name@;
        &&& self.blobs.spec_has(name, v.version@)
        &&& self.blobs.spec_data(name, v.version@).len() == v.file_size
        &&& sha256_hex_of(self.blobs.spec_data(name, v.version@)) == v.checksum@
    }

    /// Directional consistency: a version row implies its blob, byte length
    /// and digest included.
    pub open spec fn consistent(self) -> bool {
        forall|i: int|
            0 <= i < self.catalog.versions@.len() ==> #[trigger] self.version_consistent(i)
    }

    pub open spec fn wf(self) -> bool {
        self.catalog.wf() && self.consistent()
    }

    /// An empty registry.
    pub fn new() -> (r: Registry)
        ensures
            r.wf(),
            r.catalog.crates@.len() == 0,
            r.catalog.versions@.len() == 0,
            r.catalog.next_id == 1,
            forall|n: Seq<char>, v: Seq<char>| !r.blobs.spec_has(n, v),
    {
        Registry { catalog: Catalog::new(), blobs: BlobStore::new() }
    }
}

/// What a successful publish does to the state.
pub open spec fn published(
    pre: Registry,
    post: Registry,
    owner_id: u64,
    req: PublishRequest,
    data: Seq<u8>,
    now: u64,
) -> bool {
    &&& if pre.catalog.has_crate_named(req.name@) {
        post.catalog.crates@ == pre.catalog.crates@
    } else {
        &&& post.catalog.crates@.len() == pre.catalog.crates@.len() + 1
        &&& post.catalog.crates@.drop_last() == pre.catalog.crates@
        &&& new_crate_row(post.catalog.crates@.last(), req, owner_id, now, pre.catalog.next_id)
    }
    &&& post.catalog.has_crate_named(req.name@)
    &&& post.catalog.crate_named(req.name@).owner_id == owner_id
    &&& pre.catalog.next_id <= post.catalog.next_id <= pre.catalog.next_id + 2
    &&& post.catalog.versions@.len() == pre.catalog.versions@.len() + 1
    &&& post.catalog.versions@.drop_last() == pre.catalog.versions@
    &&& new_version_row(
        post.catalog.versions@.last(),
        post.catalog.crate_named(req.name@).id,
        req,
        sha256_hex_of(data),
        data.len() as u64,
        now,
        post.catalog.versions@.last().id,
    )
    &&& post.catalog.has_version_row(post.catalog.crate_named(req.name@).id, req.vers@)
    &&& post.blobs.spec_has(req.name@, req.vers@)
    &&& post.blobs.spec_data(req.name@, req.vers@) == data
    &&& forall|n: Seq<char>, v: Seq<char>|
        !(n == req.name@ && v == req.vers@) ==> {
            &&& #[trigger] post.blobs.spec_has(n, v) == pre.blobs.spec_has(n, v)
            &&& post.blobs.spec_has(n, v) ==> post.blobs.spec_data(n, v) == pre.blobs.spec_data(
                n,
                v,
            )
        }
}

/// The full publish contract: which result comes back on which state, and
/// the state each result leaves behind. Errors leave the registry untouched —
/// in particular, a `Forbidden` or `Conflict` publish writes no blob.
pub open spec fn publish_outcome(
    pre: Registry,
    post: Registry,
    owner_id: u64,
    req: PublishRequest,
    data: Seq<u8>,
    now: u64,
    r: Result<PublishResponse, RegistryError>,
) -> bool {
    if !req.spec_valid() {
        r == Err::<PublishResponse, RegistryError>(RegistryError::MalformedRequest) && post == pre
    } else if pre.catalog.has_crate_named(req.name@) && pre.catalog.crate_named(
        req.name@,
    ).owner_id != owner_id {
        r == Err::<PublishResponse, RegistryError>(RegistryError::Forbidden) && post == pre
    } else if pre.catalog.has_crate_named(req.name@) && pre.catalog.has_version_row(
        pre.catalog.crate_named(req.name@).id,
        req.vers@,
    ) {
        r == Err::<PublishResponse, RegistryError>(RegistryError::Conflict) && post == pre
    } else {
        &&& r is Ok
        &&& (r->Ok_0).warnings.invalid_categories@.len() == 0
        &&& (r->Ok_0).warnings.invalid_badges@.len() == 0
        &&& (r->Ok_0).warnings.other@.len() == 0
        &&& published(pre, post, owner_id, req, data, now)
    }
}

/// The full download contract, over the returned bytes as a sequence.
pub open spec fn download_outcome(
    pre: Registry,
    post: Registry,
    name: Seq<char>,
    version: Seq<char>,
    r: Result<Seq<u8>, RegistryError>,
) -> bool {
    if !pre.blobs.spec_has(name, version) {
        r == Err::<Seq<u8>, RegistryError>(RegistryError::NotFound) && post == pre
    } else {
        &&& r == Ok::<Seq<u8>, RegistryError>(pre.blobs.spec_data(name, version))
        &&& post.blobs == pre.blobs
        &&& bumped_catalog(pre.catalog, post.catalog, name)
    }
}

impl Registry {
    /// The publish pipeline: validate the metadata, check ownership and
    /// version uniqueness, resolve or create the package row, write the
    /// blob, then commit the version row with the computed digest.
    pub fn publish(
        &mut self,
        owner_id: u64,
        req: &PublishRequest,
        data: &[u8],
        now: u64,
    ) -> (r: Result<PublishResponse, RegistryError>)
        requires
            old(self).wf(),
            old(self).catalog.next_id < u64::MAX - 1,
        ensures
            final(self).wf(),
            publish_outcome(*old(self), *final(self), owner_id, *req, data@, now, r),
    {
        if !req.valid() {
            return Err(RegistryError::MalformedRequest);
        }
        let mut existing: Option<(u64, u64)> = None;
        match self.catalog.get_crate_by_name(req.name.as_str()) {
            Some(c) => {
                existing = Some((c.id, c.owner_id));
            },
            None => {},
        }
        let ghost pre = *self;
        let crate_id: u64;
        let ghost mut pre_crate_idx: int = 0;
        match existing {
            Some((cid, own)) => {
                if own != owner_id {
                    return Err(RegistryError::Forbidden);
                }
                if self.catalog.version_exists(cid, req.vers.as_str()) {
                    return Err(RegistryError::Conflict);
                }
                crate_id = cid;
                proof {
                    pre_crate_idx = pre.catalog.crate_index_of(req.name@);
                }
            },
            None => {
                match self.catalog.create_crate(req, owner_id, now) {
                    Ok(id) => {
                        crate_id = id;
                        proof {
                            pre_crate_idx = self.catalog.crates@.len() - 1;
                            self.catalog.lemma_crate_named_pins(req.name@, pre_crate_idx);
                            self.catalog.lemma_crate_with_id_pins(crate_id, pre_crate_idx);
                            // no version row can reference the fresh id
                            assert forall|t: int| 0 <= t < self.catalog.versions@.len()
                                implies (#[trigger] self.catalog.versions@[t]).crate_id
                                != crate_id by {
                                let j = choose|j: int|
                                    0 <= j < pre.catalog.crates@.len()
                                        && (#[trigger] pre.catalog.crates@[j]).id
                                        == pre.catalog.versions@[t].crate_id;
                                assert(pre.catalog.crates@[j].id < pre.catalog.next_id);
                            }
                        }
                    },
                    Err(e) => {
                        proof {
                            assert(false);
                        }
                        return Err(e);
                    },
                }
            },
        }
        let ghost mid = *self;
        proof {
            // the package row for the request is pinned at pre_crate_idx
            mid.catalog.lemma_crate_named_pins(req.name@, pre_crate_idx);
            mid.catalog.lemma_crate_with_id_pins(crate_id, pre_crate_idx);
            assert(mid.catalog.crates@[pre_crate_idx].id == crate_id);
            assert(!mid.catalog.has_version_row(crate_id, req.vers@));
        }
        let digest = sha256_hex(data);
        let _location = self.blobs.store_crate(req.name.as_str(), req.vers.as_str(), data);
        let file_size = data.len() as u64;
        match self.catalog.create_crate_version(crate_id, req, digest.as_str(), file_size, now) {
            Ok(_) => {
                proof {
                    assert(data@.len() == file_size);
                    self.lemma_publish_restores(pre, mid, owner_id, *req, data@, now, crate_id, pre_crate_idx);
                }
                Ok(PublishResponse::empty())
            },
            Err(e) => {
                proof {
                    assert(false);
                }
                Err(e)
            },
        }
    }

    /// The closing proof of the publish pipeline: from the contracts of the
    /// three store operations, the final state is well-formed and `published`
    /// holds.
    proof fn lemma_publish_restores(
        self,
        pre: Registry,
        mid: Registry,
        owner_id: u64,
        req: PublishRequest,
        data: Seq<u8>,
        now: u64,
        crate_id: u64,
        idx: int,
    )
        requires
            pre.wf(),
            req.spec_valid(),
            data.len() <= u64::MAX,
            mid.catalog.wf(),
            self.catalog.wf(),
            // mid: catalog after resolve-or-create, blobs as in pre
            mid.blobs == pre.blobs,
            mid.catalog.versions@ == pre.catalog.versions@,
            pre.catalog.next_id <= mid.catalog.next_id <= pre.catalog.next_id + 1,
            self.catalog.next_id == mid.catalog.next_id + 1,
            0 <= idx < mid.catalog.crates@.len(),
            mid.catalog.crates@[idx].id == crate_id,
            mid.catalog.crates@[idx].name@ == req.name@,
            mid.catalog.crates@[idx].owner_id == owner_id,
            !mid.catalog.has_version_row(crate_id, req.vers@),
            if pre.catalog.has_crate_named(req.name@) {
                mid.catalog.crates@ == pre.catalog.crates@
            } else {
                mid.catalog.crates@.len() == pre.catalog.crates@.len() + 1
                    && mid.catalog.crates@.drop_last() == pre.catalog.crates@
                    && new_crate_row(mid.catalog.crates@.last(), req, owner_id, now, pre.catalog.next_id)
                    && idx == mid.catalog.crates@.len() - 1
            },
            // self: catalog after the version commit, blobs after the write
            self.catalog.crates@ == mid.catalog.crates@,
            self.catalog.versions@.len() == mid.catalog.versions@.len() + 1,
            self.catalog.versions@.drop_last() == mid.catalog.versions@,
            new_version_row(
                self.catalog.versions@.last(),
                crate_id,
                req,
                sha256_hex_of(data),
                data.len() as u64,
                now,
                self.catalog.versions@.last().id,
            ),
            self.catalog.has_version_row(crate_id, req.vers@),
            self.blobs.spec_has(req.name@, req.vers@),
            self.blobs.spec_data(req.name@, req.vers@) == data,
            forall|n: Seq<char>, v: Seq<char>|
                !(n == req.name@ && v == req.vers@) ==> {
                    &&& #[trigger] self.blobs.spec_has(n, v) == pre.blobs.spec_has(n, v)
                    &&& self.blobs.spec_has(n, v) ==> self.blobs.spec_data(n, v)
                        == pre.blobs.spec_data(n, v)
                },
        ensures
            self.wf(),
            published(pre, self, owner_id, req, data, now),
    {
        self.catalog.lemma_crate_named_pins(req.name@, idx);
        self.catalog.lemma_crate_with_id_pins(crate_id, idx);
        assert(self.catalog.crate_named(req.name@).owner_id == owner_id);
        assert(self.catalog.crate_named(req.name@).id == crate_id);
        let nv = self.catalog.versions@;
        let ov = pre.catalog.versions@;
        assert forall|i: int| 0 <= i < nv.len() implies #[trigger] self.version_consistent(i) by {
            if i < ov.len() {
                let row = nv[i];
                assert(row == ov[i]);
                assert(pre.version_consistent(i));
                // the owning package row is the same in pre and self
                assert(pre.catalog.has_crate_with_id(row.crate_id));
                let j = pre.catalog.crate_index_of_id(row.crate_id);
                assert(0 <= j < pre.catalog.crates@.len());
                assert(pre.catalog.crates@[j].id == row.crate_id);
                assert(self.catalog.crates@[j] == pre.catalog.crates@[j]);
                self.catalog.lemma_crate_with_id_pins(row.crate_id, j);
                let name_i = pre.catalog.crate_with_id(row.crate_id).name@;
                // the old row's blob key differs from the new key
                if name_i == req.name@ {
                    // its package row carries the request's name, so it is
                    // the pinned row, and the version strings must differ
                    pre.catalog.lemma_crate_named_pins(req.name@, j);
                    assert(pre.catalog.has_crate_named(req.name@));
                    assert(mid.catalog.crates@ == pre.catalog.crates@);
                    assert(pre.catalog.crates@[idx].name@ == req.name@);
                    pre.catalog.lemma_crate_named_pins(req.name@, idx);
                    assert(j == idx);
                    assert(row.crate_id == crate_id);
                    assert(!mid.catalog.has_version_row(crate_id, req.vers@));
                    assert(mid.catalog.versions@[i] == row);
                    assert(row.version@ != req.vers@);
                }
                assert(self.blobs.spec_has(name_i, row.version@) == pre.blobs.spec_has(
                    name_i,
                    row.version@,
                ));
                assert(self.blobs.spec_data(name_i, row.version@) == pre.blobs.spec_data(
                    name_i,
                    row.version@,
                ));
            } else {
                let row = nv[i];
                assert(row == nv.last());
                assert(row.crate_id == crate_id);
                assert(self.catalog.crate_with_id(crate_id).name@ == req.name@);
                assert(self.blobs.spec_data(req.name@, row.version@) == data);
            }
        }
        if !pre.catalog.has_crate_named(req.name@) {
            assert(new_crate_row(mid.catalog.crates@.last(), req, owner_id, now, pre.catalog.next_id));
            assert(self.catalog.crates@.last() == mid.catalog.crates@.last());
        }
    }

    /// The download pipeline: resolve the blob, bump the download counter as
    /// a bookkeeping side effect that never blocks the response, and return
    /// the bytes.
    pub fn download(&mut self, name: &str, version: &str) -> (r: Result<Vec<u8>, RegistryError>)
        requires
            old(self).wf(),
        ensures
            final(self).wf(),
            download_outcome(
                *old(self),
                *final(self),
                name@,
                version@,
                match r {
                    Ok(d) => Ok(d@),
                    Err(e) => Err(e),
                },
            ),
    {
        if !self.blobs.crate_exists(name, version) {
            return Err(RegistryError::NotFound);
        }
        let mut found: Option<u64> = None;
        match self.catalog.get_crate_by_name(name) {
            Some(c) => {
                found = Some(c.id);
            },
            None => {},
        }
        let ghost pre = *self;
        match found {
            Some(cid) => {
                proof {
                    let k = pre.catalog.crate_index_of(name@);
                    assert(pre.catalog.crates@[k].name@ == name@);
                    assert(pre.catalog.crates@[k].id == cid);
                    pre.catalog.lemma_crate_with_id_pins(cid, k);
                }
                self.catalog.increment_download_count(cid);
                proof {
                    self.lemma_download_keeps_consistency(pre);
                }
            },
            None => {},
        }
        match self.blobs.get_crate_data(name, version) {
            Ok(d) => Ok(d),
            Err(e) => {
                proof {
                    assert(false);
                }
                Err(e)
            },
        }
    }

    /// Bumping one download counter changes no name, id or version row, so
    /// the cross-store consistency carries over.
    proof fn lemma_download_keeps_consistency(self, pre: Registry)
        requires
            pre.wf(),
            self.catalog.wf(),
            self.blobs == pre.blobs,
            self.catalog.versions@ == pre.catalog.versions@,
            self.catalog.crates@.len() == pre.catalog.crates@.len(),
            forall|i: int|
                0 <= i < pre.catalog.crates@.len()
                    ==> (#[trigger] self.catalog.crates@[i]).id == pre.catalog.crates@[i].id
                    && self.catalog.crates@[i].name@ == pre.catalog.crates@[i].name@,
        ensures
            self.consistent(),
    {
        assert forall|i: int| 0 <= i < self.catalog.versions@.len()
            implies #[trigger] self.version_consistent(i) by {
            let row = self.catalog.versions@[i];
            assert(pre.version_consistent(i));
            assert(pre.catalog.has_crate_with_id(row.crate_id));
            let j = pre.catalog.crate_index_of_id(row.crate_id);
            assert(pre.catalog.crates@[j].id == row.crate_id);
            assert(self.catalog.crates@[j].id == row.crate_id);
            self.catalog.lemma_crate_with_id_pins(row.crate_id, j);
            assert(self.catalog.crate_with_id(row.crate_id).name@ == pre.catalog.crate_with_id(
                row.crate_id,
            ).name@);
        }
    }
}

} // verus!
