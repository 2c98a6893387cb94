//! The catalog: transactional bookkeeping of package and version rows,
//! independent of blob bytes.
//!
//! Uniqueness of package names and of `(crate_id, version)` pairs is enforced
//! here, as a storage-layer constraint would be in a relational catalog: the
//! check and the insert are one operation on `&mut self`, so two racing
//! publishes serialize against it and the loser observes `Conflict`.

use crate::error::RegistryError;
use crate::models::{
    deps_like, features_like, opt_string_like, strings_like, version_like, Crate, CrateVersion,
    PublishRequest,
};
use crate::strutil::str_eq;
use vstd::prelude::*;
use vstd::string::StringExecFns;

verus! {

/// A download counter bump: monotonic, saturating at the integer limit.
pub open spec fn bumped(d: u64) -> u64 {
    if d < u64::MAX {
        (d + 1) as u64
    } else {
        d
    }
}

/// `b` is `a` with the downloads counter replaced by `d`.
pub open spec fn same_but_downloads(a: Crate, b: Crate, d: u64) -> bool {
    b == (Crate { downloads: d, ..a })
}

/// The package row a successful `create_crate` adds for `req`.
pub open spec fn new_crate_row(c: Crate, req: PublishRequest, owner_id: u64, now: u64, id: u64) -> bool {
    &&& c.id == id
    &&& c.name@ == req.name@
    &&& opt_string_like(req.description, c.description)
    &&& opt_string_like(req.homepage, c.homepage)
    &&& opt_string_like(req.documentation, c.documentation)
    &&& opt_string_like(req.repository, c.repository)
    &&& strings_like(req.keywords@, c.keywords@)
    &&& strings_like(req.categories@, c.categories@)
    &&& opt_string_like(req.license, c.license)
    &&& c.owner_id == owner_id
    &&& c.downloads == 0
    &&& c.created_at == now
    &&& c.updated_at == now
}

/// The version row a successful `create_crate_version` adds for `req`.
pub open spec fn new_version_row(
    v: CrateVersion,
    crate_id: u64,
    req: PublishRequest,
    checksum: Seq<char>,
    file_size: u64,
    now: u64,
    id: u64,
) -> bool {
    &&& v.id == id
    &&& v.crate_id == crate_id
    &&& v.version@ == req.vers@
    &&& v.checksum@ == checksum
    &&& v.file_size == file_size
    &&& deps_like(req.deps@, v.dependencies@)
    &&& features_like(req.features@, v.features@)
    &&& !v.yanked
    &&& opt_string_like(req.license, v.license)
    &&& opt_string_like(req.readme, v.readme)
    &&& v.created_at == now
}

/// Package and version rows, with a counter handing out fresh row ids.
pub struct Catalog {
    pub crates: Vec<Crate>,
    pub versions: Vec<CrateVersion>,
    pub next_id: u64,
}

impl Catalog {
    /// Some package row carries `name`.
    pub open spec fn has_crate_named(self, name: Seq<char>) -> bool {
        exists|i: int| 0 <= i < self.crates@.len() && (#[trigger] self.crates@[i]).name@ == name
    }

    /// The index of the package row carrying `name`.
    pub open spec fn crate_index_of(self, name: Seq<char>) -> int {
        choose|i: int| 0 <= i < self.crates@.len() && (#[trigger] self.crates@[i]).name@ == name
    }

    /// The package row carrying `name`.
    pub open spec fn crate_named(self, name: Seq<char>) -> Crate {
        self.crates@[self.crate_index_of(name)]
    }

    /// Some package row has id `id`.
    pub open spec fn has_crate_with_id(self, id: u64) -> bool {
        exists|i: int| 0 <= i < self.crates@.len() && (#[trigger] self.crates@[i]).id == id
    }

    /// The index of the package row with id `id`.
    pub open spec fn crate_index_of_id(self, id: u64) -> int {
        choose|i: int| 0 <= i < self.crates@.len() && (#[trigger] self.crates@[i]).id == id
    }

    /// Some version row is `(crate_id, version)`.
    pub open spec fn has_version_row(self, crate_id: u64, version: Seq<char>) -> bool {
        exists|i: int|
            0 <= i < self.versions@.len() && (#[trigger] self.versions@[i]).crate_id == crate_id
                && self.versions@[i].version@ == version
    }

    /// The index of the version row `(crate_id, version)`.
    pub open spec fn version_index_of(self, crate_id: u64, version: Seq<char>) -> int {
        choose|i: int|
            0 <= i < self.versions@.len() && (#[trigger] self.versions@[i]).crate_id == crate_id
                && self.versions@[i].version@ == version
    }

    /// The version row `(crate_id, version)`.
    pub open spec fn version_row(self, crate_id: u64, version: Seq<char>) -> CrateVersion {
        self.versions@[self.version_index_of(crate_id, version)]
    }

    /// Well-formedness: names unique, row ids unique and below the counter,
    /// every version row tied to an existing package row, and `(crate_id,
    /// version)` unique.
    pub open spec fn wf(self) -> bool {
        &&& forall|i: int, j: int|
            0 <= i < j < self.crates@.len()
                ==> (#[trigger] self.crates@[i]).name@ != (#[trigger] self.crates@[j]).name@
        &&& forall|i: int, j: int|
            0 <= i < j < self.crates@.len()
                ==> (#[trigger] self.crates@[i]).id != (#[trigger] self.crates@[j]).id
        &&& forall|i: int|
            0 <= i < self.crates@.len() ==> (#[trigger] self.crates@[i]).id < self.next_id
        &&& forall|i: int|
            0 <= i < self.versions@.len()
                ==> self.has_crate_with_id((#[trigger] self.versions@[i]).crate_id)
        &&& forall|i: int, j: int|
            0 <= i < j < self.versions@.len()
                ==> !((#[trigger] self.versions@[i]).crate_id == (#[trigger] self.versions@[j]).crate_id
                    && self.versions@[i].version@ == self.versions@[j].version@)
    }

    /// The package row with id `id`.
    pub open spec fn crate_with_id(self, id: u64) -> Crate {
        self.crates@[self.crate_index_of_id(id)]
    }

    /// In a well-formed catalog, a row carrying `name` is the row that
    /// `crate_named` denotes: names pin their row.
    pub proof fn lemma_crate_named_pins(self, name: Seq<char>, i: int)
        requires
            self.wf(),
            0 <= i < self.crates@.len(),
            self.crates@[i].name@ == name,
        ensures
            self.has_crate_named(name),
            self.crate_index_of(name) == i,
            self.crate_named(name) == self.crates@[i],
    {
        assert(self.has_crate_named(name));
        let k = self.crate_index_of(name);
        if k < i {
            assert(self.crates@[k].name@ != self.crates@[i].name@);
        } else if i < k {
            assert(self.crates@[i].name@ != self.crates@[k].name@);
        }
    }

    /// In a well-formed catalog, a row with id `id` is the row that
    /// `crate_with_id` denotes: ids pin their row.
    pub proof fn lemma_crate_with_id_pins(self, id: u64, i: int)
        requires
            self.wf(),
            0 <= i < self.crates@.len(),
            self.crates@[i].id == id,
        ensures
            self.has_crate_with_id(id),
            self.crate_index_of_id(id) == i,
            self.crate_with_id(id) == self.crates@[i],
    {
        assert(self.has_crate_with_id(id));
        let k = self.crate_index_of_id(id);
        if k < i {
            assert(self.crates@[k].id != self.crates@[i].id);
        } else if i < k {
            assert(self.crates@[i].id != self.crates@[k].id);
        }
    }

    /// In a well-formed catalog, a version row `(crate_id, version)` is the
    /// row that `version_row` denotes: the pair pins its row.
    pub proof fn lemma_version_row_pins(self, crate_id: u64, version: Seq<char>, i: int)
        requires
            self.wf(),
            0 <= i < self.versions@.len(),
            self.versions@[i].crate_id == crate_id,
            self.versions@[i].version@ == version,
        ensures
            self.has_version_row(crate_id, version),
            self.version_index_of(crate_id, version) == i,
            self.version_row(crate_id, version) == self.versions@[i],
    {
        assert(self.has_version_row(crate_id, version));
        let k = self.version_index_of(crate_id, version);
        if k < i {
            assert(!(self.versions@[k].crate_id == self.versions@[i].crate_id
                && self.versions@[k].version@ == self.versions@[i].version@));
        } else if i < k {
            assert(!(self.versions@[i].crate_id == self.versions@[k].crate_id
                && self.versions@[i].version@ == self.versions@[k].version@));
        }
    }

    /// Decides `has_version_row`.
    pub fn version_exists(&self, crate_id: u64, version: &str) -> (r: bool)
        ensures
            r == self.has_version_row(crate_id, version@),
    {
        self.find_version_index(crate_id, version).is_some()
    }

    /// An empty catalog.
    pub fn new() -> (r: Catalog)
        ensures
            r.wf(),
            r.crates@.len() == 0,
            r.versions@.len() == 0,
            r.next_id == 1,
    {
        Catalog { crates: Vec::new(), versions: Vec::new(), next_id: 1 }
    }

    /// The index of the package row carrying `name`, if any.
    fn find_crate_index(&self, name: &str) -> (r: Option<usize>)
        ensures
            match r {
                Some(i) => i < self.crates@.len() && self.crates@[i as int].name@ == name@
                    && self.has_crate_named(name@),
                None => !self.has_crate_named(name@),
            },
    {
        let n = self.crates.len();
        let mut i: usize = 0;
        while i < n
            invariant
                0 <= i <= n,
                n == self.crates@.len(),
                forall|j: int| 0 <= j < i ==> (#[trigger] self.crates@[j]).name@ != name@,
            decreases n - i,
        {
            if str_eq(self.crates[i].name.as_str(), name) {
                return Some(i);
            }
            i = i + 1;
        }
        None
    }

    /// Exact-match lookup of a package row by name.
    pub fn get_crate_by_name(&self, name: &str) -> (r: Option<&Crate>)
        requires
            self.wf(),
        ensures
            match r {
                Some(c) => self.has_crate_named(name@) && *c == self.crate_named(name@),
                None => !self.has_crate_named(name@),
            },
    {
        match self.find_crate_index(name) {
            Some(i) => {
                proof {
                    let k = self.crate_index_of(name@);
                    assert(0 <= k < self.crates@.len() && self.crates@[k].name@ == name@);
                    if k != i {
                        assert(self.crates@[k].name@ != self.crates@[i as int].name@);
                    }
                }
                Some(&self.crates[i])
            },
            None => None,
        }
    }

    /// Creates a package row for `req` owned by `owner_id`; `Conflict` if and
    /// only if the name is already taken, in which case nothing changes.
    /// Returns the fresh row id.
    pub fn create_crate(&mut self, req: &PublishRequest, owner_id: u64, now: u64) -> (r: Result<
        u64,
        RegistryError,
    >)
        requires
            old(self).wf(),
            old(self).next_id < u64::MAX,
        ensures
            final(self).wf(),
            match r {
                Err(e) => {
                    &&& e == RegistryError::Conflict
                    &&& old(self).has_crate_named(req.name@)
                    &&& *final(self) == *old(self)
                },
                Ok(id) => {
                    &&& !old(self).has_crate_named(req.name@)
                    &&& id == old(self).next_id
                    &&& final(self).next_id == old(self).next_id + 1
                    &&& final(self).versions@ == old(self).versions@
                    &&& final(self).crates@.len() == old(self).crates@.len() + 1
                    &&& final(self).crates@.drop_last() == old(self).crates@
                    &&& new_crate_row(final(self).crates@.last(), *req, owner_id, now, id)
                    &&& final(self).has_crate_named(req.name@)
                },
            },
    {
        if self.find_crate_index(req.name.as_str()).is_some() {
            return Err(RegistryError::Conflict);
        }
        let id = self.next_id;
        let row = Crate {
            id,
            name: req.name.clone(),
            description: crate::models::copy_opt_string(&req.description),
            homepage: crate::models::copy_opt_string(&req.homepage),
            documentation: crate::models::copy_opt_string(&req.documentation),
            repository: crate::models::copy_opt_string(&req.repository),
            keywords: crate::models::copy_strings(&req.keywords),
            categories: crate::models::copy_strings(&req.categories),
            license: crate::models::copy_opt_string(&req.license),
            owner_id,
            downloads: 0,
            created_at: now,
            updated_at: now,
        };
        self.crates.push(row);
        self.next_id = id + 1;
        proof {
            let nc = self.crates@;
            let oc = old(self).crates@;
            assert(nc.drop_last() =~= oc);
            assert(nc.last() == nc[nc.len() - 1]);
            let w = nc.len() - 1;
            assert(nc[w].name@ == req.name@);
            assert forall|i: int| 0 <= i < self.versions@.len()
                implies self.has_crate_with_id((#[trigger] self.versions@[i]).crate_id) by {
                assert(old(self).has_crate_with_id(self.versions@[i].crate_id));
                let j = choose|j: int|
                    0 <= j < oc.len() && (#[trigger] oc[j]).id == self.versions@[i].crate_id;
                assert(nc[j].id == self.versions@[i].crate_id);
            }
        }
        Ok(id)
    }

    /// The index of the version row `(crate_id, version)`, if any.
    fn find_version_index(&self, crate_id: u64, version: &str) -> (r: Option<usize>)
        ensures
            match r {
                Some(i) => i < self.versions@.len()
                    && self.versions@[i as int].crate_id == crate_id
                    && self.versions@[i as int].version@ == version@
                    && self.has_version_row(crate_id, version@),
                None => !self.has_version_row(crate_id, version@),
            },
    {
        let n = self.versions.len();
        let mut i: usize = 0;
        while i < n
            invariant
                0 <= i <= n,
                n == self.versions@.len(),
                forall|j: int|
                    0 <= j < i
                        ==> !((#[trigger] self.versions@[j]).crate_id == crate_id
                            && self.versions@[j].version@ == version@),
            decreases n - i,
        {
            let row = &self.versions[i];
            if row.crate_id == crate_id && str_eq(row.version.as_str(), version) {
                return Some(i);
            }
            i = i + 1;
        }
        None
    }

    /// Some package row has id `crate_id` (decides `has_crate_with_id`).
    fn crate_id_exists(&self, crate_id: u64) -> (r: bool)
        ensures
            r == self.has_crate_with_id(crate_id),
    {
        let n = self.crates.len();
        let mut i: usize = 0;
        while i < n
            invariant
                0 <= i <= n,
                n == self.crates@.len(),
                forall|j: int| 0 <= j < i ==> (#[trigger] self.crates@[j]).id != crate_id,
            decreases n - i,
        {
            if self.crates[i].id == crate_id {
                return true;
            }
            i = i + 1;
        }
        false
    }

    /// Creates the version row `(crate_id, req.vers)` with the recorded
    /// checksum and byte length. `Conflict` if and only if that pair already
    /// exists; `CatalogError` if `crate_id` names no package row. On either
    /// error nothing changes. Returns the fresh row id.
    pub fn create_crate_version(
        &mut self,
        crate_id: u64,
        req: &PublishRequest,
        checksum: &str,
        file_size: u64,
        now: u64,
    ) -> (r: Result<u64, RegistryError>)
        requires
            old(self).wf(),
            old(self).next_id < u64::MAX,
        ensures
            final(self).wf(),
            match r {
                Err(e) => {
                    &&& *final(self) == *old(self)
                    &&& e == RegistryError::Conflict || e == RegistryError::CatalogError
                    &&& (e == RegistryError::Conflict) == old(self).has_version_row(
                        crate_id,
                        req.vers@,
                    )
                    &&& (e == RegistryError::CatalogError) ==> !old(self).has_crate_with_id(crate_id)
                },
                Ok(id) => {
                    &&& !old(self).has_version_row(crate_id, req.vers@)
                    &&& old(self).has_crate_with_id(crate_id)
                    &&& id == old(self).next_id
                    &&& final(self).next_id == old(self).next_id + 1
                    &&& final(self).crates@ == old(self).crates@
                    &&& final(self).versions@.len() == old(self).versions@.len() + 1
                    &&& final(self).versions@.drop_last() == old(self).versions@
                    &&& new_version_row(
                        final(self).versions@.last(),
                        crate_id,
                        *req,
                        checksum@,
                        file_size,
                        now,
                        id,
                    )
                    &&& final(self).has_version_row(crate_id, req.vers@)
                },
            },
    {
        if self.find_version_index(crate_id, req.vers.as_str()).is_some() {
            return Err(RegistryError::Conflict);
        }
        if !self.crate_id_exists(crate_id) {
            return Err(RegistryError::CatalogError);
        }
        let id = self.next_id;
        let row = CrateVersion {
            id,
            crate_id,
            version: req.vers.clone(),
            checksum: String::from_str(checksum),
            file_size,
            dependencies: crate::models::copy_deps(&req.deps),
            features: crate::models::copy_features(&req.features),
            yanked: false,
            license: crate::models::copy_opt_string(&req.license),
            readme: crate::models::copy_opt_string(&req.readme),
            created_at: now,
        };
        self.versions.push(row);
        self.next_id = id + 1;
        proof {
            let nv = self.versions@;
            let ov = old(self).versions@;
            assert(nv.drop_last() =~= ov);
            let w = nv.len() - 1;
            assert(nv[w].crate_id == crate_id && nv[w].version@ == req.vers@);
            assert forall|i: int| 0 <= i < nv.len()
                implies self.has_crate_with_id((#[trigger] nv[i]).crate_id) by {
                if i < ov.len() {
                    assert(old(self).has_crate_with_id(ov[i].crate_id));
                    let j = choose|j: int|
                        0 <= j < old(self).crates@.len()
                            && (#[trigger] old(self).crates@[j]).id == ov[i].crate_id;
                    assert(self.crates@[j].id == nv[i].crate_id);
                } else {
                    assert(old(self).has_crate_with_id(crate_id));
                    let j = choose|j: int|
                        0 <= j < old(self).crates@.len()
                            && (#[trigger] old(self).crates@[j]).id == crate_id;
                    assert(self.crates@[j].id == nv[i].crate_id);
                }
            }
        }
        Ok(id)
    }

    /// Bumps the download counter of the package row with id `crate_id`.
    /// A missing row is a no-op, never an error: the download path must not
    /// fail over bookkeeping.
    #[verifier::loop_isolation(false)]
    pub fn increment_download_count(&mut self, crate_id: u64)
        requires
            old(self).wf(),
        ensures
            final(self).wf(),
            final(self).versions@ == old(self).versions@,
            final(self).next_id == old(self).next_id,
            final(self).crates@.len() == old(self).crates@.len(),
            !old(self).has_crate_with_id(crate_id) ==> final(self).crates@ == old(self).crates@,
            old(self).has_crate_with_id(crate_id) ==> {
                let k = old(self).crate_index_of_id(crate_id);
                &&& forall|i: int|
                    0 <= i < old(self).crates@.len() && i != k
                        ==> final(self).crates@[i] == old(self).crates@[i]
                &&& same_but_downloads(
                    old(self).crates@[k],
                    final(self).crates@[k],
                    bumped(old(self).crates@[k].downloads),
                )
            },
    {
        let n = self.crates.len();
        let mut i: usize = 0;
        while i < n
            invariant
                0 <= i <= n,
                n == self.crates@.len(),
                *self == *old(self),
                forall|j: int| 0 <= j < i ==> (#[trigger] self.crates@[j]).id != crate_id,
            decreases n - i,
        {
            if self.crates[i].id == crate_id {
                proof {
                    assert(old(self).crates@[i as int].id == crate_id);
                    assert(old(self).has_crate_with_id(crate_id));
                    let k = old(self).crate_index_of_id(crate_id);
                    assert(0 <= k < old(self).crates@.len() && old(self).crates@[k].id == crate_id);
                    if k < i as int {
                        assert(old(self).crates@[k].id != old(self).crates@[i as int].id);
                    } else if (i as int) < k {
                        assert(old(self).crates@[i as int].id != old(self).crates@[k].id);
                    }
                    assert(k == i as int);
                }
                let d = self.crates[i].downloads;
                let nd = if d < u64::MAX {
                    d + 1
                } else {
                    d
                };
                self.crates[i].downloads = nd;
                proof {
                    assert(self.versions@ == old(self).versions@);
                    assert(self.crates@ =~= old(self).crates@.update(
                        i as int,
                        self.crates@[i as int],
                    ));
                    assert forall|t: int| 0 <= t < self.versions@.len()
                        implies self.has_crate_with_id(
                        (#[trigger] self.versions@[t]).crate_id,
                    ) by {
                        assert(old(self).versions@[t] == self.versions@[t]);
                        assert(old(self).has_crate_with_id(old(self).versions@[t].crate_id));
                        let j = choose|j: int|
                            0 <= j < old(self).crates@.len()
                                && (#[trigger] old(self).crates@[j]).id
                                == old(self).versions@[t].crate_id;
                        assert(self.crates@[j].id == self.versions@[t].crate_id);
                    }
                }
                return ;
            }
            i = i + 1;
        }
    }

    /// `idxs` lists exactly the version rows of `crate_id`, most recent
    /// first.
    pub open spec fn is_version_listing(self, crate_id: u64, idxs: Seq<usize>) -> bool {
        &&& forall|i: int|
            0 <= i < idxs.len() ==> (#[trigger] idxs[i]) < self.versions@.len()
                && self.versions@[idxs[i] as int].crate_id == crate_id
        &&& forall|i: int, k: int|
            0 <= i < k < idxs.len() ==> self.versions@[idxs[i] as int].created_at
                >= self.versions@[idxs[k] as int].created_at
        &&& forall|i: int, k: int|
            0 <= i < idxs.len() && 0 <= k < idxs.len() && i != k ==> idxs[i] != idxs[k]
        &&& forall|j: int|
            0 <= j < self.versions@.len() && (#[trigger] self.versions@[j]).crate_id == crate_id
                ==> idxs.contains(j as usize)
    }

    /// All version rows of a package, most recently created first, as
    /// copies.
    #[verifier::loop_isolation(false)]
    pub fn get_crate_versions(&self, crate_id: u64) -> (r: Vec<CrateVersion>)
        ensures
            exists|idxs: Seq<usize>|
                {
                    &&& #[trigger] self.is_version_listing(crate_id, idxs)
                    &&& r@.len() == idxs.len()
                    &&& forall|t: int|
                        0 <= t < r@.len() ==> version_like(
                            self.versions@[idxs[t] as int],
                            #[trigger] r@[t],
                        )
                },
    {
        let n = self.versions.len();
        let mut idxs: Vec<usize> = Vec::new();
        let mut i: usize = 0;
        while i < n
            invariant
                0 <= i <= n,
                forall|t: int| 0 <= t < idxs@.len() ==> (#[trigger] idxs@[t]) < i,
                forall|t: int|
                    0 <= t < idxs@.len() ==> self.versions@[(#[trigger] idxs@[t]) as int].crate_id
                        == crate_id,
                forall|t: int, u: int| 0 <= t < u < idxs@.len() ==> idxs@[t] < idxs@[u],
                forall|j: int|
                    0 <= j < i && (#[trigger] self.versions@[j]).crate_id == crate_id
                        ==> idxs@.contains(j as usize),
            decreases n - i,
        {
            if self.versions[i].crate_id == crate_id {
                let ghost before = idxs@;
                idxs.push(i);
                proof {
                    assert forall|j: int|
                        0 <= j < i + 1 && (#[trigger] self.versions@[j]).crate_id == crate_id
                        implies idxs@.contains(j as usize) by {
                        if j < i {
                            let t = choose|t: int|
                                0 <= t < before.len() && before[t] == j as usize;
                            assert(idxs@[t] == j as usize);
                        } else {
                            assert(idxs@[idxs@.len() - 1] == j as usize);
                        }
                    }
                }
            }
            i = i + 1;
        }
        // insertion sort: most recently created first
        let m = idxs.len();
        let mut s: usize = 0;
        while s < m
            invariant
                0 <= s <= m,
                idxs@.len() == m,
                forall|t: int| 0 <= t < m ==> (#[trigger] idxs@[t]) < n,
                forall|t: int|
                    0 <= t < m ==> self.versions@[(#[trigger] idxs@[t]) as int].crate_id
                        == crate_id,
                forall|t: int, u: int| 0 <= t < m && 0 <= u < m && t != u ==> idxs@[t] != idxs@[u],
                forall|j: int|
                    0 <= j < n && (#[trigger] self.versions@[j]).crate_id == crate_id
                        ==> idxs@.contains(j as usize),
                forall|t: int, u: int|
                    0 <= t < u < s ==> self.versions@[idxs@[t] as int].created_at
                        >= self.versions@[idxs@[u] as int].created_at,
            decreases m - s,
        {
            let mut j: usize = s;
            #[verifier::loop_isolation(true)]
            loop
                invariant
                    0 <= j <= s < m,
                    idxs@.len() == m,
                    n == self.versions@.len(),
                    forall|t: int| 0 <= t < m ==> (#[trigger] idxs@[t]) < n,
                    forall|t: int|
                        0 <= t < m ==> self.versions@[(#[trigger] idxs@[t]) as int].crate_id
                            == crate_id,
                    forall|t: int, u: int|
                        0 <= t < m && 0 <= u < m && t != u ==> idxs@[t] != idxs@[u],
                    forall|jj: int|
                        0 <= jj < n && (#[trigger] self.versions@[jj]).crate_id == crate_id
                            ==> idxs@.contains(jj as usize),
                    forall|t: int, u: int|
                        0 <= t < u <= s && u != j ==> self.versions@[idxs@[t] as int].created_at
                            >= self.versions@[idxs@[u] as int].created_at,
                ensures
                    j == 0 || self.versions@[idxs@[j - 1] as int].created_at
                        >= self.versions@[idxs@[j as int] as int].created_at,
                decreases j,
            {
                if j == 0 {
                    break ;
                }
                let a = idxs[j];
                let b = idxs[j - 1];
                if self.versions[a].created_at <= self.versions[b].created_at {
                    break ;
                }
                let ghost before = idxs@;
                idxs[j - 1] = a;
                idxs[j] = b;
                proof {
                    assert forall|jj: int|
                        0 <= jj < n && (#[trigger] self.versions@[jj]).crate_id == crate_id
                        implies idxs@.contains(jj as usize) by {
                        let t = choose|t: int|
                            0 <= t < before.len() && before[t] == jj as usize;
                        if t == j - 1 {
                            assert(idxs@[j as int] == jj as usize);
                        } else if t == j {
                            assert(idxs@[j - 1] == jj as usize);
                        } else {
                            assert(idxs@[t] == jj as usize);
                        }
                    }
                }
                j = j - 1;
            }
            s = s + 1;
        }
        let mut r: Vec<CrateVersion> = Vec::new();
        let mut t: usize = 0;
        while t < m
            invariant
                0 <= t <= m,
                idxs@.len() == m,
                self.is_version_listing(crate_id, idxs@),
                r@.len() == t,
                forall|u: int|
                    0 <= u < t ==> version_like(self.versions@[idxs@[u] as int], #[trigger] r@[u]),
            decreases m - t,
        {
            let k = idxs[t];
            r.push(crate::models::copy_version(&self.versions[k]));
            t = t + 1;
        }
        r
    }

    /// The summed download counters of the rows of `s`.
    pub open spec fn downloads_sum(s: Seq<Crate>) -> int
        decreases s.len(),
    {
        if s.len() == 0 {
            0
        } else {
            Self::downloads_sum(s.drop_last()) + s.last().downloads
        }
    }

    /// Total downloads over all packages, saturating at the integer limit.
    #[verifier::loop_isolation(false)]
    pub fn count_total_downloads(&self) -> (r: u64)
        ensures
            r == if Self::downloads_sum(self.crates@) <= u64::MAX {
                Self::downloads_sum(self.crates@)
            } else {
                u64::MAX as int
            },
    {
        let n = self.crates.len();
        let mut total: u64 = 0;
        let mut i: usize = 0;
        proof {
            assert(self.crates@.subrange(0, 0) =~= Seq::<Crate>::empty());
        }
        while i < n
            invariant
                0 <= i <= n,
                total == if Self::downloads_sum(self.crates@.subrange(0, i as int)) <= u64::MAX {
                    Self::downloads_sum(self.crates@.subrange(0, i as int))
                } else {
                    u64::MAX as int
                },
            decreases n - i,
        {
            proof {
                assert(self.crates@.subrange(0, i + 1).drop_last() =~= self.crates@.subrange(
                    0,
                    i as int,
                ));
                assert(self.crates@.subrange(0, i + 1).last() == self.crates@[i as int]);
            }
            let d = self.crates[i].downloads;
            total = if total <= u64::MAX - d {
                total + d
            } else {
                u64::MAX
            };
            i = i + 1;
        }
        proof {
            assert(self.crates@.subrange(0, n as int) =~= self.crates@);
        }
        total
    }

    /// Number of package rows.
    pub fn count_total_crates(&self) -> (r: u64)
        ensures
            r == self.crates@.len(),
    {
        self.crates.len() as u64
    }

    /// Number of version rows.
    pub fn count_total_versions(&self) -> (r: u64)
        ensures
            r == self.versions@.len(),
    {
        self.versions.len() as u64
    }
}

} // verus!
