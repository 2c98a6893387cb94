//! In-memory blob store: byte-exact persistence and retrieval of archive
//! content under a `(name, version)` key, independent of catalog state.
//!
//! The store is modelled as an append-only log of entries in which the most
//! recent entry for a key wins. A write for an existing key therefore
//! overwrites: blob writes are idempotent and order-independent, as the
//! publish pipeline's retry story requires. The abstract contents are given
//! by the recursive [`lookup`] over the log.

use crate::error::RegistryError;
use crate::strutil::str_eq;
use vstd::prelude::*;
use vstd::slice::slice_to_vec;
use vstd::string::StringExecFns;

verus! {

/// One stored blob: the key pair and the archive bytes.
struct BlobEntry {
    name: String,
    version: String,
    data: Vec<u8>,
}

/// `e` is stored under the key `(name, version)`.
spec fn entry_has_key(e: BlobEntry, name: Seq<char>, version: Seq<char>) -> bool {
    e.name@ == name && e.version@ == version
}

/// The bytes the log `s` holds for `(name, version)`: the most recent entry
/// for the key wins, `None` if the key was never written.
spec fn lookup(s: Seq<BlobEntry>, name: Seq<char>, version: Seq<char>) -> Option<Seq<u8>>
    decreases s.len(),
{
    if s.len() == 0 {
        None
    } else if entry_has_key(s.last(), name, version) {
        Some(s.last().data@)
    } else {
        lookup(s.drop_last(), name, version)
    }
}

/// The blob store. Both backends of the storage configuration satisfy this
/// interface; this one keeps the bytes in memory and is the reference
/// semantics the registry is verified against.
pub struct BlobStore {
    entries: Vec<BlobEntry>,
}

impl BlobStore {
    /// The key `(name, version)` holds a blob.
    pub closed spec fn spec_has(self, name: Seq<char>, version: Seq<char>) -> bool {
        lookup(self.entries@, name, version) is Some
    }

    /// The bytes stored under `(name, version)`.
    pub closed spec fn spec_data(self, name: Seq<char>, version: Seq<char>) -> Seq<u8> {
        lookup(self.entries@, name, version)->Some_0
    }

    /// An empty store.
    pub fn new() -> (r: BlobStore)
        ensures
            forall|n: Seq<char>, v: Seq<char>| !r.spec_has(n, v),
    {
        BlobStore { entries: Vec::new() }
    }

    /// The index of the winning entry for the key, if any.
    fn find_latest(&self, name: &str, version: &str) -> (r: Option<usize>)
        ensures
            match r {
                Some(i) => {
                    &&& i < self.entries@.len()
                    &&& entry_has_key(self.entries@[i as int], name@, version@)
                    &&& self.spec_has(name@, version@)
                    &&& self.spec_data(name@, version@) == self.entries@[i as int].data@
                },
                None => !self.spec_has(name@, version@),
            },
    {
        let n = self.entries.len();
        let mut i: usize = n;
        proof {
            assert(self.entries@.subrange(0, n as int) =~= self.entries@);
        }
        loop
            invariant
                0 <= i <= n,
                n == self.entries@.len(),
                lookup(self.entries@, name@, version@)
                    == lookup(self.entries@.subrange(0, i as int), name@, version@),
            decreases i,
        {
            if i == 0 {
                return None;
            }
            i = i - 1;
            let ghost pre = self.entries@.subrange(0, i + 1);
            proof {
                assert(pre.last() == self.entries@[i as int]);
                assert(pre.drop_last() =~= self.entries@.subrange(0, i as int));
            }
            let e = &self.entries[i];
            if str_eq(e.name.as_str(), name) && str_eq(e.version.as_str(), version) {
                return Some(i);
            }
        }
    }

    /// Existence probe for a key. Never fails: an in-memory backend cannot be
    /// unreachable.
    pub fn crate_exists(&self, name: &str, version: &str) -> (r: bool)
        ensures
            r == self.spec_has(name@, version@),
    {
        self.find_latest(name, version).is_some()
    }

    /// Writes `data` under the key for `(name, version)`, overwriting any
    /// earlier blob for the key, and returns the stored filename
    /// `{name}-{version}.crate`. Afterwards the key exists, reads return
    /// exactly `data`, and every other key is untouched.
    pub fn store_crate(&mut self, name: &str, version: &str, data: &[u8]) -> (r: String)
        ensures
            r@ == name@ + "-"@ + version@ + ".crate"@,
            final(self).spec_has(name@, version@),
            final(self).spec_data(name@, version@) == data@,
            forall|n: Seq<char>, v: Seq<char>|
                !(n == name@ && v == version@) ==> {
                    &&& #[trigger] final(self).spec_has(n, v) == old(self).spec_has(n, v)
                    &&& final(self).spec_has(n, v)
                        ==> final(self).spec_data(n, v) == old(self).spec_data(n, v)
                },
    {
        let entry = BlobEntry {
            name: String::from_str(name),
            version: String::from_str(version),
            data: slice_to_vec(data),
        };
        self.entries.push(entry);
        proof {
            assert forall|n: Seq<char>, v: Seq<char>| true implies {
                #[trigger] lookup(self.entries@, n, v) == if n == name@ && v == version@ {
                    Some(data@)
                } else {
                    lookup(old(self).entries@, n, v)
                }
            } by {
                assert(self.entries@.last() == self.entries@[self.entries@.len() - 1]);
                assert(self.entries@.drop_last() =~= old(self).entries@);
            }
        }
        let mut filename = String::from_str(name);
        filename.append("-");
        filename.append(version);
        filename.append(".crate");
        filename
    }

    /// Reads the bytes stored under `(name, version)`; `NotFound` if the key
    /// was never written.
    pub fn get_crate_data(&self, name: &str, version: &str) -> (r: Result<Vec<u8>, RegistryError>)
        ensures
            match r {
                Ok(d) => self.spec_has(name@, version@)
                    && d@ == self.spec_data(name@, version@),
                Err(e) => e == RegistryError::NotFound && !self.spec_has(name@, version@),
            },
    {
        match self.find_latest(name, version) {
            Some(i) => Ok(slice_to_vec(self.entries[i].data.as_slice())),
            None => Err(RegistryError::NotFound),
        }
    }

    /// Byte length of the blob under `(name, version)` without copying it;
    /// `NotFound` if the key was never written.
    pub fn get_crate_size(&self, name: &str, version: &str) -> (r: Result<u64, RegistryError>)
        ensures
            match r {
                Ok(s) => self.spec_has(name@, version@)
                    && s == self.spec_data(name@, version@).len(),
                Err(e) => e == RegistryError::NotFound && !self.spec_has(name@, version@),
            },
    {
        match self.find_latest(name, version) {
            Some(i) => Ok(self.entries[i].data.len() as u64),
            None => Err(RegistryError::NotFound),
        }
    }
}

} // verus!
