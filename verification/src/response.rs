//! Assembly of the search response: package summaries with their versions
//! and the link paths of the registry API.

use crate::catalog::Catalog;
use crate::models::{
    copy_features, copy_opt_string, copy_strings, crate_like, features_like, opt_string_like,
    strings_like, Crate, CrateVersion, LinksResponse, SearchMeta, UserLinkResponse,
    VersionLinksResponse,
};
use crate::registry::Registry;
use crate::search::match_count;
use vstd::prelude::*;
use vstd::string::{StringExecFns, StringSliceAdditionalSpecFns};

verus! {

/// A version of a package as the search surface reports it.
#[derive(Debug)]
pub struct VersionResponse {
    pub id: u64,
    pub num: String,
    pub dl_path: String,
    pub readme_path: String,
    pub updated_at: u64,
    pub created_at: u64,
    pub downloads: u64,
    pub features: Vec<(String, Vec<String>)>,
    pub yanked: bool,
    pub license: Option<String>,
    pub links: VersionLinksResponse,
    pub crate_size: Option<u64>,
    pub published_by: Option<UserLinkResponse>,
    pub audit_actions: Vec<String>,
}

/// A package as the search surface reports it.
#[derive(Debug)]
pub struct CrateResponse {
    pub id: u64,
    pub name: String,
    pub updated_at: u64,
    pub versions: Vec<VersionResponse>,
    pub keywords: Vec<String>,
    pub categories: Vec<String>,
    pub badges: Vec<String>,
    pub created_at: u64,
    pub downloads: u64,
    pub recent_downloads: Option<u64>,
    pub max_version: String,
    pub max_stable_version: Option<String>,
    pub description: Option<String>,
    pub homepage: Option<String>,
    pub documentation: Option<String>,
    pub repository: Option<String>,
    pub links: LinksResponse,
    pub exact_match: bool,
}

/// The body of a search response.
#[derive(Debug)]
pub struct SearchResponse {
    pub crates: Vec<CrateResponse>,
    pub meta: SearchMeta,
}

/// Query parameters of the search surface.
#[derive(Debug)]
pub struct SearchQuery {
    pub q: Option<String>,
    pub per_page: Option<u32>,
    pub page: Option<u32>,
}

/// Query parameters of the download surface: none at present.
#[derive(Debug)]
pub struct DownloadQuery {}

impl SearchQuery {
    /// The effective query string, page size and page number: empty query,
    /// ten per page and the first page unless given.
    pub fn resolved(self) -> (r: (String, u32, u32))
        ensures
            r.0@ == match self.q {
                Some(s) => s@,
                None => Seq::<char>::empty(),
            },
            r.1 == match self.per_page {
                Some(p) => p,
                None => 10u32,
            },
            r.2 == match self.page {
                Some(p) => p,
                None => 1u32,
            },
    {
        let q = match self.q {
            Some(s) => s,
            None => String::new(),
        };
        let per_page = match self.per_page {
            Some(p) => p,
            None => 10,
        };
        let page = match self.page {
            Some(p) => p,
            None => 1,
        };
        (q, per_page, page)
    }
}

/// The case folding of a character sequence.
pub uninterp spec fn lower_of(s: Seq<char>) -> Seq<char>;

/// Relies on str::to_lowercase: the result depends on the characters alone.
#[verifier::external_body]
fn lowercase(s: &str) -> (r: String)
    ensures
        r@ == lower_of(s@),
{
    s.to_lowercase()
}

/// `"/api/v1/crates/{name}{tail}"`.
fn crate_path(name: &str, tail: &str) -> (r: String)
    ensures
        r@ == "/api/v1/crates/"@ + name@ + tail@,
{
    let mut s = String::from_str("/api/v1/crates/");
    s.append(name);
    s.append(tail);
    s
}

/// `"/api/v1/crates/{name}/{ver}{tail}"`.
fn crate_version_path(name: &str, ver: &str, tail: &str) -> (r: String)
    ensures
        r@ == "/api/v1/crates/"@ + name@ + "/"@ + ver@ + tail@,
{
    let mut s = String::from_str("/api/v1/crates/");
    s.append(name);
    s.append("/");
    s.append(ver);
    s.append(tail);
    s
}

/// The response record built for one version row.
pub open spec fn version_response_matches(r: VersionResponse, name: Seq<char>, v: CrateVersion) -> bool {
    &&& r.num@ == v.version@
    &&& r.dl_path@ == "/api/v1/crates/"@ + name + "/"@ + v.version@ + "/download"@
    &&& r.readme_path@ == "/api/v1/crates/"@ + name + "/"@ + v.version@ + "/readme"@
    &&& r.updated_at == v.created_at
    &&& r.created_at == v.created_at
    &&& r.downloads == 0
    &&& features_like(v.features@, r.features@)
    &&& r.yanked == v.yanked
    &&& opt_string_like(v.license, r.license)
    &&& r.links.dependencies@ == "/api/v1/crates/"@ + name + "/"@ + v.version@ + "/dependencies"@
    &&& r.links.version_downloads@ == "/api/v1/crates/"@ + name + "/"@ + v.version@ + "/downloads"@
    &&& r.links.authors@ == "/api/v1/crates/"@ + name + "/"@ + v.version@ + "/authors"@
    &&& r.crate_size == Some(v.file_size)
    &&& r.published_by is Some
    &&& r.audit_actions@.len() == 0
}

/// Builds the response record for one version row.
fn build_version_response(name: &str, v: &CrateVersion) -> (r: VersionResponse)
    ensures
        version_response_matches(r, name@, *v),
{
    VersionResponse {
        id: v.id,
        num: v.version.clone(),
        dl_path: crate_version_path(name, v.version.as_str(), "/download"),
        readme_path: crate_version_path(name, v.version.as_str(), "/readme"),
        updated_at: v.created_at,
        created_at: v.created_at,
        downloads: 0,
        features: copy_features(&v.features),
        yanked: v.yanked,
        license: copy_opt_string(&v.license),
        links: VersionLinksResponse {
            dependencies: crate_version_path(name, v.version.as_str(), "/dependencies"),
            version_downloads: crate_version_path(name, v.version.as_str(), "/downloads"),
            authors: crate_version_path(name, v.version.as_str(), "/authors"),
        },
        crate_size: Some(v.file_size),
        published_by: Some(
            UserLinkResponse {
                id: 1,
                login: String::from_str("user"),
                name: None,
                avatar: None,
                url: String::from_str("/users/user"),
            },
        ),
        audit_actions: Vec::new(),
    }
}

/// The version records `rs` are exactly the catalog's version rows of the
/// package `c`, most recent first, each rendered by
/// `version_response_matches`.
pub open spec fn versions_of_match(catalog: Catalog, c: Crate, rs: Seq<VersionResponse>) -> bool {
    exists|idxs: Seq<usize>|
        {
            &&& #[trigger] catalog.is_version_listing(c.id, idxs)
            &&& rs.len() == idxs.len()
            &&& forall|t: int|
                0 <= t < rs.len() ==> version_response_matches(
                    #[trigger] rs[t],
                    c.name@,
                    catalog.versions@[idxs[t] as int],
                )
        }
}

/// A rendered version record describes a row's copy if and only if it
/// describes the row: every clause compares views, which the copy keeps.
proof fn lemma_version_response_transfer(
    r: VersionResponse,
    name: Seq<char>,
    a: CrateVersion,
    b: CrateVersion,
)
    requires
        crate::models::version_like(a, b),
        version_response_matches(r, name, b),
    ensures
        version_response_matches(r, name, a),
{
    assert forall|i: int| 0 <= i < a.features@.len() implies crate::models::feature_like(
        #[trigger] a.features@[i],
        r.features@[i],
    ) by {
        assert(crate::models::feature_like(a.features@[i], b.features@[i]));
        assert(crate::models::feature_like(b.features@[i], r.features@[i]));
        let av = a.features@[i].1@;
        let bv = b.features@[i].1@;
        let rv = r.features@[i].1@;
        assert forall|j: int| 0 <= j < av.len() implies (#[trigger] av[j])@ == rv[j]@ by {
            assert(av[j]@ == bv[j]@);
            assert(bv[j]@ == rv[j]@);
        }
    }
}

/// The response record built for one package row and its version records.
pub open spec fn crate_response_matches(r: CrateResponse, c: Crate, q: Seq<char>) -> bool {
    &&& r.id == c.id
    &&& r.name@ == c.name@
    &&& r.updated_at == c.updated_at
    &&& r.created_at == c.created_at
    &&& r.downloads == c.downloads
    &&& r.recent_downloads == Some(c.downloads)
    &&& strings_like(c.keywords@, r.keywords@)
    &&& strings_like(c.categories@, r.categories@)
    &&& r.badges@.len() == 0
    &&& r.max_version@ == if r.versions@.len() > 0 {
        r.versions@[0].num@
    } else {
        Seq::<char>::empty()
    }
    &&& r.max_stable_version is None
    &&& opt_string_like(c.description, r.description)
    &&& opt_string_like(c.homepage, r.homepage)
    &&& opt_string_like(c.documentation, r.documentation)
    &&& opt_string_like(c.repository, r.repository)
    &&& r.links.version_downloads@ == "/api/v1/crates/"@ + c.name@ + "/downloads"@
    &&& r.links.versions@ == "/api/v1/crates/"@ + c.name@ + "/versions"@
    &&& r.links.owners@ == "/api/v1/crates/"@ + c.name@ + "/owners"@
    &&& r.links.owner_team@ == "/api/v1/crates/"@ + c.name@ + "/owner_team"@
    &&& r.links.owner_user@ == "/api/v1/crates/"@ + c.name@ + "/owner_user"@
    &&& r.links.reverse_dependencies@ == "/api/v1/crates/"@ + c.name@ + "/reverse_dependencies"@
    &&& r.exact_match == (lower_of(c.name@) == lower_of(q))
}

/// Builds the response record for one package row, reading its versions from
/// the catalog.
fn build_crate_response(catalog: &Catalog, c: &Crate, query: &str) -> (r: CrateResponse)
    ensures
        crate_response_matches(r, *c, query@),
        versions_of_match(*catalog, *c, r.versions@),
{
    let rows = catalog.get_crate_versions(c.id);
    let mut versions: Vec<VersionResponse> = Vec::new();
    let n = rows.len();
    let mut i: usize = 0;
    while i < n
        invariant
            0 <= i <= n,
            n == rows@.len(),
            versions@.len() == i,
            forall|t: int|
                0 <= t < i ==> version_response_matches(
                    #[trigger] versions@[t],
                    c.name@,
                    rows@[t],
                ),
        decreases n - i,
    {
        versions.push(build_version_response(c.name.as_str(), &rows[i]));
        i = i + 1;
    }
    proof {
        let idxs = choose|idxs: Seq<usize>|
            {
                &&& #[trigger] catalog.is_version_listing(c.id, idxs)
                &&& rows@.len() == idxs.len()
                &&& forall|t: int|
                    0 <= t < rows@.len() ==> crate::models::version_like(
                        catalog.versions@[idxs[t] as int],
                        #[trigger] rows@[t],
                    )
            };
        assert(catalog.is_version_listing(c.id, idxs));
        assert forall|t: int| 0 <= t < versions@.len() implies version_response_matches(
            #[trigger] versions@[t],
            c.name@,
            catalog.versions@[idxs[t] as int],
        ) by {
            lemma_version_response_transfer(
                versions@[t],
                c.name@,
                catalog.versions@[idxs[t] as int],
                rows@[t],
            );
        }
        assert(versions_of_match(*catalog, *c, versions@));
    }
    let max_version = if versions.len() > 0 {
        versions[0].num.clone()
    } else {
        String::new()
    };
    let exact_match = {
        let ln = lowercase(c.name.as_str());
        let lq = lowercase(query);
        crate::strutil::str_eq(ln.as_str(), lq.as_str())
    };
    CrateResponse {
        id: c.id,
        name: c.name.clone(),
        updated_at: c.updated_at,
        versions,
        keywords: copy_strings(&c.keywords),
        categories: copy_strings(&c.categories),
        badges: Vec::new(),
        created_at: c.created_at,
        downloads: c.downloads,
        recent_downloads: Some(c.downloads),
        max_version,
        max_stable_version: None,
        description: copy_opt_string(&c.description),
        homepage: copy_opt_string(&c.homepage),
        documentation: copy_opt_string(&c.documentation),
        repository: copy_opt_string(&c.repository),
        links: LinksResponse {
            version_downloads: crate_path(c.name.as_str(), "/downloads"),
            versions: crate_path(c.name.as_str(), "/versions"),
            owners: crate_path(c.name.as_str(), "/owners"),
            owner_team: crate_path(c.name.as_str(), "/owner_team"),
            owner_user: crate_path(c.name.as_str(), "/owner_user"),
            reverse_dependencies: crate_path(c.name.as_str(), "/reverse_dependencies"),
        },
        exact_match,
    }
}

impl Registry {
    /// The search surface: a page of ranked matching packages and the total
    /// match count, which is independent of the page bounds. `per_page` is
    /// capped at 100; pages are numbered from 1.
    pub fn search(&self, query: &str, per_page: u32, page: u32) -> (r: SearchResponse)
        requires
            self.wf(),
        ensures
            r.meta.total == match_count(self.catalog.crates@, query.spec_bytes()),
            exists|page_rows: Seq<Crate>|
                {
                    &&& #[trigger] page_rows.len() == r.crates@.len()
                    &&& forall|t: int|
                        0 <= t < r.crates@.len() ==> crate_response_matches(
                            #[trigger] r.crates@[t],
                            page_rows[t],
                            query@,
                        )
                    &&& forall|t: int|
                        0 <= t < r.crates@.len() ==> versions_of_match(
                            self.catalog,
                            #[trigger] page_rows[t],
                            r.crates@[t].versions@,
                        )
                    &&& exists|idxs: Seq<usize>|
                        {
                            &&& #[trigger] self.catalog.is_ranking(query.spec_bytes(), idxs)
                            &&& {
                                let limit = if per_page <= 100 {
                                    per_page as int
                                } else {
                                    100int
                                };
                                let raw_offset = if page >= 1 {
                                    (page - 1) * (if per_page <= 100 {
                                        per_page as int
                                    } else {
                                        100int
                                    })
                                } else {
                                    0int
                                };
                                let offset = if raw_offset <= usize::MAX as int {
                                    raw_offset
                                } else {
                                    usize::MAX as int
                                };
                                &&& page_rows.len() == if offset < idxs.len() {
                                    if limit <= idxs.len() - offset {
                                        limit
                                    } else {
                                        idxs.len() - offset
                                    }
                                } else {
                                    0
                                }
                                &&& forall|t: int|
                                    0 <= t < page_rows.len() ==> crate_like(
                                        self.catalog.crates@[idxs[offset + t] as int],
                                        #[trigger] page_rows[t],
                                    )
                            }
                        }
                },
    {
        let limit: u32 = if per_page <= 100 {
            per_page
        } else {
            100
        };
        let pm1: u64 = if page >= 1 {
            (page - 1) as u64
        } else {
            0
        };
        proof {
            assert((pm1 as int) * (limit as int) < 0x10000000000int) by (nonlinear_arith)
                requires
                    pm1 < 0x100000000,
                    limit <= 100,
            ;
        }
        let offset64: u64 = pm1 * (limit as u64);
        let offset: usize = if offset64 <= usize::MAX as u64 {
            offset64 as usize
        } else {
            // beyond any possible catalog: an empty page either way
            usize::MAX
        };
        let rows = self.catalog.search_crates(query, limit as usize, offset);
        let total = self.catalog.count_search_results(query);
        let mut out: Vec<CrateResponse> = Vec::new();
        let n = rows.len();
        let mut i: usize = 0;
        while i < n
            invariant
                0 <= i <= n,
                n == rows@.len(),
                self.wf(),
                out@.len() == i,
                forall|t: int|
                    0 <= t < i ==> crate_response_matches(
                        #[trigger] out@[t],
                        rows@[t],
                        query@,
                    ),
                forall|t: int|
                    0 <= t < i ==> versions_of_match(
                        self.catalog,
                        #[trigger] rows@[t],
                        out@[t].versions@,
                    ),
            decreases n - i,
        {
            out.push(build_crate_response(&self.catalog, &rows[i], query));
            i = i + 1;
        }
        proof {
            let q = query.spec_bytes();
            let idxs = choose|idxs: Seq<usize>|
                {
                    &&& #[trigger] self.catalog.is_ranking(q, idxs)
                    &&& idxs.len() == match_count(self.catalog.crates@, q)
                    &&& rows@.len() == if offset < idxs.len() {
                        if limit as usize <= idxs.len() - offset {
                            limit as int
                        } else {
                            idxs.len() - offset
                        }
                    } else {
                        0
                    }
                    &&& forall|t: int|
                        0 <= t < rows@.len() ==> crate_like(
                            self.catalog.crates@[idxs[offset + t] as int],
                            #[trigger] rows@[t],
                        )
                };
            assert(self.catalog.is_ranking(q, idxs));
        }
        SearchResponse { crates: out, meta: SearchMeta { total } }
    }
}

} // verus!
