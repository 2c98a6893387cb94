//! Data model of the registry core: catalog rows, the publish request, and
//! the response shapes of the search and publish surfaces.

use vstd::prelude::*;

verus! {

/// Kind of a dependency edge recorded for a published version.
#[derive(Debug, Clone, Copy, PartialEq, Eq, Structural)]
pub enum DependencyKind {
    Normal,
    Dev,
    Build,
}

/// A dependency of a stored version.
#[derive(Debug, Clone)]
pub struct Dependency {
    pub name: String,
    pub version_req: String,
    pub features: Vec<String>,
    pub optional: bool,
    pub default_features: bool,
    pub target: Option<String>,
    pub kind: DependencyKind,
}

/// A dependency as it arrives in a publish request.
#[derive(Debug, Clone)]
pub struct PublishDependency {
    pub name: String,
    pub version_req: String,
    pub features: Vec<String>,
    pub optional: bool,
    pub default_features: bool,
    pub target: Option<String>,
    pub kind: DependencyKind,
    pub registry: Option<String>,
    pub explicit_name_in_toml: Option<String>,
}

/// The metadata document of a publish request: the fields of the upload
/// surface's `metadata` part. Feature maps are held as association lists.
#[derive(Debug)]
pub struct PublishRequest {
    pub name: String,
    pub vers: String,
    pub deps: Vec<PublishDependency>,
    pub features: Vec<(String, Vec<String>)>,
    pub authors: Vec<String>,
    pub description: Option<String>,
    pub homepage: Option<String>,
    pub documentation: Option<String>,
    pub readme: Option<String>,
    pub readme_file: Option<String>,
    pub keywords: Vec<String>,
    pub categories: Vec<String>,
    pub license: Option<String>,
    pub license_file: Option<String>,
    pub repository: Option<String>,
    pub links: Option<String>,
}

impl PublishRequest {
    /// Schema validity: the upload must carry a package name and a version.
    pub open spec fn spec_valid(&self) -> bool {
        self.name@.len() > 0 && self.vers@.len() > 0
    }

    /// Decides `spec_valid`.
    pub fn valid(&self) -> (r: bool)
        ensures
            r == self.spec_valid(),
    {
        !self.name.as_str().is_empty() && !self.vers.as_str().is_empty()
    }
}

/// The accept step of the upload surface: a publish request carries exactly
/// two logical parts, the metadata document and the archive bytes, and is
/// malformed if either is missing. Parsing the transport envelope is the
/// caller's business; deciding acceptance is this function's.
pub fn accept_upload(metadata: Option<PublishRequest>, data: Option<Vec<u8>>) -> (r: Result<
    (PublishRequest, Vec<u8>),
    crate::error::RegistryError,
>)
    ensures
        match r {
            Ok(p) => metadata is Some && data is Some && p.0 == metadata->0 && p.1 == data->0,
            Err(e) => e == crate::error::RegistryError::MalformedRequest && (metadata is None
                || data is None),
        },
{
    match (metadata, data) {
        (Some(m), Some(d)) => Ok((m, d)),
        _ => Err(crate::error::RegistryError::MalformedRequest),
    }
}

/// A catalog row for one package. Identifiers and timestamps are plain
/// integers: identifiers are handed out by the catalog, timestamps by the
/// caller of the publish pipeline.
#[derive(Debug)]
pub struct Crate {
    pub id: u64,
    pub name: String,
    pub description: Option<String>,
    pub homepage: Option<String>,
    pub documentation: Option<String>,
    pub repository: Option<String>,
    pub keywords: Vec<String>,
    pub categories: Vec<String>,
    pub license: Option<String>,
    pub owner_id: u64,
    pub downloads: u64,
    pub created_at: u64,
    pub updated_at: u64,
}

/// A catalog row for one published version of a package.
#[derive(Debug)]
pub struct CrateVersion {
    pub id: u64,
    pub crate_id: u64,
    pub version: String,
    pub checksum: String,
    pub file_size: u64,
    pub dependencies: Vec<PublishDependency>,
    pub features: Vec<(String, Vec<String>)>,
    pub yanked: bool,
    pub license: Option<String>,
    pub readme: Option<String>,
    pub created_at: u64,
}

/// Pagination metadata of a search response.
#[derive(Debug, Clone, Copy, PartialEq, Eq, Structural)]
pub struct SearchMeta {
    pub total: u64,
}

/// The body of a successful publish response.
#[derive(Debug)]
pub struct PublishResponse {
    pub warnings: PublishWarnings,
}

/// Non-fatal validation notes attached to a successful publish.
#[derive(Debug)]
pub struct PublishWarnings {
    pub invalid_categories: Vec<String>,
    pub invalid_badges: Vec<String>,
    pub other: Vec<String>,
}

impl PublishResponse {
    /// The common case: accepted with no warnings.
    pub fn empty() -> (r: PublishResponse)
        ensures
            r.warnings.invalid_categories@.len() == 0,
            r.warnings.invalid_badges@.len() == 0,
            r.warnings.other@.len() == 0,
    {
        PublishResponse {
            warnings: PublishWarnings {
                invalid_categories: Vec::new(),
                invalid_badges: Vec::new(),
                other: Vec::new(),
            },
        }
    }
}

/// The two options hold view-equal strings, or are both absent.
pub open spec fn opt_string_like(a: Option<String>, b: Option<String>) -> bool {
    match (a, b) {
        (Some(x), Some(y)) => x@ == y@,
        (None, None) => true,
        _ => false,
    }
}

/// The two sequences hold view-equal strings position by position.
pub open spec fn strings_like(a: Seq<String>, b: Seq<String>) -> bool {
    a.len() == b.len() && forall|i: int| 0 <= i < a.len() ==> (#[trigger] a[i])@ == b[i]@
}

/// The two dependency records agree field by field, up to string views.
pub open spec fn dep_like(a: PublishDependency, b: PublishDependency) -> bool {
    &&& a.name@ == b.name@
    &&& a.version_req@ == b.version_req@
    &&& strings_like(a.features@, b.features@)
    &&& a.optional == b.optional
    &&& a.default_features == b.default_features
    &&& opt_string_like(a.target, b.target)
    &&& a.kind == b.kind
    &&& opt_string_like(a.registry, b.registry)
    &&& opt_string_like(a.explicit_name_in_toml, b.explicit_name_in_toml)
}

/// The two dependency lists agree position by position.
pub open spec fn deps_like(a: Seq<PublishDependency>, b: Seq<PublishDependency>) -> bool {
    a.len() == b.len() && forall|i: int| 0 <= i < a.len() ==> dep_like(#[trigger] a[i], b[i])
}

/// The two feature-map entries agree, up to string views.
pub open spec fn feature_like(a: (String, Vec<String>), b: (String, Vec<String>)) -> bool {
    a.0@ == b.0@ && strings_like(a.1@, b.1@)
}

/// The two feature maps agree position by position.
pub open spec fn features_like(a: Seq<(String, Vec<String>)>, b: Seq<(String, Vec<String>)>) -> bool {
    a.len() == b.len() && forall|i: int| 0 <= i < a.len() ==> feature_like(#[trigger] a[i], b[i])
}

/// The two package rows agree field by field, up to string views.
pub open spec fn crate_like(a: Crate, b: Crate) -> bool {
    &&& a.id == b.id
    &&& a.name@ == b.name@
    &&& opt_string_like(a.description, b.description)
    &&& opt_string_like(a.homepage, b.homepage)
    &&& opt_string_like(a.documentation, b.documentation)
    &&& opt_string_like(a.repository, b.repository)
    &&& strings_like(a.keywords@, b.keywords@)
    &&& strings_like(a.categories@, b.categories@)
    &&& opt_string_like(a.license, b.license)
    &&& a.owner_id == b.owner_id
    &&& a.downloads == b.downloads
    &&& a.created_at == b.created_at
    &&& a.updated_at == b.updated_at
}

/// The two version rows agree field by field, up to string views.
pub open spec fn version_like(a: CrateVersion, b: CrateVersion) -> bool {
    &&& a.id == b.id
    &&& a.crate_id == b.crate_id
    &&& a.version@ == b.version@
    &&& a.checksum@ == b.checksum@
    &&& a.file_size == b.file_size
    &&& deps_like(a.dependencies@, b.dependencies@)
    &&& features_like(a.features@, b.features@)
    &&& a.yanked == b.yanked
    &&& opt_string_like(a.license, b.license)
    &&& opt_string_like(a.readme, b.readme)
    &&& a.created_at == b.created_at
}

/// A deep copy of an optional string.
pub fn copy_opt_string(a: &Option<String>) -> (r: Option<String>)
    ensures
        opt_string_like(*a, r),
{
    match a {
        Some(s) => Some(s.clone()),
        None => None,
    }
}

/// A deep copy of a string list.
pub fn copy_strings(a: &Vec<String>) -> (r: Vec<String>)
    ensures
        strings_like(a@, r@),
{
    let mut r: Vec<String> = Vec::new();
    let n = a.len();
    let mut i: usize = 0;
    while i < n
        invariant
            0 <= i <= n,
            n == a@.len(),
            r@.len() == i,
            forall|j: int| 0 <= j < i ==> (#[trigger] a@[j])@ == r@[j]@,
        decreases n - i,
    {
        r.push(a[i].clone());
        i = i + 1;
    }
    r
}

/// A deep copy of one dependency record.
pub fn copy_dep(a: &PublishDependency) -> (r: PublishDependency)
    ensures
        dep_like(*a, r),
{
    PublishDependency {
        name: a.name.clone(),
        version_req: a.version_req.clone(),
        features: copy_strings(&a.features),
        optional: a.optional,
        default_features: a.default_features,
        target: copy_opt_string(&a.target),
        kind: a.kind,
        registry: copy_opt_string(&a.registry),
        explicit_name_in_toml: copy_opt_string(&a.explicit_name_in_toml),
    }
}

/// A deep copy of a dependency list.
pub fn copy_deps(a: &Vec<PublishDependency>) -> (r: Vec<PublishDependency>)
    ensures
        deps_like(a@, r@),
{
    let mut r: Vec<PublishDependency> = Vec::new();
    let n = a.len();
    let mut i: usize = 0;
    while i < n
        invariant
            0 <= i <= n,
            n == a@.len(),
            r@.len() == i,
            forall|j: int| 0 <= j < i ==> dep_like(#[trigger] a@[j], r@[j]),
        decreases n - i,
    {
        r.push(copy_dep(&a[i]));
        i = i + 1;
    }
    r
}

/// A deep copy of a feature map.
pub fn copy_features(a: &Vec<(String, Vec<String>)>) -> (r: Vec<(String, Vec<String>)>)
    ensures
        features_like(a@, r@),
{
    let mut r: Vec<(String, Vec<String>)> = Vec::new();
    let n = a.len();
    let mut i: usize = 0;
    while i < n
        invariant
            0 <= i <= n,
            n == a@.len(),
            r@.len() == i,
            forall|j: int| 0 <= j < i ==> feature_like(#[trigger] a@[j], r@[j]),
        decreases n - i,
    {
        let entry = &a[i];
        r.push((entry.0.clone(), copy_strings(&entry.1)));
        i = i + 1;
    }
    r
}

/// A deep copy of a package row.
pub fn copy_crate(a: &Crate) -> (r: Crate)
    ensures
        crate_like(*a, r),
{
    Crate {
        id: a.id,
        name: a.name.clone(),
        description: copy_opt_string(&a.description),
        homepage: copy_opt_string(&a.homepage),
        documentation: copy_opt_string(&a.documentation),
        repository: copy_opt_string(&a.repository),
        keywords: copy_strings(&a.keywords),
        categories: copy_strings(&a.categories),
        license: copy_opt_string(&a.license),
        owner_id: a.owner_id,
        downloads: a.downloads,
        created_at: a.created_at,
        updated_at: a.updated_at,
    }
}

/// A deep copy of a version row.
pub fn copy_version(a: &CrateVersion) -> (r: CrateVersion)
    ensures
        version_like(*a, r),
{
    CrateVersion {
        id: a.id,
        crate_id: a.crate_id,
        version: a.version.clone(),
        checksum: a.checksum.clone(),
        file_size: a.file_size,
        dependencies: copy_deps(&a.dependencies),
        features: copy_features(&a.features),
        yanked: a.yanked,
        license: copy_opt_string(&a.license),
        readme: copy_opt_string(&a.readme),
        created_at: a.created_at,
    }
}

/// Links attached to a package in a search response.
#[derive(Debug)]
pub struct LinksResponse {
    pub version_downloads: String,
    pub versions: String,
    pub owners: String,
    pub owner_team: String,
    pub owner_user: String,
    pub reverse_dependencies: String,
}

/// Links attached to a version in a search response.
#[derive(Debug)]
pub struct VersionLinksResponse {
    pub dependencies: String,
    pub version_downloads: String,
    pub authors: String,
}

/// A link to the user that published a version.
#[derive(Debug)]
pub struct UserLinkResponse {
    pub id: u64,
    pub login: String,
    pub name: Option<String>,
    pub avatar: Option<String>,
    pub url: String,
}

} // verus!
