//! Unit scenarios of the blob store, catalog, configuration, roles and
//! metrics.

use ghostcrate::blob::BlobStore;
use ghostcrate::catalog::Catalog;
use ghostcrate::config::{AppConfig, StorageBackend};
use ghostcrate::error::RegistryError;
use ghostcrate::metrics::MetricsCollector;
use ghostcrate::models::PublishRequest;
use ghostcrate::organization::OrganizationRole;
use ghostcrate::response::SearchQuery;

fn plain(name: &str, vers: &str) -> PublishRequest {
    PublishRequest {
        name: name.to_string(),
        vers: vers.to_string(),
        deps: Vec::new(),
        features: Vec::new(),
        authors: Vec::new(),
        description: None,
        homepage: None,
        documentation: None,
        readme: None,
        readme_file: None,
        keywords: Vec::new(),
        categories: Vec::new(),
        license: None,
        license_file: None,
        repository: None,
        links: None,
    }
}

#[test]
fn blob_store_round_trip() {
    let mut store = BlobStore::new();
    assert!(!store.crate_exists("a", "1.0.0"));
    assert_eq!(store.get_crate_data("a", "1.0.0").err(), Some(RegistryError::NotFound));
    assert_eq!(store.get_crate_size("a", "1.0.0").err(), Some(RegistryError::NotFound));

    let filename = store.store_crate("a", "1.0.0", b"payload");
    assert_eq!(filename, "a-1.0.0.crate");
    assert!(store.crate_exists("a", "1.0.0"));
    assert_eq!(store.get_crate_data("a", "1.0.0").unwrap().as_slice(), b"payload");
    assert_eq!(store.get_crate_size("a", "1.0.0").unwrap(), 7);
    assert!(!store.crate_exists("a", "2.0.0"));
    assert!(!store.crate_exists("b", "1.0.0"));
}

#[test]
fn blob_store_overwrite_is_idempotent() {
    // at the blob layer a repeated write for one key simply wins; the
    // catalog's uniqueness check is what prevents a republish
    let mut store = BlobStore::new();
    store.store_crate("k", "1.0.0", b"first");
    store.store_crate("k", "1.0.0", b"second");
    assert_eq!(store.get_crate_data("k", "1.0.0").unwrap().as_slice(), b"second");
    assert_eq!(store.get_crate_size("k", "1.0.0").unwrap(), 6);
}

#[test]
fn catalog_create_and_conflict() {
    let mut cat = Catalog::new();
    let id = cat.create_crate(&plain("tool", "1.0.0"), 9, 50).expect("created");
    assert_eq!(cat.create_crate(&plain("tool", "2.0.0"), 9, 51).err(), Some(RegistryError::Conflict));
    let row = cat.get_crate_by_name("tool").expect("row exists");
    assert_eq!(row.id, id);
    assert_eq!(row.owner_id, 9);
    assert_eq!(row.downloads, 0);
    assert_eq!(row.created_at, 50);
    assert!(cat.get_crate_by_name("other").is_none());
}

#[test]
fn catalog_version_conflicts() {
    let mut cat = Catalog::new();
    let id = cat.create_crate(&plain("tool", "1.0.0"), 9, 50).expect("created");
    cat.create_crate_version(id, &plain("tool", "1.0.0"), "abc", 3, 50).expect("created");
    // the same (crate, version) pair again: Conflict
    assert_eq!(
        cat.create_crate_version(id, &plain("tool", "1.0.0"), "def", 4, 51).err(),
        Some(RegistryError::Conflict)
    );
    // a version row for a crate id that does not exist: CatalogError
    assert_eq!(
        cat.create_crate_version(id + 1000, &plain("tool", "9.0.0"), "def", 4, 51).err(),
        Some(RegistryError::CatalogError)
    );
    assert_eq!(cat.count_total_versions(), 1);
}

#[test]
fn increment_is_a_noop_for_unknown_ids() {
    let mut cat = Catalog::new();
    let id = cat.create_crate(&plain("tool", "1.0.0"), 9, 50).expect("created");
    cat.increment_download_count(id + 77);
    assert_eq!(cat.get_crate_by_name("tool").unwrap().downloads, 0);
    cat.increment_download_count(id);
    cat.increment_download_count(id);
    assert_eq!(cat.get_crate_by_name("tool").unwrap().downloads, 2);
}

#[test]
fn default_config_values() {
    let cfg = AppConfig::default();
    assert_eq!(cfg.server.host, "127.0.0.1");
    assert_eq!(cfg.server.port, 8080);
    assert_eq!(cfg.server.environment, "development");
    assert_eq!(cfg.server.cors_origins, vec!["*".to_string()]);
    assert_eq!(cfg.database.url, "sqlite:data/ghostcrate.db");
    assert_eq!(cfg.storage.backend, StorageBackend::Local);
    assert_eq!(cfg.storage.local_path, "./data");
    assert!(cfg.storage.s3.is_none());
    assert_eq!(cfg.auth.session_duration_hours, 24 * 7);
    assert_eq!(cfg.auth.bcrypt_cost, 12);
    assert_eq!(cfg.registry.name, "GhostCrate");
    assert!(!cfg.registry.crates_io_mirror.enabled);
    assert!(cfg.is_development());
    assert!(!cfg.is_production());
}

#[test]
fn organization_role_permissions() {
    assert!(OrganizationRole::Owner.can_invite());
    assert!(OrganizationRole::Admin.can_invite());
    assert!(!OrganizationRole::Member.can_invite());
    assert!(!OrganizationRole::Viewer.can_invite());

    assert!(OrganizationRole::Owner.can_manage_members());
    assert!(OrganizationRole::Admin.can_manage_members());
    assert!(!OrganizationRole::Viewer.can_manage_members());

    assert!(OrganizationRole::Owner.can_publish_crates());
    assert!(OrganizationRole::Admin.can_publish_crates());
    assert!(OrganizationRole::Member.can_publish_crates());
    assert!(!OrganizationRole::Viewer.can_publish_crates());

    assert!(OrganizationRole::Owner.can_delete_organization());
    assert!(!OrganizationRole::Admin.can_delete_organization());
    assert!(OrganizationRole::Owner.can_transfer_ownership());
    assert!(!OrganizationRole::Admin.can_transfer_ownership());
}

#[test]
fn metrics_collector_counts_and_sheds() {
    let mut m = MetricsCollector::new();
    assert_eq!(m.request_count, 0);
    m.record_request(5, false);
    m.record_request(7, true);
    assert_eq!(m.request_count, 2);
    assert_eq!(m.error_count, 1);
    assert_eq!(m.response_times, vec![5, 7]);
    // the window keeps at most a thousand entries, shedding the oldest
    // hundred when it would overflow
    for i in 0..999 {
        m.record_request(i, false);
    }
    assert_eq!(m.response_times.len(), 901);
    assert_eq!(m.request_count, 1001);
    assert_eq!(m.response_times[0], 98);
}

#[test]
fn search_query_defaults() {
    let q = SearchQuery { q: None, per_page: None, page: None };
    let (text, per_page, page) = q.resolved();
    assert_eq!(text, "");
    assert_eq!(per_page, 10);
    assert_eq!(page, 1);
    let q = SearchQuery { q: Some("needle".to_string()), per_page: Some(3), page: Some(2) };
    let (text, per_page, page) = q.resolved();
    assert_eq!(text, "needle");
    assert_eq!(per_page, 3);
    assert_eq!(page, 2);
}
