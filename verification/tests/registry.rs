//! End-to-end scenarios of the publish and download pipelines.

use ghostcrate::error::RegistryError;
use ghostcrate::models::{accept_upload, PublishRequest};
use ghostcrate::registry::Registry;

fn req(name: &str, vers: &str) -> PublishRequest {
    PublishRequest {
        name: name.to_string(),
        vers: vers.to_string(),
        deps: Vec::new(),
        features: Vec::new(),
        authors: vec!["someone".to_string()],
        description: Some(format!("{} description", name)),
        homepage: None,
        documentation: None,
        readme: None,
        readme_file: None,
        keywords: vec!["tool".to_string()],
        categories: Vec::new(),
        license: Some("MIT".to_string()),
        license_file: None,
        repository: None,
        links: None,
    }
}

#[test]
fn publish_scenario_end_to_end() {
    let mut reg = Registry::new();
    let user_a: u64 = 1;
    let user_b: u64 = 2;
    let bytes: &[u8] = b"0123456789";
    assert_eq!(bytes.len(), 10);

    // publish acme-widgets 1.0.0 as user A: success, owner A, downloads 0
    let r = reg.publish(user_a, &req("acme-widgets", "1.0.0"), bytes, 100);
    assert!(r.is_ok());
    let row = reg.catalog.get_crate_by_name("acme-widgets").expect("row exists");
    assert_eq!(row.owner_id, user_a);
    assert_eq!(row.downloads, 0);
    let crate_id = row.id;

    // publish the same (name, version) again, different bytes: Conflict
    let r = reg.publish(user_a, &req("acme-widgets", "1.0.0"), b"other bytes", 101);
    assert_eq!(r.err(), Some(RegistryError::Conflict));

    // publish the same (name, version) as user B: Forbidden
    let r = reg.publish(user_b, &req("acme-widgets", "1.0.0"), b"stolen", 102);
    assert_eq!(r.err(), Some(RegistryError::Forbidden));

    // download returns the original ten bytes, counter becomes 1
    let d = reg.download("acme-widgets", "1.0.0").expect("download succeeds");
    assert_eq!(d.as_slice(), bytes);
    let row = reg.catalog.get_crate_by_name("acme-widgets").expect("row exists");
    assert_eq!(row.downloads, 1);

    // download of an unpublished version: NotFound, counter untouched
    let d = reg.download("acme-widgets", "2.0.0");
    assert_eq!(d.err(), Some(RegistryError::NotFound));
    let row = reg.catalog.get_crate_by_name("acme-widgets").expect("row exists");
    assert_eq!(row.downloads, 1);

    // exactly one version row, tied to the package
    let versions = reg.catalog.get_crate_versions(crate_id);
    assert_eq!(versions.len(), 1);
    assert_eq!(versions[0].version, "1.0.0");
    assert_eq!(versions[0].file_size, 10);
}

#[test]
fn publish_then_download_returns_bytes_and_checksum() {
    let mut reg = Registry::new();
    let data: &[u8] = b"hello world";
    reg.publish(7, &req("hello", "0.1.0"), data, 5).expect("publish succeeds");
    let got = reg.download("hello", "0.1.0").expect("download succeeds");
    assert_eq!(got.as_slice(), data);
    let crate_id = reg.catalog.get_crate_by_name("hello").unwrap().id;
    let versions = reg.catalog.get_crate_versions(crate_id);
    assert_eq!(versions.len(), 1);
    // the recorded checksum is the SHA-256 digest of the bytes, hex encoded
    assert_eq!(
        versions[0].checksum,
        "b94d27b9934d3e08a52e52d7da7dabfac484efe37a5380ee9088f7ace2efcde9"
    );
    assert_eq!(versions[0].file_size, data.len() as u64);
}

#[test]
fn checksum_of_empty_archive() {
    let mut reg = Registry::new();
    reg.publish(1, &req("empty", "0.0.1"), b"", 1).expect("publish succeeds");
    let crate_id = reg.catalog.get_crate_by_name("empty").unwrap().id;
    let versions = reg.catalog.get_crate_versions(crate_id);
    assert_eq!(
        versions[0].checksum,
        "e3b0c44298fc1c149afbf4c8996fb92427ae41e4649b934ca495991b7852b855"
    );
    assert_eq!(versions[0].file_size, 0);
}

#[test]
fn second_publish_leaves_first_bytes_unchanged() {
    let mut reg = Registry::new();
    reg.publish(3, &req("pkg", "1.0.0"), b"first", 10).expect("publish succeeds");
    let r = reg.publish(3, &req("pkg", "1.0.0"), b"second", 11);
    assert_eq!(r.err(), Some(RegistryError::Conflict));
    let got = reg.download("pkg", "1.0.0").expect("download succeeds");
    assert_eq!(got.as_slice(), b"first");
}

#[test]
fn new_name_claimed_once() {
    let mut reg = Registry::new();
    let a: u64 = 10;
    let b: u64 = 20;
    reg.publish(a, &req("fresh-name", "1.0.0"), b"aa", 1).expect("publish succeeds");
    let r = reg.publish(b, &req("fresh-name", "1.1.0"), b"bb", 2);
    assert_eq!(r.err(), Some(RegistryError::Forbidden));
    // exactly one package row, owned by the first publisher
    assert_eq!(reg.catalog.count_total_crates(), 1);
    assert_eq!(reg.catalog.get_crate_by_name("fresh-name").unwrap().owner_id, a);
    // the losing publish created no version row
    assert_eq!(reg.catalog.count_total_versions(), 1);
}

#[test]
fn non_owner_creates_no_version_row() {
    let mut reg = Registry::new();
    reg.publish(1, &req("mine", "1.0.0"), b"x", 1).expect("publish succeeds");
    let before = reg.catalog.count_total_versions();
    let r = reg.publish(2, &req("mine", "2.0.0"), b"y", 2);
    assert_eq!(r.err(), Some(RegistryError::Forbidden));
    assert_eq!(reg.catalog.count_total_versions(), before);
    // and no blob was written for the rejected upload
    assert!(!reg.blobs.crate_exists("mine", "2.0.0"));
}

#[test]
fn upload_requires_both_parts() {
    let r = accept_upload(Some(req("a", "1.0.0")), Some(b"bytes".to_vec()));
    let (m, d) = r.expect("both parts present");
    assert_eq!(m.name, "a");
    assert_eq!(d, b"bytes");
    assert_eq!(
        accept_upload(None, Some(b"bytes".to_vec())).err(),
        Some(RegistryError::MalformedRequest)
    );
    assert_eq!(
        accept_upload(Some(req("a", "1.0.0")), None).err(),
        Some(RegistryError::MalformedRequest)
    );
}

#[test]
fn malformed_metadata_rejected() {
    let mut reg = Registry::new();
    let r = reg.publish(1, &req("", "1.0.0"), b"x", 1);
    assert_eq!(r.err(), Some(RegistryError::MalformedRequest));
    let r = reg.publish(1, &req("name", ""), b"x", 1);
    assert_eq!(r.err(), Some(RegistryError::MalformedRequest));
    assert_eq!(reg.catalog.count_total_crates(), 0);
}

#[test]
fn owner_publishes_second_version() {
    let mut reg = Registry::new();
    reg.publish(1, &req("multi", "1.0.0"), b"one", 100).expect("publish succeeds");
    reg.publish(1, &req("multi", "2.0.0"), b"two", 200).expect("publish succeeds");
    assert_eq!(reg.catalog.count_total_crates(), 1);
    assert_eq!(reg.catalog.count_total_versions(), 2);
    let got = reg.download("multi", "1.0.0").expect("download succeeds");
    assert_eq!(got.as_slice(), b"one");
    let got = reg.download("multi", "2.0.0").expect("download succeeds");
    assert_eq!(got.as_slice(), b"two");
    // versions listed most recent first
    let crate_id = reg.catalog.get_crate_by_name("multi").unwrap().id;
    let versions = reg.catalog.get_crate_versions(crate_id);
    assert_eq!(versions.len(), 2);
    assert_eq!(versions[0].version, "2.0.0");
    assert_eq!(versions[1].version, "1.0.0");
    assert!(!versions[0].yanked);
}

#[test]
fn download_of_unknown_package_is_not_found() {
    let mut reg = Registry::new();
    let r = reg.download("nothing", "1.0.0");
    assert_eq!(r.err(), Some(RegistryError::NotFound));
    assert_eq!(reg.catalog.count_total_crates(), 0);
}

#[test]
fn versions_sorted_by_creation_time_not_insertion() {
    let mut reg = Registry::new();
    reg.publish(1, &req("clocked", "1.0.0"), b"x", 500).unwrap();
    reg.publish(1, &req("clocked", "0.9.0"), b"y", 100).unwrap();
    reg.publish(1, &req("clocked", "1.1.0"), b"z", 900).unwrap();
    let crate_id = reg.catalog.get_crate_by_name("clocked").unwrap().id;
    let versions = reg.catalog.get_crate_versions(crate_id);
    let nums: Vec<&str> = versions.iter().map(|v| v.version.as_str()).collect();
    assert_eq!(nums, vec!["1.1.0", "1.0.0", "0.9.0"]);
}

#[test]
fn total_downloads_sums_all_counters() {
    let mut reg = Registry::new();
    reg.publish(1, &req("one", "1.0.0"), b"a", 1).unwrap();
    reg.publish(1, &req("two", "1.0.0"), b"b", 2).unwrap();
    assert_eq!(reg.catalog.count_total_downloads(), 0);
    reg.download("one", "1.0.0").unwrap();
    reg.download("one", "1.0.0").unwrap();
    reg.download("two", "1.0.0").unwrap();
    assert_eq!(reg.catalog.count_total_downloads(), 3);
}

#[test]
fn orphan_blob_downloads_without_bookkeeping() {
    // a blob without a catalog row is still served; the bookkeeping lookup
    // failing must never block the download
    let mut reg = Registry::new();
    reg.blobs.store_crate("ghost", "1.0.0", b"orphan");
    let got = reg.download("ghost", "1.0.0").expect("download succeeds");
    assert_eq!(got.as_slice(), b"orphan");
    assert!(reg.catalog.get_crate_by_name("ghost").is_none());
}

#[test]
fn error_texts_are_stable() {
    assert_eq!(RegistryError::MalformedRequest.as_text(), "malformed request");
    assert_eq!(RegistryError::Conflict.as_text(), "conflict");
    assert_eq!(RegistryError::Forbidden.as_text(), "forbidden");
    assert_eq!(RegistryError::NotFound.as_text(), "not found");
    assert_eq!(RegistryError::StorageUnavailable.as_text(), "storage unavailable");
    assert_eq!(RegistryError::WriteFailed.as_text(), "write failed");
    assert_eq!(RegistryError::CatalogError.as_text(), "catalog error");
}
