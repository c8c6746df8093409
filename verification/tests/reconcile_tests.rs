use air_quality::checksum::checksum_from_bytes;
use air_quality::checksum::checksums_equal;
use air_quality::checksum::ChecksumEngine;
use air_quality::metadata::changed_file_names;
use air_quality::metadata::collect_fetched_metadata;
use air_quality::metadata::metadata_from_fetched_bytes;
use air_quality::metadata::reduce_remote_metadata_list_to_modified_or_not_exist_local;
use air_quality::metadata::FileMetadata;
use air_quality::metadata::FileMetadataBuilder;
use air_quality::sync_error::SyncErrorKind;

fn record(name: &str, checksum_byte: u8) -> FileMetadata {
    FileMetadata::new(FileMetadataBuilder {
        checksum: vec![checksum_byte; 20],
        file_name: name.to_string(),
    })
}

fn changed_names(remote: &[FileMetadata], local: &[FileMetadata]) -> Vec<String> {
    reduce_remote_metadata_list_to_modified_or_not_exist_local(remote, local)
        .iter()
        .map(|metadata| metadata.file_name().to_string())
        .collect()
}

#[test]
fn remote_only_file_is_reported() {
    let remote = vec![record("a", 1), record("b", 2)];
    let local = vec![record("a", 1)];
    assert_eq!(changed_names(&remote, &local), vec!["b".to_string()]);
}

#[test]
fn changed_checksum_is_reported() {
    let remote = vec![record("a", 1)];
    let local = vec![record("a", 3)];
    assert_eq!(changed_names(&remote, &local), vec!["a".to_string()]);
}

#[test]
fn unchanged_file_is_not_reported() {
    let remote = vec![record("a", 1)];
    let local = vec![record("a", 1)];
    assert_eq!(changed_names(&remote, &local), Vec::<String>::new());
}

#[test]
fn local_only_file_is_never_reported() {
    let remote = vec![];
    let local = vec![record("a", 1)];
    assert_eq!(changed_names(&remote, &local), Vec::<String>::new());
}

#[test]
fn change_set_keeps_remote_listing_order() {
    let remote = vec![record("c", 1), record("a", 2), record("b", 3)];
    let local = vec![record("a", 9)];
    assert_eq!(
        changed_names(&remote, &local),
        vec!["c".to_string(), "a".to_string(), "b".to_string()]
    );
}

#[test]
fn changed_file_names_matches_change_set() {
    let remote = vec![record("a", 1), record("b", 2)];
    let local = vec![record("b", 2)];
    let names = changed_file_names(&remote, &local);
    assert_eq!(names, vec!["a".to_string()]);
}

#[test]
fn reconcile_is_deterministic() {
    let remote = vec![record("a", 1), record("b", 2), record("c", 3)];
    let local = vec![record("b", 9), record("c", 3)];
    let first = changed_names(&remote, &local);
    let second = changed_names(&remote, &local);
    assert_eq!(first, second);
    assert_eq!(first, vec!["a".to_string(), "b".to_string()]);
}

#[test]
fn checksum_is_deterministic_and_content_sensitive() {
    let first = checksum_from_bytes(b"hello world");
    let second = checksum_from_bytes(b"hello world");
    assert_eq!(first, second);

    let different = checksum_from_bytes(b"hello worle");
    assert_ne!(first, different);
}

#[test]
fn checksum_matches_known_digest() {
    // The SHA-1 digest of "abc".
    let expected: Vec<u8> = vec![
        0xa9, 0x99, 0x3e, 0x36, 0x47, 0x06, 0x81, 0x6a, 0xba, 0x3e, 0x25, 0x71, 0x78, 0x50, 0xc2,
        0x6c, 0x9c, 0xd0, 0xd8, 0x9d,
    ];
    assert_eq!(checksum_from_bytes(b"abc"), expected);

    // The SHA-1 digest of the empty input.
    let expected_empty: Vec<u8> = vec![
        0xda, 0x39, 0xa3, 0xee, 0x5e, 0x6b, 0x4b, 0x0d, 0x32, 0x55, 0xbf, 0xef, 0x95, 0x60, 0x18,
        0x90, 0xaf, 0xd8, 0x07, 0x09,
    ];
    assert_eq!(checksum_from_bytes(b""), expected_empty);
}

#[test]
fn streaming_engine_matches_one_shot_digest() {
    let mut engine = ChecksumEngine::new();
    engine.update(b"hello ");
    engine.update(b"world");
    assert_eq!(engine.finalize(), checksum_from_bytes(b"hello world"));
}

#[test]
fn large_content_is_chunked_consistently() {
    // Longer than one chunk, so the streaming loop takes several rounds.
    let content = vec![7u8; 5000];
    let mut engine = ChecksumEngine::new();
    engine.update(&content);
    assert_eq!(engine.finalize(), checksum_from_bytes(&content));
}

#[test]
fn checksums_equal_compares_byte_for_byte() {
    assert!(checksums_equal(&vec![1, 2, 3], &vec![1, 2, 3]));
    assert!(!checksums_equal(&vec![1, 2, 3], &vec![1, 2, 4]));
    assert!(!checksums_equal(&vec![1, 2, 3], &vec![1, 2]));
}

#[test]
fn from_content_digests_the_content_bytes() {
    let metadata = FileMetadata::from_content("abc", "file.txt".to_string()).unwrap();
    assert_eq!(metadata.file_name(), "file.txt");
    assert_eq!(metadata.checksum(), &checksum_from_bytes(b"abc"));
}

#[test]
fn equal_checksum_compares_digests_only() {
    let first = FileMetadata::from_content("abc", "one.txt".to_string()).unwrap();
    let second = FileMetadata::from_content("abc", "two.txt".to_string()).unwrap();
    let third = FileMetadata::from_content("abd", "one.txt".to_string()).unwrap();
    assert!(first.equal_checksum(&second));
    assert!(!first.equal_checksum(&third));
}

#[test]
fn fetched_text_builds_a_record() {
    let result = metadata_from_fetched_bytes(b"line one\n", "log.txt".to_string()).unwrap();
    assert_eq!(result.file_name(), "log.txt");
    assert_eq!(result.checksum(), &checksum_from_bytes(b"line one\n"));
}

#[test]
fn fetched_non_text_is_an_encoding_error() {
    let result = metadata_from_fetched_bytes(&[0xff, 0xfe, 0x01], "junk.bin".to_string());
    let error = result.err().unwrap();
    assert_eq!(error.kind(), SyncErrorKind::Encoding);
}

#[test]
fn failed_entries_are_dropped_silently() {
    let outcomes = vec![
        Some(record("a", 1)),
        None,
        Some(record("b", 2)),
        None,
    ];
    let kept = collect_fetched_metadata(outcomes);
    let names: Vec<&str> = kept.iter().map(|metadata| metadata.file_name()).collect();
    assert_eq!(names, vec!["a", "b"]);
}
