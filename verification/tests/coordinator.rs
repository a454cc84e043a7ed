use filedrop::coordinator::{
    resolve_id_or_short_code_db, resolve_short_code, store_file_mapping, store_short_url,
};
use filedrop::download::{content_disposition, plan_download, DownloadPlan};
use filedrop::health::{Health, HealthIndicator, PrimaryOutcome, Route};
use filedrop::record::{FileData, FileMapping};
use filedrop::storage::{FileStorage, ShortUrlStorage};

const ID: u128 = 0x550e8400_e29b_41d4_a716_446655440000;
const ID_TEXT: &str = "550e8400-e29b-41d4-a716-446655440000";

fn memory_record() -> FileData {
    FileData::in_memory(String::from("m.txt"), String::from("text/plain"), b"payload".to_vec())
}

fn disk_record() -> FileData {
    FileData::on_disk(String::from("d.bin"), String::from("image/png"), String::from("./temp/d"))
}

fn mapping(is_in_memory: bool, file_path: Option<&str>) -> FileMapping {
    FileMapping {
        id: ID,
        filename: String::from("db.txt"),
        content_type: String::from("text/csv"),
        file_path: file_path.map(String::from),
        file_size: 7,
        is_in_memory,
        created_at: 0,
        accessed_at: 0,
        access_count: 1,
        expires_at: None,
    }
}

#[test]
fn alias_goes_to_the_backend_that_took_it() {
    let mut health = HealthIndicator::new(true);
    let mut aliases = ShortUrlStorage::new();
    let holder =
        store_short_url(&mut health, &mut aliases, "abc12345", 1, PrimaryOutcome::Succeeded(()));
    assert_eq!(holder, Route::Primary);
    assert_eq!(aliases.len(), 0);
    assert_eq!(health.health(), Health::Healthy);
    let holder = store_short_url(&mut health, &mut aliases, "abc12345", 2, PrimaryOutcome::Failed);
    assert_eq!(holder, Route::Fallback);
    assert_eq!(aliases.get("abc12345"), Some(2));
    assert_eq!(health.health(), Health::Degraded);
    let holder = store_short_url(&mut health, &mut aliases, "abc12345", 3, PrimaryOutcome::Skipped);
    assert_eq!(holder, Route::Fallback);
    assert_eq!(aliases.get("abc12345"), Some(3));
    assert_eq!(aliases.len(), 1);
}

#[test]
fn alias_is_resolved_by_the_primary_backend_first() {
    let mut health = HealthIndicator::new(true);
    let mut aliases = ShortUrlStorage::new();
    aliases.insert(String::from("abc12345"), 1);
    let found = |outcome, health: &mut HealthIndicator| {
        resolve_short_code(health, &aliases, "abc12345", outcome)
    };
    assert_eq!(found(PrimaryOutcome::Succeeded(Some(9)), &mut health), Some(9));
    assert_eq!(found(PrimaryOutcome::Succeeded(None), &mut health), Some(1));
    assert_eq!(health.health(), Health::Healthy);
    assert_eq!(found(PrimaryOutcome::Failed, &mut health), Some(1));
    assert_eq!(health.health(), Health::Degraded);
    assert_eq!(found(PrimaryOutcome::Skipped, &mut health), Some(1));
    assert_eq!(
        resolve_short_code(&mut health, &aliases, "other123", PrimaryOutcome::Skipped),
        None
    );
}

#[test]
fn identifier_is_taken_as_it_is() {
    let mut health = HealthIndicator::new(true);
    let mut aliases = ShortUrlStorage::new();
    aliases.insert(String::from(ID_TEXT), 5);
    let id = resolve_id_or_short_code_db(ID_TEXT, &mut health, &aliases, PrimaryOutcome::Failed);
    assert_eq!(id, Some(ID));
    assert_eq!(health.health(), Health::Healthy);
    let id = resolve_id_or_short_code_db(
        ID_TEXT,
        &mut health,
        &aliases,
        PrimaryOutcome::Succeeded(Some(6)),
    );
    assert_eq!(id, Some(ID));
}

#[test]
fn other_input_is_resolved_as_an_alias() {
    let mut health = HealthIndicator::new(true);
    let mut aliases = ShortUrlStorage::new();
    aliases.insert(String::from("abc12345"), ID);
    let mut resolve =
        |input, outcome| resolve_id_or_short_code_db(input, &mut health, &aliases, outcome);
    assert_eq!(resolve("abc12345", PrimaryOutcome::Skipped), Some(ID));
    assert_eq!(resolve("abc12345", PrimaryOutcome::Succeeded(Some(4))), Some(4));
    assert_eq!(resolve("abc12345", PrimaryOutcome::Succeeded(None)), Some(ID));
    assert_eq!(resolve("nonexistent-id", PrimaryOutcome::Succeeded(None)), None);
    assert_eq!(resolve("nonexistent-id", PrimaryOutcome::Failed), None);
    assert_eq!(health.health(), Health::Degraded);
}

#[test]
fn record_goes_to_the_backend_that_took_it() {
    let mut health = HealthIndicator::new(true);
    let mut files = FileStorage::new();
    let holder =
        store_file_mapping(&mut health, &mut files, 1, disk_record(), PrimaryOutcome::Succeeded(()));
    assert_eq!(holder, Route::Primary);
    assert_eq!(files.len(), 0);
    let holder = store_file_mapping(&mut health, &mut files, 2, disk_record(), PrimaryOutcome::Failed);
    assert_eq!(holder, Route::Fallback);
    assert_eq!(files.get(2).unwrap().file_path(), Some("./temp/d"));
    assert_eq!(health.health(), Health::Degraded);
    let holder =
        store_file_mapping(&mut health, &mut files, 3, memory_record(), PrimaryOutcome::Skipped);
    assert_eq!(holder, Route::Fallback);
    assert_eq!(files.get(3).unwrap().data(), Some(&b"payload".to_vec()));
    assert_eq!(files.len(), 2);
}

#[test]
fn payload_in_memory_is_kept_whichever_backend_took_the_metadata() {
    let mut health = HealthIndicator::new(true);
    let mut files = FileStorage::new();
    let holder = store_file_mapping(
        &mut health,
        &mut files,
        ID,
        memory_record(),
        PrimaryOutcome::Succeeded(()),
    );
    assert_eq!(holder, Route::Primary);
    assert_eq!(files.get(ID).unwrap().data(), Some(&b"payload".to_vec()));
    let plan = plan_download(
        &mut health,
        &files,
        ID,
        PrimaryOutcome::Succeeded(Some(mapping(true, None))),
    );
    match plan {
        DownloadPlan::ServeMemory { content_type, disposition, data } => {
            assert_eq!(content_type, "text/csv");
            assert_eq!(disposition, "attachment; filename=\"db.txt\"");
            assert_eq!(data, b"payload");
        }
        other => panic!("{:?}", other),
    }
}

#[test]
fn metadata_of_the_primary_backend_leads_to_the_file_on_disk() {
    let mut health = HealthIndicator::new(true);
    let files = FileStorage::new();
    for in_memory in [false, true] {
        let plan = plan_download(
            &mut health,
            &files,
            ID,
            PrimaryOutcome::Succeeded(Some(mapping(in_memory, Some("/data/file_1")))),
        );
        match plan {
            DownloadPlan::StreamDisk { content_type, disposition, path } => {
                assert_eq!(content_type, "text/csv");
                assert_eq!(disposition, "attachment; filename=\"db.txt\"");
                assert_eq!(path, "/data/file_1");
            }
            other => panic!("{:?}", other),
        }
    }
    let plan = plan_download(
        &mut health,
        &files,
        ID,
        PrimaryOutcome::Succeeded(Some(mapping(true, None))),
    );
    assert!(matches!(plan, DownloadPlan::NotFound));
}

#[test]
fn in_process_backend_decides_where_the_primary_backend_gives_nothing() {
    let mut health = HealthIndicator::new(true);
    let mut files = FileStorage::new();
    files.insert(1, memory_record());
    files.insert(2, disk_record());
    match plan_download(&mut health, &files, 1, PrimaryOutcome::Succeeded(None)) {
        DownloadPlan::ServeMemory { content_type, disposition, data } => {
            assert_eq!(content_type, "text/plain");
            assert_eq!(disposition, "attachment; filename=\"m.txt\"");
            assert_eq!(data, b"payload");
        }
        other => panic!("{:?}", other),
    }
    assert_eq!(health.health(), Health::Healthy);
    match plan_download(&mut health, &files, 2, PrimaryOutcome::Failed) {
        DownloadPlan::StreamDisk { content_type, disposition, path } => {
            assert_eq!(content_type, "image/png");
            assert_eq!(disposition, "attachment; filename=\"d.bin\"");
            assert_eq!(path, "./temp/d");
        }
        other => panic!("{:?}", other),
    }
    assert_eq!(health.health(), Health::Degraded);
    assert!(matches!(
        plan_download(&mut health, &files, 3, PrimaryOutcome::Skipped),
        DownloadPlan::NotFound
    ));
}

#[test]
fn header_names_the_stored_filename() {
    assert_eq!(content_disposition("a b.txt"), "attachment; filename=\"a b.txt\"");
    assert_eq!(content_disposition(""), "attachment; filename=\"\"");
}
