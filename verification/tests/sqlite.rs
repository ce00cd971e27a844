//! The cache over a real SQLite file: the stages drive `rusqlite`, and what is
//! written is read back through it.

use response_cache::{CacheError, ErrorKind, Looked, ResponseCache};
use response_cache::sql::{ENSURE_SCHEMA, INSERT, LOOKUP};
use rusqlite::Connection;
use std::io::Write;
use std::path::Path;
use tempfile::NamedTempFile;

fn open(path: &Path) -> Result<ResponseCache<Connection>, CacheError<String>> {
    let store = ResponseCache::new(Connection::open(path).map_err(|e| e.to_string()))?;
    let schema = store
        .handle()
        .execute(ENSURE_SCHEMA, ())
        .map(|_| ())
        .map_err(|e| e.to_string());
    store.ensured(schema)
}

fn find(connection: &Connection, key: &str) -> Result<Option<Vec<u8>>, rusqlite::Error> {
    let mut statement = connection.prepare(LOOKUP)?;
    let mut rows = statement.query([key])?;
    match rows.next()? {
        Some(row) => Ok(Some(row.get(0)?)),
        None => Ok(None),
    }
}

fn put(connection: &Connection, key: &str, value: &[u8]) -> Result<(), rusqlite::Error> {
    connection.execute(INSERT, (key, value)).map(|_| ())
}

fn get(
    cache: &ResponseCache<Connection>,
    key: &str,
    strategy: impl FnOnce() -> Result<Vec<u8>, String>,
) -> Result<Vec<u8>, CacheError<String>> {
    let lookup = cache.get(key);
    let answer = find(cache.handle(), lookup.key()).map_err(|e| e.to_string());
    match lookup.answered(answer) {
        Looked::Hit(value) => Ok(value),
        Looked::Failed(error) => Err(error),
        Looked::Miss(fetch) => {
            let insert = fetch.fetched(strategy())?;
            let written =
                put(cache.handle(), insert.key(), insert.value()).map_err(|e| e.to_string());
            insert.inserted(written)
        }
    }
}

struct TestHarness {
    file: NamedTempFile,
    cache: ResponseCache<Connection>,
}

impl TestHarness {
    fn new() -> TestHarness {
        let file = NamedTempFile::new().unwrap();
        let cache = open(file.path()).unwrap();
        TestHarness { file, cache }
    }
}

#[test]
fn round_trip_multiple() {
    let test = TestHarness::new();

    let value_one = "1".as_bytes().to_vec();
    let value_two = "2".as_bytes().to_vec();

    assert_eq!(
        get(&test.cache, "1", || Ok(value_one.clone())).unwrap(),
        value_one
    );
    assert_eq!(
        get(&test.cache, "2", || Ok(value_two.clone())).unwrap(),
        value_two
    );
    assert_eq!(
        get(&test.cache, "1", || Ok(value_one.clone())).unwrap(),
        value_one
    );
}

#[test]
fn fetch_count() {
    let test = TestHarness::new();

    let mut fetched_count = 0;

    for _ in 0..3 {
        let result = get(&test.cache, "1", || {
            fetched_count += 1;
            Ok("1".as_bytes().to_vec())
        })
        .unwrap();

        assert_eq!(result, "1".as_bytes().to_vec());
    }

    assert_eq!(1, fetched_count);
}

#[test]
fn sustains_data() {
    let test = TestHarness::new();

    assert_eq!(
        get(&test.cache, "1", || Ok("1".as_bytes().to_vec())).unwrap(),
        "1".as_bytes().to_vec()
    );

    let cache = open(test.file.path()).unwrap();
    assert_eq!(
        get(&cache, "1", || panic!()).unwrap(),
        "1".as_bytes().to_vec()
    );
}

#[test]
fn stores_uuid() {
    let test = TestHarness::new();

    let data = uuid::Uuid::new_v4();

    let fetched_data = get(&test.cache, "1", || Ok(data.as_bytes().to_vec())).unwrap();

    assert_eq!(uuid::Uuid::from_slice(&fetched_data).unwrap(), data);

    let read_back = get(&test.cache, "1", || panic!()).unwrap();
    assert_eq!(read_back.len(), 16);
    assert_eq!(uuid::Uuid::from_slice(&read_back).unwrap(), data);
}

#[test]
fn whole_scenario_over_one_file() {
    let test = TestHarness::new();
    let mut second_runs = 0;

    assert_eq!(get(&test.cache, "1", || Ok(b"1".to_vec())).unwrap(), b"1");
    assert_eq!(get(&test.cache, "2", || Ok(b"2".to_vec())).unwrap(), b"2");
    assert_eq!(
        get(&test.cache, "1", || {
            second_runs += 1;
            Ok(b"1".to_vec())
        })
        .unwrap(),
        b"1"
    );
    assert_eq!(second_runs, 0);

    drop(test.cache);
    let reopened = open(test.file.path()).unwrap();
    assert_eq!(get(&reopened, "1", || panic!()).unwrap(), b"1");
    assert_eq!(get(&reopened, "2", || panic!()).unwrap(), b"2");
}

#[test]
fn miss_writes_the_row_that_a_lookup_finds() {
    let test = TestHarness::new();
    assert_eq!(find(test.cache.handle(), "k").unwrap(), None);

    let mut runs = 0;
    let result = get(&test.cache, "k", || {
        runs += 1;
        Ok(vec![0xde, 0xad, 0xbe, 0xef])
    });
    assert_eq!(result.unwrap(), vec![0xde, 0xad, 0xbe, 0xef]);
    assert_eq!(runs, 1);

    let other = Connection::open(test.file.path()).unwrap();
    assert_eq!(
        find(&other, "k").unwrap(),
        Some(vec![0xde, 0xad, 0xbe, 0xef])
    );
    let rows: i64 = other
        .query_row("SELECT COUNT(*) FROM cached", (), |row| row.get(0))
        .unwrap();
    assert_eq!(rows, 1);
}

#[test]
fn hit_returns_what_the_store_holds() {
    let test = TestHarness::new();
    put(test.cache.handle(), "k", &[1, 2, 3]).unwrap();

    let result = get(&test.cache, "k", || panic!("a hit computes nothing"));
    assert_eq!(result.unwrap(), vec![1, 2, 3]);
}

#[test]
fn failed_strategy_leaves_the_store_as_it_was() {
    let test = TestHarness::new();
    put(test.cache.handle(), "kept", &[1]).unwrap();

    let error = get(&test.cache, "k", || Err(String::from("upstream is down"))).unwrap_err();
    assert_eq!(error.kind, ErrorKind::Fetch);
    assert_eq!(error.cause, "upstream is down");

    assert_eq!(find(test.cache.handle(), "k").unwrap(), None);
    assert_eq!(find(test.cache.handle(), "kept").unwrap(), Some(vec![1]));
    let rows: i64 = test
        .cache
        .handle()
        .query_row("SELECT COUNT(*) FROM cached", (), |row| row.get(0))
        .unwrap();
    assert_eq!(rows, 1);
}

#[test]
fn empty_payload_round_trips() {
    let test = TestHarness::new();
    assert_eq!(
        get(&test.cache, "empty", || Ok(Vec::new())).unwrap(),
        Vec::<u8>::new()
    );
    assert_eq!(
        get(&test.cache, "empty", || panic!()).unwrap(),
        Vec::<u8>::new()
    );
}

#[test]
fn payload_with_null_bytes_round_trips() {
    let test = TestHarness::new();
    let payload = vec![0x00, 0x61, 0x00, 0x00, 0xff, 0x80, 0x00];
    assert_eq!(
        get(&test.cache, "nul", || Ok(payload.clone())).unwrap(),
        payload
    );
    let reopened = open(test.file.path()).unwrap();
    assert_eq!(get(&reopened, "nul", || panic!()).unwrap(), payload);
}

#[test]
fn every_byte_value_round_trips() {
    let test = TestHarness::new();
    let payload: Vec<u8> = (0..=255u8).collect();
    assert_eq!(
        get(&test.cache, "all", || Ok(payload.clone())).unwrap(),
        payload
    );
    assert_eq!(get(&test.cache, "all", || panic!()).unwrap(), payload);
}

#[test]
fn keys_match_exactly() {
    let test = TestHarness::new();
    assert_eq!(get(&test.cache, "key", || Ok(vec![1])).unwrap(), vec![1]);
    assert_eq!(get(&test.cache, "Key", || Ok(vec![2])).unwrap(), vec![2]);
    assert_eq!(get(&test.cache, "key ", || Ok(vec![3])).unwrap(), vec![3]);
    assert_eq!(get(&test.cache, "", || Ok(vec![4])).unwrap(), vec![4]);
    assert_eq!(get(&test.cache, "key", || panic!()).unwrap(), vec![1]);
    assert_eq!(get(&test.cache, "Key", || panic!()).unwrap(), vec![2]);
    assert_eq!(get(&test.cache, "key ", || panic!()).unwrap(), vec![3]);
    assert_eq!(get(&test.cache, "", || panic!()).unwrap(), vec![4]);
}

#[test]
fn second_of_two_racing_misses_is_refused_by_the_store() {
    let test = TestHarness::new();
    let other = open(test.file.path()).unwrap();

    let first = match test
        .cache
        .get("k")
        .answered(find(test.cache.handle(), "k"))
    {
        Looked::Miss(fetch) => fetch.fetched(Ok::<_, rusqlite::Error>(vec![1])).unwrap(),
        state => panic!("expected a miss, got {:?}", state),
    };
    let second = match other.get("k").answered(find(other.handle(), "k")) {
        Looked::Miss(fetch) => fetch.fetched(Ok::<_, rusqlite::Error>(vec![2])).unwrap(),
        state => panic!("expected a miss, got {:?}", state),
    };

    let written = put(test.cache.handle(), first.key(), first.value());
    assert_eq!(first.inserted(written).unwrap(), vec![1]);

    let refused = put(other.handle(), second.key(), second.value());
    let error = second.inserted(refused).unwrap_err();
    assert_eq!(error.kind, ErrorKind::Insert);

    assert_eq!(get(&other, "k", || panic!()).unwrap(), vec![1]);
}

#[test]
fn store_that_cannot_be_opened_is_a_storage_open_failure() {
    let directory = tempfile::tempdir().unwrap();
    let path = directory.path().join("missing").join("cache.db");
    let error = open(&path).unwrap_err();
    assert_eq!(error.kind, ErrorKind::StorageOpen);
}

#[test]
fn file_that_is_no_database_is_a_schema_failure() {
    let mut file = NamedTempFile::new().unwrap();
    file.write_all(&[0x2a; 4096]).unwrap();
    file.flush().unwrap();
    let error = open(file.path()).unwrap_err();
    assert_eq!(error.kind, ErrorKind::Schema);
}

#[test]
fn lookup_that_fails_is_a_lookup_failure() {
    let test = TestHarness::new();
    test.cache
        .handle()
        .execute("DROP TABLE cached", ())
        .unwrap();
    let error = get(&test.cache, "k", || panic!("a failed lookup computes nothing")).unwrap_err();
    assert_eq!(error.kind, ErrorKind::Lookup);
}

#[test]
fn opening_again_keeps_the_schema_and_the_rows() {
    let test = TestHarness::new();
    assert_eq!(get(&test.cache, "k", || Ok(vec![1])).unwrap(), vec![1]);

    let second = open(test.file.path()).unwrap();
    let third = open(test.file.path()).unwrap();
    assert_eq!(get(&second, "k", || panic!()).unwrap(), vec![1]);
    assert_eq!(get(&third, "k", || panic!()).unwrap(), vec![1]);
    assert_eq!(get(&third, "j", || Ok(vec![2])).unwrap(), vec![2]);
    assert_eq!(get(&test.cache, "j", || panic!()).unwrap(), vec![2]);
}

#[test]
fn layout_is_one_table_of_a_unique_text_key_and_a_blob() {
    let test = TestHarness::new();
    assert_eq!(get(&test.cache, "k", || Ok(vec![0, 1])).unwrap(), vec![0, 1]);

    let connection = Connection::open(test.file.path()).unwrap();
    let tables: i64 = connection
        .query_row(
            "SELECT COUNT(*) FROM sqlite_master WHERE type = 'table'",
            (),
            |row| row.get(0),
        )
        .unwrap();
    assert_eq!(tables, 1);
    let (key_type, value_type): (String, String) = connection
        .query_row(
            "SELECT typeof(key), typeof(value) FROM cached WHERE key = 'k'",
            (),
            |row| Ok((row.get(0)?, row.get(1)?)),
        )
        .unwrap();
    assert_eq!(key_type, "text");
    assert_eq!(value_type, "blob");
    assert!(connection
        .execute("INSERT INTO cached VALUES('k', x'00')", ())
        .is_err());
}
