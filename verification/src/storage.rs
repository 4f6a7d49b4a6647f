//! The store's three requests, from what was found on disk to the answer.
//!
//! The caller reads the backing file and says what it found; the functions
//! here decide what the store is, what the request answers, and what has to
//! be written back.

use vstd::prelude::*;
use crate::clock::seconds_since_epoch;
use crate::store::{mapping_of, Filed, StorageData, StorageDataView, Store};

verus! {

/// What the caller found where the store is kept.
#[derive(Clone, Debug, PartialEq, Eq)]
pub enum StorageFile {
    /// There is no file.
    Absent,
    /// There is a file, and it could not be read.
    Unreadable,
    /// The file was read, and its content is no store.
    Malformed,
    /// The file was read, and it holds these entries, each under its key.
    Parsed(Vec<Filed>),
}

/// Why a request on the store failed.
#[derive(Clone, Copy, Debug, PartialEq, Eq, Structural)]
pub enum StorageError {
    CreateDirectory,
    Read,
    Parse,
    Serialize,
    Write,
}

impl StorageError {
    /// A sentence that names the failure.
    pub fn message(&self) -> (text: String)
        ensures
            text@ == match *self {
                StorageError::CreateDirectory => "Failed to create data directory"@,
                StorageError::Read => "Failed to read storage"@,
                StorageError::Parse => "Failed to parse storage"@,
                StorageError::Serialize => "Failed to serialize storage"@,
                StorageError::Write => "Failed to write storage"@,
            },
    {
        match self {
            StorageError::CreateDirectory => "Failed to create data directory".to_owned(),
            StorageError::Read => "Failed to read storage".to_owned(),
            StorageError::Parse => "Failed to parse storage".to_owned(),
            StorageError::Serialize => "Failed to serialize storage".to_owned(),
            StorageError::Write => "Failed to write storage".to_owned(),
        }
    }
}

/// The mapping that is stored, given what was found. Without a file nothing
/// is stored, and nothing can be had from content that is no store.
pub open spec fn stored(file: StorageFile) -> Map<Seq<char>, StorageDataView> {
    match file {
        StorageFile::Parsed(entries) => mapping_of(entries@.map_values(|e: Filed| e@)),
        _ => Map::empty(),
    }
}

/// The failure that stops a write: only a file that is there and cannot be
/// read. Content that is no store is written over.
pub open spec fn write_failure(file: StorageFile) -> Option<StorageError> {
    match file {
        StorageFile::Unreadable => Some(StorageError::Read),
        _ => None,
    }
}

/// The failure that stops a read: a file that is there and cannot be read,
/// or whose content is no store. A file that is absent is no failure.
pub open spec fn read_failure(file: StorageFile) -> Option<StorageError> {
    match file {
        StorageFile::Unreadable => Some(StorageError::Read),
        StorageFile::Malformed => Some(StorageError::Parse),
        _ => None,
    }
}

/// Loads the store in order to change it.
pub fn load_for_write(file: &StorageFile) -> (r: Result<Store, StorageError>)
    ensures
        r is Err <==> write_failure(*file) is Some,
        r matches Err(e) ==> write_failure(*file) == Some(e),
        r matches Ok(s) ==> s@ == stored(*file),
{
    match file {
        StorageFile::Absent => Ok(Store::new()),
        StorageFile::Unreadable => Err(StorageError::Read),
        StorageFile::Malformed => Ok(Store::new()),
        StorageFile::Parsed(entries) => Ok(Store::from_entries(entries)),
    }
}

/// Loads the store in order to answer from it.
pub fn load_for_read(file: &StorageFile) -> (r: Result<Store, StorageError>)
    ensures
        r is Err <==> read_failure(*file) is Some,
        r matches Err(e) ==> read_failure(*file) == Some(e),
        r matches Ok(s) ==> s@ == stored(*file),
{
    match file {
        StorageFile::Absent => Ok(Store::new()),
        StorageFile::Unreadable => Err(StorageError::Read),
        StorageFile::Malformed => Err(StorageError::Parse),
        StorageFile::Parsed(entries) => Ok(Store::from_entries(entries)),
    }
}

/// Writes `value` under `key` with the given time of writing. The answer is
/// the store to write back: what was stored, with the one entry added or
/// replaced.
pub fn store_data_at(file: &StorageFile, key: String, value: String, timestamp: u64) -> (r: Result<
    Store,
    StorageError,
>)
    ensures
        r is Err <==> write_failure(*file) is Some,
        r matches Err(e) ==> write_failure(*file) == Some(e),
        r matches Ok(s) ==> s@ == stored(*file).insert(
            key@,
            StorageDataView { key: key@, value: value@, timestamp },
        ),
{
    match load_for_write(file) {
        Ok(mut s) => {
            s.put(key, value, timestamp);
            Ok(s)
        },
        Err(e) => Err(e),
    }
}

/// Writes `value` under `key` with the system clock's time. Whatever the
/// clock says, the store to write back is what was stored with the one
/// entry added or replaced, and that entry has the key and the value.
pub fn store_data(file: &StorageFile, key: String, value: String) -> (r: Result<Store, StorageError>)
    ensures
        r is Err <==> write_failure(*file) is Some,
        r matches Err(e) ==> write_failure(*file) == Some(e),
        r matches Ok(s) ==> s@.contains_key(key@) && s@[key@].key == key@ && s@[key@].value
            == value@ && s@ == stored(*file).insert(key@, s@[key@]),
{
    let timestamp = seconds_since_epoch();
    store_data_at(file, key, value, timestamp)
}

/// Reads the entry under `key`, as it is stored: `None` where nothing is
/// stored under the key and where there is no file.
pub fn retrieve_data(file: &StorageFile, key: &str) -> (r: Result<Option<StorageData>, StorageError>)
    ensures
        r is Err <==> read_failure(*file) is Some,
        r matches Err(e) ==> read_failure(*file) == Some(e),
        r matches Ok(found) ==> (found is Some <==> stored(*file).contains_key(key@)),
        r matches Ok(Some(e)) ==> e@ == stored(*file)[key@],
{
    match load_for_read(file) {
        Ok(s) => Ok(s.get(key)),
        Err(e) => Err(e),
    }
}

/// Lists the keys that are stored, each once; none where there is no file.
pub fn get_storage_keys(file: &StorageFile) -> (r: Result<Vec<String>, StorageError>)
    ensures
        r is Err <==> read_failure(*file) is Some,
        r matches Err(e) ==> read_failure(*file) == Some(e),
        r matches Ok(keys) ==> keys@.map_values(|k: String| k@).no_duplicates()
            && keys@.map_values(|k: String| k@).to_set() == stored(*file).dom()
            && keys@.len() == stored(*file).len(),
{
    match load_for_read(file) {
        Ok(s) => Ok(s.keys()),
        Err(e) => Err(e),
    }
}

/// A store that was never written fails no request, has no keys and holds
/// no entry.
pub proof fn lemma_fresh_store_is_empty(key: Seq<char>)
    ensures
        read_failure(StorageFile::Absent) is None,
        write_failure(StorageFile::Absent) is None,
        stored(StorageFile::Absent).dom() == Set::<Seq<char>>::empty(),
        stored(StorageFile::Absent).len() == 0,
        !stored(StorageFile::Absent).contains_key(key),
{
}

/// Content that is no store stops no write, and the write starts from the
/// empty store: afterwards the one entry written is all there is.
pub proof fn lemma_malformed_is_written_over(key: Seq<char>, entry: StorageDataView)
    ensures
        write_failure(StorageFile::Malformed) is None,
        stored(StorageFile::Malformed) == Map::<Seq<char>, StorageDataView>::empty(),
        stored(StorageFile::Malformed).insert(key, entry).dom() == set![key],
{
    assert(stored(StorageFile::Malformed).insert(key, entry).dom() =~= set![key]);
}

/// What is written out and read back is the store that was written: the
/// list that a store hands out stands for the mapping that the store holds,
/// and reading it fails nothing.
pub proof fn lemma_written_is_stored(s: Store, entries: Vec<Filed>)
    requires
        entries@.map_values(|e: Filed| e@) == s.listing(),
    ensures
        stored(StorageFile::Parsed(entries)) == s@,
        read_failure(StorageFile::Parsed(entries)) is None,
        write_failure(StorageFile::Parsed(entries)) is None,
{
}

/// Two writers on different keys, one after the other: where the second
/// loads what the first wrote back, both entries are stored in the end,
/// whatever was stored before.
pub proof fn lemma_writers_in_turn_keep_both(
    before: StorageFile,
    after_first: StorageFile,
    after_second: StorageFile,
    first: StorageDataView,
    second: StorageDataView,
)
    requires
        first.key != second.key,
        stored(after_first) == stored(before).insert(first.key, first),
        stored(after_second) == stored(after_first).insert(second.key, second),
    ensures
        stored(after_second).contains_key(first.key),
        stored(after_second).contains_key(second.key),
        stored(after_second)[first.key] == first,
        stored(after_second)[second.key] == second,
{
}

} // verus!
