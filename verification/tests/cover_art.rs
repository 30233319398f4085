use std::collections::BTreeMap;

use database::cover_art_removal::{CoverArtRemoval, RemovalAction};
use database::cover_art_sync::{CoverArtSync, SyncAction};
use database::lookup::{cover_art_binary, magic_cover_art_id, random_cover_art_limit};
use database::store::{magic_file_hash, Command, CoverArt, ExtractedCoverArt, MediaFile, Reply};

/// An in-memory store that answers commands the way the database does.
struct MemoryStore {
    files: BTreeMap<i32, (String, String, Option<i32>)>,
    arts: BTreeMap<i32, (String, Vec<u8>)>,
    next_id: i32,
    /// What the audio files hold, by file name.
    pictures: BTreeMap<String, (String, Vec<u8>)>,
    /// Commands carried out so far.
    log: Vec<String>,
    /// Fail the command with this index (counted from 0).
    fail_at: Option<usize>,
}

impl MemoryStore {
    fn new() -> Self {
        MemoryStore {
            files: BTreeMap::new(),
            arts: BTreeMap::new(),
            next_id: 100,
            pictures: BTreeMap::new(),
            log: Vec::new(),
            fail_at: None,
        }
    }

    fn add_file(&mut self, id: i32, name: &str, picture: Option<(&str, &[u8])>) {
        self.files.insert(id, ("music".to_string(), name.to_string(), None));
        if let Some((crc, data)) = picture {
            self.pictures.insert(name.to_string(), (crc.to_string(), data.to_vec()));
        }
    }

    fn art(&self, id: i32) -> CoverArt {
        let (h, b) = &self.arts[&id];
        CoverArt { id, file_hash: h.clone(), binary: b.clone() }
    }

    fn find_hash(&self, hash: &str) -> Option<CoverArt> {
        self.arts.iter().find(|(_, (h, _))| h == hash).map(|(id, _)| self.art(*id))
    }

    fn insert(&mut self, hash: String, binary: Vec<u8>) -> i32 {
        let id = self.next_id;
        self.next_id += 1;
        self.arts.insert(id, (hash, binary));
        id
    }

    fn perform(&mut self, command: Command) -> Reply {
        let index = self.log.len();
        self.log.push(command_name(&command).to_string());
        if self.fail_at == Some(index) && !matches!(command, Command::ExtractCoverArt { .. }) {
            return Reply::Failed;
        }
        match command {
            Command::FindFile { file_id } => Reply::File(self.files.get(&file_id).map(|(d, n, c)| {
                MediaFile { id: file_id, directory: d.clone(), file_name: n.clone(), cover_art_id: *c }
            })),
            Command::LoadCoverArt { cover_art_id } => Reply::CoverArt(self.art(cover_art_id)),
            Command::ExtractCoverArt { file_name, .. } => Reply::Extracted(
                self.pictures
                    .get(&file_name)
                    .map(|(crc, data)| ExtractedCoverArt { crc: crc.clone(), data: data.clone() }),
            ),
            Command::FindCoverArtByHash { file_hash } => Reply::Matched(self.find_hash(&file_hash)),
            Command::FindMagicCoverArt => Reply::Matched(self.find_hash("")),
            Command::InsertCoverArt { file_hash, binary } => {
                Reply::Inserted(self.insert(file_hash, binary))
            }
            Command::InsertMagicCoverArt => Reply::Inserted(self.insert(String::new(), Vec::new())),
            Command::SetFileCoverArt { file_id, link } => match self.files.get_mut(&file_id) {
                Some(f) => {
                    f.2 = link;
                    Reply::Updated
                }
                None => Reply::Failed,
            },
            Command::CountFilesWithCoverArt { cover_art_id } => Reply::Counted(
                self.files.values().filter(|f| f.2 == Some(cover_art_id)).count() as u64,
            ),
            Command::DeleteCoverArt { cover_art_id } => {
                self.arts.remove(&cover_art_id);
                Reply::Deleted
            }
        }
    }

    /// Runs a synchronisation to its end; `Err(())` when it failed.
    fn sync(&mut self, file_id: i32) -> Result<Option<(i32, Vec<u8>)>, ()> {
        let (mut state, mut action) = CoverArtSync::start(file_id);
        loop {
            match action {
                SyncAction::Perform(command) => {
                    let reply = self.perform(command);
                    assert!(state.accepts(&reply));
                    let (s, a) = state.step(reply);
                    state = s;
                    action = a;
                }
                SyncAction::Finish(result) => return Ok(result),
                SyncAction::Fail => return Err(()),
            }
        }
    }

    /// Runs a removal to its end; `Err(())` when it failed.
    fn remove(&mut self, file_id: i32) -> Result<(), ()> {
        let (mut state, mut action) = CoverArtRemoval::start(file_id);
        loop {
            match action {
                RemovalAction::Perform(command) => {
                    let reply = self.perform(command);
                    assert!(state.accepts(&reply));
                    let (s, a) = state.step(reply);
                    state = s;
                    action = a;
                }
                RemovalAction::Finish => return Ok(()),
                RemovalAction::Fail => return Err(()),
            }
        }
    }

    fn link(&self, file_id: i32) -> Option<i32> {
        self.files[&file_id].2
    }
}

fn command_name(command: &Command) -> &'static str {
    match command {
        Command::FindFile { .. } => "FindFile",
        Command::LoadCoverArt { .. } => "LoadCoverArt",
        Command::ExtractCoverArt { .. } => "ExtractCoverArt",
        Command::FindCoverArtByHash { .. } => "FindCoverArtByHash",
        Command::FindMagicCoverArt => "FindMagicCoverArt",
        Command::InsertCoverArt { .. } => "InsertCoverArt",
        Command::InsertMagicCoverArt => "InsertMagicCoverArt",
        Command::SetFileCoverArt { .. } => "SetFileCoverArt",
        Command::CountFilesWithCoverArt { .. } => "CountFilesWithCoverArt",
        Command::DeleteCoverArt { .. } => "DeleteCoverArt",
    }
}

#[test]
fn sync_missing_file_returns_none() {
    let mut store = MemoryStore::new();
    assert_eq!(store.sync(7), Ok(None));
    assert!(store.arts.is_empty());
    assert_eq!(store.log, vec!["FindFile"]);
}

#[test]
fn sync_stores_new_picture_and_links_file() {
    let mut store = MemoryStore::new();
    store.add_file(1, "a.mp3", Some(("CRC1", &[1, 2, 3])));
    assert_eq!(store.sync(1), Ok(Some((100, vec![1, 2, 3]))));
    assert_eq!(store.link(1), Some(100));
    assert_eq!(store.arts[&100], ("CRC1".to_string(), vec![1, 2, 3]));
}

#[test]
fn sync_reuses_row_with_same_checksum() {
    let mut store = MemoryStore::new();
    store.add_file(1, "a.mp3", Some(("CRC1", &[1, 2, 3])));
    store.add_file(2, "b.mp3", Some(("CRC1", &[9, 9])));
    assert_eq!(store.sync(1), Ok(Some((100, vec![1, 2, 3]))));
    // The second file's picture has the same checksum: the stored row is reused.
    assert_eq!(store.sync(2), Ok(Some((100, vec![1, 2, 3]))));
    assert_eq!(store.link(2), Some(100));
    assert_eq!(store.arts.len(), 1);
}

#[test]
fn sync_without_picture_creates_then_reuses_magic_row() {
    let mut store = MemoryStore::new();
    store.add_file(1, "a.flac", None);
    store.add_file(2, "b.flac", None);
    assert_eq!(store.sync(1), Ok(Some((100, vec![]))));
    assert_eq!(store.arts[&100], (String::new(), vec![]));
    assert_eq!(store.sync(2), Ok(Some((100, vec![]))));
    assert_eq!(store.link(2), Some(100));
    assert_eq!(store.arts.len(), 1);
}

#[test]
fn sync_of_linked_file_reads_link_back_and_changes_nothing() {
    let mut store = MemoryStore::new();
    store.add_file(1, "a.mp3", Some(("CRC1", &[4, 5])));
    let first = store.sync(1);
    let arts_before = store.arts.clone();
    let files_before = store.files.clone();
    store.log.clear();
    assert_eq!(store.sync(1), first);
    assert_eq!(store.arts, arts_before);
    assert_eq!(store.files, files_before);
    assert_eq!(store.log, vec!["FindFile", "LoadCoverArt"]);
}

#[test]
fn sync_store_error_fails() {
    let mut store = MemoryStore::new();
    store.add_file(1, "a.mp3", Some(("CRC1", &[4, 5])));
    // FindFile, ExtractCoverArt, FindCoverArtByHash, InsertCoverArt (fails).
    store.fail_at = Some(3);
    assert_eq!(store.sync(1), Err(()));
    assert_eq!(store.link(1), None);
}

#[test]
fn sync_commands_follow_the_original_order() {
    let mut store = MemoryStore::new();
    store.add_file(1, "a.mp3", Some(("CRC1", &[4, 5])));
    store.sync(1).unwrap();
    assert_eq!(
        store.log,
        vec!["FindFile", "ExtractCoverArt", "FindCoverArtByHash", "InsertCoverArt", "SetFileCoverArt"]
    );
}

#[test]
fn removal_deletes_last_link_only() {
    let mut store = MemoryStore::new();
    store.add_file(1, "a.mp3", Some(("CRC1", &[1])));
    store.add_file(2, "b.mp3", Some(("CRC1", &[1])));
    store.sync(1).unwrap();
    store.sync(2).unwrap();
    assert_eq!(store.remove(1), Ok(()));
    assert_eq!(store.link(1), None);
    // File 2 still uses the row.
    assert!(store.arts.contains_key(&100));
    assert_eq!(store.remove(2), Ok(()));
    assert_eq!(store.link(2), None);
    assert!(store.arts.is_empty());
}

#[test]
fn removal_of_unlinked_or_missing_file_changes_nothing() {
    let mut store = MemoryStore::new();
    store.add_file(1, "a.mp3", None);
    assert_eq!(store.remove(1), Ok(()));
    assert_eq!(store.remove(42), Ok(()));
    assert_eq!(store.log, vec!["FindFile", "FindFile"]);
}

#[test]
fn removal_twice_is_removal_once() {
    let mut store = MemoryStore::new();
    store.add_file(1, "a.mp3", Some(("CRC1", &[1])));
    store.sync(1).unwrap();
    store.remove(1).unwrap();
    let arts = store.arts.clone();
    let files = store.files.clone();
    store.remove(1).unwrap();
    assert_eq!(store.arts, arts);
    assert_eq!(store.files, files);
}

#[test]
fn removal_store_error_fails() {
    let mut store = MemoryStore::new();
    store.add_file(1, "a.mp3", Some(("CRC1", &[1])));
    store.sync(1).unwrap();
    store.log.clear();
    // FindFile, SetFileCoverArt, CountFilesWithCoverArt (fails).
    store.fail_at = Some(2);
    assert_eq!(store.remove(1), Err(()));
    assert!(store.arts.contains_key(&100));
}

#[test]
fn magic_id_from_reply() {
    let magic = CoverArt { id: 5, file_hash: magic_file_hash(), binary: vec![] };
    assert_eq!(magic_cover_art_id(Reply::Matched(Some(magic))), Some(5));
    assert_eq!(magic_cover_art_id(Reply::Matched(None)), None);
    assert_eq!(magic_cover_art_id(Reply::Failed), None);
}

#[test]
fn magic_hash_is_empty() {
    assert_eq!(magic_file_hash(), "");
}

#[test]
fn binary_of_found_row() {
    let art = CoverArt { id: 3, file_hash: "X".to_string(), binary: vec![7, 8] };
    assert_eq!(cover_art_binary(Some(art)), Some(vec![7, 8]));
    assert_eq!(cover_art_binary(None), None);
}

#[test]
fn random_limit_is_count() {
    assert_eq!(random_cover_art_limit(0), 0);
    assert_eq!(random_cover_art_limit(25), 25);
}
