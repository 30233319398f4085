//! The rows that cover art bookkeeping reads, the commands it sends to the
//! store, the replies it gets back, and a model of what a faithful store
//! answers.

use vstd::prelude::*;

verus! {

/// A row of the media file table, as far as cover art bookkeeping reads it.
pub struct MediaFile {
    pub id: i32,
    pub directory: String,
    pub file_name: String,
    /// The cover art row this file is linked to, if the file was checked.
    pub cover_art_id: Option<i32>,
}

pub struct MediaFileView {
    pub id: i32,
    pub directory: Seq<char>,
    pub file_name: Seq<char>,
    pub cover_art_id: Option<i32>,
}

impl View for MediaFile {
    type V = MediaFileView;

    open spec fn view(&self) -> MediaFileView {
        MediaFileView {
            id: self.id,
            directory: self.directory@,
            file_name: self.file_name@,
            cover_art_id: self.cover_art_id,
        }
    }
}

/// A row of the cover art table.
///
/// The row whose `file_hash` is empty is the magic row: files whose audio
/// holds no picture are linked to it, so that they are not checked again.
pub struct CoverArt {
    pub id: i32,
    pub file_hash: String,
    pub binary: Vec<u8>,
}

pub struct CoverArtView {
    pub id: i32,
    pub file_hash: Seq<char>,
    pub binary: Seq<u8>,
}

impl View for CoverArt {
    type V = CoverArtView;

    open spec fn view(&self) -> CoverArtView {
        CoverArtView { id: self.id, file_hash: self.file_hash@, binary: self.binary@ }
    }
}

/// A picture read out of an audio file, with the checksum that identifies it.
pub struct ExtractedCoverArt {
    pub crc: String,
    pub data: Vec<u8>,
}

pub struct ExtractedCoverArtView {
    pub crc: Seq<char>,
    pub data: Seq<u8>,
}

impl View for ExtractedCoverArt {
    type V = ExtractedCoverArtView;

    open spec fn view(&self) -> ExtractedCoverArtView {
        ExtractedCoverArtView { crc: self.crc@, data: self.data@ }
    }
}

/// The hash that marks the magic cover art row.
pub open spec fn magic_hash() -> Seq<char> {
    Seq::empty()
}

/// The hash of the magic row: the empty string.
pub fn magic_file_hash() -> (hash: String)
    ensures
        hash@ == magic_hash(),
{
    String::new()
}

/// What the bookkeeping asks the store (or, for `ExtractCoverArt`, the file
/// system) to do.
pub enum Command {
    /// Read the media file row with this id.
    FindFile { file_id: i32 },
    /// Read the cover art row with this id; the row is known to exist.
    LoadCoverArt { cover_art_id: i32 },
    /// Read the picture embedded in the audio file at
    /// `<library>/<directory>/<file_name>`.
    ExtractCoverArt { directory: String, file_name: String },
    /// Read a cover art row whose hash is `file_hash`, if there is one.
    FindCoverArtByHash { file_hash: String },
    /// Read the magic cover art row, if there is one.
    FindMagicCoverArt,
    /// Insert a cover art row and report its new id.
    InsertCoverArt { file_hash: String, binary: Vec<u8> },
    /// Insert the magic cover art row (empty hash, empty picture).
    InsertMagicCoverArt,
    /// Set the cover art link of a media file to `link`.
    SetFileCoverArt { file_id: i32, link: Option<i32> },
    /// Count the media files linked to a cover art row.
    CountFilesWithCoverArt { cover_art_id: i32 },
    /// Delete a cover art row.
    DeleteCoverArt { cover_art_id: i32 },
}

pub enum CommandView {
    FindFile { file_id: i32 },
    LoadCoverArt { cover_art_id: i32 },
    ExtractCoverArt { directory: Seq<char>, file_name: Seq<char> },
    FindCoverArtByHash { file_hash: Seq<char> },
    FindMagicCoverArt,
    InsertCoverArt { file_hash: Seq<char>, binary: Seq<u8> },
    InsertMagicCoverArt,
    SetFileCoverArt { file_id: i32, link: Option<i32> },
    CountFilesWithCoverArt { cover_art_id: i32 },
    DeleteCoverArt { cover_art_id: i32 },
}

impl View for Command {
    type V = CommandView;

    open spec fn view(&self) -> CommandView {
        match self {
            Command::FindFile { file_id } => CommandView::FindFile { file_id: *file_id },
            Command::LoadCoverArt { cover_art_id } => CommandView::LoadCoverArt {
                cover_art_id: *cover_art_id,
            },
            Command::ExtractCoverArt { directory, file_name } => CommandView::ExtractCoverArt {
                directory: directory@,
                file_name: file_name@,
            },
            Command::FindCoverArtByHash { file_hash } => CommandView::FindCoverArtByHash {
                file_hash: file_hash@,
            },
            Command::FindMagicCoverArt => CommandView::FindMagicCoverArt,
            Command::InsertCoverArt { file_hash, binary } => CommandView::InsertCoverArt {
                file_hash: file_hash@,
                binary: binary@,
            },
            Command::InsertMagicCoverArt => CommandView::InsertMagicCoverArt,
            Command::SetFileCoverArt { file_id, link } => CommandView::SetFileCoverArt {
                file_id: *file_id,
                link: *link,
            },
            Command::CountFilesWithCoverArt { cover_art_id } =>
                CommandView::CountFilesWithCoverArt { cover_art_id: *cover_art_id },
            Command::DeleteCoverArt { cover_art_id } => CommandView::DeleteCoverArt {
                cover_art_id: *cover_art_id,
            },
        }
    }
}

/// What came back from carrying out a `Command`.
pub enum Reply {
    /// Answer to `FindFile`.
    File(Option<MediaFile>),
    /// Answer to `LoadCoverArt`.
    CoverArt(CoverArt),
    /// Answer to `ExtractCoverArt`.
    Extracted(Option<ExtractedCoverArt>),
    /// Answer to `FindCoverArtByHash` and `FindMagicCoverArt`.
    Matched(Option<CoverArt>),
    /// Answer to `InsertCoverArt` and `InsertMagicCoverArt`: the new row's id.
    Inserted(i32),
    /// Answer to `SetFileCoverArt`.
    Updated,
    /// Answer to `CountFilesWithCoverArt`.
    Counted(u64),
    /// Answer to `DeleteCoverArt`.
    Deleted,
    /// The store reported an error.
    Failed,
}

pub enum ReplyView {
    File(Option<MediaFileView>),
    CoverArt(CoverArtView),
    Extracted(Option<ExtractedCoverArtView>),
    Matched(Option<CoverArtView>),
    Inserted(i32),
    Updated,
    Counted(u64),
    Deleted,
    Failed,
}

impl View for Reply {
    type V = ReplyView;

    open spec fn view(&self) -> ReplyView {
        match self {
            Reply::File(f) => ReplyView::File(
                match f {
                    Some(f) => Some(f@),
                    None => None,
                },
            ),
            Reply::CoverArt(c) => ReplyView::CoverArt(c@),
            Reply::Extracted(e) => ReplyView::Extracted(
                match e {
                    Some(e) => Some(e@),
                    None => None,
                },
            ),
            Reply::Matched(c) => ReplyView::Matched(
                match c {
                    Some(c) => Some(c@),
                    None => None,
                },
            ),
            Reply::Inserted(id) => ReplyView::Inserted(*id),
            Reply::Updated => ReplyView::Updated,
            Reply::Counted(n) => ReplyView::Counted(*n),
            Reply::Deleted => ReplyView::Deleted,
            Reply::Failed => ReplyView::Failed,
        }
    }
}

/// The two tables as a store holds them, keyed by row id.
pub struct LibraryDb {
    pub files: Map<i32, MediaFileView>,
    pub arts: Map<i32, CoverArtView>,
}

impl LibraryDb {
    /// Finite tables, rows stored under their own ids, and no media file
    /// linked to a cover art row that does not exist.
    pub open spec fn wf(self) -> bool {
        &&& self.files.dom().finite()
        &&& self.arts.dom().finite()
        &&& forall|k: i32| #[trigger] self.files.contains_key(k) ==> self.files[k].id == k
        &&& forall|k: i32| #[trigger] self.arts.contains_key(k) ==> self.arts[k].id == k
        &&& forall|k: i32| #[trigger]
            self.files.contains_key(k) ==> match self.files[k].cover_art_id {
                Some(c) => self.arts.contains_key(c),
                None => true,
            }
    }

    /// No two cover art rows share a hash.
    pub open spec fn hashes_unique(self) -> bool {
        forall|a: i32, b: i32|
            #![trigger self.arts[a], self.arts[b]]
            self.arts.contains_key(a) && self.arts.contains_key(b) && self.arts[a].file_hash
                == self.arts[b].file_hash ==> a == b
    }

    /// Some cover art row has this hash.
    pub open spec fn has_hash(self, file_hash: Seq<char>) -> bool {
        exists|k: i32| #[trigger] self.arts.contains_key(k) && self.arts[k].file_hash == file_hash
    }

    /// The media files linked to cover art row `cover_art_id`.
    pub open spec fn files_linked_to(self, cover_art_id: i32) -> Set<i32> {
        self.files.dom().filter(|k: i32| self.files[k].cover_art_id == Some(cover_art_id))
    }

    /// The tables after the link of media file `file_id` is set.
    pub open spec fn with_link(self, file_id: i32, cover_art_id: Option<i32>) -> LibraryDb {
        let f = self.files[file_id];
        LibraryDb {
            files: self.files.insert(
                file_id,
                MediaFileView {
                    id: f.id,
                    directory: f.directory,
                    file_name: f.file_name,
                    cover_art_id,
                },
            ),
            arts: self.arts,
        }
    }

    /// The tables after a cover art row is added under `id`.
    pub open spec fn with_art(self, id: i32, file_hash: Seq<char>, binary: Seq<u8>) -> LibraryDb {
        LibraryDb {
            files: self.files,
            arts: self.arts.insert(id, CoverArtView { id, file_hash, binary }),
        }
    }

    /// The tables after cover art row `id` is deleted.
    pub open spec fn without_art(self, id: i32) -> LibraryDb {
        LibraryDb { files: self.files, arts: self.arts.remove(id) }
    }

    /// A faithful answer to a lookup by hash: some row with that hash when
    /// there is one, else nothing.
    pub open spec fn matches_hash(self, file_hash: Seq<char>, found: Option<CoverArtView>) -> bool {
        match found {
            Some(c) => self.arts.contains_key(c.id) && self.arts[c.id] == c && c.file_hash
                == file_hash,
            None => !self.has_hash(file_hash),
        }
    }

    /// `reply` is what a faithful store answers to `command` when it holds
    /// `self`, and `next` is what it holds afterwards. A store that reports
    /// an error has changed nothing. The picture read from an audio file
    /// depends on that file only, so any `Extracted` reply is faithful.
    pub open spec fn replies(self, command: CommandView, reply: ReplyView, next: LibraryDb) -> bool {
        match command {
            CommandView::FindFile { file_id } => next == self && match reply {
                ReplyView::File(found) => if self.files.contains_key(file_id) {
                    found == Some(self.files[file_id])
                } else {
                    found is None
                },
                ReplyView::Failed => true,
                _ => false,
            },
            CommandView::LoadCoverArt { cover_art_id } => next == self && match reply {
                ReplyView::CoverArt(c) => self.arts.contains_key(cover_art_id) && c
                    == self.arts[cover_art_id],
                ReplyView::Failed => true,
                _ => false,
            },
            CommandView::ExtractCoverArt { .. } => next == self && reply is Extracted,
            CommandView::FindCoverArtByHash { file_hash } => next == self && match reply {
                ReplyView::Matched(found) => self.matches_hash(file_hash, found),
                ReplyView::Failed => true,
                _ => false,
            },
            CommandView::FindMagicCoverArt => next == self && match reply {
                ReplyView::Matched(found) => self.matches_hash(magic_hash(), found),
                ReplyView::Failed => true,
                _ => false,
            },
            CommandView::InsertCoverArt { file_hash, binary } => match reply {
                ReplyView::Inserted(id) => !self.arts.contains_key(id) && next == self.with_art(
                    id,
                    file_hash,
                    binary,
                ),
                ReplyView::Failed => next == self,
                _ => false,
            },
            CommandView::InsertMagicCoverArt => match reply {
                ReplyView::Inserted(id) => !self.arts.contains_key(id) && next == self.with_art(
                    id,
                    magic_hash(),
                    Seq::empty(),
                ),
                ReplyView::Failed => next == self,
                _ => false,
            },
            CommandView::SetFileCoverArt { file_id, link } => match reply {
                ReplyView::Updated => self.files.contains_key(file_id) && next == self.with_link(
                    file_id,
                    link,
                ),
                ReplyView::Failed => next == self,
                _ => false,
            },
            CommandView::CountFilesWithCoverArt { cover_art_id } => next == self && match reply {
                ReplyView::Counted(n) => n as int == self.files_linked_to(cover_art_id).len(),
                ReplyView::Failed => true,
                _ => false,
            },
            CommandView::DeleteCoverArt { cover_art_id } => match reply {
                ReplyView::Deleted => next == self.without_art(cover_art_id),
                ReplyView::Failed => next == self,
                _ => false,
            },
        }
    }
}

} // verus!
