//! Linking a media file to its cover art.
//!
//! A file that was checked before is linked to a cover art row and that row
//! is returned. Otherwise the picture is read out of the audio file; a row
//! with the same checksum is reused, or a new row is stored, and the file is
//! linked to it. A file whose audio holds no picture is linked to the magic
//! row (empty hash, empty picture), which is created the first time it is
//! needed.
//!
//! `CoverArtSync` makes these decisions one reply at a time; the caller
//! carries out each `Command` and hands back the `Reply`.

use vstd::prelude::*;
use crate::store::{
    magic_hash, Command, CommandView, CoverArtView, ExtractedCoverArt, ExtractedCoverArtView,
    LibraryDb, MediaFileView, Reply, ReplyView,
};

verus! {

/// Where a cover art synchronisation stands.
pub enum CoverArtSync {
    /// Waiting for the media file row.
    FindingFile { file_id: i32 },
    /// The file is linked already; waiting for its cover art row.
    LoadingLinked { file_id: i32 },
    /// Waiting for the picture read out of the audio file.
    Extracting { file_id: i32 },
    /// Waiting for a row with the picture's checksum.
    MatchingHash { file_id: i32, extracted: ExtractedCoverArt },
    /// The audio holds no picture; waiting for the magic row.
    MatchingMagic { file_id: i32 },
    /// No row matched; waiting for the id of the row being inserted.
    Inserting { file_id: i32, binary: Vec<u8>, file_hash: Ghost<Seq<char>> },
    /// Waiting for the file's link to be set.
    Linking { file_id: i32, cover_art_id: i32, binary: Vec<u8>, file_hash: Ghost<Seq<char>> },
    /// Finished; `matched` is the hash the link was made by, if one was made.
    Done { matched: Ghost<Option<Seq<char>>> },
    /// The store reported an error.
    Failed,
}

pub enum CoverArtSyncView {
    FindingFile { file_id: i32 },
    LoadingLinked { file_id: i32 },
    Extracting { file_id: i32 },
    MatchingHash { file_id: i32, extracted: ExtractedCoverArtView },
    MatchingMagic { file_id: i32 },
    Inserting { file_id: i32, binary: Seq<u8>, file_hash: Seq<char> },
    Linking { file_id: i32, cover_art_id: i32, binary: Seq<u8>, file_hash: Seq<char> },
    Done { matched: Option<Seq<char>> },
    Failed,
}

impl View for CoverArtSync {
    type V = CoverArtSyncView;

    open spec fn view(&self) -> CoverArtSyncView {
        match self {
            CoverArtSync::FindingFile { file_id } => CoverArtSyncView::FindingFile {
                file_id: *file_id,
            },
            CoverArtSync::LoadingLinked { file_id } => CoverArtSyncView::LoadingLinked {
                file_id: *file_id,
            },
            CoverArtSync::Extracting { file_id } => CoverArtSyncView::Extracting {
                file_id: *file_id,
            },
            CoverArtSync::MatchingHash { file_id, extracted } => CoverArtSyncView::MatchingHash {
                file_id: *file_id,
                extracted: extracted@,
            },
            CoverArtSync::MatchingMagic { file_id } => CoverArtSyncView::MatchingMagic {
                file_id: *file_id,
            },
            CoverArtSync::Inserting { file_id, binary, file_hash } => CoverArtSyncView::Inserting {
                file_id: *file_id,
                binary: binary@,
                file_hash: file_hash@,
            },
            CoverArtSync::Linking { file_id, cover_art_id, binary, file_hash } =>
                CoverArtSyncView::Linking {
                file_id: *file_id,
                cover_art_id: *cover_art_id,
                binary: binary@,
                file_hash: file_hash@,
            },
            CoverArtSync::Done { matched } => CoverArtSyncView::Done { matched: matched@ },
            CoverArtSync::Failed => CoverArtSyncView::Failed,
        }
    }
}

/// What the caller does next.
pub enum SyncAction {
    /// Carry out the command and hand its reply to `CoverArtSync::step`.
    Perform(Command),
    /// Stop: the file's cover art id and picture, or nothing when there is
    /// no media file with that id.
    Finish(Option<(i32, Vec<u8>)>),
    /// Stop with the store's error.
    Fail,
}

pub enum SyncActionView {
    Perform(CommandView),
    Finish(Option<(i32, Seq<u8>)>),
    Fail,
}

impl View for SyncAction {
    type V = SyncActionView;

    open spec fn view(&self) -> SyncActionView {
        match self {
            SyncAction::Perform(c) => SyncActionView::Perform(c@),
            SyncAction::Finish(r) => SyncActionView::Finish(
                match r {
                    Some(p) => Some((p.0, p.1@)),
                    None => None,
                },
            ),
            SyncAction::Fail => SyncActionView::Fail,
        }
    }
}

/// The first state and command of a synchronisation for `file_id`.
pub open spec fn sync_started(file_id: i32) -> (CoverArtSyncView, SyncActionView) {
    (
        CoverArtSyncView::FindingFile { file_id },
        SyncActionView::Perform(CommandView::FindFile { file_id }),
    )
}

/// The replies that a state waits for: the answer to its command, or an error
/// from the store (reading a picture out of a file reports no store error).
pub open spec fn sync_accepts(s: CoverArtSyncView, r: ReplyView) -> bool {
    match s {
        CoverArtSyncView::FindingFile { .. } => r is File || r is Failed,
        CoverArtSyncView::LoadingLinked { .. } => r is CoverArt || r is Failed,
        CoverArtSyncView::Extracting { .. } => r is Extracted,
        CoverArtSyncView::MatchingHash { .. } => r is Matched || r is Failed,
        CoverArtSyncView::MatchingMagic { .. } => r is Matched || r is Failed,
        CoverArtSyncView::Inserting { .. } => r is Inserted || r is Failed,
        CoverArtSyncView::Linking { .. } => r is Updated || r is Failed,
        CoverArtSyncView::Done { .. } => false,
        CoverArtSyncView::Failed => false,
    }
}

/// The next state and action after reply `r`.
pub open spec fn sync_next(s: CoverArtSyncView, r: ReplyView) -> (
    CoverArtSyncView,
    SyncActionView,
) {
    let failed = (CoverArtSyncView::Failed, SyncActionView::Fail);
    match s {
        CoverArtSyncView::FindingFile { file_id } => match r {
            ReplyView::File(Some(f)) => match f.cover_art_id {
                Some(c) => (
                    CoverArtSyncView::LoadingLinked { file_id },
                    SyncActionView::Perform(CommandView::LoadCoverArt { cover_art_id: c }),
                ),
                None => (
                    CoverArtSyncView::Extracting { file_id },
                    SyncActionView::Perform(
                        CommandView::ExtractCoverArt {
                            directory: f.directory,
                            file_name: f.file_name,
                        },
                    ),
                ),
            },
            ReplyView::File(None) => (
                CoverArtSyncView::Done { matched: None },
                SyncActionView::Finish(None),
            ),
            _ => failed,
        },
        CoverArtSyncView::LoadingLinked { .. } => match r {
            ReplyView::CoverArt(c) => (
                CoverArtSyncView::Done { matched: None },
                SyncActionView::Finish(Some((c.id, c.binary))),
            ),
            _ => failed,
        },
        CoverArtSyncView::Extracting { file_id } => match r {
            ReplyView::Extracted(Some(e)) => (
                CoverArtSyncView::MatchingHash { file_id, extracted: e },
                SyncActionView::Perform(CommandView::FindCoverArtByHash { file_hash: e.crc }),
            ),
            ReplyView::Extracted(None) => (
                CoverArtSyncView::MatchingMagic { file_id },
                SyncActionView::Perform(CommandView::FindMagicCoverArt),
            ),
            _ => failed,
        },
        CoverArtSyncView::MatchingHash { file_id, extracted } => match r {
            ReplyView::Matched(Some(c)) => (
                CoverArtSyncView::Linking {
                    file_id,
                    cover_art_id: c.id,
                    binary: c.binary,
                    file_hash: extracted.crc,
                },
                SyncActionView::Perform(
                    CommandView::SetFileCoverArt { file_id, link: Some(c.id) },
                ),
            ),
            ReplyView::Matched(None) => (
                CoverArtSyncView::Inserting {
                    file_id,
                    binary: extracted.data,
                    file_hash: extracted.crc,
                },
                SyncActionView::Perform(
                    CommandView::InsertCoverArt { file_hash: extracted.crc, binary: extracted.data },
                ),
            ),
            _ => failed,
        },
        CoverArtSyncView::MatchingMagic { file_id } => match r {
            ReplyView::Matched(Some(c)) => (
                CoverArtSyncView::Linking {
                    file_id,
                    cover_art_id: c.id,
                    binary: c.binary,
                    file_hash: magic_hash(),
                },
                SyncActionView::Perform(
                    CommandView::SetFileCoverArt { file_id, link: Some(c.id) },
                ),
            ),
            ReplyView::Matched(None) => (
                CoverArtSyncView::Inserting {
                    file_id,
                    binary: Seq::empty(),
                    file_hash: magic_hash(),
                },
                SyncActionView::Perform(CommandView::InsertMagicCoverArt),
            ),
            _ => failed,
        },
        CoverArtSyncView::Inserting { file_id, binary, file_hash } => match r {
            ReplyView::Inserted(id) => (
                CoverArtSyncView::Linking { file_id, cover_art_id: id, binary, file_hash },
                SyncActionView::Perform(
                    CommandView::SetFileCoverArt { file_id, link: Some(id) },
                ),
            ),
            _ => failed,
        },
        CoverArtSyncView::Linking { cover_art_id, binary, file_hash, .. } => match r {
            ReplyView::Updated => (
                CoverArtSyncView::Done { matched: Some(file_hash) },
                SyncActionView::Finish(Some((cover_art_id, binary))),
            ),
            _ => failed,
        },
        CoverArtSyncView::Done { .. } => failed,
        CoverArtSyncView::Failed => failed,
    }
}

impl CoverArtSync {
    /// Starts the synchronisation of media file `file_id`.
    pub fn start(file_id: i32) -> (r: (CoverArtSync, SyncAction))
        ensures
            (r.0@, r.1@) == sync_started(file_id),
    {
        (CoverArtSync::FindingFile { file_id }, SyncAction::Perform(Command::FindFile { file_id }))
    }

    /// Whether `reply` is one that this state waits for.
    pub fn accepts(&self, reply: &Reply) -> (b: bool)
        ensures
            b == sync_accepts(self@, reply@),
    {
        match self {
            CoverArtSync::FindingFile { .. } => matches!(reply, Reply::File(_) | Reply::Failed),
            CoverArtSync::LoadingLinked { .. } => matches!(
                reply,
                Reply::CoverArt(_) | Reply::Failed
            ),
            CoverArtSync::Extracting { .. } => matches!(reply, Reply::Extracted(_)),
            CoverArtSync::MatchingHash { .. } => matches!(reply, Reply::Matched(_) | Reply::Failed),
            CoverArtSync::MatchingMagic { .. } => matches!(
                reply,
                Reply::Matched(_) | Reply::Failed
            ),
            CoverArtSync::Inserting { .. } => matches!(reply, Reply::Inserted(_) | Reply::Failed),
            CoverArtSync::Linking { .. } => matches!(reply, Reply::Updated | Reply::Failed),
            CoverArtSync::Done { .. } => false,
            CoverArtSync::Failed => false,
        }
    }

    /// Takes the reply to the last command and says what to do next.
    pub fn step(self, reply: Reply) -> (r: (CoverArtSync, SyncAction))
        requires
            sync_accepts(self@, reply@),
        ensures
            (r.0@, r.1@) == sync_next(self@, reply@),
    {
        match self {
            CoverArtSync::FindingFile { file_id } => match reply {
                Reply::File(Some(f)) => match f.cover_art_id {
                    Some(c) => (
                        CoverArtSync::LoadingLinked { file_id },
                        SyncAction::Perform(Command::LoadCoverArt { cover_art_id: c }),
                    ),
                    None => (
                        CoverArtSync::Extracting { file_id },
                        SyncAction::Perform(
                            Command::ExtractCoverArt {
                                directory: f.directory,
                                file_name: f.file_name,
                            },
                        ),
                    ),
                },
                Reply::File(None) => (
                    CoverArtSync::Done { matched: Ghost(None) },
                    SyncAction::Finish(None),
                ),
                _ => (CoverArtSync::Failed, SyncAction::Fail),
            },
            CoverArtSync::LoadingLinked { .. } => match reply {
                Reply::CoverArt(c) => (
                    CoverArtSync::Done { matched: Ghost(None) },
                    SyncAction::Finish(Some((c.id, c.binary))),
                ),
                _ => (CoverArtSync::Failed, SyncAction::Fail),
            },
            CoverArtSync::Extracting { file_id } => match reply {
                Reply::Extracted(Some(e)) => {
                    let file_hash = e.crc.clone();
                    (
                        CoverArtSync::MatchingHash { file_id, extracted: e },
                        SyncAction::Perform(Command::FindCoverArtByHash { file_hash }),
                    )
                },
                _ => (
                    CoverArtSync::MatchingMagic { file_id },
                    SyncAction::Perform(Command::FindMagicCoverArt),
                ),
            },
            CoverArtSync::MatchingHash { file_id, extracted } => match reply {
                Reply::Matched(Some(c)) => (
                    CoverArtSync::Linking {
                        file_id,
                        cover_art_id: c.id,
                        binary: c.binary,
                        file_hash: Ghost(extracted.crc@),
                    },
                    SyncAction::Perform(
                        Command::SetFileCoverArt { file_id, link: Some(c.id) },
                    ),
                ),
                Reply::Matched(None) => {
                    let ghost file_hash = extracted.crc@;
                    let binary = extracted.data.clone();
                    (
                        CoverArtSync::Inserting {
                            file_id,
                            binary: extracted.data,
                            file_hash: Ghost(file_hash),
                        },
                        SyncAction::Perform(
                            Command::InsertCoverArt { file_hash: extracted.crc, binary },
                        ),
                    )
                },
                _ => (CoverArtSync::Failed, SyncAction::Fail),
            },
            CoverArtSync::MatchingMagic { file_id } => match reply {
                Reply::Matched(Some(c)) => (
                    CoverArtSync::Linking {
                        file_id,
                        cover_art_id: c.id,
                        binary: c.binary,
                        file_hash: Ghost(magic_hash()),
                    },
                    SyncAction::Perform(
                        Command::SetFileCoverArt { file_id, link: Some(c.id) },
                    ),
                ),
                Reply::Matched(None) => {
                    let binary: Vec<u8> = Vec::new();
                    (
                        CoverArtSync::Inserting { file_id, binary, file_hash: Ghost(magic_hash()) },
                        SyncAction::Perform(Command::InsertMagicCoverArt),
                    )
                },
                _ => (CoverArtSync::Failed, SyncAction::Fail),
            },
            CoverArtSync::Inserting { file_id, binary, file_hash } => match reply {
                Reply::Inserted(id) => (
                    CoverArtSync::Linking { file_id, cover_art_id: id, binary, file_hash },
                    SyncAction::Perform(Command::SetFileCoverArt { file_id, link: Some(id) }),
                ),
                _ => (CoverArtSync::Failed, SyncAction::Fail),
            },
            CoverArtSync::Linking { cover_art_id, binary, file_hash, .. } => match reply {
                Reply::Updated => (
                    CoverArtSync::Done { matched: Ghost(Some(file_hash@)) },
                    SyncAction::Finish(Some((cover_art_id, binary))),
                ),
                _ => (CoverArtSync::Failed, SyncAction::Fail),
            },
            CoverArtSync::Done { .. } => (CoverArtSync::Failed, SyncAction::Fail),
            CoverArtSync::Failed => (CoverArtSync::Failed, SyncAction::Fail),
        }
    }
}

/// Only the link of media file `file_id` may differ, and every cover art row
/// of `db0` is still there unchanged.
pub open spec fn sync_frame(file_id: i32, db0: LibraryDb, db: LibraryDb) -> bool {
    &&& db.files.dom() == db0.files.dom()
    &&& forall|k: i32| #[trigger]
        db0.files.contains_key(k) && k != file_id ==> db.files[k] == db0.files[k]
    &&& db0.files.contains_key(file_id) ==> {
        &&& db.files[file_id].id == db0.files[file_id].id
        &&& db.files[file_id].directory == db0.files[file_id].directory
        &&& db.files[file_id].file_name == db0.files[file_id].file_name
    }
    &&& forall|k: i32| #[trigger]
        db0.arts.contains_key(k) ==> db.arts.contains_key(k) && db.arts[k] == db0.arts[k]
}

/// What holds of a synchronisation of `file_id` that started on store `db0`,
/// stands in state `s` with action `a`, while the store holds `db`.
pub open spec fn sync_inv(
    file_id: i32,
    db0: LibraryDb,
    s: CoverArtSyncView,
    a: SyncActionView,
    db: LibraryDb,
) -> bool {
    &&& db.wf()
    &&& db0.hashes_unique() ==> db.hashes_unique()
    &&& sync_frame(file_id, db0, db)
    &&& match s {
        CoverArtSyncView::FindingFile { file_id: f } => {
            &&& f == file_id
            &&& db == db0
            &&& a == SyncActionView::Perform(CommandView::FindFile { file_id })
        },
        CoverArtSyncView::LoadingLinked { file_id: f } => {
            &&& f == file_id
            &&& db == db0
            &&& db.files.contains_key(file_id)
            &&& db.files[file_id].cover_art_id is Some
            &&& a == SyncActionView::Perform(
                CommandView::LoadCoverArt { cover_art_id: db.files[file_id].cover_art_id.unwrap() },
            )
        },
        CoverArtSyncView::Extracting { file_id: f } => {
            &&& f == file_id
            &&& db == db0
            &&& db.files.contains_key(file_id)
            &&& db.files[file_id].cover_art_id is None
            &&& a == SyncActionView::Perform(
                CommandView::ExtractCoverArt {
                    directory: db.files[file_id].directory,
                    file_name: db.files[file_id].file_name,
                },
            )
        },
        CoverArtSyncView::MatchingHash { file_id: f, extracted } => {
            &&& f == file_id
            &&& db == db0
            &&& db.files.contains_key(file_id)
            &&& db.files[file_id].cover_art_id is None
            &&& a == SyncActionView::Perform(
                CommandView::FindCoverArtByHash { file_hash: extracted.crc },
            )
        },
        CoverArtSyncView::MatchingMagic { file_id: f } => {
            &&& f == file_id
            &&& db == db0
            &&& db.files.contains_key(file_id)
            &&& db.files[file_id].cover_art_id is None
            &&& a == SyncActionView::Perform(CommandView::FindMagicCoverArt)
        },
        CoverArtSyncView::Inserting { file_id: f, binary, file_hash } => {
            &&& f == file_id
            &&& db == db0
            &&& db.files.contains_key(file_id)
            &&& db.files[file_id].cover_art_id is None
            &&& !db.has_hash(file_hash)
            &&& (a == SyncActionView::Perform(CommandView::InsertCoverArt { file_hash, binary })
                || (a == SyncActionView::Perform(CommandView::InsertMagicCoverArt) && file_hash
                == magic_hash() && binary == Seq::<u8>::empty()))
        },
        CoverArtSyncView::Linking { file_id: f, cover_art_id, binary, file_hash } => {
            &&& f == file_id
            &&& db.files == db0.files
            &&& db.files.contains_key(file_id)
            &&& db.arts.contains_key(cover_art_id)
            &&& db.arts[cover_art_id].binary == binary
            &&& db.arts[cover_art_id].file_hash == file_hash
            &&& a == SyncActionView::Perform(
                CommandView::SetFileCoverArt { file_id, link: Some(cover_art_id) },
            )
        },
        CoverArtSyncView::Done { matched } => match a {
            SyncActionView::Finish(None) => {
                &&& !db0.files.contains_key(file_id)
                &&& db == db0
                &&& matched is None
            },
            SyncActionView::Finish(Some((c, binary))) => {
                &&& db.files.contains_key(file_id)
                &&& db.files[file_id].cover_art_id == Some(c)
                &&& db.arts.contains_key(c)
                &&& db.arts[c].binary == binary
                &&& (matched matches Some(h) ==> db.arts[c].file_hash == h)
                &&& (matched is None ==> db == db0)
            },
            _ => false,
        },
        CoverArtSyncView::Failed => a == SyncActionView::Fail,
    }
}

/// A synchronisation starts in its invariant on any well-formed store.
pub proof fn lemma_sync_start(file_id: i32, db0: LibraryDb)
    requires
        db0.wf(),
    ensures
        sync_inv(file_id, db0, sync_started(file_id).0, sync_started(file_id).1, db0),
{
}

/// Each faithful reply of the store to the pending command is one the state
/// accepts, and the step keeps the invariant.
pub proof fn lemma_sync_step(
    file_id: i32,
    db0: LibraryDb,
    s: CoverArtSyncView,
    cmd: CommandView,
    db: LibraryDb,
    r: ReplyView,
    db2: LibraryDb,
)
    requires
        sync_inv(file_id, db0, s, SyncActionView::Perform(cmd), db),
        db.replies(cmd, r, db2),
    ensures
        sync_accepts(s, r),
        sync_inv(file_id, db0, sync_next(s, r).0, sync_next(s, r).1, db2),
{
    match s {
        CoverArtSyncView::Inserting { file_hash, .. } => {
            if let ReplyView::Inserted(id) = r {
                if db0.hashes_unique() {
                    assert forall|x: i32, y: i32|
                        db2.arts.contains_key(x) && db2.arts.contains_key(y)
                            && #[trigger] db2.arts[x].file_hash == #[trigger] db2.arts[y].file_hash
                        implies x == y by {
                        if x != id && y != id {
                            assert(db.arts[x] == db2.arts[x]);
                            assert(db.arts[y] == db2.arts[y]);
                        } else if x == id && y != id {
                            assert(db.arts.contains_key(y) && db.arts[y].file_hash == file_hash);
                        } else if x != id && y == id {
                            assert(db.arts.contains_key(x) && db.arts[x].file_hash == file_hash);
                        }
                    }
                }
            }
        },
        CoverArtSyncView::Linking { .. } => {
            if let ReplyView::Updated = r {
                assert(db2.files.dom() =~= db.files.dom());
            }
        },
        _ => {},
    }
}

/// What a finished synchronisation leaves behind on a store that answered
/// every command faithfully:
/// - when it finished with cover art `(c, binary)`, the media file is linked
///   to row `c`, which holds `binary`; when the link was made by hash `h`
///   (the picture's checksum, or the magic hash), row `c` has hash `h`;
/// - when it finished with nothing, there is no media file with that id and
///   nothing changed;
/// - the tables stay well-formed, no two cover art rows come to share a hash,
///   only this file's link may have changed, and no cover art row was
///   changed or removed.
pub proof fn lemma_sync_outcome(
    file_id: i32,
    db0: LibraryDb,
    s: CoverArtSyncView,
    a: SyncActionView,
    db: LibraryDb,
)
    requires
        sync_inv(file_id, db0, s, a, db),
        !(a is Perform),
    ensures
        db.wf(),
        db0.hashes_unique() ==> db.hashes_unique(),
        sync_frame(file_id, db0, db),
        a matches SyncActionView::Finish(Some(p)) ==> {
            &&& db.files.contains_key(file_id)
            &&& db.files[file_id].cover_art_id == Some(p.0)
            &&& db.arts.contains_key(p.0)
            &&& db.arts[p.0].binary == p.1
        },
        a matches SyncActionView::Finish(Some(p)) ==> (s matches CoverArtSyncView::Done {
            matched: Some(h),
        } ==> db.arts[p.0].file_hash == h),
        a == SyncActionView::Finish(None) ==> !db0.files.contains_key(file_id) && db == db0,
{
}

/// How many replies a state is at most from the end.
pub open spec fn sync_rank(s: CoverArtSyncView) -> nat {
    match s {
        CoverArtSyncView::FindingFile { .. } => 6,
        CoverArtSyncView::Extracting { .. } => 5,
        CoverArtSyncView::MatchingHash { .. } => 4,
        CoverArtSyncView::MatchingMagic { .. } => 4,
        CoverArtSyncView::Inserting { .. } => 3,
        CoverArtSyncView::LoadingLinked { .. } => 2,
        CoverArtSyncView::Linking { .. } => 1,
        CoverArtSyncView::Done { .. } => 0,
        CoverArtSyncView::Failed => 0,
    }
}

/// Every accepted reply brings a synchronisation closer to its end, so it
/// finishes after at most six replies.
pub proof fn lemma_sync_progress(s: CoverArtSyncView, r: ReplyView)
    requires
        sync_accepts(s, r),
    ensures
        sync_rank(sync_next(s, r).0) < sync_rank(s),
{
}

/// The hash that a state will link the media file by, once it is known.
pub open spec fn sync_target(s: CoverArtSyncView) -> Option<Seq<char>> {
    match s {
        CoverArtSyncView::MatchingHash { extracted, .. } => Some(extracted.crc),
        CoverArtSyncView::MatchingMagic { .. } => Some(magic_hash()),
        CoverArtSyncView::Inserting { file_hash, .. } => Some(file_hash),
        CoverArtSyncView::Linking { file_hash, .. } => Some(file_hash),
        CoverArtSyncView::Done { matched } => matched,
        _ => None,
    }
}

/// The picture read out of the audio file decides the hash the file will be
/// linked by: the picture's checksum, or the magic (empty) hash when the
/// audio holds no picture. The steps after it keep that hash, up to `Done`.
pub proof fn lemma_sync_target(s: CoverArtSyncView, r: ReplyView)
    requires
        sync_accepts(s, r),
        !(sync_next(s, r).0 is Failed),
    ensures
        s is Extracting ==> sync_target(sync_next(s, r).0) == Some(
            match r {
                ReplyView::Extracted(Some(e)) => e.crc,
                _ => magic_hash(),
            },
        ),
        sync_target(s) is Some ==> sync_target(sync_next(s, r).0) == sync_target(s),
{
}

/// Syncing a media file that is linked already reads its cover art row back
/// and changes nothing: the first two faithful replies finish it with that
/// row's id and picture.
pub proof fn lemma_sync_linked_file(
    file_id: i32,
    db: LibraryDb,
    r1: ReplyView,
    db1: LibraryDb,
    cmd1: CommandView,
    r2: ReplyView,
    db2: LibraryDb,
)
    requires
        db.wf(),
        db.files.contains_key(file_id),
        db.files[file_id].cover_art_id is Some,
        db.replies(CommandView::FindFile { file_id }, r1, db1),
        !(r1 is Failed),
        sync_next(sync_started(file_id).0, r1).1 == SyncActionView::Perform(cmd1),
        db1.replies(cmd1, r2, db2),
        !(r2 is Failed),
    ensures
        db2 == db,
        sync_next(sync_next(sync_started(file_id).0, r1).0, r2).1 == SyncActionView::Finish(
            Some(
                (
                    db.files[file_id].cover_art_id.unwrap(),
                    db.arts[db.files[file_id].cover_art_id.unwrap()].binary,
                ),
            ),
        ),
{
    let c: i32 = db.files[file_id].cover_art_id.unwrap();
    assert(r1 == ReplyView::File(Some(db.files[file_id])));
    assert(cmd1 == CommandView::LoadCoverArt { cover_art_id: c });
    assert(db.arts[c].id == c);
}

/// Syncing again a media file that a synchronisation finished with cover art
/// `(c, binary)` finishes with `(c, binary)` again and changes nothing.
pub proof fn lemma_sync_idempotent(
    file_id: i32,
    db0: LibraryDb,
    s: CoverArtSyncView,
    c: i32,
    binary: Seq<u8>,
    db: LibraryDb,
    r1: ReplyView,
    db1: LibraryDb,
    cmd1: CommandView,
    r2: ReplyView,
    db2: LibraryDb,
)
    requires
        sync_inv(file_id, db0, s, SyncActionView::Finish(Some((c, binary))), db),
        db.replies(CommandView::FindFile { file_id }, r1, db1),
        !(r1 is Failed),
        sync_next(sync_started(file_id).0, r1).1 == SyncActionView::Perform(cmd1),
        db1.replies(cmd1, r2, db2),
        !(r2 is Failed),
    ensures
        db2 == db,
        sync_next(sync_next(sync_started(file_id).0, r1).0, r2).1 == SyncActionView::Finish(
            Some((c, binary)),
        ),
{
    lemma_sync_linked_file(file_id, db, r1, db1, cmd1, r2, db2);
}

/// A synchronisation ends in `Fail` only on an error reply from the store:
/// every other accepted reply leads to a further command or to `Finish`.
pub proof fn lemma_sync_fails_only_on_store_error(s: CoverArtSyncView, r: ReplyView)
    requires
        sync_accepts(s, r),
        !(r is Failed),
    ensures
        !(sync_next(s, r).1 is Fail),
{
}

/// The reply to the first command decides the path: no media file finishes
/// with nothing; a linked file loads its linked row; an unlinked file has its
/// picture read out of the audio file at its own directory and file name.
pub proof fn lemma_sync_first_reply(file_id: i32, found: Option<MediaFileView>)
    ensures
        found is None ==> sync_next(sync_started(file_id).0, ReplyView::File(found)).1
            == SyncActionView::Finish(None),
        found matches Some(f) ==> (f.cover_art_id matches Some(c) ==> sync_next(
            sync_started(file_id).0,
            ReplyView::File(found),
        ).1 == SyncActionView::Perform(CommandView::LoadCoverArt { cover_art_id: c })),
        found matches Some(f) ==> (f.cover_art_id is None ==> sync_next(
            sync_started(file_id).0,
            ReplyView::File(found),
        ) == (
            CoverArtSyncView::Extracting { file_id },
            SyncActionView::Perform(
                CommandView::ExtractCoverArt { directory: f.directory, file_name: f.file_name },
            ),
        )),
{
}

/// A linked file finishes with the id and the picture of the row that the
/// store loaded for it.
pub proof fn lemma_sync_loaded_row_returned(file_id: i32, f: MediaFileView, loaded: CoverArtView)
    requires
        f.cover_art_id is Some,
    ensures
        sync_next(
            sync_next(sync_started(file_id).0, ReplyView::File(Some(f))).0,
            ReplyView::CoverArt(loaded),
        ).1 == SyncActionView::Finish(Some((loaded.id, loaded.binary))),
{
}

/// A picture `e` read out of the audio file is looked up by its checksum.
/// When a row `c` has that checksum, the file is linked to `c` and the
/// synchronisation finishes with `c`'s id and picture. When none has, a row
/// with `e`'s checksum and all of `e`'s data is inserted, the file is linked
/// to the new row, and the synchronisation finishes with its id and `e`'s
/// data.
pub proof fn lemma_sync_picture_found(
    file_id: i32,
    e: ExtractedCoverArtView,
    c: CoverArtView,
    new_id: i32,
)
    ensures
        ({
            let (s1, a1) = sync_next(
                CoverArtSyncView::Extracting { file_id },
                ReplyView::Extracted(Some(e)),
            );
            let (s2, a2) = sync_next(s1, ReplyView::Matched(Some(c)));
            &&& a1 == SyncActionView::Perform(CommandView::FindCoverArtByHash { file_hash: e.crc })
            &&& a2 == SyncActionView::Perform(
                CommandView::SetFileCoverArt { file_id, link: Some(c.id) },
            )
            &&& sync_next(s2, ReplyView::Updated).1 == SyncActionView::Finish(
                Some((c.id, c.binary)),
            )
        }),
        ({
            let (s1, a1) = sync_next(
                CoverArtSyncView::Extracting { file_id },
                ReplyView::Extracted(Some(e)),
            );
            let (s2, a2) = sync_next(s1, ReplyView::Matched(None));
            let (s3, a3) = sync_next(s2, ReplyView::Inserted(new_id));
            &&& a2 == SyncActionView::Perform(
                CommandView::InsertCoverArt { file_hash: e.crc, binary: e.data },
            )
            &&& a3 == SyncActionView::Perform(
                CommandView::SetFileCoverArt { file_id, link: Some(new_id) },
            )
            &&& sync_next(s3, ReplyView::Updated).1 == SyncActionView::Finish(
                Some((new_id, e.data)),
            )
        }),
{
}

/// When the audio holds no picture, the magic row is looked up. An existing
/// magic row `c` is linked and returned; otherwise the magic row is inserted,
/// linked, and the synchronisation finishes with its id and no picture.
pub proof fn lemma_sync_no_picture(file_id: i32, c: CoverArtView, new_id: i32)
    ensures
        ({
            let (s1, a1) = sync_next(
                CoverArtSyncView::Extracting { file_id },
                ReplyView::Extracted(None),
            );
            let (s2, a2) = sync_next(s1, ReplyView::Matched(Some(c)));
            &&& a1 == SyncActionView::Perform(CommandView::FindMagicCoverArt)
            &&& a2 == SyncActionView::Perform(
                CommandView::SetFileCoverArt { file_id, link: Some(c.id) },
            )
            &&& sync_next(s2, ReplyView::Updated).1 == SyncActionView::Finish(
                Some((c.id, c.binary)),
            )
        }),
        ({
            let (s1, a1) = sync_next(
                CoverArtSyncView::Extracting { file_id },
                ReplyView::Extracted(None),
            );
            let (s2, a2) = sync_next(s1, ReplyView::Matched(None));
            let (s3, a3) = sync_next(s2, ReplyView::Inserted(new_id));
            &&& a2 == SyncActionView::Perform(CommandView::InsertMagicCoverArt)
            &&& a3 == SyncActionView::Perform(
                CommandView::SetFileCoverArt { file_id, link: Some(new_id) },
            )
            &&& sync_next(s3, ReplyView::Updated).1 == SyncActionView::Finish(
                Some((new_id, Seq::empty())),
            )
        }),
{
}

/// On a well-formed store holding no row with the checksum of the picture `e`
/// read out of unlinked media file `file_id`, a synchronisation answered
/// faithfully and without error stores `e` whole under a new id, links the
/// file to it, and finishes with that id and all of `e`'s data.
pub proof fn lemma_sync_stores_new_picture(
    file_id: i32,
    db: LibraryDb,
    e: ExtractedCoverArtView,
    new_id: i32,
    db2: LibraryDb,
    db3: LibraryDb,
)
    requires
        db.wf(),
        db.files.contains_key(file_id),
        db.files[file_id].cover_art_id is None,
        !db.has_hash(e.crc),
        db.replies(
            CommandView::InsertCoverArt { file_hash: e.crc, binary: e.data },
            ReplyView::Inserted(new_id),
            db2,
        ),
        db2.replies(
            CommandView::SetFileCoverArt { file_id, link: Some(new_id) },
            ReplyView::Updated,
            db3,
        ),
    ensures
        ({
            let (s0, a0) = sync_next(
                sync_started(file_id).0,
                ReplyView::File(Some(db.files[file_id])),
            );
            let (s1, a1) = sync_next(s0, ReplyView::Extracted(Some(e)));
            let (s2, a2) = sync_next(s1, ReplyView::Matched(None));
            let (s3, a3) = sync_next(s2, ReplyView::Inserted(new_id));
            &&& a2 == SyncActionView::Perform(
                CommandView::InsertCoverArt { file_hash: e.crc, binary: e.data },
            )
            &&& a3 == SyncActionView::Perform(
                CommandView::SetFileCoverArt { file_id, link: Some(new_id) },
            )
            &&& sync_next(s3, ReplyView::Updated).1 == SyncActionView::Finish(
                Some((new_id, e.data)),
            )
        }),
        db3.files[file_id].cover_art_id == Some(new_id),
        db3.arts[new_id] == (CoverArtView { id: new_id, file_hash: e.crc, binary: e.data }),
        db3.wf(),
{
    assert(db3.files.dom() =~= db2.files.dom());
}

} // verus!
