//! Unlinking a media file from its cover art.
//!
//! The file's link is cleared; when no other media file is linked to the same
//! cover art row any more, that row is deleted as well.
//!
//! `CoverArtRemoval` makes these decisions one reply at a time; the caller
//! carries out each `Command` and hands back the `Reply`.

use vstd::prelude::*;
use crate::store::{Command, CommandView, LibraryDb, MediaFileView, Reply, ReplyView};

verus! {

/// Where the removal of a file's cover art stands.
#[derive(Clone, Copy, PartialEq, Eq, Structural, Debug)]
pub enum CoverArtRemoval {
    /// Waiting for the media file row.
    FindingFile { file_id: i32 },
    /// Waiting for the file's link to be cleared.
    Unlinking { file_id: i32, cover_art_id: i32 },
    /// Waiting for the number of files still linked to the cover art row.
    Counting { file_id: i32, cover_art_id: i32 },
    /// Waiting for the orphaned cover art row to be deleted.
    Deleting { file_id: i32, cover_art_id: i32 },
    /// Finished.
    Done,
    /// The store reported an error.
    Failed,
}

/// What the caller does next.
pub enum RemovalAction {
    /// Carry out the command and hand its reply to `CoverArtRemoval::step`.
    Perform(Command),
    /// Stop: the removal is complete.
    Finish,
    /// Stop with the store's error.
    Fail,
}

pub enum RemovalActionView {
    Perform(CommandView),
    Finish,
    Fail,
}

impl View for RemovalAction {
    type V = RemovalActionView;

    open spec fn view(&self) -> RemovalActionView {
        match self {
            RemovalAction::Perform(c) => RemovalActionView::Perform(c@),
            RemovalAction::Finish => RemovalActionView::Finish,
            RemovalAction::Fail => RemovalActionView::Fail,
        }
    }
}

/// The first state and command of the removal for `file_id`.
pub open spec fn removal_started(file_id: i32) -> (CoverArtRemoval, RemovalActionView) {
    (
        CoverArtRemoval::FindingFile { file_id },
        RemovalActionView::Perform(CommandView::FindFile { file_id }),
    )
}

/// The replies that a state waits for: the answer to its command or an error
/// from the store.
pub open spec fn removal_accepts(s: CoverArtRemoval, r: ReplyView) -> bool {
    match s {
        CoverArtRemoval::FindingFile { .. } => r is File || r is Failed,
        CoverArtRemoval::Unlinking { .. } => r is Updated || r is Failed,
        CoverArtRemoval::Counting { .. } => r is Counted || r is Failed,
        CoverArtRemoval::Deleting { .. } => r is Deleted || r is Failed,
        CoverArtRemoval::Done => false,
        CoverArtRemoval::Failed => false,
    }
}

/// The next state and action after reply `r`.
pub open spec fn removal_next(s: CoverArtRemoval, r: ReplyView) -> (
    CoverArtRemoval,
    RemovalActionView,
) {
    let failed = (CoverArtRemoval::Failed, RemovalActionView::Fail);
    let done = (CoverArtRemoval::Done, RemovalActionView::Finish);
    match s {
        CoverArtRemoval::FindingFile { file_id } => match r {
            ReplyView::File(Some(f)) => match f.cover_art_id {
                Some(c) => (
                    CoverArtRemoval::Unlinking { file_id, cover_art_id: c },
                    RemovalActionView::Perform(CommandView::SetFileCoverArt { file_id, link: None }),
                ),
                None => done,
            },
            ReplyView::File(None) => done,
            _ => failed,
        },
        CoverArtRemoval::Unlinking { file_id, cover_art_id } => match r {
            ReplyView::Updated => (
                CoverArtRemoval::Counting { file_id, cover_art_id },
                RemovalActionView::Perform(CommandView::CountFilesWithCoverArt { cover_art_id }),
            ),
            _ => failed,
        },
        CoverArtRemoval::Counting { file_id, cover_art_id } => match r {
            ReplyView::Counted(n) => if n == 0 {
                (
                    CoverArtRemoval::Deleting { file_id, cover_art_id },
                    RemovalActionView::Perform(CommandView::DeleteCoverArt { cover_art_id }),
                )
            } else {
                done
            },
            _ => failed,
        },
        CoverArtRemoval::Deleting { .. } => match r {
            ReplyView::Deleted => done,
            _ => failed,
        },
        CoverArtRemoval::Done => failed,
        CoverArtRemoval::Failed => failed,
    }
}

impl CoverArtRemoval {
    /// Starts the removal of media file `file_id`'s cover art.
    pub fn start(file_id: i32) -> (r: (CoverArtRemoval, RemovalAction))
        ensures
            (r.0, r.1@) == removal_started(file_id),
    {
        (
            CoverArtRemoval::FindingFile { file_id },
            RemovalAction::Perform(Command::FindFile { file_id }),
        )
    }

    /// Whether `reply` is one that this state waits for.
    pub fn accepts(&self, reply: &Reply) -> (b: bool)
        ensures
            b == removal_accepts(*self, reply@),
    {
        match self {
            CoverArtRemoval::FindingFile { .. } => matches!(reply, Reply::File(_) | Reply::Failed),
            CoverArtRemoval::Unlinking { .. } => matches!(reply, Reply::Updated | Reply::Failed),
            CoverArtRemoval::Counting { .. } => matches!(reply, Reply::Counted(_) | Reply::Failed),
            CoverArtRemoval::Deleting { .. } => matches!(reply, Reply::Deleted | Reply::Failed),
            CoverArtRemoval::Done => false,
            CoverArtRemoval::Failed => false,
        }
    }

    /// Takes the reply to the last command and says what to do next.
    pub fn step(self, reply: Reply) -> (r: (CoverArtRemoval, RemovalAction))
        requires
            removal_accepts(self, reply@),
        ensures
            (r.0, r.1@) == removal_next(self, reply@),
    {
        match self {
            CoverArtRemoval::FindingFile { file_id } => match reply {
                Reply::File(Some(f)) => match f.cover_art_id {
                    Some(c) => (
                        CoverArtRemoval::Unlinking { file_id, cover_art_id: c },
                        RemovalAction::Perform(Command::SetFileCoverArt { file_id, link: None }),
                    ),
                    None => (CoverArtRemoval::Done, RemovalAction::Finish),
                },
                Reply::File(None) => (CoverArtRemoval::Done, RemovalAction::Finish),
                _ => (CoverArtRemoval::Failed, RemovalAction::Fail),
            },
            CoverArtRemoval::Unlinking { file_id, cover_art_id } => match reply {
                Reply::Updated => (
                    CoverArtRemoval::Counting { file_id, cover_art_id },
                    RemovalAction::Perform(Command::CountFilesWithCoverArt { cover_art_id }),
                ),
                _ => (CoverArtRemoval::Failed, RemovalAction::Fail),
            },
            CoverArtRemoval::Counting { file_id, cover_art_id } => match reply {
                Reply::Counted(n) => if n == 0 {
                    (
                        CoverArtRemoval::Deleting { file_id, cover_art_id },
                        RemovalAction::Perform(Command::DeleteCoverArt { cover_art_id }),
                    )
                } else {
                    (CoverArtRemoval::Done, RemovalAction::Finish)
                },
                _ => (CoverArtRemoval::Failed, RemovalAction::Fail),
            },
            CoverArtRemoval::Deleting { .. } => match reply {
                Reply::Deleted => (CoverArtRemoval::Done, RemovalAction::Finish),
                _ => (CoverArtRemoval::Failed, RemovalAction::Fail),
            },
            CoverArtRemoval::Done => (CoverArtRemoval::Failed, RemovalAction::Fail),
            CoverArtRemoval::Failed => (CoverArtRemoval::Failed, RemovalAction::Fail),
        }
    }
}

/// The tables after the cover art of media file `file_id` is removed from
/// `db0`: the file's link is cleared, and the row it was linked to is
/// deleted when no other file is linked to it. Without a media file
/// `file_id`, or when the file has no link, nothing changes.
pub open spec fn removal_result(file_id: i32, db0: LibraryDb) -> LibraryDb {
    if db0.files.contains_key(file_id) && db0.files[file_id].cover_art_id is Some {
        let c: i32 = db0.files[file_id].cover_art_id.unwrap();
        let unlinked = db0.with_link(file_id, None);
        if unlinked.files_linked_to(c) == Set::<i32>::empty() {
            unlinked.without_art(c)
        } else {
            unlinked
        }
    } else {
        db0
    }
}

/// What holds of a removal for `file_id` that started on store `db0`, stands
/// in state `s` with action `a`, while the store holds `db`.
pub open spec fn removal_inv(
    file_id: i32,
    db0: LibraryDb,
    s: CoverArtRemoval,
    a: RemovalActionView,
    db: LibraryDb,
) -> bool {
    &&& db.wf()
    &&& db0.hashes_unique() ==> db.hashes_unique()
    &&& match s {
        CoverArtRemoval::FindingFile { file_id: f } => {
            &&& f == file_id
            &&& db == db0
            &&& a == RemovalActionView::Perform(CommandView::FindFile { file_id })
        },
        CoverArtRemoval::Unlinking { file_id: f, cover_art_id } => {
            &&& f == file_id
            &&& db == db0
            &&& db.files.contains_key(file_id)
            &&& db.files[file_id].cover_art_id == Some(cover_art_id)
            &&& a == RemovalActionView::Perform(
                CommandView::SetFileCoverArt { file_id, link: None },
            )
        },
        CoverArtRemoval::Counting { file_id: f, cover_art_id } => {
            &&& f == file_id
            &&& db0.files.contains_key(file_id)
            &&& db0.files[file_id].cover_art_id == Some(cover_art_id)
            &&& db == db0.with_link(file_id, None)
            &&& a == RemovalActionView::Perform(
                CommandView::CountFilesWithCoverArt { cover_art_id },
            )
        },
        CoverArtRemoval::Deleting { file_id: f, cover_art_id } => {
            &&& f == file_id
            &&& db0.files.contains_key(file_id)
            &&& db0.files[file_id].cover_art_id == Some(cover_art_id)
            &&& db == db0.with_link(file_id, None)
            &&& db.files_linked_to(cover_art_id) == Set::<i32>::empty()
            &&& a == RemovalActionView::Perform(CommandView::DeleteCoverArt { cover_art_id })
        },
        CoverArtRemoval::Done => {
            &&& a == RemovalActionView::Finish
            &&& db == removal_result(file_id, db0)
        },
        CoverArtRemoval::Failed => a == RemovalActionView::Fail,
    }
}

/// The media files linked to a row form a finite set, empty exactly when
/// it has no element.
proof fn lemma_linked_files_finite(db: LibraryDb, cover_art_id: i32)
    requires
        db.files.dom().finite(),
    ensures
        db.files_linked_to(cover_art_id).finite(),
        db.files_linked_to(cover_art_id).len() == 0 ==> db.files_linked_to(cover_art_id)
            == Set::<i32>::empty(),
        db.files_linked_to(cover_art_id) == Set::<i32>::empty() ==> db.files_linked_to(
            cover_art_id,
        ).len() == 0,
{
    db.files.dom().lemma_len_filter(|k: i32| db.files[k].cover_art_id == Some(cover_art_id));
    if db.files_linked_to(cover_art_id).len() == 0 {
        db.files_linked_to(cover_art_id).lemma_len0_is_empty();
    }
}

/// A removal starts in its invariant on any well-formed store.
pub proof fn lemma_removal_start(file_id: i32, db0: LibraryDb)
    requires
        db0.wf(),
    ensures
        removal_inv(file_id, db0, removal_started(file_id).0, removal_started(file_id).1, db0),
{
}

/// Each faithful reply of the store to the pending command is one the state
/// accepts, and the step keeps the invariant.
pub proof fn lemma_removal_step(
    file_id: i32,
    db0: LibraryDb,
    s: CoverArtRemoval,
    cmd: CommandView,
    db: LibraryDb,
    r: ReplyView,
    db2: LibraryDb,
)
    requires
        removal_inv(file_id, db0, s, RemovalActionView::Perform(cmd), db),
        db.replies(cmd, r, db2),
    ensures
        removal_accepts(s, r),
        removal_inv(file_id, db0, removal_next(s, r).0, removal_next(s, r).1, db2),
{
    match s {
        CoverArtRemoval::FindingFile { .. } => {},
        CoverArtRemoval::Unlinking { .. } => {
            if let ReplyView::Updated = r {
                assert(db2.files.dom() =~= db.files.dom());
                assert(db2.wf());
            }
        },
        CoverArtRemoval::Counting { cover_art_id, .. } => {
            lemma_linked_files_finite(db, cover_art_id);
            if let ReplyView::Counted(n) = r {
                if n != 0 {
                    assert(db.files_linked_to(cover_art_id) != Set::<i32>::empty());
                }
            }
        },
        CoverArtRemoval::Deleting { cover_art_id, .. } => {
            if let ReplyView::Deleted = r {
                assert forall|k: i32| #[trigger] db2.files.contains_key(k) implies match db2.files[k].cover_art_id {
                    Some(c) => db2.arts.contains_key(c),
                    None => true,
                } by {
                    if db2.files[k].cover_art_id == Some(cover_art_id) {
                        assert(db.files_linked_to(cover_art_id).contains(k));
                    }
                }
                assert(db2.wf());
            }
        },
        CoverArtRemoval::Done => {},
        CoverArtRemoval::Failed => {},
    }
}

/// What a finished removal leaves behind on a store that answered every
/// command faithfully: exactly `removal_result`. So the media file, if there
/// is one, is linked to no cover art; the row it was linked to is still
/// there exactly when another media file is linked to it; no media file is
/// left linked to a missing row; and nothing else changed.
pub proof fn lemma_removal_outcome(
    file_id: i32,
    db0: LibraryDb,
    s: CoverArtRemoval,
    a: RemovalActionView,
    db: LibraryDb,
)
    requires
        removal_inv(file_id, db0, s, a, db),
        a == RemovalActionView::Finish,
    ensures
        db == removal_result(file_id, db0),
        db.wf(),
        db0.hashes_unique() ==> db.hashes_unique(),
        db.files.dom() == db0.files.dom(),
        db0.files.contains_key(file_id) ==> db.files[file_id].cover_art_id is None,
        forall|k: i32| #[trigger]
            db0.files.contains_key(k) && k != file_id ==> db.files[k] == db0.files[k],
        db0.files.contains_key(file_id) && db0.files[file_id].cover_art_id is Some ==> {
            let c: i32 = db0.files[file_id].cover_art_id.unwrap();
            &&& db.arts.contains_key(c) <==> db.files_linked_to(c) != Set::<i32>::empty()
            &&& forall|k: i32| #[trigger] db0.arts.contains_key(k) && k != c ==> db.arts.contains_key(k) && db.arts[k] == db0.arts[k]
        },
        !(db0.files.contains_key(file_id) && db0.files[file_id].cover_art_id is Some) ==> db
            == db0,
{
    if db0.files.contains_key(file_id) && db0.files[file_id].cover_art_id is Some {
        let c: i32 = db0.files[file_id].cover_art_id.unwrap();
        assert(db.files.dom() =~= db0.files.dom());
        assert(db.files_linked_to(c) == db0.with_link(file_id, None).files_linked_to(c));
        if db.files_linked_to(c) != Set::<i32>::empty() {
            assert(exists|k: i32| db.files_linked_to(c).contains(k)) by {
                if !(exists|k: i32| db.files_linked_to(c).contains(k)) {
                    assert(db.files_linked_to(c) =~= Set::<i32>::empty());
                }
            }
            let k: i32 = choose|k: i32| db.files_linked_to(c).contains(k);
            assert(db.files.contains_key(k) && db.files[k].cover_art_id == Some(c));
        }
    }
}

/// Removing the cover art of a media file twice is the same as removing it
/// once: the second removal finds the file unlinked and changes nothing.
pub proof fn lemma_removal_idempotent(file_id: i32, db0: LibraryDb)
    ensures
        removal_result(file_id, removal_result(file_id, db0)) == removal_result(file_id, db0),
{
}

/// How many replies a state is at most from the end.
pub open spec fn removal_rank(s: CoverArtRemoval) -> nat {
    match s {
        CoverArtRemoval::FindingFile { .. } => 4,
        CoverArtRemoval::Unlinking { .. } => 3,
        CoverArtRemoval::Counting { .. } => 2,
        CoverArtRemoval::Deleting { .. } => 1,
        CoverArtRemoval::Done => 0,
        CoverArtRemoval::Failed => 0,
    }
}

/// Every accepted reply brings a removal closer to its end, so it finishes
/// after at most four replies.
pub proof fn lemma_removal_progress(s: CoverArtRemoval, r: ReplyView)
    requires
        removal_accepts(s, r),
    ensures
        removal_rank(removal_next(s, r).0) < removal_rank(s),
{
}

/// A removal ends in `Fail` only on an error reply from the store: every other
/// accepted reply leads to a further command or to `Finish`.
pub proof fn lemma_removal_fails_only_on_store_error(s: CoverArtRemoval, r: ReplyView)
    requires
        removal_accepts(s, r),
        !(r is Failed),
    ensures
        !(removal_next(s, r).1 is Fail),
{
}

/// The commands of a removal answered without error: a missing or unlinked
/// file finishes at once; a file linked to row `c` has its link cleared and
/// the files still linked to `c` counted; the row is deleted when that count
/// is zero, and the removal finishes either way.
pub proof fn lemma_removal_commands(file_id: i32, f: MediaFileView, c: i32, n: u64)
    requires
        f.cover_art_id == Some(c),
    ensures
        removal_next(removal_started(file_id).0, ReplyView::File(None)).1
            == RemovalActionView::Finish,
        removal_next(
            removal_started(file_id).0,
            ReplyView::File(Some(MediaFileView { cover_art_id: None, ..f })),
        ).1 == RemovalActionView::Finish,
        ({
            let (s1, a1) = removal_next(removal_started(file_id).0, ReplyView::File(Some(f)));
            let (s2, a2) = removal_next(s1, ReplyView::Updated);
            let (s3, a3) = removal_next(s2, ReplyView::Counted(n));
            &&& a1 == RemovalActionView::Perform(
                CommandView::SetFileCoverArt { file_id, link: None },
            )
            &&& a2 == RemovalActionView::Perform(
                CommandView::CountFilesWithCoverArt { cover_art_id: c },
            )
            &&& (n == 0 ==> a3 == RemovalActionView::Perform(
                CommandView::DeleteCoverArt { cover_art_id: c },
            ) && removal_next(s3, ReplyView::Deleted).1 == RemovalActionView::Finish)
            &&& (n > 0 ==> a3 == RemovalActionView::Finish)
        }),
{
}

} // verus!
