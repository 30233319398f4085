# database

Cover art bookkeeping of a music library, verified with Verus.

- `src/store.rs`: the rows the bookkeeping reads, the commands it sends to the
  database, the replies it gets, and a model (`LibraryDb::replies`) of what a
  faithful database answers.
- `src/cover_art_sync.rs`: linking a media file to its cover art
  (`CoverArtSync`), with its laws: the file ends linked to the row that is
  returned, rows are shared by checksum, files without a picture share the
  magic row, syncing twice changes nothing, and every run ends.
- `src/cover_art_removal.rs`: unlinking a media file (`CoverArtRemoval`); the
  row is deleted once no file is linked to it.
- `src/lookup.rs`, `src/mixes.rs`, `src/hub.rs`: the smaller pieces.
- `app/`: the sea-orm entities and the async functions that carry out the
  commands against the database, and the hub's main loop.
