use vstd::prelude::*;

use crate::ingest::{
    create_error_body, store_error_body, stream_error_body, success_body, upload_step,
    UploadActionView, UploadEventView, UploadStateView, STATUS_OK, STATUS_SERVER_ERROR,
};
use crate::naming::{declared_name_of, placeholder_name, upload_path_of};

verus! {

/// What the upload handler's actions reach: the files on disk, the file that
/// is open for writing, and the names recorded in the metadata store, in the
/// order they were inserted.
pub struct Storage {
    pub files: Map<Seq<char>, Seq<u8>>,
    pub open: Option<Seq<char>>,
    pub records: Seq<Seq<char>>,
}

/// The effect of an action that succeeds. Creating truncates, writing appends
/// to the open file, inserting adds one record; reading and answering leave
/// the storage as it is.
pub open spec fn perform(st: Storage, a: UploadActionView) -> Storage {
    match a {
        UploadActionView::CreateFile { path } => Storage {
            files: st.files.insert(path, Seq::empty()),
            open: Some(path),
            records: st.records,
        },
        UploadActionView::WriteChunk { data } => match st.open {
            Some(p) => Storage {
                files: st.files.insert(p, st.files[p] + data),
                open: st.open,
                records: st.records,
            },
            None => st,
        },
        UploadActionView::InsertRecord { name } => Storage {
            files: st.files,
            open: st.open,
            records: st.records.push(name),
        },
        _ => st,
    }
}

/// The events that report that the last action was carried out in full.
pub open spec fn reports_success(e: UploadEventView) -> bool {
    match e {
        UploadEventView::Created | UploadEventView::Written | UploadEventView::Inserted => true,
        _ => false,
    }
}

/// The storage once event `e` has reported on the pending action: an action
/// takes effect when its success is reported. A failed creation or insert
/// changes nothing; the bytes of a failed write are left out of the model.
pub open spec fn settle(st: Storage, pending: UploadActionView, e: UploadEventView) -> Storage {
    if reports_success(e) {
        perform(st, pending)
    } else {
        st
    }
}

/// Runs the handler over a sequence of events from state `s` with action
/// `pending` outstanding, applying each action to the storage as its success
/// is reported. Gives the last state, the action still outstanding, and the storage.
pub open spec fn replay(
    s: UploadStateView,
    pending: UploadActionView,
    st: Storage,
    events: Seq<UploadEventView>,
) -> (UploadStateView, UploadActionView, Storage)
    decreases events.len(),
{
    if events.len() == 0 {
        (s, pending, st)
    } else {
        let (s2, a) = upload_step(s, events[0]);
        replay(s2, a, settle(st, pending, events[0]), events.drop_first())
    }
}

/// The events of the chunks of a part that all arrive and are all written.
pub open spec fn chunk_events(chunks: Seq<Seq<u8>>) -> Seq<UploadEventView>
    decreases chunks.len(),
{
    if chunks.len() == 0 {
        Seq::empty()
    } else {
        chunk_events(chunks.drop_last()) + seq![
            UploadEventView::Chunk { data: chunks.last() },
            UploadEventView::Written,
        ]
    }
}

/// The bytes of the chunks, one after the other.
pub open spec fn joined(chunks: Seq<Seq<u8>>) -> Seq<u8>
    decreases chunks.len(),
{
    if chunks.len() == 0 {
        Seq::empty()
    } else {
        joined(chunks.drop_last()) + chunks.last()
    }
}

/// The events of one part whose file is created and whose chunks are all
/// written, up to the end of its stream (the insert not yet answered).
pub open spec fn part_events_until_insert(
    filename: Option<Seq<char>>,
    chunks: Seq<Seq<u8>>,
) -> Seq<UploadEventView> {
    seq![UploadEventView::Part { filename }, UploadEventView::Created] + chunk_events(chunks)
        + seq![UploadEventView::PartEnd]
}

/// The events of one part that is stored and recorded without failure.
pub open spec fn part_events(filename: Option<Seq<char>>, chunks: Seq<Seq<u8>>) -> Seq<
    UploadEventView,
> {
    part_events_until_insert(filename, chunks) + seq![UploadEventView::Inserted]
}

/// The storage after one part is stored and recorded.
pub open spec fn stored(st: Storage, name: Seq<char>, content: Seq<u8>) -> Storage {
    Storage {
        files: st.files.insert(upload_path_of(name), content),
        open: Some(upload_path_of(name)),
        records: st.records.push(name),
    }
}

/// Replaying two event sequences one after the other is replaying their concatenation.
pub proof fn lemma_replay_append(
    s: UploadStateView,
    pending: UploadActionView,
    st: Storage,
    a: Seq<UploadEventView>,
    b: Seq<UploadEventView>,
)
    ensures
        replay(s, pending, st, a + b) == ({
            let (s1, p1, st1) = replay(s, pending, st, a);
            replay(s1, p1, st1, b)
        }),
    decreases a.len(),
{
    if a.len() == 0 {
        assert(a + b =~= b);
    } else {
        let (s2, act) = upload_step(s, a[0]);
        assert((a + b).drop_first() =~= a.drop_first() + b);
        lemma_replay_append(s2, act, settle(st, pending, a[0]), a.drop_first(), b);
    }
}

/// Writing the chunks of a part appends them, in order, to the open file.
proof fn lemma_chunks_written(name: Seq<char>, st: Storage, p: Seq<char>, chunks: Seq<Seq<u8>>)
    requires
        st.open == Some(p),
        st.files.dom().contains(p),
    ensures
        replay(
            UploadStateView::AwaitChunk { name },
            UploadActionView::NextChunk,
            st,
            chunk_events(chunks),
        ) == (
            UploadStateView::AwaitChunk { name },
            UploadActionView::NextChunk,
            Storage {
                files: st.files.insert(p, st.files[p] + joined(chunks)),
                open: st.open,
                records: st.records,
            },
        ),
    decreases chunks.len(),
{
    let s = UploadStateView::AwaitChunk { name };
    if chunks.len() == 0 {
        assert(st.files[p] + joined(chunks) =~= st.files[p]);
        assert(st.files.insert(p, st.files[p]) =~= st.files);
    } else {
        let init = chunks.drop_last();
        let last = chunks.last();
        let tail = seq![UploadEventView::Chunk { data: last }, UploadEventView::Written];
        lemma_chunks_written(name, st, p, init);
        lemma_replay_append(s, UploadActionView::NextChunk, st, chunk_events(init), tail);
        let st1 = Storage {
            files: st.files.insert(p, st.files[p] + joined(init)),
            open: st.open,
            records: st.records,
        };
        let st2 = perform(st1, UploadActionView::WriteChunk { data: last });
        assert(tail.drop_first().drop_first() =~= Seq::<UploadEventView>::empty());
        reveal_with_fuel(replay, 3);
        assert(replay(s, UploadActionView::NextChunk, st1, tail) == (
            s,
            UploadActionView::NextChunk,
            st2,
        ));
        assert(st1.files[p] + last =~= st.files[p] + joined(chunks));
        assert(st2.files =~= st.files.insert(p, st.files[p] + joined(chunks)));
    }
}

/// A part whose chunks are all written, at the end of its stream, leaves its
/// file holding exactly those chunks in order, and its record is asked for.
proof fn lemma_part_until_insert(
    seen: bool,
    pending: UploadActionView,
    st: Storage,
    filename: Option<Seq<char>>,
    chunks: Seq<Seq<u8>>,
)
    ensures
        replay(
            UploadStateView::AwaitPart { seen },
            pending,
            st,
            part_events_until_insert(filename, chunks),
        ) == (
            UploadStateView::AwaitInsert,
            UploadActionView::InsertRecord { name: declared_name_of(filename) },
            Storage {
                files: st.files.insert(upload_path_of(declared_name_of(filename)), joined(chunks)),
                open: Some(upload_path_of(declared_name_of(filename))),
                records: st.records,
            },
        ),
{
    let start = UploadStateView::AwaitPart { seen };
    let name = declared_name_of(filename);
    let p = upload_path_of(name);
    let head = seq![UploadEventView::Part { filename }, UploadEventView::Created];
    let end = seq![UploadEventView::PartEnd];
    let st1 = perform(st, UploadActionView::CreateFile { path: p });
    assert(head.drop_first().drop_first() =~= Seq::<UploadEventView>::empty());
    reveal_with_fuel(replay, 3);
    assert(replay(start, pending, st, head) == (
        UploadStateView::AwaitChunk { name },
        UploadActionView::NextChunk,
        st1,
    ));
    lemma_chunks_written(name, st1, p, chunks);
    lemma_replay_append(start, pending, st, head, chunk_events(chunks));
    let st2 = Storage {
        files: st1.files.insert(p, st1.files[p] + joined(chunks)),
        open: st1.open,
        records: st1.records,
    };
    lemma_replay_append(start, pending, st, head + chunk_events(chunks), end);
    assert(end.drop_first() =~= Seq::<UploadEventView>::empty());
    assert(replay(UploadStateView::AwaitChunk { name }, UploadActionView::NextChunk, st2, end) == (
        UploadStateView::AwaitInsert,
        UploadActionView::InsertRecord { name },
        st2,
    ));
    assert(Seq::<u8>::empty() + joined(chunks) =~= joined(chunks));
    assert(st2.files =~= st.files.insert(p, joined(chunks)));
}

/// Round trip: a part declared as `filename` whose chunks all arrive and are
/// written, and whose record is inserted, leaves at its sanitized path exactly
/// its bytes, in order, and one more record holding the declared name (or the
/// placeholder, where it declares none); the handler then asks for the next part.
pub proof fn lemma_part_stored(
    seen: bool,
    pending: UploadActionView,
    st: Storage,
    filename: Option<Seq<char>>,
    chunks: Seq<Seq<u8>>,
)
    ensures
        replay(UploadStateView::AwaitPart { seen }, pending, st, part_events(filename, chunks))
            == (
            UploadStateView::AwaitPart { seen: true },
            UploadActionView::NextPart,
            stored(st, declared_name_of(filename), joined(chunks)),
        ),
        stored(st, declared_name_of(filename), joined(chunks)).files[upload_path_of(
            declared_name_of(filename),
        )] == joined(chunks),
{
    lemma_part_until_insert(seen, pending, st, filename, chunks);
    lemma_replay_append(
        UploadStateView::AwaitPart { seen },
        pending,
        st,
        part_events_until_insert(filename, chunks),
        seq![UploadEventView::Inserted],
    );
    assert(seq![UploadEventView::Inserted].drop_first() =~= Seq::<UploadEventView>::empty());
    reveal_with_fuel(replay, 2);
}

/// Two uploads whose declared names sanitize to the same path: the second's
/// bytes replace the first's entirely, and the store holds a record for each,
/// in order.
pub proof fn lemma_same_path_overwrites(
    seen: bool,
    pending: UploadActionView,
    st: Storage,
    first: Seq<char>,
    first_chunks: Seq<Seq<u8>>,
    second: Seq<char>,
    second_chunks: Seq<Seq<u8>>,
)
    requires
        upload_path_of(first) == upload_path_of(second),
    ensures
        ({
            let (s, _, end) = replay(
                UploadStateView::AwaitPart { seen },
                pending,
                st,
                part_events(Some(first), first_chunks) + part_events(Some(second), second_chunks),
            );
            &&& s == UploadStateView::AwaitPart { seen: true }
            &&& end.files[upload_path_of(first)] == joined(second_chunks)
            &&& end.records == st.records.push(first).push(second)
        }),
{
    lemma_replay_append(
        UploadStateView::AwaitPart { seen },
        pending,
        st,
        part_events(Some(first), first_chunks),
        part_events(Some(second), second_chunks),
    );
    lemma_part_stored(seen, pending, st, Some(first), first_chunks);
    lemma_part_stored(
        true,
        UploadActionView::NextPart,
        stored(st, first, joined(first_chunks)),
        Some(second),
        second_chunks,
    );
}

/// A part that declares no file name is stored and recorded under the
/// placeholder name, and the request, its body then at an end, is answered 200.
pub proof fn lemma_unnamed_part_accepted(
    seen: bool,
    pending: UploadActionView,
    st: Storage,
    chunks: Seq<Seq<u8>>,
)
    ensures
        ({
            let (s, _, end) = replay(
                UploadStateView::AwaitPart { seen },
                pending,
                st,
                part_events(None, chunks),
            );
            &&& end.records == st.records.push(placeholder_name())
            &&& end.files[upload_path_of(placeholder_name())] == joined(chunks)
            &&& upload_step(s, UploadEventView::StreamEnd) == (
                UploadStateView::Finished,
                UploadActionView::Respond { status: STATUS_OK, body: success_body() },
            )
        }),
{
    lemma_part_stored(seen, pending, st, None, chunks);
}

/// A request whose body holds no part is recorded once, under the placeholder
/// name, and answered 200.
pub proof fn lemma_empty_body_records_placeholder(pending: UploadActionView, st: Storage)
    ensures
        replay(
            UploadStateView::AwaitPart { seen: false },
            pending,
            st,
            seq![UploadEventView::StreamEnd, UploadEventView::Inserted],
        ) == (
            UploadStateView::Finished,
            UploadActionView::Respond { status: STATUS_OK, body: success_body() },
            Storage { files: st.files, open: st.open, records: st.records.push(placeholder_name()) },
        ),
{
    let events = seq![UploadEventView::StreamEnd, UploadEventView::Inserted];
    assert(events.drop_first().drop_first() =~= Seq::<UploadEventView>::empty());
    reveal_with_fuel(replay, 3);
}

/// A failed insert after a part was written in full is answered 500; the
/// part's bytes stay on disk at its path, with no record for them.
pub proof fn lemma_failed_insert_keeps_blob(
    seen: bool,
    pending: UploadActionView,
    st: Storage,
    filename: Option<Seq<char>>,
    chunks: Seq<Seq<u8>>,
)
    ensures
        ({
            let events = part_events_until_insert(filename, chunks).push(
                UploadEventView::InsertFailed,
            );
            let (s, a, end) = replay(UploadStateView::AwaitPart { seen }, pending, st, events);
            &&& s == UploadStateView::Finished
            &&& a == (UploadActionView::Respond {
                status: STATUS_SERVER_ERROR,
                body: store_error_body(),
            })
            &&& end.files[upload_path_of(declared_name_of(filename))] == joined(chunks)
            &&& end.records == st.records
        }),
{
    let fail = seq![UploadEventView::InsertFailed];
    assert(part_events_until_insert(filename, chunks).push(UploadEventView::InsertFailed)
        =~= part_events_until_insert(filename, chunks) + fail);
    lemma_part_until_insert(seen, pending, st, filename, chunks);
    lemma_replay_append(
        UploadStateView::AwaitPart { seen },
        pending,
        st,
        part_events_until_insert(filename, chunks),
        fail,
    );
    assert(fail.drop_first() =~= Seq::<UploadEventView>::empty());
    reveal_with_fuel(replay, 2);
}

/// A part whose stream fails or is cut off after some chunks is answered 500
/// and gets no record; its file keeps the chunks written before, in order.
pub proof fn lemma_aborted_part_not_recorded(
    seen: bool,
    pending: UploadActionView,
    st: Storage,
    filename: Option<Seq<char>>,
    chunks: Seq<Seq<u8>>,
)
    ensures
        ({
            let events = seq![UploadEventView::Part { filename }, UploadEventView::Created]
                + chunk_events(chunks) + seq![UploadEventView::ChunkError];
            let (s, a, end) = replay(UploadStateView::AwaitPart { seen }, pending, st, events);
            &&& s == UploadStateView::Finished
            &&& a == (UploadActionView::Respond {
                status: STATUS_SERVER_ERROR,
                body: stream_error_body(),
            })
            &&& end.files[upload_path_of(declared_name_of(filename))] == joined(chunks)
            &&& end.records == st.records
        }),
{
    let start = UploadStateView::AwaitPart { seen };
    let name = declared_name_of(filename);
    let p = upload_path_of(name);
    let head = seq![UploadEventView::Part { filename }, UploadEventView::Created];
    let fail = seq![UploadEventView::ChunkError];
    let st1 = perform(st, UploadActionView::CreateFile { path: p });
    assert(head.drop_first().drop_first() =~= Seq::<UploadEventView>::empty());
    reveal_with_fuel(replay, 3);
    assert(replay(start, pending, st, head) == (
        UploadStateView::AwaitChunk { name },
        UploadActionView::NextChunk,
        st1,
    ));
    lemma_chunks_written(name, st1, p, chunks);
    lemma_replay_append(start, pending, st, head, chunk_events(chunks));
    lemma_replay_append(start, pending, st, head + chunk_events(chunks), fail);
    assert(fail.drop_first() =~= Seq::<UploadEventView>::empty());
    assert(Seq::<u8>::empty() + joined(chunks) =~= joined(chunks));
}

/// A file that cannot be created ends the request with status 500, with
/// nothing stored and no record.
pub proof fn lemma_failed_create_answers_error(
    seen: bool,
    pending: UploadActionView,
    st: Storage,
    filename: Option<Seq<char>>,
)
    ensures
        replay(
            UploadStateView::AwaitPart { seen },
            pending,
            st,
            seq![UploadEventView::Part { filename }, UploadEventView::CreateFailed],
        ) == (
            UploadStateView::Finished,
            UploadActionView::Respond { status: STATUS_SERVER_ERROR, body: create_error_body() },
            st,
        ),
{
    let events = seq![UploadEventView::Part { filename }, UploadEventView::CreateFailed];
    assert(events.drop_first().drop_first() =~= Seq::<UploadEventView>::empty());
    reveal_with_fuel(replay, 3);
}

} // verus!
