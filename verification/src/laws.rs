//! What holds of the upload pipeline, stated of the model in `model`.
//!
//! The first group of laws speaks of requests on which every operation
//! succeeds: what is uploaded under a plain name is stored, whole and in
//! order, under that name, and what asks for another name is refused. Such a
//! request is written `serve(parts)`; by `lemma_serve_is_delivery` that is
//! the delivery, one by one, of the events that a driver reports of it. The
//! second group speaks of every request, whatever happens to it: one reply
//! at most, a success only if every part was stored, and no file touched but
//! direct children of the upload directory.

use crate::destination::{
    is_direct_child, is_plain_name, lemma_fallback_name_is_plain, lemma_path_determines_name,
    path_in, FALLBACK_FILE_NAME,
};
use crate::ingest::{ActionView, EventView, PhaseView, PipelineView};
use crate::model::{
    chunks_of, events_of_request, files_after_upload, lemma_delivery_extends_log,
    lemma_reachable_is_sound, lemma_receive_parts, lemma_serve_is_delivery, lemma_single_part,
    lemma_writes_of_push, outcomes_of, writes_of, PartView, World,
};
use crate::reply::{
    lemma_first_failure_is_earliest, lemma_reply_reports_first_failure, reply_of, Failure,
    PartOutcome, Reply, STATUS_BAD_REQUEST,
};
use vstd::prelude::*;

verus! {

/// A request on which every operation succeeds is handled part by part, in
/// order. A part that asks for a plain name is stored, a part that asks for
/// another name is refused and changes nothing.
///
/// Afterwards the files are those before the request with the content of
/// each stored part put at the part's path, a later part replacing an
/// earlier one of the same name. The outcome of every part is recorded, the
/// reply is the one to these outcomes, every chunk of a stored part was
/// handed out for writing once and in order, and the pipeline has finished.
pub proof fn lemma_request_is_handled(
    dir: Seq<char>,
    files: Map<Seq<char>, Seq<u8>>,
    parts: Seq<PartView>,
)
    ensures
        ({
            let after = World::start(dir, files).serve(parts);
            &&& after.files == files_after_upload(files, dir, parts)
            &&& after.pipeline.dir == dir
            &&& after.pipeline.phase == PhaseView::Finished
            &&& after.pipeline.outcomes == outcomes_of(parts)
            &&& after.reply() == Some(reply_of(outcomes_of(parts)))
            &&& writes_of(after.log) == chunks_of(parts)
        }),
{
    let w0 = World::start(dir, files);
    lemma_receive_parts(w0, parts);
    let w1 = w0.receive_parts(parts);
    assert(w0.pipeline.outcomes + outcomes_of(parts) == outcomes_of(parts));
    assert(writes_of(w0.log) + chunks_of(parts) == chunks_of(parts));
    lemma_writes_of_push(w1.log, ActionView::Respond { reply: reply_of(w1.pipeline.outcomes) });
}

/// A request that holds parts, all of which ask for plain names, and on
/// which every operation succeeds, is answered with a success.
pub proof fn lemma_plain_request_is_uploaded(
    dir: Seq<char>,
    files: Map<Seq<char>, Seq<u8>>,
    parts: Seq<PartView>,
)
    requires
        parts.len() > 0,
        forall|i: int| 0 <= i < parts.len() ==> (#[trigger] parts[i]).is_plain(),
    ensures
        World::start(dir, files).serve(parts).reply() == Some(Reply::Uploaded),
{
    lemma_request_is_handled(dir, files, parts);
    lemma_reply_reports_first_failure(outcomes_of(parts));
}

/// A request that holds one part, with the plain name `name`, whose content
/// `content` arrives split into `chunks` in any way, and on which every
/// operation succeeds, is answered with a success. Afterwards the file
/// called `name` in the upload directory holds exactly `content`, and no
/// other file has changed.
pub proof fn lemma_upload_stores_content(
    dir: Seq<char>,
    files: Map<Seq<char>, Seq<u8>>,
    name: Seq<char>,
    chunks: Seq<Seq<u8>>,
    content: Seq<u8>,
)
    requires
        is_plain_name(name),
        chunks.flatten() == content,
    ensures
        ({
            let part = PartView { filename: Some(name), chunks };
            let after = World::start(dir, files).serve(seq![part]);
            &&& after.reply() == Some(Reply::Uploaded)
            &&& after.files == files.insert(path_in(dir, name), content)
            &&& after.files[path_in(dir, name)] == content
        }),
{
    let part = PartView { filename: Some(name), chunks };
    lemma_request_is_handled(dir, files, seq![part]);
    lemma_single_part(files, dir, part);
    lemma_plain_request_is_uploaded(dir, files, seq![part]);
}

/// A request that holds no part is answered with the client error, and no
/// file has changed: the pipeline asks for nothing but the reply.
pub proof fn lemma_empty_request_changes_nothing(dir: Seq<char>, files: Map<Seq<char>, Seq<u8>>)
    ensures
        ({
            let after = World::start(dir, files).serve(Seq::empty());
            &&& after.reply() == Some(Reply::NoFile)
            &&& after.files == files
            &&& after.log == seq![ActionView::Respond { reply: Reply::NoFile }]
        }),
{
}

/// A part without a file name is stored under the fallback name: after a
/// request that holds one such part and on which every operation succeeds,
/// the file of that name in the upload directory holds the part's content.
pub proof fn lemma_unnamed_part_uses_fallback_name(
    dir: Seq<char>,
    files: Map<Seq<char>, Seq<u8>>,
    chunks: Seq<Seq<u8>>,
)
    ensures
        ({
            let part = PartView { filename: None, chunks };
            let after = World::start(dir, files).serve(seq![part]);
            &&& after.reply() == Some(Reply::Uploaded)
            &&& after.files == files.insert(path_in(dir, FALLBACK_FILE_NAME@), chunks.flatten())
            &&& after.log.first() == (ActionView::CreateFile {
                path: path_in(dir, FALLBACK_FILE_NAME@),
            })
        }),
{
    let part = PartView { filename: None, chunks };
    lemma_fallback_name_is_plain();
    lemma_request_is_handled(dir, files, seq![part]);
    lemma_single_part(files, dir, part);
    lemma_plain_request_is_uploaded(dir, files, seq![part]);
    let w0 = World::start(dir, files);
    let w1 = w0.deliver(EventView::Part { filename: None });
    lemma_serve_is_delivery(w0, seq![part]);
    let events = events_of_request(seq![part]);
    assert(events.first() == (EventView::Part { filename: None }));
    lemma_delivery_extends_log(w1, events.drop_first());
}

/// A part that asks for a name that is not plain is refused: a request that
/// holds one such part creates and writes nothing, leaves every file as it
/// was, and is answered with the client error for an unsafe name.
pub proof fn lemma_unsafe_name_is_refused(
    dir: Seq<char>,
    files: Map<Seq<char>, Seq<u8>>,
    name: Seq<char>,
    chunks: Seq<Seq<u8>>,
)
    requires
        !is_plain_name(name),
    ensures
        ({
            let part = PartView { filename: Some(name), chunks };
            let after = World::start(dir, files).serve(seq![part]);
            &&& after.files == files
            &&& after.reply() == Some(Reply::Failed(Failure::UnsafeName))
            &&& after.reply().unwrap().status_spec() == STATUS_BAD_REQUEST
            &&& after.log == seq![
                ActionView::RefusePart { reason: Failure::UnsafeName },
                ActionView::Respond { reply: Reply::Failed(Failure::UnsafeName) },
            ]
        }),
{
    let part = PartView { filename: Some(name), chunks };
    let outcomes = seq![PartOutcome::Failed(Failure::UnsafeName)];
    assert(outcomes.drop_last() == Seq::<PartOutcome>::empty());
    lemma_first_failure_is_earliest(Seq::<PartOutcome>::empty());
    assert(reply_of(outcomes) == Reply::Failed(Failure::UnsafeName));
    let w0 = World::start(dir, files);
    let w1 = w0.deliver(EventView::Part { filename: Some(name) });
    assert(w1.pipeline.outcomes == outcomes);
    assert(w0.receive_parts(seq![part]) == w1) by {
        assert(seq![part].drop_first() == Seq::<PartView>::empty());
        reveal_with_fuel(World::receive_parts, 2);
    }
    let after = w1.deliver(EventView::NoMoreParts);
    assert(after.log == seq![
        ActionView::RefusePart { reason: Failure::UnsafeName },
        ActionView::Respond { reply: Reply::Failed(Failure::UnsafeName) },
    ]);
}

/// Uploading a file a second time under the same name replaces it: after two
/// requests, each with one part called `name`, the file holds the content of
/// the second and nothing of the first, as if only the second had been
/// made.
pub proof fn lemma_second_upload_overwrites(
    dir: Seq<char>,
    files: Map<Seq<char>, Seq<u8>>,
    name: Seq<char>,
    first: Seq<Seq<u8>>,
    second: Seq<Seq<u8>>,
)
    requires
        is_plain_name(name),
    ensures
        ({
            let one = PartView { filename: Some(name), chunks: first };
            let two = PartView { filename: Some(name), chunks: second };
            let between = World::start(dir, files).serve(seq![one]).files;
            let after = World::start(dir, between).serve(seq![two]).files;
            &&& after[path_in(dir, name)] == second.flatten()
            &&& after == files.insert(path_in(dir, name), second.flatten())
            &&& after == World::start(dir, files).serve(seq![two]).files
        }),
{
    let one = PartView { filename: Some(name), chunks: first };
    let between = World::start(dir, files).serve(seq![one]).files;
    lemma_upload_stores_content(dir, files, name, first, first.flatten());
    lemma_upload_stores_content(dir, between, name, second, second.flatten());
    lemma_upload_stores_content(dir, files, name, second, second.flatten());
    let path = path_in(dir, name);
    assert(files.insert(path, first.flatten()).insert(path, second.flatten()) == files.insert(
        path,
        second.flatten(),
    ));
}

/// The pipeline keeps nothing of a chunk: it hands the chunk out for writing
/// as it came, and the state it goes to is the same whatever the chunk
/// holds.
pub proof fn lemma_chunk_is_passed_on(s: PipelineView, a: Seq<u8>, b: Seq<u8>)
    requires
        s.phase is AwaitingChunk,
    ensures
        ({
            let on_a = s.transition(EventView::Chunk { bytes: a });
            let on_b = s.transition(EventView::Chunk { bytes: b });
            &&& on_a is Some
            &&& on_b is Some
            &&& on_a.unwrap().1 == (ActionView::Write { bytes: a })
            &&& on_a.unwrap().0 == on_b.unwrap().0
        }),
{
}

/// Each chunk of an upload is handed out for writing by itself: in a request
/// that holds one part with a plain name and on which every operation
/// succeeds, the pipeline asks for as many writes as chunks arrive, and the
/// bytes of each write are those of one chunk, in the order of arrival.
pub proof fn lemma_one_write_per_chunk(
    dir: Seq<char>,
    files: Map<Seq<char>, Seq<u8>>,
    part: PartView,
)
    requires
        part.is_plain(),
    ensures
        writes_of(World::start(dir, files).serve(seq![part]).log) == part.chunks,
{
    lemma_request_is_handled(dir, files, seq![part]);
    lemma_single_part(files, dir, part);
}

/// Uploads under different names do not interfere: two requests, each with
/// one part with a plain name, leave the same files whichever is handled
/// first, and afterwards each of the two files holds the content of its own
/// part.
pub proof fn lemma_distinct_uploads_do_not_interfere(
    dir: Seq<char>,
    files: Map<Seq<char>, Seq<u8>>,
    a: PartView,
    b: PartView,
)
    requires
        a.is_plain(),
        b.is_plain(),
        a.name() != b.name(),
    ensures
        ({
            let a_then_b = World::start(
                dir,
                World::start(dir, files).serve(seq![a]).files,
            ).serve(seq![b]).files;
            let b_then_a = World::start(
                dir,
                World::start(dir, files).serve(seq![b]).files,
            ).serve(seq![a]).files;
            &&& a_then_b == b_then_a
            &&& a_then_b[path_in(dir, a.name())] == a.content()
            &&& a_then_b[path_in(dir, b.name())] == b.content()
        }),
{
    let after_a = World::start(dir, files).serve(seq![a]).files;
    let after_b = World::start(dir, files).serve(seq![b]).files;
    lemma_request_is_handled(dir, files, seq![a]);
    lemma_single_part(files, dir, a);
    lemma_request_is_handled(dir, files, seq![b]);
    lemma_single_part(files, dir, b);
    lemma_request_is_handled(dir, after_a, seq![b]);
    lemma_single_part(after_a, dir, b);
    lemma_request_is_handled(dir, after_b, seq![a]);
    lemma_single_part(after_b, dir, a);
    let path_a = path_in(dir, a.name());
    let path_b = path_in(dir, b.name());
    if path_a == path_b {
        lemma_path_determines_name(dir, a.name(), b.name());
    }
    assert(files.insert(path_a, a.content()).insert(path_b, b.content()) == files.insert(
        path_b,
        b.content(),
    ).insert(path_a, a.content()));
}

/// Whatever is reported to the pipeline of a request, the world stays
/// sound. The pipeline goes on storing in the directory of the request. The
/// reply is asked for at most once and at the end, and it is the reply to
/// the outcomes recorded. Every file that the pipeline asks to create is a
/// direct child of the upload directory: a plain name joined to it. Every
/// path that is no direct child of the directory is as it was before the
/// request.
pub proof fn lemma_request_is_sound(
    dir: Seq<char>,
    files: Map<Seq<char>, Seq<u8>>,
    events: Seq<EventView>,
)
    ensures
        ({
            let after = World::start(dir, files).deliver_all(events);
            &&& after.sound(dir, files)
            &&& after.pipeline.dir == dir
            &&& forall|i: int|
                0 <= i < after.log.len() ==> (#[trigger] after.log[i] matches ActionView::CreateFile {
                    path,
                } ==> exists|name: Seq<char>|
                    is_plain_name(name) && path == #[trigger] path_in(dir, name))
        }),
{
    let after = World::start(dir, files).deliver_all(events);
    lemma_reachable_is_sound(World::start(dir, files), dir, files, events);
    assert forall|i: int| 0 <= i < after.log.len() implies (
    #[trigger] after.log[i] matches ActionView::CreateFile { path } ==> exists|name: Seq<char>|
        is_plain_name(name) && path == #[trigger] path_in(dir, name)) by {
        if let ActionView::CreateFile { path } = after.log[i] {
            assert(is_direct_child(dir, path));
        }
    }
}

/// A success means that everything was stored: whatever is reported to the
/// pipeline of a request, if the reply is the success, the request held at
/// least one part and every part was stored.
pub proof fn lemma_success_means_every_part_stored(
    dir: Seq<char>,
    files: Map<Seq<char>, Seq<u8>>,
    events: Seq<EventView>,
)
    ensures
        ({
            let after = World::start(dir, files).deliver_all(events);
            after.reply() == Some(Reply::Uploaded) ==> {
                &&& after.pipeline.outcomes.len() > 0
                &&& forall|i: int|
                    0 <= i < after.pipeline.outcomes.len() ==> after.pipeline.outcomes[i]
                        == PartOutcome::Stored
            }
        }),
{
    let after = World::start(dir, files).deliver_all(events);
    lemma_reachable_is_sound(World::start(dir, files), dir, files, events);
    lemma_reply_reports_first_failure(after.pipeline.outcomes);
}

/// Once the reply was asked for, nothing that is reported changes anything.
pub proof fn lemma_finished_is_final(w: World, events: Seq<EventView>)
    requires
        w.pipeline.phase is Finished,
    ensures
        w.deliver_all(events) == w,
    decreases events.len(),
{
    if events.len() > 0 {
        lemma_finished_is_final(w, events.drop_first());
    }
}

} // verus!
