//! A model of the pipeline at work.
//!
//! The model joins the pipeline with the files of the upload directory and a
//! log of the actions that the pipeline asked for. Events are delivered to it
//! one at a time. An event that reports success also has the effect of the
//! operation that it reports: `FileCreated` leaves an empty file at the path
//! being created, `Written` appends the bytes handed out for writing to the
//! file being written. Of an operation that failed the model assumes that it
//! changed no file.
//!
//! This file holds the model and what is needed to reason with it; the laws
//! that hold of it stand in `laws`.

use crate::destination::{
    file_name_of, is_direct_child, is_plain_name, lemma_destination_is_direct_child, path_in,
};
use crate::ingest::{ActionView, EventView, PhaseView, PipelineView};
use crate::reply::{reply_of, Failure, PartOutcome, Reply};
use vstd::prelude::*;

verus! {

/// One part of a request: the file name that the client supplied, if any, and
/// the chunks in which its content arrives.
pub struct PartView {
    pub filename: Option<Seq<char>>,
    pub chunks: Seq<Seq<u8>>,
}

impl PartView {
    /// The name that the part asks to be stored under.
    pub open spec fn name(self) -> Seq<char> {
        file_name_of(self.filename)
    }

    /// Whether the part asks for a plain name, and so is stored.
    pub open spec fn is_plain(self) -> bool {
        is_plain_name(self.name())
    }

    /// The whole content of the part.
    pub open spec fn content(self) -> Seq<u8> {
        self.chunks.flatten()
    }

    /// How the part ends when every operation on it succeeds: it is stored
    /// if it asks for a plain name and refused if not.
    pub open spec fn outcome(self) -> PartOutcome {
        if self.is_plain() {
            PartOutcome::Stored
        } else {
            PartOutcome::Failed(Failure::UnsafeName)
        }
    }
}

/// The pipeline together with the files around it.
pub struct World {
    /// The pipeline.
    pub pipeline: PipelineView,
    /// The content of each file, by path.
    pub files: Map<Seq<char>, Seq<u8>>,
    /// The actions that the pipeline asked for, oldest first.
    pub log: Seq<ActionView>,
}

/// The content of the file at `path`; a file that does not exist has none.
pub open spec fn content_at(files: Map<Seq<char>, Seq<u8>>, path: Seq<char>) -> Seq<u8> {
    if files.dom().contains(path) {
        files[path]
    } else {
        Seq::empty()
    }
}

/// The bytes handed out for writing in `log`, one entry for each `Write`, in
/// the order of the log.
pub open spec fn writes_of(log: Seq<ActionView>) -> Seq<Seq<u8>>
    decreases log.len(),
{
    if log.len() == 0 {
        Seq::empty()
    } else {
        match log.last() {
            ActionView::Write { bytes } => writes_of(log.drop_last()).push(bytes),
            _ => writes_of(log.drop_last()),
        }
    }
}

/// The files after `part` was handled in `dir`: a part with a plain name
/// replaces what its path held before, any other part changes nothing.
pub open spec fn files_after_part(
    files: Map<Seq<char>, Seq<u8>>,
    dir: Seq<char>,
    part: PartView,
) -> Map<Seq<char>, Seq<u8>> {
    if part.is_plain() {
        files.insert(path_in(dir, part.name()), part.content())
    } else {
        files
    }
}

/// The files after each of `parts` was handled in `dir`, in order.
pub open spec fn files_after_upload(
    files: Map<Seq<char>, Seq<u8>>,
    dir: Seq<char>,
    parts: Seq<PartView>,
) -> Map<Seq<char>, Seq<u8>>
    decreases parts.len(),
{
    if parts.len() == 0 {
        files
    } else {
        files_after_upload(files_after_part(files, dir, parts.first()), dir, parts.drop_first())
    }
}

/// The chunks of those of `parts` that are stored, in order.
pub open spec fn chunks_of(parts: Seq<PartView>) -> Seq<Seq<u8>>
    decreases parts.len(),
{
    if parts.len() == 0 {
        Seq::empty()
    } else if parts.first().is_plain() {
        parts.first().chunks + chunks_of(parts.drop_first())
    } else {
        chunks_of(parts.drop_first())
    }
}

/// How each of `parts` ends when every operation succeeds, in order.
pub open spec fn outcomes_of(parts: Seq<PartView>) -> Seq<PartOutcome> {
    Seq::new(parts.len(), |i: int| parts[i].outcome())
}

/// Whether `path` is the same in `files` as in `before`: it names a file in
/// both or in neither, with the same content.
pub open spec fn same_at(
    files: Map<Seq<char>, Seq<u8>>,
    before: Map<Seq<char>, Seq<u8>>,
    path: Seq<char>,
) -> bool {
    &&& files.dom().contains(path) <==> before.dom().contains(path)
    &&& files.dom().contains(path) ==> files[path] == before[path]
}

/// The path of the part that the pipeline is working on, if it is working on
/// one.
pub open spec fn path_in_work(phase: PhaseView) -> Option<Seq<char>> {
    match phase {
        PhaseView::Creating { path } => Some(path),
        PhaseView::AwaitingChunk { path } => Some(path),
        PhaseView::Writing { path } => Some(path),
        _ => None,
    }
}

impl World {
    /// A new request arrives: a fresh pipeline for `dir`, the files as they
    /// are, an empty log.
    pub open spec fn start(dir: Seq<char>, files: Map<Seq<char>, Seq<u8>>) -> World {
        World { pipeline: PipelineView::fresh(dir), files, log: Seq::empty() }
    }

    /// The files after the operation that `event` reports.
    pub open spec fn files_on(self, event: EventView) -> Map<Seq<char>, Seq<u8>> {
        match (self.pipeline.phase, event) {
            (PhaseView::Creating { path }, EventView::FileCreated) => self.files.insert(
                path,
                Seq::empty(),
            ),
            (PhaseView::Writing { path }, EventView::Written) => if self.log.len() > 0 {
                match self.log.last() {
                    ActionView::Write { bytes } => self.files.insert(
                        path,
                        content_at(self.files, path) + bytes,
                    ),
                    _ => self.files,
                }
            } else {
                self.files
            },
            _ => self.files,
        }
    }

    /// The world after `event` was delivered. An event that the pipeline
    /// refuses changes nothing.
    pub open spec fn deliver(self, event: EventView) -> World {
        match self.pipeline.transition(event) {
            Some((next, action)) => World {
                pipeline: next,
                files: self.files_on(event),
                log: self.log.push(action),
            },
            None => self,
        }
    }

    /// The world after each of `events` was delivered, in order.
    pub open spec fn deliver_all(self, events: Seq<EventView>) -> World
        decreases events.len(),
    {
        if events.len() == 0 {
            self
        } else {
            self.deliver(events.first()).deliver_all(events.drop_first())
        }
    }

    /// The world after each of `chunks` arrived and was written.
    pub open spec fn receive_chunks(self, chunks: Seq<Seq<u8>>) -> World
        decreases chunks.len(),
    {
        if chunks.len() == 0 {
            self
        } else {
            self.deliver(EventView::Chunk { bytes: chunks.first() }).deliver(
                EventView::Written,
            ).receive_chunks(chunks.drop_first())
        }
    }

    /// The world after `part` arrived and every operation on it succeeded.
    /// Of a part with a plain name the file was created, each chunk arrived
    /// and was written, and the chunk stream ended. A part with another name
    /// was refused as it arrived, and nothing more is reported of it.
    pub open spec fn receive_part(self, part: PartView) -> World {
        let arrived = self.deliver(EventView::Part { filename: part.filename });
        if part.is_plain() {
            arrived.deliver(EventView::FileCreated).receive_chunks(part.chunks).deliver(
                EventView::PartEnded,
            )
        } else {
            arrived
        }
    }

    /// The world after each of `parts` was received, in order.
    pub open spec fn receive_parts(self, parts: Seq<PartView>) -> World
        decreases parts.len(),
    {
        if parts.len() == 0 {
            self
        } else {
            self.receive_part(parts.first()).receive_parts(parts.drop_first())
        }
    }

    /// The world after a request that holds `parts` was handled to its end.
    pub open spec fn serve(self, parts: Seq<PartView>) -> World {
        self.receive_parts(parts).deliver(EventView::NoMoreParts)
    }

    /// The reply that the pipeline asked to send, once it has.
    pub open spec fn reply(self) -> Option<Reply> {
        if self.log.len() > 0 {
            match self.log.last() {
                ActionView::Respond { reply } => Some(reply),
                _ => None,
            }
        } else {
            None
        }
    }

    /// What holds of every world that a request for the directory `dir` can
    /// reach from the files `before`, whatever is reported to the pipeline.
    ///
    /// The pipeline still stores in `dir`. The reply is asked for at most
    /// once, as the last action, exactly when the pipeline has finished, and
    /// it is the reply to the outcomes recorded. Every file that is created
    /// or written is a direct child of `dir`, a plain name joined to it, and
    /// every other path is as it was. While a write is awaited, the last
    /// action is that write.
    pub open spec fn sound(self, dir: Seq<char>, before: Map<Seq<char>, Seq<u8>>) -> bool {
        &&& self.pipeline.dir == dir
        &&& self.pipeline.phase is Finished <==> self.reply() is Some
        &&& self.reply() matches Some(reply) ==> reply == reply_of(self.pipeline.outcomes)
        &&& forall|i: int|
            0 <= i < self.log.len() - 1 ==> !(#[trigger] self.log[i] is Respond)
        &&& forall|i: int|
            0 <= i < self.log.len() ==> (#[trigger] self.log[i] matches ActionView::CreateFile {
                path,
            } ==> is_direct_child(dir, path))
        &&& path_in_work(self.pipeline.phase) matches Some(path) ==> is_direct_child(dir, path)
        &&& self.pipeline.phase is Writing ==> self.log.len() > 0 && self.log.last() is Write
        &&& forall|path: Seq<char>|
            !is_direct_child(dir, path) ==> #[trigger] same_at(self.files, before, path)
    }
}

/// The events that a driver reports of the chunks of a part when every
/// operation succeeds.
pub open spec fn events_of_chunks(chunks: Seq<Seq<u8>>) -> Seq<EventView>
    decreases chunks.len(),
{
    if chunks.len() == 0 {
        Seq::empty()
    } else {
        seq![EventView::Chunk { bytes: chunks.first() }, EventView::Written] + events_of_chunks(
            chunks.drop_first(),
        )
    }
}

/// The events that a driver reports of a part when every operation
/// succeeds.
pub open spec fn events_of_part(part: PartView) -> Seq<EventView> {
    if part.is_plain() {
        seq![EventView::Part { filename: part.filename }, EventView::FileCreated]
            + events_of_chunks(part.chunks) + seq![EventView::PartEnded]
    } else {
        seq![EventView::Part { filename: part.filename }]
    }
}

/// The events that a driver reports of the parts of a request when every
/// operation succeeds.
pub open spec fn events_of_parts(parts: Seq<PartView>) -> Seq<EventView>
    decreases parts.len(),
{
    if parts.len() == 0 {
        Seq::empty()
    } else {
        events_of_part(parts.first()) + events_of_parts(parts.drop_first())
    }
}

/// The events that a driver reports of a request when every operation
/// succeeds, up to the end of the request.
pub open spec fn events_of_request(parts: Seq<PartView>) -> Seq<EventView> {
    events_of_parts(parts) + seq![EventView::NoMoreParts]
}

/// What an action adds to the bytes handed out for writing.
pub proof fn lemma_writes_of_push(log: Seq<ActionView>, action: ActionView)
    ensures
        writes_of(log.push(action)) == match action {
            ActionView::Write { bytes } => writes_of(log).push(bytes),
            _ => writes_of(log),
        },
{
    assert(log.push(action).drop_last() == log);
}

/// Delivering one sequence of events after another is delivering both as
/// one.
pub proof fn lemma_deliver_all_concat(w: World, a: Seq<EventView>, b: Seq<EventView>)
    ensures
        w.deliver_all(a + b) == w.deliver_all(a).deliver_all(b),
    decreases a.len(),
{
    if a.len() > 0 {
        assert((a + b).drop_first() == a.drop_first() + b);
        lemma_deliver_all_concat(w.deliver(a.first()), a.drop_first(), b);
    } else {
        assert(a + b == b);
    }
}

/// Delivering one event is delivering the sequence that holds only it.
pub proof fn lemma_deliver_one(w: World, event: EventView)
    ensures
        w.deliver_all(seq![event]) == w.deliver(event),
{
    assert(seq![event].drop_first() == Seq::<EventView>::empty());
    reveal_with_fuel(World::deliver_all, 2);
}

/// Delivering events only adds to the log.
pub proof fn lemma_delivery_extends_log(w: World, events: Seq<EventView>)
    ensures
        w.log.len() <= w.deliver_all(events).log.len(),
        forall|i: int| 0 <= i < w.log.len() ==> w.deliver_all(events).log[i] == w.log[i],
    decreases events.len(),
{
    if events.len() > 0 {
        let w1 = w.deliver(events.first());
        lemma_delivery_extends_log(w1, events.drop_first());
        assert forall|i: int| 0 <= i < w.log.len() implies w.deliver_all(events).log[i]
            == w.log[i] by {
            assert(w1.log[i] == w.log[i]);
        }
    }
}

/// Receiving chunks is delivering their events one by one.
pub proof fn lemma_receive_chunks_is_delivery(w: World, chunks: Seq<Seq<u8>>)
    ensures
        w.receive_chunks(chunks) == w.deliver_all(events_of_chunks(chunks)),
    decreases chunks.len(),
{
    if chunks.len() > 0 {
        let first = EventView::Chunk { bytes: chunks.first() };
        let w1 = w.deliver(first);
        let w2 = w1.deliver(EventView::Written);
        lemma_receive_chunks_is_delivery(w2, chunks.drop_first());
        lemma_deliver_one(w, first);
        lemma_deliver_one(w1, EventView::Written);
        lemma_deliver_all_concat(w, seq![first], seq![EventView::Written]);
        assert(seq![first] + seq![EventView::Written] == seq![first, EventView::Written]);
        lemma_deliver_all_concat(
            w,
            seq![first, EventView::Written],
            events_of_chunks(chunks.drop_first()),
        );
    }
}

/// Receiving a part is delivering its events one by one.
pub proof fn lemma_receive_part_is_delivery(w: World, part: PartView)
    ensures
        w.receive_part(part) == w.deliver_all(events_of_part(part)),
{
    let arrive = EventView::Part { filename: part.filename };
    let w1 = w.deliver(arrive);
    lemma_deliver_one(w, arrive);
    if part.is_plain() {
        let head = seq![arrive, EventView::FileCreated];
        let middle = events_of_chunks(part.chunks);
        let end = seq![EventView::PartEnded];
        let w2 = w1.deliver(EventView::FileCreated);
        let w3 = w2.receive_chunks(part.chunks);
        lemma_deliver_one(w1, EventView::FileCreated);
        lemma_deliver_all_concat(w, seq![arrive], seq![EventView::FileCreated]);
        assert(seq![arrive] + seq![EventView::FileCreated] == head);
        lemma_receive_chunks_is_delivery(w2, part.chunks);
        lemma_deliver_one(w3, EventView::PartEnded);
        lemma_deliver_all_concat(w, head, middle);
        lemma_deliver_all_concat(w, head + middle, end);
    }
}

/// Receiving parts is delivering their events one by one.
pub proof fn lemma_receive_parts_is_delivery(w: World, parts: Seq<PartView>)
    ensures
        w.receive_parts(parts) == w.deliver_all(events_of_parts(parts)),
    decreases parts.len(),
{
    if parts.len() > 0 {
        let w1 = w.receive_part(parts.first());
        lemma_receive_part_is_delivery(w, parts.first());
        lemma_receive_parts_is_delivery(w1, parts.drop_first());
        lemma_deliver_all_concat(
            w,
            events_of_part(parts.first()),
            events_of_parts(parts.drop_first()),
        );
    }
}

/// Serving a request is delivering the events that a driver reports of it
/// when every operation succeeds, one by one.
pub proof fn lemma_serve_is_delivery(w: World, parts: Seq<PartView>)
    ensures
        w.serve(parts) == w.deliver_all(events_of_request(parts)),
{
    let w1 = w.receive_parts(parts);
    lemma_receive_parts_is_delivery(w, parts);
    lemma_deliver_one(w1, EventView::NoMoreParts);
    lemma_deliver_all_concat(w, events_of_parts(parts), seq![EventView::NoMoreParts]);
}

/// While the chunks of a part arrive, each is handed out for writing once,
/// in the order of arrival, and appended to the part's file. No other file
/// changes, and the pipeline is afterwards where it was before.
pub proof fn lemma_receive_chunks(w: World, path: Seq<char>, chunks: Seq<Seq<u8>>)
    requires
        w.pipeline.phase == (PhaseView::AwaitingChunk { path }),
        w.files.dom().contains(path),
    ensures
        w.receive_chunks(chunks).pipeline == w.pipeline,
        w.receive_chunks(chunks).files == w.files.insert(path, w.files[path] + chunks.flatten()),
        writes_of(w.receive_chunks(chunks).log) == writes_of(w.log) + chunks,
    decreases chunks.len(),
{
    if chunks.len() > 0 {
        let bytes = chunks.first();
        let rest = chunks.drop_first();
        let w1 = w.deliver(EventView::Chunk { bytes });
        lemma_writes_of_push(w.log, ActionView::Write { bytes });
        let w2 = w1.deliver(EventView::Written);
        lemma_writes_of_push(w1.log, ActionView::ReadChunk);
        lemma_receive_chunks(w2, path, rest);
        assert((w.files[path] + bytes) + rest.flatten() == w.files[path] + chunks.flatten());
        assert(writes_of(w.log).push(bytes) + rest == writes_of(w.log) + chunks);
    } else {
        assert(w.files[path] + chunks.flatten() == w.files[path]);
        assert(w.files.insert(path, w.files[path]) == w.files);
    }
}

/// A part on which every operation succeeds ends as its name decides. With
/// a plain name it is stored: afterwards its file holds the part's chunks,
/// joined in the order of arrival, and nothing else, and each chunk was
/// handed out for writing once. With another name it is refused: no file
/// has changed and nothing was handed out for writing. Either way the
/// outcome is recorded and the pipeline waits for the next part.
pub proof fn lemma_receive_part(w: World, part: PartView)
    requires
        w.pipeline.phase == PhaseView::AwaitingPart,
    ensures
        w.receive_part(part).pipeline == (PipelineView {
            dir: w.pipeline.dir,
            phase: PhaseView::AwaitingPart,
            outcomes: w.pipeline.outcomes.push(part.outcome()),
        }),
        w.receive_part(part).files == files_after_part(w.files, w.pipeline.dir, part),
        writes_of(w.receive_part(part).log) == writes_of(w.log) + if part.is_plain() {
            part.chunks
        } else {
            Seq::empty()
        },
{
    let w1 = w.deliver(EventView::Part { filename: part.filename });
    if part.is_plain() {
        let path = path_in(w.pipeline.dir, part.name());
        lemma_writes_of_push(w.log, ActionView::CreateFile { path });
        let w2 = w1.deliver(EventView::FileCreated);
        lemma_writes_of_push(w1.log, ActionView::ReadChunk);
        lemma_receive_chunks(w2, path, part.chunks);
        let w3 = w2.receive_chunks(part.chunks);
        lemma_writes_of_push(
            w3.log,
            ActionView::FinishPart { path, outcome: PartOutcome::Stored },
        );
        assert(Seq::<u8>::empty() + part.chunks.flatten() == part.chunks.flatten());
        assert(w3.files == w.files.insert(path, part.chunks.flatten()));
    } else {
        lemma_writes_of_push(w.log, ActionView::RefusePart { reason: Failure::UnsafeName });
        assert(writes_of(w.log) + Seq::<Seq<u8>>::empty() == writes_of(w.log));
    }
}

/// Parts on which every operation succeeds are handled one after the other.
pub proof fn lemma_receive_parts(w: World, parts: Seq<PartView>)
    requires
        w.pipeline.phase == PhaseView::AwaitingPart,
    ensures
        w.receive_parts(parts).pipeline == (PipelineView {
            dir: w.pipeline.dir,
            phase: PhaseView::AwaitingPart,
            outcomes: w.pipeline.outcomes + outcomes_of(parts),
        }),
        w.receive_parts(parts).files == files_after_upload(w.files, w.pipeline.dir, parts),
        writes_of(w.receive_parts(parts).log) == writes_of(w.log) + chunks_of(parts),
    decreases parts.len(),
{
    if parts.len() > 0 {
        let first = parts.first();
        let rest = parts.drop_first();
        lemma_receive_part(w, first);
        let w1 = w.receive_part(first);
        lemma_receive_parts(w1, rest);
        assert(w.pipeline.outcomes.push(first.outcome()) + outcomes_of(rest)
            == w.pipeline.outcomes + outcomes_of(parts));
        if first.is_plain() {
            assert((writes_of(w.log) + first.chunks) + chunks_of(rest) == writes_of(w.log)
                + chunks_of(parts));
        } else {
            assert(writes_of(w.log) + Seq::<Seq<u8>>::empty() == writes_of(w.log));
        }
    } else {
        assert(w.pipeline.outcomes + outcomes_of(parts) == w.pipeline.outcomes);
        assert(writes_of(w.log) + chunks_of(parts) == writes_of(w.log));
    }
}

/// What holds of the files, the chunks and the outcomes of a request that
/// holds one part.
pub proof fn lemma_single_part(files: Map<Seq<char>, Seq<u8>>, dir: Seq<char>, part: PartView)
    ensures
        files_after_upload(files, dir, seq![part]) == files_after_part(files, dir, part),
        chunks_of(seq![part]) == if part.is_plain() {
            part.chunks
        } else {
            Seq::empty()
        },
        outcomes_of(seq![part]) == seq![part.outcome()],
{
    let parts = seq![part];
    assert(parts.drop_first() == Seq::<PartView>::empty());
    reveal_with_fuel(files_after_upload, 2);
    reveal_with_fuel(chunks_of, 2);
    assert(part.chunks + Seq::<Seq<u8>>::empty() == part.chunks);
}

/// Delivering an event keeps a sound world sound.
pub proof fn lemma_deliver_keeps_sound(
    w: World,
    dir: Seq<char>,
    before: Map<Seq<char>, Seq<u8>>,
    event: EventView,
)
    requires
        w.sound(dir, before),
    ensures
        w.deliver(event).sound(dir, before),
{
    let after = w.deliver(event);
    if let Some((_, action)) = w.pipeline.transition(event) {
        assert(after.log.drop_last() == w.log);
        assert(after.log.last() == action);
        if let EventView::Part { filename } = event {
            lemma_destination_is_direct_child(dir, filename);
        }
        assert forall|i: int| 0 <= i < after.log.len() - 1 implies !(
        #[trigger] after.log[i] is Respond) by {
            assert(after.log[i] == w.log[i]);
        }
        assert forall|i: int| 0 <= i < after.log.len() implies (
        #[trigger] after.log[i] matches ActionView::CreateFile { path } ==> is_direct_child(
            dir,
            path,
        )) by {
            if i < w.log.len() {
                assert(after.log[i] == w.log[i]);
            }
        }
        assert forall|path: Seq<char>| !is_direct_child(dir, path) implies #[trigger] same_at(
            after.files,
            before,
            path,
        ) by {
            assert(same_at(w.files, before, path));
        }
    }
}

/// Every world that is reached from a sound one is sound.
pub proof fn lemma_reachable_is_sound(
    w: World,
    dir: Seq<char>,
    before: Map<Seq<char>, Seq<u8>>,
    events: Seq<EventView>,
)
    requires
        w.sound(dir, before),
    ensures
        w.deliver_all(events).sound(dir, before),
    decreases events.len(),
{
    if events.len() > 0 {
        lemma_deliver_keeps_sound(w, dir, before, events.first());
        lemma_reachable_is_sound(w.deliver(events.first()), dir, before, events.drop_first());
    }
}

} // verus!
