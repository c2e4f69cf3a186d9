use vstd::prelude::*;
use vstd::utf8::*;

verus! {

/// The size of the buffer that a reader pump reads into: a chunk holds at most this many bytes.
pub const CHUNK_SIZE: usize = 8192;

/// What one read from the pseudo-terminal gave.
pub enum ReadOutcome<'a> {
    /// The bytes that were read; none when the stream has closed.
    Bytes(&'a [u8]),
    /// The read failed.
    Failed,
}

/// A read after decoding: either text to publish, or the end of the stream.
#[derive(Debug, PartialEq, Eq)]
pub enum Chunk {
    Text(String),
    End,
}

/// A notification for the consumer of a session's output.
#[derive(Clone, Debug, PartialEq, Eq)]
pub enum TerminalEvent {
    /// Output of the session's shell, one chunk of it.
    Data { id: String, data: String },
    /// The session's output has ended.
    Exit { id: String },
}

/// A [`Chunk`] as plain text.
pub enum ChunkView {
    Text(Seq<char>),
    End,
}

/// A [`TerminalEvent`] as plain text.
pub enum EventView {
    Data { id: Seq<char>, data: Seq<char> },
    Exit { id: Seq<char> },
}

impl View for Chunk {
    type V = ChunkView;

    open spec fn view(&self) -> ChunkView {
        match self {
            Chunk::Text(text) => ChunkView::Text(text@),
            Chunk::End => ChunkView::End,
        }
    }
}

impl View for TerminalEvent {
    type V = EventView;

    open spec fn view(&self) -> EventView {
        match self {
            TerminalEvent::Data { id, data } => EventView::Data { id: id@, data: data@ },
            TerminalEvent::Exit { id } => EventView::Exit { id: id@ },
        }
    }
}

impl EventView {
    /// The session that the event belongs to.
    pub open spec fn session(self) -> Seq<char> {
        match self {
            EventView::Data { id, .. } => id,
            EventView::Exit { id } => id,
        }
    }
}

/// The name under which an event is published.
pub open spec fn event_name(event: EventView) -> Seq<char> {
    match event {
        EventView::Data { .. } => "terminal-data"@,
        EventView::Exit { .. } => "terminal-exit"@,
    }
}

impl TerminalEvent {
    /// The name under which the event is published.
    pub fn name(&self) -> (name: &'static str)
        ensures
            name@ == event_name(self@),
    {
        match self {
            TerminalEvent::Data { .. } => "terminal-data",
            TerminalEvent::Exit { .. } => "terminal-exit",
        }
    }

    /// The identifier of the session that the event belongs to.
    pub fn id(&self) -> (id: &String)
        ensures
            id@ == self@.session(),
    {
        match self {
            TerminalEvent::Data { id, .. } => id,
            TerminalEvent::Exit { id } => id,
        }
    }
}

/// The text that `String::from_utf8_lossy` makes of `bytes`.
pub uninterp spec fn lossy_text(bytes: Seq<u8>) -> Seq<char>;

/// Decodes `bytes` as UTF-8, with U+FFFD in place of what is not UTF-8: `String::from_utf8_lossy`.
///
/// Trusted: the result is a function of the bytes alone, named [`lossy_text`]. Of that text
/// only this is claimed: bytes that are valid UTF-8 decode to the text they encode.
#[verifier::external_body]
fn decode_lossy(bytes: &[u8]) -> (text: String)
    ensures
        text@ == lossy_text(bytes@),
        valid_utf8(bytes@) ==> text@ == decode_utf8(bytes@),
{
    String::from_utf8_lossy(bytes).into_owned()
}

/// What a read stands for: a read of no bytes and a failed read both end the stream, and
/// any other read is text, decoded with substitution.
pub open spec fn chunk_of(bytes: Option<Seq<u8>>) -> ChunkView {
    match bytes {
        Some(b) => if b.len() == 0 {
            ChunkView::End
        } else {
            ChunkView::Text(lossy_text(b))
        },
        None => ChunkView::End,
    }
}

impl<'a> ReadOutcome<'a> {
    /// The bytes of a read that succeeded.
    pub open spec fn bytes(self) -> Option<Seq<u8>> {
        match self {
            ReadOutcome::Bytes(b) => Some(b@),
            ReadOutcome::Failed => None,
        }
    }

    /// Decodes a read into the chunk it stands for.
    pub fn decode(self) -> (chunk: Chunk)
        ensures
            chunk@ == chunk_of(self.bytes()),
            match self.bytes() {
                Some(b) => b.len() > 0 && valid_utf8(b) ==> chunk@ == ChunkView::Text(
                    decode_utf8(b),
                ),
                None => true,
            },
    {
        match self {
            ReadOutcome::Bytes(b) => {
                if b.len() == 0 {
                    Chunk::End
                } else {
                    Chunk::Text(decode_lossy(b))
                }
            },
            ReadOutcome::Failed => Chunk::End,
        }
    }
}

/// The reader pump of one session, seen as plain values.
pub struct PumpView {
    pub id: Seq<char>,
    pub finished: bool,
}

/// One step of a pump: the state it moves to and the event it publishes, if any.
///
/// A running pump publishes each text as a data event and stays running; at the end of the
/// stream it publishes the exit event and finishes. A finished pump publishes nothing.
pub open spec fn step(pump: PumpView, chunk: ChunkView) -> (PumpView, Option<EventView>) {
    if pump.finished {
        (pump, None)
    } else {
        match chunk {
            ChunkView::Text(data) => (pump, Some(EventView::Data { id: pump.id, data })),
            ChunkView::End => (
                PumpView { finished: true, ..pump },
                Some(EventView::Exit { id: pump.id }),
            ),
        }
    }
}

/// The state of a pump after a sequence of chunks.
pub open spec fn state_after(pump: PumpView, chunks: Seq<ChunkView>) -> PumpView
    decreases chunks.len(),
{
    if chunks.len() == 0 {
        pump
    } else {
        step(state_after(pump, chunks.drop_last()), chunks.last()).0
    }
}

/// The events that a pump publishes over a sequence of chunks, in the order of publication.
pub open spec fn published(pump: PumpView, chunks: Seq<ChunkView>) -> Seq<EventView>
    decreases chunks.len(),
{
    if chunks.len() == 0 {
        Seq::empty()
    } else {
        let before = published(pump, chunks.drop_last());
        match step(state_after(pump, chunks.drop_last()), chunks.last()).1 {
            Some(event) => before.push(event),
            None => before,
        }
    }
}

/// The reader pump of one session: it turns what is read from the pseudo-terminal into the
/// session's events.
pub struct Pump {
    id: String,
    finished: bool,
}

impl View for Pump {
    type V = PumpView;

    closed spec fn view(&self) -> PumpView {
        PumpView { id: self.id@, finished: self.finished }
    }
}

impl Pump {
    /// A running pump for the session `id`.
    pub fn new(id: String) -> (pump: Pump)
        ensures
            pump@ == (PumpView { id: id@, finished: false }),
    {
        Pump { id, finished: false }
    }

    /// The identifier of the pump's session.
    pub fn id(&self) -> (id: &String)
        ensures
            id@ == self@.id,
    {
        &self.id
    }

    /// Whether the pump has published its exit event.
    pub fn is_finished(&self) -> (finished: bool)
        ensures
            finished == self@.finished,
    {
        self.finished
    }

    /// Takes one decoded chunk and gives the event to publish for it, if any.
    pub fn advance(&mut self, chunk: Chunk) -> (event: Option<TerminalEvent>)
        ensures
            final(self)@ == step(old(self)@, chunk@).0,
            match event {
                Some(e) => step(old(self)@, chunk@).1 == Some(e@),
                None => step(old(self)@, chunk@).1 is None,
            },
    {
        if self.finished {
            return None;
        }
        match chunk {
            Chunk::Text(data) => Some(TerminalEvent::Data { id: self.id.clone(), data }),
            Chunk::End => {
                self.finished = true;
                Some(TerminalEvent::Exit { id: self.id.clone() })
            },
        }
    }

    /// Takes the outcome of one read and gives the event to publish for it, if any.
    pub fn on_read(&mut self, read: ReadOutcome<'_>) -> (event: Option<TerminalEvent>)
        ensures
            final(self)@ == step(old(self)@, chunk_of(read.bytes())).0,
            match event {
                Some(e) => step(old(self)@, chunk_of(read.bytes())).1 == Some(e@),
                None => step(old(self)@, chunk_of(read.bytes())).1 is None,
            },
            match read.bytes() {
                Some(b) => !old(self)@.finished && b.len() > 0 && valid_utf8(b) ==> (
                event matches Some(TerminalEvent::Data { data, .. }) && encode_utf8(data@) == b),
                None => true,
            },
    {
        let ghost bytes = read.bytes();
        let chunk = read.decode();
        proof {
            if let Some(b) = bytes {
                if valid_utf8(b) {
                    decode_utf8_encode_utf8(b);
                }
            }
        }
        self.advance(chunk)
    }
}

/// A pump keeps its session, and one that has finished stays finished and publishes nothing
/// more, whatever it is given.
pub proof fn finished_pump_is_silent(pump: PumpView, chunks: Seq<ChunkView>)
    ensures
        state_after(pump, chunks).id == pump.id,
        pump.finished ==> state_after(pump, chunks) == pump,
        pump.finished ==> published(pump, chunks) == Seq::<EventView>::empty(),
    decreases chunks.len(),
{
    if chunks.len() > 0 {
        finished_pump_is_silent(pump, chunks.drop_last());
    }
}

/// Every event of a pump names the pump's own session.
pub proof fn events_name_their_session(pump: PumpView, chunks: Seq<ChunkView>)
    ensures
        forall|i: int|
            0 <= i < published(pump, chunks).len() ==> (#[trigger] published(pump, chunks)[i]).session()
                == pump.id,
    decreases chunks.len(),
{
    if chunks.len() > 0 {
        let earlier = chunks.drop_last();
        events_name_their_session(pump, earlier);
        finished_pump_is_silent(pump, earlier);
        let before = published(pump, earlier);
        let events = published(pump, chunks);
        assert forall|i: int| 0 <= i < events.len() implies (#[trigger] events[i]).session()
            == pump.id by {
            if i < before.len() {
                assert(events[i] == before[i]);
            }
        }
    }
}

/// The exit event is published at most once, and nothing is published after it: an exit
/// event is the last event, and it is published exactly when the pump finishes.
pub proof fn exit_is_last_and_only(pump: PumpView, chunks: Seq<ChunkView>)
    ensures
        forall|i: int|
            0 <= i < published(pump, chunks).len() && #[trigger] published(pump, chunks)[i] is Exit
                ==> i == published(pump, chunks).len() - 1,
        forall|i: int, j: int|
            0 <= i < published(pump, chunks).len() && 0 <= j < published(pump, chunks).len()
                && #[trigger] published(pump, chunks)[i] is Exit && #[trigger] published(
                pump,
                chunks,
            )[j] is Exit ==> i == j,
        !pump.finished ==> (state_after(pump, chunks).finished <==> published(pump, chunks).len() > 0
            && published(pump, chunks).last() is Exit),
    decreases chunks.len(),
{
    if chunks.len() > 0 {
        let earlier = chunks.drop_last();
        exit_is_last_and_only(pump, earlier);
        finished_pump_is_silent(pump, earlier);
        let before = published(pump, earlier);
        let events = published(pump, chunks);
        if !pump.finished && !state_after(pump, earlier).finished {
            assert(events.len() == before.len() + 1);
            assert forall|i: int| 0 <= i < before.len() implies !(#[trigger] events[i] is Exit) by {
                assert(events[i] == before[i]);
            }
        }
    }
}

/// While the stream has not ended, a running pump publishes one data event for each text,
/// in the order of the reads and with the text unchanged, and goes on running.
pub proof fn running_pump_publishes_each_text(pump: PumpView, chunks: Seq<ChunkView>)
    requires
        !pump.finished,
        forall|i: int| 0 <= i < chunks.len() ==> #[trigger] chunks[i] is Text,
    ensures
        state_after(pump, chunks) == pump,
        published(pump, chunks).len() == chunks.len(),
        forall|i: int|
            0 <= i < chunks.len() ==> #[trigger] published(pump, chunks)[i] == (EventView::Data {
                id: pump.id,
                data: chunks[i]->Text_0,
            }),
    decreases chunks.len(),
{
    if chunks.len() > 0 {
        let earlier = chunks.drop_last();
        assert forall|i: int| 0 <= i < earlier.len() implies #[trigger] earlier[i] is Text by {
            assert(earlier[i] == chunks[i]);
        }
        running_pump_publishes_each_text(pump, earlier);
        assert(chunks.last() == chunks[chunks.len() - 1]);
        assert forall|i: int| 0 <= i < chunks.len() implies #[trigger] published(pump, chunks)[i] == (
        EventView::Data { id: pump.id, data: chunks[i]->Text_0 }) by {
            if i < earlier.len() {
                assert(earlier[i] == chunks[i]);
                assert(published(pump, chunks)[i] == published(pump, earlier)[i]);
            }
        }
    }
}

/// Once the stream ends at the read `end`, be it closed or failed, the pump has published
/// the texts read before it, then the exit event, and nothing else, whatever was read after.
pub proof fn stream_ends_with_one_exit(pump: PumpView, chunks: Seq<ChunkView>, end: int)
    requires
        !pump.finished,
        0 <= end < chunks.len(),
        chunks[end] is End,
        forall|i: int| 0 <= i < end ==> #[trigger] chunks[i] is Text,
    ensures
        state_after(pump, chunks) == (PumpView { finished: true, ..pump }),
        published(pump, chunks).len() == end + 1,
        published(pump, chunks)[end] == (EventView::Exit { id: pump.id }),
        forall|i: int|
            0 <= i < end ==> #[trigger] published(pump, chunks)[i] == (EventView::Data {
                id: pump.id,
                data: chunks[i]->Text_0,
            }),
    decreases chunks.len(),
{
    let earlier = chunks.drop_last();
    if end == chunks.len() - 1 {
        assert forall|i: int| 0 <= i < earlier.len() implies #[trigger] earlier[i] is Text by {
            assert(earlier[i] == chunks[i]);
        }
        running_pump_publishes_each_text(pump, earlier);
        assert(chunks.last() == chunks[end]);
        assert forall|i: int| 0 <= i < end implies #[trigger] published(pump, chunks)[i] == (
        EventView::Data { id: pump.id, data: chunks[i]->Text_0 }) by {
            assert(earlier[i] == chunks[i]);
            assert(published(pump, chunks)[i] == published(pump, earlier)[i]);
        }
    } else {
        assert(earlier[end] == chunks[end]);
        assert forall|i: int| 0 <= i < end implies #[trigger] earlier[i] is Text by {
            assert(earlier[i] == chunks[i]);
        }
        stream_ends_with_one_exit(pump, earlier, end);
        assert(published(pump, chunks) == published(pump, earlier));
        assert forall|i: int| 0 <= i < end implies #[trigger] published(pump, chunks)[i] == (
        EventView::Data { id: pump.id, data: chunks[i]->Text_0 }) by {
            assert(earlier[i] == chunks[i]);
        }
    }
}

} // verus!
