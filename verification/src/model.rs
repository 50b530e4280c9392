//! A model of the surroundings of a handler: the flat storage, the body of
//! an upload, and the client that receives a stream.
//!
//! The model carries out each [`Command`] as a storage that never fails
//! would, and reports the [`Event`] that follows.  Running a handler against
//! it says what a request does to the stored files.

use vstd::prelude::*;
use crate::exchange::{is_final, next, start, Command, Event, Request, State};

verus! {

/// One part of a multi-part body.
pub struct Part {
    /// The file name that the part carries, if any.
    pub filename: Option<Seq<char>>,
    /// The part's bytes, in the pieces in which they arrive.
    pub chunks: Seq<Seq<u8>>,
}

/// The surroundings of a handler.
pub struct World {
    /// The stored files, by name.
    pub files: Map<Seq<char>, Seq<u8>>,
    /// The parts of the body that have not been begun.
    pub parts: Seq<Part>,
    /// Whether the body cannot be read on after those parts, in place of
    /// ending there.
    pub broken: bool,
    /// The chunks of the part begun last that have not arrived yet.
    pub body: Seq<Seq<u8>>,
    /// The file that is open for streaming.
    pub open: Seq<char>,
    /// How many bytes of the open file have been read.
    pub cursor: nat,
    /// How many bytes the transport reads at a time.
    pub chunk_size: nat,
    /// The bytes that have been sent on to the client.
    pub sent: Seq<u8>,
    /// Whether names are cleaned by the rules for Windows names too.
    pub windows: bool,
}

/// The chunks of a body, one after the other.
pub open spec fn joined(chunks: Seq<Seq<u8>>) -> Seq<u8>
    decreases chunks.len(),
{
    if chunks.len() == 0 {
        Seq::empty()
    } else {
        chunks[0] + joined(chunks.drop_first())
    }
}

/// Takes the next chunk of the part that is being received.
pub open spec fn take_chunk(w: World) -> (World, Event<Seq<char>, Seq<u8>>) {
    if w.body.len() == 0 {
        (w, Event::ChunksEnded)
    } else {
        (World { body: w.body.drop_first(), ..w }, Event::Chunk(w.body[0]))
    }
}

/// Reads the next chunk of the open file.
pub open spec fn read_chunk(w: World) -> (World, Event<Seq<char>, Seq<u8>>) {
    if !w.files.contains_key(w.open) {
        (w, Event::ReadFailed)
    } else if w.cursor >= w.files[w.open].len() {
        (w, Event::ChunksEnded)
    } else {
        let data = w.files[w.open];
        let end = if w.cursor + w.chunk_size < data.len() {
            w.cursor + w.chunk_size
        } else {
            data.len()
        };
        (World { cursor: end, ..w }, Event::Chunk(data.subrange(w.cursor as int, end as int)))
    }
}

/// Carries out a command and reports what came of it.
pub open spec fn react(w: World, c: Command<Seq<char>, Seq<u8>>) -> (
    World,
    Event<Seq<char>, Seq<u8>>,
) {
    match c {
        Command::NextPart => if w.parts.len() == 0 {
            if w.broken {
                (w, Event::PartFailed)
            } else {
                (w, Event::NoMoreParts)
            }
        } else {
            (
                World { parts: w.parts.drop_first(), body: w.parts[0].chunks, ..w },
                Event::Part(w.parts[0].filename),
            )
        },
        Command::Probe(n) => (w, Event::Exists(w.files.contains_key(n))),
        Command::Create(n) => take_chunk(World { files: w.files.insert(n, Seq::empty()), ..w }),
        Command::Append(n, data) => if w.files.contains_key(n) {
            take_chunk(World { files: w.files.insert(n, w.files[n] + data), ..w })
        } else {
            (w, Event::WriteFailed)
        },
        Command::Load(n) => if w.files.contains_key(n) {
            (w, Event::Loaded(w.files[n]))
        } else {
            (w, Event::ReadFailed)
        },
        Command::Open(n) => if w.files.contains_key(n) {
            (World { open: n, cursor: 0, ..w }, Event::Opened)
        } else {
            (w, Event::ReadFailed)
        },
        Command::BeginStream(_) => read_chunk(w),
        Command::Forward(data) => read_chunk(World { sent: w.sent + data, ..w }),
        Command::Remove(n) => if w.files.contains_key(n) {
            (World { files: w.files.remove(n), ..w }, Event::Removed)
        } else {
            (w, Event::RemoveFailed)
        },
        Command::Reply(_) => (w, Event::NoMoreParts),
        Command::EndStream => (w, Event::NoMoreParts),
        Command::AbortStream => (w, Event::NoMoreParts),
    }
}

/// Runs a handler against the model for at most `fuel` commands: the model
/// at the end, and the command that the handler stopped at.
pub open spec fn run(
    w: World,
    state: State<Seq<char>>,
    command: Command<Seq<char>, Seq<u8>>,
    fuel: nat,
) -> (World, Command<Seq<char>, Seq<u8>>)
    decreases fuel,
{
    if is_final(command) || fuel == 0 {
        (w, command)
    } else {
        let (w1, event) = react(w, command);
        let (s1, c1) = next(state, event, w.windows);
        run(w1, s1, c1, (fuel - 1) as nat)
    }
}

/// Handles a request against the model.
pub open spec fn handle(w: World, request: Request<Seq<char>>, fuel: nat) -> (
    World,
    Command<Seq<char>, Seq<u8>>,
) {
    let (state, command) = start(request, w.windows);
    run(w, state, command, fuel)
}

} // verus!
