//! The request handlers as one state machine.
//!
//! A handler never touches the payload, the socket or the storage itself.
//! It is started with a [`Request`] and answers with a [`Command`] for its
//! surroundings to carry out; what came of the command is reported back as an
//! [`Event`], and so on until the command is a final one.

use vstd::prelude::*;
use crate::name::{accepted, clean, last_component, target_name, SanitizedName};
use crate::response::Response;

verus! {

/// What the client asks for.  `T` is the type of a text.
#[derive(Debug)]
pub enum Request<T> {
    /// Store the parts of a multi-part body.
    Upload,
    /// Send a file in one piece.
    Download(T),
    /// Send a file chunk by chunk.
    DownloadChunked(T),
    /// Remove a file.
    Delete(T),
}

/// What a name is looked up for.
#[derive(Clone, Copy, Debug, PartialEq, Eq, Structural)]
pub enum Intent {
    Store,
    Fetch,
    FetchChunked,
    Remove,
}

/// Where a handler stands.  `N` is the type of a file name.
#[derive(Debug)]
pub enum State<N> {
    /// Waiting for the next part of an upload.
    AwaitingPart,
    /// Waiting to learn whether the file exists.
    Probing(Intent, N),
    /// Storing the body of a part.
    Receiving(N),
    /// Waiting for the whole file.
    Loading(N),
    /// Waiting for the file to be opened.
    Opening(N),
    /// Passing the file on chunk by chunk.
    Streaming(N),
    /// Waiting for the file to be removed.
    Removing(N),
    /// Nothing more to do.
    Finished,
}

/// What the surroundings report.  `T` is a text, `B` a body of bytes.
#[derive(Debug)]
pub enum Event<T, B> {
    /// The next part of the body, with the file name it carries, if any.
    Part(Option<T>),
    /// The body has ended: it has no further part.
    NoMoreParts,
    /// The body could not be read on as a sequence of parts.
    PartFailed,
    /// Whether the file exists.
    Exists(bool),
    /// The next chunk of the part's body or of the open file.
    Chunk(B),
    /// The part's body or the open file has ended.
    ChunksEnded,
    /// The part's body could not be received.
    ChunkFailed,
    /// The file could not be created or appended to.
    WriteFailed,
    /// The whole file.
    Loaded(B),
    /// The file is open.
    Opened,
    /// The file could not be opened or read.
    ReadFailed,
    /// The file is gone.
    Removed,
    /// The file could not be removed.
    RemoveFailed,
    /// The command is not one that the surroundings can carry out.
    Refused,
}

/// What the handler wants done.  `N` is a file name, `B` a body of bytes.
#[derive(Debug)]
pub enum Command<N, B> {
    /// Take the next part of the body; report `Part`, `NoMoreParts` or
    /// `PartFailed`.
    NextPart,
    /// Look whether the file exists; report `Exists`.
    Probe(N),
    /// Create the file, empty, then take the first chunk of the part; report
    /// `Chunk`, `ChunksEnded`, `ChunkFailed` or `WriteFailed`.
    Create(N),
    /// Append the bytes to the file, then take the next chunk; report as for
    /// `Create`.
    Append(N, B),
    /// Read the whole file; report `Loaded` or `ReadFailed`.
    Load(N),
    /// Open the file for reading; report `Opened` or `ReadFailed`.
    Open(N),
    /// Answer 200 with a chunked body, then read the first chunk of the open
    /// file; report `Chunk`, `ChunksEnded` or `ReadFailed`.
    BeginStream(N),
    /// Send the chunk on, then read the next one; report as for `BeginStream`.
    Forward(B),
    /// Remove the file; report `Removed` or `RemoveFailed`.
    Remove(N),
    /// Final: answer the request.
    Reply(Response<B>),
    /// Final: end the chunked body in good order.
    EndStream,
    /// Final: break the chunked body off; the status has already been sent.
    AbortStream,
}

impl View for Request<String> {
    type V = Request<Seq<char>>;

    open spec fn view(&self) -> Request<Seq<char>> {
        match *self {
            Request::Upload => Request::Upload,
            Request::Download(t) => Request::Download(t@),
            Request::DownloadChunked(t) => Request::DownloadChunked(t@),
            Request::Delete(t) => Request::Delete(t@),
        }
    }
}

impl View for State<SanitizedName> {
    type V = State<Seq<char>>;

    open spec fn view(&self) -> State<Seq<char>> {
        match *self {
            State::AwaitingPart => State::AwaitingPart,
            State::Probing(i, n) => State::Probing(i, n@),
            State::Receiving(n) => State::Receiving(n@),
            State::Loading(n) => State::Loading(n@),
            State::Opening(n) => State::Opening(n@),
            State::Streaming(n) => State::Streaming(n@),
            State::Removing(n) => State::Removing(n@),
            State::Finished => State::Finished,
        }
    }
}

impl View for Event<String, Vec<u8>> {
    type V = Event<Seq<char>, Seq<u8>>;

    open spec fn view(&self) -> Event<Seq<char>, Seq<u8>> {
        match *self {
            Event::Part(Some(t)) => Event::Part(Some(t@)),
            Event::Part(None) => Event::Part(None),
            Event::NoMoreParts => Event::NoMoreParts,
            Event::PartFailed => Event::PartFailed,
            Event::Exists(b) => Event::Exists(b),
            Event::Chunk(b) => Event::Chunk(b@),
            Event::ChunksEnded => Event::ChunksEnded,
            Event::ChunkFailed => Event::ChunkFailed,
            Event::WriteFailed => Event::WriteFailed,
            Event::Loaded(b) => Event::Loaded(b@),
            Event::Opened => Event::Opened,
            Event::ReadFailed => Event::ReadFailed,
            Event::Removed => Event::Removed,
            Event::RemoveFailed => Event::RemoveFailed,
            Event::Refused => Event::Refused,
        }
    }
}

impl View for Command<SanitizedName, Vec<u8>> {
    type V = Command<Seq<char>, Seq<u8>>;

    open spec fn view(&self) -> Command<Seq<char>, Seq<u8>> {
        match *self {
            Command::NextPart => Command::NextPart,
            Command::Probe(n) => Command::Probe(n@),
            Command::Create(n) => Command::Create(n@),
            Command::Append(n, b) => Command::Append(n@, b@),
            Command::Load(n) => Command::Load(n@),
            Command::Open(n) => Command::Open(n@),
            Command::BeginStream(n) => Command::BeginStream(n@),
            Command::Forward(b) => Command::Forward(b@),
            Command::Remove(n) => Command::Remove(n@),
            Command::Reply(r) => Command::Reply(r@),
            Command::EndStream => Command::EndStream,
            Command::AbortStream => Command::AbortStream,
        }
    }
}

/// A step of a handler: where it stands afterwards, and what it wants done.
pub type Step = (State<Seq<char>>, Command<Seq<char>, Seq<u8>>);

/// Whether a command ends the handling of a request.
pub open spec fn is_final(c: Command<Seq<char>, Seq<u8>>) -> bool {
    c is Reply || c is EndStream || c is AbortStream
}

/// The step that ends a request with an answer.
pub open spec fn finish(r: Response<Seq<u8>>) -> Step {
    (State::Finished, Command::Reply(r))
}

/// The step taken once the last component of a name has been cleaned: a
/// text that is not a safe name ends the request with `InvalidName`; for a
/// safe name the handler asks whether the file exists.
pub open spec fn lookup(intent: Intent, cleaned: Seq<char>) -> Step {
    match accepted(cleaned) {
        Ok(n) => (State::Probing(intent, n), Command::Probe(n)),
        Err(_) => finish(Response::InvalidName),
    }
}

/// The step taken on learning whether the file exists.
pub open spec fn probed(intent: Intent, name: Seq<char>, exists: bool) -> Step {
    match intent {
        Intent::Store => if exists {
            finish(Response::AlreadyExists)
        } else {
            (State::Receiving(name), Command::Create(name))
        },
        Intent::Fetch => if exists {
            (State::Loading(name), Command::Load(name))
        } else {
            finish(Response::NotFound)
        },
        Intent::FetchChunked => if exists {
            (State::Opening(name), Command::Open(name))
        } else {
            finish(Response::NotFound)
        },
        Intent::Remove => if exists {
            (State::Removing(name), Command::Remove(name))
        } else {
            finish(Response::NotFound)
        },
    }
}

/// The first step of a handler.
///
/// An upload begins by asking for the first part.  Every other request
/// carries a name; its last component is cleaned and looked up.
pub open spec fn start(request: Request<Seq<char>>, windows: bool) -> Step {
    match request {
        Request::Upload => (State::AwaitingPart, Command::NextPart),
        Request::Download(raw) => lookup(Intent::Fetch, target_name(raw, windows)),
        Request::DownloadChunked(raw) => lookup(Intent::FetchChunked, target_name(raw, windows)),
        Request::Delete(raw) => lookup(Intent::Remove, target_name(raw, windows)),
    }
}

/// The step that a handler takes on an event.
///
/// A part without a file name ends the upload with `InvalidName`; the file
/// name of any other part is cleaned and looked up like the name of any
/// other request.  A body that cannot be read on as a sequence of parts ends
/// the upload with `Malformed`.  An event that the handler has not asked for
/// ends the request: with `OutOfTurn`, or by breaking the stream off where
/// one has begun.
pub open spec fn next(
    state: State<Seq<char>>,
    event: Event<Seq<char>, Seq<u8>>,
    windows: bool,
) -> Step {
    match (state, event) {
        (State::AwaitingPart, Event::Part(None)) => finish(Response::InvalidName),
        (State::AwaitingPart, Event::Part(Some(raw))) => lookup(
            Intent::Store,
            target_name(raw, windows),
        ),
        (State::AwaitingPart, Event::NoMoreParts) => finish(Response::Uploaded),
        (State::AwaitingPart, Event::PartFailed) => finish(Response::Malformed),
        (State::Probing(intent, name), Event::Exists(exists)) => probed(intent, name, exists),
        (State::Receiving(name), Event::Chunk(data)) => (
            State::Receiving(name),
            Command::Append(name, data),
        ),
        (State::Receiving(_), Event::ChunksEnded) => (State::AwaitingPart, Command::NextPart),
        (State::Receiving(_), Event::ChunkFailed) => finish(Response::WriteFailed),
        (State::Receiving(_), Event::WriteFailed) => finish(Response::WriteFailed),
        (State::Loading(_), Event::Loaded(data)) => finish(Response::File(data)),
        (State::Loading(_), Event::ReadFailed) => finish(Response::ReadFailed),
        (State::Opening(name), Event::Opened) => (
            State::Streaming(name),
            Command::BeginStream(name),
        ),
        (State::Opening(_), Event::ReadFailed) => finish(Response::ReadFailed),
        (State::Streaming(name), Event::Chunk(data)) => (
            State::Streaming(name),
            Command::Forward(data),
        ),
        (State::Streaming(_), Event::ChunksEnded) => (State::Finished, Command::EndStream),
        (State::Streaming(_), _) => (State::Finished, Command::AbortStream),
        (State::Removing(_), Event::Removed) => finish(Response::Deleted),
        (State::Removing(_), Event::RemoveFailed) => finish(Response::RemoveFailed),
        _ => finish(Response::OutOfTurn),
    }
}

/// The step taken once a name has been cleaned.
pub fn look_up(intent: Intent, cleaned: String) -> (r: (
    State<SanitizedName>,
    Command<SanitizedName, Vec<u8>>,
))
    ensures
        (r.0@, r.1@) == lookup(intent, cleaned@),
{
    match SanitizedName::from_cleaned(cleaned) {
        Ok(name) => {
            let probe = name.clone();
            (State::Probing(intent, name), Command::Probe(probe))
        },
        Err(_) => (State::Finished, Command::Reply(Response::InvalidName)),
    }
}

/// Starts the handling of a request.
///
/// `windows` says whether names are cleaned by the rules for Windows names
/// too.
pub fn begin(request: Request<String>, windows: bool) -> (r: (
    State<SanitizedName>,
    Command<SanitizedName, Vec<u8>>,
))
    ensures
        (r.0@, r.1@) == start(request@, windows),
{
    match request {
        Request::Upload => (State::AwaitingPart, Command::NextPart),
        Request::Download(raw) => look_up(
            Intent::Fetch,
            clean(last_component(raw.as_str()), windows),
        ),
        Request::DownloadChunked(raw) => look_up(
            Intent::FetchChunked,
            clean(last_component(raw.as_str()), windows),
        ),
        Request::Delete(raw) => look_up(
            Intent::Remove,
            clean(last_component(raw.as_str()), windows),
        ),
    }
}

/// Takes the handler one step on.
///
/// `windows` says whether names are cleaned by the rules for Windows names
/// too.
pub fn step(state: State<SanitizedName>, event: Event<String, Vec<u8>>, windows: bool) -> (r: (
    State<SanitizedName>,
    Command<SanitizedName, Vec<u8>>,
))
    ensures
        (r.0@, r.1@) == next(state@, event@, windows),
{
    match (state, event) {
        (State::AwaitingPart, Event::Part(None)) => reply(Response::InvalidName),
        (State::AwaitingPart, Event::Part(Some(raw))) => look_up(
            Intent::Store,
            clean(last_component(raw.as_str()), windows),
        ),
        (State::AwaitingPart, Event::NoMoreParts) => reply(Response::Uploaded),
        (State::AwaitingPart, Event::PartFailed) => reply(Response::Malformed),
        (State::Probing(intent, name), Event::Exists(exists)) => on_probed(intent, name, exists),
        (State::Receiving(name), Event::Chunk(data)) => {
            let target = name.clone();
            (State::Receiving(name), Command::Append(target, data))
        },
        (State::Receiving(_), Event::ChunksEnded) => (State::AwaitingPart, Command::NextPart),
        (State::Receiving(_), Event::ChunkFailed) => reply(Response::WriteFailed),
        (State::Receiving(_), Event::WriteFailed) => reply(Response::WriteFailed),
        (State::Loading(_), Event::Loaded(data)) => reply(Response::File(data)),
        (State::Loading(_), Event::ReadFailed) => reply(Response::ReadFailed),
        (State::Opening(name), Event::Opened) => {
            let target = name.clone();
            (State::Streaming(name), Command::BeginStream(target))
        },
        (State::Opening(_), Event::ReadFailed) => reply(Response::ReadFailed),
        (State::Streaming(name), Event::Chunk(data)) => (
            State::Streaming(name),
            Command::Forward(data),
        ),
        (State::Streaming(_), Event::ChunksEnded) => (State::Finished, Command::EndStream),
        (State::Streaming(_), _) => (State::Finished, Command::AbortStream),
        (State::Removing(_), Event::Removed) => reply(Response::Deleted),
        (State::Removing(_), Event::RemoveFailed) => reply(Response::RemoveFailed),
        _ => reply(Response::OutOfTurn),
    }
}

/// The step that ends a request with an answer.
fn reply(response: Response<Vec<u8>>) -> (r: (
    State<SanitizedName>,
    Command<SanitizedName, Vec<u8>>,
))
    ensures
        (r.0@, r.1@) == finish(response@),
{
    (State::Finished, Command::Reply(response))
}

/// The step taken on learning whether the file exists.
pub fn on_probed(intent: Intent, name: SanitizedName, exists: bool) -> (r: (
    State<SanitizedName>,
    Command<SanitizedName, Vec<u8>>,
))
    ensures
        (r.0@, r.1@) == probed(intent, name@, exists),
{
    if !exists {
        match intent {
            Intent::Store => {
                let target = name.clone();
                (State::Receiving(name), Command::Create(target))
            },
            _ => reply(Response::NotFound),
        }
    } else {
        let target = name.clone();
        match intent {
            Intent::Store => reply(Response::AlreadyExists),
            Intent::Fetch => (State::Loading(name), Command::Load(target)),
            Intent::FetchChunked => (State::Opening(name), Command::Open(target)),
            Intent::Remove => (State::Removing(name), Command::Remove(target)),
        }
    }
}

} // verus!
