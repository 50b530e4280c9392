//! What the handlers do to the stored files, proved against the model of
//! their surroundings.

use vstd::prelude::*;
use crate::exchange::{is_final, lookup, next, Command, Event, Intent, Request, State};
use crate::model::{handle, joined, run, World};
use crate::name::{base_name, base_name_is_bare, is_cleaned, is_safe_name, target_name};
use crate::response::Response;

verus! {

/// The name of the file that a request for `raw`, or a part with the file
/// name `raw`, is about.
pub open spec fn file_of(w: World, raw: Seq<char>) -> Seq<char> {
    target_name(raw, w.windows)
}

/// The model once the first part of the body has been begun.
pub open spec fn part_begun(w: World) -> World {
    World { parts: w.parts.drop_first(), body: w.parts[0].chunks, ..w }
}

/// The answer that ends an upload whose parts have all been stored.
pub open spec fn closing(w: World) -> Response<Seq<u8>> {
    if w.broken {
        Response::Malformed
    } else {
        Response::Uploaded
    }
}

/// Whether the file that a handler is busy with, if any, has a safe name.
pub open spec fn stays_in_root(state: State<Seq<char>>) -> bool {
    match state {
        State::Probing(_, n) => is_safe_name(n),
        State::Receiving(n) => is_safe_name(n),
        State::Loading(n) => is_safe_name(n),
        State::Opening(n) => is_safe_name(n),
        State::Streaming(n) => is_safe_name(n),
        State::Removing(n) => is_safe_name(n),
        _ => true,
    }
}

/// Whether the file that a command touches, if any, has a safe name.
pub open spec fn touches_root_only(command: Command<Seq<char>, Seq<u8>>) -> bool {
    match command {
        Command::Probe(n) => is_safe_name(n),
        Command::Create(n) => is_safe_name(n),
        Command::Append(n, _) => is_safe_name(n),
        Command::Load(n) => is_safe_name(n),
        Command::Open(n) => is_safe_name(n),
        Command::BeginStream(n) => is_safe_name(n),
        Command::Remove(n) => is_safe_name(n),
        _ => true,
    }
}

/// No handler ever touches a file outside the storage root: whatever the
/// client sends, whatever cleaning makes of it and whatever is reported,
/// every command names a safe name, and the handler goes on with a safe name.
pub proof fn handlers_stay_in_root(
    intent: Intent,
    cleaned: Seq<char>,
    state: State<Seq<char>>,
    event: Event<Seq<char>, Seq<u8>>,
    windows: bool,
)
    requires
        stays_in_root(state),
    ensures
        stays_in_root(lookup(intent, cleaned).0),
        touches_root_only(lookup(intent, cleaned).1),
        stays_in_root(next(state, event, windows).0),
        touches_root_only(next(state, event, windows).1),
{
}

/// A cleaned name is refused exactly where nothing is left of it; any other
/// is probed under that very name.
pub proof fn refusal_means_empty_name(intent: Intent, cleaned: Seq<char>)
    requires
        is_cleaned(cleaned),
    ensures
        is_final(lookup(intent, cleaned).1) <==> cleaned.len() == 0,
        cleaned.len() > 0 ==> lookup(intent, cleaned) == (
            State::Probing(intent, cleaned),
            Command::<Seq<char>, Seq<u8>>::Probe(cleaned),
        ),
{
}

/// Once a stream has begun its status stands: whatever is reported, the
/// handler sends a chunk on, ends the body or breaks it off, and never
/// answers with another status.  A read that fails breaks the body off.
pub proof fn stream_keeps_its_status(
    name: Seq<char>,
    event: Event<Seq<char>, Seq<u8>>,
    windows: bool,
)
    ensures
        !(next(State::Streaming(name), event, windows).1 is Reply),
        event matches Event::Chunk(data) ==> next(State::Streaming(name), event, windows) == (
            State::Streaming(name),
            Command::<Seq<char>, Seq<u8>>::Forward(data),
        ),
        event is ChunksEnded ==> next(State::Streaming(name), event, windows).1 is EndStream,
        !(event is Chunk) && !(event is ChunksEnded) ==> next(
            State::Streaming(name),
            event,
            windows,
        ).1 is AbortStream,
{
}

/// The directories in a name do not matter: a request is handled as the
/// request for the last component of its name is.
pub proof fn directories_are_stripped(w: World, raw: Seq<char>, fuel: nat)
    ensures
        file_of(w, raw) == file_of(w, base_name(raw)),
        handle(w, Request::Download(raw), fuel) == handle(
            w,
            Request::Download(base_name(raw)),
            fuel,
        ),
        handle(w, Request::DownloadChunked(raw), fuel) == handle(
            w,
            Request::DownloadChunked(base_name(raw)),
            fuel,
        ),
        handle(w, Request::Delete(raw), fuel) == handle(w, Request::Delete(base_name(raw)), fuel),
        next(State::AwaitingPart, Event::Part(Some(raw)), w.windows) == next(
            State::AwaitingPart,
            Event::Part(Some(base_name(raw))),
            w.windows,
        ),
{
    base_name_is_bare(raw);
    base_name_is_bare(base_name(raw));
}

/// A handler that is told that its command cannot be carried out wants
/// nothing more done, wherever it stands.
pub proof fn refusal_ends_the_request(state: State<Seq<char>>, windows: bool)
    ensures
        is_final(next(state, Event::Refused, windows).1),
        next(state, Event::Refused, windows).0 is Finished,
{
}

/// A download, buffered or streamed, or a removal of a name that no file
/// has is answered `NotFound` and leaves everything as it was.
pub proof fn absent_is_not_found(w: World, raw: Seq<char>, fuel: nat)
    requires
        is_safe_name(file_of(w, raw)),
        !w.files.contains_key(file_of(w, raw)),
        fuel >= 1,
    ensures
        handle(w, Request::Download(raw), fuel) == (
            w,
            Command::<Seq<char>, Seq<u8>>::Reply(Response::NotFound),
        ),
        handle(w, Request::DownloadChunked(raw), fuel) == (
            w,
            Command::<Seq<char>, Seq<u8>>::Reply(Response::NotFound),
        ),
        handle(w, Request::Delete(raw), fuel) == (
            w,
            Command::<Seq<char>, Seq<u8>>::Reply(Response::NotFound),
        ),
{
    reveal_with_fuel(run, 3);
}

/// A request for a name of which nothing is left is answered `InvalidName`
/// and leaves everything as it was.
pub proof fn empty_name_is_refused(w: World, raw: Seq<char>, fuel: nat)
    requires
        file_of(w, raw).len() == 0,
    ensures
        handle(w, Request::Download(raw), fuel) == (
            w,
            Command::<Seq<char>, Seq<u8>>::Reply(Response::InvalidName),
        ),
        handle(w, Request::DownloadChunked(raw), fuel) == (
            w,
            Command::<Seq<char>, Seq<u8>>::Reply(Response::InvalidName),
        ),
        handle(w, Request::Delete(raw), fuel) == (
            w,
            Command::<Seq<char>, Seq<u8>>::Reply(Response::InvalidName),
        ),
{
    reveal_with_fuel(run, 2);
}

/// An upload whose body cannot be read as a sequence of parts is answered
/// `Malformed`, never `Uploaded`, and leaves everything as it was.
pub proof fn malformed_body_is_refused(w: World, fuel: nat)
    requires
        w.parts.len() == 0,
        w.broken,
        fuel >= 1,
    ensures
        handle(w, Request::Upload, fuel) == (
            w,
            Command::<Seq<char>, Seq<u8>>::Reply(Response::Malformed),
        ),
{
    reveal_with_fuel(run, 3);
}

/// An upload to a name that a file already has is answered `AlreadyExists`;
/// the part has been begun, and nothing else has changed: no stored file
/// has.
pub proof fn upload_to_existing_conflicts(w: World, filename: Seq<char>, fuel: nat)
    requires
        w.parts.len() > 0,
        w.parts[0].filename == Some(filename),
        is_safe_name(file_of(w, filename)),
        w.files.contains_key(file_of(w, filename)),
        fuel >= 2,
    ensures
        handle(w, Request::Upload, fuel) == (
            part_begun(w),
            Command::<Seq<char>, Seq<u8>>::Reply(Response::AlreadyExists),
        ),
        part_begun(w).files == w.files,
{
    reveal_with_fuel(run, 4);
}

/// An upload whose first part has no file name, or one of which nothing safe
/// is left, is answered `InvalidName`; the part has been begun, and nothing
/// else has changed: no stored file has.
pub proof fn upload_without_name_is_refused(w: World, fuel: nat)
    requires
        w.parts.len() > 0,
        w.parts[0].filename matches Some(filename) ==> !is_safe_name(file_of(w, filename)),
        fuel >= 1,
    ensures
        handle(w, Request::Upload, fuel) == (
            part_begun(w),
            Command::<Seq<char>, Seq<u8>>::Reply(Response::InvalidName),
        ),
        part_begun(w).files == w.files,
{
    reveal_with_fuel(run, 3);
}

/// Removing a file that is there is answered `Deleted` and changes nothing
/// but that the file is gone; a download of the same name right after it,
/// buffered or streamed, and a second removal are answered `NotFound`.
pub proof fn removed_file_is_not_found(w: World, raw: Seq<char>, fuel: nat)
    requires
        is_safe_name(file_of(w, raw)),
        w.files.contains_key(file_of(w, raw)),
        fuel >= 2,
    ensures
        handle(w, Request::Delete(raw), fuel) == (
            World { files: w.files.remove(file_of(w, raw)), ..w },
            Command::<Seq<char>, Seq<u8>>::Reply(Response::Deleted),
        ),
        handle(handle(w, Request::Delete(raw), fuel).0, Request::Download(raw), fuel).1
            == Command::<Seq<char>, Seq<u8>>::Reply(Response::NotFound),
        handle(handle(w, Request::Delete(raw), fuel).0, Request::DownloadChunked(raw), fuel).1
            == Command::<Seq<char>, Seq<u8>>::Reply(Response::NotFound),
        handle(handle(w, Request::Delete(raw), fuel).0, Request::Delete(raw), fuel).1
            == Command::<Seq<char>, Seq<u8>>::Reply(Response::NotFound),
{
    reveal_with_fuel(run, 4);
    let w1 = World { files: w.files.remove(file_of(w, raw)), ..w };
    assert(handle(w, Request::Delete(raw), fuel).0 == w1);
    absent_is_not_found(w1, raw, fuel);
}

/// A buffered download of a file that is there is answered with its bytes
/// and leaves everything as it was.
pub proof fn download_returns_the_file(w: World, raw: Seq<char>, fuel: nat)
    requires
        is_safe_name(file_of(w, raw)),
        w.files.contains_key(file_of(w, raw)),
        fuel >= 2,
    ensures
        handle(w, Request::Download(raw), fuel) == (
            w,
            Command::<Seq<char>, Seq<u8>>::Reply(Response::File(w.files[file_of(w, raw)])),
        ),
{
    reveal_with_fuel(run, 4);
}

/// The model after the file of `raw` has been streamed to the end: the file
/// is open and read through, and its bytes have been sent after what had
/// been sent before.
pub open spec fn streamed(w: World, raw: Seq<char>) -> World {
    World {
        open: file_of(w, raw),
        cursor: w.files[file_of(w, raw)].len(),
        sent: w.sent + w.files[file_of(w, raw)],
        ..w
    }
}

/// A streamed download of a file that is there ends in good order and has
/// then sent the client exactly the bytes that a buffered download answers
/// with, in order, whatever the file's length and the transport's chunk size;
/// no stored file has changed.
pub proof fn streamed_equals_buffered(w: World, raw: Seq<char>, fuel: nat)
    requires
        is_safe_name(file_of(w, raw)),
        w.files.contains_key(file_of(w, raw)),
        w.chunk_size > 0,
        fuel >= w.files[file_of(w, raw)].len() + 4,
    ensures
        handle(w, Request::DownloadChunked(raw), fuel) == (
            streamed(w, raw),
            Command::<Seq<char>, Seq<u8>>::EndStream,
        ),
        handle(w, Request::Download(raw), fuel) == (
            w,
            Command::<Seq<char>, Seq<u8>>::Reply(Response::File(w.files[file_of(w, raw)])),
        ),
{
    let name = file_of(w, raw);
    download_returns_the_file(w, raw, fuel);
    reveal_with_fuel(run, 3);
    let w1 = World { open: name, cursor: 0, ..w };
    let begin = Command::<Seq<char>, Seq<u8>>::BeginStream(name);
    assert(handle(w, Request::DownloadChunked(raw), fuel) == run(
        w1,
        State::Streaming(name),
        begin,
        (fuel - 2) as nat,
    ));
    lemma_streaming(w1, name, begin, (fuel - 2) as nat);
    assert(w.files[name].subrange(0, w.files[name].len() as int) =~= w.files[name]);
    assert(w.sent + Seq::<u8>::empty() =~= w.sent);
}

/// The model after the one part of the body has been stored as the file of
/// `filename`: the body is used up, the file holds the part's bytes, and
/// nothing else has changed.
pub open spec fn uploaded(w: World, filename: Seq<char>) -> World {
    World {
        files: w.files.insert(file_of(w, filename), joined(w.parts[0].chunks)),
        parts: Seq::empty(),
        body: Seq::empty(),
        ..w
    }
}

/// An upload of one part to a name that no file has stores the part's bytes
/// under the cleaned last component of its file name and changes nothing
/// else.  It is answered `Uploaded` where the body ends after the part, and
/// `Malformed` where it cannot be read on; the file stays as far as it was
/// written.
pub proof fn upload_stores_the_part(w: World, filename: Seq<char>, fuel: nat)
    requires
        w.parts.len() == 1,
        w.parts[0].filename == Some(filename),
        is_safe_name(file_of(w, filename)),
        !w.files.contains_key(file_of(w, filename)),
        fuel >= w.parts[0].chunks.len() + 5,
    ensures
        handle(w, Request::Upload, fuel) == (
            uploaded(w, filename),
            Command::<Seq<char>, Seq<u8>>::Reply(closing(w)),
        ),
{
    let part = w.parts[0];
    let name = file_of(w, filename);
    reveal_with_fuel(run, 3);
    let w1 = part_begun(w);
    let create = Command::<Seq<char>, Seq<u8>>::Create(name);
    assert(handle(w, Request::Upload, fuel) == run(
        w1,
        State::Receiving(name),
        create,
        (fuel - 2) as nat,
    ));
    lemma_receiving(w1, name, create, (fuel - 2) as nat);
    assert(Seq::<u8>::empty() + joined(part.chunks) =~= joined(part.chunks));
    assert(w1.parts =~= Seq::empty());
}

/// After an upload of one part to a name that no file has, a download,
/// buffered or streamed, of any raw name that stands for the same file (the
/// part's own file name is one) hands the part's bytes back.
pub proof fn upload_then_download_round_trips(
    w: World,
    filename: Seq<char>,
    raw: Seq<char>,
    fuel: nat,
)
    requires
        w.parts.len() == 1,
        w.parts[0].filename == Some(filename),
        !w.broken,
        is_safe_name(file_of(w, filename)),
        !w.files.contains_key(file_of(w, filename)),
        file_of(w, raw) == file_of(w, filename),
        w.chunk_size > 0,
        fuel >= w.parts[0].chunks.len() + joined(w.parts[0].chunks).len() + 5,
    ensures
        handle(w, Request::Upload, fuel) == (
            uploaded(w, filename),
            Command::<Seq<char>, Seq<u8>>::Reply(Response::Uploaded),
        ),
        handle(uploaded(w, filename), Request::Download(raw), fuel) == (
            uploaded(w, filename),
            Command::<Seq<char>, Seq<u8>>::Reply(Response::File(joined(w.parts[0].chunks))),
        ),
        handle(uploaded(w, filename), Request::DownloadChunked(raw), fuel) == (
            streamed(uploaded(w, filename), raw),
            Command::<Seq<char>, Seq<u8>>::EndStream,
        ),
        streamed(uploaded(w, filename), raw).sent == w.sent + joined(w.parts[0].chunks),
{
    upload_stores_the_part(w, filename, fuel);
    let w2 = uploaded(w, filename);
    download_returns_the_file(w2, raw, fuel);
    streamed_equals_buffered(w2, raw, fuel);
}

/// The bytes that a command to create or append leaves in the file.
spec fn written(w: World, c: Command<Seq<char>, Seq<u8>>) -> Seq<u8> {
    match c {
        Command::Append(n, data) => w.files[n] + data,
        _ => Seq::empty(),
    }
}

/// Receiving the rest of the last part stores its chunks in order and
/// changes nothing else.
proof fn lemma_receiving(w: World, name: Seq<char>, c: Command<Seq<char>, Seq<u8>>, fuel: nat)
    requires
        w.parts.len() == 0,
        c == Command::<Seq<char>, Seq<u8>>::Create(name) || (c matches Command::Append(n, _)
            && n == name && w.files.contains_key(name)),
        fuel >= w.body.len() + 3,
    ensures
        run(w, State::Receiving(name), c, fuel) == (
            World {
                files: w.files.insert(name, written(w, c) + joined(w.body)),
                body: Seq::empty(),
                ..w
            },
            Command::<Seq<char>, Seq<u8>>::Reply(closing(w)),
        ),
    decreases w.body.len(),
{
    let stored = w.files.insert(name, written(w, c));
    if w.body.len() == 0 {
        reveal_with_fuel(run, 4);
        assert(written(w, c) + joined(w.body) =~= written(w, c));
        assert(w.body =~= Seq::empty());
    } else {
        let w1 = World { files: stored, body: w.body.drop_first(), ..w };
        let c1 = Command::<Seq<char>, Seq<u8>>::Append(name, w.body[0]);
        assert(run(w, State::Receiving(name), c, fuel) == run(
            w1,
            State::Receiving(name),
            c1,
            (fuel - 1) as nat,
        ));
        lemma_receiving(w1, name, c1, (fuel - 1) as nat);
        assert(written(w1, c1) + joined(w1.body) =~= written(w, c) + joined(w.body));
        assert(w1.files.insert(name, written(w1, c1) + joined(w1.body)) =~= w.files.insert(
            name,
            written(w, c) + joined(w.body),
        ));
    }
}

/// The bytes that a command of a stream sends on.
spec fn forwarded(c: Command<Seq<char>, Seq<u8>>) -> Seq<u8> {
    match c {
        Command::Forward(data) => data,
        _ => Seq::empty(),
    }
}

/// Streaming the rest of the open file sends it on in order and changes
/// nothing else.
proof fn lemma_streaming(w: World, name: Seq<char>, c: Command<Seq<char>, Seq<u8>>, fuel: nat)
    requires
        w.open == name,
        w.files.contains_key(name),
        w.cursor <= w.files[name].len(),
        w.chunk_size > 0,
        c == Command::<Seq<char>, Seq<u8>>::BeginStream(name) || c is Forward,
        fuel >= w.files[name].len() - w.cursor + 2,
    ensures
        run(w, State::Streaming(name), c, fuel) == (
            World {
                cursor: w.files[name].len(),
                sent: w.sent + forwarded(c) + w.files[name].subrange(
                    w.cursor as int,
                    w.files[name].len() as int,
                ),
                ..w
            },
            Command::<Seq<char>, Seq<u8>>::EndStream,
        ),
    decreases w.files[name].len() - w.cursor,
{
    let data = w.files[name];
    let sent = w.sent + forwarded(c);
    assert(w.sent + Seq::<u8>::empty() =~= w.sent);
    if w.cursor >= data.len() {
        reveal_with_fuel(run, 3);
        assert(data.subrange(w.cursor as int, data.len() as int) =~= Seq::<u8>::empty());
        assert(sent + Seq::<u8>::empty() =~= sent);
    } else {
        let end = if w.cursor + w.chunk_size < data.len() {
            w.cursor + w.chunk_size
        } else {
            data.len()
        };
        let piece = data.subrange(w.cursor as int, end as int);
        let w1 = World { sent: sent, cursor: end, ..w };
        let c1 = Command::<Seq<char>, Seq<u8>>::Forward(piece);
        assert(run(w, State::Streaming(name), c, fuel) == run(
            w1,
            State::Streaming(name),
            c1,
            (fuel - 1) as nat,
        ));
        lemma_streaming(w1, name, c1, (fuel - 1) as nat);
        assert(sent + piece + data.subrange(end as int, data.len() as int) =~= sent
            + data.subrange(w.cursor as int, data.len() as int));
    }
}

} // verus!
