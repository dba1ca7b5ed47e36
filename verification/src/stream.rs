//! The messages that a build writes to its standard output, one per line.
//!
//! Decoding is the work of `cargo_metadata`. This module turns each decoded
//! message into a value of the crate's own and reads a captured output up to
//! the first line that is no message.

use vstd::prelude::*;

verus! {

/// One line of a build's standard output.
#[derive(Debug)]
pub enum CompilerMessage {
    /// The compiler has something to say; the text is what a person reads.
    Diagnostic(String),
    /// A unit was compiled; these are the files it produced.
    Artifact(Vec<String>),
    /// A message of a kind that a build does not act on.
    Other,
    /// A line that is not a message of any known kind.
    Text,
    /// A line that could not be read as text.
    Unreadable,
}

/// What a [`CompilerMessage`] holds, as mathematical values.
pub enum MessageView {
    Diagnostic(Seq<char>),
    Artifact(Seq<Seq<char>>),
    Other,
    Text,
    Unreadable,
}

impl MessageView {
    /// A line that stops the reading: it is no message of a known kind.
    pub open spec fn is_unrecognized(self) -> bool {
        self is Text || self is Unreadable
    }
}

impl View for CompilerMessage {
    type V = MessageView;

    open spec fn view(&self) -> MessageView {
        match self {
            CompilerMessage::Diagnostic(text) => MessageView::Diagnostic(text@),
            CompilerMessage::Artifact(files) => MessageView::Artifact(
                files@.map_values(|file: String| file@),
            ),
            CompilerMessage::Other => MessageView::Other,
            CompilerMessage::Text => MessageView::Text,
            CompilerMessage::Unreadable => MessageView::Unreadable,
        }
    }
}

/// The views of a list of messages, in order.
pub open spec fn views(messages: Seq<CompilerMessage>) -> Seq<MessageView> {
    messages.map_values(|message: CompilerMessage| message@)
}

/// The number of messages at the head of `messages` that are acted on: those
/// before the first unrecognized line, or all where there is none.
pub open spec fn accepted_len(messages: Seq<MessageView>) -> nat
    decreases messages.len(),
{
    if messages.len() == 0 || messages[0].is_unrecognized() {
        0
    } else {
        1 + accepted_len(messages.drop_first())
    }
}

/// The number of messages that are read from `messages`: those that are
/// acted on and the unrecognized line behind them, where there is one.
pub open spec fn read_len(messages: Seq<MessageView>) -> nat {
    if accepted_len(messages) < messages.len() {
        accepted_len(messages) + 1
    } else {
        messages.len()
    }
}

/// No line of `messages` is unrecognized.
pub open spec fn well_formed(messages: Seq<MessageView>) -> bool {
    forall|i: int| 0 <= i < messages.len() ==> !(#[trigger] messages[i]).is_unrecognized()
}

/// `std::io::Cursor`, which lets bytes in memory be read as a stream.
#[verifier::external_type_specification]
#[verifier::external_body]
#[verifier::reject_recursive_types(T)]
pub struct ExCursor<T>(std::io::Cursor<T>);

/// The iterator of `cargo_metadata` over the messages of a stream.
#[verifier::external_type_specification]
#[verifier::external_body]
#[verifier::reject_recursive_types(R)]
pub struct ExMessageIter<R>(cargo_metadata::MessageIter<R>);

/// The messages that `cargo_metadata::Message::parse_stream` yields on the
/// bytes `stdout`, one for each line, in order: a diagnostic by the text that
/// `cargo_metadata` displays for it, an artifact by its file names, a line
/// that does not decode as a message as `Text`, a line that is not UTF-8 as
/// `Unreadable`, and every other message as `Other`.
pub uninterp spec fn stream_messages(stdout: Seq<u8>) -> Seq<MessageView>;

/// The messages that an open stream has yet to yield.
pub uninterp spec fn pending(
    stream: cargo_metadata::MessageIter<std::io::Cursor<Vec<u8>>>,
) -> Seq<MessageView>;

/// Calls `cargo_metadata::Message::parse_stream` on the captured bytes. The
/// stream that comes back has all the messages of `stdout` before it.
#[verifier::external_body]
fn open_stream(stdout: Vec<u8>) -> (stream: cargo_metadata::MessageIter<std::io::Cursor<Vec<u8>>>)
    ensures
        pending(stream) == stream_messages(stdout@),
{
    cargo_metadata::Message::parse_stream(std::io::Cursor::new(stdout))
}

/// Calls `next` on the stream of `cargo_metadata`. Nothing comes back once
/// the stream is exhausted; otherwise the first pending message leaves the
/// stream and is returned. A diagnostic is rendered as `cargo_metadata`
/// displays it, an artifact's file names are handed over as they are, and
/// the two ways in which a line fails are kept apart.
#[verifier::external_body]
fn next_message(stream: &mut cargo_metadata::MessageIter<std::io::Cursor<Vec<u8>>>) -> (next:
    Option<CompilerMessage>)
    ensures
        pending(*old(stream)).len() == 0 ==> next is None && pending(*final(stream)).len() == 0,
        pending(*old(stream)).len() > 0 ==> next is Some && next->Some_0@ == pending(
            *old(stream),
        )[0] && pending(*final(stream)) == pending(*old(stream)).drop_first(),
{
    Some(match stream.next()? {
        Ok(cargo_metadata::Message::CompilerMessage(m)) => CompilerMessage::Diagnostic(m.to_string()),
        Ok(cargo_metadata::Message::CompilerArtifact(a)) => CompilerMessage::Artifact(
            a.filenames.into_iter().map(String::from).collect(),
        ),
        Ok(cargo_metadata::Message::TextLine(_)) => CompilerMessage::Text,
        Ok(_) => CompilerMessage::Other,
        Err(_) => CompilerMessage::Unreadable,
    })
}

/// The messages that are acted on are recognized, and the line behind them,
/// where there is one, is not.
pub proof fn lemma_accepted_len(messages: Seq<MessageView>)
    ensures
        accepted_len(messages) <= messages.len(),
        forall|i: int|
            0 <= i < accepted_len(messages) ==> !(#[trigger] messages[i]).is_unrecognized(),
        accepted_len(messages) < messages.len() ==> messages[accepted_len(
            messages,
        ) as int].is_unrecognized(),
    decreases messages.len(),
{
    if messages.len() > 0 && !messages[0].is_unrecognized() {
        let rest = messages.drop_first();
        lemma_accepted_len(rest);
        assert forall|i: int| 0 <= i < accepted_len(messages) implies !(
        #[trigger] messages[i]).is_unrecognized() by {
            if i > 0 {
                assert(messages[i] == rest[i - 1]);
            }
        }
        if accepted_len(messages) < messages.len() {
            assert(messages[accepted_len(messages) as int] == rest[accepted_len(rest) as int]);
        }
    }
}

/// The place of the first unrecognized line is the number of messages that
/// are acted on.
pub proof fn lemma_accepted_len_is(messages: Seq<MessageView>, k: int)
    requires
        0 <= k <= messages.len(),
        forall|i: int| 0 <= i < k ==> !(#[trigger] messages[i]).is_unrecognized(),
        k < messages.len() ==> messages[k].is_unrecognized(),
    ensures
        accepted_len(messages) == k,
    decreases messages.len(),
{
    if k > 0 {
        let rest = messages.drop_first();
        assert(!messages[0].is_unrecognized());
        assert forall|i: int| 0 <= i < k - 1 implies !(#[trigger] rest[i]).is_unrecognized() by {
            assert(rest[i] == messages[i + 1]);
        }
        if k < messages.len() {
            assert(rest[k - 1] == messages[k]);
        }
        lemma_accepted_len_is(rest, k - 1);
    }
}

/// Reads the messages of a captured standard output, stopping behind the
/// first line that is no message of a known kind.
pub fn read_messages(stdout: Vec<u8>) -> (messages: Vec<CompilerMessage>)
    ensures
        views(messages@) == stream_messages(stdout@).take(
            read_len(stream_messages(stdout@)) as int,
        ),
{
    let ghost all = stream_messages(stdout@);
    let mut stream = open_stream(stdout);
    let mut messages: Vec<CompilerMessage> = Vec::new();
    let mut stopped = false;
    proof {
        lemma_accepted_len(all);
        assert(views(messages@) =~= all.take(0));
        assert(all.skip(0) =~= all);
    }
    while !stopped
        invariant
            messages@.len() + pending(stream).len() == all.len(),
            pending(stream) == all.skip(messages@.len() as int),
            views(messages@) == all.take(messages@.len() as int),
            !stopped ==> accepted_len(all) == messages@.len() + accepted_len(pending(stream)),
            stopped ==> read_len(all) == messages@.len(),
        decreases pending(stream).len() + if stopped { 0nat } else { 1nat },
    {
        let ghost before = pending(stream);
        let ghost n = messages@.len() as int;
        match next_message(&mut stream) {
            None => {
                stopped = true;
            },
            Some(message) => {
                proof {
                    assert(before[0] == all[n]);
                    assert(before.drop_first() =~= all.skip(n + 1));
                    assert(all.take(n).push(message@) =~= all.take(n + 1));
                }
                stopped = is_unrecognized(&message);
                let ghost seen = messages@;
                messages.push(message);
                proof {
                    assert(views(messages@) =~= views(seen).push(message@));
                }
            },
        }
    }
    messages
}

/// Whether a message stops the reading.
pub fn is_unrecognized(message: &CompilerMessage) -> (stop: bool)
    ensures
        stop == message@.is_unrecognized(),
{
    match message {
        CompilerMessage::Text => true,
        CompilerMessage::Unreadable => true,
        _ => false,
    }
}

} // verus!
