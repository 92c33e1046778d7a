//! Commands that travel over the local control channel.
//!
//! A command is one write of `<action> <player>`, the player omittable. The
//! sender encodes it with [`server_message`]; the listener decodes what it
//! read with [`parse_stream_message`], taking the words between whitespace,
//! and decides with [`listener_step`] what becomes of the connection.

use vstd::prelude::*;
use vstd::utf8::{decode_utf8, encode_utf8, valid_utf8};
use crate::text::{is_blank, is_solid, split_whitespace, words};

verus! {

/// The largest payload, in bytes, that the listener reads from one
/// connection.
pub const MAX_MESSAGE_LEN: usize = 1024;

/// A command as a mathematical value.
pub struct ControlCommand {
    pub action: Seq<char>,
    pub player: Seq<char>,
}

/// A command received from, or meant for, the control channel.
#[derive(Debug)]
pub struct StreamMessage {
    action: String,
    player: String,
}

impl View for StreamMessage {
    type V = ControlCommand;

    closed spec fn view(&self) -> ControlCommand {
        ControlCommand { action: self.action@, player: self.player@ }
    }
}

/// The command that the text `message` stands for: its first word is the
/// action, its second, if any, the player. Words are separated by
/// whitespace, however much of it; further words are ignored.
pub open spec fn command_of(message: Seq<char>) -> ControlCommand {
    let found = words(message);
    ControlCommand {
        action: if found.len() > 0 {
            found[0]
        } else {
            Seq::empty()
        },
        player: if found.len() > 1 {
            found[1]
        } else {
            Seq::empty()
        },
    }
}

/// The bytes that carry `action` and `player` over the control channel.
pub open spec fn wire_bytes(action: Seq<char>, player: Seq<char>) -> Seq<u8> {
    encode_utf8(action) + seq![0x20u8] + encode_utf8(player)
}

/// What the listener got when it waited for a connection, as a
/// mathematical value.
pub enum ConnectionView {
    Refused,
    Unreadable,
    Payload(Seq<u8>),
}

/// What the listener got when it waited for a connection.
#[derive(Debug)]
pub enum Connection {
    /// No connection could be accepted.
    Refused,
    /// A connection was accepted and nothing could be read from it.
    Unreadable,
    /// A connection was accepted and these bytes were read from it.
    Payload(Vec<u8>),
}

impl View for Connection {
    type V = ConnectionView;

    open spec fn view(&self) -> ConnectionView {
        match self {
            Connection::Refused => ConnectionView::Refused,
            Connection::Unreadable => ConnectionView::Unreadable,
            Connection::Payload(bytes) => ConnectionView::Payload(bytes@),
        }
    }
}

/// What the listener does after it waited for a connection.
#[derive(Debug)]
pub enum ListenerStep {
    /// Hand the command to the engine and wait for the next connection.
    Forward(StreamMessage),
    /// Close the listener, remove the bound path and leave the loop.
    Stop,
    /// Drop the connection and wait for the next one.
    Ignore,
}

/// [`ListenerStep`] as a mathematical value.
pub enum ListenerDecision {
    Forward(ControlCommand),
    Stop,
    Ignore,
}

impl View for ListenerStep {
    type V = ListenerDecision;

    open spec fn view(&self) -> ListenerDecision {
        match self {
            ListenerStep::Forward(message) => ListenerDecision::Forward(message@),
            ListenerStep::Stop => ListenerDecision::Stop,
            ListenerStep::Ignore => ListenerDecision::Ignore,
        }
    }
}

/// The listener's rule. A connection that could not be read, or whose
/// payload is not UTF-8, is ignored. A payload without an action, which is
/// the empty payload or one of nothing but whitespace, stops the listener,
/// and so does a failure to accept a connection. Any other payload is
/// forwarded.
pub open spec fn listener_decision(connection: ConnectionView) -> ListenerDecision {
    match connection {
        ConnectionView::Refused => ListenerDecision::Stop,
        ConnectionView::Unreadable => ListenerDecision::Ignore,
        ConnectionView::Payload(bytes) => if !valid_utf8(bytes) {
            ListenerDecision::Ignore
        } else if command_of(decode_utf8(bytes)).action.len() == 0 {
            ListenerDecision::Stop
        } else {
            ListenerDecision::Forward(command_of(decode_utf8(bytes)))
        },
    }
}

/// Encoding a text is encoding its parts one after the other.
proof fn lemma_encode_concat(a: Seq<char>, b: Seq<char>)
    ensures
        encode_utf8(a + b) == encode_utf8(a) + encode_utf8(b),
    decreases a.len(),
{
    if a.len() > 0 {
        assert((a + b).drop_first() =~= a.drop_first() + b);
        lemma_encode_concat(a.drop_first(), b);
    }
}

/// What is sent is what is read: the bytes of a command are UTF-8, and
/// decode to the action, a space and the player.
pub proof fn lemma_wire_decodes(action: Seq<char>, player: Seq<char>)
    ensures
        valid_utf8(wire_bytes(action, player)),
        decode_utf8(wire_bytes(action, player)) == action + seq![' '] + player,
{
    let space = seq![' '];
    vstd::utf8::is_ascii_chars_encode_utf8(space);
    lemma_encode_concat(action, space);
    lemma_encode_concat(action + space, player);
    vstd::utf8::encode_utf8_valid_utf8(action + space + player);
    vstd::utf8::encode_utf8_decode_utf8(action + space + player);
}

/// A command survives the control channel: where the action is a word and
/// the player is a word or empty, the listener reads the command that was
/// sent.
pub proof fn lemma_wire_round_trip(action: Seq<char>, player: Seq<char>)
    requires
        action.len() > 0,
        is_solid(action),
        is_solid(player),
    ensures
        valid_utf8(wire_bytes(action, player)),
        command_of(decode_utf8(wire_bytes(action, player))) == (ControlCommand {
            action,
            player,
        }),
{
    lemma_wire_decodes(action, player);
    let none = Seq::<char>::empty();
    let sent = action + seq![' '] + player;
    crate::text::lemma_words_after_first(action, seq![' '], player);
    assert(words(none) =~= Seq::<Seq<char>>::empty());
    if player.len() > 0 {
        assert(player + none + none =~= player);
        crate::text::lemma_words_after_first(player, none, none);
        assert(words(sent) =~= seq![action, player]);
    } else {
        assert(player =~= none);
        assert(words(sent) =~= seq![action]);
    }
}

/// A payload stops the listener exactly when it is UTF-8 and holds nothing
/// but whitespace; the empty payload is the plainest of them.
pub proof fn lemma_blank_payload_stops(bytes: Seq<u8>)
    requires
        valid_utf8(bytes),
    ensures
        listener_decision(ConnectionView::Payload(bytes)) == ListenerDecision::Stop <==> is_blank(
            decode_utf8(bytes),
        ),
        listener_decision(ConnectionView::Payload(Seq::<u8>::empty())) == ListenerDecision::Stop,
{
    let text = decode_utf8(bytes);
    crate::text::lemma_words_are_solid(text);
    if is_blank(text) {
        crate::text::lemma_words_of_blank(text);
    } else {
        crate::text::lemma_words_of_text(text);
    }
    crate::text::lemma_words_of_blank(decode_utf8(Seq::<u8>::empty()));
}

impl StreamMessage {
    /// Parses `message` as `<action> <player>`. This never fails: a missing
    /// word is the empty text.
    pub fn build(message: String) -> (built: Result<StreamMessage, &'static str>)
        ensures
            built is Ok,
            built->Ok_0@ == command_of(message@),
    {
        let found = split_whitespace(message.as_str());
        let action = if found.len() > 0 {
            found[0].clone()
        } else {
            String::new()
        };
        let player = if found.len() > 1 {
            found[1].clone()
        } else {
            String::new()
        };
        Ok(StreamMessage { action, player })
    }

    /// Whether the message names no action.
    pub fn is_empty(&self) -> (empty: bool)
        ensures
            empty == (self@.action.len() == 0),
    {
        self.action.as_str().is_empty()
    }

    /// The action's name.
    pub fn action(&self) -> (action: &String)
        ensures
            action@ == self@.action,
    {
        &self.action
    }

    /// The player that the command names; empty where it names none.
    pub fn player(&self) -> (player: &String)
        ensures
            player@ == self@.player,
    {
        &self.player
    }
}

/// Encodes a command for the control channel: the action, one space, the
/// player.
pub fn server_message(action_name: &String, player: &String) -> (bytes: Vec<u8>)
    ensures
        bytes@ == wire_bytes(action_name@, player@),
{
    let mut bytes = action_name.as_str().as_bytes_vec();
    let mut tail = player.as_str().as_bytes_vec();
    bytes.push(0x20u8);
    bytes.append(&mut tail);
    bytes
}

/// The payload that asks the listener to stop: an empty write.
pub fn stop_message() -> (bytes: Vec<u8>)
    ensures
        bytes@ == Seq::<u8>::empty(),
{
    Vec::new()
}

/// `core::str::from_utf8`, with the text copied into a `String`: `Some`
/// exactly when `bytes` is well-formed UTF-8, and then the text that the
/// bytes encode.
#[verifier::external_body]
fn text_from_utf8(bytes: &[u8]) -> (text: Option<String>)
    ensures
        text is Some <==> valid_utf8(bytes@),
        text matches Some(t) ==> t@ == decode_utf8(bytes@),
{
    match core::str::from_utf8(bytes) {
        Ok(text) => Some(String::from(text)),
        Err(_) => None,
    }
}

/// Decodes what was read from one connection. A payload that is not UTF-8
/// holds no command.
pub fn parse_stream_message(payload: &[u8]) -> (message: Option<StreamMessage>)
    ensures
        message is Some <==> valid_utf8(payload@),
        message matches Some(m) ==> m@ == command_of(decode_utf8(payload@)),
{
    match text_from_utf8(payload) {
        Some(text) => match StreamMessage::build(text) {
            Ok(message) => Some(message),
            Err(_) => None,
        },
        None => None,
    }
}

/// Decides what the listener does after it waited for a connection.
pub fn listener_step(connection: Connection) -> (step: ListenerStep)
    ensures
        step@ == listener_decision(connection@),
{
    match connection {
        Connection::Refused => ListenerStep::Stop,
        Connection::Unreadable => ListenerStep::Ignore,
        Connection::Payload(bytes) => match parse_stream_message(bytes.as_slice()) {
            None => ListenerStep::Ignore,
            Some(message) => if message.is_empty() {
                ListenerStep::Stop
            } else {
                ListenerStep::Forward(message)
            },
        },
    }
}

} // verus!
