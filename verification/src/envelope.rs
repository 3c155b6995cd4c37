//! Reply traffic as the calling conventions see it.
//!
//! Payloads travel as text: the layer never looks inside a decoded value, it
//! hands it on, prints it or quotes it in a message.

use vstd::prelude::*;

verus! {

/// The two ways in which an exchange can break down below the protocol.
#[derive(Clone, Copy, Debug, PartialEq, Eq, Structural)]
pub enum Fault {
    /// The channel failed, or closed too early.
    Transport,
    /// A reply matched neither the response schema nor the error schema.
    Decode,
}

/// One decoded unit of reply traffic.
#[derive(Debug, PartialEq, Eq)]
pub enum ReplyEnvelope {
    /// A value of the expected response type.
    Payload(String),
    /// A well-formed error value sent by the peer.
    ProtocolError(String),
    /// No value could be had; the text says what went wrong.
    Failure(Fault, String),
}

impl Clone for ReplyEnvelope {
    fn clone(&self) -> (r: Self)
        ensures
            r == *self,
    {
        match self {
            ReplyEnvelope::Payload(value) => ReplyEnvelope::Payload(value.clone()),
            ReplyEnvelope::ProtocolError(value) => ReplyEnvelope::ProtocolError(value.clone()),
            ReplyEnvelope::Failure(fault, detail) => ReplyEnvelope::Failure(*fault, detail.clone()),
        }
    }
}

/// What a reply observable reports in place of a value.
#[derive(Debug, PartialEq, Eq)]
pub enum ReceiveError {
    /// The peer answered with an error value.
    PeerError(String),
    /// The connection closed or failed while the reply was awaited.
    ConnectionError(String),
    /// The reply could not be parsed as the expected type.
    InvalidData(String),
    /// The reply was not JSON at all.
    NotJson(String),
}

impl ReceiveError {
    /// The envelope that stands for this error: a peer's error value is a
    /// protocol error, a broken connection a transport fault, and anything
    /// unreadable a decode fault.
    pub open spec fn envelope(self) -> ReplyEnvelope {
        match self {
            ReceiveError::PeerError(value) => ReplyEnvelope::ProtocolError(value),
            ReceiveError::ConnectionError(detail) => ReplyEnvelope::Failure(
                Fault::Transport,
                detail,
            ),
            ReceiveError::InvalidData(detail) => ReplyEnvelope::Failure(Fault::Decode, detail),
            ReceiveError::NotJson(detail) => ReplyEnvelope::Failure(Fault::Decode, detail),
        }
    }

    /// Classifies the error.
    pub fn into_envelope(self) -> (r: ReplyEnvelope)
        ensures
            r == self.envelope(),
    {
        match self {
            ReceiveError::PeerError(value) => ReplyEnvelope::ProtocolError(value),
            ReceiveError::ConnectionError(detail) => ReplyEnvelope::Failure(
                Fault::Transport,
                detail,
            ),
            ReceiveError::InvalidData(detail) => ReplyEnvelope::Failure(Fault::Decode, detail),
            ReceiveError::NotJson(detail) => ReplyEnvelope::Failure(Fault::Decode, detail),
        }
    }
}

/// Something that happened on one of the two legs of an invocation.
#[derive(Debug, PartialEq, Eq)]
pub enum Event {
    /// The request was flushed to the channel.
    SendCompleted,
    /// The request could not be written.
    SendFailed(String),
    /// The peer's next reply.
    Reply(ReplyEnvelope),
    /// The peer closed the stream.
    EndOfStream,
}

impl Clone for Event {
    fn clone(&self) -> (r: Self)
        ensures
            r == *self,
    {
        match self {
            Event::SendCompleted => Event::SendCompleted,
            Event::SendFailed(detail) => Event::SendFailed(detail.clone()),
            Event::Reply(envelope) => Event::Reply(envelope.clone()),
            Event::EndOfStream => Event::EndOfStream,
        }
    }
}

impl Event {
    /// The event that a finished send leg stands for.
    pub open spec fn of_send(result: Result<(), String>) -> Event {
        match result {
            Ok(_) => Event::SendCompleted,
            Err(detail) => Event::SendFailed(detail),
        }
    }

    /// The event that the reply to a single-reply call stands for.
    pub open spec fn of_reply(result: Result<String, ReceiveError>) -> Event {
        match result {
            Ok(value) => Event::Reply(ReplyEnvelope::Payload(value)),
            Err(error) => Event::Reply(error.envelope()),
        }
    }

    /// The event that one poll of a reply sequence stands for.
    pub open spec fn of_item(result: Result<Option<String>, ReceiveError>) -> Event {
        match result {
            Ok(Some(value)) => Event::Reply(ReplyEnvelope::Payload(value)),
            Ok(None) => Event::EndOfStream,
            Err(error) => Event::Reply(error.envelope()),
        }
    }

    /// Turns the result of the send leg into an event.
    pub fn from_send(result: Result<(), String>) -> (r: Event)
        ensures
            r == Event::of_send(result),
    {
        match result {
            Ok(_) => Event::SendCompleted,
            Err(detail) => Event::SendFailed(detail),
        }
    }

    /// Turns the result of a single-reply observable into an event.
    pub fn from_reply(result: Result<String, ReceiveError>) -> (r: Event)
        ensures
            r == Event::of_reply(result),
    {
        match result {
            Ok(value) => Event::Reply(ReplyEnvelope::Payload(value)),
            Err(error) => Event::Reply(error.into_envelope()),
        }
    }

    /// Turns one poll of a reply sequence into an event.
    pub fn from_item(result: Result<Option<String>, ReceiveError>) -> (r: Event)
        ensures
            r == Event::of_item(result),
    {
        match result {
            Ok(Some(value)) => Event::Reply(ReplyEnvelope::Payload(value)),
            Ok(None) => Event::EndOfStream,
            Err(error) => Event::Reply(error.into_envelope()),
        }
    }
}

/// A reply that was decoded is never taken for a decode failure: a decoded
/// response is a payload, a decoded error value is a protocol error, and only
/// what could not be read at all is a fault of the decode class.
pub proof fn law_decoded_replies_are_no_decode_failures(result: Result<String, ReceiveError>)
    ensures
        result matches Ok(value) ==> Event::of_reply(result) == Event::Reply(
            ReplyEnvelope::Payload(value),
        ),
        result matches Err(ReceiveError::PeerError(value)) ==> Event::of_reply(result)
            == Event::Reply(ReplyEnvelope::ProtocolError(value)),
        (Event::of_reply(result) matches Event::Reply(ReplyEnvelope::Failure(Fault::Decode, _)))
            <==> (result matches Err(error) && (error is InvalidData || error is NotJson)),
        Event::of_reply(result) == Event::of_item(
            match result {
                Ok(value) => Ok(Some(value)),
                Err(error) => Err(error),
            },
        ),
{
}

} // verus!
