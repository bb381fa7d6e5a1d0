use vstd::prelude::*;

verus! {

/// A challenge sent by the server.
#[derive(Debug, Clone)]
pub enum Challenge {
    /// A serialized time-lock puzzle.
    CPUChallenge(Vec<u8>),
    /// A random payload to echo back.
    NetworkChallenge(Vec<u8>),
}

/// A client's answer to a challenge.
#[derive(Debug, Clone)]
pub enum Response {
    /// The puzzle's answer, a big-endian magnitude.
    CPUChallengeResponse(Vec<u8>),
    /// The echoed payload.
    NetworkChallengeResponse(Vec<u8>),
}

/// Text for the other side of the connection.
#[derive(Debug, Clone)]
pub enum Data {
    /// General information to show to the client.
    Info(String),
    /// An error on the sending side; it ends the session.
    Error(String),
    /// The outcome of the measurements.
    Result(String),
}

/// Everything that crosses the wire.
#[derive(Debug, Clone)]
pub enum Message {
    /// Sent by the server to the client.
    Challenge(Challenge),
    /// Answer to a `Challenge`.
    Response(Response),
    /// Side channel of text.
    Data(Data),
    /// Not a valid message.
    Unknown,
}

impl Message {
    /// Name of the message's kind.
    pub fn kind_name(&self) -> (r: String)
        ensures
            r@ == message_kind_name(*self),
    {
        match self {
            Message::Challenge(_) => String::from_str("Challenge"),
            Message::Response(_) => String::from_str("Response"),
            Message::Data(_) => String::from_str("Data"),
            Message::Unknown => String::from_str("Unknown"),
        }
    }
}

/// Name of a message's kind.
pub open spec fn message_kind_name(m: Message) -> Seq<char> {
    match m {
        Message::Challenge(_) => "Challenge"@,
        Message::Response(_) => "Response"@,
        Message::Data(_) => "Data"@,
        Message::Unknown => "Unknown"@,
    }
}

} // verus!
