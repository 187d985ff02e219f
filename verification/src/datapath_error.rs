//! Errors of the data path.

use vstd::prelude::*;

verus! {

/// Errors of the data path.
#[derive(Debug, PartialEq)]
pub enum DataPathError {
    ConnectionError(String),
    UnknownMsgType(String),
    SubscriptionError(String),
    UnsubscriptionError(String),
    PublicationError(String),
    CommandError(String),
    ConnectionNotFound(String),
    WrongChannelType,
    MessageSendError(String),
    StreamError(String),
}

/// The text that each error displays.
pub open spec fn error_text(e: &DataPathError) -> Seq<char> {
    match e {
        DataPathError::ConnectionError(s) => "connection error: "@ + s@,
        DataPathError::UnknownMsgType(s) => "unkwon message type "@ + s@,
        DataPathError::SubscriptionError(s) => "error handling subscription: "@ + s@,
        DataPathError::UnsubscriptionError(s) => "error handling unsubscription: "@ + s@,
        DataPathError::PublicationError(s) => "error handling publish: "@ + s@,
        DataPathError::CommandError(s) => "error parsing command message: "@ + s@,
        DataPathError::ConnectionNotFound(s) => "connection not found: "@ + s@,
        DataPathError::WrongChannelType => "wrong channel type"@,
        DataPathError::MessageSendError(s) => "error sending message: "@ + s@,
        DataPathError::StreamError(s) => "stream error: "@ + s@,
    }
}

/// `prefix` followed by `detail`.
fn joined(prefix: &str, detail: &String) -> (m: String)
    ensures
        m@ == prefix@ + detail@,
{
    let mut m = String::from_str(prefix);
    m.append(detail.as_str());
    m
}

impl DataPathError {
    /// The text that the error displays.
    pub fn message(&self) -> (m: String)
        ensures
            m@ == error_text(self),
    {
        match self {
            DataPathError::ConnectionError(s) => joined("connection error: ", s),
            DataPathError::UnknownMsgType(s) => joined("unkwon message type ", s),
            DataPathError::SubscriptionError(s) => joined("error handling subscription: ", s),
            DataPathError::UnsubscriptionError(s) => joined("error handling unsubscription: ", s),
            DataPathError::PublicationError(s) => joined("error handling publish: ", s),
            DataPathError::CommandError(s) => joined("error parsing command message: ", s),
            DataPathError::ConnectionNotFound(s) => joined("connection not found: ", s),
            DataPathError::WrongChannelType => String::from_str("wrong channel type"),
            DataPathError::MessageSendError(s) => joined("error sending message: ", s),
            DataPathError::StreamError(s) => joined("stream error: ", s),
        }
    }
}

} // verus!
