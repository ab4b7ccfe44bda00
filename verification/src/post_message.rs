use vstd::prelude::*;

verus! {

/// The data of a message event, as the page delivered it.
#[derive(Debug, Clone)]
pub enum MessageData {
    /// An array buffer, with its bytes.
    ArrayBuffer(Vec<u8>),
    /// A string.
    Text(String),
    /// Anything else.
    Other,
}

/// How the messages of an event are to be decoded.
#[derive(Debug, Clone)]
pub enum MessageEncoding {
    /// Bincode bytes.
    Binary(Vec<u8>),
    /// JSON text.
    Json(String),
}

/// Why the data of a message event cannot be decoded.
#[derive(Debug, Clone, Copy, PartialEq, Eq, Structural)]
pub enum MessageDecodeError {
    /// A string arrived but JSON decoding is not enabled.
    JsonNotEnabled,
    /// The data is neither an array buffer nor a string (for a websocket,
    /// the binary type may not have been set).
    UnknownDataType,
}

/// Decides how to decode the data of a message event: array buffers hold
/// bincode bytes; strings hold JSON, where JSON decoding is `json_enabled`.
pub fn from_js_value(data: MessageData, json_enabled: bool) -> (r: Result<MessageEncoding, MessageDecodeError>)
    ensures
        data matches MessageData::ArrayBuffer(bytes) ==> r matches Ok(MessageEncoding::Binary(b)) && b@ == bytes@,
        data matches MessageData::Text(s) ==> (json_enabled ==> (r matches Ok(MessageEncoding::Json(t)) && t@ == s@)),
        data is Text && !json_enabled ==> r == Err::<MessageEncoding, MessageDecodeError>(MessageDecodeError::JsonNotEnabled),
        data is Other ==> r == Err::<MessageEncoding, MessageDecodeError>(MessageDecodeError::UnknownDataType),
{
    match data {
        MessageData::ArrayBuffer(bytes) => Ok(MessageEncoding::Binary(bytes)),
        MessageData::Text(s) => {
            if json_enabled {
                Ok(MessageEncoding::Json(s))
            } else {
                Err(MessageDecodeError::JsonNotEnabled)
            }
        },
        MessageData::Other => Err(MessageDecodeError::UnknownDataType),
    }
}

} // verus!
