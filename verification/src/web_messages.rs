/*!
    The types used to implement communication between web clients and web
    servers, and the constructors that assemble every request and response
    the protocol knows.
*/

use vstd::prelude::*;

use crate::packet::NodeId;
use crate::slc_commands::ServerType;

verus! {

/// Compression type to be used in a web client-server communication.
#[derive(Debug, Clone, PartialEq, Eq)]
pub enum Compression {
    Uncompressed,
    LZW,
    Huffman,
}

/// Error generated when a request/response is not serializable.
#[derive(Debug)]
pub struct SerializationError;

/// Reflects the capability of converting an object into and from a vector
/// of bytes.
pub trait Serializable: Sized {
    fn serialize(&self) -> Result<Vec<u8>, SerializationError>;

    fn deserialize(data: Vec<u8>) -> Result<Self, SerializationError>;
}

/// The same capability for types that convert through a serde-style
/// data model rather than their own encoding.
pub trait SerializableSerde: Sized {
    fn serialize(&self) -> Result<Vec<u8>, SerializationError>;

    fn deserialize(data: Vec<u8>) -> Result<Self, SerializationError>;
}

/// Marker for the request/response payloads of the web protocol.
pub trait WebMessage {

}

#[derive(Debug, Clone, PartialEq, Eq)]
pub enum TextRequest {
    TextList,
    Text(String),
}

impl WebMessage for TextRequest {

}

#[derive(Debug, Clone, PartialEq, Eq)]
pub enum MediaRequest {
    MediaList,
    Media(String),
}

impl WebMessage for MediaRequest {

}

#[derive(Debug, Clone, PartialEq, Eq)]
pub enum TextResponse {
    TextList(Vec<String>),
    Text(Vec<u8>),
}

impl WebMessage for TextResponse {

}

#[derive(Debug, Clone, PartialEq, Eq)]
pub enum MediaResponse {
    MediaList(Vec<String>),
    Media(Vec<u8>),
}

impl WebMessage for MediaResponse {

}

#[derive(Debug, Clone, PartialEq, Eq)]
pub enum GenericResponse {
    Type(ServerType),
    InvalidRequest,
    NotFound,
}

#[derive(Debug, Clone, PartialEq, Eq)]
pub enum Request {
    Media(MediaRequest),
    Text(TextRequest),
    Type,
}

#[derive(Debug, Clone, PartialEq, Eq)]
pub enum Response {
    Media(MediaResponse),
    Text(TextResponse),
    Generic(GenericResponse),
}

/// A request as it travels between a web client and a server: who asked,
/// how the payload is compressed, and what is asked.
#[derive(Debug, Clone, PartialEq, Eq)]
pub struct RequestMessage {
    pub source_id: NodeId,
    pub compression_type: Compression,
    pub content: Request,
}

/// A response as it travels between a web server and a client: who
/// answers, how the payload is compressed, and the answer itself.
#[derive(Debug, Clone, PartialEq, Eq)]
pub struct ResponseMessage {
    pub source_id: NodeId,
    pub compression_type: Compression,
    pub content: Response,
}

impl RequestMessage {
    /// A request for the list of text files of a server.
    pub fn new_text_list_request(source_id: NodeId, compression_type: Compression) -> (r:
        RequestMessage)
        ensures
            r == (RequestMessage {
                source_id,
                compression_type,
                content: Request::Text(TextRequest::TextList),
            }),
    {
        Self { source_id, compression_type, content: Request::Text(TextRequest::TextList) }
    }

    /// A request for the named text file.
    pub fn new_text_request(source_id: NodeId, compression_type: Compression, file: String) -> (r:
        RequestMessage)
        ensures
            r == (RequestMessage {
                source_id,
                compression_type,
                content: Request::Text(TextRequest::Text(file)),
            }),
    {
        Self { source_id, compression_type, content: Request::Text(TextRequest::Text(file)) }
    }

    /// A request for the list of media files of a server.
    pub fn new_media_list_request(source_id: NodeId, compression_type: Compression) -> (r:
        RequestMessage)
        ensures
            r == (RequestMessage {
                source_id,
                compression_type,
                content: Request::Media(MediaRequest::MediaList),
            }),
    {
        Self { source_id, compression_type, content: Request::Media(MediaRequest::MediaList) }
    }

    /// A request for the named media file.
    pub fn new_media_request(source_id: NodeId, compression_type: Compression, file: String) -> (r:
        RequestMessage)
        ensures
            r == (RequestMessage {
                source_id,
                compression_type,
                content: Request::Media(MediaRequest::Media(file)),
            }),
    {
        Self { source_id, compression_type, content: Request::Media(MediaRequest::Media(file)) }
    }

    /// A request for the type of a server.
    pub fn new_type_request(source_id: NodeId, compression_type: Compression) -> (r:
        RequestMessage)
        ensures
            r == (RequestMessage { source_id, compression_type, content: Request::Type }),
    {
        Self { source_id, compression_type, content: Request::Type }
    }
}

impl ResponseMessage {
    /// An answer naming the server's type.
    pub fn new_type_response(
        source_id: NodeId,
        compression_type: Compression,
        server_type: ServerType,
    ) -> (r: ResponseMessage)
        ensures
            r == (ResponseMessage {
                source_id,
                compression_type,
                content: Response::Generic(GenericResponse::Type(server_type)),
            }),
    {
        Self {
            source_id,
            compression_type,
            content: Response::Generic(GenericResponse::Type(server_type)),
        }
    }

    /// The answer given when a requested file does not exist.
    pub fn new_not_found_response(source_id: NodeId, compression_type: Compression) -> (r:
        ResponseMessage)
        ensures
            r == (ResponseMessage {
                source_id,
                compression_type,
                content: Response::Generic(GenericResponse::NotFound),
            }),
    {
        Self { source_id, compression_type, content: Response::Generic(GenericResponse::NotFound) }
    }

    /// The answer given when a request cannot be understood.
    pub fn new_invalid_request_response(source_id: NodeId, compression_type: Compression) -> (r:
        ResponseMessage)
        ensures
            r == (ResponseMessage {
                source_id,
                compression_type,
                content: Response::Generic(GenericResponse::InvalidRequest),
            }),
    {
        Self {
            source_id,
            compression_type,
            content: Response::Generic(GenericResponse::InvalidRequest),
        }
    }

    /// An answer listing the server's text files.
    pub fn new_text_list_response(
        source_id: NodeId,
        compression_type: Compression,
        list: Vec<String>,
    ) -> (r: ResponseMessage)
        ensures
            r == (ResponseMessage {
                source_id,
                compression_type,
                content: Response::Text(TextResponse::TextList(list)),
            }),
    {
        Self {
            source_id,
            compression_type,
            content: Response::Text(TextResponse::TextList(list)),
        }
    }

    /// An answer carrying a text file's bytes.
    pub fn new_text_response(
        source_id: NodeId,
        compression_type: Compression,
        data: Vec<u8>,
    ) -> (r: ResponseMessage)
        ensures
            r == (ResponseMessage {
                source_id,
                compression_type,
                content: Response::Text(TextResponse::Text(data)),
            }),
    {
        Self { source_id, compression_type, content: Response::Text(TextResponse::Text(data)) }
    }

    /// An answer listing the server's media files.
    pub fn new_media_list_response(
        source_id: NodeId,
        compression_type: Compression,
        list: Vec<String>,
    ) -> (r: ResponseMessage)
        ensures
            r == (ResponseMessage {
                source_id,
                compression_type,
                content: Response::Media(MediaResponse::MediaList(list)),
            }),
    {
        Self {
            source_id,
            compression_type,
            content: Response::Media(MediaResponse::MediaList(list)),
        }
    }

    /// An answer carrying a media file's bytes.
    pub fn new_media_response(
        source_id: NodeId,
        compression_type: Compression,
        data: Vec<u8>,
    ) -> (r: ResponseMessage)
        ensures
            r == (ResponseMessage {
                source_id,
                compression_type,
                content: Response::Media(MediaResponse::Media(data)),
            }),
    {
        Self { source_id, compression_type, content: Response::Media(MediaResponse::Media(data)) }
    }
}

} // verus!
