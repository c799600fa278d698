/*!
    The types used to implement communication between clients/servers and
    the simulation controller.
*/

use std::collections::HashMap;
use vstd::prelude::*;

use crate::packet::{NodeId, Packet};

verus! {

/// The view of one named file: its name and its bytes.
pub open spec fn file_view(f: (String, Vec<u8>)) -> (Seq<char>, Seq<u8>) {
    (f.0@, f.1@)
}

/// The view of an array of named files.
pub open spec fn files_view(fs: Seq<(String, Vec<u8>)>) -> Seq<(Seq<char>, Seq<u8>)> {
    Seq::new(fs.len(), |i: int| file_view(fs[i]))
}

/// Contains both a text file and the linked media files. A web client
/// sends this to the controller when all the necessary files have been
/// retrieved from the network.
#[derive(Debug, PartialEq)]
pub struct TextMediaResponse {
    /// Pair of (filename, file content).
    html_file: (String, Vec<u8>),
    /// Array of pairs (filename, file content).
    media_files: Vec<(String, Vec<u8>)>,
}

impl TextMediaResponse {
    /// The text file this response carries: name and content.
    pub closed spec fn spec_html_file(&self) -> (Seq<char>, Seq<u8>) {
        file_view(self.html_file)
    }

    /// The media files this response carries, each a name and a content.
    pub closed spec fn spec_media_files(&self) -> Seq<(Seq<char>, Seq<u8>)> {
        files_view(self.media_files@)
    }

    /// Constructor for `TextMediaResponse`.
    /// * `html_file`: pair (text filename, text file content)
    /// * `media_files`: array of pairs (media filename, media file content)
    pub fn new(html_file: (String, Vec<u8>), media_files: Vec<(String, Vec<u8>)>) -> (r: Self)
        ensures
            r.spec_html_file() == file_view(html_file),
            r.spec_media_files() == files_view(media_files@),
    {
        Self { html_file, media_files }
    }

    /// Getter of the pair `html_file`.
    pub fn get_html_file(&self) -> (r: &(String, Vec<u8>))
        ensures
            file_view(*r) == self.spec_html_file(),
    {
        &self.html_file
    }

    /// Getter of the array of pairs `media_files`.
    pub fn get_media_files(&self) -> (r: &Vec<(String, Vec<u8>)>)
        ensures
            files_view(r@) == self.spec_media_files(),
    {
        &self.media_files
    }
}

impl Clone for TextMediaResponse {
    /// Cloning keeps the text file and the media files.
    fn clone(&self) -> (r: Self)
        ensures
            r.spec_html_file() == self.spec_html_file(),
            r.spec_media_files() == self.spec_media_files(),
    {
        let r = TextMediaResponse {
            html_file: (self.html_file.0.clone(), copy_byte_vec(&self.html_file.1)),
            media_files: copy_file_vec(&self.media_files),
        };
        proof {
            assert(files_view(r.media_files@) =~= files_view(self.media_files@));
        }
        r
    }
}

/// Copies a vector of bytes, element by element.
fn copy_byte_vec(v: &Vec<u8>) -> (r: Vec<u8>)
    ensures
        r@ == v@,
{
    let mut r: Vec<u8> = Vec::new();
    let mut i: usize = 0;
    while i < v.len()
        invariant
            0 <= i <= v@.len(),
            r@ == v@.subrange(0, i as int),
        decreases v@.len() - i,
    {
        r.push(v[i]);
        proof {
            assert(r@ =~= v@.subrange(0, i + 1 as int));
        }
        i += 1;
    }
    proof {
        assert(r@ =~= v@);
    }
    r
}

/// Copies an array of named files; every copy carries the same name and
/// the same bytes.
fn copy_file_vec(v: &Vec<(String, Vec<u8>)>) -> (r: Vec<(String, Vec<u8>)>)
    ensures
        r@.len() == v@.len(),
        forall|i: int| 0 <= i < v@.len() ==> file_view(#[trigger] r@[i]) == file_view(v@[i]),
{
    let mut r: Vec<(String, Vec<u8>)> = Vec::new();
    let mut i: usize = 0;
    while i < v.len()
        invariant
            0 <= i <= v@.len(),
            r@.len() == i,
            forall|j: int| 0 <= j < i ==> file_view(#[trigger] r@[j]) == file_view(v@[j]),
        decreases v@.len() - i,
    {
        let name = v[i].0.clone();
        let bytes = copy_byte_vec(&v[i].1);
        r.push((name, bytes));
        i += 1;
    }
    r
}

/// Identifies a command sent from the controller to a client.
pub trait ClientCommand {

}

/// Identifies an event sent from a client to the controller.
pub trait ClientEvent {

}

/// Types of commands sent to a web client.
#[derive(Debug, Clone)]
pub enum WebClientCommand {
    /// Ask a client to add a neighbor with the given ID and the given channel.
    AddSender(NodeId, crossbeam_channel::Sender<Packet>),
    /// Ask a client to remove the neighbor with the given ID.
    RemoveSender(NodeId),
    /// Ask a client to discover the server types in the network.
    AskServersTypes,
    /// Ask a client to retrieve the available files in the server with the given ID.
    AskListOfFiles(NodeId),
    /// Ask a client to retrieve the named file from the node with the given ID.
    RequestFile(String, NodeId),
    /// The controller shortcuts a packet to the client.
    Shortcut(Packet),
}

impl ClientCommand for WebClientCommand {

}

/// Events that a web client can send to the controller.
#[derive(Debug, Clone, PartialEq)]
pub enum WebClientEvent {
    /// Log that the given packet has been sent.
    PacketSent(Packet),
    /// Inform the controller that the given packet has to be shortcut.
    Shortcut(Packet),
    /// Communicate the types of the servers in the network.
    ServersTypes(HashMap<NodeId, ServerType>),
    /// Communicate the files available from the server with the given ID.
    ListOfFiles(Vec<String>, NodeId),
    /// Send a `TextMediaResponse` whose text file comes from the server with the given ID.
    FileFromClient(TextMediaResponse, NodeId),
    /// Inform that the client received an unsupported request.
    UnsupportedRequest,
}

impl ClientEvent for WebClientEvent {

}

/// Types of commands sent to a chat client.
#[derive(Debug, Clone)]
pub enum ChatClientCommand {
    /// Ask a client to add a neighbor with the given ID and the given channel.
    AddSender(NodeId, crossbeam_channel::Sender<Packet>),
    /// Ask a client to remove the neighbor with the given ID.
    RemoveSender(NodeId),
    /// Ask a client to discover the server types in the network.
    AskServersTypes,
    /// Ask a client to connect to the chat server with the given ID.
    ConnectToChatServer(NodeId),
    /// Ask a client to send a message to another client through a chat server:
    /// text, destination client, chat server.
    SendChatText(String, NodeId, NodeId),
    /// The controller shortcuts a packet to the client.
    Shortcut(Packet),
}

impl ClientCommand for ChatClientCommand {

}

/// Events that a chat client can send to the controller.
#[derive(Debug, Clone)]
pub enum ChatClientEvent {
    /// Log that the given packet has been sent.
    PacketSent(Packet),
    /// Inform the controller that the given packet has to be shortcut.
    Shortcut(Packet),
    /// Communicate the types of the servers in the network.
    ServersTypes(HashMap<NodeId, ServerType>),
    /// Communicate all the clients connected to a chat server.
    ClientsConnectedToChatServer(NodeId, Vec<NodeId>),
    /// Communicate that a new message has arrived from the node with the given ID.
    NewMessageFrom(NodeId),
    /// Inform that the client received an unsupported request.
    UnsupportedRequest,
}

impl ClientEvent for ChatClientEvent {

}

/// Commands sent by the controller to a server.
#[derive(Debug, Clone)]
pub enum ServerCommand {
    /// Ask a server to add a neighbor with the given ID and the given channel.
    AddSender(NodeId, crossbeam_channel::Sender<Packet>),
    /// Ask a server to remove the neighbor with the given ID.
    RemoveSender(NodeId),
    /// The controller shortcuts a packet to the server.
    Shortcut(Packet),
}

/// Events sent by a server to the controller.
#[derive(Debug, Clone, PartialEq)]
pub enum ServerEvent {
    /// Log that the given packet has been sent.
    PacketSent(Packet),
    /// Inform the controller that the given packet has to be shortcut.
    ShortCut(Packet),
}

/// Identifies the type of a server inside the network.
#[derive(Debug, Clone, Copy, Hash, PartialEq, Eq)]
pub enum ServerType {
    ChatServer,
    FileServer,
    MediaServer,
}

} // verus!
