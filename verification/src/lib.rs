/*!
    Shared building blocks for nodes of a multi-hop packet network:
    the flood-discovery handler, its bounded deduplication history,
    and the message vocabulary spoken between nodes and the
    simulation controller.
*/

pub mod flooder;
pub mod nodes;
pub mod packet;
pub mod ring_buffer;
pub mod slc_commands;
pub mod web_messages;
