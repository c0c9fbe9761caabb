//! Decoder for legacy packet-capture files: one global header followed by
//! packet records, read block by block from whatever bytes are at hand.
//!
//! [`parse_header`] and [`parse_record`] decode one block from the front of a
//! byte slice. [`iter::PcapIterator`] strings them together: it keeps track of
//! where in the file the reader stands and is shown, pull by pull, the bytes
//! that a source has buffered.

pub mod endian;
pub mod error;
pub mod header;
pub mod iter;
pub mod link_type;
pub mod record;

pub use endian::Endianness;
pub use error::DecodeError;
pub use header::{parse_header, Header};
pub use link_type::LinkType;
pub use record::{parse_record, Record};
