//! Socket addresses as the kernel lays them out, and the decisions around the
//! socket system calls.
//!
//! An address is a fixed-size, family-tagged record of bytes. The kernel reads
//! such a record from memory the caller owns, and writes one into a buffer whose
//! bytes mean nothing until the written length and the family tag were checked.
//! The address types here hold these records, build them from typed fields, and
//! turn a buffer the kernel wrote into a checked value. The byte layout is the
//! one of Linux on a little-endian machine.
//!
//! No function of this crate enters the kernel. A socket operation is split in
//! two: one function says exactly what the kernel is to be asked, another says
//! what the kernel's answer means. The caller makes the call in between.
use vstd::prelude::*;

pub mod address;
pub mod ancillary;
pub mod creation;
pub mod error;
pub mod socket;
pub mod sys;

pub use address::generic::SocketAddress;
pub use address::inet4::Inet4SocketAddress;
pub use address::inet6::Inet6SocketAddress;
pub use address::unix::UnixSocketAddress;
pub use address::AsSocketAddress;
pub use address::GenericSocketAddress;
pub use address::SpecificSocketAddress;
pub use ancillary::SocketAncillary;
pub use creation::Creation;
pub use creation::CreationRequest;
pub use creation::PairCreation;
pub use error::ErrorKind;
pub use error::SocketError;
pub use socket::check_ret;
pub use socket::check_ret_isize;
pub use socket::Socket;

verus! {

/// A socket that speaks Unix-domain addresses.
pub type UnixSocket = Socket<UnixSocketAddress>;

/// A socket that speaks IPv4 addresses.
pub type Inet4Socket = Socket<Inet4SocketAddress>;

/// A socket that speaks IPv6 addresses.
pub type Inet6Socket = Socket<Inet6SocketAddress>;

} // verus!
