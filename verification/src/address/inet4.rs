//! IPv4 socket addresses.
use vstd::prelude::*;
use crate::address::be16;
use crate::address::family_tag;
use crate::address::port_image;
use crate::address::tag_image;
use crate::address::zeros;
use crate::address::AsSocketAddress;
use crate::address::SpecificSocketAddress;
use crate::error::SocketError;
use crate::sys::af_inet;
use crate::sys::sockaddr_in_len;
use crate::sys::AF_INET;
use crate::sys::SOCKADDR_IN_LEN;

verus! {

/// Whether `image` is the image of an IPv4 address: sixteen bytes that start
/// with the family tag of IPv4.
pub open spec fn inet4_valid(image: Seq<u8>) -> bool {
    &&& image.len() == SOCKADDR_IN_LEN
    &&& family_tag(image) == AF_INET
}

/// The image of the address of `port` at `ip`: the tag, the port in network
/// byte order, the four bytes of the IP address, and eight zero bytes.
pub open spec fn inet4_image(ip: Seq<u8>, port: u16) -> Seq<u8> {
    tag_image(AF_INET) + port_image(port) + ip + zeros(8)
}

/// The port in the image of an IPv4 address.
pub open spec fn inet4_port(image: Seq<u8>) -> u16 {
    be16(image[2], image[3])
}

/// The IP address in the image of an IPv4 address.
pub open spec fn inet4_ip(image: Seq<u8>) -> Seq<u8> {
    image.subrange(4, 8)
}

/// What becomes of a buffer in which the kernel reports an IPv4 address of
/// `len` bytes.
pub open spec fn inet4_finalized(buffer: Seq<u8>, len: u32) -> Result<Seq<u8>, SocketError> {
    if family_tag(buffer) != AF_INET {
        Err(SocketError::WrongFamily { expected: AF_INET })
    } else if len != SOCKADDR_IN_LEN {
        Err(SocketError::WrongSize)
    } else {
        Ok(buffer.subrange(0, len as int))
    }
}

/// The address made of an IP address and a port holds that IP address and that
/// port, whatever they are.
pub proof fn lemma_inet4_fields_round_trip(ip: Seq<u8>, port: u16)
    requires
        ip.len() == 4,
    ensures
        inet4_valid(inet4_image(ip, port)),
        inet4_ip(inet4_image(ip, port)) == ip,
        inet4_port(inet4_image(ip, port)) == port,
{
    assert(inet4_ip(inet4_image(ip, port)) =~= ip);
}

/// An IPv4 socket address: an IP address and a port.
#[derive(Clone, Copy, Debug)]
pub struct Inet4SocketAddress {
    /// The record: tag, port, IP address, padding.
    inner: [u8; 16],
}

impl View for Inet4SocketAddress {
    type V = Seq<u8>;

    closed spec fn view(&self) -> Seq<u8> {
        self.inner@
    }
}

impl Inet4SocketAddress {
    #[verifier::type_invariant]
    spec fn well_formed(self) -> bool {
        family_tag(self.inner@) == AF_INET
    }

    /// Makes the address of `port` at `ip`.
    pub fn new(ip: [u8; 4], port: u16) -> (address: Self)
        ensures
            address@ == inet4_image(ip@, port),
            inet4_valid(address@),
            inet4_ip(address@) == ip@,
            inet4_port(address@) == port,
    {
        let mut inner = [0u8; 16];
        let tag = af_inet();
        inner[0] = (tag % 256) as u8;
        inner[1] = (tag / 256) as u8;
        inner[2] = (port / 256) as u8;
        inner[3] = (port % 256) as u8;
        inner[4] = ip[0];
        inner[5] = ip[1];
        inner[6] = ip[2];
        inner[7] = ip[3];
        assert(inner@ =~= inet4_image(ip@, port));
        assert(inet4_ip(inner@) =~= ip@);
        Self { inner }
    }

    /// Makes an address of a record, which must carry the family tag of IPv4.
    pub fn from_raw(inner: [u8; 16]) -> (address: Self)
        requires
            family_tag(inner@) == AF_INET,
        ensures
            address@ == inner@,
    {
        Self { inner }
    }

    /// Gives the record.
    pub fn into_raw(self) -> (inner: [u8; 16])
        ensures
            inner@ == self@,
            inet4_valid(self@),
    {
        proof {
            use_type_invariant(&self);
        }
        self.inner
    }

    /// The IP address.
    pub fn ip(&self) -> (ip: [u8; 4])
        ensures
            ip@ == inet4_ip(self@),
    {
        let ip = [self.inner[4], self.inner[5], self.inner[6], self.inner[7]];
        assert(ip@ =~= inet4_ip(self@));
        ip
    }

    /// Replaces the IP address and leaves the rest of the record as it is.
    pub fn set_ip(&mut self, ip: [u8; 4])
        ensures
            final(self)@ == old(self)@.subrange(0, 4) + ip@ + old(self)@.subrange(8, 16),
            inet4_ip(final(self)@) == ip@,
            inet4_port(final(self)@) == inet4_port(old(self)@),
    {
        proof {
            use_type_invariant(&*self);
        }
        let mut inner = self.inner;
        inner[4] = ip[0];
        inner[5] = ip[1];
        inner[6] = ip[2];
        inner[7] = ip[3];
        assert(inner@ =~= old(self)@.subrange(0, 4) + ip@ + old(self)@.subrange(8, 16));
        assert(inet4_ip(inner@) =~= ip@);
        self.inner = inner;
    }

    /// The port, in the byte order of the host.
    pub fn port(&self) -> (port: u16)
        ensures
            port == inet4_port(self@),
    {
        (self.inner[2] as u16) * 256 + (self.inner[3] as u16)
    }

    /// Replaces the port and leaves the rest of the record as it is.
    pub fn set_port(&mut self, port: u16)
        ensures
            final(self)@ == old(self)@.subrange(0, 2) + port_image(port) + old(self)@.subrange(
                4,
                16,
            ),
            inet4_port(final(self)@) == port,
            inet4_ip(final(self)@) == inet4_ip(old(self)@),
    {
        proof {
            use_type_invariant(&*self);
        }
        let mut inner = self.inner;
        inner[2] = (port / 256) as u8;
        inner[3] = (port % 256) as u8;
        assert(inner@ =~= old(self)@.subrange(0, 2) + port_image(port) + old(self)@.subrange(
            4,
            16,
        ));
        assert(inet4_ip(inner@) =~= inet4_ip(old(self)@));
        self.inner = inner;
    }
}

impl AsSocketAddress for Inet4SocketAddress {
    open spec fn capacity() -> nat {
        SOCKADDR_IN_LEN as nat
    }

    open spec fn valid(image: Seq<u8>) -> bool {
        inet4_valid(image)
    }

    open spec fn finalized(buffer: Seq<u8>, len: u32) -> Result<Seq<u8>, SocketError> {
        inet4_finalized(buffer, len)
    }

    fn as_readable(&self) -> (bytes: &[u8]) {
        proof {
            use_type_invariant(self);
        }
        self.inner.as_slice()
    }

    fn len(&self) -> (len: u32) {
        proof {
            use_type_invariant(self);
        }
        Self::max_len()
    }

    fn family(&self) -> (tag: u16)
        ensures
            tag == AF_INET,
    {
        proof {
            use_type_invariant(self);
        }
        self.inner[0] as u16 + 256 * (self.inner[1] as u16)
    }

    fn max_len() -> (len: u32) {
        sockaddr_in_len()
    }

    fn prepare_uninitialized() -> (buffer: Vec<u8>) {
        let buffer = vec![0u8; Self::max_len() as usize];
        assert(buffer@ =~= zeros(Self::capacity()));
        buffer
    }

    fn finalize(buffer: &[u8], len: u32) -> (result: Result<Self, SocketError>)
        ensures
            family_tag(buffer@) != AF_INET ==> result matches Err(
                SocketError::WrongFamily { expected: AF_INET },
            ),
    {
        let tag = buffer[0] as u16 + 256 * (buffer[1] as u16);
        if tag != af_inet() {
            return Err(SocketError::WrongFamily { expected: af_inet() });
        }
        if len != Self::max_len() {
            return Err(SocketError::WrongSize);
        }
        let mut inner = [0u8; 16];
        crate::address::copy_prefix(&mut inner, buffer, 16);
        assert(inner@ =~= buffer@.subrange(0, len as int));
        Ok(Self { inner })
    }

    proof fn lemma_capacity() {
    }

    proof fn lemma_valid(image: Seq<u8>) {
    }

    proof fn lemma_finalized(buffer: Seq<u8>, len: u32) {
    }

    proof fn lemma_round_trip(image: Seq<u8>, buffer: Seq<u8>) {
    }
}

impl SpecificSocketAddress for Inet4SocketAddress {
    open spec fn spec_static_family() -> u16 {
        AF_INET
    }

    fn static_family() -> (tag: u16) {
        af_inet()
    }

    proof fn lemma_valid_family(image: Seq<u8>) {
    }

    proof fn lemma_wrong_family_is_refused(buffer: Seq<u8>, len: u32) {
    }
}

} // verus!
