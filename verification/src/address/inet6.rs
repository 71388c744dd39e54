//! IPv6 socket addresses.
use vstd::prelude::*;
use crate::address::be16;
use crate::address::family_tag;
use crate::address::le32;
use crate::address::port_image;
use crate::address::tag_image;
use crate::address::word_image;
use crate::address::zeros;
use crate::address::AsSocketAddress;
use crate::address::SpecificSocketAddress;
use crate::error::SocketError;
use crate::sys::af_inet6;
use crate::sys::sockaddr_in6_len;
use crate::sys::AF_INET6;
use crate::sys::SOCKADDR_IN6_LEN;

verus! {

/// Whether `image` is the image of an IPv6 address: twenty-eight bytes that
/// start with the family tag of IPv6.
pub open spec fn inet6_valid(image: Seq<u8>) -> bool {
    &&& image.len() == SOCKADDR_IN6_LEN
    &&& family_tag(image) == AF_INET6
}

/// The image of the address of `port` at `ip`: the tag, the port in network
/// byte order, the flow information, the sixteen bytes of the IP address, and
/// the scope.
pub open spec fn inet6_image(ip: Seq<u8>, port: u16, flowinfo: u32, scope_id: u32) -> Seq<u8> {
    tag_image(AF_INET6) + port_image(port) + word_image(flowinfo) + ip + word_image(scope_id)
}

/// The port in the image of an IPv6 address.
pub open spec fn inet6_port(image: Seq<u8>) -> u16 {
    be16(image[2], image[3])
}

/// The flow information in the image of an IPv6 address.
pub open spec fn inet6_flowinfo(image: Seq<u8>) -> u32 {
    le32(image[4], image[5], image[6], image[7])
}

/// The IP address in the image of an IPv6 address.
pub open spec fn inet6_ip(image: Seq<u8>) -> Seq<u8> {
    image.subrange(8, 24)
}

/// The scope in the image of an IPv6 address.
pub open spec fn inet6_scope_id(image: Seq<u8>) -> u32 {
    le32(image[24], image[25], image[26], image[27])
}

/// What becomes of a buffer in which the kernel reports an IPv6 address of
/// `len` bytes.
pub open spec fn inet6_finalized(buffer: Seq<u8>, len: u32) -> Result<Seq<u8>, SocketError> {
    if family_tag(buffer) != AF_INET6 {
        Err(SocketError::WrongFamily { expected: AF_INET6 })
    } else if len != SOCKADDR_IN6_LEN {
        Err(SocketError::WrongSize)
    } else {
        Ok(buffer.subrange(0, len as int))
    }
}

/// The address made of an IP address, a port, flow information and a scope
/// holds all four as they were given, whatever they are.
pub proof fn lemma_inet6_fields_round_trip(ip: Seq<u8>, port: u16, flowinfo: u32, scope_id: u32)
    requires
        ip.len() == 16,
    ensures
        inet6_valid(inet6_image(ip, port, flowinfo, scope_id)),
        inet6_ip(inet6_image(ip, port, flowinfo, scope_id)) == ip,
        inet6_port(inet6_image(ip, port, flowinfo, scope_id)) == port,
        inet6_flowinfo(inet6_image(ip, port, flowinfo, scope_id)) == flowinfo,
        inet6_scope_id(inet6_image(ip, port, flowinfo, scope_id)) == scope_id,
{
    let image = inet6_image(ip, port, flowinfo, scope_id);
    assert(image.len() == 28);
    assert(image.subrange(4, 8) =~= word_image(flowinfo));
    assert(image.subrange(24, 28) =~= word_image(scope_id));
    assert(image.subrange(2, 4) =~= port_image(port));
    assert(image.subrange(0, 2) =~= tag_image(AF_INET6));
    assert(inet6_ip(image) =~= ip);
    crate::address::lemma_word_round_trip(flowinfo);
    crate::address::lemma_word_round_trip(scope_id);
    crate::address::lemma_half_round_trip(port);
    assert(image[4] == image.subrange(4, 8)[0] && image[5] == image.subrange(4, 8)[1] && image[6]
        == image.subrange(4, 8)[2] && image[7] == image.subrange(4, 8)[3]);
    assert(image[24] == image.subrange(24, 28)[0] && image[25] == image.subrange(24, 28)[1]
        && image[26] == image.subrange(24, 28)[2] && image[27] == image.subrange(24, 28)[3]);
    assert(image[2] == image.subrange(2, 4)[0] && image[3] == image.subrange(2, 4)[1]);
    assert(image[0] == image.subrange(0, 2)[0] && image[1] == image.subrange(0, 2)[1]);
}

/// An IPv6 socket address: an IP address, a port, the flow information and the
/// scope.
#[derive(Clone, Copy, Debug)]
pub struct Inet6SocketAddress {
    /// The record: tag, port, flow information, IP address, scope.
    inner: [u8; 28],
}

impl View for Inet6SocketAddress {
    type V = Seq<u8>;

    closed spec fn view(&self) -> Seq<u8> {
        self.inner@
    }
}

/// Writes `word` into four bytes of `inner`, lowest byte first.
fn put_word(inner: &mut [u8; 28], at: usize, word: u32)
    requires
        at + 4 <= 28,
    ensures
        final(inner)@ == old(inner)@.subrange(0, at as int) + word_image(word) + old(
            inner,
        )@.subrange(at + 4, 28),
{
    inner[at] = (word % 256) as u8;
    inner[at + 1] = (word / 256 % 256) as u8;
    inner[at + 2] = (word / 65536 % 256) as u8;
    inner[at + 3] = (word / 16777216) as u8;
    assert(inner@ =~= old(inner)@.subrange(0, at as int) + word_image(word) + old(
        inner,
    )@.subrange(at + 4, 28));
}

/// Reads the word that four bytes of `inner` hold, lowest byte first.
fn get_word(inner: &[u8; 28], at: usize) -> (word: u32)
    requires
        at + 4 <= 28,
    ensures
        word == le32(inner@[at as int], inner@[at + 1], inner@[at + 2], inner@[at + 3]),
{
    inner[at] as u32 + 256 * (inner[at + 1] as u32) + 65536 * (inner[at + 2] as u32) + 16777216
        * (inner[at + 3] as u32)
}

impl Inet6SocketAddress {
    #[verifier::type_invariant]
    spec fn well_formed(self) -> bool {
        family_tag(self.inner@) == AF_INET6
    }

    /// Makes the address of `port` at `ip`, with its flow information and
    /// scope.
    pub fn new(ip: [u8; 16], port: u16, flowinfo: u32, scope_id: u32) -> (address: Self)
        ensures
            address@ == inet6_image(ip@, port, flowinfo, scope_id),
            inet6_valid(address@),
            inet6_ip(address@) == ip@,
            inet6_port(address@) == port,
            inet6_flowinfo(address@) == flowinfo,
            inet6_scope_id(address@) == scope_id,
    {
        let mut inner = [0u8; 28];
        let tag = af_inet6();
        inner[0] = (tag % 256) as u8;
        inner[1] = (tag / 256) as u8;
        inner[2] = (port / 256) as u8;
        inner[3] = (port % 256) as u8;
        put_word(&mut inner, 4, flowinfo);
        crate::address::copy_range(&mut inner, 8, ip.as_slice());
        put_word(&mut inner, 24, scope_id);
        proof {
            assert(inner@ =~= inet6_image(ip@, port, flowinfo, scope_id));
            lemma_inet6_fields_round_trip(ip@, port, flowinfo, scope_id);
        }
        Self { inner }
    }

    /// Makes an address of a record, which must carry the family tag of IPv6.
    pub fn from_raw(inner: [u8; 28]) -> (address: Self)
        requires
            family_tag(inner@) == AF_INET6,
        ensures
            address@ == inner@,
    {
        Self { inner }
    }

    /// Gives the record.
    pub fn into_raw(self) -> (inner: [u8; 28])
        ensures
            inner@ == self@,
            inet6_valid(self@),
    {
        proof {
            use_type_invariant(&self);
        }
        self.inner
    }

    /// The IP address.
    pub fn ip(&self) -> (ip: [u8; 16])
        ensures
            ip@ == inet6_ip(self@),
    {
        let mut ip = [0u8; 16];
        let bytes = vstd::slice::slice_subrange(self.inner.as_slice(), 8, 24);
        crate::address::copy_prefix(&mut ip, bytes, 16);
        assert(ip@ =~= inet6_ip(self@));
        ip
    }

    /// Replaces the IP address and leaves the rest of the record as it is.
    pub fn set_ip(&mut self, ip: [u8; 16])
        ensures
            final(self)@ == old(self)@.subrange(0, 8) + ip@ + old(self)@.subrange(24, 28),
            inet6_ip(final(self)@) == ip@,
            inet6_port(final(self)@) == inet6_port(old(self)@),
            inet6_flowinfo(final(self)@) == inet6_flowinfo(old(self)@),
            inet6_scope_id(final(self)@) == inet6_scope_id(old(self)@),
    {
        proof {
            use_type_invariant(&*self);
        }
        let mut inner = self.inner;
        crate::address::copy_range(&mut inner, 8, ip.as_slice());
        assert(inet6_ip(inner@) =~= ip@);
        self.inner = inner;
    }

    /// The port, in the byte order of the host.
    pub fn port(&self) -> (port: u16)
        ensures
            port == inet6_port(self@),
    {
        (self.inner[2] as u16) * 256 + (self.inner[3] as u16)
    }

    /// Replaces the port and leaves the rest of the record as it is.
    pub fn set_port(&mut self, port: u16)
        ensures
            final(self)@ == old(self)@.subrange(0, 2) + port_image(port) + old(self)@.subrange(
                4,
                28,
            ),
            inet6_port(final(self)@) == port,
            inet6_ip(final(self)@) == inet6_ip(old(self)@),
            inet6_flowinfo(final(self)@) == inet6_flowinfo(old(self)@),
            inet6_scope_id(final(self)@) == inet6_scope_id(old(self)@),
    {
        proof {
            use_type_invariant(&*self);
        }
        let mut inner = self.inner;
        inner[2] = (port / 256) as u8;
        inner[3] = (port % 256) as u8;
        assert(inner@ =~= old(self)@.subrange(0, 2) + port_image(port) + old(self)@.subrange(
            4,
            28,
        ));
        assert(inet6_ip(inner@) =~= inet6_ip(old(self)@));
        self.inner = inner;
    }

    /// The flow information.
    pub fn flowinfo(&self) -> (flowinfo: u32)
        ensures
            flowinfo == inet6_flowinfo(self@),
    {
        get_word(&self.inner, 4)
    }

    /// Replaces the flow information and leaves the rest of the record as it
    /// is.
    pub fn set_flowinfo(&mut self, flowinfo: u32)
        ensures
            final(self)@ == old(self)@.subrange(0, 4) + word_image(flowinfo) + old(
                self,
            )@.subrange(8, 28),
            inet6_flowinfo(final(self)@) == flowinfo,
            inet6_ip(final(self)@) == inet6_ip(old(self)@),
            inet6_port(final(self)@) == inet6_port(old(self)@),
            inet6_scope_id(final(self)@) == inet6_scope_id(old(self)@),
    {
        proof {
            use_type_invariant(&*self);
        }
        let mut inner = self.inner;
        put_word(&mut inner, 4, flowinfo);
        proof {
            assert(inet6_ip(inner@) =~= inet6_ip(old(self)@));
            assert(inner@.subrange(4, 8) =~= word_image(flowinfo));
            assert(inner@[4] == inner@.subrange(4, 8)[0] && inner@[5] == inner@.subrange(4, 8)[1]
                && inner@[6] == inner@.subrange(4, 8)[2] && inner@[7] == inner@.subrange(4, 8)[3]);
            crate::address::lemma_word_round_trip(flowinfo);
        }
        self.inner = inner;
    }

    /// The scope.
    pub fn scope_id(&self) -> (scope_id: u32)
        ensures
            scope_id == inet6_scope_id(self@),
    {
        get_word(&self.inner, 24)
    }

    /// Replaces the scope and leaves the rest of the record as it is.
    pub fn set_scope_id(&mut self, scope_id: u32)
        ensures
            final(self)@ == old(self)@.subrange(0, 24) + word_image(scope_id),
            inet6_scope_id(final(self)@) == scope_id,
            inet6_ip(final(self)@) == inet6_ip(old(self)@),
            inet6_port(final(self)@) == inet6_port(old(self)@),
            inet6_flowinfo(final(self)@) == inet6_flowinfo(old(self)@),
    {
        proof {
            use_type_invariant(&*self);
        }
        let mut inner = self.inner;
        put_word(&mut inner, 24, scope_id);
        proof {
            assert(inner@ =~= old(self)@.subrange(0, 24) + word_image(scope_id));
            assert(inet6_ip(inner@) =~= inet6_ip(old(self)@));
            assert(inner@.subrange(24, 28) =~= word_image(scope_id));
            assert(inner@[24] == inner@.subrange(24, 28)[0] && inner@[25] == inner@.subrange(
                24,
                28,
            )[1] && inner@[26] == inner@.subrange(24, 28)[2] && inner@[27] == inner@.subrange(
                24,
                28,
            )[3]);
            crate::address::lemma_word_round_trip(scope_id);
        }
        self.inner = inner;
    }
}

impl AsSocketAddress for Inet6SocketAddress {
    open spec fn capacity() -> nat {
        SOCKADDR_IN6_LEN as nat
    }

    open spec fn valid(image: Seq<u8>) -> bool {
        inet6_valid(image)
    }

    open spec fn finalized(buffer: Seq<u8>, len: u32) -> Result<Seq<u8>, SocketError> {
        inet6_finalized(buffer, len)
    }

    fn as_readable(&self) -> (bytes: &[u8]) {
        proof {
            use_type_invariant(self);
        }
        self.inner.as_slice()
    }

    fn len(&self) -> (len: u32) {
        proof {
            use_type_invariant(self);
        }
        Self::max_len()
    }

    fn family(&self) -> (tag: u16)
        ensures
            tag == AF_INET6,
    {
        proof {
            use_type_invariant(self);
        }
        self.inner[0] as u16 + 256 * (self.inner[1] as u16)
    }

    fn max_len() -> (len: u32) {
        sockaddr_in6_len()
    }

    fn prepare_uninitialized() -> (buffer: Vec<u8>) {
        let buffer = vec![0u8; Self::max_len() as usize];
        assert(buffer@ =~= zeros(Self::capacity()));
        buffer
    }

    fn finalize(buffer: &[u8], len: u32) -> (result: Result<Self, SocketError>)
        ensures
            family_tag(buffer@) != AF_INET6 ==> result matches Err(
                SocketError::WrongFamily { expected: AF_INET6 },
            ),
    {
        let tag = buffer[0] as u16 + 256 * (buffer[1] as u16);
        if tag != af_inet6() {
            return Err(SocketError::WrongFamily { expected: af_inet6() });
        }
        if len != Self::max_len() {
            return Err(SocketError::WrongSize);
        }
        let mut inner = [0u8; 28];
        crate::address::copy_prefix(&mut inner, buffer, 28);
        assert(inner@ =~= buffer@.subrange(0, len as int));
        Ok(Self { inner })
    }

    proof fn lemma_capacity() {
    }

    proof fn lemma_valid(image: Seq<u8>) {
    }

    proof fn lemma_finalized(buffer: Seq<u8>, len: u32) {
    }

    proof fn lemma_round_trip(image: Seq<u8>, buffer: Seq<u8>) {
    }
}

impl SpecificSocketAddress for Inet6SocketAddress {
    open spec fn spec_static_family() -> u16 {
        AF_INET6
    }

    fn static_family() -> (tag: u16) {
        af_inet6()
    }

    proof fn lemma_valid_family(image: Seq<u8>) {
    }

    proof fn lemma_wrong_family_is_refused(buffer: Seq<u8>, len: u32) {
    }
}

} // verus!
