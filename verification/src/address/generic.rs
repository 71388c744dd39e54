//! The address that holds a record of any family.
use vstd::prelude::*;
use vstd::slice::slice_subrange;
use crate::address::copy_prefix;
use crate::address::family_tag;
use crate::address::inet4::inet4_valid;
use crate::address::inet4::Inet4SocketAddress;
use crate::address::inet6::inet6_valid;
use crate::address::inet6::Inet6SocketAddress;
use crate::address::unix::unix_valid;
use crate::address::unix::UnixSocketAddress;
use crate::address::zeros;
use crate::address::AsSocketAddress;
use crate::address::GenericSocketAddress;
use crate::address::FAMILY_TAG_LEN;
use crate::error::SocketError;
use crate::sys::af_inet;
use crate::sys::af_inet6;
use crate::sys::af_local;
use crate::sys::sockaddr_in6_len;
use crate::sys::sockaddr_in_len;
use crate::sys::sockaddr_storage_len;
use crate::sys::sockaddr_un_len;
use crate::sys::SOCKADDR_STORAGE_LEN;

verus! {

/// Whether `image` is the image of some address: long enough to hold the
/// family tag and no longer than the storage.
pub open spec fn storage_valid(image: Seq<u8>) -> bool {
    FAMILY_TAG_LEN <= image.len() <= SOCKADDR_STORAGE_LEN
}

/// What becomes of a buffer in which the kernel reports an address of `len`
/// bytes whose family is not known beforehand.
pub open spec fn storage_finalized(buffer: Seq<u8>, len: u32) -> Result<Seq<u8>, SocketError> {
    if len > SOCKADDR_STORAGE_LEN {
        Err(SocketError::TooLarge)
    } else if len < FAMILY_TAG_LEN {
        Err(SocketError::TooShort)
    } else {
        Ok(buffer.subrange(0, len as int))
    }
}

/// The image of an address of any type is the image of a generic address: the
/// storage has room for it.
pub proof fn lemma_fits_storage<Address: AsSocketAddress>(image: Seq<u8>)
    requires
        Address::valid(image),
    ensures
        storage_valid(image),
{
    Address::lemma_valid(image);
    Address::lemma_capacity();
}

/// The storage that starts with `image` and has zero bytes behind it.
spec fn storage_of(image: Seq<u8>) -> [u8; 128] {
    choose|inner: [u8; 128]| inner@ == image + zeros((128 - image.len()) as nat)
}

/// The generic address with the image `image`, and zero bytes behind it in the
/// storage.
pub closed spec fn generic_of(image: Seq<u8>) -> SocketAddress {
    SocketAddress { inner: storage_of(image), len: image.len() as u32 }
}

/// A socket address of any family: storage large enough for every record, and
/// the number of bytes of it that count.
#[derive(Clone, Copy, Debug)]
pub struct SocketAddress {
    /// The storage. The record starts at its first byte.
    inner: [u8; 128],
    /// How many bytes of the storage count.
    len: u32,
}

impl View for SocketAddress {
    type V = Seq<u8>;

    closed spec fn view(&self) -> Seq<u8> {
        self.inner@.subrange(0, self.len as int)
    }
}

impl SocketAddress {
    #[verifier::type_invariant]
    spec fn well_formed(self) -> bool {
        FAMILY_TAG_LEN <= self.len <= SOCKADDR_STORAGE_LEN
    }

    /// The whole storage, also the bytes behind the length.
    pub closed spec fn raw(self) -> Seq<u8> {
        self.inner@
    }

    /// Makes an address of storage and the number of its bytes that count,
    /// which must reach to the end of the family tag at least and to the end
    /// of the storage at most.
    pub fn from_raw(inner: [u8; 128], len: u32) -> (address: Self)
        requires
            FAMILY_TAG_LEN <= len <= SOCKADDR_STORAGE_LEN,
        ensures
            address@ == inner@.subrange(0, len as int),
            address.raw() == inner@,
    {
        Self { inner, len }
    }

    /// Makes the generic address with the image of `other`.
    pub fn from_other<Address: AsSocketAddress>(other: &Address) -> (address: Self)
        ensures
            address@ == other@,
            address.raw() == other@ + zeros((128 - other@.len()) as nat),
            address == generic_of(other@),
    {
        let len = other.len();
        let bytes = other.as_readable();
        proof {
            Address::lemma_capacity();
        }
        let mut inner = [0u8; 128];
        copy_prefix(&mut inner, bytes, len as usize);
        let address = Self { inner, len };
        assert(address@ =~= other@);
        assert(inner@ =~= other@ + zeros((128 - other@.len()) as nat));
        assert(storage_of(other@) =~= inner);
        address
    }

    /// Gives the storage and the number of its bytes that count.
    pub fn into_raw(self) -> (parts: ([u8; 128], u32))
        ensures
            parts.0@ == self.raw(),
            parts.1 == self@.len(),
            self@ == parts.0@.subrange(0, parts.1 as int),
            storage_valid(self@),
    {
        proof {
            use_type_invariant(&self);
        }
        (self.inner, self.len)
    }

    /// The address family.
    pub fn family(&self) -> (family: i32)
        ensures
            family == family_tag(self@),
    {
        proof {
            use_type_invariant(self);
        }
        (self.inner[0] as u16 + 256 * (self.inner[1] as u16)) as i32
    }

    /// The address as an IPv4 address, if it is the whole record of one.
    pub fn as_inet4(&self) -> (address: Option<Inet4SocketAddress>)
        ensures
            (match address {
                Some(inet4) => inet4_valid(self@) && inet4@ == self@,
                None => !inet4_valid(self@),
            }),
    {
        proof {
            use_type_invariant(self);
        }
        if self.family() == af_inet() as i32 && self.len == sockaddr_in_len() {
            let mut inner = [0u8; 16];
            copy_prefix(&mut inner, self.inner.as_slice(), 16);
            assert(inner@ =~= self@);
            Some(Inet4SocketAddress::from_raw(inner))
        } else {
            None
        }
    }

    /// The address as an IPv6 address, if it is the whole record of one.
    pub fn as_inet6(&self) -> (address: Option<Inet6SocketAddress>)
        ensures
            (match address {
                Some(inet6) => inet6_valid(self@) && inet6@ == self@,
                None => !inet6_valid(self@),
            }),
    {
        proof {
            use_type_invariant(self);
        }
        if self.family() == af_inet6() as i32 && self.len == sockaddr_in6_len() {
            let mut inner = [0u8; 28];
            copy_prefix(&mut inner, self.inner.as_slice(), 28);
            assert(inner@ =~= self@);
            Some(Inet6SocketAddress::from_raw(inner))
        } else {
            None
        }
    }

    /// The address as a Unix-domain address, if it is one and fits the record
    /// of one.
    pub fn as_unix(&self) -> (address: Option<UnixSocketAddress>)
        ensures
            (match address {
                Some(unix) => unix_valid(self@) && unix@ == self@,
                None => !unix_valid(self@),
            }),
    {
        proof {
            use_type_invariant(self);
        }
        if self.family() == af_local() as i32 && self.len <= sockaddr_un_len() {
            let mut inner = [0u8; 110];
            copy_prefix(&mut inner, self.inner.as_slice(), 110);
            let unix = UnixSocketAddress::from_raw(inner, self.len);
            assert(unix@ =~= self@);
            Some(unix)
        } else {
            None
        }
    }
}

impl AsSocketAddress for SocketAddress {
    open spec fn capacity() -> nat {
        SOCKADDR_STORAGE_LEN as nat
    }

    open spec fn valid(image: Seq<u8>) -> bool {
        storage_valid(image)
    }

    open spec fn finalized(buffer: Seq<u8>, len: u32) -> Result<Seq<u8>, SocketError> {
        storage_finalized(buffer, len)
    }

    fn as_readable(&self) -> (bytes: &[u8]) {
        proof {
            use_type_invariant(self);
        }
        slice_subrange(self.inner.as_slice(), 0, self.len as usize)
    }

    fn len(&self) -> (len: u32) {
        proof {
            use_type_invariant(self);
        }
        self.len
    }

    fn family(&self) -> (tag: u16) {
        proof {
            use_type_invariant(self);
        }
        self.inner[0] as u16 + 256 * (self.inner[1] as u16)
    }

    fn max_len() -> (len: u32) {
        sockaddr_storage_len()
    }

    fn prepare_uninitialized() -> (buffer: Vec<u8>) {
        let buffer = vec![0u8; Self::max_len() as usize];
        assert(buffer@ =~= zeros(Self::capacity()));
        buffer
    }

    fn finalize(buffer: &[u8], len: u32) -> (result: Result<Self, SocketError>) {
        if len > Self::max_len() {
            return Err(SocketError::TooLarge);
        }
        if len < FAMILY_TAG_LEN {
            return Err(SocketError::TooShort);
        }
        let mut inner = [0u8; 128];
        copy_prefix(&mut inner, buffer, 128);
        assert(inner@ =~= buffer@);
        Ok(Self { inner, len })
    }

    proof fn lemma_capacity() {
    }

    proof fn lemma_valid(image: Seq<u8>) {
    }

    proof fn lemma_finalized(buffer: Seq<u8>, len: u32) {
    }

    proof fn lemma_round_trip(image: Seq<u8>, buffer: Seq<u8>) {
    }
}

impl GenericSocketAddress for SocketAddress {

}

impl From<Inet4SocketAddress> for SocketAddress {
    fn from(other: Inet4SocketAddress) -> (address: Self)
        ensures
            address@ == other@,
    {
        Self::from_other(&other)
    }
}

impl vstd::std_specs::convert::FromSpecImpl<Inet4SocketAddress> for SocketAddress {
    open spec fn obeys_from_spec() -> bool {
        true
    }

    open spec fn from_spec(other: Inet4SocketAddress) -> Self {
        generic_of(other@)
    }
}

impl From<&Inet4SocketAddress> for SocketAddress {
    fn from(other: &Inet4SocketAddress) -> (address: Self)
        ensures
            address@ == other@,
    {
        Self::from_other(other)
    }
}

impl vstd::std_specs::convert::FromSpecImpl<&Inet4SocketAddress> for SocketAddress {
    open spec fn obeys_from_spec() -> bool {
        true
    }

    open spec fn from_spec(other: &Inet4SocketAddress) -> Self {
        generic_of(other@)
    }
}

impl From<Inet6SocketAddress> for SocketAddress {
    fn from(other: Inet6SocketAddress) -> (address: Self)
        ensures
            address@ == other@,
    {
        Self::from_other(&other)
    }
}

impl vstd::std_specs::convert::FromSpecImpl<Inet6SocketAddress> for SocketAddress {
    open spec fn obeys_from_spec() -> bool {
        true
    }

    open spec fn from_spec(other: Inet6SocketAddress) -> Self {
        generic_of(other@)
    }
}

impl From<&Inet6SocketAddress> for SocketAddress {
    fn from(other: &Inet6SocketAddress) -> (address: Self)
        ensures
            address@ == other@,
    {
        Self::from_other(other)
    }
}

impl vstd::std_specs::convert::FromSpecImpl<&Inet6SocketAddress> for SocketAddress {
    open spec fn obeys_from_spec() -> bool {
        true
    }

    open spec fn from_spec(other: &Inet6SocketAddress) -> Self {
        generic_of(other@)
    }
}

impl From<UnixSocketAddress> for SocketAddress {
    fn from(other: UnixSocketAddress) -> (address: Self)
        ensures
            address@ == other@,
    {
        Self::from_other(&other)
    }
}

impl vstd::std_specs::convert::FromSpecImpl<UnixSocketAddress> for SocketAddress {
    open spec fn obeys_from_spec() -> bool {
        true
    }

    open spec fn from_spec(other: UnixSocketAddress) -> Self {
        generic_of(other@)
    }
}

impl From<&UnixSocketAddress> for SocketAddress {
    fn from(other: &UnixSocketAddress) -> (address: Self)
        ensures
            address@ == other@,
    {
        Self::from_other(other)
    }
}

impl vstd::std_specs::convert::FromSpecImpl<&UnixSocketAddress> for SocketAddress {
    open spec fn obeys_from_spec() -> bool {
        true
    }

    open spec fn from_spec(other: &UnixSocketAddress) -> Self {
        generic_of(other@)
    }
}

} // verus!
