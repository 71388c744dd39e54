//! The contract every address type meets, and the generic address.
use vstd::prelude::*;
use crate::error::SocketError;

pub mod generic;
pub mod inet4;
pub mod inet6;
pub mod unix;

verus! {

/// The bytes the family tag takes at the start of every record.
pub const FAMILY_TAG_LEN: u32 = 2;

/// The number that two bytes hold, lowest byte first.
pub open spec fn le16(low: u8, high: u8) -> u16 {
    (low as int + 256 * (high as int)) as u16
}

/// The number that two bytes hold, highest byte first: network byte order.
pub open spec fn be16(high: u8, low: u8) -> u16 {
    (256 * (high as int) + low as int) as u16
}

/// The number that four bytes hold, lowest byte first.
pub open spec fn le32(b0: u8, b1: u8, b2: u8, b3: u8) -> u32 {
    (b0 as int + 256 * (b1 as int) + 65536 * (b2 as int) + 16777216 * (b3 as int)) as u32
}

/// The four bytes that hold a 32-bit number, lowest byte first.
pub open spec fn word_image(word: u32) -> Seq<u8> {
    seq![
        (word % 256) as u8,
        (word / 256 % 256) as u8,
        (word / 65536 % 256) as u8,
        (word / 16777216) as u8,
    ]
}

/// The four bytes that hold a number hold that number.
pub proof fn lemma_word_round_trip(word: u32)
    ensures
        word_image(word).len() == 4,
        le32(word_image(word)[0], word_image(word)[1], word_image(word)[2], word_image(word)[3])
            == word,
{
    let b0 = word % 256;
    let b1 = word / 256 % 256;
    let b2 = word / 65536 % 256;
    let b3 = word / 16777216;
    assert(b0 + 256 * b1 + 65536 * b2 + 16777216 * b3 == word) by (bit_vector)
        requires
            b0 == word % 256,
            b1 == word / 256 % 256,
            b2 == word / 65536 % 256,
            b3 == word / 16777216,
    ;
}

/// The two bytes that hold a port or a family tag hold that number.
pub proof fn lemma_half_round_trip(half: u16)
    ensures
        be16(port_image(half)[0], port_image(half)[1]) == half,
        le16(tag_image(half)[0], tag_image(half)[1]) == half,
{
}

/// The family tag at the start of a record of at least two bytes.
pub open spec fn family_tag(image: Seq<u8>) -> u16 {
    le16(image[0], image[1])
}

/// The two bytes that hold a family tag.
pub open spec fn tag_image(tag: u16) -> Seq<u8> {
    seq![(tag % 256) as u8, (tag / 256) as u8]
}

/// The two bytes that hold a port in network byte order.
pub open spec fn port_image(port: u16) -> Seq<u8> {
    seq![(port / 256) as u8, (port % 256) as u8]
}

/// A buffer of `n` zero bytes.
pub open spec fn zeros(n: nat) -> Seq<u8> {
    Seq::new(n, |i: int| 0u8)
}

/// Copies the first `count` bytes of `source` to the start of `target`.
pub(crate) fn copy_prefix<const N: usize>(target: &mut [u8; N], source: &[u8], count: usize)
    requires
        count <= N,
        count <= source@.len(),
    ensures
        final(target)@ == source@.subrange(0, count as int) + old(target)@.subrange(
            count as int,
            N as int,
        ),
{
    let mut i: usize = 0;
    while i < count
        invariant
            i <= count <= N,
            count <= source@.len(),
            target@ == source@.subrange(0, i as int) + old(target)@.subrange(i as int, N as int),
        decreases count - i,
    {
        target[i] = source[i];
        assert(target@ =~= source@.subrange(0, i + 1) + old(target)@.subrange(i + 1, N as int));
        i += 1;
    }
}

/// Copies all of `source` into `target`, from the byte at `at` on.
pub(crate) fn copy_range<const N: usize>(target: &mut [u8; N], at: usize, source: &[u8])
    requires
        at + source@.len() <= N,
    ensures
        final(target)@ == old(target)@.subrange(0, at as int) + source@ + old(target)@.subrange(
            at + source@.len(),
            N as int,
        ),
{
    let mut i: usize = 0;
    while i < source.len()
        invariant
            i <= source@.len(),
            at + source@.len() <= N,
            target@ == old(target)@.subrange(0, at as int) + source@.subrange(0, i as int) + old(
                target,
            )@.subrange(at + i, N as int),
        decreases source@.len() - i,
    {
        target[at + i] = source[i];
        assert(target@ =~= old(target)@.subrange(0, at as int) + source@.subrange(0, i + 1) + old(
            target,
        )@.subrange(at + i + 1, N as int));
        i += 1;
    }
    assert(source@.subrange(0, i as int) =~= source@);
}

/// A type whose values are socket addresses in the kernel's layout.
///
/// The view of an address is its image: the bytes the kernel reads when handed
/// the address, family tag first.
pub trait AsSocketAddress: Sized + View<V = Seq<u8>> {
    /// The most bytes the kernel may write for an address of this type.
    spec fn capacity() -> nat;

    /// Whether `image` is the image of an address of this type.
    spec fn valid(image: Seq<u8>) -> bool;

    /// What `finalize` makes of a buffer in which the kernel reports an address
    /// of `len` bytes: the image of the address, or the reason to refuse it.
    spec fn finalized(buffer: Seq<u8>, len: u32) -> Result<Seq<u8>, SocketError>;

    /// The address as the kernel reads it: exactly `len()` bytes.
    fn as_readable(&self) -> (bytes: &[u8])
        ensures
            bytes@ == self@,
            Self::valid(self@),
    ;

    /// The length of the address, family tag included.
    fn len(&self) -> (len: u32)
        ensures
            len == self@.len(),
            FAMILY_TAG_LEN <= len <= Self::capacity(),
            Self::valid(self@),
    ;

    /// The family tag of the address.
    fn family(&self) -> (tag: u16)
        ensures
            tag == family_tag(self@),
    ;

    /// The room the kernel is offered when it writes an address of this type.
    fn max_len() -> (len: u32)
        ensures
            len == Self::capacity(),
    ;

    /// A buffer of `max_len()` zero bytes for the kernel to write an address
    /// into. Its bytes are no address until `finalize` accepts them.
    fn prepare_uninitialized() -> (buffer: Vec<u8>)
        ensures
            buffer@ == zeros(Self::capacity()),
    ;

    /// Checks a buffer the kernel wrote into, given the length the kernel
    /// reported, and makes it an address.
    fn finalize(buffer: &[u8], len: u32) -> (result: Result<Self, SocketError>)
        requires
            buffer@.len() == Self::capacity(),
        ensures
            (match result {
                Ok(address) => Self::finalized(buffer@, len) == Ok::<Seq<u8>, SocketError>(
                    address@,
                ),
                Err(error) => Self::finalized(buffer@, len) == Err::<Seq<u8>, SocketError>(error),
            }),
    ;

    /// Every type has room for the family tag, and none needs more room than
    /// the generic address has.
    proof fn lemma_capacity()
        ensures
            FAMILY_TAG_LEN <= Self::capacity() <= crate::sys::SOCKADDR_STORAGE_LEN,
    ;

    /// The image of an address holds the family tag at least, and fits the
    /// room of the type.
    proof fn lemma_valid(image: Seq<u8>)
        requires
            Self::valid(image),
        ensures
            FAMILY_TAG_LEN <= image.len() <= Self::capacity(),
    ;

    /// No length beyond the room of the type is accepted, and a buffer is
    /// refused only as invalid data. What is accepted is the image of an
    /// address: the first `len` bytes of the buffer.
    proof fn lemma_finalized(buffer: Seq<u8>, len: u32)
        requires
            buffer.len() == Self::capacity(),
        ensures
            len > Self::capacity() ==> Self::finalized(buffer, len) is Err,
            Self::finalized(buffer, len) matches Err(error) ==> error.spec_kind()
                == crate::error::ErrorKind::InvalidData,
            Self::finalized(buffer, len) matches Ok(image) ==> image == buffer.subrange(
                0,
                len as int,
            ) && Self::valid(image),
    ;

    /// What the kernel reads of an address and writes back, with the length of
    /// the address, is accepted as that address.
    proof fn lemma_round_trip(image: Seq<u8>, buffer: Seq<u8>)
        requires
            Self::valid(image),
            buffer.len() == Self::capacity(),
            buffer.subrange(0, image.len() as int) == image,
        ensures
            Self::finalized(buffer, image.len() as u32) == Ok::<Seq<u8>, SocketError>(image),
    ;
}

/// An address type that holds addresses of any family.
pub trait GenericSocketAddress: AsSocketAddress {

}

/// An address type of one family.
pub trait SpecificSocketAddress: AsSocketAddress {
    /// The one family tag the type accepts.
    spec fn spec_static_family() -> u16;

    /// The family of the addresses of this type.
    fn static_family() -> (tag: u16)
        ensures
            tag == Self::spec_static_family(),
    ;

    /// Every address of the type carries the family tag of the type.
    proof fn lemma_valid_family(image: Seq<u8>)
        requires
            Self::valid(image),
        ensures
            family_tag(image) == Self::spec_static_family(),
    ;

    /// A buffer whose family tag is not the one of the type is refused,
    /// whatever length the kernel reports.
    proof fn lemma_wrong_family_is_refused(buffer: Seq<u8>, len: u32)
        requires
            family_tag(buffer) != Self::spec_static_family(),
        ensures
            Self::finalized(buffer, len) == Err::<Seq<u8>, SocketError>(
                SocketError::WrongFamily { expected: Self::spec_static_family() },
            ),
            Self::finalized(buffer, len) is Err,
            Self::finalized(buffer, len)->Err_0.spec_kind() == crate::error::ErrorKind::InvalidData,
    ;
}

/// Whatever the family of the address type: a buffer that carries the tag of
/// another family never becomes an address. `finalize` refuses it as invalid
/// data, whatever length the kernel reports.
pub proof fn lemma_other_family_is_refused<Address: SpecificSocketAddress>(
    buffer: Seq<u8>,
    len: u32,
)
    requires
        family_tag(buffer) != Address::spec_static_family(),
    ensures
        Address::finalized(buffer, len) is Err,
        Address::finalized(buffer, len)->Err_0.spec_kind() == crate::error::ErrorKind::InvalidData,
{
    Address::lemma_wrong_family_is_refused(buffer, len);
}

} // verus!
