//! Unix-domain socket addresses: unnamed, bound to a path, or abstract.
use vstd::prelude::*;
use vstd::slice::slice_subrange;
use crate::address::family_tag;
use crate::address::tag_image;
use crate::address::zeros;
use crate::address::AsSocketAddress;
use crate::address::SpecificSocketAddress;
use crate::address::FAMILY_TAG_LEN;
use crate::error::SocketError;
use crate::sys::af_local;
use crate::sys::sockaddr_un_len;
use crate::sys::AF_LOCAL;
use crate::sys::SOCKADDR_UN_LEN;

verus! {

/// Where the name starts in the record: right behind the family tag.
pub const UNIX_NAME_OFFSET: u32 = 2;

/// The length from which on a path no longer fits: the record less the family
/// tag and the terminator of the path.
pub const UNIX_PATH_LIMIT: usize = 107;

/// Whether `image` is the image of a Unix-domain address: the family tag of
/// the family, followed by a name of at most 108 bytes.
pub open spec fn unix_valid(image: Seq<u8>) -> bool {
    &&& UNIX_NAME_OFFSET <= image.len() <= SOCKADDR_UN_LEN
    &&& family_tag(image) == AF_LOCAL
}

/// The image of the address bound to `path`: the tag, the path, a terminator.
pub open spec fn unix_path_image(path: Seq<u8>) -> Seq<u8> {
    tag_image(AF_LOCAL) + path + seq![0u8]
}

/// The image of the unnamed address: the tag and nothing else.
pub open spec fn unix_unnamed_image() -> Seq<u8> {
    tag_image(AF_LOCAL)
}

/// Whether the address with this image is unnamed.
pub open spec fn unix_is_unnamed(image: Seq<u8>) -> bool {
    image.len() == UNIX_NAME_OFFSET
}

/// The path of the address with this image: the name without its last byte,
/// where there is a name and it does not start with a zero byte.
pub open spec fn unix_path(image: Seq<u8>) -> Option<Seq<u8>> {
    if image.len() > UNIX_NAME_OFFSET && image[UNIX_NAME_OFFSET as int] != 0 {
        Some(image.subrange(UNIX_NAME_OFFSET as int, image.len() - 1))
    } else {
        None
    }
}

/// The abstract name of the address with this image: what follows the zero
/// byte that a name starts with.
pub open spec fn unix_abstract(image: Seq<u8>) -> Option<Seq<u8>> {
    if image.len() > UNIX_NAME_OFFSET && image[UNIX_NAME_OFFSET as int] == 0 {
        Some(image.subrange(UNIX_NAME_OFFSET + 1, image.len() as int))
    } else {
        None
    }
}

/// What becomes of a buffer in which the kernel reports a Unix-domain address
/// of `len` bytes.
pub open spec fn unix_finalized(buffer: Seq<u8>, len: u32) -> Result<Seq<u8>, SocketError> {
    if family_tag(buffer) != AF_LOCAL {
        Err(SocketError::WrongFamily { expected: AF_LOCAL })
    } else if len > SOCKADDR_UN_LEN {
        Err(SocketError::TooLarge)
    } else if len < FAMILY_TAG_LEN {
        Err(SocketError::TooShort)
    } else {
        Ok(buffer.subrange(0, len as int))
    }
}

/// Every Unix-domain address is of exactly one kind: it is unnamed, or it
/// names a path, or it has an abstract name. Never none of the three, never two
/// of them.
pub proof fn lemma_exactly_one_kind(address: UnixSocketAddress)
    requires
        unix_valid(address@),
    ensures
        unix_is_unnamed(address@) || unix_path(address@) is Some || unix_abstract(address@)
            is Some,
        !(unix_is_unnamed(address@) && unix_path(address@) is Some),
        !(unix_is_unnamed(address@) && unix_abstract(address@) is Some),
        !(unix_path(address@) is Some && unix_abstract(address@) is Some),
{
}

/// The address made of a path names that path again: for every path that is
/// short enough to fit, is not empty and does not start with a zero byte.
///
/// The empty path and a path that starts with a zero byte make an address
/// whose name starts with a zero byte, which is an abstract address.
pub proof fn lemma_path_round_trip(path: Seq<u8>)
    requires
        0 < path.len() < UNIX_PATH_LIMIT,
        path[0] != 0,
    ensures
        unix_valid(unix_path_image(path)),
        unix_path(unix_path_image(path)) == Some(path),
        unix_abstract(unix_path_image(path)) is None,
        !unix_is_unnamed(unix_path_image(path)),
{
    let image = unix_path_image(path);
    assert(image.subrange(UNIX_NAME_OFFSET as int, image.len() - 1) =~= path);
}

/// The unnamed address is unnamed, and no other kind.
pub proof fn lemma_unnamed_is_unnamed()
    ensures
        unix_valid(unix_unnamed_image()),
        unix_is_unnamed(unix_unnamed_image()),
        unix_path(unix_unnamed_image()) is None,
        unix_abstract(unix_unnamed_image()) is None,
{
}

/// A Unix-domain socket address.
///
/// The address is unnamed, or names a path in the file system, or carries an
/// abstract name. Which of the three it is shows in its length and in the
/// first byte of the name alone.
#[derive(Clone, Copy, Debug)]
pub struct UnixSocketAddress {
    /// The record: the family tag, then the name.
    inner: [u8; 110],
    /// How many bytes of the record count.
    len: u32,
}

impl View for UnixSocketAddress {
    type V = Seq<u8>;

    closed spec fn view(&self) -> Seq<u8> {
        self.inner@.subrange(0, self.len as int)
    }
}

impl UnixSocketAddress {
    #[verifier::type_invariant]
    spec fn well_formed(self) -> bool {
        &&& UNIX_NAME_OFFSET <= self.len <= SOCKADDR_UN_LEN
        &&& family_tag(self.inner@) == AF_LOCAL
    }

    /// The record with nothing in it but the family tag.
    fn tagged() -> (inner: [u8; 110])
        ensures
            inner@ == tag_image(AF_LOCAL) + zeros(108),
    {
        let mut inner = [0u8; 110];
        let tag = af_local();
        inner[0] = (tag % 256) as u8;
        inner[1] = (tag / 256) as u8;
        assert(inner@ =~= tag_image(AF_LOCAL) + zeros(108));
        inner
    }

    /// Makes the address of the socket bound to `path`.
    ///
    /// The path is stored behind the family tag and a zero byte ends it. A path
    /// of 107 bytes or more leaves no room for that and is refused. Whether
    /// the path exists is for the kernel to say.
    pub fn new(path: &[u8]) -> (result: Result<Self, SocketError>)
        ensures
            path@.len() >= UNIX_PATH_LIMIT ==> result == Err::<Self, SocketError>(
                SocketError::PathTooLong,
            ),
            path@.len() < UNIX_PATH_LIMIT ==> result is Ok && result.unwrap()@ == unix_path_image(
                path@,
            ) && unix_valid(result.unwrap()@),
    {
        let room: usize = (sockaddr_un_len() - UNIX_NAME_OFFSET - 1) as usize;
        if path.len() >= room {
            return Err(SocketError::PathTooLong);
        }
        let mut inner = Self::tagged();
        crate::address::copy_range(&mut inner, 2, path);
        let len: u32 = UNIX_NAME_OFFSET + path.len() as u32 + 1;
        let address = Self { inner, len };
        assert(address@ =~= unix_path_image(path@));
        Ok(address)
    }

    /// Makes the unnamed address: the family tag and no name.
    pub fn new_unnamed() -> (address: Self)
        ensures
            address@ == unix_unnamed_image(),
            unix_valid(address@),
    {
        let address = Self { inner: Self::tagged(), len: UNIX_NAME_OFFSET };
        assert(address@ =~= unix_unnamed_image());
        address
    }

    /// Makes an address of a record and the number of its bytes that count.
    ///
    /// The record must carry the family tag of Unix-domain addresses, and the
    /// length must lie between the end of the tag and the end of the record.
    pub fn from_raw(inner: [u8; 110], len: u32) -> (address: Self)
        requires
            UNIX_NAME_OFFSET <= len <= SOCKADDR_UN_LEN,
            family_tag(inner@) == AF_LOCAL,
        ensures
            address@ == inner@.subrange(0, len as int),
            address.raw() == inner@,
    {
        Self { inner, len }
    }

    /// The whole record, also the bytes behind the length.
    pub closed spec fn raw(self) -> Seq<u8> {
        self.inner@
    }

    /// Gives the record and the number of its bytes that count.
    pub fn into_raw(self) -> (parts: ([u8; 110], u32))
        ensures
            parts.0@ == self.raw(),
            parts.1 == self@.len(),
            self@ == parts.0@.subrange(0, parts.1 as int),
            unix_valid(self@),
    {
        proof {
            use_type_invariant(&self);
        }
        (self.inner, self.len)
    }

    /// The path the address names, if it names one: `None` for the unnamed
    /// address and for an abstract one.
    pub fn as_path(&self) -> (path: Option<&[u8]>)
        ensures
            unix_valid(self@),
            (match path {
                Some(bytes) => unix_path(self@) == Some(bytes@),
                None => unix_path(self@) is None,
            }),
    {
        proof {
            use_type_invariant(self);
        }
        let len = self.len as usize;
        if len > 2 && self.inner[2] != 0 {
            let bytes = slice_subrange(self.inner.as_slice(), 2, len - 1);
            assert(bytes@ =~= self@.subrange(2, self@.len() - 1));
            Some(bytes)
        } else {
            None
        }
    }

    /// Whether the address is unnamed: it ends where the family tag ends.
    pub fn is_unnamed(&self) -> (unnamed: bool)
        ensures
            unix_valid(self@),
            unnamed == unix_is_unnamed(self@),
    {
        proof {
            use_type_invariant(self);
        }
        self.len == UNIX_NAME_OFFSET
    }

    /// The abstract name of the address, if it has one: the bytes behind the
    /// zero byte that the name starts with.
    pub fn as_abstract(&self) -> (name: Option<&[u8]>)
        ensures
            unix_valid(self@),
            (match name {
                Some(bytes) => unix_abstract(self@) == Some(bytes@),
                None => unix_abstract(self@) is None,
            }),
    {
        proof {
            use_type_invariant(self);
        }
        let len = self.len as usize;
        if len > 2 && self.inner[2] == 0 {
            let bytes = slice_subrange(self.inner.as_slice(), 3, len);
            assert(bytes@ =~= self@.subrange(3, self@.len() as int));
            Some(bytes)
        } else {
            None
        }
    }
}

impl AsSocketAddress for UnixSocketAddress {
    open spec fn capacity() -> nat {
        SOCKADDR_UN_LEN as nat
    }

    open spec fn valid(image: Seq<u8>) -> bool {
        unix_valid(image)
    }

    open spec fn finalized(buffer: Seq<u8>, len: u32) -> Result<Seq<u8>, SocketError> {
        unix_finalized(buffer, len)
    }

    fn as_readable(&self) -> (bytes: &[u8]) {
        proof {
            use_type_invariant(self);
        }
        slice_subrange(self.inner.as_slice(), 0, self.len as usize)
    }

    fn len(&self) -> (len: u32) {
        proof {
            use_type_invariant(self);
        }
        self.len
    }

    fn family(&self) -> (tag: u16)
        ensures
            tag == AF_LOCAL,
    {
        proof {
            use_type_invariant(self);
        }
        self.inner[0] as u16 + 256 * (self.inner[1] as u16)
    }

    fn max_len() -> (len: u32) {
        sockaddr_un_len()
    }

    fn prepare_uninitialized() -> (buffer: Vec<u8>) {
        let buffer = vec![0u8; Self::max_len() as usize];
        assert(buffer@ =~= zeros(Self::capacity()));
        buffer
    }

    fn finalize(buffer: &[u8], len: u32) -> (result: Result<Self, SocketError>)
        ensures
            family_tag(buffer@) != AF_LOCAL ==> result matches Err(
                SocketError::WrongFamily { expected: AF_LOCAL },
            ),
    {
        let tag = buffer[0] as u16 + 256 * (buffer[1] as u16);
        if tag != af_local() {
            return Err(SocketError::WrongFamily { expected: af_local() });
        }
        if len > Self::max_len() {
            return Err(SocketError::TooLarge);
        }
        if len < FAMILY_TAG_LEN {
            return Err(SocketError::TooShort);
        }
        let mut inner = [0u8; 110];
        crate::address::copy_prefix(&mut inner, buffer, 110);
        assert(inner@ =~= buffer@);
        Ok(Self { inner, len })
    }

    proof fn lemma_capacity() {
    }

    proof fn lemma_valid(image: Seq<u8>) {
    }

    proof fn lemma_finalized(buffer: Seq<u8>, len: u32) {
    }

    proof fn lemma_round_trip(image: Seq<u8>, buffer: Seq<u8>) {
    }
}

impl SpecificSocketAddress for UnixSocketAddress {
    open spec fn spec_static_family() -> u16 {
        AF_LOCAL
    }

    fn static_family() -> (tag: u16) {
        af_local()
    }

    proof fn lemma_valid_family(image: Seq<u8>) {
    }

    proof fn lemma_wrong_family_is_refused(buffer: Seq<u8>, len: u32) {
    }
}

} // verus!
