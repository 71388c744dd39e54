//! What the crate takes from the platform: the numbers libc gives to address
//! families, flags and options, the sizes of its address records, and the
//! error number the last failed call left behind.
//!
//! Executable code asks libc for each number, through a function whose body
//! Verus does not read. The contract of such a function states the value that
//! libc defines for Linux (glibc, x86-64), and is believed, not proved. The
//! constants give those values a name that contracts can use.
use vstd::prelude::*;

verus! {

/// The family tag of IPv4 addresses.
pub const AF_INET: u16 = 2;

/// The family tag of IPv6 addresses.
pub const AF_INET6: u16 = 10;

/// The family tag of Unix-domain addresses.
pub const AF_LOCAL: u16 = 1;

/// The size of an IPv4 address record.
pub const SOCKADDR_IN_LEN: u32 = 16;

/// The size of an IPv6 address record.
pub const SOCKADDR_IN6_LEN: u32 = 28;

/// The size of a Unix-domain address record.
pub const SOCKADDR_UN_LEN: u32 = 110;

/// The size of the record that holds an address of any family.
pub const SOCKADDR_STORAGE_LEN: u32 = 128;

/// The flag in the type of a socket that makes its descriptor close-on-exec
/// from the start.
pub const SOCK_CLOEXEC: i32 = 0o2000000;

/// The error number of an argument the kernel does not accept.
pub const EINVAL: i32 = 22;

/// The flag of a send call that keeps a broken pipe from raising a signal.
pub const MSG_NOSIGNAL: i32 = 0x4000;

/// The flag of a receive call that makes received descriptors close-on-exec.
pub const MSG_CMSG_CLOEXEC: i32 = 0x40000000;

/// The flag of a received message whose ancillary data did not fit.
pub const MSG_CTRUNC: i32 = 8;

/// The level of the options of the socket itself.
pub const SOL_SOCKET: i32 = 1;

/// The number under which the blocking mode is set and read.
pub const O_NONBLOCK: i32 = 2048;

/// The option that holds the pending error of a socket.
pub const SO_ERROR: i32 = 4;

/// A flag that is set on top of other flags is set, and the other flags stay
/// as they were.
pub proof fn lemma_flag_set(flags: i32, flag: i32)
    ensures
        (flags | flag) & flag == flag,
        (flags | flag) & flags == flags,
{
    assert((flags | flag) & flag == flag) by (bit_vector);
    assert((flags | flag) & flags == flags) by (bit_vector);
}

/// `libc::AF_INET` as a family tag. libc defines it as 2.
#[verifier::external_body]
pub(crate) fn af_inet() -> (tag: u16)
    ensures
        tag == AF_INET,
{
    libc::AF_INET as u16
}

/// `libc::AF_INET6` as a family tag. libc defines it as 10 on Linux.
#[verifier::external_body]
pub(crate) fn af_inet6() -> (tag: u16)
    ensures
        tag == AF_INET6,
{
    libc::AF_INET6 as u16
}

/// `libc::AF_LOCAL` as a family tag. libc defines it as 1.
#[verifier::external_body]
pub(crate) fn af_local() -> (tag: u16)
    ensures
        tag == AF_LOCAL,
{
    libc::AF_LOCAL as u16
}

/// The size of `libc::sockaddr_in`: a 2-byte family, a 2-byte port, a 4-byte
/// address and 8 bytes of padding.
#[verifier::external_body]
pub(crate) fn sockaddr_in_len() -> (len: u32)
    ensures
        len == SOCKADDR_IN_LEN,
{
    std::mem::size_of::<libc::sockaddr_in>() as u32
}

/// The size of `libc::sockaddr_in6`: a 2-byte family, a 2-byte port, 4 bytes of
/// flow information, a 16-byte address and a 4-byte scope.
#[verifier::external_body]
pub(crate) fn sockaddr_in6_len() -> (len: u32)
    ensures
        len == SOCKADDR_IN6_LEN,
{
    std::mem::size_of::<libc::sockaddr_in6>() as u32
}

/// The size of `libc::sockaddr_un`: a 2-byte family and 108 bytes of path.
#[verifier::external_body]
pub(crate) fn sockaddr_un_len() -> (len: u32)
    ensures
        len == SOCKADDR_UN_LEN,
{
    std::mem::size_of::<libc::sockaddr_un>() as u32
}

/// The size of `libc::sockaddr_storage`, which libc pads to 128 bytes.
#[verifier::external_body]
pub(crate) fn sockaddr_storage_len() -> (len: u32)
    ensures
        len == SOCKADDR_STORAGE_LEN,
{
    std::mem::size_of::<libc::sockaddr_storage>() as u32
}

/// `libc::SOCK_CLOEXEC`. libc defines it as 0o2000000 on Linux.
#[verifier::external_body]
pub(crate) fn sock_cloexec() -> (flag: i32)
    ensures
        flag == SOCK_CLOEXEC,
{
    libc::SOCK_CLOEXEC
}

/// `libc::EINVAL`. libc defines it as 22.
#[verifier::external_body]
pub(crate) fn einval() -> (code: i32)
    ensures
        code == EINVAL,
{
    libc::EINVAL
}

/// `libc::MSG_NOSIGNAL`. libc defines it as 0x4000 on Linux.
#[verifier::external_body]
pub(crate) fn msg_nosignal() -> (flag: i32)
    ensures
        flag == MSG_NOSIGNAL,
{
    libc::MSG_NOSIGNAL
}

/// `libc::MSG_CMSG_CLOEXEC`. libc defines it as 0x40000000 on Linux.
#[verifier::external_body]
pub(crate) fn msg_cmsg_cloexec() -> (flag: i32)
    ensures
        flag == MSG_CMSG_CLOEXEC,
{
    libc::MSG_CMSG_CLOEXEC
}

/// `libc::MSG_CTRUNC`. libc defines it as 8 on Linux.
#[verifier::external_body]
pub(crate) fn msg_ctrunc() -> (flag: i32)
    ensures
        flag == MSG_CTRUNC,
{
    libc::MSG_CTRUNC
}

/// `libc::SOL_SOCKET`. libc defines it as 1 on Linux.
#[verifier::external_body]
pub(crate) fn sol_socket() -> (level: i32)
    ensures
        level == SOL_SOCKET,
{
    libc::SOL_SOCKET
}

/// `libc::O_NONBLOCK`. libc defines it as 2048 on Linux for x86-64.
#[verifier::external_body]
pub(crate) fn o_nonblock() -> (option: i32)
    ensures
        option == O_NONBLOCK,
{
    libc::O_NONBLOCK
}

/// `libc::SO_ERROR`. libc defines it as 4 on Linux.
#[verifier::external_body]
pub(crate) fn so_error() -> (option: i32)
    ensures
        option == SO_ERROR,
{
    libc::SO_ERROR
}

/// The error type of std's input and output, of which Verus knows the name
/// and nothing else.
#[verifier::external_type_specification]
#[verifier::external_body]
pub struct ExIoError(std::io::Error);

/// `std::io::Error::last_os_error`: the error the operating system reported
/// last to this thread. Nothing is claimed of it: it is whatever the last
/// failed call left behind.
#[verifier::external_body]
pub(crate) fn last_os_error() -> (error: std::io::Error) {
    std::io::Error::last_os_error()
}

/// `std::io::Error::raw_os_error`: the error number the operating system gave
/// with the error, if it came from there. Nothing is claimed of it.
#[verifier::external_body]
pub(crate) fn raw_os_error(error: &std::io::Error) -> (code: Option<i32>) {
    error.raw_os_error()
}

} // verus!
