//! The socket: a descriptor that speaks one type of address.
//!
//! For every operation there is a function that says what the kernel is to be
//! asked, and a function that says what the kernel's answer means. Making a
//! socket may take several calls; its state machine is in `creation`.
use vstd::prelude::*;
use crate::address::AsSocketAddress;
use crate::address::SpecificSocketAddress;
use crate::ancillary::control_truncated;
use crate::ancillary::SocketAncillary;
use crate::creation::Creation;
use crate::creation::PairCreation;
use crate::error::SocketError;
use crate::sys::last_os_error;
use crate::sys::lemma_flag_set;
use crate::sys::msg_cmsg_cloexec;
use crate::sys::msg_nosignal;
use crate::sys::o_nonblock;
use crate::sys::raw_os_error;
use crate::sys::so_error;
use crate::sys::sock_cloexec;
use crate::sys::sol_socket;
use crate::sys::MSG_CMSG_CLOEXEC;
use crate::sys::MSG_NOSIGNAL;
use crate::sys::O_NONBLOCK;
use crate::sys::SOCK_CLOEXEC;
use crate::sys::SOL_SOCKET;
use crate::sys::SO_ERROR;

verus! {

/// What a call that returns an `int` came to: -1 says that it failed, with the
/// reason in `errno`; any other value is its result.
pub open spec fn outcome_of(ret: i32, errno: i32) -> Result<i32, SocketError> {
    if ret == -1 {
        Err(SocketError::Os(errno))
    } else {
        Ok(ret)
    }
}

/// What a call that returns a size came to: -1 says that it failed, with the
/// reason in `errno`; any other value is its result.
pub open spec fn outcome_of_isize(ret: isize, errno: i32) -> Result<isize, SocketError> {
    if ret == -1 {
        Err(SocketError::Os(errno))
    } else {
        Ok(ret)
    }
}

/// The error number to go by when the platform has an error but gives no
/// number for it.
pub const NO_ERROR_NUMBER: i32 = 0;

/// The error number of a failed call, given what the platform has for it.
pub open spec fn error_number(code: Option<i32>) -> i32 {
    match code {
        Some(number) => number,
        None => NO_ERROR_NUMBER,
    }
}

/// The error of a failed call, given the number the platform has for it.
pub fn os_error(code: Option<i32>) -> (error: SocketError)
    ensures
        error == SocketError::Os(error_number(code)),
{
    match code {
        Some(number) => SocketError::Os(number),
        None => SocketError::Os(NO_ERROR_NUMBER),
    }
}

/// Turns the return value of a call into its outcome, given the error number
/// the call left behind.
pub fn check_ret_with(ret: i32, errno: i32) -> (outcome: Result<i32, SocketError>)
    ensures
        outcome == outcome_of(ret, errno),
{
    if ret == -1 {
        Err(SocketError::Os(errno))
    } else {
        Ok(ret)
    }
}

/// Turns the return value of a call into its outcome, given the error number
/// the call left behind.
pub fn check_ret_isize_with(ret: isize, errno: i32) -> (outcome: Result<isize, SocketError>)
    ensures
        outcome == outcome_of_isize(ret, errno),
{
    if ret == -1 {
        Err(SocketError::Os(errno))
    } else {
        Ok(ret)
    }
}

/// Turns the return value of the call that was made last into its outcome.
///
/// A value other than -1 is the result. For -1 the error is the one the
/// operating system reported last to this thread, so nothing may run between
/// the call and this function.
pub fn check_ret(ret: i32) -> (outcome: Result<i32, SocketError>)
    ensures
        ret != -1 ==> outcome == Ok::<i32, SocketError>(ret),
        ret == -1 ==> (outcome matches Err(error) && error is Os),
        exists|errno: i32| outcome == #[trigger] outcome_of(ret, errno),
{
    if ret == -1 {
        let error = last_os_error();
        let code = raw_os_error(&error);
        assert(outcome_of(ret, error_number(code)) == Err::<i32, SocketError>(
            SocketError::Os(error_number(code)),
        ));
        Err(os_error(code))
    } else {
        assert(outcome_of(ret, NO_ERROR_NUMBER) == Ok::<i32, SocketError>(ret));
        Ok(ret)
    }
}

/// Turns the return value of the call that was made last into its outcome.
///
/// A value other than -1 is the result. For -1 the error is the one the
/// operating system reported last to this thread, so nothing may run between
/// the call and this function.
pub fn check_ret_isize(ret: isize) -> (outcome: Result<isize, SocketError>)
    ensures
        ret != -1 ==> outcome == Ok::<isize, SocketError>(ret),
        ret == -1 ==> (outcome matches Err(error) && error is Os),
        exists|errno: i32| outcome == #[trigger] outcome_of_isize(ret, errno),
{
    if ret == -1 {
        let error = last_os_error();
        let code = raw_os_error(&error);
        assert(outcome_of_isize(ret, error_number(code)) == Err::<isize, SocketError>(
            SocketError::Os(error_number(code)),
        ));
        Err(os_error(code))
    } else {
        assert(outcome_of_isize(ret, NO_ERROR_NUMBER) == Ok::<isize, SocketError>(ret));
        Ok(ret)
    }
}

/// The number the kernel takes for a truth value.
pub fn bool_to_c_int(value: bool) -> (number: i32)
    ensures
        (number == if value { 1i32 } else { 0i32 }),
{
    if value {
        1
    } else {
        0
    }
}

/// A request to set or to read an option of a socket.
#[derive(Clone, Copy, Debug, PartialEq, Eq, Structural)]
pub struct OptionRequest {
    /// The descriptor of the socket.
    pub fd: i32,
    /// The level the option belongs to.
    pub level: i32,
    /// The option.
    pub option: i32,
    /// The value to set; `None` reads the option.
    pub value: Option<i32>,
}

/// A request that hands the kernel a buffer to write an address into.
#[derive(Clone, Copy, Debug, PartialEq, Eq, Structural)]
pub struct NameRequest {
    /// The descriptor of the socket.
    pub fd: i32,
    /// The room the kernel is offered for the address.
    pub capacity: u32,
    /// The flags of the call, where it takes any.
    pub flags: i32,
}

/// A request to duplicate the descriptor of a socket.
#[derive(Clone, Copy, Debug, PartialEq, Eq, Structural)]
pub struct DuplicateRequest {
    /// The descriptor to duplicate.
    pub fd: i32,
    /// Whether the new descriptor is to be close-on-exec.
    pub close_on_exec: bool,
}

/// A request to put a socket in listening mode.
#[derive(Clone, Copy, Debug, PartialEq, Eq, Structural)]
pub struct ListenRequest {
    /// The descriptor of the socket.
    pub fd: i32,
    /// How many connections may wait to be accepted.
    pub backlog: i32,
}

/// A request that hands the kernel an address to read.
#[derive(Clone, Copy, Debug)]
pub struct AddressRequest<'a> {
    /// The descriptor of the socket.
    pub fd: i32,
    /// The address: exactly the bytes the kernel is to read.
    pub name: &'a [u8],
}

/// A request to send or to receive a message.
#[derive(Clone, Copy, Debug)]
pub struct MessageRequest<'a> {
    /// The descriptor of the socket.
    pub fd: i32,
    /// The flags of the call: the caller's and those that are always set.
    pub flags: i32,
    /// The address the message goes to: exactly the bytes the kernel is to
    /// read. `None` sends to the connected peer, and is what a receive has.
    pub name: Option<&'a [u8]>,
    /// The room the kernel is offered for the address the message came from;
    /// 0 where that address is not asked for.
    pub name_capacity: u32,
    /// The size of the region of ancillary data that the kernel is handed;
    /// `None` hands it no region at all.
    pub control: Option<usize>,
}

/// A socket: the descriptor of one, and the type of the addresses it speaks.
///
/// The value holds the number of the descriptor. It neither opens nor closes
/// it: whoever makes the calls owns the descriptor.
pub struct Socket<Address> {
    fd: i32,
    _address: core::marker::PhantomData<Address>,
}

impl<Address: AsSocketAddress> Socket<Address> {
    /// The descriptor of the socket.
    pub closed spec fn descriptor(&self) -> i32 {
        self.fd
    }

    /// Makes the socket of a descriptor that has all its flags and options.
    fn wrap(fd: i32) -> (socket: Self)
        ensures
            socket.descriptor() == fd,
    {
        Self { fd, _address: core::marker::PhantomData }
    }

    /// Starts the making of a socket of the family of `Address`, with the type
    /// `kind` and the protocol `protocol`.
    pub fn new(kind: i32, protocol: i32) -> (creation: Creation) where
        Address: SpecificSocketAddress,

        ensures
            creation == (Creation::Atomic {
                domain: Address::spec_static_family() as i32,
                kind,
                protocol,
            }),
    {
        Self::new_generic(Address::static_family() as i32, kind, protocol)
    }

    /// Starts the making of a socket of the family `domain`, with the type
    /// `kind` and the protocol `protocol`.
    ///
    /// The kernel is first asked for a socket that is close-on-exec from the
    /// start. `Creation` says what to ask, and what to do with the answers.
    pub fn new_generic(domain: i32, kind: i32, protocol: i32) -> (creation: Creation)
        ensures
            creation == (Creation::Atomic { domain, kind, protocol }),
    {
        Creation::Atomic { domain, kind, protocol }
    }

    /// Starts the making of a connected pair of sockets of the family of
    /// `Address`.
    pub fn pair(kind: i32, protocol: i32) -> (creation: PairCreation) where
        Address: SpecificSocketAddress,

        ensures
            creation == (PairCreation::Atomic {
                domain: Address::spec_static_family() as i32,
                kind,
                protocol,
            }),
    {
        Self::pair_generic(Address::static_family() as i32, kind, protocol)
    }

    /// Starts the making of a connected pair of sockets of the family
    /// `domain`.
    pub fn pair_generic(domain: i32, kind: i32, protocol: i32) -> (creation: PairCreation)
        ensures
            creation == (PairCreation::Atomic { domain, kind, protocol }),
    {
        PairCreation::Atomic { domain, kind, protocol }
    }

    /// The socket that `creation` came to: `None` while calls are still to be
    /// made.
    pub fn created(creation: Creation) -> (result: Option<Result<Self, SocketError>>)
        ensures
            (match creation {
                Creation::Ready { fd } => result matches Some(Ok(socket))
                    && socket.descriptor() == fd,
                Creation::Failed { error, .. } => result matches Some(Err(refusal))
                    && refusal == error,
                _ => result is None,
            }),
    {
        match creation {
            Creation::Ready { fd } => Some(Ok(Self::wrap(fd))),
            Creation::Failed { error, .. } => Some(Err(error)),
            _ => None,
        }
    }

    /// The pair of sockets that `creation` came to: `None` while calls are
    /// still to be made.
    pub fn created_pair(creation: PairCreation) -> (result: Option<
        Result<(Self, Self), SocketError>,
    >)
        ensures
            (match creation {
                PairCreation::Ready { first, second } => result matches Some(Ok(pair))
                    && pair.0.descriptor() == first && pair.1.descriptor() == second,
                PairCreation::Failed { error, .. } => result matches Some(Err(refusal))
                    && refusal == error,
                _ => result is None,
            }),
    {
        match creation {
            PairCreation::Ready { first, second } => Some(
                Ok((Self::wrap(first), Self::wrap(second))),
            ),
            PairCreation::Failed { error, .. } => Some(Err(error)),
            _ => None,
        }
    }

    /// What to ask for a second socket on the same kernel object: a duplicate
    /// of the descriptor that is close-on-exec.
    pub fn try_clone(&self) -> (request: DuplicateRequest)
        ensures
            request == (DuplicateRequest { fd: self.descriptor(), close_on_exec: true }),
    {
        DuplicateRequest { fd: self.fd, close_on_exec: true }
    }

    /// The second socket, given what duplicating the descriptor came to.
    pub fn complete_try_clone(outcome: Result<i32, SocketError>) -> (result: Result<
        Self,
        SocketError,
    >)
        ensures
            (match outcome {
                Ok(fd) => result matches Ok(socket) && socket.descriptor() == fd,
                Err(error) => result matches Err(refusal) && refusal == error,
            }),
    {
        match outcome {
            Ok(fd) => Ok(Self { fd, _address: core::marker::PhantomData }),
            Err(error) => Err(error),
        }
    }

    /// Makes the socket of a descriptor. Nothing is set on the descriptor: the
    /// caller has seen to its flags.
    pub fn from_fd(fd: i32) -> (socket: Self)
        ensures
            socket.descriptor() == fd,
    {
        Self { fd, _address: core::marker::PhantomData }
    }

    /// The descriptor of the socket.
    pub fn as_raw_fd(&self) -> (fd: i32)
        ensures
            fd == self.descriptor(),
    {
        self.fd
    }

    /// Gives up the socket for its descriptor.
    pub fn into_raw_fd(self) -> (fd: i32)
        ensures
            fd == self.descriptor(),
    {
        self.fd
    }

    /// What to ask to put the socket in blocking or non-blocking mode.
    pub fn set_nonblocking(&self, non_blocking: bool) -> (request: OptionRequest)
        ensures
            request == (OptionRequest {
                fd: self.descriptor(),
                level: SOL_SOCKET,
                option: O_NONBLOCK,
                value: Some(if non_blocking { 1i32 } else { 0i32 }),
            }),
    {
        OptionRequest {
            fd: self.fd,
            level: sol_socket(),
            option: o_nonblock(),
            value: Some(bool_to_c_int(non_blocking)),
        }
    }

    /// What to ask to learn whether the socket is in non-blocking mode.
    pub fn get_nonblocking(&self) -> (request: OptionRequest)
        ensures
            request == (OptionRequest {
                fd: self.descriptor(),
                level: SOL_SOCKET,
                option: O_NONBLOCK,
                value: None,
            }),
    {
        OptionRequest { fd: self.fd, level: sol_socket(), option: o_nonblock(), value: None }
    }

    /// Whether the socket is in non-blocking mode, given the value of the
    /// option: any value but 0 says so.
    pub fn complete_get_nonblocking(outcome: Result<i32, SocketError>) -> (result: Result<
        bool,
        SocketError,
    >)
        ensures
            (result == match outcome {
                Ok(raw) => Ok::<bool, SocketError>(raw != 0),
                Err(error) => Err::<bool, SocketError>(error),
            }),
    {
        match outcome {
            Ok(raw) => Ok(raw != 0),
            Err(error) => Err(error),
        }
    }

    /// What to ask to take the pending error of the socket.
    pub fn take_error(&self) -> (request: OptionRequest)
        ensures
            request == (OptionRequest {
                fd: self.descriptor(),
                level: SOL_SOCKET,
                option: SO_ERROR,
                value: None,
            }),
    {
        OptionRequest { fd: self.fd, level: sol_socket(), option: so_error(), value: None }
    }

    /// The pending error of the socket, given the value of the option: 0 says
    /// that there is none, any other value is the number of the error.
    pub fn complete_take_error(outcome: Result<i32, SocketError>) -> (result: Result<
        Option<SocketError>,
        SocketError,
    >)
        ensures
            (result == match outcome {
                Ok(raw) => Ok::<Option<SocketError>, SocketError>(
                    if raw == 0 {
                        None
                    } else {
                        Some(SocketError::Os(raw))
                    },
                ),
                Err(error) => Err::<Option<SocketError>, SocketError>(error),
            }),
    {
        match outcome {
            Ok(raw) => if raw == 0 {
                Ok(None)
            } else {
                Ok(Some(SocketError::Os(raw)))
            },
            Err(error) => Err(error),
        }
    }

    /// What a call came to that returns nothing when it succeeds. The error of
    /// the kernel is handed on as it is.
    pub fn complete(outcome: Result<i32, SocketError>) -> (result: Result<(), SocketError>)
        ensures
            (result == match outcome {
                Ok(_) => Ok::<(), SocketError>(()),
                Err(error) => Err::<(), SocketError>(error),
            }),
    {
        match outcome {
            Ok(_) => Ok(()),
            Err(error) => Err(error),
        }
    }

    /// What to ask for the address the socket is bound to.
    pub fn local_addr(&self) -> (request: NameRequest)
        ensures
            request == (NameRequest {
                fd: self.descriptor(),
                capacity: Address::capacity() as u32,
                flags: 0,
            }),
            request.capacity == Address::capacity(),
    {
        NameRequest { fd: self.fd, capacity: Address::max_len(), flags: 0 }
    }

    /// What to ask for the address the socket is connected to.
    pub fn peer_addr(&self) -> (request: NameRequest)
        ensures
            request == (NameRequest {
                fd: self.descriptor(),
                capacity: Address::capacity() as u32,
                flags: 0,
            }),
            request.capacity == Address::capacity(),
    {
        NameRequest { fd: self.fd, capacity: Address::max_len(), flags: 0 }
    }

    /// The address the kernel wrote, given what the call came to, the buffer
    /// it wrote into and the length it reported.
    pub fn complete_addr(
        outcome: Result<i32, SocketError>,
        buffer: &[u8],
        len: u32,
    ) -> (result: Result<Address, SocketError>)
        requires
            buffer@.len() == Address::capacity(),
        ensures
            (match outcome {
                Err(error) => result matches Err(refusal) && refusal == error,
                Ok(_) => match Address::finalized(buffer@, len) {
                    Err(error) => result matches Err(refusal) && refusal == error,
                    Ok(image) => result matches Ok(address) && address@ == image,
                },
            }),
    {
        match outcome {
            Err(error) => Err(error),
            Ok(_) => Address::finalize(buffer, len),
        }
    }

    /// What to ask to connect the socket to `address`.
    pub fn connect<'a>(&self, address: &'a Address) -> (request: AddressRequest<'a>)
        ensures
            request.fd == self.descriptor(),
            request.name@ == address@,
    {
        AddressRequest { fd: self.fd, name: address.as_readable() }
    }

    /// What to ask to bind the socket to `address`.
    pub fn bind<'a>(&self, address: &'a Address) -> (request: AddressRequest<'a>)
        ensures
            request.fd == self.descriptor(),
            request.name@ == address@,
    {
        AddressRequest { fd: self.fd, name: address.as_readable() }
    }

    /// What to ask to put the socket in listening mode, ready to accept
    /// connections.
    pub fn listen(&self, backlog: i32) -> (request: ListenRequest)
        ensures
            request == (ListenRequest { fd: self.descriptor(), backlog }),
    {
        ListenRequest { fd: self.fd, backlog }
    }

    /// What to ask to accept a connection: room for the address of the peer,
    /// and a new descriptor that is close-on-exec from the start.
    pub fn accept(&self) -> (request: NameRequest)
        ensures
            request == (NameRequest {
                fd: self.descriptor(),
                capacity: Address::capacity() as u32,
                flags: SOCK_CLOEXEC,
            }),
            request.capacity == Address::capacity(),
    {
        NameRequest { fd: self.fd, capacity: Address::max_len(), flags: sock_cloexec() }
    }

    /// The socket of the accepted connection and the address of its peer,
    /// given what the call came to, the buffer the kernel wrote the address
    /// into and the length it reported.
    ///
    /// Where the address is refused, the new descriptor has no socket: the
    /// caller closes it.
    pub fn complete_accept(
        outcome: Result<i32, SocketError>,
        buffer: &[u8],
        len: u32,
    ) -> (result: Result<(Self, Address), SocketError>)
        requires
            buffer@.len() == Address::capacity(),
        ensures
            (match outcome {
                Err(error) => result matches Err(refusal) && refusal == error,
                Ok(fd) => match Address::finalized(buffer@, len) {
                    Err(error) => result matches Err(refusal) && refusal == error,
                    Ok(image) => result matches Ok(pair) && pair.0.descriptor() == fd && pair.1@
                        == image,
                },
            }),
    {
        match outcome {
            Err(error) => Err(error),
            Ok(fd) => {
                let socket = Self::wrap(fd);
                match Address::finalize(buffer, len) {
                    Err(error) => Err(error),
                    Ok(address) => Ok((socket, address)),
                }
            },
        }
    }

    /// What to ask to send data to the connected peer.
    pub fn send(&self, flags: i32) -> (request: MessageRequest<'static>)
        ensures
            request.fd == self.descriptor(),
            request.flags == flags | MSG_NOSIGNAL,
            request.flags & MSG_NOSIGNAL == MSG_NOSIGNAL,
            request.flags & flags == flags,
            request.name is None,
            request.name_capacity == 0,
            request.control is None,
    {
        proof {
            lemma_flag_set(flags, MSG_NOSIGNAL);
        }
        MessageRequest {
            fd: self.fd,
            flags: flags | msg_nosignal(),
            name: None,
            name_capacity: 0,
            control: None,
        }
    }

    /// What to ask to send data to `address`.
    pub fn send_to<'a>(&self, address: &'a Address, flags: i32) -> (request: MessageRequest<'a>)
        ensures
            request.fd == self.descriptor(),
            request.flags == flags | MSG_NOSIGNAL,
            request.flags & MSG_NOSIGNAL == MSG_NOSIGNAL,
            request.flags & flags == flags,
            request.name is Some && request.name.unwrap()@ == address@,
            request.name_capacity == 0,
            request.control is None,
    {
        proof {
            lemma_flag_set(flags, MSG_NOSIGNAL);
        }
        MessageRequest {
            fd: self.fd,
            flags: flags | msg_nosignal(),
            name: Some(address.as_readable()),
            name_capacity: 0,
            control: None,
        }
    }

    /// What to ask to send a message with the ancillary data `cdata` to the
    /// connected peer. Without `cdata` the kernel is handed no region.
    pub fn send_msg(&self, cdata: Option<&[u8]>, flags: i32) -> (request: MessageRequest<
        'static,
    >)
        ensures
            request.fd == self.descriptor(),
            request.flags == flags | MSG_NOSIGNAL,
            request.flags & MSG_NOSIGNAL == MSG_NOSIGNAL,
            request.flags & flags == flags,
            request.name is None,
            request.name_capacity == 0,
            (request.control == match cdata {
                Some(region) => Some(region@.len() as usize),
                None => None,
            }),
    {
        let control = match cdata {
            Some(region) => Some(region.len()),
            None => None,
        };
        proof {
            lemma_flag_set(flags, MSG_NOSIGNAL);
        }
        MessageRequest {
            fd: self.fd,
            flags: flags | msg_nosignal(),
            name: None,
            name_capacity: 0,
            control,
        }
    }

    /// What to ask to send a message with the ancillary data `cdata` to
    /// `address`.
    pub fn send_msg_to<'a>(
        &self,
        address: &'a Address,
        cdata: Option<&[u8]>,
        flags: i32,
    ) -> (request: MessageRequest<'a>)
        ensures
            request.fd == self.descriptor(),
            request.flags == flags | MSG_NOSIGNAL,
            request.flags & MSG_NOSIGNAL == MSG_NOSIGNAL,
            request.flags & flags == flags,
            request.name is Some && request.name.unwrap()@ == address@,
            request.name_capacity == 0,
            (request.control == match cdata {
                Some(region) => Some(region@.len() as usize),
                None => None,
            }),
    {
        let control = match cdata {
            Some(region) => Some(region.len()),
            None => None,
        };
        proof {
            lemma_flag_set(flags, MSG_NOSIGNAL);
        }
        MessageRequest {
            fd: self.fd,
            flags: flags | msg_nosignal(),
            name: Some(address.as_readable()),
            name_capacity: 0,
            control,
        }
    }

    /// What to ask to receive data from the connected peer.
    pub fn recv(&self, flags: i32) -> (request: MessageRequest<'static>)
        ensures
            request.fd == self.descriptor(),
            request.flags == flags | MSG_CMSG_CLOEXEC,
            request.flags & MSG_CMSG_CLOEXEC == MSG_CMSG_CLOEXEC,
            request.flags & flags == flags,
            request.name is None,
            request.name_capacity == 0,
            request.control is None,
    {
        proof {
            lemma_flag_set(flags, MSG_CMSG_CLOEXEC);
        }
        MessageRequest {
            fd: self.fd,
            flags: flags | msg_cmsg_cloexec(),
            name: None,
            name_capacity: 0,
            control: None,
        }
    }

    /// What to ask to receive data and the address it came from. The flags go
    /// to the kernel as they are.
    pub fn recv_from(&self, flags: i32) -> (request: MessageRequest<'static>)
        ensures
            request.fd == self.descriptor(),
            request.flags == flags,
            request.name is None,
            request.name_capacity == Address::capacity(),
            request.control is None,
    {
        MessageRequest {
            fd: self.fd,
            flags,
            name: None,
            name_capacity: Address::max_len(),
            control: None,
        }
    }

    /// What to ask to receive a message from the connected peer, with its
    /// ancillary data going to `cdata`. A buffer without capacity hands the
    /// kernel no region.
    pub fn recv_msg(&self, cdata: &SocketAncillary, flags: i32) -> (request: MessageRequest<
        'static,
    >)
        ensures
            request.fd == self.descriptor(),
            request.flags == flags | MSG_CMSG_CLOEXEC,
            request.flags & MSG_CMSG_CLOEXEC == MSG_CMSG_CLOEXEC,
            request.flags & flags == flags,
            request.name is None,
            request.name_capacity == 0,
            (request.control == if cdata.spec_capacity() == 0 {
                None
            } else {
                Some(cdata.spec_capacity() as usize)
            }),
    {
        let control = if cdata.capacity() == 0 {
            None
        } else {
            Some(cdata.capacity())
        };
        proof {
            lemma_flag_set(flags, MSG_CMSG_CLOEXEC);
        }
        MessageRequest {
            fd: self.fd,
            flags: flags | msg_cmsg_cloexec(),
            name: None,
            name_capacity: 0,
            control,
        }
    }

    /// What to ask to receive a message and the address it came from, with its
    /// ancillary data going to `cdata`.
    pub fn recv_msg_from(&self, cdata: &SocketAncillary, flags: i32) -> (request: MessageRequest<
        'static,
    >)
        ensures
            request.fd == self.descriptor(),
            request.flags == flags | MSG_CMSG_CLOEXEC,
            request.flags & MSG_CMSG_CLOEXEC == MSG_CMSG_CLOEXEC,
            request.flags & flags == flags,
            request.name is None,
            request.name_capacity == Address::capacity(),
            (request.control == if cdata.spec_capacity() == 0 {
                None
            } else {
                Some(cdata.spec_capacity() as usize)
            }),
    {
        let control = if cdata.capacity() == 0 {
            None
        } else {
            Some(cdata.capacity())
        };
        proof {
            lemma_flag_set(flags, MSG_CMSG_CLOEXEC);
        }
        MessageRequest {
            fd: self.fd,
            flags: flags | msg_cmsg_cloexec(),
            name: None,
            name_capacity: Address::max_len(),
            control,
        }
    }

    /// The number of bytes that were sent or received, given what the call
    /// came to. The error of the kernel is handed on as it is.
    pub fn complete_transfer(outcome: Result<isize, SocketError>) -> (result: Result<
        usize,
        SocketError,
    >)
        ensures
            (result == match outcome {
                Ok(transferred) => Ok::<usize, SocketError>(transferred as usize),
                Err(error) => Err::<usize, SocketError>(error),
            }),
    {
        match outcome {
            Ok(transferred) => Ok(#[verifier::truncate] (transferred as usize)),
            Err(error) => Err(error),
        }
    }

    /// The address the data came from and the number of bytes received, given
    /// what the call came to, the buffer the kernel wrote the address into and
    /// the length it reported.
    pub fn complete_recv_from(
        outcome: Result<isize, SocketError>,
        buffer: &[u8],
        len: u32,
    ) -> (result: Result<(Address, usize), SocketError>)
        requires
            buffer@.len() == Address::capacity(),
        ensures
            (match outcome {
                Err(error) => result matches Err(refusal) && refusal == error,
                Ok(transferred) => match Address::finalized(buffer@, len) {
                    Err(error) => result matches Err(refusal) && refusal == error,
                    Ok(image) => result matches Ok(pair) && pair.0@ == image && pair.1
                        == transferred as usize,
                },
            }),
    {
        match outcome {
            Err(error) => Err(error),
            Ok(transferred) => match Address::finalize(buffer, len) {
                Err(error) => Err(error),
                Ok(address) => Ok((address, #[verifier::truncate] (transferred as usize))),
            },
        }
    }

    /// The number of bytes received and the flags of the message, given what
    /// the call came to, the ancillary data the kernel wrote and the flags it
    /// returned. `cdata` takes the ancillary data, and whether it was cut.
    ///
    /// Where the call failed, `cdata` stays as it was.
    pub fn complete_recv_msg(
        outcome: Result<isize, SocketError>,
        cdata: &mut SocketAncillary,
        control: &[u8],
        msg_flags: i32,
    ) -> (result: Result<(usize, i32), SocketError>)
        requires
            control@.len() <= old(cdata).spec_capacity(),
        ensures
            final(cdata).spec_capacity() == old(cdata).spec_capacity(),
            (match outcome {
                Err(error) => result == Err::<(usize, i32), SocketError>(error) && *final(cdata)
                    == *old(cdata),
                Ok(transferred) => result == Ok::<(usize, i32), SocketError>(
                    (transferred as usize, msg_flags),
                ) && final(cdata).spec_data() == control@ && final(cdata).spec_truncated()
                    == control_truncated(msg_flags),
            }),
    {
        match outcome {
            Err(error) => Err(error),
            Ok(transferred) => {
                cdata.receive(control, msg_flags);
                Ok((#[verifier::truncate] (transferred as usize), msg_flags))
            },
        }
    }

    /// The address the message came from, the number of bytes received and
    /// the flags of the message, given what the call came to, the buffer the
    /// kernel wrote the address into, the length it reported, the ancillary
    /// data it wrote and the flags it returned.
    ///
    /// Where the call failed or the address is refused, `cdata` stays as it
    /// was.
    pub fn complete_recv_msg_from(
        outcome: Result<isize, SocketError>,
        buffer: &[u8],
        len: u32,
        cdata: &mut SocketAncillary,
        control: &[u8],
        msg_flags: i32,
    ) -> (result: Result<(Address, usize, i32), SocketError>)
        requires
            buffer@.len() == Address::capacity(),
            control@.len() <= old(cdata).spec_capacity(),
        ensures
            final(cdata).spec_capacity() == old(cdata).spec_capacity(),
            (match outcome {
                Err(error) => result matches Err(refusal) && refusal == error && *final(cdata)
                    == *old(cdata),
                Ok(transferred) => match Address::finalized(buffer@, len) {
                    Err(error) => result matches Err(refusal) && refusal == error && *final(cdata)
                        == *old(cdata),
                    Ok(image) => result matches Ok(triple) && triple.0@ == image && triple.1
                        == transferred as usize && triple.2 == msg_flags
                        && final(cdata).spec_data() == control@
                        && final(cdata).spec_truncated() == control_truncated(msg_flags),
                },
            }),
    {
        match outcome {
            Err(error) => Err(error),
            Ok(transferred) => match Address::finalize(buffer, len) {
                Err(error) => Err(error),
                Ok(address) => {
                    cdata.receive(control, msg_flags);
                    Ok((address, #[verifier::truncate] (transferred as usize), msg_flags))
                },
            },
        }
    }
}

} // verus!
