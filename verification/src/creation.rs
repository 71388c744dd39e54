//! The making of a socket, and of a connected pair of sockets.
//!
//! A descriptor is to be close-on-exec from the moment it exists. The kernel
//! is asked for that with a flag in the type of the socket. A kernel that does
//! not know the flag refuses the call with `EINVAL`; the socket is then made
//! without the flag, and the flag is set on the descriptor in a call of its
//! own. Any other refusal ends the making.
//!
//! A state says what is to be asked next. The caller asks, and hands the
//! answer to `advance`, until the state is final.
use vstd::prelude::*;
use crate::error::SocketError;
use crate::sys::einval;
use crate::sys::sock_cloexec;
use crate::sys::EINVAL;
use crate::sys::SOCK_CLOEXEC;

verus! {

/// One call that the making of a socket asks for.
#[derive(Clone, Copy, Debug, PartialEq, Eq, Structural)]
pub enum CreationRequest {
    /// Ask the kernel for a socket, or for a pair of them, with exactly these
    /// arguments.
    Create { domain: i32, kind: i32, protocol: i32 },
    /// Set the close-on-exec flag on the descriptor `fd`.
    SetCloseOnExec { fd: i32 },
}

/// Where the making of a socket stands.
#[derive(Clone, Copy, Debug, PartialEq, Eq, Structural)]
pub enum Creation {
    /// The socket is to be made with the close-on-exec flag in its type.
    Atomic { domain: i32, kind: i32, protocol: i32 },
    /// The kernel does not know the flag: the socket is to be made without.
    Plain { domain: i32, kind: i32, protocol: i32 },
    /// The socket `fd` was made without the flag, which is to be set on it.
    Marking { fd: i32 },
    /// The socket `fd` is made and is close-on-exec.
    Ready { fd: i32 },
    /// There is no socket. The descriptor in `close`, if any, was made and is
    /// to be closed.
    Failed { error: SocketError, close: Option<i32> },
}

/// The state after `state`, given the answer to what `state` asks for.
pub open spec fn creation_next(state: Creation, answer: Result<i32, SocketError>) -> Creation {
    match state {
        Creation::Atomic { domain, kind, protocol } => match answer {
            Ok(fd) => Creation::Ready { fd },
            Err(error) => if error == SocketError::Os(EINVAL) {
                Creation::Plain { domain, kind, protocol }
            } else {
                Creation::Failed { error, close: None }
            },
        },
        Creation::Plain { domain, kind, protocol } => match answer {
            Ok(fd) => Creation::Marking { fd },
            Err(error) => Creation::Failed { error, close: None },
        },
        Creation::Marking { fd } => match answer {
            Ok(_) => Creation::Ready { fd },
            Err(error) => Creation::Failed { error, close: Some(fd) },
        },
        _ => state,
    }
}

/// What `state` asks for: `None` where the making is over.
pub open spec fn creation_request(state: Creation) -> Option<CreationRequest> {
    match state {
        Creation::Atomic { domain, kind, protocol } => Some(
            CreationRequest::Create { domain, kind: kind | SOCK_CLOEXEC, protocol },
        ),
        Creation::Plain { domain, kind, protocol } => Some(
            CreationRequest::Create { domain, kind, protocol },
        ),
        Creation::Marking { fd } => Some(CreationRequest::SetCloseOnExec { fd }),
        _ => None,
    }
}

/// The first request of a making asks for a socket that is close-on-exec from
/// the start, of the type the caller named.
pub proof fn lemma_creation_starts_atomic(domain: i32, kind: i32, protocol: i32)
    ensures
        creation_request(Creation::Atomic { domain, kind, protocol }) == Some(
            CreationRequest::Create { domain, kind: kind | SOCK_CLOEXEC, protocol },
        ),
        (kind | SOCK_CLOEXEC) & SOCK_CLOEXEC == SOCK_CLOEXEC,
        (kind | SOCK_CLOEXEC) & kind == kind,
{
    crate::sys::lemma_flag_set(kind, SOCK_CLOEXEC);
}

/// The making of a socket is over after three answers at most, whatever the
/// kernel answers.
pub proof fn lemma_creation_ends(
    domain: i32,
    kind: i32,
    protocol: i32,
    first: Result<i32, SocketError>,
    second: Result<i32, SocketError>,
    third: Result<i32, SocketError>,
)
    ensures
        creation_next(
            creation_next(
                creation_next(Creation::Atomic { domain, kind, protocol }, first),
                second,
            ),
            third,
        ).spec_is_final(),
{
}

/// A socket is ready only when the kernel made it with the flag, or when the
/// flag was set on it afterwards: no answer takes `Plain` to `Ready`.
pub proof fn lemma_creation_ready(state: Creation, answer: Result<i32, SocketError>)
    requires
        creation_next(state, answer) is Ready,
    ensures
        state is Atomic || state is Marking || state is Ready,
        state is Atomic ==> answer is Ok,
        state is Marking ==> answer is Ok,
{
}

/// Only `EINVAL` makes the second attempt: any other refusal of the first
/// ends the making with that error.
pub proof fn lemma_creation_falls_back(
    domain: i32,
    kind: i32,
    protocol: i32,
    error: SocketError,
)
    ensures
        (creation_next(Creation::Atomic { domain, kind, protocol }, Err(error)) == if error
            == SocketError::Os(EINVAL) {
            Creation::Plain { domain, kind, protocol }
        } else {
            Creation::Failed { error, close: None }
        }),
{
}

impl Creation {
    /// Whether the making is over.
    pub open spec fn spec_is_final(self) -> bool {
        self is Ready || self is Failed
    }

    /// Whether the making is over.
    #[verifier::when_used_as_spec(spec_is_final)]
    pub fn is_final(self) -> (over: bool)
        ensures
            over == self.spec_is_final(),
    {
        match self {
            Creation::Ready { .. } => true,
            Creation::Failed { .. } => true,
            _ => false,
        }
    }

    /// The call to make next: `None` where the making is over.
    pub fn request(self) -> (request: Option<CreationRequest>)
        ensures
            request == creation_request(self),
            request is None <==> self.spec_is_final(),
    {
        match self {
            Creation::Atomic { domain, kind, protocol } => Some(
                CreationRequest::Create { domain, kind: kind | sock_cloexec(), protocol },
            ),
            Creation::Plain { domain, kind, protocol } => Some(
                CreationRequest::Create { domain, kind, protocol },
            ),
            Creation::Marking { fd } => Some(CreationRequest::SetCloseOnExec { fd }),
            _ => None,
        }
    }

    /// The state after this one, given the answer to the call that `request`
    /// names: the new descriptor where a socket was asked for, any value where
    /// a flag was set, or the error.
    ///
    /// A state in which the making is over stays as it is.
    pub fn advance(self, answer: Result<i32, SocketError>) -> (next: Creation)
        ensures
            next == creation_next(self, answer),
    {
        match self {
            Creation::Atomic { domain, kind, protocol } => match answer {
                Ok(fd) => Creation::Ready { fd },
                Err(error) => if error == SocketError::Os(einval()) {
                    Creation::Plain { domain, kind, protocol }
                } else {
                    Creation::Failed { error, close: None }
                },
            },
            Creation::Plain { domain, kind, protocol } => match answer {
                Ok(fd) => Creation::Marking { fd },
                Err(error) => Creation::Failed { error, close: None },
            },
            Creation::Marking { fd } => match answer {
                Ok(_) => Creation::Ready { fd },
                Err(error) => Creation::Failed { error, close: Some(fd) },
            },
            _ => self,
        }
    }
}

/// Where the making of a connected pair of sockets stands.
#[derive(Clone, Copy, Debug, PartialEq, Eq)]
pub enum PairCreation {
    /// The pair is to be made with the close-on-exec flag in its type.
    Atomic { domain: i32, kind: i32, protocol: i32 },
    /// The kernel does not know the flag: the pair is to be made without.
    Plain { domain: i32, kind: i32, protocol: i32 },
    /// The pair was made without the flag, which is to be set on `first`.
    MarkingFirst { first: i32, second: i32 },
    /// The flag is set on `first` and is to be set on `second`.
    MarkingSecond { first: i32, second: i32 },
    /// The pair is made and both descriptors are close-on-exec.
    Ready { first: i32, second: i32 },
    /// There is no pair. The descriptors in `close`, if any, were made and are
    /// to be closed.
    Failed { error: SocketError, close: Option<(i32, i32)> },
}

/// The state after `state`, given the answer to what `state` asks for and,
/// where a pair was asked for, the two descriptors the kernel wrote.
pub open spec fn pair_creation_next(
    state: PairCreation,
    answer: Result<i32, SocketError>,
    fds: (i32, i32),
) -> PairCreation {
    match state {
        PairCreation::Atomic { domain, kind, protocol } => match answer {
            Ok(_) => PairCreation::Ready { first: fds.0, second: fds.1 },
            Err(error) => if error == SocketError::Os(EINVAL) {
                PairCreation::Plain { domain, kind, protocol }
            } else {
                PairCreation::Failed { error, close: None }
            },
        },
        PairCreation::Plain { domain, kind, protocol } => match answer {
            Ok(_) => PairCreation::MarkingFirst { first: fds.0, second: fds.1 },
            Err(error) => PairCreation::Failed { error, close: None },
        },
        PairCreation::MarkingFirst { first, second } => match answer {
            Ok(_) => PairCreation::MarkingSecond { first, second },
            Err(error) => PairCreation::Failed { error, close: Some((first, second)) },
        },
        PairCreation::MarkingSecond { first, second } => match answer {
            Ok(_) => PairCreation::Ready { first, second },
            Err(error) => PairCreation::Failed { error, close: Some((first, second)) },
        },
        _ => state,
    }
}

/// What `state` asks for: `None` where the making is over.
pub open spec fn pair_creation_request(state: PairCreation) -> Option<CreationRequest> {
    match state {
        PairCreation::Atomic { domain, kind, protocol } => Some(
            CreationRequest::Create { domain, kind: kind | SOCK_CLOEXEC, protocol },
        ),
        PairCreation::Plain { domain, kind, protocol } => Some(
            CreationRequest::Create { domain, kind, protocol },
        ),
        PairCreation::MarkingFirst { first, .. } => Some(
            CreationRequest::SetCloseOnExec { fd: first },
        ),
        PairCreation::MarkingSecond { second, .. } => Some(
            CreationRequest::SetCloseOnExec { fd: second },
        ),
        _ => None,
    }
}

/// The making of a pair is over after four answers at most, whatever the
/// kernel answers.
pub proof fn lemma_pair_creation_ends(
    domain: i32,
    kind: i32,
    protocol: i32,
    answers: Seq<Result<i32, SocketError>>,
    fds: Seq<(i32, i32)>,
)
    requires
        answers.len() == 4,
        fds.len() == 4,
    ensures
        pair_creation_next(
            pair_creation_next(
                pair_creation_next(
                    pair_creation_next(
                        PairCreation::Atomic { domain, kind, protocol },
                        answers[0],
                        fds[0],
                    ),
                    answers[1],
                    fds[1],
                ),
                answers[2],
                fds[2],
            ),
            answers[3],
            fds[3],
        ).spec_is_final(),
{
}

impl PairCreation {
    /// Whether the making is over.
    pub open spec fn spec_is_final(self) -> bool {
        self is Ready || self is Failed
    }

    /// Whether the making is over.
    #[verifier::when_used_as_spec(spec_is_final)]
    pub fn is_final(self) -> (over: bool)
        ensures
            over == self.spec_is_final(),
    {
        match self {
            PairCreation::Ready { .. } => true,
            PairCreation::Failed { .. } => true,
            _ => false,
        }
    }

    /// The call to make next: `None` where the making is over.
    pub fn request(self) -> (request: Option<CreationRequest>)
        ensures
            request == pair_creation_request(self),
            request is None <==> self.spec_is_final(),
    {
        match self {
            PairCreation::Atomic { domain, kind, protocol } => Some(
                CreationRequest::Create { domain, kind: kind | sock_cloexec(), protocol },
            ),
            PairCreation::Plain { domain, kind, protocol } => Some(
                CreationRequest::Create { domain, kind, protocol },
            ),
            PairCreation::MarkingFirst { first, .. } => Some(
                CreationRequest::SetCloseOnExec { fd: first },
            ),
            PairCreation::MarkingSecond { second, .. } => Some(
                CreationRequest::SetCloseOnExec { fd: second },
            ),
            _ => None,
        }
    }

    /// The state after this one, given the answer to the call that `request`
    /// names and, where a pair was asked for, the two descriptors the kernel
    /// wrote. Where a flag was set, `fds` counts for nothing.
    ///
    /// A state in which the making is over stays as it is.
    pub fn advance(self, answer: Result<i32, SocketError>, fds: (i32, i32)) -> (next: PairCreation)
        ensures
            next == pair_creation_next(self, answer, fds),
    {
        match self {
            PairCreation::Atomic { domain, kind, protocol } => match answer {
                Ok(_) => PairCreation::Ready { first: fds.0, second: fds.1 },
                Err(error) => if error == SocketError::Os(einval()) {
                    PairCreation::Plain { domain, kind, protocol }
                } else {
                    PairCreation::Failed { error, close: None }
                },
            },
            PairCreation::Plain { domain, kind, protocol } => match answer {
                Ok(_) => PairCreation::MarkingFirst { first: fds.0, second: fds.1 },
                Err(error) => PairCreation::Failed { error, close: None },
            },
            PairCreation::MarkingFirst { first, second } => match answer {
                Ok(_) => PairCreation::MarkingSecond { first, second },
                Err(error) => PairCreation::Failed { error, close: Some((first, second)) },
            },
            PairCreation::MarkingSecond { first, second } => match answer {
                Ok(_) => PairCreation::Ready { first, second },
                Err(error) => PairCreation::Failed { error, close: Some((first, second)) },
            },
            _ => self,
        }
    }
}

} // verus!
