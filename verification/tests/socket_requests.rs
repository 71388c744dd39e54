use posix_socket::creation::Creation;
use posix_socket::creation::CreationRequest;
use posix_socket::creation::PairCreation;
use posix_socket::socket::bool_to_c_int;
use posix_socket::socket::check_ret;
use posix_socket::socket::check_ret_isize;
use posix_socket::socket::check_ret_isize_with;
use posix_socket::socket::check_ret_with;
use posix_socket::socket::os_error;
use posix_socket::socket::DuplicateRequest;
use posix_socket::socket::ListenRequest;
use posix_socket::socket::NameRequest;
use posix_socket::socket::OptionRequest;
use posix_socket::AsSocketAddress;
use posix_socket::ErrorKind;
use posix_socket::Inet4Socket;
use posix_socket::Inet4SocketAddress;
use posix_socket::Inet6Socket;
use posix_socket::Socket;
use posix_socket::SocketAddress;
use posix_socket::SocketAncillary;
use posix_socket::SocketError;
use posix_socket::UnixSocket;
use posix_socket::UnixSocketAddress;

#[test]
fn return_values_other_than_minus_one_are_results() {
    assert_eq!(check_ret_with(0, 5), Ok(0));
    assert_eq!(check_ret_with(7, 5), Ok(7));
    assert_eq!(check_ret_with(-2, 5), Ok(-2));
    assert_eq!(check_ret_isize_with(0, 5), Ok(0));
    assert_eq!(check_ret_isize_with(6, 5), Ok(6));
    assert_eq!(check_ret_isize_with(isize::MAX, 5), Ok(isize::MAX));
    assert_eq!(check_ret(0), Ok(0));
    assert_eq!(check_ret(12), Ok(12));
    assert_eq!(check_ret_isize(0), Ok(0));
    assert_eq!(check_ret_isize(4096), Ok(4096));
}

#[test]
fn minus_one_is_the_error_the_call_left() {
    assert_eq!(check_ret_with(-1, libc::EPIPE), Err(SocketError::Os(libc::EPIPE)));
    assert_eq!(check_ret_isize_with(-1, libc::EAGAIN), Err(SocketError::Os(libc::EAGAIN)));
    let error = check_ret_with(-1, libc::ENOTCONN).unwrap_err();
    assert_eq!(error.kind(), ErrorKind::Os);
    assert_eq!(error.raw_os_error(), Some(libc::ENOTCONN));
}

#[test]
fn minus_one_is_an_error_of_the_operating_system() {
    assert!(matches!(check_ret(-1), Err(SocketError::Os(_))));
    assert!(matches!(check_ret_isize(-1), Err(SocketError::Os(_))));
    let expected = std::io::Error::last_os_error().raw_os_error().unwrap_or(0);
    assert_eq!(check_ret(-1), Err(SocketError::Os(expected)));
    assert_eq!(check_ret_isize(-1), Err(SocketError::Os(expected)));
}

#[test]
fn an_error_without_a_number_gets_zero() {
    assert_eq!(os_error(Some(13)), SocketError::Os(13));
    assert_eq!(os_error(None), SocketError::Os(0));
}

#[test]
fn truth_values_for_the_kernel() {
    assert_eq!(bool_to_c_int(true), 1);
    assert_eq!(bool_to_c_int(false), 0);
}

#[test]
fn making_a_socket_asks_for_the_flag_first() {
    let state = UnixSocket::new(libc::SOCK_DGRAM, 0);
    assert_eq!(
        state,
        Creation::Atomic { domain: libc::AF_LOCAL, kind: libc::SOCK_DGRAM, protocol: 0 }
    );
    assert!(!state.is_final());
    assert_eq!(
        state.request(),
        Some(CreationRequest::Create {
            domain: libc::AF_LOCAL,
            kind: libc::SOCK_DGRAM | libc::SOCK_CLOEXEC,
            protocol: 0,
        })
    );
    let state = state.advance(Ok(5));
    assert_eq!(state, Creation::Ready { fd: 5 });
    assert!(state.is_final());
    assert_eq!(state.request(), None);
    assert_eq!(UnixSocket::created(state).unwrap().unwrap().as_raw_fd(), 5);
}

#[test]
fn making_a_socket_takes_its_family_from_the_address_type() {
    assert_eq!(
        Inet4Socket::new(libc::SOCK_STREAM, 6),
        Creation::Atomic { domain: libc::AF_INET, kind: libc::SOCK_STREAM, protocol: 6 }
    );
    assert_eq!(
        Inet6Socket::new(libc::SOCK_STREAM, 6),
        Creation::Atomic { domain: libc::AF_INET6, kind: libc::SOCK_STREAM, protocol: 6 }
    );
    assert_eq!(
        Inet6Socket::pair(libc::SOCK_DGRAM, 0),
        PairCreation::Atomic { domain: libc::AF_INET6, kind: libc::SOCK_DGRAM, protocol: 0 }
    );
    assert_eq!(
        Socket::<SocketAddress>::new_generic(17, 3, 768),
        Creation::Atomic { domain: 17, kind: 3, protocol: 768 }
    );
}

#[test]
fn making_a_socket_falls_back_on_einval_only() {
    let start = UnixSocket::new(libc::SOCK_DGRAM, 0);
    let plain = start.advance(Err(SocketError::Os(libc::EINVAL)));
    assert_eq!(
        plain,
        Creation::Plain { domain: libc::AF_LOCAL, kind: libc::SOCK_DGRAM, protocol: 0 }
    );
    assert_eq!(
        plain.request(),
        Some(CreationRequest::Create {
            domain: libc::AF_LOCAL,
            kind: libc::SOCK_DGRAM,
            protocol: 0,
        })
    );
    let marking = plain.advance(Ok(9));
    assert_eq!(marking, Creation::Marking { fd: 9 });
    assert!(UnixSocket::created(marking).is_none());
    assert_eq!(marking.request(), Some(CreationRequest::SetCloseOnExec { fd: 9 }));
    assert_eq!(marking.advance(Ok(0)), Creation::Ready { fd: 9 });

    for errno in [libc::EMFILE, libc::EACCES, libc::EAFNOSUPPORT, libc::ENOMEM, 0, -1] {
        let failed = start.advance(Err(SocketError::Os(errno)));
        assert_eq!(failed, Creation::Failed { error: SocketError::Os(errno), close: None });
        assert!(failed.is_final());
        assert_eq!(failed.request(), None);
        assert_eq!(UnixSocket::created(failed).unwrap().err(), Some(SocketError::Os(errno)));
    }
}

#[test]
fn making_a_socket_fails_where_the_second_attempt_or_the_flag_fails() {
    let plain = UnixSocket::new(libc::SOCK_DGRAM, 0).advance(Err(SocketError::Os(libc::EINVAL)));
    assert_eq!(
        plain.advance(Err(SocketError::Os(libc::EINVAL))),
        Creation::Failed { error: SocketError::Os(libc::EINVAL), close: None }
    );
    let marking = plain.advance(Ok(4));
    assert_eq!(
        marking.advance(Err(SocketError::Os(libc::EBADF))),
        Creation::Failed { error: SocketError::Os(libc::EBADF), close: Some(4) }
    );
}

#[test]
fn a_making_that_is_over_stays_as_it_is() {
    let ready = Creation::Ready { fd: 3 };
    assert_eq!(ready.advance(Ok(8)), ready);
    assert_eq!(ready.advance(Err(SocketError::Os(libc::EINVAL))), ready);
    let failed = Creation::Failed { error: SocketError::Os(1), close: None };
    assert_eq!(failed.advance(Ok(8)), failed);
    let ready = PairCreation::Ready { first: 3, second: 4 };
    assert_eq!(ready.advance(Ok(0), (8, 9)), ready);
}

#[test]
fn making_a_pair_step_by_step() {
    let start = UnixSocket::pair(libc::SOCK_STREAM, 0);
    assert_eq!(
        start.request(),
        Some(CreationRequest::Create {
            domain: libc::AF_LOCAL,
            kind: libc::SOCK_STREAM | libc::SOCK_CLOEXEC,
            protocol: 0,
        })
    );
    assert_eq!(start.advance(Ok(0), (3, 4)), PairCreation::Ready { first: 3, second: 4 });
    assert_eq!(
        start.advance(Err(SocketError::Os(libc::EMFILE)), (0, 0)),
        PairCreation::Failed { error: SocketError::Os(libc::EMFILE), close: None }
    );

    let plain = start.advance(Err(SocketError::Os(libc::EINVAL)), (0, 0));
    assert_eq!(
        plain.request(),
        Some(CreationRequest::Create {
            domain: libc::AF_LOCAL,
            kind: libc::SOCK_STREAM,
            protocol: 0,
        })
    );
    let first = plain.advance(Ok(0), (5, 6));
    assert_eq!(first, PairCreation::MarkingFirst { first: 5, second: 6 });
    assert_eq!(first.request(), Some(CreationRequest::SetCloseOnExec { fd: 5 }));
    let second = first.advance(Ok(0), (0, 0));
    assert_eq!(second, PairCreation::MarkingSecond { first: 5, second: 6 });
    assert_eq!(second.request(), Some(CreationRequest::SetCloseOnExec { fd: 6 }));
    assert!(!second.is_final());
    assert!(UnixSocket::created_pair(second).is_none());
    let ready = second.advance(Ok(0), (0, 0));
    assert_eq!(ready, PairCreation::Ready { first: 5, second: 6 });
    assert!(ready.is_final());
    let (a, b) = UnixSocket::created_pair(ready).unwrap().unwrap();
    assert_eq!((a.as_raw_fd(), b.as_raw_fd()), (5, 6));

    let error = SocketError::Os(libc::EBADF);
    assert_eq!(
        first.advance(Err(error), (0, 0)),
        PairCreation::Failed { error, close: Some((5, 6)) }
    );
    let failed = second.advance(Err(error), (0, 0));
    assert_eq!(failed, PairCreation::Failed { error, close: Some((5, 6)) });
    assert_eq!(UnixSocket::created_pair(failed).unwrap().err(), Some(error));
}

#[test]
fn descriptors_go_in_and_come_out() {
    let socket = UnixSocket::from_fd(11);
    assert_eq!(socket.as_raw_fd(), 11);
    assert_eq!(socket.try_clone(), DuplicateRequest { fd: 11, close_on_exec: true });
    let clone = UnixSocket::complete_try_clone(Ok(12)).unwrap();
    assert_eq!(clone.as_raw_fd(), 12);
    assert_eq!(socket.into_raw_fd(), 11);
    let error = SocketError::Os(libc::EMFILE);
    assert_eq!(UnixSocket::complete_try_clone(Err(error)).err(), Some(error));
}

#[test]
fn options_of_the_socket() {
    let socket = UnixSocket::from_fd(4);
    assert_eq!(
        socket.set_nonblocking(true),
        OptionRequest { fd: 4, level: libc::SOL_SOCKET, option: libc::O_NONBLOCK, value: Some(1) }
    );
    assert_eq!(
        socket.set_nonblocking(false),
        OptionRequest { fd: 4, level: libc::SOL_SOCKET, option: libc::O_NONBLOCK, value: Some(0) }
    );
    assert_eq!(
        socket.get_nonblocking(),
        OptionRequest { fd: 4, level: libc::SOL_SOCKET, option: libc::O_NONBLOCK, value: None }
    );
    assert_eq!(
        socket.take_error(),
        OptionRequest { fd: 4, level: libc::SOL_SOCKET, option: libc::SO_ERROR, value: None }
    );
    assert_eq!(UnixSocket::complete_get_nonblocking(Ok(0)), Ok(false));
    assert_eq!(UnixSocket::complete_get_nonblocking(Ok(1)), Ok(true));
    assert_eq!(UnixSocket::complete_get_nonblocking(Ok(-7)), Ok(true));
    let error = SocketError::Os(libc::ENOPROTOOPT);
    assert_eq!(UnixSocket::complete_get_nonblocking(Err(error)), Err(error));
    assert_eq!(UnixSocket::complete_take_error(Ok(0)), Ok(None));
    assert_eq!(
        UnixSocket::complete_take_error(Ok(libc::ECONNRESET)),
        Ok(Some(SocketError::Os(libc::ECONNRESET)))
    );
    assert_eq!(UnixSocket::complete_take_error(Err(error)), Err(error));
}

#[test]
fn calls_without_a_result() {
    assert_eq!(UnixSocket::complete(Ok(0)), Ok(()));
    let error = SocketError::Os(libc::EADDRINUSE);
    assert_eq!(UnixSocket::complete(Err(error)), Err(error));
    assert_eq!(UnixSocket::from_fd(8).listen(128), ListenRequest { fd: 8, backlog: 128 });
}

#[test]
fn addresses_go_to_the_kernel_as_they_read() {
    let socket = UnixSocket::from_fd(6);
    let address = UnixSocketAddress::new(b"/tmp/c.sock").unwrap();
    let request = socket.bind(&address);
    assert_eq!(request.fd, 6);
    assert_eq!(request.name, &b"\x01\x00/tmp/c.sock\x00"[..]);
    assert_eq!(request.name.len(), address.len() as usize);
    let request = socket.connect(&address);
    assert_eq!(request.fd, 6);
    assert_eq!(request.name, address.as_readable());

    let socket = Inet4Socket::from_fd(7);
    let address = Inet4SocketAddress::new([127, 0, 0, 1], 80);
    let request = socket.connect(&address);
    assert_eq!(request.name, &[2u8, 0, 0, 80, 127, 0, 0, 1, 0, 0, 0, 0, 0, 0, 0, 0][..]);
}

#[test]
fn the_kernel_is_offered_the_room_of_the_address_type() {
    assert_eq!(
        UnixSocket::from_fd(3).local_addr(),
        NameRequest { fd: 3, capacity: 110, flags: 0 }
    );
    assert_eq!(
        UnixSocket::from_fd(3).peer_addr(),
        NameRequest { fd: 3, capacity: 110, flags: 0 }
    );
    assert_eq!(
        Inet4Socket::from_fd(3).local_addr(),
        NameRequest { fd: 3, capacity: 16, flags: 0 }
    );
    assert_eq!(
        Inet6Socket::from_fd(3).peer_addr(),
        NameRequest { fd: 3, capacity: 28, flags: 0 }
    );
    assert_eq!(
        Socket::<SocketAddress>::from_fd(3).accept(),
        NameRequest { fd: 3, capacity: 128, flags: libc::SOCK_CLOEXEC }
    );
    assert_eq!(UnixSocket::from_fd(3).recv_from(0).name_capacity, 110);
    let ancillary = SocketAncillary::new(Vec::new());
    assert_eq!(Inet6Socket::from_fd(3).recv_msg_from(&ancillary, 0).name_capacity, 28);
}

#[test]
fn an_accepted_connection() {
    let mut buffer = Inet4SocketAddress::prepare_uninitialized();
    buffer[..8].copy_from_slice(&[2, 0, 0xc0, 0x01, 10, 0, 0, 9]);
    let (socket, peer) = Inet4Socket::complete_accept(Ok(21), &buffer, 16).unwrap();
    assert_eq!(socket.as_raw_fd(), 21);
    assert_eq!(peer.ip(), [10, 0, 0, 9]);
    assert_eq!(peer.port(), 0xc001);

    let error = SocketError::Os(libc::EAGAIN);
    assert_eq!(Inet4Socket::complete_accept(Err(error), &buffer, 16).err(), Some(error));
    assert_eq!(
        Inet4Socket::complete_accept(Ok(21), &buffer, 28).err(),
        Some(SocketError::WrongSize)
    );
    buffer[0] = 10;
    assert_eq!(
        Inet4Socket::complete_accept(Ok(21), &buffer, 16).err(),
        Some(SocketError::WrongFamily { expected: 2 })
    );
}

#[test]
fn an_address_the_kernel_wrote() {
    let mut buffer = UnixSocketAddress::prepare_uninitialized();
    buffer[..5].copy_from_slice(b"\x01\x00/a\x00");
    let address = UnixSocket::complete_addr(Ok(0), &buffer, 5).unwrap();
    assert_eq!(address.as_path(), Some(&b"/a"[..]));
    let error = SocketError::Os(libc::ENOTCONN);
    assert_eq!(UnixSocket::complete_addr(Err(error), &buffer, 5).err(), Some(error));
    assert_eq!(UnixSocket::complete_addr(Ok(0), &buffer, 200).err(), Some(SocketError::TooLarge));
}

#[test]
fn send_calls_never_raise_a_signal() {
    let socket = UnixSocket::from_fd(5);
    let address = UnixSocketAddress::new(b"/a").unwrap();
    for flags in [0, libc::MSG_DONTWAIT, libc::MSG_NOSIGNAL, libc::MSG_EOR | libc::MSG_MORE] {
        let expected = flags | libc::MSG_NOSIGNAL;
        let request = socket.send(flags);
        assert_eq!((request.fd, request.flags), (5, expected));
        assert_eq!((request.name, request.name_capacity, request.control), (None, 0, None));
        let request = socket.send_to(&address, flags);
        assert_eq!((request.fd, request.flags), (5, expected));
        assert_eq!(request.name, Some(address.as_readable()));
        assert_eq!((request.name_capacity, request.control), (0, None));
        let request = socket.send_msg(None, flags);
        assert_eq!((request.fd, request.flags), (5, expected));
        assert_eq!((request.name, request.name_capacity, request.control), (None, 0, None));
        let request = socket.send_msg(Some(&[]), flags);
        assert_eq!(request.control, Some(0));
        let request = socket.send_msg_to(&address, Some(&[1, 2, 3]), flags);
        assert_eq!((request.fd, request.flags), (5, expected));
        assert_eq!(request.name, Some(address.as_readable()));
        assert_eq!((request.name_capacity, request.control), (0, Some(3)));
    }
}

#[test]
fn receive_calls_make_received_descriptors_close_on_exec() {
    let socket = UnixSocket::from_fd(5);
    let empty = SocketAncillary::new(Vec::new());
    let roomy = SocketAncillary::new(vec![0; 64]);
    for flags in [0, libc::MSG_DONTWAIT, libc::MSG_PEEK | libc::MSG_WAITALL] {
        let expected = flags | libc::MSG_CMSG_CLOEXEC;
        let request = socket.recv(flags);
        assert_eq!((request.fd, request.flags), (5, expected));
        assert_eq!((request.name, request.name_capacity, request.control), (None, 0, None));
        let request = socket.recv_msg(&empty, flags);
        assert_eq!((request.fd, request.flags), (5, expected));
        assert_eq!((request.name, request.name_capacity, request.control), (None, 0, None));
        let request = socket.recv_msg(&roomy, flags);
        assert_eq!(request.control, Some(64));
        let request = socket.recv_msg_from(&roomy, flags);
        assert_eq!((request.fd, request.flags), (5, expected));
        assert_eq!((request.name, request.name_capacity, request.control), (None, 110, Some(64)));
        let request = socket.recv_msg_from(&empty, flags);
        assert_eq!(request.control, None);
        let request = socket.recv_from(flags);
        assert_eq!((request.fd, request.flags), (5, flags));
        assert_eq!((request.name, request.name_capacity, request.control), (None, 110, None));
    }
}

#[test]
fn the_count_of_transferred_bytes() {
    assert_eq!(UnixSocket::complete_transfer(Ok(0)), Ok(0));
    assert_eq!(UnixSocket::complete_transfer(Ok(6)), Ok(6));
    assert_eq!(UnixSocket::complete_transfer(Ok(isize::MAX)), Ok(isize::MAX as usize));
    let error = SocketError::Os(libc::EPIPE);
    assert_eq!(UnixSocket::complete_transfer(Err(error)), Err(error));
}

#[test]
fn received_data_with_the_address_of_the_sender() {
    let mut buffer = UnixSocketAddress::prepare_uninitialized();
    buffer[..5].copy_from_slice(b"\x01\x00/a\x00");
    let (sender, len) = UnixSocket::complete_recv_from(Ok(6), &buffer, 5).unwrap();
    assert_eq!(len, 6);
    assert_eq!(sender.as_path(), Some(&b"/a"[..]));
    let error = SocketError::Os(libc::EAGAIN);
    assert_eq!(UnixSocket::complete_recv_from(Err(error), &buffer, 5).err(), Some(error));
    assert_eq!(
        UnixSocket::complete_recv_from(Ok(6), &buffer, 111).err(),
        Some(SocketError::TooLarge)
    );
}

#[test]
fn a_received_message_fills_the_ancillary_buffer() {
    let mut ancillary = SocketAncillary::new(vec![0; 4]);
    assert_eq!((ancillary.capacity(), ancillary.len(), ancillary.truncated()), (4, 0, false));
    assert_eq!(ancillary.data(), &b""[..]);

    let result = UnixSocket::complete_recv_msg(Ok(6), &mut ancillary, &[1, 2, 3], libc::MSG_EOR);
    assert_eq!(result, Ok((6, libc::MSG_EOR)));
    assert_eq!((ancillary.capacity(), ancillary.len(), ancillary.truncated()), (4, 3, false));
    assert_eq!(ancillary.data(), &[1u8, 2, 3][..]);

    let flags = libc::MSG_CTRUNC | libc::MSG_TRUNC;
    let result = UnixSocket::complete_recv_msg(Ok(2), &mut ancillary, &[9, 8, 7, 6], flags);
    assert_eq!(result, Ok((2, flags)));
    assert_eq!((ancillary.capacity(), ancillary.len(), ancillary.truncated()), (4, 4, true));
    assert_eq!(ancillary.data(), &[9u8, 8, 7, 6][..]);

    let error = SocketError::Os(libc::EINTR);
    let result = UnixSocket::complete_recv_msg(Err(error), &mut ancillary, &[], 0);
    assert_eq!(result, Err(error));
    assert_eq!((ancillary.capacity(), ancillary.len(), ancillary.truncated()), (4, 4, true));
    assert_eq!(ancillary.data(), &[9u8, 8, 7, 6][..]);

    let result = UnixSocket::complete_recv_msg(Ok(0), &mut ancillary, &[], 0);
    assert_eq!(result, Ok((0, 0)));
    assert_eq!((ancillary.capacity(), ancillary.len(), ancillary.truncated()), (4, 0, false));
}

#[test]
fn a_refused_address_leaves_the_ancillary_buffer_alone() {
    let mut ancillary = SocketAncillary::new(vec![0; 4]);
    ancillary.receive(&[5, 5], 0);
    let mut buffer = UnixSocketAddress::prepare_uninitialized();
    let result = UnixSocket::complete_recv_msg_from(
        Ok(6),
        &buffer,
        0,
        &mut ancillary,
        &[1, 2, 3],
        libc::MSG_CTRUNC,
    );
    assert_eq!(result.err(), Some(SocketError::WrongFamily { expected: 1 }));
    assert_eq!(ancillary.data(), &[5u8, 5][..]);
    assert!(!ancillary.truncated());

    let error = SocketError::Os(libc::EAGAIN);
    let result =
        UnixSocket::complete_recv_msg_from(Err(error), &buffer, 0, &mut ancillary, &[1], 0);
    assert_eq!(result.err(), Some(error));
    assert_eq!(ancillary.data(), &[5u8, 5][..]);

    buffer[..5].copy_from_slice(b"\x01\x00/a\x00");
    let (sender, len, flags) = UnixSocket::complete_recv_msg_from(
        Ok(6),
        &buffer,
        5,
        &mut ancillary,
        &[1, 2, 3],
        libc::MSG_CTRUNC,
    )
    .unwrap();
    assert_eq!(sender.as_path(), Some(&b"/a"[..]));
    assert_eq!((len, flags), (6, libc::MSG_CTRUNC));
    assert_eq!(ancillary.data(), &[1u8, 2, 3][..]);
    assert!(ancillary.truncated());
}

#[test]
fn the_kinds_of_errors() {
    assert_eq!(SocketError::PathTooLong.kind(), ErrorKind::InvalidInput);
    assert_eq!(SocketError::WrongFamily { expected: 2 }.kind(), ErrorKind::InvalidData);
    assert_eq!(SocketError::TooLarge.kind(), ErrorKind::InvalidData);
    assert_eq!(SocketError::TooShort.kind(), ErrorKind::InvalidData);
    assert_eq!(SocketError::WrongSize.kind(), ErrorKind::InvalidData);
    assert_eq!(SocketError::Os(libc::EPIPE).kind(), ErrorKind::Os);
    assert_eq!(SocketError::Os(libc::EPIPE).raw_os_error(), Some(libc::EPIPE));
    assert_eq!(SocketError::TooLarge.raw_os_error(), None);
}
