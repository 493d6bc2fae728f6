//! What holds of the socket methods taken together.
use crate::args::{arg_check, first_mismatch, PyError, PyValue};
use crate::socket::{
    accept_finish_outcome, address_arg_result, bind_finish_outcome, bytes_arg_params, close_outcome,
    connect_finish_outcome, int_arg_params, is_type_error, listener_request, no_args_error,
    new_outcome, recv_request, send_request, AddressFamily, ConnHandle, Connection, Socket,
    SocketKind,
};
use crate::text::{decimal, digits_number, lemma_decimal_reads_back};
use vstd::prelude::*;

verus! {

/// The numbers of the address families are 1, 2 and 3, one for each family:
/// `from_i32` takes back what `as_i32` gives.
pub proof fn lemma_address_family_numbers(f: AddressFamily)
    ensures
        1 <= f.number() <= 3,
        forall|g: AddressFamily| #[trigger] g.number() == f.number() ==> g == f,
{
}

/// The numbers of the socket kinds are 1 and 2, one for each kind:
/// `from_i32` takes back what `as_i32` gives.
pub proof fn lemma_socket_kind_numbers(k: SocketKind)
    ensures
        1 <= k.number() <= 2,
        forall|g: SocketKind| #[trigger] g.number() == k.number() ==> g == k,
{
}

/// Once a socket is closed, every method that needs a connection raises an
/// empty `TypeError` on arguments it accepts: `accept` and `getsockname`,
/// `recv` and `send`.
pub proof fn lemma_closed_socket_refuses(
    before: Socket,
    after: Socket,
    close_args: Seq<PyValue>,
    r: Result<(), PyError>,
)
    requires
        close_outcome(before, after, close_args, r),
        r is Ok,
    ensures
        forall|args: Seq<PyValue>, r2: Result<ConnHandle, PyError>|
            #![trigger listener_request(after, args, r2)]
            no_args_error(args) is None && listener_request(after, args, r2) ==> (r2 matches Err(e)
                && is_type_error(e, ""@)),
        forall|args: Seq<PyValue>, r2: Result<(ConnHandle, usize), PyError>|
            #![trigger recv_request(after, args, r2)]
            arg_check(args, 1, int_arg_params(), seq![]) is None && recv_request(after, args, r2)
                ==> (r2 matches Err(e) && is_type_error(e, ""@)),
        forall|args: Seq<PyValue>, r2: Result<(ConnHandle, Vec<u8>), PyError>|
            #![trigger send_request(after, args, r2)]
            arg_check(args, 1, bytes_arg_params(), seq![]) is None && send_request(after, args, r2)
                ==> (r2 matches Err(e) && is_type_error(e, ""@)),
{
}

/// Closing a closed socket changes nothing.
pub proof fn lemma_close_idempotent(
    s0: Socket,
    s1: Socket,
    s2: Socket,
    args1: Seq<PyValue>,
    args2: Seq<PyValue>,
    r1: Result<(), PyError>,
    r2: Result<(), PyError>,
)
    requires
        close_outcome(s0, s1, args1, r1),
        close_outcome(s1, s2, args2, r2),
        r1 is Ok,
    ensures
        s2 == s1,
{
}

/// A connect or bind that failed leaves the socket as it was.
pub proof fn lemma_failed_connect_or_bind_keeps_socket(
    before: Socket,
    after: Socket,
    r: Result<(), PyError>,
)
    requires
        connect_finish_outcome(before, after, None, r) || bind_finish_outcome(
            before,
            after,
            None,
            r,
        ),
    ensures
        after == before,
        r is Err,
{
}

/// After a connect, `recv` and `send` go to the stream that was connected,
/// and `accept` and `getsockname` raise an empty `TypeError`.
pub proof fn lemma_connected_socket_uses_stream(
    before: Socket,
    after: Socket,
    h: ConnHandle,
    r: Result<(), PyError>,
)
    requires
        connect_finish_outcome(before, after, Some(h), r),
    ensures
        after.con == Some(Connection::TcpStream(h)),
        forall|args: Seq<PyValue>, r2: Result<(ConnHandle, usize), PyError>|
            #![trigger recv_request(after, args, r2)]
            arg_check(args, 1, int_arg_params(), seq![]) is None && recv_request(after, args, r2)
                ==> (r2 matches Ok((s, _)) && s == h),
        forall|args: Seq<PyValue>, r2: Result<(ConnHandle, Vec<u8>), PyError>|
            #![trigger send_request(after, args, r2)]
            arg_check(args, 1, bytes_arg_params(), seq![]) is None && send_request(after, args, r2)
                ==> (r2 matches Ok((s, _)) && s == h),
        forall|args: Seq<PyValue>, r2: Result<ConnHandle, PyError>|
            #![trigger listener_request(after, args, r2)]
            no_args_error(args) is None && listener_request(after, args, r2) ==> (r2 matches Err(e)
                && is_type_error(e, ""@)),
{
}

/// After a bind, `accept` and `getsockname` go to the listener that was
/// bound.
pub proof fn lemma_bound_socket_uses_listener(
    before: Socket,
    after: Socket,
    h: ConnHandle,
    r: Result<(), PyError>,
)
    requires
        bind_finish_outcome(before, after, Some(h), r),
    ensures
        after.con == Some(Connection::TcpListener(h)),
        forall|args: Seq<PyValue>, r2: Result<ConnHandle, PyError>|
            #![trigger listener_request(after, args, r2)]
            no_args_error(args) is None && listener_request(after, args, r2) ==> r2 == Ok::<
                ConnHandle,
                PyError,
            >(h),
{
}

/// A socket that `accept` gives has the family and kind of the listening
/// socket, and its `recv` and `send` go to the accepted stream.
pub proof fn lemma_accepted_socket_uses_stream(
    listening: Socket,
    h: ConnHandle,
    accepted: Socket,
)
    requires
        accept_finish_outcome(listening, Some(h), Ok(accepted)),
    ensures
        accepted.address_family == listening.address_family,
        accepted.socket_kind == listening.socket_kind,
        forall|args: Seq<PyValue>, r2: Result<(ConnHandle, usize), PyError>|
            #![trigger recv_request(accepted, args, r2)]
            arg_check(args, 1, int_arg_params(), seq![]) is None && recv_request(accepted, args, r2)
                ==> (r2 matches Ok((s, _)) && s == h),
        forall|args: Seq<PyValue>, r2: Result<(ConnHandle, Vec<u8>), PyError>|
            #![trigger send_request(accepted, args, r2)]
            arg_check(args, 1, bytes_arg_params(), seq![]) is None && send_request(
                accepted,
                args,
                r2,
            ) ==> (r2 matches Ok((s, _)) && s == h),
{
}

/// `connect(address)` and `bind(address)` with the tuple `(host, port)` as
/// `address` name the address text
/// `host:port`: the host, a colon, then the port in decimal, which reads
/// back as the port (with a `-` exactly when it is negative).
pub proof fn lemma_address_is_host_colon_port(
    address: Vec<PyValue>,
    host: String,
    port: i128,
    r: Result<String, PyError>,
)
    requires
        address@ == seq![PyValue::Str(host), PyValue::Int(port)],
        address_arg_result(seq![PyValue::Tuple(address)], r),
    ensures
        r matches Ok(text) && {
            let h = host@.len() as int;
            &&& text@.len() == h + 1 + decimal(port as int).len()
            &&& text@.subrange(0, h) == host@
            &&& text@[h] == ':'
            &&& text@.subrange(h + 1, text@.len() as int) == decimal(port as int)
            &&& port >= 0 ==> digits_number(text@.subrange(h + 1, text@.len() as int)) == port
            &&& port < 0 ==> text@[h + 1] == '-' && digits_number(
                text@.subrange(h + 2, text@.len() as int),
            ) == -port
        },
{
    reveal_with_fuel(first_mismatch, 3);
    lemma_decimal_reads_back(port as int);
    match r {
        Ok(text) => {
            let h = host@.len() as int;
            let t = text@;
            assert(t.subrange(0, h) =~= host@);
            assert(t.subrange(h + 1, t.len() as int) =~= decimal(port as int));
            if port < 0 {
                assert(t.subrange(h + 2, t.len() as int) =~= decimal(port as int).drop_first());
            }
        },
        Err(_) => {},
    }
}

/// `recv(n)` on a socket connected to a stream reads from that stream
/// exactly `n` bytes, for every `n` that fits a `usize`.
pub proof fn lemma_recv_reads_exactly_bufsize(
    socket: Socket,
    h: ConnHandle,
    n: i128,
    r: Result<(ConnHandle, usize), PyError>,
)
    requires
        socket.con == Some(Connection::TcpStream(h)),
        0 <= n <= usize::MAX,
        recv_request(socket, seq![PyValue::Int(n)], r),
    ensures
        r matches Ok((s, size)) && s == h && size == n,
{
    reveal_with_fuel(first_mismatch, 3);
}

/// `send(b)` on a socket connected to a stream writes to that stream
/// exactly the bytes of `b`: as many, and the same at every index, whatever
/// they hold.
pub proof fn lemma_send_writes_all_bytes(
    socket: Socket,
    h: ConnHandle,
    bytes: Vec<u8>,
    r: Result<(ConnHandle, Vec<u8>), PyError>,
)
    requires
        socket.con == Some(Connection::TcpStream(h)),
        send_request(socket, seq![PyValue::Bytes(bytes)], r),
    ensures
        r matches Ok((s, data)) && s == h && data@.len() == bytes@.len() && forall|i: int|
            0 <= i < bytes@.len() ==> data@[i] == bytes@[i],
{
    reveal_with_fuel(first_mismatch, 3);
}

/// `socket(cls, f, k)` with a family number `f` in 1..=3 and a kind number
/// `k` in 1..=2 makes an unconnected socket whose family is the one that
/// `from_i32(f)` names and whose kind is the one `from_i32(k)` names: Unix,
/// Inet, Inet6 for 1, 2, 3, and Stream, Dgram for 1, 2.
pub proof fn lemma_new_socket_family_and_kind(
    cls: PyValue,
    f: i128,
    k: i128,
    r: Result<Socket, PyError>,
)
    requires
        1 <= f <= 3,
        1 <= k <= 2,
        new_outcome(seq![cls, PyValue::Int(f), PyValue::Int(k)], r),
    ensures
        r matches Ok(s) && s.con is None && s.address_family == (if f == 1 {
            AddressFamily::Unix
        } else if f == 2 {
            AddressFamily::Inet
        } else {
            AddressFamily::Inet6
        }) && s.socket_kind == (if k == 1 {
            SocketKind::Stream
        } else {
            SocketKind::Dgram
        }),
{
    reveal_with_fuel(first_mismatch, 4);
}

} // verus!
