//! The `socket` module: socket objects, their connection state, and what
//! each method decides before and after the operating system does its part.
//!
//! A method that needs the network is split in two. The first function
//! checks the arguments and the socket's state and names the work to do
//! (an address to connect to, a connection to read from, ...). The caller
//! does that work and hands its outcome to the second function, which
//! updates the socket or builds the result.
use crate::args::{arg_check, check_args, expected_type, lemma_checked_args, PyError, PyType, PyValue};
use crate::pyint::{int_to_i32, int_to_usize};
use crate::text::{decimal, decimal_string};
use vstd::prelude::*;

verus! {

/// A connection is named by a handle that the caller assigns to the
/// operating-system object.
pub type ConnHandle = u64;

/// The address families that `socket()` accepts, with their numbers.
#[derive(Clone, Copy, Debug, PartialEq, Eq, Structural)]
pub enum AddressFamily {
    Unix,
    Inet,
    Inet6,
}

impl AddressFamily {
    /// The number that stands for the family.
    pub open spec fn number(self) -> int {
        match self {
            AddressFamily::Unix => 1,
            AddressFamily::Inet => 2,
            AddressFamily::Inet6 => 3,
        }
    }

    /// The family numbered `value`.
    pub fn from_i32(value: i32) -> (r: AddressFamily)
        requires
            1 <= value <= 3,
        ensures
            r.number() == value,
    {
        match value {
            1 => AddressFamily::Unix,
            2 => AddressFamily::Inet,
            _ => AddressFamily::Inet6,
        }
    }

    /// The number of the family.
    pub fn as_i32(self) -> (r: i32)
        ensures
            r == self.number(),
    {
        match self {
            AddressFamily::Unix => 1,
            AddressFamily::Inet => 2,
            AddressFamily::Inet6 => 3,
        }
    }
}

/// The socket kinds that `socket()` accepts, with their numbers.
#[derive(Clone, Copy, Debug, PartialEq, Eq, Structural)]
pub enum SocketKind {
    Stream,
    Dgram,
}

impl SocketKind {
    /// The number that stands for the kind.
    pub open spec fn number(self) -> int {
        match self {
            SocketKind::Stream => 1,
            SocketKind::Dgram => 2,
        }
    }

    /// The kind numbered `value`.
    pub fn from_i32(value: i32) -> (r: SocketKind)
        requires
            1 <= value <= 2,
        ensures
            r.number() == value,
    {
        match value {
            1 => SocketKind::Stream,
            _ => SocketKind::Dgram,
        }
    }

    /// The number of the kind.
    pub fn as_i32(self) -> (r: i32)
        ensures
            r == self.number(),
    {
        match self {
            SocketKind::Stream => 1,
            SocketKind::Dgram => 2,
        }
    }
}

/// What a socket is connected to.
#[derive(Clone, Copy, Debug, PartialEq, Eq, Structural)]
pub enum Connection {
    /// A bound TCP listener.
    TcpListener(ConnHandle),
    /// A connected TCP stream.
    TcpStream(ConnHandle),
}

/// The kinds of I/O error that a connection reports.
#[derive(Clone, Copy, Debug, PartialEq, Eq, Structural)]
pub enum IoErrorKind {
    Other,
}

/// The error of an operation that the connection does not support.
pub struct IoError {
    pub kind: IoErrorKind,
    pub message: String,
}

/// The error that a connection gives for an operation it does not support.
pub open spec fn is_unsupported(e: IoError) -> bool {
    e.kind == IoErrorKind::Other && e.message@ == "oh no!"@
}

fn unsupported() -> (e: IoError)
    ensures
        is_unsupported(e),
{
    IoError { kind: IoErrorKind::Other, message: String::from_str("oh no!") }
}

impl Connection {
    /// The listener that an `accept` goes to; a stream cannot accept.
    pub fn accept(&self) -> (r: Result<ConnHandle, IoError>)
        ensures
            match *self {
                Connection::TcpListener(h) => r == Ok::<ConnHandle, IoError>(h),
                Connection::TcpStream(_) => r matches Err(e) && is_unsupported(e),
            },
    {
        match self {
            Connection::TcpListener(h) => Ok(*h),
            _ => Err(unsupported()),
        }
    }

    /// The listener whose local address is asked; a stream does not answer.
    pub fn local_addr(&self) -> (r: Result<ConnHandle, IoError>)
        ensures
            match *self {
                Connection::TcpListener(h) => r == Ok::<ConnHandle, IoError>(h),
                Connection::TcpStream(_) => r matches Err(e) && is_unsupported(e),
            },
    {
        match self {
            Connection::TcpListener(h) => Ok(*h),
            _ => Err(unsupported()),
        }
    }

    /// The stream that a read goes to; a listener cannot be read.
    pub fn read(&self) -> (r: Result<ConnHandle, IoError>)
        ensures
            match *self {
                Connection::TcpStream(h) => r == Ok::<ConnHandle, IoError>(h),
                Connection::TcpListener(_) => r matches Err(e) && is_unsupported(e),
            },
    {
        match self {
            Connection::TcpStream(h) => Ok(*h),
            _ => Err(unsupported()),
        }
    }

    /// The stream that a write goes to; a listener cannot be written.
    pub fn write(&self) -> (r: Result<ConnHandle, IoError>)
        ensures
            match *self {
                Connection::TcpStream(h) => r == Ok::<ConnHandle, IoError>(h),
                Connection::TcpListener(_) => r matches Err(e) && is_unsupported(e),
            },
    {
        match self {
            Connection::TcpStream(h) => Ok(*h),
            _ => Err(unsupported()),
        }
    }

    /// Flushing a connection always succeeds: nothing is buffered.
    pub fn flush(&self) -> (r: Result<(), IoError>)
        ensures
            r is Ok,
    {
        Ok(())
    }
}

/// A socket object: its family and kind, and its connection once it has
/// connected or bound.
pub struct Socket {
    pub address_family: AddressFamily,
    pub socket_kind: SocketKind,
    pub con: Option<Connection>,
}

impl Socket {
    /// A socket of the given family and kind, not connected.
    pub fn new(address_family: AddressFamily, socket_kind: SocketKind) -> (s: Socket)
        ensures
            s.address_family == address_family,
            s.socket_kind == socket_kind,
            s.con is None,
    {
        Socket { address_family, socket_kind, con: None }
    }
}

/// `e` is a `TypeError` with the message `msg`.
pub open spec fn is_type_error(e: PyError, msg: Seq<char>) -> bool {
    e matches PyError::TypeError(m) && m@ == msg
}

fn type_error_empty() -> (e: PyError)
    ensures
        is_type_error(e, ""@),
{
    PyError::TypeError(String::from_str(""))
}

fn type_error_failed() -> (e: PyError)
    ensures
        is_type_error(e, "socket failed"@),
{
    PyError::TypeError(String::from_str("socket failed"))
}

/// The value of an int argument (0 for any other value).
pub open spec fn int_value(v: PyValue) -> int {
    match v {
        PyValue::Int(i) => i as int,
        _ => 0,
    }
}

/// The parameters of `socket.__new__`: the class, the family, the kind.
pub open spec fn new_params() -> Seq<Option<PyType>> {
    seq![None, Some(PyType::Int), Some(PyType::Int)]
}

/// The arguments of `socket.__new__` on which it does not panic: once they
/// pass the checks, the family is 1, 2 or 3 and the kind is 1 or 2.
pub open spec fn new_args_in_range(args: Seq<PyValue>) -> bool {
    arg_check(args, 0, new_params(), seq![]) is None ==> {
        &&& 1 <= int_value(args[1]) <= 3
        &&& 1 <= int_value(args[2]) <= 2
    }
}

/// What `socket.__new__` gives: the error of the arguments, or a socket,
/// not connected, of the family and kind they number.
pub open spec fn new_outcome(args: Seq<PyValue>, r: Result<Socket, PyError>) -> bool {
    match arg_check(args, 0, new_params(), seq![]) {
        Some(e) => r == Err::<Socket, PyError>(e),
        None => r matches Ok(s) && {
            &&& s.address_family.number() == int_value(args[1])
            &&& s.socket_kind.number() == int_value(args[2])
            &&& s.con is None
        },
    }
}

/// `socket.__new__(cls, family, kind)`: a new socket, not connected, of the
/// given family and kind.
pub fn socket_new(args: &Vec<PyValue>) -> (r: Result<Socket, PyError>)
    requires
        new_args_in_range(args@),
    ensures
        new_outcome(args@, r),
{
    let params: Vec<Option<PyType>> = vec![None, Some(PyType::Int), Some(PyType::Int)];
    let none: Vec<PyType> = Vec::new();
    assert(params@ =~= new_params());
    assert(none@ =~= Seq::<PyType>::empty());
    match check_args(args, 0, &params, &none) {
        Some(e) => {
            return Err(e);
        },
        None => {},
    }
    let family = match &args[1] {
        PyValue::Int(v) => *v,
        _ => 0,
    };
    let kind = match &args[2] {
        PyValue::Int(v) => *v,
        _ => 0,
    };
    let family = match int_to_i32(family) {
        Some(v) => v,
        None => 1,
    };
    let kind = match int_to_i32(kind) {
        Some(v) => v,
        None => 1,
    };
    let address_family = AddressFamily::from_i32(family);
    let socket_kind = SocketKind::from_i32(kind);
    Ok(Socket::new(address_family, socket_kind))
}

/// The text of a string argument (empty for any other value).
pub open spec fn str_value(v: PyValue) -> Seq<char> {
    match v {
        PyValue::Str(s) => s@,
        _ => Seq::empty(),
    }
}

/// The parameters of an address tuple: the host and the port.
pub open spec fn address_params() -> Seq<Option<PyType>> {
    seq![Some(PyType::Str), Some(PyType::Int)]
}

/// The elements of a tuple (empty for any other value).
pub open spec fn tuple_elements(v: PyValue) -> Seq<PyValue> {
    match v {
        PyValue::Tuple(elems) => elems@,
        _ => Seq::empty(),
    }
}

/// The text `host:port` of an address tuple `(host, port)`.
pub open spec fn address_text(elems: Seq<PyValue>) -> Seq<char> {
    str_value(elems[0]) + seq![':'] + decimal(int_value(elems[1]))
}

/// What `get_address_string` gives for an address tuple.
pub open spec fn address_result_ok(address: PyValue, r: Result<String, PyError>) -> bool {
    let elems = tuple_elements(address);
    match arg_check(elems, 0, address_params(), seq![]) {
        Some(e) => r == Err::<String, PyError>(e),
        None => r matches Ok(s) && s@ == address_text(elems),
    }
}

/// The text `host:port` of the address tuple `(host, port)`, after checking
/// that it holds exactly a string and an int.
pub fn get_address_string(address: &PyValue) -> (r: Result<String, PyError>)
    requires
        address is Tuple,
    ensures
        address_result_ok(*address, r),
{
    let elems = match address {
        PyValue::Tuple(elems) => elems,
        _ => {
            return Err(type_error_empty());
        },
    };
    let params: Vec<Option<PyType>> = vec![Some(PyType::Str), Some(PyType::Int)];
    let none: Vec<PyType> = Vec::new();
    assert(params@ =~= address_params());
    assert(none@ =~= Seq::<PyType>::empty());
    match check_args(elems, 0, &params, &none) {
        Some(e) => {
            return Err(e);
        },
        None => {},
    }
    proof {
        lemma_checked_args(elems@, 0, address_params(), seq![]);
        assert(expected_type(address_params(), seq![], 0) == Some(PyType::Str));
        assert(expected_type(address_params(), seq![], 1) == Some(PyType::Int));
    }
    let mut text = match &elems[0] {
        PyValue::Str(host) => host.clone(),
        _ => String::new(),
    };
    assert(text@ == str_value(elems@[0]));
    let port = match &elems[1] {
        PyValue::Int(port) => decimal_string(*port),
        _ => String::new(),
    };
    assert(port@ == decimal(int_value(elems@[1])));
    text.append(":");
    proof {
        reveal_strlit(":");
    }
    assert(text@ == str_value(elems@[0]) + seq![':']);
    text.append(port.as_str());
    assert(text@ =~= address_text(elems@));
    Ok(text)
}

/// The parameters that follow the socket in `connect` and `bind`.
pub open spec fn address_arg_params() -> Seq<Option<PyType>> {
    seq![Some(PyType::Tuple)]
}

/// What `connect` and `bind` name as the address, or the error they raise.
pub open spec fn address_arg_result(args: Seq<PyValue>, r: Result<String, PyError>) -> bool {
    match arg_check(args, 1, address_arg_params(), seq![]) {
        Some(e) => r == Err::<String, PyError>(e),
        None => address_result_ok(args[0], r),
    }
}

fn address_arg(args: &Vec<PyValue>) -> (r: Result<String, PyError>)
    ensures
        address_arg_result(args@, r),
{
    let params: Vec<Option<PyType>> = vec![Some(PyType::Tuple)];
    let none: Vec<PyType> = Vec::new();
    assert(params@ =~= address_arg_params());
    assert(none@ =~= Seq::<PyType>::empty());
    match check_args(args, 1, &params, &none) {
        Some(e) => {
            return Err(e);
        },
        None => {},
    }
    get_address_string(&args[0])
}

/// `socket.connect(address)`, before the connection is made: the text
/// `host:port` to connect to.
pub fn socket_connect(args: &Vec<PyValue>) -> (r: Result<String, PyError>)
    ensures
        address_arg_result(args@, r),
{
    address_arg(args)
}

/// What `connect` does once the operating system has answered: `after` is
/// `before` connected to the new stream, or, when connecting failed,
/// unchanged with a `TypeError` raised.
pub open spec fn connect_finish_outcome(
    before: Socket,
    after: Socket,
    connected: Option<ConnHandle>,
    r: Result<(), PyError>,
) -> bool {
    &&& after.address_family == before.address_family
    &&& after.socket_kind == before.socket_kind
    &&& match connected {
        Some(h) => r is Ok && after.con == Some(Connection::TcpStream(h)),
        None => r matches Err(e) && is_type_error(e, "socket failed"@) && after.con == before.con,
    }
}

/// `socket.connect(address)`, once the operating system has answered:
/// `connected` is the new stream, or `None` when connecting failed. On
/// success the socket is connected to the stream; on failure it is left
/// unchanged and a `TypeError` is raised.
pub fn socket_connect_finish(socket: &mut Socket, connected: Option<ConnHandle>) -> (r: Result<
    (),
    PyError,
>)
    ensures
        connect_finish_outcome(*old(socket), *final(socket), connected, r),
{
    match connected {
        Some(h) => {
            socket.con = Some(Connection::TcpStream(h));
            Ok(())
        },
        None => Err(type_error_failed()),
    }
}

/// `socket.bind(address)`, before the listener is made: the text
/// `host:port` to bind to.
pub fn socket_bind(args: &Vec<PyValue>) -> (r: Result<String, PyError>)
    ensures
        address_arg_result(args@, r),
{
    address_arg(args)
}

/// What `bind` does once the operating system has answered: `after` is
/// `before` connected to the new listener, or, when binding failed,
/// unchanged with a `TypeError` raised.
pub open spec fn bind_finish_outcome(
    before: Socket,
    after: Socket,
    bound: Option<ConnHandle>,
    r: Result<(), PyError>,
) -> bool {
    &&& after.address_family == before.address_family
    &&& after.socket_kind == before.socket_kind
    &&& match bound {
        Some(h) => r is Ok && after.con == Some(Connection::TcpListener(h)),
        None => r matches Err(e) && is_type_error(e, "socket failed"@) && after.con == before.con,
    }
}

/// `socket.bind(address)`, once the operating system has answered: `bound`
/// is the new listener, or `None` when binding failed. On success the socket
/// is connected to the listener; on failure it is left unchanged and a
/// `TypeError` is raised.
pub fn socket_bind_finish(socket: &mut Socket, bound: Option<ConnHandle>) -> (r: Result<
    (),
    PyError,
>)
    ensures
        bind_finish_outcome(*old(socket), *final(socket), bound, r),
{
    match bound {
        Some(h) => {
            socket.con = Some(Connection::TcpListener(h));
            Ok(())
        },
        None => Err(type_error_failed()),
    }
}

/// The parameters that follow the socket in `listen` and `recv`.
pub open spec fn int_arg_params() -> Seq<Option<PyType>> {
    seq![Some(PyType::Int)]
}

/// `socket.listen(backlog)`: checks its argument and does nothing more.
pub fn socket_listen(args: &Vec<PyValue>) -> (r: Result<(), PyError>)
    ensures
        match arg_check(args@, 1, int_arg_params(), seq![]) {
            Some(e) => r == Err::<(), PyError>(e),
            None => r is Ok,
        },
{
    let params: Vec<Option<PyType>> = vec![Some(PyType::Int)];
    let none: Vec<PyType> = Vec::new();
    assert(params@ =~= int_arg_params());
    assert(none@ =~= Seq::<PyType>::empty());
    match check_args(args, 1, &params, &none) {
        Some(e) => Err(e),
        None => Ok(()),
    }
}

/// The arguments of the methods that take nothing but the socket.
pub open spec fn no_args_error(args: Seq<PyValue>) -> Option<PyError> {
    arg_check(args, 1, seq![], seq![])
}

fn check_no_args(args: &Vec<PyValue>) -> (r: Option<PyError>)
    ensures
        r == no_args_error(args@),
{
    let params: Vec<Option<PyType>> = Vec::new();
    let none: Vec<PyType> = Vec::new();
    assert(params@ =~= Seq::<Option<PyType>>::empty());
    assert(none@ =~= Seq::<PyType>::empty());
    check_args(args, 1, &params, &none)
}

/// What `accept` and `getsockname` name before the operating system does
/// its part: the socket's listener, an empty `TypeError` when the socket is
/// not connected or is connected to a stream, or the error of the arguments.
pub open spec fn listener_request(
    socket: Socket,
    args: Seq<PyValue>,
    r: Result<ConnHandle, PyError>,
) -> bool {
    match no_args_error(args) {
        Some(e) => r == Err::<ConnHandle, PyError>(e),
        None => match socket.con {
            Some(Connection::TcpListener(h)) => r == Ok::<ConnHandle, PyError>(h),
            _ => r matches Err(e) && is_type_error(e, ""@),
        },
    }
}

/// `socket.accept()`, before a connection is accepted: the listener to
/// accept on. A socket that is not connected, or is connected to a stream,
/// raises an empty `TypeError`.
pub fn socket_accept(socket: &Socket, args: &Vec<PyValue>) -> (r: Result<ConnHandle, PyError>)
    ensures
        listener_request(*socket, args@, r),
{
    match check_no_args(args) {
        Some(e) => {
            return Err(e);
        },
        None => {},
    }
    let ret = match &socket.con {
        Some(v) => v.accept(),
        None => {
            return Err(type_error_empty());
        },
    };
    match ret {
        Ok(h) => Ok(h),
        Err(_) => Err(type_error_empty()),
    }
}

/// What `accept` gives once the operating system has answered: a new socket
/// of the listening socket's family and kind connected to the accepted
/// stream, or an empty `TypeError` when accepting failed.
pub open spec fn accept_finish_outcome(
    socket: Socket,
    accepted: Option<ConnHandle>,
    r: Result<Socket, PyError>,
) -> bool {
    match accepted {
        Some(h) => r matches Ok(s) && {
            &&& s.address_family == socket.address_family
            &&& s.socket_kind == socket.socket_kind
            &&& s.con == Some(Connection::TcpStream(h))
        },
        None => r matches Err(e) && is_type_error(e, ""@),
    }
}

/// `socket.accept()`, once the operating system has answered: `accepted` is
/// the new stream, or `None` when accepting failed. The result is a new
/// socket of the same family and kind connected to that stream.
pub fn socket_accept_finish(socket: &Socket, accepted: Option<ConnHandle>) -> (r: Result<
    Socket,
    PyError,
>)
    ensures
        accept_finish_outcome(*socket, accepted, r),
{
    match accepted {
        Some(h) => Ok(
            Socket {
                address_family: socket.address_family,
                socket_kind: socket.socket_kind,
                con: Some(Connection::TcpStream(h)),
            },
        ),
        None => Err(type_error_empty()),
    }
}

/// The calls of `recv` on which it does not panic: once the arguments pass
/// the checks, the size fits a `usize` and the socket is not a listener.
pub open spec fn recv_defined(socket: Socket, args: Seq<PyValue>) -> bool {
    arg_check(args, 1, int_arg_params(), seq![]) is None ==> {
        &&& 0 <= int_value(args[0]) <= usize::MAX
        &&& !(socket.con matches Some(Connection::TcpListener(_)))
    }
}

/// What `recv` names before reading: the socket's stream and the size, an
/// empty `TypeError` when the socket is not connected, or the error of the
/// arguments.
pub open spec fn recv_request(
    socket: Socket,
    args: Seq<PyValue>,
    r: Result<(ConnHandle, usize), PyError>,
) -> bool {
    match arg_check(args, 1, int_arg_params(), seq![]) {
        Some(e) => r == Err::<(ConnHandle, usize), PyError>(e),
        None => match socket.con {
            Some(Connection::TcpStream(h)) => r == Ok::<(ConnHandle, usize), PyError>(
                (h, int_value(args[0]) as usize),
            ),
            _ => r matches Err(e) && is_type_error(e, ""@),
        },
    }
}

/// `socket.recv(bufsize)`, before reading: the stream to read from and the
/// number of bytes to read exactly. A socket that is not connected raises
/// an empty `TypeError`.
pub fn socket_recv(socket: &Socket, args: &Vec<PyValue>) -> (r: Result<
    (ConnHandle, usize),
    PyError,
>)
    requires
        recv_defined(*socket, args@),
    ensures
        recv_request(*socket, args@, r),
{
    let params: Vec<Option<PyType>> = vec![Some(PyType::Int)];
    let none: Vec<PyType> = Vec::new();
    assert(params@ =~= int_arg_params());
    assert(none@ =~= Seq::<PyType>::empty());
    match check_args(args, 1, &params, &none) {
        Some(e) => {
            return Err(e);
        },
        None => {},
    }
    let bufsize = match &args[0] {
        PyValue::Int(v) => *v,
        _ => 0,
    };
    let size = match int_to_usize(bufsize) {
        Some(n) => n,
        None => 0,
    };
    match &socket.con {
        Some(v) => match v.read() {
            Ok(h) => Ok((h, size)),
            Err(_) => Err(type_error_empty()),
        },
        None => Err(type_error_empty()),
    }
}

/// The calls of `send` on which it does not panic: once the argument passes
/// the checks, the socket is not a listener.
pub open spec fn send_defined(socket: Socket, args: Seq<PyValue>) -> bool {
    arg_check(args, 1, bytes_arg_params(), seq![]) is None ==> !(socket.con matches Some(
        Connection::TcpListener(_),
    ))
}

/// The parameters that follow the socket in `send`.
pub open spec fn bytes_arg_params() -> Seq<Option<PyType>> {
    seq![Some(PyType::Bytes)]
}

/// The bytes of a bytes argument (empty for any other value).
pub open spec fn bytes_value(v: PyValue) -> Seq<u8> {
    match v {
        PyValue::Bytes(b) => b@,
        _ => Seq::empty(),
    }
}

/// What `send` names before writing: the socket's stream and the bytes, an
/// empty `TypeError` when the socket is not connected, or the error of the
/// argument.
pub open spec fn send_request(
    socket: Socket,
    args: Seq<PyValue>,
    r: Result<(ConnHandle, Vec<u8>), PyError>,
) -> bool {
    match arg_check(args, 1, bytes_arg_params(), seq![]) {
        Some(e) => r == Err::<(ConnHandle, Vec<u8>), PyError>(e),
        None => match socket.con {
            Some(Connection::TcpStream(h)) => r matches Ok((s, data)) && s == h && data@
                == bytes_value(args[0]),
            _ => r matches Err(e) && is_type_error(e, ""@),
        },
    }
}

/// `socket.send(bytes)`, before writing: the stream to write to and the
/// bytes to write. A socket that is not connected raises an empty
/// `TypeError`.
pub fn socket_send(socket: &Socket, args: &Vec<PyValue>) -> (r: Result<
    (ConnHandle, Vec<u8>),
    PyError,
>)
    requires
        send_defined(*socket, args@),
    ensures
        send_request(*socket, args@, r),
{
    let params: Vec<Option<PyType>> = vec![Some(PyType::Bytes)];
    let none: Vec<PyType> = Vec::new();
    assert(params@ =~= bytes_arg_params());
    assert(none@ =~= Seq::<PyType>::empty());
    match check_args(args, 1, &params, &none) {
        Some(e) => {
            return Err(e);
        },
        None => {},
    }
    match &socket.con {
        Some(v) => match v.write() {
            Ok(h) => {
                let data = match &args[0] {
                    PyValue::Bytes(b) => b.clone(),
                    _ => Vec::new(),
                };
                proof {
                    assert(data@ =~= bytes_value(args@[0]));
                }
                Ok((h, data))
            },
            Err(_) => Err(type_error_empty()),
        },
        None => Err(type_error_empty()),
    }
}

/// What `close` does: `after` is `before` no longer connected, or, when the
/// arguments are refused, unchanged.
pub open spec fn close_outcome(
    before: Socket,
    after: Socket,
    args: Seq<PyValue>,
    r: Result<(), PyError>,
) -> bool {
    &&& after.address_family == before.address_family
    &&& after.socket_kind == before.socket_kind
    &&& match no_args_error(args) {
        Some(e) => r == Err::<(), PyError>(e) && after.con == before.con,
        None => r is Ok && after.con is None,
    }
}

/// `socket.close()`: the socket is no longer connected.
pub fn socket_close(socket: &mut Socket, args: &Vec<PyValue>) -> (r: Result<(), PyError>)
    ensures
        close_outcome(*old(socket), *final(socket), args@, r),
{
    match check_no_args(args) {
        Some(e) => Err(e),
        None => {
            socket.con = None;
            Ok(())
        },
    }
}

/// `socket.getsockname()`, before asking the operating system: the listener
/// whose local address is asked. A socket that is not connected, or is
/// connected to a stream, raises an empty `TypeError`.
pub fn socket_getsockname(socket: &Socket, args: &Vec<PyValue>) -> (r: Result<
    ConnHandle,
    PyError,
>)
    ensures
        listener_request(*socket, args@, r),
{
    match check_no_args(args) {
        Some(e) => {
            return Err(e);
        },
        None => {},
    }
    let addr = match &socket.con {
        Some(v) => v.local_addr(),
        None => {
            return Err(type_error_empty());
        },
    };
    match addr {
        Ok(h) => Ok(h),
        Err(_) => Err(type_error_empty()),
    }
}

/// The local address of a socket: the text of its IP address and its port.
pub struct SockName {
    pub ip: String,
    pub port: u16,
}

/// `socket.getsockname()`, once the operating system has answered: `addr`
/// is the listener's IP address and port, or `None` when they could not be
/// had, which raises an empty `TypeError`.
pub fn socket_getsockname_finish(addr: Option<(String, u16)>) -> (r: Result<SockName, PyError>)
    ensures
        match addr {
            Some((ip, port)) => r matches Ok(n) && n.ip@ == ip@ && n.port == port,
            None => r matches Err(e) && is_type_error(e, ""@),
        },
{
    match addr {
        Some((ip, port)) => Ok(SockName { ip, port }),
        None => Err(type_error_empty()),
    }
}

/// The methods of the `socket` class.
#[derive(Clone, Copy, Debug, PartialEq, Eq, Structural)]
pub enum SocketMethod {
    New,
    Connect,
    Recv,
    Send,
    Bind,
    Accept,
    Listen,
    Close,
    GetSockName,
}

impl SocketMethod {
    /// The attribute name of the method.
    pub open spec fn spec_name(self) -> Seq<char> {
        match self {
            SocketMethod::New => "__new__"@,
            SocketMethod::Connect => "connect"@,
            SocketMethod::Recv => "recv"@,
            SocketMethod::Send => "send"@,
            SocketMethod::Bind => "bind"@,
            SocketMethod::Accept => "accept"@,
            SocketMethod::Listen => "listen"@,
            SocketMethod::Close => "close"@,
            SocketMethod::GetSockName => "getsockname"@,
        }
    }

    /// The attribute name of the method.
    pub fn name(self) -> (r: &'static str)
        ensures
            r@ == self.spec_name(),
    {
        match self {
            SocketMethod::New => "__new__",
            SocketMethod::Connect => "connect",
            SocketMethod::Recv => "recv",
            SocketMethod::Send => "send",
            SocketMethod::Bind => "bind",
            SocketMethod::Accept => "accept",
            SocketMethod::Listen => "listen",
            SocketMethod::Close => "close",
            SocketMethod::GetSockName => "getsockname",
        }
    }
}

/// The contents of the `socket` module: its name, its int constants by
/// name, and the `socket` class with its methods in the order they are set.
pub struct SocketModule {
    pub name: String,
    pub int_attrs: Vec<(String, i32)>,
    pub class_name: String,
    pub methods: Vec<SocketMethod>,
}

/// The methods of the `socket` class in the order they are set.
pub open spec fn socket_methods() -> Seq<SocketMethod> {
    seq![
        SocketMethod::New,
        SocketMethod::Connect,
        SocketMethod::Recv,
        SocketMethod::Send,
        SocketMethod::Bind,
        SocketMethod::Accept,
        SocketMethod::Listen,
        SocketMethod::Close,
        SocketMethod::GetSockName,
    ]
}

/// The `socket` module: `AF_INET` is the number of the Inet family,
/// `SOCK_STREAM` that of the Stream kind, and the class `socket` has the
/// methods `__new__`, `connect`, `recv`, `send`, `bind`, `accept`, `listen`,
/// `close` and `getsockname`.
pub fn mk_module() -> (m: SocketModule)
    ensures
        m.name@ == "socket"@,
        m.int_attrs@.len() == 2,
        m.int_attrs@[0].0@ == "AF_INET"@,
        m.int_attrs@[0].1 == AddressFamily::Inet.number(),
        m.int_attrs@[1].0@ == "SOCK_STREAM"@,
        m.int_attrs@[1].1 == SocketKind::Stream.number(),
        m.class_name@ == "socket"@,
        m.methods@ == socket_methods(),
{
    let mut int_attrs: Vec<(String, i32)> = Vec::new();
    int_attrs.push((String::from_str("AF_INET"), AddressFamily::Inet.as_i32()));
    int_attrs.push((String::from_str("SOCK_STREAM"), SocketKind::Stream.as_i32()));
    let methods: Vec<SocketMethod> = vec![
        SocketMethod::New,
        SocketMethod::Connect,
        SocketMethod::Recv,
        SocketMethod::Send,
        SocketMethod::Bind,
        SocketMethod::Accept,
        SocketMethod::Listen,
        SocketMethod::Close,
        SocketMethod::GetSockName,
    ];
    assert(methods@ =~= socket_methods());
    SocketModule {
        name: String::from_str("socket"),
        int_attrs,
        class_name: String::from_str("socket"),
        methods,
    }
}

} // verus!
