use rustpython_vm::args::{PyError, PyType, PyValue};
use rustpython_vm::socket::{
    get_address_string, mk_module, socket_accept, socket_accept_finish, socket_bind,
    socket_bind_finish, socket_close, socket_connect, socket_connect_finish,
    socket_getsockname, socket_getsockname_finish, socket_listen, socket_new, socket_recv,
    socket_send, AddressFamily, Connection, IoErrorKind, Socket, SocketKind, SocketMethod,
};

fn py_int(v: i128) -> PyValue {
    PyValue::Int(v)
}

fn string(s: &str) -> PyValue {
    PyValue::Str(s.to_string())
}

fn address(host: &str, port: i128) -> PyValue {
    PyValue::Tuple(vec![string(host), py_int(port)])
}

fn type_error_message(e: &PyError) -> Option<String> {
    match e {
        PyError::TypeError(m) => Some(m.clone()),
        _ => None,
    }
}

fn inet_stream() -> Socket {
    Socket::new(AddressFamily::Inet, SocketKind::Stream)
}

#[test]
fn family_numbers_round_trip() {
    for v in 1..=3 {
        assert_eq!(AddressFamily::from_i32(v).as_i32(), v);
    }
    assert_eq!(AddressFamily::from_i32(1), AddressFamily::Unix);
    assert_eq!(AddressFamily::from_i32(2), AddressFamily::Inet);
    assert_eq!(AddressFamily::from_i32(3), AddressFamily::Inet6);
    for f in [AddressFamily::Unix, AddressFamily::Inet, AddressFamily::Inet6] {
        assert_eq!(AddressFamily::from_i32(f.as_i32()), f);
    }
}

#[test]
fn kind_numbers_round_trip() {
    assert_eq!(SocketKind::from_i32(1), SocketKind::Stream);
    assert_eq!(SocketKind::from_i32(2), SocketKind::Dgram);
    for k in [SocketKind::Stream, SocketKind::Dgram] {
        assert_eq!(SocketKind::from_i32(k.as_i32()), k);
    }
}

#[test]
fn module_contents() {
    let m = mk_module();
    assert_eq!(m.name, "socket");
    assert_eq!(m.int_attrs, vec![("AF_INET".to_string(), 2), ("SOCK_STREAM".to_string(), 1)]);
    assert_eq!(m.class_name, "socket");
    let names: Vec<&str> = m.methods.iter().map(|x| x.name()).collect();
    assert_eq!(
        names,
        vec![
            "__new__", "connect", "recv", "send", "bind", "accept", "listen", "close",
            "getsockname"
        ]
    );
    assert_eq!(m.methods[0], SocketMethod::New);
    // The constants are accepted back by socket().
    let s = socket_new(&vec![PyValue::Object, py_int(2), py_int(1)]).ok().unwrap();
    assert_eq!(s.address_family, AddressFamily::Inet);
    assert_eq!(s.socket_kind, SocketKind::Stream);
    assert!(s.con.is_none());
}

#[test]
fn new_checks_arguments() {
    match socket_new(&vec![PyValue::Object, py_int(2)]) {
        Err(PyError::ArgumentCount { min, max, got }) => {
            assert_eq!((min, max, got), (3, 3, 2));
        }
        _ => panic!("expected an argument count error"),
    }
    match socket_new(&vec![PyValue::Object, string("x"), py_int(1)]) {
        Err(PyError::ArgumentType { position, expected }) => {
            assert_eq!(position, 2);
            assert_eq!(expected, PyType::Int);
        }
        _ => panic!("expected an argument type error"),
    }
    match socket_new(&vec![PyValue::Object, py_int(3), PyValue::NoneValue]) {
        Err(PyError::ArgumentType { position, expected }) => {
            assert_eq!(position, 3);
            assert_eq!(expected, PyType::Int);
        }
        _ => panic!("expected an argument type error"),
    }
    let s = socket_new(&vec![PyValue::Object, py_int(3), py_int(2)]).ok().unwrap();
    assert_eq!(s.address_family, AddressFamily::Inet6);
    assert_eq!(s.socket_kind, SocketKind::Dgram);
}

#[test]
fn connection_errors_are_other() {
    let listener = Connection::TcpListener(1);
    let e = listener.read().err().unwrap();
    assert_eq!(e.kind, IoErrorKind::Other);
    assert_eq!(e.message, "oh no!");
    let stream = Connection::TcpStream(2);
    assert_eq!(stream.read().ok(), Some(2));
    assert_eq!(stream.write().ok(), Some(2));
    assert_eq!(listener.accept().ok(), Some(1));
    assert_eq!(listener.local_addr().ok(), Some(1));
    assert!(stream.accept().is_err());
    assert!(stream.local_addr().is_err());
    assert!(listener.write().is_err());
    assert!(stream.flush().is_ok());
}

#[test]
fn address_text() {
    assert_eq!(get_address_string(&address("localhost", 8080)).ok().unwrap(), "localhost:8080");
    assert_eq!(get_address_string(&address("h", 0)).ok().unwrap(), "h:0");
    assert_eq!(get_address_string(&address("h", -42)).ok().unwrap(), "h:-42");
    assert_eq!(
        get_address_string(&address("", i128::MIN)).ok().unwrap(),
        format!(":{}", i128::MIN)
    );
    assert_eq!(
        get_address_string(&address("", i128::MAX)).ok().unwrap(),
        format!(":{}", i128::MAX)
    );
    for p in [1i128, 9, 10, 99, 100, 65535, 1234567890123] {
        assert_eq!(get_address_string(&address("a", p)).ok().unwrap(), format!("a:{}", p));
    }
}

#[test]
fn address_is_checked() {
    match get_address_string(&PyValue::Tuple(vec![string("h")])) {
        Err(PyError::ArgumentCount { min, max, got }) => assert_eq!((min, max, got), (2, 2, 1)),
        _ => panic!("expected an argument count error"),
    }
    match get_address_string(&PyValue::Tuple(vec![py_int(1), py_int(2)])) {
        Err(PyError::ArgumentType { position, expected }) => {
            assert_eq!((position, expected), (1, PyType::Str))
        }
        _ => panic!("expected an argument type error"),
    }
    match get_address_string(&PyValue::Tuple(vec![string("h"), string("80")])) {
        Err(PyError::ArgumentType { position, expected }) => {
            assert_eq!((position, expected), (2, PyType::Int))
        }
        _ => panic!("expected an argument type error"),
    }
}

#[test]
fn connect_names_the_address() {
    assert_eq!(socket_connect(&vec![address("example.org", 80)]).ok().unwrap(), "example.org:80");
    assert_eq!(socket_bind(&vec![address("0.0.0.0", 9000)]).ok().unwrap(), "0.0.0.0:9000");
    match socket_connect(&vec![string("example.org:80")]) {
        Err(PyError::ArgumentType { position, expected }) => {
            assert_eq!((position, expected), (2, PyType::Tuple))
        }
        _ => panic!("expected an argument type error"),
    }
    match socket_bind(&vec![]) {
        Err(PyError::ArgumentCount { min, max, got }) => assert_eq!((min, max, got), (2, 2, 1)),
        _ => panic!("expected an argument count error"),
    }
}

#[test]
fn connect_then_send_and_recv() {
    let mut s = inet_stream();
    assert!(socket_connect_finish(&mut s, Some(7)).is_ok());
    assert_eq!(s.con, Some(Connection::TcpStream(7)));
    let (h, data) = socket_send(&s, &vec![PyValue::Bytes(vec![1, 2, 3])]).ok().unwrap();
    assert_eq!((h, data), (7, vec![1, 2, 3]));
    assert_eq!(socket_recv(&s, &vec![py_int(16)]).ok().unwrap(), (7, 16));
    let e = socket_accept(&s, &vec![]).err().unwrap();
    assert_eq!(type_error_message(&e), Some(String::new()));
    let e = socket_getsockname(&s, &vec![]).err().unwrap();
    assert_eq!(type_error_message(&e), Some(String::new()));
}

#[test]
fn failed_connect_keeps_socket() {
    let mut s = inet_stream();
    let e = socket_connect_finish(&mut s, None).err().unwrap();
    assert_eq!(type_error_message(&e), Some("socket failed".to_string()));
    assert!(s.con.is_none());
    let mut b = inet_stream();
    assert!(socket_bind_finish(&mut b, Some(3)).is_ok());
    let e = socket_bind_finish(&mut b, None).err().unwrap();
    assert_eq!(type_error_message(&e), Some("socket failed".to_string()));
    assert_eq!(b.con, Some(Connection::TcpListener(3)));
}

#[test]
fn bind_then_accept() {
    let mut s = Socket::new(AddressFamily::Inet6, SocketKind::Stream);
    assert!(socket_bind_finish(&mut s, Some(4)).is_ok());
    assert!(socket_listen(&vec![py_int(5)]).is_ok());
    assert_eq!(socket_accept(&s, &vec![]).ok(), Some(4));
    assert_eq!(socket_getsockname(&s, &vec![]).ok(), Some(4));
    let accepted = socket_accept_finish(&s, Some(11)).ok().unwrap();
    assert_eq!(accepted.address_family, AddressFamily::Inet6);
    assert_eq!(accepted.socket_kind, SocketKind::Stream);
    assert_eq!(accepted.con, Some(Connection::TcpStream(11)));
    assert_eq!(socket_recv(&accepted, &vec![py_int(1)]).ok().unwrap(), (11, 1));
    let e = socket_accept_finish(&s, None).err().unwrap();
    assert_eq!(type_error_message(&e), Some(String::new()));
    let n = socket_getsockname_finish(Some(("127.0.0.1".to_string(), 9000))).ok().unwrap();
    assert_eq!((n.ip.as_str(), n.port), ("127.0.0.1", 9000));
    let e = socket_getsockname_finish(None).err().unwrap();
    assert_eq!(type_error_message(&e), Some(String::new()));
}

#[test]
fn listen_checks_its_argument() {
    match socket_listen(&vec![string("5")]) {
        Err(PyError::ArgumentType { position, expected }) => {
            assert_eq!((position, expected), (2, PyType::Int))
        }
        _ => panic!("expected an argument type error"),
    }
    match socket_listen(&vec![py_int(1), py_int(2)]) {
        Err(PyError::ArgumentCount { min, max, got }) => assert_eq!((min, max, got), (2, 2, 3)),
        _ => panic!("expected an argument count error"),
    }
}

#[test]
fn unconnected_socket_refuses() {
    let s = inet_stream();
    for e in [
        socket_accept(&s, &vec![]).err().unwrap(),
        socket_getsockname(&s, &vec![]).err().unwrap(),
        socket_recv(&s, &vec![py_int(4)]).err().unwrap(),
        socket_send(&s, &vec![PyValue::Bytes(vec![])]).err().unwrap(),
    ] {
        assert_eq!(type_error_message(&e), Some(String::new()));
    }
}

#[test]
fn close_disconnects() {
    let mut s = inet_stream();
    socket_connect_finish(&mut s, Some(5)).ok().unwrap();
    match socket_close(&mut s, &vec![py_int(1)]) {
        Err(PyError::ArgumentCount { min, max, got }) => assert_eq!((min, max, got), (1, 1, 2)),
        _ => panic!("expected an argument count error"),
    }
    assert_eq!(s.con, Some(Connection::TcpStream(5)));
    assert!(socket_close(&mut s, &vec![]).is_ok());
    assert!(s.con.is_none());
    assert_eq!(s.address_family, AddressFamily::Inet);
    let e = socket_recv(&s, &vec![py_int(4)]).err().unwrap();
    assert_eq!(type_error_message(&e), Some(String::new()));
    let e = socket_send(&s, &vec![PyValue::Bytes(vec![9])]).err().unwrap();
    assert_eq!(type_error_message(&e), Some(String::new()));
    assert!(socket_close(&mut s, &vec![]).is_ok());
    assert!(s.con.is_none());
}

#[test]
fn recv_and_send_check_arguments() {
    let mut s = inet_stream();
    socket_connect_finish(&mut s, Some(1)).ok().unwrap();
    match socket_recv(&s, &vec![PyValue::Bytes(vec![])]) {
        Err(PyError::ArgumentType { position, expected }) => {
            assert_eq!((position, expected), (2, PyType::Int))
        }
        _ => panic!("expected an argument type error"),
    }
    match socket_send(&s, &vec![string("text")]) {
        Err(PyError::ArgumentType { position, expected }) => {
            assert_eq!((position, expected), (2, PyType::Bytes))
        }
        _ => panic!("expected an argument type error"),
    }
    assert_eq!(socket_recv(&s, &vec![py_int(0)]).ok().unwrap(), (1, 0));
}
