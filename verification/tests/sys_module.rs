use rustpython_vm::args::{PyError, PyType, PyValue};
use rustpython_vm::sysmodule::{
    argv, build_module, frame_idx, getframe, mk_module, script_dir, sys_getrefcount, sys_getsizeof,
    SysFunction, SysObject, SYS_DOC,
};

fn strings(v: &[&str]) -> Vec<String> {
    v.iter().map(|s| s.to_string()).collect()
}

fn value_error_message(e: &PyError) -> Option<String> {
    match e {
        PyError::ValueError(m) => Some(m.clone()),
        _ => None,
    }
}

#[test]
fn argv_drops_the_interpreter() {
    assert_eq!(argv(&strings(&["python", "script.py", "-v"])), strings(&["script.py", "-v"]));
    assert_eq!(argv(&strings(&["python"])), Vec::<String>::new());
}

#[test]
fn frame_index() {
    assert_eq!(frame_idx(3, None).ok(), Some(0));
    assert_eq!(frame_idx(3, Some(2)).ok(), Some(2));
    assert_eq!(frame_idx(3, Some(0)).ok(), Some(0));
    let e = frame_idx(3, Some(3)).err().unwrap();
    assert_eq!(value_error_message(&e), Some("call stack is not deep enough".to_string()));
    assert_eq!(frame_idx(3, Some(-1)).ok(), Some(0));
    assert_eq!(frame_idx(0, Some(-1)).ok(), Some(0));
    assert_eq!(frame_idx(3, Some(i128::MAX)).ok(), Some(0));
}

#[test]
fn getframe_counts_from_the_innermost() {
    assert_eq!(getframe(4, &vec![]).ok(), Some(3));
    assert_eq!(getframe(4, &vec![PyValue::Int(1)]).ok(), Some(2));
    assert_eq!(getframe(4, &vec![PyValue::Int(3)]).ok(), Some(0));
    let e = getframe(4, &vec![PyValue::Int(4)]).err().unwrap();
    assert_eq!(value_error_message(&e), Some("call stack is not deep enough".to_string()));
    assert_eq!(getframe(4, &vec![PyValue::Int(-2)]).ok(), Some(3));
    match getframe(4, &vec![PyValue::Str("1".to_string())]) {
        Err(PyError::ArgumentType { position, expected }) => {
            assert_eq!((position, expected), (1, PyType::Int))
        }
        _ => panic!("expected an argument type error"),
    }
    match getframe(0, &vec![PyValue::Int(1), PyValue::Int(2)]) {
        Err(PyError::ArgumentCount { min, max, got }) => assert_eq!((min, max, got), (0, 1, 2)),
        _ => panic!("expected an argument count error"),
    }
}

#[test]
fn refcount_and_sizeof() {
    assert_eq!(sys_getrefcount(&vec![PyValue::NoneValue], 5).ok(), Some(5));
    match sys_getrefcount(&vec![], 5) {
        Err(PyError::ArgumentCount { min, max, got }) => assert_eq!((min, max, got), (1, 1, 0)),
        _ => panic!("expected an argument count error"),
    }
    let header = std::mem::size_of::<PyValue>();
    assert_eq!(sys_getsizeof(&vec![PyValue::Object]).ok(), Some(header));
    assert_eq!(sys_getsizeof(&vec![PyValue::Int(7)]).ok(), Some(header));
    assert_eq!(sys_getsizeof(&vec![PyValue::Bytes(vec![0; 1000])]).ok(), Some(header + 1000));
    assert_eq!(sys_getsizeof(&vec![PyValue::Str("héllo".to_string())]).ok(), Some(header + 6));
    let tuple = PyValue::Tuple(vec![PyValue::Int(1), PyValue::Int(2), PyValue::NoneValue]);
    let word = std::mem::size_of::<usize>();
    assert_eq!(sys_getsizeof(&vec![tuple]).ok(), Some(header + 3 * word));
    let empty_list = sys_getsizeof(&vec![PyValue::List(vec![])]).ok().unwrap();
    let long_list = sys_getsizeof(&vec![PyValue::List((0..1000).map(|_| PyValue::Int(1)).collect())]).ok().unwrap();
    assert_eq!(empty_list, header);
    assert_eq!(long_list, header + 1000 * word);
    assert!(long_list > empty_list);
    let dict = PyValue::Dict((0..4).map(|_| (PyValue::Int(1), PyValue::NoneValue)).collect());
    assert_eq!(sys_getsizeof(&vec![dict]).ok(), Some(header + 8 * word));
    let empty = sys_getsizeof(&vec![PyValue::Bytes(vec![])]).ok().unwrap();
    let big = sys_getsizeof(&vec![PyValue::Bytes(vec![1; 64])]).ok().unwrap();
    assert!(big > empty);
    assert!(sys_getsizeof(&vec![PyValue::Object, PyValue::Object]).is_err());
}

#[test]
fn sys_module_contents() {
    let m = build_module(
        &strings(&["python", "/home/a.py"]),
        Some("/home".to_string()),
        strings(&["/lib", "/site"]),
    );
    assert_eq!(m.name, "sys");
    assert_eq!(m.argv, strings(&["/home/a.py"]));
    assert_eq!(m.path, strings(&["/home", "/lib", "/site"]));
    assert_eq!(m.maxsize, usize::MAX);
    assert_eq!(m.ps1, ">>>>> ");
    assert_eq!(m.ps2, "..... ");
    assert_eq!(m.doc, SYS_DOC);
    assert!(m.doc.starts_with("This module provides access"));
    assert_eq!(m.modules, strings(&["sys"]));
    let functions: Vec<&str> = m.functions.iter().map(|f| f.name()).collect();
    for name in ["exit", "exc_info", "getrecursionlimit", "setrecursionlimit", "settrace",
        "displayhook", "excepthook", "getrefcount", "getsizeof", "_getframe"] {
        assert!(functions.contains(&name), "{}", name);
    }
    assert_eq!(functions.len(), 16);
    assert_eq!(m.functions[15], SysFunction::GetFrame);
    let objects: Vec<&str> = m.objects.iter().map(|o| o.name()).collect();
    for name in ["stdin", "stdout", "stderr", "builtin_module_names", "version", "platform",
        "__displayhook__"] {
        assert!(objects.contains(&name), "{}", name);
    }
    assert_eq!(m.objects[0], SysObject::Stdin);
    // Every object and function the docstring describes is in the module.
    for line in SYS_DOC.lines() {
        if let Some((head, _)) = line.split_once(" -- ") {
            let name = head.trim_end_matches("()");
            let held = ["argv", "path", "modules", "maxsize"].contains(&name)
                || functions.contains(&name)
                || objects.contains(&name)
                || name.starts_with("last_");
            assert!(held, "{}", name);
        }
    }
}

#[test]
fn path_starts_with_script_dir() {
    let m = mk_module(&strings(&["python", "/home/u/a.py"]), strings(&["/x"]));
    assert_eq!(m.path, strings(&["/home/u", "/x"]));
    let m = mk_module(&strings(&["python", "a.py"]), vec![]);
    assert_eq!(m.path, strings(&[""]));
    let m = mk_module(&strings(&["python"]), strings(&["/x"]));
    assert_eq!(m.path, strings(&["", "/x"]));
    assert!(m.argv.is_empty());
    assert_eq!(script_dir(&strings(&["python", "/a/b/c.py"])), Some("/a/b".to_string()));
    assert_eq!(script_dir(&strings(&["python"])), None);
}
