//! The `sys` module: its contents, and the decisions of its functions. The
//! caller reads the process's arguments and environment and the
//! interpreter's frames, and hands them in as plain values.
use crate::args::{arg_check, check_args, expected_type, lemma_checked_args, PyError, PyType, PyValue};
use crate::pyint::int_to_usize;
use vstd::layout::size_of;
use vstd::prelude::*;
use vstd::utf8::encode_utf8;

verus! {

/// `argv` is the script's arguments for a process with the arguments
/// `process_args`: all of them but the first (the interpreter itself).
pub open spec fn is_script_argv(process_args: Seq<String>, argv: Seq<String>) -> bool {
    argv == process_args.drop_first()
}

/// The script's arguments: the process's arguments without the first (the
/// interpreter itself).
pub fn argv(process_args: &Vec<String>) -> (r: Vec<String>)
    requires
        process_args.len() >= 1,
    ensures
        is_script_argv(process_args@, r@),
{
    let mut r: Vec<String> = Vec::new();
    let mut i: usize = 1;
    while i < process_args.len()
        invariant
            1 <= i <= process_args.len(),
            r@ == process_args@.subrange(1, i as int),
        decreases process_args.len() - i,
    {
        let a = process_args[i].clone();
        r.push(a);
        assert(process_args@.subrange(1, i + 1) =~= process_args@.subrange(1, i as int).push(
            process_args@[i as int],
        ));
        i = i + 1;
    }
    assert(process_args@.subrange(1, process_args@.len() as int) =~= process_args@.drop_first());
    r
}

/// `e` is a `ValueError` with the message `msg`.
pub open spec fn is_value_error(e: PyError, msg: Seq<char>) -> bool {
    e matches PyError::ValueError(m) && m@ == msg
}

/// The calls of `frame_idx` on which it does not panic: an offset that fits
/// a `usize` is compared with the index of the outermost frame, so there
/// must be a frame.
pub open spec fn frame_idx_defined(frame_count: usize, offset: Option<i128>) -> bool {
    (offset matches Some(o) && 0 <= o <= usize::MAX) ==> frame_count >= 1
}

/// How many frames down the call stack `_getframe` goes: the offset when it
/// fits a `usize` and the stack is deep enough, a `ValueError` when it fits
/// but the stack is not deep enough, and 0 when there is no offset or it
/// does not fit a `usize`.
pub fn frame_idx(frame_count: usize, offset: Option<i128>) -> (r: Result<usize, PyError>)
    requires
        frame_idx_defined(frame_count, offset),
    ensures
        match offset {
            Some(o) => if 0 <= o <= usize::MAX {
                if o > frame_count - 1 {
                    r matches Err(e) && is_value_error(e, "call stack is not deep enough"@)
                } else {
                    r == Ok::<usize, PyError>(o as usize)
                }
            } else {
                r == Ok::<usize, PyError>(0)
            },
            None => r == Ok::<usize, PyError>(0),
        },
{
    if let Some(value) = offset {
        if let Some(offset) = int_to_usize(value) {
            if offset > frame_count - 1 {
                return Err(PyError::ValueError(String::from_str("call stack is not deep enough")));
            }
            return Ok(offset);
        }
    }
    Ok(0)
}

/// The optional parameter of `_getframe`: the depth.
pub open spec fn getframe_optional() -> Seq<PyType> {
    seq![PyType::Int]
}

/// The depth argument of `_getframe`, if there is one.
pub open spec fn depth_arg(args: Seq<PyValue>) -> Option<i128> {
    if args.len() >= 1 {
        match args[0] {
            PyValue::Int(d) => Some(d),
            _ => None,
        }
    } else {
        None
    }
}

/// The calls of `_getframe` on which it does not panic: once the arguments
/// pass the checks, there is a frame.
pub open spec fn getframe_defined(frame_count: usize, args: Seq<PyValue>) -> bool {
    arg_check(args, 0, seq![], getframe_optional()) is None ==> frame_count >= 1
}

/// What `_getframe` gives on a stack of `frame_count` frames: the error of
/// the arguments, the index of the frame `depth` calls below the innermost
/// one, or a `ValueError` when the stack is not that deep.
pub open spec fn getframe_outcome(
    frame_count: usize,
    args: Seq<PyValue>,
    r: Result<usize, PyError>,
) -> bool {
    match arg_check(args, 0, seq![], getframe_optional()) {
        Some(e) => r == Err::<usize, PyError>(e),
        None => match depth_arg(args) {
            Some(d) => if 0 <= d <= usize::MAX {
                if d > frame_count - 1 {
                    r matches Err(e) && is_value_error(e, "call stack is not deep enough"@)
                } else {
                    r == Ok::<usize, PyError>((frame_count - 1 - d) as usize)
                }
            } else {
                r == Ok::<usize, PyError>((frame_count - 1) as usize)
            },
            None => r == Ok::<usize, PyError>((frame_count - 1) as usize),
        },
    }
}

/// `sys._getframe([depth])`: the index, among the `frame_count` frames of
/// the call stack from the outermost, of the frame `depth` calls below the
/// innermost one.
pub fn getframe(frame_count: usize, args: &Vec<PyValue>) -> (r: Result<usize, PyError>)
    requires
        getframe_defined(frame_count, args@),
    ensures
        getframe_outcome(frame_count, args@, r),
        r matches Ok(i) ==> i < frame_count,
{
    let params: Vec<Option<PyType>> = Vec::new();
    let optional: Vec<PyType> = vec![PyType::Int];
    assert(params@ =~= Seq::<Option<PyType>>::empty());
    assert(optional@ =~= getframe_optional());
    match check_args(args, 0, &params, &optional) {
        Some(e) => {
            return Err(e);
        },
        None => {},
    }
    proof {
        lemma_checked_args(args@, 0, seq![], getframe_optional());
        if args@.len() == 1 {
            assert(expected_type(seq![], getframe_optional(), 0) == Some(PyType::Int));
        }
    }
    let offset: Option<i128> = if args.len() == 0 {
        None
    } else {
        match &args[0] {
            PyValue::Int(d) => Some(*d),
            _ => None,
        }
    };
    let idx = match frame_idx(frame_count, offset) {
        Ok(idx) => idx,
        Err(e) => {
            return Err(e);
        },
    };
    Ok(frame_count - idx - 1)
}

/// The parameters of `getrefcount` and `getsizeof`: one object of any type.
pub open spec fn object_params() -> Seq<Option<PyType>> {
    seq![None]
}

fn check_object_arg(args: &Vec<PyValue>) -> (r: Option<PyError>)
    ensures
        r == arg_check(args@, 0, object_params(), seq![]),
{
    let params: Vec<Option<PyType>> = vec![None];
    let none: Vec<PyType> = Vec::new();
    assert(params@ =~= object_params());
    assert(none@ =~= Seq::<PyType>::empty());
    check_args(args, 0, &params, &none)
}

/// `sys.getrefcount(object)`: the number of references to the object,
/// `strong_count`, which the interpreter counts.
pub fn sys_getrefcount(args: &Vec<PyValue>, strong_count: usize) -> (r: Result<usize, PyError>)
    ensures
        match arg_check(args@, 0, object_params(), seq![]) {
            Some(e) => r == Err::<usize, PyError>(e),
            None => r == Ok::<usize, PyError>(strong_count),
        },
{
    match check_object_arg(args) {
        Some(e) => Err(e),
        None => Ok(strong_count),
    }
}

/// The size of a reference to an object: that of a `usize`.
pub open spec fn ref_size() -> nat {
    size_of::<usize>()
}

/// The storage that an object holds directly, in bytes: the UTF-8 encoding
/// of a string, the bytes of a bytes object, one reference for each item
/// of a tuple or a list and two (key and value) for each entry of a dict
/// (the items are objects of their own, counted apart), nothing for an int,
/// `None` or another object, which live in their own record.
pub open spec fn payload_size(v: PyValue) -> nat {
    match v {
        PyValue::Str(s) => encode_utf8(s@).len(),
        PyValue::Bytes(b) => b@.len(),
        PyValue::Tuple(t) => t@.len() * ref_size(),
        PyValue::List(l) => l@.len() * ref_size(),
        PyValue::Dict(d) => d@.len() * (2 * ref_size()),
        _ => 0,
    }
}

/// The size of an object in bytes: its own record and the storage it holds
/// directly.
pub open spec fn object_size(v: PyValue) -> nat {
    size_of::<PyValue>() + payload_size(v)
}

/// `n` where it fits a `usize`, else `usize::MAX`.
pub open spec fn clamp_usize(n: nat) -> usize {
    if n <= usize::MAX {
        n as usize
    } else {
        usize::MAX
    }
}

fn object_size_of(v: &PyValue) -> (r: usize)
    ensures
        r == clamp_usize(object_size(*v)),
{
    let header = core::mem::size_of::<PyValue>();
    let slot = core::mem::size_of::<usize>();
    proof {
        broadcast use vstd::layout::layout_of_primitives;
        assert(size_of::<usize>() * 8 == usize::BITS);
    }
    let payload: Option<usize> = match v {
        PyValue::Str(s) => Some(s.as_str().as_bytes().len()),
        PyValue::Bytes(b) => Some(b.len()),
        PyValue::Tuple(t) => t.len().checked_mul(slot),
        PyValue::List(l) => l.len().checked_mul(slot),
        PyValue::Dict(d) => d.len().checked_mul(2 * slot),
        _ => Some(0),
    };
    match payload {
        Some(p) => header.saturating_add(p),
        None => usize::MAX,
    }
}

/// The number of references that a list, tuple or dict holds (0 for the
/// other objects).
pub open spec fn reference_count_held(v: PyValue) -> nat {
    match v {
        PyValue::Tuple(t) => t@.len(),
        PyValue::List(l) => l@.len(),
        PyValue::Dict(d) => 2 * d@.len(),
        _ => 0,
    }
}

/// Of two lists, tuples or dicts, the one that holds more references is the
/// larger: a list of 1000 items is larger than an empty list.
pub proof fn lemma_more_items_larger(a: PyValue, b: PyValue)
    requires
        a is Tuple || a is List || a is Dict,
        b is Tuple || b is List || b is Dict,
        reference_count_held(a) < reference_count_held(b),
    ensures
        object_size(a) < object_size(b),
{
    broadcast use vstd::layout::layout_of_primitives;

    assert(ref_size() > 0) by {
        assert(size_of::<usize>() * 8 == usize::BITS);
    }
    let r = ref_size();
    let na = reference_count_held(a);
    let nb = reference_count_held(b);
    assert(payload_size(a) == na * r) by (nonlinear_arith)
        requires
            a is Tuple ==> payload_size(a) == a->Tuple_0@.len() * r && na == a->Tuple_0@.len(),
            a is List ==> payload_size(a) == a->List_0@.len() * r && na == a->List_0@.len(),
            a is Dict ==> payload_size(a) == a->Dict_0@.len() * (2 * r) && na == 2 * a->Dict_0@.len(),
            a is Tuple || a is List || a is Dict,
    ;
    assert(payload_size(b) == nb * r) by (nonlinear_arith)
        requires
            b is Tuple ==> payload_size(b) == b->Tuple_0@.len() * r && nb == b->Tuple_0@.len(),
            b is List ==> payload_size(b) == b->List_0@.len() * r && nb == b->List_0@.len(),
            b is Dict ==> payload_size(b) == b->Dict_0@.len() * (2 * r) && nb == 2 * b->Dict_0@.len(),
            b is Tuple || b is List || b is Dict,
    ;
    assert(na * r < nb * r) by (nonlinear_arith)
        requires
            na < nb,
            r > 0,
    ;
}

/// Of two strings or two bytes objects, the one with more bytes is the
/// larger.
pub proof fn lemma_more_bytes_larger(a: PyValue, b: PyValue)
    requires
        (a is Str && b is Str && encode_utf8(a->Str_0@).len() < encode_utf8(b->Str_0@).len()) || (
        a is Bytes && b is Bytes && a->Bytes_0@.len() < b->Bytes_0@.len()),
    ensures
        object_size(a) < object_size(b),
{
}

/// `sys.getsizeof(object)`: the size of the object in bytes (`usize::MAX`
/// where it does not fit a `usize`).
pub fn sys_getsizeof(args: &Vec<PyValue>) -> (r: Result<usize, PyError>)
    ensures
        match arg_check(args@, 0, object_params(), seq![]) {
            Some(e) => r == Err::<usize, PyError>(e),
            None => r == Ok::<usize, PyError>(clamp_usize(object_size(args@[0]))),
        },
{
    match check_object_arg(args) {
        Some(e) => Err(e),
        None => {
            proof {
                lemma_checked_args(args@, 0, object_params(), seq![]);
            }
            Ok(object_size_of(&args[0]))
        },
    }
}

/// The functions of the `sys` module: those its docstring lists, and
/// `_getframe`. This library decides `getrefcount`, `getsizeof` and
/// `_getframe`; the interpreter runs the others.
#[derive(Clone, Copy, Debug, PartialEq, Eq, Structural)]
pub enum SysFunction {
    Displayhook,
    Excepthook,
    ExcInfo,
    Exit,
    GetDlopenFlags,
    GetProfile,
    GetRefCount,
    GetRecursionLimit,
    GetSizeOf,
    GetTrace,
    SetCheckInterval,
    SetDlopenFlags,
    SetProfile,
    SetRecursionLimit,
    SetTrace,
    GetFrame,
}

impl SysFunction {
    /// The attribute name.
    pub open spec fn spec_name(self) -> Seq<char> {
        match self {
            SysFunction::Displayhook => "displayhook"@,
            SysFunction::Excepthook => "excepthook"@,
            SysFunction::ExcInfo => "exc_info"@,
            SysFunction::Exit => "exit"@,
            SysFunction::GetDlopenFlags => "getdlopenflags"@,
            SysFunction::GetProfile => "getprofile"@,
            SysFunction::GetRefCount => "getrefcount"@,
            SysFunction::GetRecursionLimit => "getrecursionlimit"@,
            SysFunction::GetSizeOf => "getsizeof"@,
            SysFunction::GetTrace => "gettrace"@,
            SysFunction::SetCheckInterval => "setcheckinterval"@,
            SysFunction::SetDlopenFlags => "setdlopenflags"@,
            SysFunction::SetProfile => "setprofile"@,
            SysFunction::SetRecursionLimit => "setrecursionlimit"@,
            SysFunction::SetTrace => "settrace"@,
            SysFunction::GetFrame => "_getframe"@,
        }
    }

    /// The attribute name.
    pub fn name(self) -> (r: &'static str)
        ensures
            r@ == self.spec_name(),
    {
        match self {
            SysFunction::Displayhook => "displayhook",
            SysFunction::Excepthook => "excepthook",
            SysFunction::ExcInfo => "exc_info",
            SysFunction::Exit => "exit",
            SysFunction::GetDlopenFlags => "getdlopenflags",
            SysFunction::GetProfile => "getprofile",
            SysFunction::GetRefCount => "getrefcount",
            SysFunction::GetRecursionLimit => "getrecursionlimit",
            SysFunction::GetSizeOf => "getsizeof",
            SysFunction::GetTrace => "gettrace",
            SysFunction::SetCheckInterval => "setcheckinterval",
            SysFunction::SetDlopenFlags => "setdlopenflags",
            SysFunction::SetProfile => "setprofile",
            SysFunction::SetRecursionLimit => "setrecursionlimit",
            SysFunction::SetTrace => "settrace",
            SysFunction::GetFrame => "_getframe",
        }
    }
}

/// The functions of the `sys` module in the order they are set.
pub open spec fn sys_functions() -> Seq<SysFunction> {
    seq![
        SysFunction::Displayhook,
        SysFunction::Excepthook,
        SysFunction::ExcInfo,
        SysFunction::Exit,
        SysFunction::GetDlopenFlags,
        SysFunction::GetProfile,
        SysFunction::GetRefCount,
        SysFunction::GetRecursionLimit,
        SysFunction::GetSizeOf,
        SysFunction::GetTrace,
        SysFunction::SetCheckInterval,
        SysFunction::SetDlopenFlags,
        SysFunction::SetProfile,
        SysFunction::SetRecursionLimit,
        SysFunction::SetTrace,
        SysFunction::GetFrame,
    ]
}

fn sysfunction_vec() -> (v: Vec<SysFunction>)
    ensures
        v@ == sys_functions(),
{
    let v: Vec<SysFunction> = vec![
        SysFunction::Displayhook,
        SysFunction::Excepthook,
        SysFunction::ExcInfo,
        SysFunction::Exit,
        SysFunction::GetDlopenFlags,
        SysFunction::GetProfile,
        SysFunction::GetRefCount,
        SysFunction::GetRecursionLimit,
        SysFunction::GetSizeOf,
        SysFunction::GetTrace,
        SysFunction::SetCheckInterval,
        SysFunction::SetDlopenFlags,
        SysFunction::SetProfile,
        SysFunction::SetRecursionLimit,
        SysFunction::SetTrace,
        SysFunction::GetFrame,
    ];
    assert(v@ =~= sys_functions());
    v
}

/// The objects of the `sys` module that its docstring lists and whose
/// values the interpreter supplies: the standard streams and hooks, and
/// facts about the interpreter and the platform.
#[derive(Clone, Copy, Debug, PartialEq, Eq, Structural)]
pub enum SysObject {
    Stdin,
    Stdout,
    Stderr,
    BuiltinModuleNames,
    Copyright,
    ExecPrefix,
    Executable,
    FloatInfo,
    FloatReprStyle,
    HashInfo,
    HexVersion,
    Implementation,
    IntInfo,
    MaxUnicode,
    Platform,
    Prefix,
    ThreadInfo,
    Version,
    VersionInfo,
    OriginalStdin,
    OriginalStdout,
    OriginalStderr,
    OriginalDisplayhook,
    OriginalExcepthook,
}

impl SysObject {
    /// The attribute name.
    pub open spec fn spec_name(self) -> Seq<char> {
        match self {
            SysObject::Stdin => "stdin"@,
            SysObject::Stdout => "stdout"@,
            SysObject::Stderr => "stderr"@,
            SysObject::BuiltinModuleNames => "builtin_module_names"@,
            SysObject::Copyright => "copyright"@,
            SysObject::ExecPrefix => "exec_prefix"@,
            SysObject::Executable => "executable"@,
            SysObject::FloatInfo => "float_info"@,
            SysObject::FloatReprStyle => "float_repr_style"@,
            SysObject::HashInfo => "hash_info"@,
            SysObject::HexVersion => "hexversion"@,
            SysObject::Implementation => "implementation"@,
            SysObject::IntInfo => "int_info"@,
            SysObject::MaxUnicode => "maxunicode"@,
            SysObject::Platform => "platform"@,
            SysObject::Prefix => "prefix"@,
            SysObject::ThreadInfo => "thread_info"@,
            SysObject::Version => "version"@,
            SysObject::VersionInfo => "version_info"@,
            SysObject::OriginalStdin => "__stdin__"@,
            SysObject::OriginalStdout => "__stdout__"@,
            SysObject::OriginalStderr => "__stderr__"@,
            SysObject::OriginalDisplayhook => "__displayhook__"@,
            SysObject::OriginalExcepthook => "__excepthook__"@,
        }
    }

    /// The attribute name.
    pub fn name(self) -> (r: &'static str)
        ensures
            r@ == self.spec_name(),
    {
        match self {
            SysObject::Stdin => "stdin",
            SysObject::Stdout => "stdout",
            SysObject::Stderr => "stderr",
            SysObject::BuiltinModuleNames => "builtin_module_names",
            SysObject::Copyright => "copyright",
            SysObject::ExecPrefix => "exec_prefix",
            SysObject::Executable => "executable",
            SysObject::FloatInfo => "float_info",
            SysObject::FloatReprStyle => "float_repr_style",
            SysObject::HashInfo => "hash_info",
            SysObject::HexVersion => "hexversion",
            SysObject::Implementation => "implementation",
            SysObject::IntInfo => "int_info",
            SysObject::MaxUnicode => "maxunicode",
            SysObject::Platform => "platform",
            SysObject::Prefix => "prefix",
            SysObject::ThreadInfo => "thread_info",
            SysObject::Version => "version",
            SysObject::VersionInfo => "version_info",
            SysObject::OriginalStdin => "__stdin__",
            SysObject::OriginalStdout => "__stdout__",
            SysObject::OriginalStderr => "__stderr__",
            SysObject::OriginalDisplayhook => "__displayhook__",
            SysObject::OriginalExcepthook => "__excepthook__",
        }
    }
}

/// The interpreter-supplied objects of the `sys` module in the order they
/// are set.
pub open spec fn sys_objects() -> Seq<SysObject> {
    seq![
        SysObject::Stdin,
        SysObject::Stdout,
        SysObject::Stderr,
        SysObject::BuiltinModuleNames,
        SysObject::Copyright,
        SysObject::ExecPrefix,
        SysObject::Executable,
        SysObject::FloatInfo,
        SysObject::FloatReprStyle,
        SysObject::HashInfo,
        SysObject::HexVersion,
        SysObject::Implementation,
        SysObject::IntInfo,
        SysObject::MaxUnicode,
        SysObject::Platform,
        SysObject::Prefix,
        SysObject::ThreadInfo,
        SysObject::Version,
        SysObject::VersionInfo,
        SysObject::OriginalStdin,
        SysObject::OriginalStdout,
        SysObject::OriginalStderr,
        SysObject::OriginalDisplayhook,
        SysObject::OriginalExcepthook,
    ]
}

fn sysobject_vec() -> (v: Vec<SysObject>)
    ensures
        v@ == sys_objects(),
{
    let v: Vec<SysObject> = vec![
        SysObject::Stdin,
        SysObject::Stdout,
        SysObject::Stderr,
        SysObject::BuiltinModuleNames,
        SysObject::Copyright,
        SysObject::ExecPrefix,
        SysObject::Executable,
        SysObject::FloatInfo,
        SysObject::FloatReprStyle,
        SysObject::HashInfo,
        SysObject::HexVersion,
        SysObject::Implementation,
        SysObject::IntInfo,
        SysObject::MaxUnicode,
        SysObject::Platform,
        SysObject::Prefix,
        SysObject::ThreadInfo,
        SysObject::Version,
        SysObject::VersionInfo,
        SysObject::OriginalStdin,
        SysObject::OriginalStdout,
        SysObject::OriginalStderr,
        SysObject::OriginalDisplayhook,
        SysObject::OriginalExcepthook,
    ];
    assert(v@ =~= sys_objects());
    v
}

/// The docstring of the `sys` module.
pub const SYS_DOC: &'static str =
    "This module provides access to some objects used or maintained by the
interpreter and to functions that interact strongly with the interpreter.

Dynamic objects:

argv -- command line arguments; argv[0] is the script pathname if known
path -- module search path; path[0] is the script directory, else ''
modules -- dictionary of loaded modules

displayhook -- called to show results in an interactive session
excepthook -- called to handle any uncaught exception other than SystemExit
  To customize printing in an interactive session or to install a custom
  top-level exception handler, assign other functions to replace these.

stdin -- standard input file object; used by input()
stdout -- standard output file object; used by print()
stderr -- standard error object; used for error messages
  By assigning other file objects (or objects that behave like files)
  to these, it is possible to redirect all of the interpreter's I/O.

last_type -- type of last uncaught exception
last_value -- value of last uncaught exception
last_traceback -- traceback of last uncaught exception
  These three are only available in an interactive session after a
  traceback has been printed.

Static objects:

builtin_module_names -- tuple of module names built into this interpreter
copyright -- copyright notice pertaining to this interpreter
exec_prefix -- prefix used to find the machine-specific Python library
executable -- absolute path of the executable binary of the Python interpreter
float_info -- a struct sequence with information about the float implementation.
float_repr_style -- string indicating the style of repr() output for floats
hash_info -- a struct sequence with information about the hash algorithm.
hexversion -- version information encoded as a single integer
implementation -- Python implementation information.
int_info -- a struct sequence with information about the int implementation.
maxsize -- the largest supported length of containers.
maxunicode -- the value of the largest Unicode code point
platform -- platform identifier
prefix -- prefix used to find the Python library
thread_info -- a struct sequence with information about the thread implementation.
version -- the version of this interpreter as a string
version_info -- version information as a named tuple
__stdin__ -- the original stdin; don't touch!
__stdout__ -- the original stdout; don't touch!
__stderr__ -- the original stderr; don't touch!
__displayhook__ -- the original displayhook; don't touch!
__excepthook__ -- the original excepthook; don't touch!

Functions:

displayhook() -- print an object to the screen, and save it in builtins._
excepthook() -- print an exception and its traceback to sys.stderr
exc_info() -- return thread-safe information about the current exception
exit() -- exit the interpreter by raising SystemExit
getdlopenflags() -- returns flags to be used for dlopen() calls
getprofile() -- get the global profiling function
getrefcount() -- return the reference count for an object (plus one :-)
getrecursionlimit() -- return the max recursion depth for the interpreter
getsizeof() -- return the size of an object in bytes
gettrace() -- get the global debug tracing function
setcheckinterval() -- control how often the interpreter checks for events
setdlopenflags() -- set the flags to be used for dlopen() calls
setprofile() -- set the global profiling function
setrecursionlimit() -- set the max recursion depth for the interpreter
settrace() -- set the global debug tracing function
";

/// The contents of the `sys` module.
pub struct SysModule {
    pub name: String,
    pub argv: Vec<String>,
    pub path: Vec<String>,
    pub maxsize: usize,
    pub ps1: String,
    pub ps2: String,
    pub doc: String,
    pub functions: Vec<SysFunction>,
    /// The objects whose values the interpreter supplies.
    pub objects: Vec<SysObject>,
    /// The names in `sys.modules`, each bound to its module.
    pub modules: Vec<String>,
}

/// The parent directory that `std::path::Path::parent` gives for a path.
pub uninterp spec fn parent_directory(path: Seq<char>) -> Option<Seq<char>>;

/// Calls `std::path::Path::parent` on `path`, and gives the parent as text.
/// Nothing is stated of which directory that is beyond the name
/// `parent_directory`: std documents it as the path without its final
/// component, or `None` for a path that ends in a root or prefix or is
/// empty, which depends on the platform's separators.
#[verifier::external_body]
fn parent_of(path: &str) -> (r: Option<String>)
    ensures
        match r {
            Some(d) => parent_directory(path@) == Some(d@),
            None => parent_directory(path@) is None,
        },
{
    match std::path::Path::new(path).parent() {
        Some(d) => Some(d.to_string_lossy().into_owned()),
        None => None,
    }
}

/// The directory of the script that the process runs: the parent of the
/// process's second argument (the script's path), if there is one.
pub open spec fn spec_script_dir(process_args: Seq<String>) -> Option<Seq<char>> {
    if process_args.len() >= 2 {
        parent_directory(process_args[1]@)
    } else {
        None
    }
}

/// The directory of the script that the process runs, if known.
pub fn script_dir(process_args: &Vec<String>) -> (r: Option<String>)
    ensures
        match r {
            Some(d) => spec_script_dir(process_args@) == Some(d@),
            None => spec_script_dir(process_args@) is None,
        },
{
    if process_args.len() >= 2 {
        parent_of(process_args[1].as_str())
    } else {
        None
    }
}

/// The directory that heads the module search path: the script's
/// directory, or the empty string when it is not known.
pub open spec fn first_path_entry(script_dir: Option<Seq<char>>) -> Seq<char> {
    match script_dir {
        Some(d) => d,
        None => Seq::empty(),
    }
}

/// What the `sys` module holds, given the process's arguments, the script's
/// directory (if known) and the entries of `PYTHONPATH`.
pub open spec fn sys_module_contents(
    m: SysModule,
    process_args: Seq<String>,
    script_dir: Option<Seq<char>>,
    python_path: Seq<String>,
) -> bool {
    &&& m.name@ == "sys"@
    &&& is_script_argv(process_args, m.argv@)
    &&& m.path@.len() == python_path.len() + 1
    &&& m.path@[0]@ == first_path_entry(script_dir)
    &&& m.path@.drop_first() == python_path
    &&& m.maxsize == usize::MAX
    &&& m.ps1@ == ">>>>> "@
    &&& m.ps2@ == "..... "@
    &&& m.doc@ == SYS_DOC@
    &&& m.functions@ == sys_functions()
    &&& m.objects@ == sys_objects()
    &&& m.modules@.len() == 1
    &&& m.modules@[0]@ == "sys"@
}

/// The `sys` module, given the process's arguments, the script's directory
/// (if known) and the entries of `PYTHONPATH`: `argv` is the arguments
/// without the first, `path` the script's directory (or `''`) followed by
/// the entries, `maxsize` the largest `usize`, the prompts `>>>>> ` and
/// `..... `, the functions and objects that the docstring lists, and
/// `sys.modules` holds `sys` itself.
pub fn build_module(
    process_args: &Vec<String>,
    script_dir: Option<String>,
    python_path: Vec<String>,
) -> (m: SysModule)
    requires
        process_args.len() >= 1,
    ensures
        sys_module_contents(
            m,
            process_args@,
            match script_dir {
                Some(d) => Some(d@),
                None => None::<Seq<char>>,
            },
            python_path@,
        ),
{
    let mut modules: Vec<String> = Vec::new();
    modules.push(String::from_str("sys"));
    let first = match script_dir {
        Some(d) => d,
        None => String::new(),
    };
    let mut path: Vec<String> = Vec::new();
    path.push(first);
    let mut rest = python_path;
    path.append(&mut rest);
    assert(path@.drop_first() =~= python_path@);
    SysModule {
        name: String::from_str("sys"),
        argv: argv(process_args),
        path,
        maxsize: usize::MAX,
        ps1: String::from_str(">>>>> "),
        ps2: String::from_str("..... "),
        doc: String::from_str(SYS_DOC),
        functions: sysfunction_vec(),
        objects: sysobject_vec(),
        modules,
    }
}

/// The `sys` module of a process with the given arguments and `PYTHONPATH`
/// entries; `path` starts with the directory of the script.
pub fn mk_module(process_args: &Vec<String>, python_path: Vec<String>) -> (m: SysModule)
    requires
        process_args.len() >= 1,
    ensures
        sys_module_contents(m, process_args@, spec_script_dir(process_args@), python_path@),
{
    let dir = script_dir(process_args);
    build_module(process_args, dir, python_path)
}

} // verus!
