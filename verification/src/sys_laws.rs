//! What holds of the `sys` module's functions and contents, in terms of
//! their inputs.
use crate::args::{first_mismatch, PyError, PyValue};
use crate::sysmodule::{
    getframe_outcome, object_size, is_script_argv, parent_directory, spec_script_dir, sys_module_contents,
    SysModule,
};
use vstd::layout::size_of;
use vstd::prelude::*;

verus! {

/// `_getframe(d)` on a stack of `frame_count` frames, for every depth `d`
/// from 0 to `frame_count - 1`, is the frame `d` calls below the innermost:
/// the one at index `frame_count - 1 - d` from the outermost. Depth 0 is the
/// innermost frame.
pub proof fn lemma_getframe_depth(frame_count: usize, d: i128, r: Result<usize, PyError>)
    requires
        0 <= d < frame_count,
        getframe_outcome(frame_count, seq![PyValue::Int(d)], r),
    ensures
        r matches Ok(i) && i + d == frame_count - 1,
{
    reveal_with_fuel(first_mismatch, 3);
}

/// `_getframe()` without a depth is the innermost frame.
pub proof fn lemma_getframe_innermost(frame_count: usize, r: Result<usize, PyError>)
    requires
        frame_count >= 1,
        getframe_outcome(frame_count, seq![], r),
    ensures
        r == Ok::<usize, PyError>((frame_count - 1) as usize),
{
}

/// `_getframe(d)` with a depth `d` at least the number of frames (and
/// within `usize`) raises a `ValueError`.
pub proof fn lemma_getframe_too_deep(frame_count: usize, d: i128, r: Result<usize, PyError>)
    requires
        frame_count <= d <= usize::MAX,
        frame_count >= 1,
        getframe_outcome(frame_count, seq![PyValue::Int(d)], r),
    ensures
        r matches Err(PyError::ValueError(_)),
{
    reveal_with_fuel(first_mismatch, 3);
}

/// The script's arguments are all the process's arguments after the first,
/// in order: one fewer, and the `i`-th is the process's `i + 1`-th.
pub proof fn lemma_script_argv(process_args: Seq<String>, argv: Seq<String>)
    requires
        process_args.len() >= 1,
        is_script_argv(process_args, argv),
    ensures
        argv.len() == process_args.len() - 1,
        forall|i: int| 0 <= i < argv.len() ==> argv[i] == process_args[i + 1],
{
}

/// In the `sys` module of a process, `argv` holds every argument after the
/// interpreter, in order, and `path` is the directory of the script (the
/// process's second argument, whatever follows it), or `''` when there is
/// no script or it has no parent directory, then the `PYTHONPATH` entries
/// in order.
pub proof fn lemma_sys_module_of_process(
    m: SysModule,
    process_args: Seq<String>,
    python_path: Seq<String>,
)
    requires
        process_args.len() >= 1,
        sys_module_contents(m, process_args, spec_script_dir(process_args), python_path),
    ensures
        m.argv@.len() == process_args.len() - 1,
        forall|i: int| 0 <= i < m.argv@.len() ==> m.argv@[i] == process_args[i + 1],
        m.path@.len() == python_path.len() + 1,
        process_args.len() >= 2 ==> match parent_directory(process_args[1]@) {
            Some(d) => m.path@[0]@ == d,
            None => m.path@[0]@ == Seq::<char>::empty(),
        },
        process_args.len() == 1 ==> m.path@[0]@ == Seq::<char>::empty(),
        forall|i: int| 0 <= i < python_path.len() ==> m.path@[i + 1] == python_path[i],
{
    assert forall|i: int| 0 <= i < python_path.len() implies m.path@[i + 1] == python_path[i] by {
        assert(m.path@.drop_first()[i] == m.path@[i + 1]);
    }
}

/// `getsizeof` of two lists (or two tuples) differ by one reference, the
/// size of a `usize`, per item; of two dicts by two references per entry;
/// of two bytes objects by one byte per byte. Every object is at least as
/// large as one that holds nothing.
pub proof fn lemma_size_per_item(a: PyValue, b: PyValue)
    ensures
        (a is List && b is List) ==> object_size(b) - object_size(a) == (b->List_0@.len()
            - a->List_0@.len()) * size_of::<usize>(),
        (a is Tuple && b is Tuple) ==> object_size(b) - object_size(a) == (b->Tuple_0@.len()
            - a->Tuple_0@.len()) * size_of::<usize>(),
        (a is Dict && b is Dict) ==> object_size(b) - object_size(a) == (b->Dict_0@.len()
            - a->Dict_0@.len()) * 2 * size_of::<usize>(),
        (a is Bytes && b is Bytes) ==> object_size(b) - object_size(a) == b->Bytes_0@.len()
            - a->Bytes_0@.len(),
        object_size(a) >= object_size(PyValue::NoneValue),
        object_size(PyValue::NoneValue) == object_size(PyValue::Object),
{
    let r = size_of::<usize>();
    let la = a->List_0@.len();
    let lb = b->List_0@.len();
    assert(lb * r - la * r == (lb - la) * r) by (nonlinear_arith);
    let ta = a->Tuple_0@.len();
    let tb = b->Tuple_0@.len();
    assert(tb * r - ta * r == (tb - ta) * r) by (nonlinear_arith);
    let da = a->Dict_0@.len();
    let db = b->Dict_0@.len();
    assert(db * (2 * r) - da * (2 * r) == (db - da) * 2 * r) by (nonlinear_arith);
}

/// The script's directory depends on the script alone: the arguments that
/// follow it do not change it.
pub proof fn lemma_script_dir_ignores_script_arguments(
    process_args: Seq<String>,
    more: Seq<String>,
)
    requires
        process_args.len() >= 2,
    ensures
        spec_script_dir(process_args + more) == spec_script_dir(process_args),
        spec_script_dir(process_args) == parent_directory(process_args[1]@),
{
    assert((process_args + more)[1] == process_args[1]);
}

} // verus!
