//! Python-level values handed to the module functions, and the checks
//! that every builtin performs on its positional arguments before it
//! does any work.
use vstd::prelude::*;

verus! {

/// A Python value as the socket and sys builtins see their arguments.
/// Python ints are held as `i128`.
pub enum PyValue {
    NoneValue,
    Int(i128),
    Str(String),
    Bytes(Vec<u8>),
    Tuple(Vec<PyValue>),
    /// A list and its items.
    List(Vec<PyValue>),
    /// A dict and its entries, as (key, value) pairs.
    Dict(Vec<(PyValue, PyValue)>),
    /// Any other object (a class, a function, ...), which holds no storage
    /// beyond its own record: accepted where an argument has no type
    /// requirement.
    Object,
}

/// The builtin types that an argument can be required to be an instance of.
#[derive(Clone, Copy, Debug, PartialEq, Eq, Structural)]
pub enum PyType {
    Int,
    Str,
    Bytes,
    Tuple,
}

/// The exceptions that the builtins raise.
pub enum PyError {
    /// `TypeError`: the call has a number of arguments outside `min..=max`.
    /// The counts include the receiver of a method.
    ArgumentCount { min: usize, max: usize, got: usize },
    /// `TypeError`: the argument at 1-based `position` is not an instance of
    /// `expected`.
    ArgumentType { position: usize, expected: PyType },
    /// `TypeError` with a message.
    TypeError(String),
    /// `ValueError` with a message.
    ValueError(String),
}

/// Is `v` an instance of `t`?
pub open spec fn has_type(v: PyValue, t: PyType) -> bool {
    match t {
        PyType::Int => v is Int,
        PyType::Str => v is Str,
        PyType::Bytes => v is Bytes,
        PyType::Tuple => v is Tuple,
    }
}

/// The type that the argument at 0-based index `i` of the explicit
/// arguments must have (`None`: any type).
pub open spec fn expected_type(
    required: Seq<Option<PyType>>,
    optional: Seq<PyType>,
    i: int,
) -> Option<PyType> {
    if i < required.len() {
        required[i]
    } else {
        Some(optional[i - required.len()])
    }
}

/// The first index at or after `i` whose argument has the wrong type.
pub open spec fn first_mismatch(
    args: Seq<PyValue>,
    required: Seq<Option<PyType>>,
    optional: Seq<PyType>,
    i: nat,
) -> Option<nat>
    decreases args.len() - i,
{
    if i >= args.len() {
        None
    } else if expected_type(required, optional, i as int) matches Some(t) && !has_type(
        args[i as int],
        t,
    ) {
        Some(i)
    } else {
        first_mismatch(args, required, optional, i + 1)
    }
}

/// The error that a builtin with `implicit` leading receiver arguments (of
/// any type, not part of `args`), the `required` explicit parameters and the
/// `optional` trailing parameters raises on the explicit arguments `args`,
/// or `None` when the arguments are accepted: first the count, then each
/// argument's type from left to right.
pub open spec fn arg_check(
    args: Seq<PyValue>,
    implicit: nat,
    required: Seq<Option<PyType>>,
    optional: Seq<PyType>,
) -> Option<PyError> {
    let min = implicit + required.len();
    let max = min + optional.len();
    let got = implicit + args.len();
    if got < min || got > max {
        Some(
            PyError::ArgumentCount {
                min: min as usize,
                max: max as usize,
                got: if got <= usize::MAX {
                    got as usize
                } else {
                    usize::MAX
                },
            },
        )
    } else {
        match first_mismatch(args, required, optional, 0) {
            Some(i) => Some(
                PyError::ArgumentType {
                    position: (implicit + i + 1) as usize,
                    expected: expected_type(required, optional, i as int)->0,
                },
            ),
            None => None,
        }
    }
}

proof fn lemma_no_mismatch_from(
    args: Seq<PyValue>,
    required: Seq<Option<PyType>>,
    optional: Seq<PyType>,
    j: nat,
    i: nat,
)
    requires
        first_mismatch(args, required, optional, j) is None,
        j <= i < args.len(),
    ensures
        expected_type(required, optional, i as int) matches Some(t) ==> has_type(args[i as int], t),
    decreases i - j,
{
    if j < i {
        lemma_no_mismatch_from(args, required, optional, j + 1, i);
    }
}

/// Arguments that pass the checks are as many as the parameters allow, and
/// each is an instance of the type its parameter requires.
pub proof fn lemma_checked_args(
    args: Seq<PyValue>,
    implicit: nat,
    required: Seq<Option<PyType>>,
    optional: Seq<PyType>,
)
    requires
        arg_check(args, implicit, required, optional) is None,
    ensures
        required.len() <= args.len() <= required.len() + optional.len(),
        forall|i: int|
            0 <= i < args.len() ==> (#[trigger] expected_type(required, optional, i) matches Some(
                t,
            ) ==> has_type(args[i], t)),
{
    assert forall|i: int| 0 <= i < args.len() implies (#[trigger] expected_type(
        required,
        optional,
        i,
    ) matches Some(t) ==> has_type(args[i], t)) by {
        lemma_no_mismatch_from(args, required, optional, 0, i as nat);
    }
}

/// Whether `v` is an instance of `t`.
pub fn is_instance(v: &PyValue, t: PyType) -> (r: bool)
    ensures
        r == has_type(*v, t),
{
    match t {
        PyType::Int => matches!(v, PyValue::Int(_)),
        PyType::Str => matches!(v, PyValue::Str(_)),
        PyType::Bytes => matches!(v, PyValue::Bytes(_)),
        PyType::Tuple => matches!(v, PyValue::Tuple(_)),
    }
}

/// Checks the explicit arguments `args` of a builtin: their number, then the
/// type of each. `implicit` counts the receiver arguments that precede them.
pub fn check_args(
    args: &Vec<PyValue>,
    implicit: usize,
    required: &Vec<Option<PyType>>,
    optional: &Vec<PyType>,
) -> (r: Option<PyError>)
    requires
        implicit + required.len() + optional.len() <= usize::MAX,
    ensures
        r == arg_check(args@, implicit as nat, required@, optional@),
{
    let min = implicit + required.len();
    let max = min + optional.len();
    let got = implicit.saturating_add(args.len());
    if args.len() < required.len() || args.len() > required.len() + optional.len() {
        return Some(PyError::ArgumentCount { min, max, got });
    }
    let mut i: usize = 0;
    while i < args.len()
        invariant
            0 <= i <= args.len(),
            required.len() <= args.len() <= required.len() + optional.len(),
            implicit + required.len() + optional.len() <= usize::MAX,
            first_mismatch(args@, required@, optional@, 0) == first_mismatch(
                args@,
                required@,
                optional@,
                i as nat,
            ),
        decreases args.len() - i,
    {
        let expected: Option<PyType> = if i < required.len() {
            required[i]
        } else {
            Some(optional[i - required.len()])
        };
        match expected {
            Some(t) => {
                if !is_instance(&args[i], t) {
                    assert(expected_type(required@, optional@, i as int) == Some(t));
                    assert(first_mismatch(args@, required@, optional@, i as nat) == Some(i as nat));
                    return Some(PyError::ArgumentType { position: implicit + i + 1, expected: t });
                }
            },
            None => {},
        }
        assert(first_mismatch(args@, required@, optional@, i as nat) == first_mismatch(
            args@,
            required@,
            optional@,
            (i + 1) as nat,
        ));
        i = i + 1;
    }
    None
}

} // verus!
