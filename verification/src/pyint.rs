//! Conversions of Python ints (held as `i128`) to machine integers, made
//! through `num_traits::ToPrimitive` as the interpreter makes them.
use num_traits::ToPrimitive;
use vstd::prelude::*;

verus! {

/// Calls `<i128 as num_traits::ToPrimitive>::to_i32`. Its source (the macro
/// `impl_to_primitive_int_to_int` in num-traits' cast.rs) returns
/// `Some(v as i32)` exactly when `i32::MIN <= v <= i32::MAX`, else `None`.
#[verifier::external_body]
pub(crate) fn int_to_i32(v: i128) -> (r: Option<i32>)
    ensures
        r == (if i32::MIN <= v <= i32::MAX {
            Some(v as i32)
        } else {
            None::<i32>
        }),
{
    v.to_i32()
}

/// Calls `<i128 as num_traits::ToPrimitive>::to_usize`. Its source (the macro
/// `impl_to_primitive_int_to_uint` in num-traits' cast.rs) returns
/// `Some(v as usize)` exactly when `0 <= v <= usize::MAX`, else `None`.
#[verifier::external_body]
pub(crate) fn int_to_usize(v: i128) -> (r: Option<usize>)
    ensures
        r == (if 0 <= v <= usize::MAX {
            Some(v as usize)
        } else {
            None::<usize>
        }),
{
    v.to_usize()
}

} // verus!
