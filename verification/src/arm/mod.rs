//! The ARM7TDMI processor.
use vstd::prelude::*;

pub mod alu;
pub mod interpreter;

verus! {

/// An array of `N` default values with `val` at index `i`.
pub fn arr_with<const N: usize, T: Copy + Default>(i: usize, val: T) -> (arr: [T; N])
    requires
        i < N,
    ensures
        arr[i as int] == val,
        forall|j: int| 0 <= j < N && j != i ==> call_ensures(T::default, (), #[trigger] arr[j]),
{
    let filler = T::default();
    let mut arr = [filler; N];
    arr[i] = val;
    arr
}

} // verus!
