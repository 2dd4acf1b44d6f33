//! Summary statistics over measured samples.
use vstd::prelude::*;

verus! {

/// The index of the median of `len` sorted samples: the middle one, or the
/// lower of the two middle ones.
pub open spec fn median_index(len: int) -> int {
    if len % 2 == 1 {
        len / 2
    } else {
        len / 2 - 1
    }
}

/// The median of `sorted_data`, which is sorted: the middle element, the
/// lower of the two middle elements for an even count, and `default` for no
/// elements.
pub fn median<T: Clone>(sorted_data: &[T], default: T) -> (r: T)
    ensures
        sorted_data@.len() == 0 ==> r == default,
        sorted_data@.len() > 0 ==> cloned(sorted_data@[median_index(sorted_data@.len() as int)], r),
{
    let len = sorted_data.len();
    if len == 0 {
        default
    } else if len % 2 == 1 {
        sorted_data[len / 2].clone()
    } else {
        sorted_data[len / 2 - 1].clone()
    }
}

} // verus!
