//! Choice of a device memory type for an allocation.
use vstd::prelude::*;

verus! {

/// Memory type `i`, whose property flags are `flags[i]`, is allowed by the
/// bit mask `filter` and has every property in `props`.
pub open spec fn memory_type_fits(flags: Seq<u32>, filter: u32, props: u32, i: int) -> bool {
    &&& filter & (1u32 << (i as u32)) != 0
    &&& flags[i] & props == props
}

/// The first memory type that `filter` allows and that has every property in
/// `props`. `memory_types` holds the property flags of each type the device
/// offers, at most 32 of them.
pub fn find_memory_type(memory_types: &[u32], filter: u32, props: u32) -> (r: Option<u32>)
    requires
        memory_types@.len() <= 32,
    ensures
        match r {
            Some(i) => {
                &&& i < memory_types@.len()
                &&& memory_type_fits(memory_types@, filter, props, i as int)
                &&& forall|j: int|
                    0 <= j < i ==> !#[trigger] memory_type_fits(memory_types@, filter, props, j)
            },
            None => forall|j: int|
                0 <= j < memory_types@.len() ==> !#[trigger] memory_type_fits(
                    memory_types@,
                    filter,
                    props,
                    j,
                ),
        },
{
    let n = memory_types.len();
    let mut i: usize = 0;
    while i < n
        invariant
            i <= n,
            n == memory_types@.len(),
            n <= 32,
            forall|j: int| 0 <= j < i ==> !#[trigger] memory_type_fits(memory_types@, filter, props, j),
        decreases n - i,
    {
        let bit: u32 = 1u32 << (i as u32);
        if filter & bit != 0 && memory_types[i] & props == props {
            return Some(i as u32);
        }
        i = i + 1;
    }
    None
}

} // verus!
