use vstd::prelude::*;

verus! {

/// The identifier of the next hot key: one more than the last one handed
/// out (the first hot key gets 1).
pub fn next_hot_key_id(previous: i32) -> (id: i32)
    requires
        previous < i32::MAX,
    ensures
        id == previous + 1,
{
    previous + 1
}

} // verus!
