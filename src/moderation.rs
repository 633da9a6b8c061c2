use vstd::prelude::*;

verus! {

/// How many recent messages a purge of `number` messages fetches: one more
/// when it was invoked by a prefix command, whose own message goes too.
pub fn purge_fetch_limit(number: u8, slash_invoked: bool) -> (r: u8)
    requires
        slash_invoked || number < u8::MAX,
    ensures
        r == (if slash_invoked {
            number as int
        } else {
            number + 1
        }),
{
    if slash_invoked {
        number
    } else {
        number + 1
    }
}

} // verus!
