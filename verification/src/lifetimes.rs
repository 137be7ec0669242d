use vstd::prelude::*;

verus! {

/// Returns the longer of `x` and `y`, measured by `len`, the length
/// in bytes of the UTF-8 encoding; on a tie, `y`.
pub fn longest<'a>(x: &'a str, y: &'a str) -> (r: &'a str)
    ensures
        r == if x.len() > y.len() {
            x
        } else {
            y
        },
{
    if x.len() > y.len() {
        x
    } else {
        y
    }
}

} // verus!
