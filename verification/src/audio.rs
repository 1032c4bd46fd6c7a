//! Choosing the capture device. The sound server and the sample
//! conversion stay with the caller.
use crate::text::{concat3, contains, has_infix, owned};
use vstd::prelude::*;

verus! {

/// The capture rate every recognizer is fed: 16 kHz mono.
pub const RATE: u32 = 16_000;

/// Position of the first device, from `i` on, whose name is known and
/// contains `hint`.
pub open spec fn first_matching(names: Seq<Option<Seq<char>>>, hint: Seq<char>, i: int) -> Option<int>
    decreases names.len() - i,
{
    if i < 0 || i >= names.len() {
        None
    } else if names[i] matches Some(n) && has_infix(n, hint) {
        Some(i)
    } else {
        first_matching(names, hint, i + 1)
    }
}

pub open spec fn names_view(names: Seq<Option<String>>) -> Seq<Option<Seq<char>>> {
    names.map_values(|n: Option<String>| match n {
        Some(s) => Some(s@),
        None => None,
    })
}

/// The input device to open, given the names of the devices in the
/// order the sound server lists them (`None`: the name could not be
/// read) and the configured hint: the first whose name contains the
/// hint, or the reason there is none.
pub fn pick_device(names: &Vec<Option<String>>, hint: &str) -> (r: Result<usize, String>)
    ensures
        match first_matching(names_view(names@), hint@, 0) {
            Some(k) => r == Ok::<usize, String>(k as usize),
            None => r matches Err(m) && m@ == "no input device matching `"@ + hint@ + "`"@,
        },
{
    let ghost nv = names_view(names@);
    let mut i: usize = 0;
    while i < names.len()
        invariant
            i <= names.len(),
            nv == names_view(names@),
            nv.len() == names.len(),
            first_matching(nv, hint@, 0) == first_matching(nv, hint@, i as int),
        decreases names.len() - i,
    {
        match &names[i] {
            Some(n) => {
                if contains(n.as_str(), hint) {
                    return Ok(i);
                }
            },
            None => {},
        }
        i = i + 1;
    }
    Err(concat3("no input device matching `", hint, "`"))
}

/// Reported when the configured hint is empty and there is no default
/// input device.
pub fn no_default_device() -> (r: String)
    ensures
        r@ == "no default input device"@,
{
    owned("no default input device")
}

} // verus!
