//! Library loader support.
//!
//! Mapping the real library and looking up symbol addresses are operating
//! system calls made by the surrounding program; the orchestrator takes
//! their results as plain values and treats a failed lookup as fatal. What
//! is verifiable of the loader lives here: resolving the system library
//! directory — required because the shim artifact is usually installed
//! under the target's own name on the normal search path, so a default
//! search would load the shim itself recursively — and the path joining
//! that resolution uses.
use vstd::prelude::*;

verus! {

/// The platform's canonical system library directory. On this platform
/// there is none: the caller gets nothing and must treat the target as
/// unresolvable from a system directory rather than fall back to the
/// default search order.
pub fn system_dir() -> (r: Option<String>)
    ensures
        r is None,
{
    None
}

/// The path separator the target platform's loader uses.
pub const PATH_SEPARATOR: u8 = 0x5c;

/// The target's path inside the system directory: the directory, the
/// separator, then the library's file name.
pub fn join_system_path(dir: &Vec<u8>, name: &Vec<u8>) -> (r: Vec<u8>)
    ensures
        r@ == dir@ + seq![PATH_SEPARATOR] + name@,
{
    let mut r = crate::bytes::copy_bytes(dir);
    r.push(PATH_SEPARATOR);
    let n = name.len();
    let mut i: usize = 0;
    assert(r@ =~= dir@ + seq![PATH_SEPARATOR] + name@.subrange(0, 0));
    while i < n
        invariant
            i <= n,
            n == name@.len(),
            r@ == dir@ + seq![PATH_SEPARATOR] + name@.subrange(0, i as int),
        decreases n - i,
    {
        r.push(name[i]);
        assert(r@ =~= dir@ + seq![PATH_SEPARATOR] + name@.subrange(0, i as int + 1));
        i = i + 1;
    }
    proof {
        assert(dir@ + seq![PATH_SEPARATOR] + name@.subrange(0, n as int) =~= dir@ + seq![
            PATH_SEPARATOR,
        ] + name@);
    }
    r
}

} // verus!
