//! The invocation gate: only one exact argument shape is handled here — the
//! request to list loop devices with the name and backing-file columns. Every
//! other invocation is the caller's cue to delegate verbatim to the original
//! implementation.

use vstd::prelude::*;

use crate::bytes::ascii_bytes;
use crate::bytes::bytes_eq;
use crate::bytes::bytes_of;

verus! {

/// The recognized argument list (after the program name): exactly the three
/// tokens `-l -O NAME,BACK-FILE`.
pub open spec fn recognized_invocation(args: Seq<Vec<u8>>) -> bool {
    &&& args.len() == 3
    &&& args[0]@ == bytes_of("-l")
    &&& args[1]@ == bytes_of("-O")
    &&& args[2]@ == bytes_of("NAME,BACK-FILE")
}

/// Decides whether the argument list (after the program name) is exactly the
/// recognized listing request. Anything else — other tokens, another count,
/// no arguments — is to be delegated unchanged.
pub fn is_list_invocation(args: &Vec<Vec<u8>>) -> (r: bool)
    ensures
        r == recognized_invocation(args@),
{
    if args.len() != 3 {
        return false;
    }
    proof {
        reveal_strlit("-l");
        reveal_strlit("-O");
        reveal_strlit("NAME,BACK-FILE");
    }
    let flag_l = ascii_bytes("-l");
    let flag_o = ascii_bytes("-O");
    let columns = ascii_bytes("NAME,BACK-FILE");
    bytes_eq(&args[0], &flag_l) && bytes_eq(&args[1], &flag_o) && bytes_eq(&args[2], &columns)
}

} // verus!
