//! Argument checks for the `pipy_main` entry point.
//!
//! The shell loads a native shared library at runtime and calls its
//! C-style entry point `pipy_main(argc, argv)` on a background thread.
//! Each argument crosses that boundary as a C string, which exists only
//! for text free of NUL characters, and `argc` must count exactly the
//! arguments given. The checks are made here; the loading and the call
//! stay with the code around the library.

use vstd::prelude::*;

use vstd::string::StrSliceExecFns;

verus! {

/// Text a C string can carry: no NUL character in it.
pub open spec fn spec_c_safe(s: Seq<char>) -> bool {
    forall|i: int| 0 <= i < s.len() ==> s[i] != '\0'
}

/// Every argument can be handed over as a C string.
pub open spec fn spec_args_c_safe(args: Seq<Seq<char>>) -> bool {
    forall|i: int| 0 <= i < args.len() ==> spec_c_safe(#[trigger] args[i])
}

/// Whether the text can be handed over as a C string.
pub fn str_c_safe(s: &str) -> (r: bool)
    ensures
        r == spec_c_safe(s@),
{
    let n = s.unicode_len();
    let mut i: usize = 0;
    while i < n
        invariant
            n == s@.len(),
            i <= n,
            forall|j: int| 0 <= j < i ==> s@[j] != '\0',
        decreases n - i,
    {
        if s.get_char(i) == '\0' {
            return false;
        }
        i += 1;
    }
    true
}

/// Whether the whole argument list can be handed to `pipy_main`.
pub fn pipy_args_valid(args: &Vec<String>) -> (r: bool)
    ensures
        r == spec_args_c_safe(args.deep_view()),
{
    let n = args.len();
    let mut i: usize = 0;
    while i < n
        invariant
            n == args@.len(),
            i <= n,
            forall|j: int| 0 <= j < i ==> spec_c_safe(#[trigger] args.deep_view()[j]),
        decreases n - i,
    {
        if !str_c_safe(args[i].as_str()) {
            proof {
                assert(args.deep_view()[i as int] == args@[i as int]@);
            }
            return false;
        }
        i += 1;
    }
    true
}

/// Whether `argc` counts the arguments and each can cross into C: the
/// condition under which the shell makes the call.
pub fn pipy_invocation_ok(args: &Vec<String>, argc: i32) -> (r: bool)
    ensures
        r == (argc >= 0 && argc as int == args@.len() && spec_args_c_safe(args.deep_view())),
{
    if argc < 0 {
        return false;
    }
    if (argc as usize) != args.len() {
        return false;
    }
    pipy_args_valid(args)
}

} // verus!
