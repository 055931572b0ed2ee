//! The command line of the line comparison: the program's name and two paths.

use vstd::prelude::*;

verus! {

/// The two paths that the command line names. The command line must hold
/// exactly three arguments, of which the first is the program's name.
pub fn parse_args(args: &Vec<String>) -> (parsed: Result<(String, String), &'static str>)
    ensures
        args@.len() != 3 ==> (parsed matches Err(msg) && msg@ == "expected exactly 3 arguments"@),
        args@.len() == 3 ==> (parsed matches Ok(paths) && paths.0@ == args@[1]@ && paths.1@
            == args@[2]@),
{
    if args.len() != 3 {
        return Err("expected exactly 3 arguments");
    }
    Ok((args[1].clone(), args[2].clone()))
}

} // verus!
