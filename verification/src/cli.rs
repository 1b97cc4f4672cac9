//! Command-line argument handling that needs no I/O: picking the input
//! file name out of the argument vector.

use vstd::prelude::*;

verus! {

/// Returns the file name given as the single command-line argument, or an
/// error when the argument count is not exactly two (program name plus one
/// file name).
pub fn get_filename(arguments: Vec<String>) -> (r: Result<String, &'static str>)
    ensures
        match r {
            Ok(name) => arguments@.len() == 2 && name@ == arguments@[1]@,
            Err(e) => arguments@.len() != 2 && e@ == "Wrong number of arguments"@,
        },
{
    if arguments.len() != 2 {
        return Err("Wrong number of arguments");
    }
    Ok(arguments[1].clone())
}

} // verus!
