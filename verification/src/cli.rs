//! Classification of command-line arguments.

use vstd::prelude::*;
use vstd::string::StrSliceExecFns;

verus! {

/// True exactly when the argument begins with `-`, i.e. it is an option
/// rather than a positional argument such as a set name.
pub fn is_option(arg: &str) -> (r: bool)
    ensures
        r == (arg@.len() > 0 && arg@[0] == '-'),
{
    if arg.unicode_len() == 0 {
        false
    } else {
        arg.get_char(0) == '-'
    }
}

} // verus!
