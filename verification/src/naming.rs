//! How themed images are named.

use vstd::prelude::*;
use vstd::string::StringExecFns;

verus! {

/// The file stem under which a themed image is saved when no name is given:
/// the stem of the input file followed by `-themed`.
pub fn themed_stem(stem: &str) -> (name: String)
    ensures
        name@ == stem@ + "-themed"@,
{
    stem.to_owned().concat("-themed")
}

} // verus!
