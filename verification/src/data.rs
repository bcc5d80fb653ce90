//! The listing of remote source files, as the robot controller reports it.
use vstd::prelude::*;

verus! {

/// The remote source files, by their paths under the source root.
pub struct Files {
    pub src: Vec<String>,
}

} // verus!
