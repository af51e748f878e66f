//! Request body shapes.

use vstd::prelude::*;

verus! {

/// The JSON body of a delete request: which object of which bucket to
/// remove.
pub struct DeleteObject {
    pub object: String,
    pub bucket: String,
}

} // verus!
