//! Versions of the documents that rows hold.

use crate::datum::outcome;
use crate::records::{StoreError, StoreErrorView};
use vstd::prelude::*;

verus! {

/// The version of every document that is written.
pub const DATA_VERSION: u32 = 1;

/// Whether a document of this version can be read.
pub fn check_version(version: u32) -> (r: Result<(), StoreError>)
    ensures
        outcome(r) == if version == DATA_VERSION {
            Ok::<(), StoreErrorView>(())
        } else {
            Err(StoreErrorView::UnsupportedDataVersion(version))
        },
{
    if version != DATA_VERSION {
        return Err(StoreError::UnsupportedDataVersion(version));
    }
    Ok(())
}

} // verus!
