//! Shape checks of simple-structure rotation.

use vstd::prelude::*;

use crate::error::ArgError;

verus! {

/// A weight matrix to rotate needs at least one column.
pub fn check_rotate_k(k: usize) -> (r: Result<(), ArgError>)
    ensures
        r == (if k == 0 {
            Err(ArgError::RotationNoComponents)
        } else {
            Ok(())
        }),
{
    if k == 0 {
        return Err(ArgError::RotationNoComponents);
    }
    Ok(())
}

/// A loading basis must have as many columns as the weights it rotates.
pub fn check_loading_width(l_cols: usize, k: usize) -> (r: Result<(), ArgError>)
    ensures
        r == (if l_cols != k {
            Err(ArgError::LoadingWidthMismatch { l_cols, k })
        } else {
            Ok(())
        }),
{
    if l_cols != k {
        return Err(ArgError::LoadingWidthMismatch { l_cols, k });
    }
    Ok(())
}

} // verus!
