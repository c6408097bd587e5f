//! Shape check of PLS1 prediction.

use vstd::prelude::*;

use crate::error::ArgError;

verus! {

/// New data must have as many columns as the model has coefficients.
pub fn check_predict_width(n_new: usize, n_cols: usize, n_model_features: usize) -> (r: Result<
    (),
    ArgError,
>)
    ensures
        r == (if n_cols != n_model_features {
            Err(ArgError::DimensionMismatch { x: (n_new, n_cols), y: n_model_features })
        } else {
            Ok(())
        }),
{
    if n_cols != n_model_features {
        return Err(ArgError::DimensionMismatch { x: (n_new, n_cols), y: n_model_features });
    }
    Ok(())
}

} // verus!
