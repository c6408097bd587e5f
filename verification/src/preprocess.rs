//! Row-count agreement of the optional inputs to the preprocess helper.

use vstd::prelude::*;

use crate::error::ArgError;

verus! {

/// The preprocess helper takes `X`, `y` and weights, each optional; those
/// given must agree on the row count. Checked in order: `X` against `y`,
/// `X` against the weights, `y` against the weights.
pub fn check_preprocess_rows(
    x_rows: Option<usize>,
    y_rows: Option<usize>,
    w_rows: Option<usize>,
) -> (r: Result<(), ArgError>)
    ensures
        r == (if x_rows is Some && y_rows is Some && x_rows->0 != y_rows->0 {
            Err(ArgError::DimensionMismatch { x: (x_rows->0, 0), y: y_rows->0 })
        } else if x_rows is Some && w_rows is Some && x_rows->0 != w_rows->0 {
            Err(ArgError::DimensionMismatch { x: (x_rows->0, 0), y: w_rows->0 })
        } else if y_rows is Some && w_rows is Some && y_rows->0 != w_rows->0 {
            Err(ArgError::DimensionMismatch { x: (w_rows->0, 0), y: y_rows->0 })
        } else {
            Ok(())
        }),
        r is Ok <==> (forall|a: usize, b: usize|
            #![auto]
            (x_rows == Some(a) || y_rows == Some(a) || w_rows == Some(a)) && (x_rows == Some(b)
                || y_rows == Some(b) || w_rows == Some(b)) ==> a == b),
{
    if let (Some(nx), Some(ny)) = (x_rows, y_rows) {
        if nx != ny {
            return Err(ArgError::DimensionMismatch { x: (nx, 0), y: ny });
        }
    }
    if let Some(nw) = w_rows {
        if let Some(nx) = x_rows {
            if nx != nw {
                return Err(ArgError::DimensionMismatch { x: (nx, 0), y: nw });
            }
        }
        if let Some(ny) = y_rows {
            if ny != nw {
                return Err(ArgError::DimensionMismatch { x: (nw, 0), y: ny });
            }
        }
    }
    Ok(())
}

} // verus!
