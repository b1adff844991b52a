//! Validation for team lookup requests.

use vstd::prelude::*;
use crate::Error;

verus! {

/// Checks that a request carries a non-empty team identifier.
///
/// Returns `Ok(())` exactly when an identifier is present and non-empty;
/// otherwise the request is rejected with a parameter error.
pub fn validate(id: Option<&str>) -> (r: Result<(), Error>)
    ensures
        r is Ok <==> (id matches Some(s) && s@.len() > 0),
        r matches Err(e) ==> (e matches Error::Parameter(m) && m@ == "teamId is required"@),
{
    match id {
        None => Err(Error::Parameter("teamId is required".to_owned())),
        Some(s) => {
            if s.is_empty() {
                Err(Error::Parameter("teamId is required".to_owned()))
            } else {
                Ok(())
            }
        },
    }
}

} // verus!
