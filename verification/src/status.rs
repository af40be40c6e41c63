//! Status codes of platform calls.

use vstd::prelude::*;

verus! {

/// The status code with which a platform call reports success.
pub const ESP_OK: i32 = 0;

/// A platform call that did not succeed, with the status code it returned.
#[derive(Debug, Clone, Copy, PartialEq, Eq, Structural)]
pub struct EspError {
    code: i32,
}

impl EspError {
    /// The status code that the failed call returned.
    pub closed spec fn spec_code(&self) -> i32 {
        self.code
    }

    /// What holds of every value of this type: its code is not [`ESP_OK`].
    #[verifier::type_invariant]
    pub open spec fn is_failure(&self) -> bool {
        self.code() != ESP_OK
    }

    /// The status code that the failed call returned; never [`ESP_OK`].
    #[verifier::when_used_as_spec(spec_code)]
    pub fn code(&self) -> (code: i32)
        ensures
            code == self.code(),
            code != ESP_OK,
    {
        proof {
            use_type_invariant(self);
        }
        self.code
    }

    /// Tells success from failure by the status code of a platform call.
    pub fn check(status: i32) -> (outcome: Result<(), EspError>)
        ensures
            outcome is Ok <==> status == ESP_OK,
            outcome matches Err(e) ==> e.code() == status,
    {
        if status == ESP_OK {
            Ok(())
        } else {
            Err(EspError { code: status })
        }
    }
}

} // verus!
