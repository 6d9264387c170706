//! Random passwords from the secret store.
use vstd::prelude::*;
use crate::error::{RotatorError, RotatorErrorView, RotatorResult};
use crate::exchange::{Fault, FaultKind, FaultView, string_view};
use crate::text::owned;

verus! {

/// The characters that a random password must not hold.
pub const EXCLUDED_CHARACTERS: &'static str = "/@\"'\\";

/// What the answer to a request for a random password amounts to.
pub open spec fn drawn(reply: Result<Option<Seq<char>>, FaultView>) -> Result<
    Seq<char>,
    RotatorErrorView,
> {
    match reply {
        Ok(Some(password)) => Ok(password),
        Ok(None) => Err(RotatorErrorView::GetRandomPassword("missing password in response"@)),
        Err(fault) => Err(
            match fault.kind {
                FaultKind::InvalidParameter => RotatorErrorView::InvalidPasswordParameter {
                    message: fault.message,
                },
                _ => RotatorErrorView::GetRandomPassword(fault.debug),
            },
        ),
    }
}

/// Reads the store's answer to a request for a random password. An answer
/// without a password is a [`RotatorError::GetRandomPassword`]; so is every
/// refusal but that of a parameter, which is a
/// [`RotatorError::InvalidPasswordParameter`].
pub fn get_random_password(reply: Result<Option<String>, Fault>) -> (r: RotatorResult<String>)
    ensures
        match r {
            Ok(password) => drawn(string_view(reply)) == Ok::<Seq<char>, RotatorErrorView>(
                password@,
            ),
            Err(e) => drawn(string_view(reply)) == Err::<Seq<char>, RotatorErrorView>(e@),
        },
{
    match reply {
        Ok(Some(password)) => Ok(password),
        Ok(None) => Err(RotatorError::GetRandomPassword(owned("missing password in response"))),
        Err(fault) => match fault.kind {
            FaultKind::InvalidParameter => Err(
                RotatorError::InvalidPasswordParameter { message: fault.message },
            ),
            _ => Err(RotatorError::GetRandomPassword(fault.debug)),
        },
    }
}

} // verus!
