//! The capability interface to the platform input-injection facility.
//!
//! Everything here is a trusted declaration over the `enigo` crate: the
//! handle type, its two error types, and the two operations the library
//! performs through it. Whether a connection can be established, and whether
//! an injection goes through, depend on the machine the code runs on (an
//! accessible display or input subsystem), so the contracts promise nothing
//! of either outcome; the verified code in `inject` states what holds
//! whatever came back.

use vstd::prelude::*;

verus! {

/// `enigo::Enigo`: the platform input-injection handle. Opaque here: it is
/// acquired, used to submit text, and released when dropped.
#[verifier::external_type_specification]
#[verifier::external_body]
pub struct ExEnigo(enigo::Enigo);

/// `enigo::NewConError`: reported when no connection to an input subsystem
/// could be established.
#[verifier::external_type_specification]
#[verifier::external_body]
pub struct ExNewConError(enigo::NewConError);

/// `enigo::InputError`: reported when simulating input over an established
/// connection fails.
#[verifier::external_type_specification]
#[verifier::external_body]
pub struct ExInputError(enigo::InputError);

/// Relies on `enigo::Enigo::new`, called with `enigo::Settings::default()`:
/// it connects to the platform input subsystem and returns a handle, or the
/// error that says why no connection could be established. Success depends on
/// the machine, so nothing is promised of the outcome.
#[verifier::external_body]
pub(crate) fn acquire_handle() -> Result<enigo::Enigo, enigo::NewConError> {
    enigo::Enigo::new(&enigo::Settings::default())
}

/// Relies on `enigo::Keyboard::text`: it submits the characters of `text`,
/// in order, as synthetic keystrokes over the handle's connection. The
/// platform decides whether the injection goes through, so nothing is
/// promised of the outcome.
#[verifier::external_body]
pub(crate) fn submit_text(handle: &mut enigo::Enigo, text: &str) -> Result<(), enigo::InputError> {
    enigo::Keyboard::text(handle, text)
}

} // verus!
