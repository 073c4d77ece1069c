//! The items most callers need, in one place.

pub use crate::attestation::ConveyancePreference;
pub use crate::authenticator::assertion::get;
pub use crate::authenticator::client_pin;
pub use crate::authenticator::credential::make;
pub use crate::credential::Type;
pub use crate::{Command, Ctap2_2Authenticator};
