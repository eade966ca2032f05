//! Names and texts that the router fixes.
use vstd::prelude::*;

verus! {

/// The message of an error response that carries none.
pub const NO_ERROR_MESSAGE: &'static str = "No error message";

/// The code of an error response that carries none.
pub const NO_ERROR_CODE: &'static str = "No error code";

/// What the key of every entry of the temporary locker begins with.
pub const LOCKER_REDIS_PREFIX: &'static str = "LOCKER_PM_TOKEN";

/// How long an entry of the temporary locker lives, in seconds.
pub const LOCKER_REDIS_EXPIRY_SECONDS: u32 = 900;

/// The name under which the stored card data are kept.
pub const VAULT_SERVICE_NAME: &'static str = "CARD";

/// The channel on which cache entries are called off.
pub const PUB_SUB_CHANNEL: &'static str = "hyperswitch_invalidate";

/// What the key of a user's one-time-password marker begins with.
pub const TOTP_PREFIX: &'static str = "TOTP_";

/// The issuer named in a user's one-time-password settings.
pub const TOTP_ISSUER_NAME: &'static str = "Hyperswitch";

/// The number of digits of a one-time password.
pub const TOTP_DIGITS: usize = 6;

/// The number of steps a one-time password may be off.
pub const TOTP_TOLERANCE: u8 = 1;

/// How long a one-time password is valid, in seconds.
pub const TOTP_VALIDITY_DURATION_IN_SECONDS: u64 = 30;

} // verus!
