//! Random passwords and passphrases drawn under a caller's policy.
pub mod dictionary;
pub mod password_generator;
pub mod password_options;

pub use crate::password_generator::{ConfigurationError, PasswordGenerator};
pub use crate::password_options::{CharSet, ParseCharSetError, PasswordOptions};
