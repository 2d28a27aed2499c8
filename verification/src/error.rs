//! The errors of the preference store.

use vstd::prelude::*;

verus! {

/// Why an operation on the preference store did not take place.
#[derive(Clone, Copy, Debug, PartialEq, Eq, Structural)]
pub enum ConfigError {
    /// The store's lock was held elsewhere when a non-blocking attempt was
    /// made to take it. The operation was not started and is not retried.
    LockBusy,
    /// The index names no entry of the endpoint list. Nothing was changed.
    IndexOutOfRange,
}

/// The message that the user sees for an error.
pub open spec fn config_error_text(error: ConfigError) -> Seq<char> {
    match error {
        ConfigError::LockBusy => "获取偏好锁失败"@,
        ConfigError::IndexOutOfRange => "API URL索引超出范围"@,
    }
}

impl ConfigError {
    /// The message that the user sees for the error.
    pub fn message(&self) -> (r: String)
        ensures
            r@ == config_error_text(*self),
    {
        match self {
            ConfigError::LockBusy => "获取偏好锁失败".to_string(),
            ConfigError::IndexOutOfRange => "API URL索引超出范围".to_string(),
        }
    }

    /// Whether the caller's input was at fault, as opposed to the state of the
    /// store.
    pub fn is_invalid_input(&self) -> (r: bool)
        ensures
            r == (*self == ConfigError::IndexOutOfRange),
    {
        match self {
            ConfigError::LockBusy => false,
            ConfigError::IndexOutOfRange => true,
        }
    }
}

} // verus!
