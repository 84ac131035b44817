//! Unwrapping helpers for values that the caller has already shown to be
//! present: the message parameters describe the failure that the contract
//! rules out.

use vstd::prelude::*;

verus! {

/// Unwraps a container after its caller has established that a value is
/// there; the messages would describe the ruled-out failure.
pub trait ExpectLog: Sized {
    type Output;

    /// Whether a value is there to unwrap.
    spec fn has_value(&self) -> bool;

    /// The value that is there.
    spec fn the_value(self) -> Self::Output;

    /// Unwraps, with a message for the ruled-out failure.
    fn expect_log(self, msg: &str) -> (r: Self::Output)
        requires
            self.has_value(),
        ensures
            r == self.the_value(),
    ;

    /// Unwraps, with a lazily built message for the ruled-out failure.
    fn expect_log_fmt<F: FnOnce() -> String>(self, f: F) -> (r: Self::Output)
        requires
            self.has_value(),
        ensures
            r == self.the_value(),
    ;

    /// Unwraps, with messages for both outcomes.
    fn expect_log_v(self, err_msg: &str, ok_msg: &str) -> (r: Self::Output)
        requires
            self.has_value(),
        ensures
            r == self.the_value(),
    ;

    /// Unwraps, with lazily built messages for both outcomes.
    fn expect_log_v_fmt<F: FnOnce() -> String, G: FnOnce(&Self::Output) -> String>(
        self,
        err_f: F,
        ok_f: G,
    ) -> (r: Self::Output)
        requires
            self.has_value(),
        ensures
            r == self.the_value(),
    ;
}

impl<T> ExpectLog for Option<T> {
    type Output = T;

    open spec fn has_value(&self) -> bool {
        self is Some
    }

    open spec fn the_value(self) -> T {
        self.unwrap()
    }

    fn expect_log(self, msg: &str) -> (r: T) {
        match self {
            Option::Some(v) => v,
            Option::None => vstd::pervasive::unreached(),
        }
    }

    fn expect_log_fmt<F: FnOnce() -> String>(self, f: F) -> (r: T) {
        match self {
            Option::Some(v) => v,
            Option::None => vstd::pervasive::unreached(),
        }
    }

    fn expect_log_v(self, err_msg: &str, ok_msg: &str) -> (r: T) {
        match self {
            Option::Some(v) => v,
            Option::None => vstd::pervasive::unreached(),
        }
    }

    fn expect_log_v_fmt<F: FnOnce() -> String, G: FnOnce(&T) -> String>(
        self,
        err_f: F,
        ok_f: G,
    ) -> (r: T) {
        match self {
            Option::Some(v) => v,
            Option::None => vstd::pervasive::unreached(),
        }
    }
}

impl<T, E> ExpectLog for Result<T, E> {
    type Output = T;

    open spec fn has_value(&self) -> bool {
        self is Ok
    }

    open spec fn the_value(self) -> T {
        match self {
            Result::Ok(v) => v,
            Result::Err(_) => vstd::pervasive::arbitrary(),
        }
    }

    fn expect_log(self, msg: &str) -> (r: T) {
        match self {
            Result::Ok(v) => v,
            Result::Err(_) => vstd::pervasive::unreached(),
        }
    }

    fn expect_log_fmt<F: FnOnce() -> String>(self, f: F) -> (r: T) {
        match self {
            Result::Ok(v) => v,
            Result::Err(_) => vstd::pervasive::unreached(),
        }
    }

    fn expect_log_v(self, err_msg: &str, ok_msg: &str) -> (r: T) {
        match self {
            Result::Ok(v) => v,
            Result::Err(_) => vstd::pervasive::unreached(),
        }
    }

    fn expect_log_v_fmt<F: FnOnce() -> String, G: FnOnce(&T) -> String>(
        self,
        err_f: F,
        ok_f: G,
    ) -> (r: T) {
        match self {
            Result::Ok(v) => v,
            Result::Err(_) => vstd::pervasive::unreached(),
        }
    }
}

} // verus!
