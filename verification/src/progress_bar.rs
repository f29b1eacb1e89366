//! Progress bars.

use crate::control::Control;
use vstd::prelude::*;

verus! {

/// A bar that shows how far a task has come.
pub struct ProgressBar {
    _inner: isize,
}

impl Control for ProgressBar {
    closed spec fn identity(&self) -> isize {
        self._inner
    }

    fn as_ptr_mut(&self) -> (ptr: isize) {
        self._inner
    }

    fn from_ptr(ptr: isize) -> (control: Self) {
        ProgressBar { _inner: ptr }
    }
}

} // verus!
