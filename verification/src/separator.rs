//! Separators.

use crate::control::Control;
use vstd::prelude::*;

verus! {

/// A line that parts the controls before it from those after it.
pub struct Separator {
    _inner: isize,
}

impl Control for Separator {
    closed spec fn identity(&self) -> isize {
        self._inner
    }

    fn as_ptr_mut(&self) -> (ptr: isize) {
        self._inner
    }

    fn from_ptr(ptr: isize) -> (control: Self) {
        Separator { _inner: ptr }
    }
}

} // verus!
