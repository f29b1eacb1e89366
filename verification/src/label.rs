//! Labels.

use crate::control::Control;
use vstd::prelude::*;

verus! {

/// A line of text that the user cannot edit.
pub struct Label {
    _inner: isize,
}

impl Control for Label {
    closed spec fn identity(&self) -> isize {
        self._inner
    }

    fn as_ptr_mut(&self) -> (ptr: isize) {
        self._inner
    }

    fn from_ptr(ptr: isize) -> (control: Self) {
        Label { _inner: ptr }
    }
}

} // verus!
