//! Boxes: containers that lay their children out in a row or a column.

use crate::control::Control;
use vstd::prelude::*;

verus! {

/// A container that places its children next to each other, in a row or in a column.
pub struct Box {
    _inner: isize,
}

impl Control for Box {
    closed spec fn identity(&self) -> isize {
        self._inner
    }

    fn as_ptr_mut(&self) -> (ptr: isize) {
        self._inner
    }

    fn from_ptr(ptr: isize) -> (control: Self) {
        Box { _inner: ptr }
    }
}

} // verus!
