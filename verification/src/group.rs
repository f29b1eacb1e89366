//! Groups: a titled frame around one child.

use crate::control::Control;
use vstd::prelude::*;

verus! {

/// A container that draws a frame with a title around its child.
#[derive(Debug)]
pub struct Group {
    _inner: isize,
}

impl Control for Group {
    closed spec fn identity(&self) -> isize {
        self._inner
    }

    fn as_ptr_mut(&self) -> (ptr: isize) {
        self._inner
    }

    fn from_ptr(ptr: isize) -> (control: Self) {
        Group { _inner: ptr }
    }
}

} // verus!
