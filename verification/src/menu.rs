//! Menus of the application's menu bar.

pub mod item;

use crate::control::Control;
use vstd::prelude::*;

pub use item::MenuItem;

verus! {

/// One menu of the menu bar, such as "File" or "Edit".
pub struct Menu {
    _inner: isize,
}

impl Control for Menu {
    closed spec fn identity(&self) -> isize {
        self._inner
    }

    fn as_ptr_mut(&self) -> (ptr: isize) {
        self._inner
    }

    fn from_ptr(ptr: isize) -> (control: Self) {
        Menu { _inner: ptr }
    }
}

} // verus!
