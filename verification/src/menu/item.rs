//! The items of a menu.

use crate::callback::{CallbackTable, EventKind, SlotUpdate};
use crate::control::Control;
use crate::error::UiError;
use crate::window::Window;
use vstd::prelude::*;

verus! {

/// One item of a menu.
pub struct MenuItem {
    _inner: isize,
}

impl Control for MenuItem {
    closed spec fn identity(&self) -> isize {
        self._inner
    }

    fn as_ptr_mut(&self) -> (ptr: isize) {
        self._inner
    }

    fn from_ptr(ptr: isize) -> (control: Self) {
        MenuItem { _inner: ptr }
    }
}

impl MenuItem {
    /// Registers `f` as the closure that is called when the user clicks the
    /// item, in place of any closure registered before, and says what the
    /// toolkit has to be told. `data` is what the toolkit is to hand back to
    /// the closure on every call.
    ///
    /// Besides the item, the closure is given the window from whose menu bar
    /// the item was clicked.
    pub fn on_clicked<F, D>(&self, table: &mut CallbackTable<F>, f: F, data: D) -> (r: Result<
        SlotUpdate<D>,
        UiError,
    >) where F: FnMut(MenuItem, Window, D)
        ensures
            final(table)@ == old(table)@.register(self.identity(), f),
            r == old(table)@.installed(EventKind::MenuItemClicked, self.identity(), data),
    {
        table.install(EventKind::MenuItemClicked, self._inner, f, data)
    }

    /// Unregisters the closure that is called when the user clicks the item, if
    /// there is one, and says what the toolkit has to be told.
    pub fn clear_clicked<F>(&self, table: &mut CallbackTable<F>) -> (r: Result<
        SlotUpdate<()>,
        UiError,
    >)
        ensures
            final(table)@ == old(table)@.unregister(self.identity()),
            r == old(table)@.cleared(EventKind::MenuItemClicked, self.identity()),
    {
        table.clear(EventKind::MenuItemClicked, self._inner)
    }
}

} // verus!
