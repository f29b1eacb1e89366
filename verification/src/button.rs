//! Push buttons.

use crate::callback::{CallbackTable, EventKind, SlotUpdate};
use crate::control::Control;
use crate::error::UiError;
use vstd::prelude::*;

verus! {

/// A button that the user can click.
pub struct Button {
    _inner: isize,
}

impl Control for Button {
    closed spec fn identity(&self) -> isize {
        self._inner
    }

    fn as_ptr_mut(&self) -> (ptr: isize) {
        self._inner
    }

    fn from_ptr(ptr: isize) -> (control: Self) {
        Button { _inner: ptr }
    }
}

impl Button {
    /// Registers `f` as the closure that is called when the user clicks the
    /// button, in place of any closure registered before, and says what the
    /// toolkit has to be told. `data` is what the toolkit is to hand back to
    /// the closure on every call.
    pub fn on_clicked<F, D>(&self, table: &mut CallbackTable<F>, f: F, data: D) -> (r: Result<
        SlotUpdate<D>,
        UiError,
    >) where F: FnMut(Button, D)
        ensures
            final(table)@ == old(table)@.register(self.identity(), f),
            r == old(table)@.installed(EventKind::ButtonClicked, self.identity(), data),
    {
        table.install(EventKind::ButtonClicked, self._inner, f, data)
    }

    /// Unregisters the closure that is called when the user clicks the button,
    /// if there is one, and says what the toolkit has to be told.
    pub fn clear_clicked<F>(&self, table: &mut CallbackTable<F>) -> (r: Result<
        SlotUpdate<()>,
        UiError,
    >)
        ensures
            final(table)@ == old(table)@.unregister(self.identity()),
            r == old(table)@.cleared(EventKind::ButtonClicked, self.identity()),
    {
        table.clear(EventKind::ButtonClicked, self._inner)
    }
}

} // verus!
