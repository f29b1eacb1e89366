//! Check boxes.

use crate::callback::{CallbackTable, EventKind, SlotUpdate};
use crate::control::Control;
use crate::error::UiError;
use vstd::prelude::*;

verus! {

/// A box with a label that the user can check and uncheck.
pub struct CheckBox {
    _inner: isize,
}

impl Control for CheckBox {
    closed spec fn identity(&self) -> isize {
        self._inner
    }

    fn as_ptr_mut(&self) -> (ptr: isize) {
        self._inner
    }

    fn from_ptr(ptr: isize) -> (control: Self) {
        CheckBox { _inner: ptr }
    }
}

impl CheckBox {
    /// Registers `f` as the closure that is called when the user checks or
    /// unchecks the box, in place of any closure registered before, and says
    /// what the toolkit has to be told. `data` is what the toolkit is to hand
    /// back to the closure on every call.
    ///
    /// The toolkit fires this event for what the user does, not for what is set
    /// through the binding.
    pub fn on_toggled<F, D>(&self, table: &mut CallbackTable<F>, f: F, data: D) -> (r: Result<
        SlotUpdate<D>,
        UiError,
    >) where F: FnMut(CheckBox, D)
        ensures
            final(table)@ == old(table)@.register(self.identity(), f),
            r == old(table)@.installed(EventKind::CheckBoxToggled, self.identity(), data),
    {
        table.install(EventKind::CheckBoxToggled, self._inner, f, data)
    }

    /// Unregisters the closure that is called when the user checks or unchecks
    /// the box, if there is one, and says what the toolkit has to be told.
    pub fn clear_toggled<F>(&self, table: &mut CallbackTable<F>) -> (r: Result<
        SlotUpdate<()>,
        UiError,
    >)
        ensures
            final(table)@ == old(table)@.unregister(self.identity()),
            r == old(table)@.cleared(EventKind::CheckBoxToggled, self.identity()),
    {
        table.clear(EventKind::CheckBoxToggled, self._inner)
    }
}

} // verus!
