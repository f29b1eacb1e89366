//! Pickers for a date, a time of day, or both.

use crate::callback::{CallbackTable, EventKind, SlotUpdate};
use crate::control::Control;
use crate::error::UiError;
use vstd::prelude::*;

verus! {

/// A control in which the user picks a date, a time of day, or both.
pub struct DateTimePicker {
    _inner: isize,
}

impl Control for DateTimePicker {
    closed spec fn identity(&self) -> isize {
        self._inner
    }

    fn as_ptr_mut(&self) -> (ptr: isize) {
        self._inner
    }

    fn from_ptr(ptr: isize) -> (control: Self) {
        DateTimePicker { _inner: ptr }
    }
}

impl DateTimePicker {
    /// Registers `f` as the closure that is called when the user changes the
    /// date or the time, in place of any closure registered before, and says
    /// what the toolkit has to be told. `data` is what the toolkit is to hand
    /// back to the closure on every call.
    ///
    /// The toolkit fires this event for what the user does, not for what is set
    /// through the binding.
    pub fn on_changed<F, D>(&self, table: &mut CallbackTable<F>, f: F, data: D) -> (r: Result<
        SlotUpdate<D>,
        UiError,
    >) where F: FnMut(DateTimePicker, D)
        ensures
            final(table)@ == old(table)@.register(self.identity(), f),
            r == old(table)@.installed(EventKind::DateTimePickerChanged, self.identity(), data),
    {
        table.install(EventKind::DateTimePickerChanged, self._inner, f, data)
    }

    /// Unregisters the closure that is called when the user changes the date or
    /// the time, if there is one, and says what the toolkit has to be told.
    pub fn clear_changed<F>(&self, table: &mut CallbackTable<F>) -> (r: Result<
        SlotUpdate<()>,
        UiError,
    >)
        ensures
            final(table)@ == old(table)@.unregister(self.identity()),
            r == old(table)@.cleared(EventKind::DateTimePickerChanged, self.identity()),
    {
        table.clear(EventKind::DateTimePickerChanged, self._inner)
    }
}

} // verus!
