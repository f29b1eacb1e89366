//! Combo boxes whose text the user can edit.

use crate::callback::{CallbackTable, EventKind, SlotUpdate};
use crate::control::Control;
use crate::error::UiError;
use vstd::prelude::*;

verus! {

/// A drop-down list with a text field: the user picks an item or types a text.
pub struct EditableCombobox {
    _inner: isize,
}

impl Control for EditableCombobox {
    closed spec fn identity(&self) -> isize {
        self._inner
    }

    fn as_ptr_mut(&self) -> (ptr: isize) {
        self._inner
    }

    fn from_ptr(ptr: isize) -> (control: Self) {
        EditableCombobox { _inner: ptr }
    }
}

impl EditableCombobox {
    /// Registers `f` as the closure that is called when the user picks an item
    /// or edits the text, in place of any closure registered before, and says
    /// what the toolkit has to be told. `data` is what the toolkit is to hand
    /// back to the closure on every call.
    pub fn on_changed<F, D>(&self, table: &mut CallbackTable<F>, f: F, data: D) -> (r: Result<
        SlotUpdate<D>,
        UiError,
    >) where F: FnMut(EditableCombobox, D)
        ensures
            final(table)@ == old(table)@.register(self.identity(), f),
            r == old(table)@.installed(EventKind::EditableComboboxChanged, self.identity(), data),
    {
        table.install(EventKind::EditableComboboxChanged, self._inner, f, data)
    }

    /// Unregisters the closure that is called when the user picks an item or
    /// edits the text, if there is one, and says what the toolkit has to be
    /// told.
    pub fn clear_changed<F>(&self, table: &mut CallbackTable<F>) -> (r: Result<
        SlotUpdate<()>,
        UiError,
    >)
        ensures
            final(table)@ == old(table)@.unregister(self.identity()),
            r == old(table)@.cleared(EventKind::EditableComboboxChanged, self.identity()),
    {
        table.clear(EventKind::EditableComboboxChanged, self._inner)
    }
}

} // verus!
