//! Single-line text entries.

use crate::callback::{CallbackTable, EventKind, SlotUpdate};
use crate::control::Control;
use crate::error::UiError;
use vstd::prelude::*;

verus! {

/// A field that holds one line of text.
pub struct Entry {
    _inner: isize,
}

impl Control for Entry {
    closed spec fn identity(&self) -> isize {
        self._inner
    }

    fn as_ptr_mut(&self) -> (ptr: isize) {
        self._inner
    }

    fn from_ptr(ptr: isize) -> (control: Self) {
        Entry { _inner: ptr }
    }
}

impl Entry {
    /// Registers `f` as the closure that is called when the user changes the
    /// text, in place of any closure registered before, and says what the
    /// toolkit has to be told. `data` is what the toolkit is to hand back to
    /// the closure on every call.
    pub fn on_changed<F, D>(&self, table: &mut CallbackTable<F>, f: F, data: D) -> (r: Result<
        SlotUpdate<D>,
        UiError,
    >) where F: FnMut(Entry, D)
        ensures
            final(table)@ == old(table)@.register(self.identity(), f),
            r == old(table)@.installed(EventKind::EntryChanged, self.identity(), data),
    {
        table.install(EventKind::EntryChanged, self._inner, f, data)
    }

    /// Unregisters the closure that is called when the user changes the text,
    /// if there is one, and says what the toolkit has to be told.
    pub fn clear_changed<F>(&self, table: &mut CallbackTable<F>) -> (r: Result<
        SlotUpdate<()>,
        UiError,
    >)
        ensures
            final(table)@ == old(table)@.unregister(self.identity()),
            r == old(table)@.cleared(EventKind::EntryChanged, self.identity()),
    {
        table.clear(EventKind::EntryChanged, self._inner)
    }
}

} // verus!
