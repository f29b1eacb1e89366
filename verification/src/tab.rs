//! Tab containers.

use crate::callback::{CallbackTable, EventKind, SlotUpdate};
use crate::control::Control;
use crate::error::UiError;
use vstd::prelude::*;

verus! {

/// A container that shows one of its pages at a time, chosen by a tab.
pub struct Tab {
    _inner: isize,
}

impl Control for Tab {
    closed spec fn identity(&self) -> isize {
        self._inner
    }

    fn as_ptr_mut(&self) -> (ptr: isize) {
        self._inner
    }

    fn from_ptr(ptr: isize) -> (control: Self) {
        Tab { _inner: ptr }
    }
}

impl Tab {
    /// Registers `f` as the closure that is called when the user selects a tab,
    /// in place of any closure registered before, and says what the toolkit has
    /// to be told. `data` is what the toolkit is to hand back to the closure on
    /// every call.
    ///
    /// The toolkit fires this event for what the user does, not for what is set
    /// through the binding.
    pub fn on_selected<F, D>(&self, table: &mut CallbackTable<F>, f: F, data: D) -> (r: Result<
        SlotUpdate<D>,
        UiError,
    >) where F: FnMut(Tab, D)
        ensures
            final(table)@ == old(table)@.register(self.identity(), f),
            r == old(table)@.installed(EventKind::TabSelected, self.identity(), data),
    {
        table.install(EventKind::TabSelected, self._inner, f, data)
    }

    /// Unregisters the closure that is called when the user selects a tab, if
    /// there is one, and says what the toolkit has to be told.
    pub fn clear_selected<F>(&self, table: &mut CallbackTable<F>) -> (r: Result<
        SlotUpdate<()>,
        UiError,
    >)
        ensures
            final(table)@ == old(table)@.unregister(self.identity()),
            r == old(table)@.cleared(EventKind::TabSelected, self.identity()),
    {
        table.clear(EventKind::TabSelected, self._inner)
    }
}

} // verus!
