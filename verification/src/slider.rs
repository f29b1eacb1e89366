//! Sliders.

use crate::callback::{CallbackTable, EventKind, SlotUpdate};
use crate::control::Control;
use crate::error::UiError;
use vstd::prelude::*;

verus! {

/// A handle that the user drags along a range of integers.
pub struct Slider {
    _inner: isize,
}

impl Control for Slider {
    closed spec fn identity(&self) -> isize {
        self._inner
    }

    fn as_ptr_mut(&self) -> (ptr: isize) {
        self._inner
    }

    fn from_ptr(ptr: isize) -> (control: Self) {
        Slider { _inner: ptr }
    }
}

impl Slider {
    /// Registers `f` as the closure that is called when the user moves the
    /// slider, in place of any closure registered before, and says what the
    /// toolkit has to be told. `data` is what the toolkit is to hand back to
    /// the closure on every call.
    ///
    /// The toolkit fires this event for what the user does, not for what is set
    /// through the binding.
    pub fn on_changed<F, D>(&self, table: &mut CallbackTable<F>, f: F, data: D) -> (r: Result<
        SlotUpdate<D>,
        UiError,
    >) where F: FnMut(Slider, D)
        ensures
            final(table)@ == old(table)@.register(self.identity(), f),
            r == old(table)@.installed(EventKind::SliderChanged, self.identity(), data),
    {
        table.install(EventKind::SliderChanged, self._inner, f, data)
    }

    /// Unregisters the closure that is called when the user moves the slider,
    /// if there is one, and says what the toolkit has to be told.
    pub fn clear_changed<F>(&self, table: &mut CallbackTable<F>) -> (r: Result<
        SlotUpdate<()>,
        UiError,
    >)
        ensures
            final(table)@ == old(table)@.unregister(self.identity()),
            r == old(table)@.cleared(EventKind::SliderChanged, self.identity()),
    {
        table.clear(EventKind::SliderChanged, self._inner)
    }

    /// Registers `f` as the closure that is called when the user lets go of the
    /// slider, in place of any closure registered before, and says what the
    /// toolkit has to be told. `data` is what the toolkit is to hand back to
    /// the closure on every call.
    pub fn on_released<F, D>(&self, table: &mut CallbackTable<F>, f: F, data: D) -> (r: Result<
        SlotUpdate<D>,
        UiError,
    >) where F: FnMut(Slider, D)
        ensures
            final(table)@ == old(table)@.register(self.identity(), f),
            r == old(table)@.installed(EventKind::SliderReleased, self.identity(), data),
    {
        table.install(EventKind::SliderReleased, self._inner, f, data)
    }

    /// Unregisters the closure that is called when the user lets go of the
    /// slider, if there is one, and says what the toolkit has to be told.
    pub fn clear_released<F>(&self, table: &mut CallbackTable<F>) -> (r: Result<
        SlotUpdate<()>,
        UiError,
    >)
        ensures
            final(table)@ == old(table)@.unregister(self.identity()),
            r == old(table)@.cleared(EventKind::SliderReleased, self.identity()),
    {
        table.clear(EventKind::SliderReleased, self._inner)
    }
}

} // verus!
