//! Top-level windows.

use crate::callback::{CallbackTable, EventKind, SlotUpdate};
use crate::control::Control;
use crate::error::UiError;
use crate::flag::{flag_to_native, native_flag};
use vstd::prelude::*;

verus! {

/// A top-level window.
#[derive(Debug)]
pub struct Window {
    _inner: isize,
}

impl Control for Window {
    closed spec fn identity(&self) -> isize {
        self._inner
    }

    fn as_ptr_mut(&self) -> (ptr: isize) {
        self._inner
    }

    fn from_ptr(ptr: isize) -> (control: Self) {
        Window { _inner: ptr }
    }
}

impl Window {
    /// Registers `f` as the closure that is called when the window gains or
    /// loses the focus, in place of any closure registered before, and says
    /// what the toolkit has to be told. `data` is what the toolkit is to hand
    /// back to the closure on every call.
    pub fn on_focus_changed<F, D>(&self, table: &mut CallbackTable<F>, f: F, data: D) -> (r: Result<
        SlotUpdate<D>,
        UiError,
    >) where F: FnMut(Window, D)
        ensures
            final(table)@ == old(table)@.register(self.identity(), f),
            r == old(table)@.installed(EventKind::WindowFocusChanged, self.identity(), data),
    {
        table.install(EventKind::WindowFocusChanged, self._inner, f, data)
    }

    /// Unregisters the closure that is called when the window gains or loses
    /// the focus, if there is one, and says what the toolkit has to be told.
    pub fn clear_focus_changed<F>(&self, table: &mut CallbackTable<F>) -> (r: Result<
        SlotUpdate<()>,
        UiError,
    >)
        ensures
            final(table)@ == old(table)@.unregister(self.identity()),
            r == old(table)@.cleared(EventKind::WindowFocusChanged, self.identity()),
    {
        table.clear(EventKind::WindowFocusChanged, self._inner)
    }

    /// Registers `f` as the closure that is called when the window is about to
    /// be closed, in place of any closure registered before, and says what the
    /// toolkit has to be told. `data` is what the toolkit is to hand back to
    /// the closure on every call.
    ///
    /// The closure decides: `true` lets the window be destroyed, `false` keeps
    /// it open. [`Window::closing`] takes its answer to the toolkit.
    pub fn on_closing<F, D>(&self, table: &mut CallbackTable<F>, f: F, data: D) -> (r: Result<
        SlotUpdate<D>,
        UiError,
    >) where F: FnMut(Window, D) -> bool
        ensures
            final(table)@ == old(table)@.register(self.identity(), f),
            r == old(table)@.installed(EventKind::WindowClosing, self.identity(), data),
    {
        table.install(EventKind::WindowClosing, self._inner, f, data)
    }

    /// Unregisters the closure that is called when the window is about to be
    /// closed, if there is one, and says what the toolkit has to be told.
    pub fn clear_closing<F>(&self, table: &mut CallbackTable<F>) -> (r: Result<
        SlotUpdate<()>,
        UiError,
    >)
        ensures
            final(table)@ == old(table)@.unregister(self.identity()),
            r == old(table)@.cleared(EventKind::WindowClosing, self.identity()),
    {
        table.clear(EventKind::WindowClosing, self._inner)
    }

    /// Answers the toolkit's question whether `widget`, a window, may be
    /// closed: asks the closure registered for it, once, and turns its answer
    /// into the toolkit's integer. Where no closure is registered, or the table
    /// is poisoned, the answer is zero: the window stays open.
    pub fn closing<F, D>(table: &mut CallbackTable<F>, widget: isize, data: D) -> (answer: i32) where
        F: FnMut(Window, D) -> bool,

        requires
            old(table)@.fires(widget) ==> forall|sender: Window|
                sender.identity() == widget ==> call_requires(
                    old(table)@.entries[widget],
                    (sender, data),
                ),
        ensures
            final(table)@ == old(table)@,
            exists|close: bool|
                old(table)@.answers::<Window, D, bool>(widget, data, close) && answer
                    == native_flag(close),
            !old(table)@.fires(widget) ==> answer == 0,
    {
        let close: bool = table.dispatch::<Window, D, bool>(widget, data);
        flag_to_native(close)
    }

    /// Registers `f` as the closure that is called when the user resizes the
    /// window, in place of any closure registered before, and says what the
    /// toolkit has to be told. `data` is what the toolkit is to hand back to
    /// the closure on every call.
    ///
    /// The toolkit fires this event for what the user does, not for what is set
    /// through the binding.
    pub fn on_content_size_changed<F, D>(&self, table: &mut CallbackTable<F>, f: F, data: D) -> (r: Result<
        SlotUpdate<D>,
        UiError,
    >) where F: FnMut(Window, D)
        ensures
            final(table)@ == old(table)@.register(self.identity(), f),
            r == old(table)@.installed(EventKind::WindowContentSizeChanged, self.identity(), data),
    {
        table.install(EventKind::WindowContentSizeChanged, self._inner, f, data)
    }

    /// Unregisters the closure that is called when the user resizes the window,
    /// if there is one, and says what the toolkit has to be told.
    pub fn clear_content_size_changed<F>(&self, table: &mut CallbackTable<F>) -> (r: Result<
        SlotUpdate<()>,
        UiError,
    >)
        ensures
            final(table)@ == old(table)@.unregister(self.identity()),
            r == old(table)@.cleared(EventKind::WindowContentSizeChanged, self.identity()),
    {
        table.clear(EventKind::WindowContentSizeChanged, self._inner)
    }

    /// Registers `f` as the closure that is called when the window is moved, in
    /// place of any closure registered before, and says what the toolkit has to
    /// be told. `data` is what the toolkit is to hand back to the closure on
    /// every call.
    ///
    /// The toolkit fires this event for what the user does, not for what is set
    /// through the binding.
    pub fn on_position_changed<F, D>(&self, table: &mut CallbackTable<F>, f: F, data: D) -> (r: Result<
        SlotUpdate<D>,
        UiError,
    >) where F: FnMut(Window, D)
        ensures
            final(table)@ == old(table)@.register(self.identity(), f),
            r == old(table)@.installed(EventKind::WindowPositionChanged, self.identity(), data),
    {
        table.install(EventKind::WindowPositionChanged, self._inner, f, data)
    }

    /// Unregisters the closure that is called when the window is moved, if
    /// there is one, and says what the toolkit has to be told.
    pub fn clear_position_changed<F>(&self, table: &mut CallbackTable<F>) -> (r: Result<
        SlotUpdate<()>,
        UiError,
    >)
        ensures
            final(table)@ == old(table)@.unregister(self.identity()),
            r == old(table)@.cleared(EventKind::WindowPositionChanged, self.identity()),
    {
        table.clear(EventKind::WindowPositionChanged, self._inner)
    }
}

} // verus!
