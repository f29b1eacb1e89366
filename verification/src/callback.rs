//! The callback tables.
//!
//! The toolkit can hold one function pointer and one user-data slot for each
//! event of each widget, and knows nothing of closures. So for each kind of
//! event there is a table that maps the handle of a widget to the closure that
//! answers the event for it, and a trampoline: the one function that the
//! toolkit is given for that kind, which looks the firing widget up in the
//! table. The trampoline itself, and the lock around the table, belong to the
//! caller; a table says what happens inside.
//!
//! A table whose lock was found poisoned is marked so. From then on it takes
//! no new closure, gives none up and fires none, until the mark is taken off.
//!
//! Three things are left to the caller. Which table belongs to which kind of
//! event: a widget's method names the kind in its answer and takes the table
//! it is given for the table of that kind. A closure runs while its table is
//! held, so it cannot register or unregister on that same table. And a handle
//! is a good key only while its widget lives: unregister before the widget is
//! destroyed, or a later widget at the same address inherits the closure.

use crate::control::Control;
use crate::error::UiError;
use std::collections::HashMap;
use vstd::prelude::*;

verus! {

/// A kind of native event. Each kind has a table and a trampoline of its own.
#[derive(Clone, Copy, Debug, PartialEq, Eq, Structural)]
pub enum EventKind {
    ButtonClicked,
    CheckBoxToggled,
    ComboBoxSelected,
    DateTimePickerChanged,
    EditableComboboxChanged,
    EntryChanged,
    MenuItemClicked,
    RadioButtonsSelected,
    SliderChanged,
    SliderReleased,
    SpinboxChanged,
    TabSelected,
    WindowFocusChanged,
    WindowClosing,
    WindowContentSizeChanged,
    WindowPositionChanged,
}

/// What the toolkit has to be told after a table took or gave up a closure.
#[derive(Debug, PartialEq, Eq)]
pub enum SlotUpdate<D> {
    /// Give the toolkit the trampoline of `event` as the callback of `widget`,
    /// and `data` as what it hands back on every firing.
    Install { event: EventKind, widget: isize, data: D },
    /// Give the toolkit no callback for `event` of `widget`, so that it fires no more.
    Clear { event: EventKind, widget: isize },
}

/// What a table holds, as a value to reason about.
pub struct TableState<F> {
    /// The closure of each widget that has one, by the widget's handle.
    pub entries: Map<isize, F>,
    /// Why the table is poisoned, if it is.
    pub poison: Option<String>,
}

impl<F> TableState<F> {
    /// The table that holds no closure and is not poisoned.
    pub open spec fn empty() -> Self {
        TableState { entries: Map::empty(), poison: None }
    }

    /// Whether the table is marked as poisoned.
    pub open spec fn poisoned(self) -> bool {
        self.poison is Some
    }

    /// The failure that a poisoned table answers with.
    pub open spec fn failure(self) -> UiError {
        UiError::Poison(self.poison.unwrap())
    }

    /// The closure registered for `widget`, if there is one.
    pub open spec fn callback(self, widget: isize) -> Option<F> {
        if self.entries.contains_key(widget) {
            Some(self.entries[widget])
        } else {
            None
        }
    }

    /// Whether an event of `widget` reaches a closure.
    pub open spec fn fires(self, widget: isize) -> bool {
        !self.poisoned() && self.entries.contains_key(widget)
    }

    /// The table after `f` was registered for `widget`.
    pub open spec fn register(self, widget: isize, f: F) -> Self {
        if self.poisoned() {
            self
        } else {
            TableState { entries: self.entries.insert(widget, f), poison: self.poison }
        }
    }

    /// The table after the closure of `widget` was taken out.
    pub open spec fn unregister(self, widget: isize) -> Self {
        if self.poisoned() {
            self
        } else {
            TableState { entries: self.entries.remove(widget), poison: self.poison }
        }
    }

    /// What registering or unregistering answers: the closure that was there
    /// before, or the failure of a poisoned table.
    pub open spec fn previous(self, widget: isize) -> Result<Option<F>, UiError> {
        if self.poisoned() {
            Err(self.failure())
        } else {
            Ok(self.callback(widget))
        }
    }

    /// Whether `r` can be the answer to an event of `widget` that comes with
    /// `data`: what the closure of the widget returns when it is called with a
    /// wrapper of that widget, or the default where no closure is reached.
    pub open spec fn answers<W: Control, D, R: Default>(
        self,
        widget: isize,
        data: D,
        r: R,
    ) -> bool where F: FnMut(W, D) -> R {
        if self.fires(widget) {
            exists|sender: W|
                sender.identity() == widget && call_ensures(
                    self.entries[widget],
                    (sender, data),
                    r,
                )
        } else {
            call_ensures(R::default, (), r)
        }
    }

    /// As `answers`, for an event that names a second widget, `other`.
    pub open spec fn answers_with<W: Control, X: Control, D, R: Default>(
        self,
        widget: isize,
        other: isize,
        data: D,
        r: R,
    ) -> bool where F: FnMut(W, X, D) -> R {
        if self.fires(widget) {
            exists|sender: W, named: X|
                sender.identity() == widget && named.identity() == other && call_ensures(
                    self.entries[widget],
                    (sender, named, data),
                    r,
                )
        } else {
            call_ensures(R::default, (), r)
        }
    }

    /// What `install` answers.
    pub open spec fn installed<D>(self, event: EventKind, widget: isize, data: D) -> Result<
        SlotUpdate<D>,
        UiError,
    > {
        if self.poisoned() {
            Err(self.failure())
        } else {
            Ok(SlotUpdate::Install { event, widget, data })
        }
    }

    /// What `clear` answers.
    pub open spec fn cleared(self, event: EventKind, widget: isize) -> Result<
        SlotUpdate<()>,
        UiError,
    > {
        if self.poisoned() {
            Err(self.failure())
        } else {
            Ok(SlotUpdate::Clear { event, widget })
        }
    }
}

/// The table of one kind of event: at most one closure for each widget.
pub struct CallbackTable<F> {
    entries: HashMap<isize, F>,
    poison: Option<String>,
}

impl<F> View for CallbackTable<F> {
    type V = TableState<F>;

    closed spec fn view(&self) -> TableState<F> {
        TableState { entries: self.entries@, poison: self.poison }
    }
}

impl<F> Default for CallbackTable<F> {
    /// A table that holds no closure.
    fn default() -> (table: Self)
        ensures
            table@ == TableState::<F>::empty(),
    {
        CallbackTable::new()
    }
}

impl<F> CallbackTable<F> {
    /// A table that holds no closure.
    pub fn new() -> (table: Self)
        ensures
            table@ == TableState::<F>::empty(),
    {
        CallbackTable { entries: HashMap::new(), poison: None }
    }

    /// Registers `f` as the closure of `widget`, in place of the one that was
    /// there, which is handed back. A poisoned table takes nothing.
    pub fn register(&mut self, widget: isize, f: F) -> (r: Result<Option<F>, UiError>)
        ensures
            final(self)@ == old(self)@.register(widget, f),
            r == old(self)@.previous(widget),
    {
        match &self.poison {
            Some(reason) => Err(UiError::Poison(reason.clone())),
            None => Ok(self.entries.insert(widget, f)),
        }
    }

    /// Takes the closure of `widget` out and hands it back. Where there is
    /// none, nothing changes. A poisoned table gives nothing up.
    pub fn unregister(&mut self, widget: isize) -> (r: Result<Option<F>, UiError>)
        ensures
            final(self)@ == old(self)@.unregister(widget),
            r == old(self)@.previous(widget),
    {
        match &self.poison {
            Some(reason) => Err(UiError::Poison(reason.clone())),
            None => Ok(self.entries.remove(&widget)),
        }
    }

    /// Registers `f` for `widget` and says what the toolkit has to be told:
    /// to call the trampoline of `event` for that widget, with `data`.
    pub fn install<D>(&mut self, event: EventKind, widget: isize, f: F, data: D) -> (r: Result<
        SlotUpdate<D>,
        UiError,
    >)
        ensures
            final(self)@ == old(self)@.register(widget, f),
            r == old(self)@.installed(event, widget, data),
    {
        match self.register(widget, f) {
            Ok(_) => Ok(SlotUpdate::Install { event, widget, data }),
            Err(e) => Err(e),
        }
    }

    /// Unregisters the closure of `widget` and says what the toolkit has to be
    /// told: to call nothing for `event` of that widget.
    pub fn clear(&mut self, event: EventKind, widget: isize) -> (r: Result<SlotUpdate<()>, UiError>)
        ensures
            final(self)@ == old(self)@.unregister(widget),
            r == old(self)@.cleared(event, widget),
    {
        match self.unregister(widget) {
            Ok(_) => Ok(SlotUpdate::Clear { event, widget }),
            Err(e) => Err(e),
        }
    }

    /// Answers an event of `widget`: calls the closure registered for it, once,
    /// with a wrapper of the widget and with `data`, and hands back what the
    /// closure returned. Where no closure is registered, or the table is
    /// poisoned, nothing is called and the answer is the default of its type.
    ///
    /// The closure is out of the table while it runs, and back in it when it
    /// has returned. One that does not return is not put back.
    pub fn dispatch<W: Control, D, R: Default>(&mut self, widget: isize, data: D) -> (r: R) where
        F: FnMut(W, D) -> R,

        requires
            old(self)@.fires(widget) ==> forall|sender: W|
                sender.identity() == widget ==> call_requires(
                    old(self)@.entries[widget],
                    (sender, data),
                ),
        ensures
            final(self)@ == old(self)@,
            old(self)@.answers::<W, D, R>(widget, data, r),
    {
        if self.poison.is_some() {
            return R::default();
        }
        match self.entries.remove(&widget) {
            Some(mut f) => {
                let r = f(W::from_ptr(widget), data);
                self.entries.insert(widget, f);
                assert(self.entries@ =~= old(self).entries@);
                r
            },
            None => {
                assert(self.entries@ =~= old(self).entries@);
                R::default()
            },
        }
    }

    /// Answers an event of `widget` that names a second widget, `other`: as
    /// `dispatch`, with a wrapper of `other` as the closure's second argument.
    pub fn dispatch_with<W: Control, X: Control, D, R: Default>(
        &mut self,
        widget: isize,
        other: isize,
        data: D,
    ) -> (r: R) where F: FnMut(W, X, D) -> R
        requires
            old(self)@.fires(widget) ==> forall|sender: W, named: X|
                sender.identity() == widget && named.identity() == other ==> call_requires(
                    old(self)@.entries[widget],
                    (sender, named, data),
                ),
        ensures
            final(self)@ == old(self)@,
            old(self)@.answers_with::<W, X, D, R>(widget, other, data, r),
    {
        if self.poison.is_some() {
            return R::default();
        }
        match self.entries.remove(&widget) {
            Some(mut f) => {
                let r = f(W::from_ptr(widget), X::from_ptr(other), data);
                self.entries.insert(widget, f);
                assert(self.entries@ =~= old(self).entries@);
                r
            },
            None => {
                assert(self.entries@ =~= old(self).entries@);
                R::default()
            },
        }
    }

    /// Marks the table as poisoned, for `reason`. A table that is poisoned
    /// already keeps its first reason.
    pub fn poison(&mut self, reason: String)
        ensures
            final(self)@.entries == old(self)@.entries,
            final(self)@.poison == if old(self)@.poisoned() {
                old(self)@.poison
            } else {
                Some(reason)
            },
    {
        if self.poison.is_none() {
            self.poison = Some(reason);
        }
    }

    /// Takes the mark off a poisoned table. The closures it holds fire again.
    pub fn clear_poison(&mut self)
        ensures
            final(self)@ == (TableState { entries: old(self)@.entries, poison: None }),
    {
        self.poison = None;
    }

    /// Whether the table is marked as poisoned.
    pub fn is_poisoned(&self) -> (poisoned: bool)
        ensures
            poisoned == self@.poisoned(),
    {
        self.poison.is_some()
    }

    /// Whether a closure is registered for `widget`.
    pub fn contains(&self, widget: isize) -> (held: bool)
        ensures
            held == self@.entries.contains_key(widget),
    {
        self.entries.contains_key(&widget)
    }

    /// The number of widgets that have a closure.
    pub fn len(&self) -> (n: usize)
        ensures
            n == self@.entries.len(),
    {
        self.entries.len()
    }
}

/// A closure that was registered for a widget is the one that answers the
/// widget's events: the answer to an event is what that closure returns when
/// it is called with a wrapper of that widget.
pub proof fn lemma_registered_closure_answers<F, W: Control, D, R: Default>(
    table: TableState<F>,
    widget: isize,
    f: F,
    data: D,
    r: R,
) where F: FnMut(W, D) -> R
    requires
        !table.poisoned(),
    ensures
        table.register(widget, f).callback(widget) == Some(f),
        table.register(widget, f).answers::<W, D, R>(widget, data, r) <==> exists|sender: W|
            sender.identity() == widget && call_ensures(f, (sender, data), r),
{
}

/// A second closure registered for a widget takes the place of the first, and
/// the first answers no event from then on: every answer is the second's.
pub proof fn lemma_replaced_closure_is_silent<F, W: Control, D, R: Default>(
    table: TableState<F>,
    widget: isize,
    first: F,
    second: F,
    data: D,
    r: R,
) where F: FnMut(W, D) -> R
    requires
        !table.poisoned(),
    ensures
        table.register(widget, first).register(widget, second).answers::<W, D, R>(widget, data, r)
            <==> exists|sender: W|
            sender.identity() == widget && call_ensures(second, (sender, data), r),
{
}

/// After its closure was unregistered, an event of a widget reaches no
/// closure, whatever was registered before: the answer is the default.
pub proof fn lemma_unregistered_answers_default<F, W: Control, D, R: Default>(
    table: TableState<F>,
    widget: isize,
    data: D,
    r: R,
) where F: FnMut(W, D) -> R
    ensures
        !table.unregister(widget).fires(widget),
        !table.poisoned() ==> table.unregister(widget).callback(widget) is None,
        table.unregister(widget).answers::<W, D, R>(widget, data, r) <==> call_ensures(
            R::default,
            (),
            r,
        ),
{
}

/// Registering twice for a widget leaves the table as if the first closure
/// had never been registered; the second call hands the first closure back.
pub proof fn lemma_register_replaces<F>(table: TableState<F>, widget: isize, first: F, second: F)
    ensures
        table.register(widget, first).register(widget, second) == table.register(widget, second),
        table.register(widget, first).previous(widget) == if table.poisoned() {
            Err::<Option<F>, UiError>(table.failure())
        } else {
            Ok(Some(first))
        },
{
    assert(table.entries.insert(widget, first).insert(widget, second) =~= table.entries.insert(
        widget,
        second,
    ));
}

/// Registering or unregistering the closure of one widget leaves the closures
/// of all other widgets as they were.
pub proof fn lemma_other_widgets_untouched<F>(
    table: TableState<F>,
    widget: isize,
    other: isize,
    f: F,
)
    requires
        widget != other,
    ensures
        table.register(widget, f).callback(other) == table.callback(other),
        table.unregister(widget).callback(other) == table.callback(other),
        table.register(widget, f).fires(other) == table.fires(other),
        table.unregister(widget).fires(other) == table.fires(other),
{
}

/// The life of an entry: a widget without a closure gets one by registering
/// and is without one again after unregistering, and the table is then what
/// it was at the start.
pub proof fn lemma_register_then_unregister<F>(table: TableState<F>, widget: isize, f: F)
    requires
        table.callback(widget) is None,
    ensures
        table.register(widget, f).unregister(widget) == table,
{
    assert(table.entries.insert(widget, f).remove(widget) =~= table.entries);
}

/// Unregistering where nothing is registered changes nothing, and is no failure.
pub proof fn lemma_unregister_absent<F>(table: TableState<F>, widget: isize)
    requires
        table.callback(widget) is None,
    ensures
        table.unregister(widget) == table,
        !table.poisoned() ==> table.previous(widget) == Ok::<Option<F>, UiError>(None),
{
    assert(table.entries.remove(widget) =~= table.entries);
}

/// A poisoned table is inert: it takes no closure, gives none up and fires none.
pub proof fn lemma_poisoned_table_is_inert<F>(table: TableState<F>, widget: isize, f: F)
    requires
        table.poisoned(),
    ensures
        table.register(widget, f) == table,
        table.unregister(widget) == table,
        !table.fires(widget),
        table.previous(widget) == Err::<Option<F>, UiError>(table.failure()),
{
}

} // verus!
