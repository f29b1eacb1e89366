//! The core of a binding to a native widget toolkit.
//!
//! The toolkit owns rendering, layout and the event loop, and is reached through
//! its foreign interface by the caller of this library. What lives here is
//! everything the binding decides by itself:
//!
//! * which closure answers which event of which widget ([`callback`]), the
//!   heart of the library;
//! * what a widget is on this side of the boundary: a typed wrapper around a
//!   handle ([`control`], and one module for each kind of widget);
//! * how text and flags cross the boundary ([`text`], [`flag`]);
//! * how failures are reported ([`error`]).
//!
//! Nothing here calls the toolkit. A method that changes what the toolkit has
//! to know hands back a [`SlotUpdate`] that says so, and the caller makes the
//! call.

pub mod boxes;
pub mod button;
pub mod callback;
pub mod check_box;
pub mod combo_box;
pub mod control;
pub mod date_time_picker;
pub mod editable_combo_box;
pub mod entry;
pub mod error;
pub mod flag;
pub mod group;
pub mod label;
pub mod menu;
pub mod progress_bar;
pub mod radio_buttons;
pub mod separator;
pub mod slider;
pub mod spin_box;
pub mod tab;
pub mod text;
pub mod window;

pub use boxes::Box;
pub use button::Button;
pub use callback::{CallbackTable, EventKind, SlotUpdate, TableState};
pub use check_box::CheckBox;
pub use combo_box::ComboBox;
pub use control::{parent_from_native, parent_to_native, Control, NO_WIDGET};
pub use date_time_picker::DateTimePicker;
pub use editable_combo_box::EditableCombobox;
pub use entry::Entry;
pub use error::UiError;
pub use flag::{flag_from_native, flag_to_native};
pub use group::Group;
pub use label::Label;
pub use menu::{Menu, MenuItem};
pub use progress_bar::ProgressBar;
pub use radio_buttons::RadioButtons;
pub use separator::Separator;
pub use slider::Slider;
pub use spin_box::Spinbox;
pub use tab::Tab;
pub use text::{text_from_native, text_to_native, NulError};
pub use window::Window;

use vstd::prelude::*;

verus! {

/// What setting the toolkit up came to. The toolkit reports success by
/// handing over nothing, and failure by handing over a text that says what
/// went wrong; `report` holds the bytes of that text, without the closing zero
/// byte.
///
/// A failure is returned as [`UiError::Init`] with the toolkit's text, or as
/// [`UiError::Utf8`] where that text cannot be read.
pub fn init_outcome(report: Option<&[u8]>) -> (r: Result<(), UiError>)
    ensures
        match report {
            None => r is Ok,
            Some(bytes) => match text::incoming(bytes@) {
                Some(said) => r matches Err(UiError::Init(msg)) && msg@ == said,
                None => r matches Err(UiError::Utf8(_)),
            },
        },
{
    match report {
        None => Ok(()),
        Some(bytes) => match text_from_native(bytes) {
            Ok(msg) => Err(UiError::Init(msg)),
            Err(e) => Err(UiError::from(e)),
        },
    }
}

} // verus!
