//! The failures that the binding reports.

use core::str::Utf8Error;
use vstd::prelude::*;
use vstd::std_specs::convert::FromSpecImpl;
use vstd::string::to_string_from_display_ensures;
use vstd::string::StringExecFns;

verus! {

/// `core::str::Utf8Error`, the reason std gives when bytes are not UTF-8. It
/// is carried through as it is; nothing is claimed of what it holds.
#[verifier::external_type_specification]
#[verifier::external_body]
pub struct ExUtf8Error(Utf8Error);

/// A failure of the binding.
#[derive(Debug)]
pub enum UiError {
    /// The toolkit could not be set up; the text is the toolkit's own report.
    Init(String),
    /// A callback table was found poisoned; the text says why.
    Poison(String),
    /// Bytes handed over by the toolkit are not valid text.
    Utf8(Utf8Error),
}

impl UiError {
    /// What every message starts with.
    pub open spec fn prefix() -> Seq<char> {
        "UiError: "@
    }

    /// What follows the prefix when the toolkit could not be set up.
    pub open spec fn init_label() -> Seq<char> {
        "InitError: "@
    }

    /// Whether `text` is the message of this failure.
    pub open spec fn has_message(&self, text: Seq<char>) -> bool {
        match self {
            UiError::Init(e) => text == Self::prefix() + Self::init_label() + e@,
            UiError::Poison(e) => text == Self::prefix() + e@,
            UiError::Utf8(e) => exists|shown: String| #[trigger]
                to_string_from_display_ensures::<Utf8Error>(e, shown) && text == Self::prefix()
                    + shown@,
        }
    }

    /// The message of this failure, as it is shown to a user.
    pub fn message(&self) -> (text: String)
        ensures
            self.has_message(text@),
    {
        let mut text = String::from_str("UiError: ");
        match self {
            UiError::Init(e) => {
                text.append("InitError: ");
                text.append(e.as_str());
            },
            UiError::Poison(e) => {
                text.append(e.as_str());
            },
            UiError::Utf8(e) => {
                let shown = e.to_string();
                text.append(shown.as_str());
            },
        }
        text
    }
}

impl From<Utf8Error> for UiError {
    fn from(value: Utf8Error) -> (e: Self) {
        UiError::Utf8(value)
    }
}

impl FromSpecImpl<Utf8Error> for UiError {
    open spec fn obeys_from_spec() -> bool {
        true
    }

    open spec fn from_spec(value: Utf8Error) -> Self {
        UiError::Utf8(value)
    }
}

} // verus!
