//! What every widget wrapper has in common.
//!
//! A wrapper stands for one native widget and holds nothing but its handle:
//! the address the toolkit knows the widget by. The handle is never followed;
//! it only tells one widget from another. Several wrappers may stand for the
//! same widget at a time.

use vstd::prelude::*;

verus! {

/// The handle that stands for "no widget".
pub const NO_WIDGET: isize = 0;

/// A typed wrapper around the handle of one native widget.
pub trait Control: Sized {
    /// The handle of the widget that this wrapper stands for.
    spec fn identity(&self) -> isize;

    /// The handle, for a call that only reads the widget.
    fn as_ptr(&self) -> (ptr: isize)
        ensures
            ptr == self.identity(),
    {
        self.as_ptr_mut()
    }

    /// The handle, for a call that may change the widget.
    fn as_ptr_mut(&self) -> (ptr: isize)
        ensures
            ptr == self.identity(),
    ;

    /// Wraps a handle. Nothing is checked: that the handle names a live widget
    /// of this kind is for the caller to know.
    fn from_ptr(ptr: isize) -> (control: Self)
        ensures
            control.identity() == ptr,
    ;
}

/// Reads the answer of the toolkit to "which control is the parent": the null
/// handle means that the control is detached.
pub fn parent_from_native<O: Control>(ptr: isize) -> (parent: Option<O>)
    ensures
        ptr == NO_WIDGET ==> parent is None,
        ptr != NO_WIDGET ==> parent is Some && parent->0.identity() == ptr,
{
    if ptr == NO_WIDGET {
        None
    } else {
        Some(O::from_ptr(ptr))
    }
}

/// The handle to give the toolkit as the new parent of a control: the null
/// handle detaches it.
pub fn parent_to_native<P: Control>(parent: Option<&P>) -> (ptr: isize)
    ensures
        match parent {
            None => ptr == NO_WIDGET,
            Some(p) => ptr == p.identity(),
        },
{
    match parent {
        None => NO_WIDGET,
        Some(p) => p.as_ptr_mut(),
    }
}

} // verus!
