//! Extension points that features implement.

use vstd::prelude::*;
use std::marker::PhantomData;

verus! {

/// A message built from the arguments a UI callback hands over.
pub trait FromMessage<Args>: Sized {
    fn from_msg(args: Args) -> Self;
}

/// A port built from the window it serves.
pub trait FromWindow<TWindow>: Sized {
    fn from_window(ui: &TWindow) -> Self;
}

/// Marks a feature component's event subscriptions `T`, to which route
/// activation and deactivation are added.
pub struct Events<T>(PhantomData<T>);

} // verus!
