//! What all pages have in common.

use vstd::prelude::*;

verus! {

/// A page of the panel: it has a widget to display and can be asked to
/// bring it up to date.
pub trait Page: Sized {
    /// What the page's widget is.
    type Widget;

    /// The widget that displays the page.
    fn get_widget(&self) -> &Self::Widget;

    /// Brings the page up to date. Unless a page says otherwise, there is
    /// nothing to do.
    fn refresh(&mut self)
        default_ensures
            *final(self) == *old(self),
    {
    }
}

} // verus!
