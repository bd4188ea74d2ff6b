//! The application: the identity under which the panel registers itself
//! with the desktop.

use vstd::prelude::*;

verus! {

/// The application.
#[derive(Debug, PartialEq, Eq)]
pub struct BetterControlApp {
    pub application_id: String,
}

impl BetterControlApp {
    /// The application, under its id.
    pub fn new() -> (app: BetterControlApp)
        ensures
            app.application_id@ == "rs.better.control"@,
    {
        BetterControlApp { application_id: "rs.better.control".to_owned() }
    }
}

} // verus!
