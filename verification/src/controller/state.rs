//! The state that the operator keeps across reconciliations.

use crate::controller::{Context, Diagnostics, REPORTER};
use vstd::prelude::*;
use vstd::string::*;

verus! {

/// The state of the operator: its diagnostics and the image that forwarder
/// pods run.
#[derive(Clone, Debug)]
pub struct State {
    diagnostics: Diagnostics,
    image: String,
}

impl State {
    /// The image that forwarder pods run.
    pub closed spec fn image(&self) -> Seq<char> {
        self.image@
    }

    /// The name under which the operator reports events.
    pub closed spec fn reporter(&self) -> Seq<char> {
        self.diagnostics.reporter@
    }

    /// The state of an operator that starts now and runs forwarders from
    /// `image`.
    pub fn new(image: String) -> (state: State)
        ensures
            state.image() == image@,
            state.reporter() == REPORTER@,
    {
        State::with_diagnostics(Diagnostics::default(), image)
    }

    /// The state of an operator with these diagnostics that runs forwarders
    /// from `image`.
    pub fn with_diagnostics(diagnostics: Diagnostics, image: String) -> (state: State)
        ensures
            state.image() == image@,
            state.reporter() == diagnostics.reporter@,
            state.last_event() == diagnostics.last_event,
    {
        State { diagnostics, image }
    }

    /// The context of a reconciliation in this state.
    pub fn to_context(&self) -> (context: Context)
        ensures
            context.image@ == self.image(),
            context.diagnostics.reporter@ == self.reporter(),
            context.diagnostics.last_event == self.last_event(),
    {
        Context {
            diagnostics: Diagnostics {
                last_event: self.diagnostics.last_event,
                reporter: self.diagnostics.reporter.clone(),
            },
            image: self.image.clone(),
        }
    }

    /// When the last reconciliation started.
    pub closed spec fn last_event(&self) -> crate::controller::Timestamp {
        self.diagnostics.last_event
    }
}

} // verus!
