//! The control plane: what the operator knows while it runs, and the
//! directives it hands to the scheduler of reconciliations.

pub mod finalizer;
pub mod laws;
pub mod reconcile;
pub mod state;
pub mod synthesizer;
pub mod upsert;

use crate::controller::state::State;
use crate::crd::{ForwardedService, ForwardedServiceView, API_VERSION, KIND};
use crate::error::{Error, ErrorView, KubeError};
use crate::meta::{clone_text, ObjectReference, ObjectReferenceView};
use vstd::prelude::*;
use vstd::string::*;

verus! {

/// The name under which the operator reports events.
pub const REPORTER: &'static str = "forwardedservice-controller";

/// The delay, in seconds, after which a resource is reconciled again.
pub const REQUEUE_SECONDS: u64 = 300;

/// A point in time: seconds since the Unix epoch in UTC, and the nanoseconds
/// into that second.
#[derive(Clone, Copy, Debug, PartialEq, Eq)]
pub struct Timestamp {
    pub seconds: i64,
    pub nanos: u32,
}

/// The current time, read from `chrono::Utc::now`. Nothing is claimed of the
/// value: it is whatever the system clock says, and the call fails where
/// that clock stands before the Unix epoch.
#[verifier::external_body]
fn utc_now() -> (now: Timestamp) {
    let now = chrono::Utc::now();
    Timestamp { seconds: now.timestamp(), nanos: now.timestamp_subsec_nanos() }
}

/// What the operator reports about itself.
#[derive(Clone, Debug)]
pub struct Diagnostics {
    /// When the last reconciliation started.
    pub last_event: Timestamp,
    /// The name under which events are reported.
    pub reporter: String,
}

/// Who reports events, and about which object.
#[derive(Clone, Debug)]
pub struct Recorder {
    pub reporter: String,
    pub reference: ObjectReference,
}

/// The mathematical view of a `Recorder`.
pub struct RecorderView {
    pub reporter: Seq<char>,
    pub reference: ObjectReferenceView,
}

impl View for Recorder {
    type V = RecorderView;

    open spec fn view(&self) -> RecorderView {
        RecorderView { reporter: self.reporter@, reference: self.reference@ }
    }
}

impl ForwardedServiceView {
    /// The reference by which events point at the resource.
    pub open spec fn object_ref(self) -> ObjectReferenceView {
        ObjectReferenceView {
            api_version: API_VERSION@,
            kind: KIND@,
            name: self.metadata.name,
            namespace: self.metadata.namespace,
            uid: self.metadata.uid,
        }
    }
}

impl Default for Diagnostics {
    /// Diagnostics of an operator that starts now.
    fn default() -> (diagnostics: Diagnostics)
        ensures
            diagnostics.reporter@ == REPORTER@,
    {
        Diagnostics::started_at(utc_now())
    }
}

impl Diagnostics {
    /// Diagnostics of an operator that started at `now`: it reports under
    /// its own name, and its last event is its start.
    pub fn started_at(now: Timestamp) -> (diagnostics: Diagnostics)
        ensures
            diagnostics.last_event == now,
            diagnostics.reporter@ == REPORTER@,
    {
        Diagnostics { last_event: now, reporter: REPORTER.to_owned() }
    }

    /// Notes that a reconciliation started at `now`. Only `last_event`
    /// changes.
    pub fn stamp(&mut self, now: Timestamp)
        ensures
            final(self).last_event == now,
            final(self).reporter == old(self).reporter,
    {
        self.last_event = now;
    }

    /// Notes that a reconciliation starts now. Only `last_event` changes.
    pub fn touch(&mut self)
        ensures
            final(self).reporter == old(self).reporter,
    {
        self.stamp(utc_now());
    }

    /// The recorder of events about `doc`, reported under the name in these
    /// diagnostics.
    pub fn recorder(&self, doc: &ForwardedService) -> (recorder: Recorder)
        ensures
            recorder@ == (RecorderView { reporter: self.reporter@, reference: doc@.object_ref() }),
    {
        Recorder {
            reporter: self.reporter.clone(),
            reference: ObjectReference {
                api_version: API_VERSION.to_owned(),
                kind: KIND.to_owned(),
                name: clone_text(&doc.metadata.name),
                namespace: clone_text(&doc.metadata.namespace),
                uid: clone_text(&doc.metadata.uid),
            },
        }
    }
}

/// What a reconciliation works with: the diagnostics it reports to and the
/// image that forwarder pods run.
#[derive(Clone, Debug)]
pub struct Context {
    pub diagnostics: Diagnostics,
    pub image: String,
}

/// What the scheduler is to do with a resource after a reconciliation.
#[derive(Clone, Copy, Debug, PartialEq, Eq, Structural)]
pub enum Action {
    /// Reconcile again after this many seconds, even if nothing changes.
    Requeue { seconds: u64 },
    /// Reconcile again only when the resource changes.
    AwaitChange,
}

/// The state of an operator that starts now and runs forwarders from
/// `image`.
pub fn new_state(image: String) -> (state: State)
    ensures
        state.image() == image@,
        state.reporter() == REPORTER@,
{
    State::new(image)
}

/// The check that the controller makes before it starts to watch: the
/// definition of the custom resource is installed if one resource could be
/// listed. Where listing failed, the controller is not to start.
pub fn crd_installed(answer: Result<(), KubeError>) -> (installed: Result<(), Error>)
    ensures
        match answer {
            Ok(_) => installed is Ok,
            Err(error) => installed matches Err(failure) && failure@ == (ErrorView::KubeCrd {
                source: error@,
            }),
        },
{
    match answer {
        Ok(_) => Ok(()),
        Err(error) => Err(Error::KubeCrd { source: error }),
    }
}

/// What the scheduler is to do after a failed reconciliation: whatever the
/// error, reconcile again after the fixed delay.
pub fn error_policy(error: &Error) -> (action: Action)
    ensures
        action == (Action::Requeue { seconds: REQUEUE_SECONDS }),
{
    Action::Requeue { seconds: REQUEUE_SECONDS }
}

} // verus!
