//! One reconciliation of a `ForwardedService`: the children are synthesized,
//! the Deployment and after it the Service are created or updated, an event is
//! published, and the scheduler is told when to come back. Each stage holds
//! what the next request needs; the caller makes the request and hands the
//! answer to the stage.

use crate::children::{Deployment, Service};
use crate::controller::upsert::{answer_view, upsert_step, CreateOrUpdate, Phase, Progress, ProgressView};
use crate::controller::{Action, Context, REQUEUE_SECONDS};
use crate::crd::{ForwardedService, ForwardedServiceView};
use crate::error::{Error, ErrorView, KubeError};
use vstd::prelude::*;
use vstd::string::*;

verus! {

/// How severe an event is.
#[derive(Clone, Copy, Debug, PartialEq, Eq, Structural)]
pub enum EventType {
    Normal,
    Warning,
}

/// An event recorded about a resource.
#[derive(Clone, Debug)]
pub struct Event {
    pub type_: EventType,
    pub reason: String,
    pub note: Option<String>,
    pub action: String,
}

/// The mathematical view of an `Event`.
pub struct EventView {
    pub type_: EventType,
    pub reason: Seq<char>,
    pub note: Option<Seq<char>>,
    pub action: Seq<char>,
}

impl View for Event {
    type V = EventView;

    open spec fn view(&self) -> EventView {
        EventView {
            type_: self.type_,
            reason: self.reason@,
            note: self.note.deep_view(),
            action: self.action@,
        }
    }
}

impl ForwardedServiceView {
    /// The event that a reconciliation publishes once both children are in
    /// place.
    pub open spec fn forwarding_event(self) -> EventView {
        EventView {
            type_: EventType::Normal,
            reason: "ForwardingRequest"@,
            note: Some("Forwarding `"@ + self.metadata.name_any() + "`"@),
            action: "Forwarding"@,
        }
    }

    /// The event that is published when the resource is being deleted.
    pub open spec fn delete_event(self) -> EventView {
        EventView {
            type_: EventType::Normal,
            reason: "DeleteRequested"@,
            note: Some("Delete `"@ + self.metadata.name_any() + "`"@),
            action: "Deleting"@,
        }
    }
}

/// The last stage of a pass: an event to publish, and the directive for the
/// scheduler once it is published.
#[derive(Debug)]
pub struct PublishStage {
    pub event: Event,
    pub directive: Action,
}

impl PublishStage {
    /// Ends the pass: with the directive where the event was published,
    /// with the error of the cluster where it was not.
    pub fn finish(self, answer: Result<(), KubeError>) -> (outcome: Result<Action, Error>)
        ensures
            match answer {
                Ok(_) => outcome matches Ok(action) && action == self.directive,
                Err(error) => outcome matches Err(failure) && failure@ == (ErrorView::Kubernetes {
                    source: error@,
                }),
            },
    {
        match answer {
            Ok(_) => Ok(self.directive),
            Err(error) => Err(Error::Kubernetes { source: error }),
        }
    }
}

/// The first stage of a reconciliation: the create-or-update of the
/// Deployment, with the Service waiting for its turn.
#[derive(Debug)]
pub struct DeploymentStage {
    pub service: Service,
    pub machine: CreateOrUpdate<Deployment>,
}

/// The second stage of a reconciliation: the create-or-update of the
/// Service.
#[derive(Debug)]
pub struct ServiceStage {
    pub machine: CreateOrUpdate<Service>,
}

/// How a reconciliation goes on after an answer about the Deployment.
#[derive(Debug)]
pub enum DeploymentStep {
    /// Another request about the Deployment is to be made.
    Continue(DeploymentStage),
    /// The Deployment is in place; the Service is next.
    Next(ServiceStage),
    /// The reconciliation has failed.
    Failed(Error),
}

/// How a reconciliation goes on after an answer about the Service.
#[derive(Debug)]
pub enum ServiceStep {
    /// Another request about the Service is to be made.
    Continue(ServiceStage),
    /// The Service is in place; the event is next.
    Next(PublishStage),
    /// The reconciliation has failed.
    Failed(Error),
}

impl ForwardedService {
    /// The event that a reconciliation publishes once both children are in
    /// place.
    pub fn forwarding_event(&self) -> (event: Event)
        ensures
            event@ == self@.forwarding_event(),
    {
        Event {
            type_: EventType::Normal,
            reason: String::from_str("ForwardingRequest"),
            note: Some(
                String::from_str("Forwarding `").concat(self.name_any().as_str()).concat("`"),
            ),
            action: String::from_str("Forwarding"),
        }
    }

    /// Starts a reconciliation: synthesizes the children and sets out to
    /// create the Deployment.
    pub fn reconcile(&self, ctx: &Context) -> (stage: Result<DeploymentStage, Error>)
        requires
            self@.synthesizable(),
        ensures
            stage matches Ok(first) && first.service@ == self@.service() && first.machine.desired@
                == self@.deployment(ctx.image@) && first.machine.phase == Phase::Create,
    {
        match self.create_service_and_deployment(ctx) {
            Ok((service, pod)) => Ok(DeploymentStage { service, machine: CreateOrUpdate::new(pod) }),
            Err(error) => Err(error),
        }
    }

    /// Takes the reconciliation on from an answer about the Deployment: one
    /// step of its create-or-update. Where that ends well the Service is
    /// next, starting with its create request; where it ends with an error
    /// the reconciliation fails with it.
    pub fn deployment_answered(
        &self,
        stage: DeploymentStage,
        answer: Result<Deployment, KubeError>,
    ) -> (step: DeploymentStep)
        ensures
            match upsert_step::<Deployment>(
                self@,
                stage.machine.desired@,
                stage.machine.phase,
                answer_view(answer),
            ) {
                ProgressView::Continue { desired, phase } => step matches DeploymentStep::Continue(
                    next,
                ) && next.machine.desired@ == desired && next.machine.phase == phase
                    && next.service@ == stage.service@,
                ProgressView::Done(Ok(_)) => step matches DeploymentStep::Next(next)
                    && next.machine.desired@ == stage.service@ && next.machine.phase
                    == Phase::Create,
                ProgressView::Done(Err(error)) => step matches DeploymentStep::Failed(failure)
                    && failure@ == error,
            },
    {
        let DeploymentStage { service, machine } = stage;
        match self.create_or_update(machine, answer) {
            Progress::Continue(machine) => DeploymentStep::Continue(
                DeploymentStage { service, machine },
            ),
            Progress::Done(Ok(_)) => DeploymentStep::Next(
                ServiceStage { machine: CreateOrUpdate::new(service) },
            ),
            Progress::Done(Err(error)) => DeploymentStep::Failed(error),
        }
    }

    /// Takes the reconciliation on from an answer about the Service: one
    /// step of its create-or-update. Where that ends well the forwarding
    /// event is next, to be followed by a requeue after the fixed delay;
    /// where it ends with an error the reconciliation fails with it.
    pub fn service_answered(&self, stage: ServiceStage, answer: Result<Service, KubeError>) -> (step:
        ServiceStep)
        ensures
            match upsert_step::<Service>(
                self@,
                stage.machine.desired@,
                stage.machine.phase,
                answer_view(answer),
            ) {
                ProgressView::Continue { desired, phase } => step matches ServiceStep::Continue(next)
                    && next.machine.desired@ == desired && next.machine.phase == phase,
                ProgressView::Done(Ok(_)) => step matches ServiceStep::Next(next) && next.event@
                    == self@.forwarding_event() && next.directive == (Action::Requeue {
                    seconds: REQUEUE_SECONDS,
                }),
                ProgressView::Done(Err(error)) => step matches ServiceStep::Failed(failure)
                    && failure@ == error,
            },
    {
        let ServiceStage { machine } = stage;
        match self.create_or_update(machine, answer) {
            Progress::Continue(machine) => ServiceStep::Continue(ServiceStage { machine }),
            Progress::Done(Ok(_)) => ServiceStep::Next(
                PublishStage {
                    event: self.forwarding_event(),
                    directive: Action::Requeue { seconds: REQUEUE_SECONDS },
                },
            ),
            Progress::Done(Err(error)) => ServiceStep::Failed(error),
        }
    }

    /// The pass for a resource that is being deleted: nothing is deleted,
    /// an event says that deletion was requested, and the scheduler is told
    /// to wait for the next change.
    pub fn cleanup(&self) -> (stage: PublishStage)
        ensures
            stage.event@ == self@.delete_event(),
            stage.directive == Action::AwaitChange,
    {
        PublishStage {
            event: Event {
                type_: EventType::Normal,
                reason: String::from_str("DeleteRequested"),
                note: Some(
                    String::from_str("Delete `").concat(self.name_any().as_str()).concat("`"),
                ),
                action: String::from_str("Deleting"),
            },
            directive: Action::AwaitChange,
        }
    }
}

} // verus!
