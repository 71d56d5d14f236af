//! The finalizer protocol around a reconciliation. A resource is applied
//! only while it carries the operator's finalizer; a resource that is being
//! deleted is cleaned up before the finalizer is taken off again, so that
//! the cluster does not delete it earlier.

use crate::controller::{Action, Context, Timestamp};
use crate::crd::{ForwardedService, ForwardedServiceView, FORWARDED_SERVICE_FINALIZER};
use crate::error::{Error, ErrorView, FinalizerError, FinalizerErrorView, KubeError};
use crate::meta::{clone_texts, ObjectMeta, ObjectMetaView};
use crate::text::{decimal, u64_to_string};
use vstd::prelude::*;
use vstd::string::*;

verus! {

/// Where `name` first stands in `list`, if it stands there at all.
pub open spec fn first_index_of(list: Seq<Seq<char>>, name: Seq<char>) -> Option<int>
    decreases list.len(),
{
    if list.len() == 0 {
        None
    } else if list[0] == name {
        Some(0)
    } else {
        match first_index_of(list.drop_first(), name) {
            Some(i) => Some(i + 1),
            None => None,
        }
    }
}

/// `first_index_of` gives an index that holds `name` and has no `name`
/// before it, and gives none only where `name` is absent.
pub proof fn lemma_first_index_of(list: Seq<Seq<char>>, name: Seq<char>)
    ensures
        match first_index_of(list, name) {
            Some(i) => 0 <= i < list.len() && list[i] == name && forall|j: int|
                0 <= j < i ==> list[j] != name,
            None => forall|j: int| 0 <= j < list.len() ==> list[j] != name,
        },
    decreases list.len(),
{
    if list.len() > 0 && list[0] != name {
        let rest = list.drop_first();
        lemma_first_index_of(rest, name);
        match first_index_of(rest, name) {
            Some(i) => {
                assert forall|j: int| 0 <= j < i + 1 implies list[j] != name by {
                    if j > 0 {
                        assert(rest[j - 1] == list[j]);
                    }
                }
            },
            None => {
                assert forall|j: int| 0 <= j < list.len() implies list[j] != name by {
                    if j > 0 {
                        assert(rest[j - 1] == list[j]);
                    }
                }
            },
        }
    }
}

/// An index that holds `name` with no `name` before it is the first index
/// of `name`.
pub proof fn lemma_first_index_is(list: Seq<Seq<char>>, name: Seq<char>, i: int)
    requires
        0 <= i < list.len(),
        list[i] == name,
        forall|j: int| 0 <= j < i ==> list[j] != name,
    ensures
        first_index_of(list, name) == Some(i),
{
    lemma_first_index_of(list, name);
}

/// What the finalizer protocol sees of a resource: where the finalizer
/// stands among its finalizers, and whether its deletion was requested.
#[derive(Clone, Copy, Debug, PartialEq, Eq)]
pub struct FinalizerState {
    pub finalizer_index: Option<usize>,
    pub is_deleting: bool,
}

/// The place of the finalizers in an object, as patches address it.
pub const FINALIZERS_PATH: &'static str = "/metadata/finalizers";

/// A value that a patch tests for or adds.
#[derive(Clone, Debug, PartialEq, Eq)]
pub enum PatchValue {
    /// Nothing is there.
    Null,
    /// One text.
    Text(String),
    /// A list of texts.
    List(Vec<String>),
}

/// One operation of a patch. A patch is made as a whole or not at all: when
/// a test fails, nothing is changed.
#[derive(Clone, Debug, PartialEq, Eq)]
pub enum PatchOperation {
    /// Go on only if `value` stands at `path`.
    Test { path: String, value: PatchValue },
    /// Put `value` at `path`; a path that ends in `/-` is the end of a
    /// list.
    Add { path: String, value: PatchValue },
    /// Take away what stands at `path`.
    Remove { path: String },
}

/// The mathematical view of a `PatchValue`.
pub enum PatchValueView {
    Null,
    Text(Seq<char>),
    List(Seq<Seq<char>>),
}

/// The mathematical view of a `PatchOperation`.
pub enum PatchOperationView {
    Test { path: Seq<char>, value: PatchValueView },
    Add { path: Seq<char>, value: PatchValueView },
    Remove { path: Seq<char> },
}

impl View for PatchValue {
    type V = PatchValueView;

    open spec fn view(&self) -> PatchValueView {
        match self {
            PatchValue::Null => PatchValueView::Null,
            PatchValue::Text(text) => PatchValueView::Text(text@),
            PatchValue::List(texts) => PatchValueView::List(texts.deep_view()),
        }
    }
}

impl View for PatchOperation {
    type V = PatchOperationView;

    open spec fn view(&self) -> PatchOperationView {
        match self {
            PatchOperation::Test { path, value } => PatchOperationView::Test {
                path: path@,
                value: value@,
            },
            PatchOperation::Add { path, value } => PatchOperationView::Add {
                path: path@,
                value: value@,
            },
            PatchOperation::Remove { path } => PatchOperationView::Remove { path: path@ },
        }
    }
}

/// The patch that attaches `finalizer` to an object seen with `finalizers`.
/// Where the object was seen without any, the patch goes through only if it
/// still has none, and sets the list; else it goes through only if the
/// object still has exactly those it was seen with, and adds to their end.
pub open spec fn attach_patch(finalizers: Seq<Seq<char>>, finalizer: Seq<char>) -> Seq<
    PatchOperationView,
> {
    if finalizers.len() == 0 {
        seq![
            PatchOperationView::Test { path: FINALIZERS_PATH@, value: PatchValueView::Null },
            PatchOperationView::Add {
                path: FINALIZERS_PATH@,
                value: PatchValueView::List(seq![finalizer]),
            },
        ]
    } else {
        seq![
            PatchOperationView::Test {
                path: FINALIZERS_PATH@,
                value: PatchValueView::List(finalizers),
            },
            PatchOperationView::Add {
                path: FINALIZERS_PATH@ + "/-"@,
                value: PatchValueView::Text(finalizer),
            },
        ]
    }
}

/// The patch that takes `finalizer` off where it was seen, at `index`: it
/// goes through only if `finalizer` still stands there.
pub open spec fn detach_patch(index: int, finalizer: Seq<char>) -> Seq<PatchOperationView> {
    let path = FINALIZERS_PATH@ + "/"@ + decimal(index);
    seq![
        PatchOperationView::Test { path, value: PatchValueView::Text(finalizer) },
        PatchOperationView::Remove { path },
    ]
}

/// What the finalizer protocol does with a resource.
#[derive(Clone, Debug, PartialEq, Eq)]
pub enum FinalizerStep {
    /// Attach the finalizer to the resource called `name` by making
    /// `patch`, and wait for the change to come back.
    AddFinalizer { name: String, patch: Vec<PatchOperation> },
    /// Run a reconciliation.
    Apply,
    /// Run the cleanup. Once it has succeeded, take the finalizer off the
    /// resource called `name` by making `patch`.
    Cleanup { name: String, patch: Vec<PatchOperation> },
    /// Neither: the resource is being deleted and carries no finalizer.
    Nothing,
}

/// The mathematical view of a `FinalizerStep`.
pub enum FinalizerStepView {
    AddFinalizer { name: Seq<char>, patch: Seq<PatchOperationView> },
    Apply,
    Cleanup { name: Seq<char>, patch: Seq<PatchOperationView> },
    Nothing,
}

impl View for FinalizerStep {
    type V = FinalizerStepView;

    open spec fn view(&self) -> FinalizerStepView {
        match self {
            FinalizerStep::AddFinalizer { name, patch } => FinalizerStepView::AddFinalizer {
                name: name@,
                patch: patch@.map_values(|operation: PatchOperation| operation@),
            },
            FinalizerStep::Apply => FinalizerStepView::Apply,
            FinalizerStep::Cleanup { name, patch } => FinalizerStepView::Cleanup {
                name: name@,
                patch: patch@.map_values(|operation: PatchOperation| operation@),
            },
            FinalizerStep::Nothing => FinalizerStepView::Nothing,
        }
    }
}

impl ObjectMetaView {
    /// What the finalizer protocol does with a resource of this metadata:
    /// it is applied while it carries the finalizer and is not being
    /// deleted; it is cleaned up, and the finalizer then taken off where it
    /// first stands, once deletion is requested; the finalizer is attached
    /// where it is missing; and nothing is done for a resource in deletion
    /// that no longer carries it. A resource without a name can neither get
    /// nor lose a finalizer.
    pub open spec fn finalizer_step(self, finalizer: Seq<char>) -> Result<
        FinalizerStepView,
        FinalizerErrorView,
    > {
        match first_index_of(self.finalizers, finalizer) {
            Some(index) => if !self.deletion_requested {
                Ok(FinalizerStepView::Apply)
            } else {
                match self.name {
                    Some(name) => Ok(
                        FinalizerStepView::Cleanup { name, patch: detach_patch(index, finalizer) },
                    ),
                    None => Err(FinalizerErrorView::UnnamedObject),
                }
            },
            None => if self.deletion_requested {
                Ok(FinalizerStepView::Nothing)
            } else {
                match self.name {
                    Some(name) => Ok(
                        FinalizerStepView::AddFinalizer {
                            name,
                            patch: attach_patch(self.finalizers, finalizer),
                        },
                    ),
                    None => Err(FinalizerErrorView::UnnamedObject),
                }
            },
        }
    }

    /// This metadata with `finalizer` attached behind the others.
    pub open spec fn with_finalizer(self, finalizer: Seq<char>) -> ObjectMetaView {
        ObjectMetaView { finalizers: self.finalizers.push(finalizer), ..self }
    }

    /// This metadata with the finalizer at `index` taken off.
    pub open spec fn without_finalizer(self, index: int) -> ObjectMetaView {
        ObjectMetaView { finalizers: self.finalizers.remove(index), ..self }
    }
}

fn attach(finalizers: &Vec<String>, finalizer: &str) -> (patch: Vec<PatchOperation>)
    ensures
        patch@.map_values(|operation: PatchOperation| operation@) == attach_patch(
            finalizers.deep_view(),
            finalizer@,
        ),
{
    let mut patch: Vec<PatchOperation> = Vec::new();
    if finalizers.len() == 0 {
        let mut list: Vec<String> = Vec::new();
        list.push(finalizer.to_owned());
        assert(list.deep_view() =~= seq![finalizer@]);
        patch.push(
            PatchOperation::Test { path: FINALIZERS_PATH.to_owned(), value: PatchValue::Null },
        );
        patch.push(
            PatchOperation::Add { path: FINALIZERS_PATH.to_owned(), value: PatchValue::List(list) },
        );
    } else {
        patch.push(
            PatchOperation::Test {
                path: FINALIZERS_PATH.to_owned(),
                value: PatchValue::List(clone_texts(finalizers)),
            },
        );
        patch.push(
            PatchOperation::Add {
                path: String::from_str(FINALIZERS_PATH).concat("/-"),
                value: PatchValue::Text(finalizer.to_owned()),
            },
        );
    }
    assert(patch@.map_values(|operation: PatchOperation| operation@) =~= attach_patch(
        finalizers.deep_view(),
        finalizer@,
    ));
    patch
}

fn detach(index: usize, finalizer: &str) -> (patch: Vec<PatchOperation>)
    ensures
        patch@.map_values(|operation: PatchOperation| operation@) == detach_patch(
            index as int,
            finalizer@,
        ),
{
    let place: String = u64_to_string(index as u64);
    let path: String = String::from_str(FINALIZERS_PATH).concat("/").concat(place.as_str());
    let mut patch: Vec<PatchOperation> = Vec::new();
    patch.push(
        PatchOperation::Test { path: path.clone(), value: PatchValue::Text(finalizer.to_owned()) },
    );
    patch.push(PatchOperation::Remove { path });
    assert(patch@.map_values(|operation: PatchOperation| operation@) =~= detach_patch(
        index as int,
        finalizer@,
    ));
    patch
}

/// Where `name` first stands in `list`, if it stands there at all.
fn find_first(list: &Vec<String>, name: &str) -> (at: Option<usize>)
    ensures
        first_index_of(list.deep_view(), name@) == match at {
            Some(i) => Some(i as int),
            None => None,
        },
{
    let needle: String = name.to_owned();
    let mut i: usize = 0;
    while i < list.len()
        invariant
            i <= list@.len(),
            needle@ == name@,
            forall|j: int| 0 <= j < i ==> list.deep_view()[j] != name@,
        decreases list@.len() - i,
    {
        assert(list.deep_view()[i as int] == list@[i as int]@);
        if list[i] == needle {
            proof {
                lemma_first_index_is(list.deep_view(), name@, i as int);
            }
            return Some(i);
        }
        i = i + 1;
    }
    proof {
        lemma_first_index_of(list.deep_view(), name@);
    }
    None
}

impl FinalizerState {
    /// What the finalizer protocol sees of an object with `metadata`.
    pub fn for_object(metadata: &ObjectMeta, finalizer_name: &str) -> (state: FinalizerState)
        ensures
            state.is_deleting == metadata@.deletion_requested,
            first_index_of(metadata@.finalizers, finalizer_name@) == match state.finalizer_index {
                Some(i) => Some(i as int),
                None => None,
            },
    {
        FinalizerState {
            finalizer_index: find_first(&metadata.finalizers, finalizer_name),
            is_deleting: metadata.deletion_requested,
        }
    }
}

impl ForwardedServiceView {
    /// What the finalizer protocol does with the resource.
    pub open spec fn finalizer_step(self) -> Result<FinalizerStepView, FinalizerErrorView> {
        self.metadata.finalizer_step(FORWARDED_SERVICE_FINALIZER@)
    }
}

/// The error of a pass that failed within the finalizer protocol.
pub open spec fn finalizer_failure(error: FinalizerErrorView) -> ErrorView {
    ErrorView::FinalizerError(Box::new(error))
}

/// Whether `step` is what the finalizer protocol does according to
/// `planned`: the step planned, or the error planned as a failure of the
/// protocol.
pub open spec fn follows(
    step: Result<FinalizerStep, Error>,
    planned: Result<FinalizerStepView, FinalizerErrorView>,
) -> bool {
    match planned {
        Ok(planned) => step matches Ok(taken) && taken@ == planned,
        Err(error) => step matches Err(failure) && failure@ == finalizer_failure(error),
    }
}

fn wrap(error: FinalizerError) -> (wrapped: Error)
    ensures
        wrapped@ == finalizer_failure(error@),
{
    Error::FinalizerError(Box::new(error))
}

impl ForwardedService {
    /// What the finalizer protocol does with this resource: attach the
    /// finalizer where it is missing, apply the resource while it carries
    /// the finalizer, clean up once deletion is requested, and nothing when
    /// a resource in deletion no longer carries it.
    pub fn finalizer_step(&self) -> (step: Result<FinalizerStep, Error>)
        ensures
            follows(step, self@.finalizer_step()),
    {
        let state: FinalizerState = FinalizerState::for_object(
            &self.metadata,
            FORWARDED_SERVICE_FINALIZER,
        );
        match state.finalizer_index {
            Some(finalizer_index) => {
                if !state.is_deleting {
                    Ok(FinalizerStep::Apply)
                } else {
                    match &self.metadata.name {
                        Some(name) => {
                            let step = FinalizerStep::Cleanup {
                                name: name.clone(),
                                patch: detach(finalizer_index, FORWARDED_SERVICE_FINALIZER),
                            };
                            assert(step@->Cleanup_patch =~= detach_patch(
                                finalizer_index as int,
                                FORWARDED_SERVICE_FINALIZER@,
                            ));
                            Ok(step)
                        },
                        None => Err(wrap(FinalizerError::UnnamedObject)),
                    }
                }
            },
            None => {
                if state.is_deleting {
                    Ok(FinalizerStep::Nothing)
                } else {
                    match &self.metadata.name {
                        Some(name) => {
                            let step = FinalizerStep::AddFinalizer {
                                name: name.clone(),
                                patch: attach(&self.metadata.finalizers, FORWARDED_SERVICE_FINALIZER),
                            };
                            assert(step@->AddFinalizer_patch =~= attach_patch(
                                self@.metadata.finalizers,
                                FORWARDED_SERVICE_FINALIZER@,
                            ));
                            Ok(step)
                        },
                        None => Err(wrap(FinalizerError::UnnamedObject)),
                    }
                }
            },
        }
    }
}

/// Starts a pass over `svc` at the time `now`: notes the time in the
/// diagnostics of `ctx` and decides by the finalizer protocol what the pass
/// does.
pub fn reconcile_at(svc: &ForwardedService, ctx: &mut Context, now: Timestamp) -> (step: Result<
    FinalizerStep,
    Error,
>)
    ensures
        final(ctx).image == old(ctx).image,
        final(ctx).diagnostics.reporter == old(ctx).diagnostics.reporter,
        final(ctx).diagnostics.last_event == now,
        follows(step, svc@.finalizer_step()),
{
    ctx.diagnostics.stamp(now);
    svc.finalizer_step()
}

/// Starts a pass over `svc` now: notes the time in the diagnostics of `ctx`
/// and decides by the finalizer protocol what the pass does.
pub fn reconcile(svc: &ForwardedService, ctx: &mut Context) -> (step: Result<FinalizerStep, Error>)
    ensures
        final(ctx).image == old(ctx).image,
        final(ctx).diagnostics.reporter == old(ctx).diagnostics.reporter,
        follows(step, svc@.finalizer_step()),
{
    ctx.diagnostics.touch();
    svc.finalizer_step()
}

/// The outcome of a pass that applied the resource: the directive of the
/// reconciliation, or its error marked as a failure to apply.
pub fn applied(outcome: Result<Action, Error>) -> (result: Result<Action, Error>)
    ensures
        match outcome {
            Ok(action) => result == Ok::<Action, Error>(action),
            Err(error) => result matches Err(failure) && failure@ == finalizer_failure(
                FinalizerErrorView::ApplyFailed(error@),
            ),
        },
{
    match outcome {
        Ok(action) => Ok(action),
        Err(error) => Err(wrap(FinalizerError::ApplyFailed(error))),
    }
}

/// What follows the cleanup of a resource: where it succeeded, the
/// directive to hold back until the finalizer is taken off; where it failed,
/// its error marked as a failure to clean up, and the finalizer stays.
pub fn cleaned_up(outcome: Result<Action, Error>) -> (result: Result<Action, Error>)
    ensures
        match outcome {
            Ok(action) => result == Ok::<Action, Error>(action),
            Err(error) => result matches Err(failure) && failure@ == finalizer_failure(
                FinalizerErrorView::CleanupFailed(error@),
            ),
        },
{
    match outcome {
        Ok(action) => Ok(action),
        Err(error) => Err(wrap(FinalizerError::CleanupFailed(error))),
    }
}

/// The outcome of a pass that cleaned up and then asked the cluster to take
/// the finalizer off: the directive of the cleanup, or the error of the
/// cluster marked as a failure to remove the finalizer.
pub fn finalizer_removed(action: Action, answer: Result<(), KubeError>) -> (result: Result<
    Action,
    Error,
>)
    ensures
        match answer {
            Ok(_) => result == Ok::<Action, Error>(action),
            Err(error) => result matches Err(failure) && failure@ == finalizer_failure(
                FinalizerErrorView::RemoveFinalizer(error@),
            ),
        },
{
    match answer {
        Ok(_) => Ok(action),
        Err(error) => Err(wrap(FinalizerError::RemoveFinalizer(error))),
    }
}

/// The outcome of a pass that asked the cluster to attach the finalizer:
/// wait for the change to come back, or the error of the cluster marked as
/// a failure to add the finalizer.
pub fn finalizer_added(answer: Result<(), KubeError>) -> (result: Result<Action, Error>)
    ensures
        match answer {
            Ok(_) => result == Ok::<Action, Error>(Action::AwaitChange),
            Err(error) => result matches Err(failure) && failure@ == finalizer_failure(
                FinalizerErrorView::AddFinalizer(error@),
            ),
        },
{
    match answer {
        Ok(_) => Ok(Action::AwaitChange),
        Err(error) => Err(wrap(FinalizerError::AddFinalizer(error))),
    }
}

} // verus!
