//! The errors of the operator and the messages they are reported with.

use crate::text::{decimal, i64_to_string};
use vstd::prelude::*;
use vstd::string::*;

verus! {

/// The HTTP status with which the cluster answers a create request for an
/// object that already exists.
pub const CONFLICT: u16 = 409;

/// A failed request to the cluster: the status code of the answer, where the
/// cluster gave one, and the text of the failure.
#[derive(Clone, Debug)]
pub struct KubeError {
    pub code: Option<u16>,
    pub message: String,
}

/// The mathematical view of a `KubeError`.
pub struct KubeErrorView {
    pub code: Option<u16>,
    pub message: Seq<char>,
}

impl View for KubeError {
    type V = KubeErrorView;

    open spec fn view(&self) -> KubeErrorView {
        KubeErrorView { code: self.code, message: self.message@ }
    }
}

impl KubeErrorView {
    /// Whether the cluster answered that the object already exists.
    pub open spec fn is_conflict(self) -> bool {
        self.code == Some(CONFLICT)
    }
}

impl KubeError {
    /// Whether the cluster answered that the object already exists.
    pub fn is_conflict(&self) -> (conflict: bool)
        ensures
            conflict == self@.is_conflict(),
    {
        match self.code {
            Some(code) => code == CONFLICT,
            None => false,
        }
    }
}

/// What can go wrong in the operator.
#[derive(Debug)]
pub enum Error {
    /// The kubeconfig for the target cluster is invalid.
    KubeConfig { source: String },
    /// No client for the cluster could be made.
    KubeClient { source: KubeError },
    /// The custom resource definition could not be queried.
    KubeCrd { source: KubeError },
    /// A request to the cluster failed.
    Kubernetes { source: KubeError },
    /// No forwarding session could be established within the given number of
    /// attempts.
    MaxAttempts(i32),
    /// The diagnostics server failed.
    Server(String),
    /// The finalizer protocol failed.
    FinalizerError(Box<FinalizerError>),
    /// A service cannot be forwarded.
    InvalidService { name: String, message: String },
}

/// What can go wrong in the finalizer protocol.
#[derive(Debug)]
pub enum FinalizerError {
    /// Applying the resource failed.
    ApplyFailed(Error),
    /// Cleaning up after the resource failed.
    CleanupFailed(Error),
    /// The finalizer could not be attached.
    AddFinalizer(KubeError),
    /// The finalizer could not be removed.
    RemoveFinalizer(KubeError),
    /// The resource has no name.
    UnnamedObject,
}

/// The mathematical view of an `Error`.
pub enum ErrorView {
    KubeConfig { source: Seq<char> },
    KubeClient { source: KubeErrorView },
    KubeCrd { source: KubeErrorView },
    Kubernetes { source: KubeErrorView },
    MaxAttempts(i32),
    Server(Seq<char>),
    FinalizerError(Box<FinalizerErrorView>),
    InvalidService { name: Seq<char>, message: Seq<char> },
}

/// The mathematical view of a `FinalizerError`.
pub enum FinalizerErrorView {
    ApplyFailed(ErrorView),
    CleanupFailed(ErrorView),
    AddFinalizer(KubeErrorView),
    RemoveFinalizer(KubeErrorView),
    UnnamedObject,
}

impl View for Error {
    type V = ErrorView;

    open spec fn view(&self) -> ErrorView
        decreases self,
    {
        match self {
            Error::KubeConfig { source } => ErrorView::KubeConfig { source: source@ },
            Error::KubeClient { source } => ErrorView::KubeClient { source: source@ },
            Error::KubeCrd { source } => ErrorView::KubeCrd { source: source@ },
            Error::Kubernetes { source } => ErrorView::Kubernetes { source: source@ },
            Error::MaxAttempts(attempts) => ErrorView::MaxAttempts(*attempts),
            Error::Server(text) => ErrorView::Server(text@),
            Error::FinalizerError(inner) => ErrorView::FinalizerError(Box::new((**inner)@)),
            Error::InvalidService { name, message } => ErrorView::InvalidService {
                name: name@,
                message: message@,
            },
        }
    }
}

impl View for FinalizerError {
    type V = FinalizerErrorView;

    open spec fn view(&self) -> FinalizerErrorView
        decreases self,
    {
        match self {
            FinalizerError::ApplyFailed(inner) => FinalizerErrorView::ApplyFailed(inner@),
            FinalizerError::CleanupFailed(inner) => FinalizerErrorView::CleanupFailed(inner@),
            FinalizerError::AddFinalizer(source) => FinalizerErrorView::AddFinalizer(source@),
            FinalizerError::RemoveFinalizer(source) => FinalizerErrorView::RemoveFinalizer(
                source@,
            ),
            FinalizerError::UnnamedObject => FinalizerErrorView::UnnamedObject,
        }
    }
}

impl ErrorView {
    /// The message that the error is reported with.
    pub open spec fn message(self) -> Seq<char>
        decreases self,
    {
        match self {
            ErrorView::KubeConfig { source } => "invalid kubernetes configuration: "@ + source,
            ErrorView::KubeClient { source } => "unable to create kubernetes client: "@
                + source.message,
            ErrorView::KubeCrd { source } => "unable to query kubernetes crd: "@ + source.message,
            ErrorView::Kubernetes { source } => "kubernetes error: "@ + source.message,
            ErrorView::MaxAttempts(attempts) => "failed to establish port forward after "@
                + decimal(attempts as int) + " attempts"@,
            ErrorView::Server(text) => "server error: "@ + text,
            ErrorView::FinalizerError(inner) => "finalizer error: "@ + inner.message(),
            ErrorView::InvalidService { name, message } => "service `"@ + name + "` error: "@
                + message,
        }
    }
}

impl FinalizerErrorView {
    /// The message that the error is reported with.
    pub open spec fn message(self) -> Seq<char>
        decreases self,
    {
        match self {
            FinalizerErrorView::ApplyFailed(inner) => "failed to apply object: "@
                + inner.message(),
            FinalizerErrorView::CleanupFailed(inner) => "failed to clean up object: "@
                + inner.message(),
            FinalizerErrorView::AddFinalizer(source) => "failed to add finalizer: "@
                + source.message,
            FinalizerErrorView::RemoveFinalizer(source) => "failed to remove finalizer: "@
                + source.message,
            FinalizerErrorView::UnnamedObject => "object has no name"@,
        }
    }
}

impl Error {
    /// The message that the error is reported with.
    pub fn message(&self) -> (text: String)
        ensures
            text@ == self@.message(),
        decreases self,
    {
        match self {
            Error::KubeConfig { source } => String::from_str(
                "invalid kubernetes configuration: ",
            ).concat(source.as_str()),
            Error::KubeClient { source } => String::from_str(
                "unable to create kubernetes client: ",
            ).concat(source.message.as_str()),
            Error::KubeCrd { source } => String::from_str("unable to query kubernetes crd: ").concat(
                source.message.as_str(),
            ),
            Error::Kubernetes { source } => String::from_str("kubernetes error: ").concat(
                source.message.as_str(),
            ),
            Error::MaxAttempts(attempts) => {
                let count: i64 = *attempts as i64;
                String::from_str("failed to establish port forward after ").concat(
                    i64_to_string(count).as_str(),
                ).concat(" attempts")
            },
            Error::Server(text) => String::from_str("server error: ").concat(text.as_str()),
            Error::FinalizerError(inner) => String::from_str("finalizer error: ").concat(
                inner.message().as_str(),
            ),
            Error::InvalidService { name, message } => String::from_str("service `").concat(
                name.as_str(),
            ).concat("` error: ").concat(message.as_str()),
        }
    }
}

impl FinalizerError {
    /// The message that the error is reported with.
    pub fn message(&self) -> (text: String)
        ensures
            text@ == self@.message(),
        decreases self,
    {
        match self {
            FinalizerError::ApplyFailed(inner) => String::from_str(
                "failed to apply object: ",
            ).concat(inner.message().as_str()),
            FinalizerError::CleanupFailed(inner) => String::from_str(
                "failed to clean up object: ",
            ).concat(inner.message().as_str()),
            FinalizerError::AddFinalizer(source) => String::from_str(
                "failed to add finalizer: ",
            ).concat(source.message.as_str()),
            FinalizerError::RemoveFinalizer(source) => String::from_str(
                "failed to remove finalizer: ",
            ).concat(source.message.as_str()),
            FinalizerError::UnnamedObject => String::from_str("object has no name"),
        }
    }
}

} // verus!
