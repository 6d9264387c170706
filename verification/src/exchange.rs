//! What a rotation asks of the outside world and what it is told.
//!
//! The library performs no call itself. A step function takes the state of a
//! rotation and the [`Reply`] to the request that was last asked, and gives
//! the next [`Step`]: another [`Request`] to perform, with the state to come
//! back with, or the result.
use vstd::prelude::*;
use crate::describe::{SecretDescription, SecretDescriptionView};
use crate::error::{RotatorErrorView, RotatorResult};
use crate::iam::{
    CredentialMetadataRecord,
    CredentialMetadataView,
    CredentialRecord,
    CredentialView,
    record_views,
};
use crate::text::opt_text;
use crate::value::{Secret, SecretView, opt_secret};

verus! {

/// How long a request to the secret store or to the directory may take,
/// in seconds.
pub const CALL_TIMEOUT_SECS: u64 = 2;

/// The failures of a request that this library tells apart.
#[derive(Debug, Copy, Clone, PartialEq, Eq, Structural)]
pub enum FaultKind {
    /// The secret store does not have the secret, the version or the stage.
    ResourceNotFound,
    /// The secret store could not encrypt the value.
    EncryptionFailure,
    /// The secret store refused a parameter.
    InvalidParameter,
    /// The directory does not have the user or the credential.
    NoSuchEntity,
    /// The directory issues no credentials for the service.
    ServiceNotSupported,
    /// The directory would hold too many credentials.
    LimitExceeded,
    /// Anything else: a time-out, a transport failure, a refusal that has no
    /// kind of its own.
    Other,
}

/// A request that failed.
#[derive(Debug, Clone, PartialEq)]
pub struct Fault {
    pub kind: FaultKind,
    /// What the service said; empty where `kind` is [`FaultKind::Other`].
    pub message: String,
    /// The whole failure as diagnostic text.
    pub debug: String,
}

/// A [`Fault`] as specifications see it: every string as its characters.
pub struct FaultView {
    pub kind: FaultKind,
    pub message: Seq<char>,
    pub debug: Seq<char>,
}

impl View for Fault {
    type V = FaultView;

    open spec fn view(&self) -> FaultView {
        FaultView { kind: self.kind, message: self.message@, debug: self.debug@ }
    }
}

/// What the caller is asked to do next.
#[derive(Clone, PartialEq)]
pub enum Request {
    /// Ask the store to describe the secret.
    DescribeSecret { secret_id: String },
    /// Ask the store for the string stored under a stage and a version.
    GetSecretValue {
        secret_id: String,
        version_stage: Option<String>,
        version_id: Option<String>,
    },
    /// Read a stored string as a secret.
    ParseSecret { secret_string: String },
    /// Write a secret as the string to store.
    SerialiseSecret { secret: Secret },
    /// Ask the store to keep a string as a new version under one stage.
    PutSecretValue {
        secret_id: String,
        client_request_token: String,
        secret_string: String,
        version_stage: String,
    },
    /// Ask the store to move a stage label to one version, off another.
    UpdateSecretVersionStage {
        secret_id: String,
        version_stage: String,
        move_to_version_id: String,
        remove_from_version_id: Option<String>,
    },
    /// Ask the directory for the credentials of a user for a service.
    ListServiceSpecificCredentials { user_name: Option<String>, service_name: Option<String> },
    /// Ask the directory for a new credential.
    CreateServiceSpecificCredential { user_name: String, service_name: String },
    /// Ask the directory for a new password for a credential.
    ResetServiceSpecificCredential {
        service_specific_credential_id: String,
        user_name: Option<String>,
    },
    /// Ask the directory to set the status of a credential.
    UpdateServiceSpecificCredential {
        service_specific_credential_id: String,
        user_name: Option<String>,
        status: String,
    },
    /// Ask the store for a random password without the given characters.
    GetRandomPassword { exclude_characters: Option<String> },
}

/// A [`Request`] as specifications see it: every string as its characters.
pub enum RequestView {
    DescribeSecret { secret_id: Seq<char> },
    GetSecretValue {
        secret_id: Seq<char>,
        version_stage: Option<Seq<char>>,
        version_id: Option<Seq<char>>,
    },
    ParseSecret { secret_string: Seq<char> },
    SerialiseSecret { secret: SecretView },
    PutSecretValue {
        secret_id: Seq<char>,
        client_request_token: Seq<char>,
        secret_string: Seq<char>,
        version_stage: Seq<char>,
    },
    UpdateSecretVersionStage {
        secret_id: Seq<char>,
        version_stage: Seq<char>,
        move_to_version_id: Seq<char>,
        remove_from_version_id: Option<Seq<char>>,
    },
    ListServiceSpecificCredentials {
        user_name: Option<Seq<char>>,
        service_name: Option<Seq<char>>,
    },
    CreateServiceSpecificCredential { user_name: Seq<char>, service_name: Seq<char> },
    ResetServiceSpecificCredential {
        service_specific_credential_id: Seq<char>,
        user_name: Option<Seq<char>>,
    },
    UpdateServiceSpecificCredential {
        service_specific_credential_id: Seq<char>,
        user_name: Option<Seq<char>>,
        status: Seq<char>,
    },
    GetRandomPassword { exclude_characters: Option<Seq<char>> },
}

impl View for Request {
    type V = RequestView;

    open spec fn view(&self) -> RequestView {
        match *self {
            Request::DescribeSecret { secret_id } => RequestView::DescribeSecret {
                secret_id: secret_id@,
            },
            Request::GetSecretValue {
                secret_id,
                version_stage,
                version_id,
            } => RequestView::GetSecretValue {
                secret_id: secret_id@,
                version_stage: opt_text(version_stage),
                version_id: opt_text(version_id),
            },
            Request::ParseSecret { secret_string } => RequestView::ParseSecret {
                secret_string: secret_string@,
            },
            Request::SerialiseSecret { secret } => RequestView::SerialiseSecret { secret: secret@ },
            Request::PutSecretValue {
                secret_id,
                client_request_token,
                secret_string,
                version_stage,
            } => RequestView::PutSecretValue {
                secret_id: secret_id@,
                client_request_token: client_request_token@,
                secret_string: secret_string@,
                version_stage: version_stage@,
            },
            Request::UpdateSecretVersionStage {
                secret_id,
                version_stage,
                move_to_version_id,
                remove_from_version_id,
            } => RequestView::UpdateSecretVersionStage {
                secret_id: secret_id@,
                version_stage: version_stage@,
                move_to_version_id: move_to_version_id@,
                remove_from_version_id: opt_text(remove_from_version_id),
            },
            Request::ListServiceSpecificCredentials {
                user_name,
                service_name,
            } => RequestView::ListServiceSpecificCredentials {
                user_name: opt_text(user_name),
                service_name: opt_text(service_name),
            },
            Request::CreateServiceSpecificCredential {
                user_name,
                service_name,
            } => RequestView::CreateServiceSpecificCredential {
                user_name: user_name@,
                service_name: service_name@,
            },
            Request::ResetServiceSpecificCredential {
                service_specific_credential_id,
                user_name,
            } => RequestView::ResetServiceSpecificCredential {
                service_specific_credential_id: service_specific_credential_id@,
                user_name: opt_text(user_name),
            },
            Request::UpdateServiceSpecificCredential {
                service_specific_credential_id,
                user_name,
                status,
            } => RequestView::UpdateServiceSpecificCredential {
                service_specific_credential_id: service_specific_credential_id@,
                user_name: opt_text(user_name),
                status: status@,
            },
            Request::GetRandomPassword { exclude_characters } => RequestView::GetRandomPassword {
                exclude_characters: opt_text(exclude_characters),
            },
        }
    }
}

/// What came back from the request that was last asked. Each variant answers
/// the request named in its comment; [`Reply::Nothing`] is what the first step
/// of a rotation is handed, before anything was asked.
pub enum Reply {
    Nothing,
    /// To [`Request::DescribeSecret`].
    Described(Result<SecretDescription, Fault>),
    /// To [`Request::GetSecretValue`]: the stored string, if the version has one.
    SecretString(Result<Option<String>, Fault>),
    /// To [`Request::ParseSecret`]: the secret that the string stands for (none
    /// for JSON's `null`), or why it stands for none.
    Parsed(Result<Option<Secret>, String>),
    /// To [`Request::SerialiseSecret`]: the string, or why there is none.
    Serialised(Result<String, String>),
    /// To [`Request::PutSecretValue`].
    Stored(Result<(), Fault>),
    /// To [`Request::UpdateSecretVersionStage`].
    Moved(Result<(), Fault>),
    /// To [`Request::ListServiceSpecificCredentials`]: the list, if the
    /// directory sent one.
    Listed(Result<Option<Vec<CredentialMetadataRecord>>, Fault>),
    /// To [`Request::CreateServiceSpecificCredential`] and to
    /// [`Request::ResetServiceSpecificCredential`]: the credential, if the
    /// directory sent one.
    Issued(Result<Option<CredentialRecord>, Fault>),
    /// To [`Request::UpdateServiceSpecificCredential`].
    Updated(Result<(), Fault>),
    /// To [`Request::GetRandomPassword`]: the password, if the store sent one.
    Password(Result<Option<String>, Fault>),
}

/// A [`Reply`] as specifications see it: every string as its characters.
pub enum ReplyView {
    Nothing,
    Described(Result<SecretDescriptionView, FaultView>),
    SecretString(Result<Option<Seq<char>>, FaultView>),
    Parsed(Result<Option<SecretView>, Seq<char>>),
    Serialised(Result<Seq<char>, Seq<char>>),
    Stored(Result<(), FaultView>),
    Moved(Result<(), FaultView>),
    Listed(Result<Option<Seq<CredentialMetadataView>>, FaultView>),
    Issued(Result<Option<CredentialView>, FaultView>),
    Updated(Result<(), FaultView>),
    Password(Result<Option<Seq<char>>, FaultView>),
}

/// The view of the answer to a request that hands back nothing.
pub open spec fn done_view(r: Result<(), Fault>) -> Result<(), FaultView> {
    match r {
        Ok(_) => Ok(()),
        Err(f) => Err(f@),
    }
}

/// The view of the answer to a request for a secret's description.
pub open spec fn described_view(r: Result<SecretDescription, Fault>) -> Result<
    SecretDescriptionView,
    FaultView,
> {
    match r {
        Ok(d) => Ok(d@),
        Err(f) => Err(f@),
    }
}

/// The view of the answer to a request for an optional string.
pub open spec fn string_view(r: Result<Option<String>, Fault>) -> Result<
    Option<Seq<char>>,
    FaultView,
> {
    match r {
        Ok(s) => Ok(opt_text(s)),
        Err(f) => Err(f@),
    }
}

/// The view of a stored string read as a secret.
pub open spec fn parsed_view(r: Result<Option<Secret>, String>) -> Result<
    Option<SecretView>,
    Seq<char>,
> {
    match r {
        Ok(s) => Ok(opt_secret(s)),
        Err(m) => Err(m@),
    }
}

/// The view of a secret written as a string.
pub open spec fn serialised_view(r: Result<String, String>) -> Result<Seq<char>, Seq<char>> {
    match r {
        Ok(s) => Ok(s@),
        Err(m) => Err(m@),
    }
}

/// The view of the answer to a request for a list of credentials.
pub open spec fn listed_view(r: Result<Option<Vec<CredentialMetadataRecord>>, Fault>) -> Result<
    Option<Seq<CredentialMetadataView>>,
    FaultView,
> {
    match r {
        Ok(Some(list)) => Ok(Some(record_views(list@))),
        Ok(None) => Ok(None),
        Err(f) => Err(f@),
    }
}

/// The view of the answer to a request for a credential.
pub open spec fn issued_view(r: Result<Option<CredentialRecord>, Fault>) -> Result<
    Option<CredentialView>,
    FaultView,
> {
    match r {
        Ok(Some(c)) => Ok(Some(c@)),
        Ok(None) => Ok(None),
        Err(f) => Err(f@),
    }
}

impl View for Reply {
    type V = ReplyView;

    open spec fn view(&self) -> ReplyView {
        match *self {
            Reply::Nothing => ReplyView::Nothing,
            Reply::Described(r) => ReplyView::Described(described_view(r)),
            Reply::SecretString(r) => ReplyView::SecretString(string_view(r)),
            Reply::Parsed(r) => ReplyView::Parsed(parsed_view(r)),
            Reply::Serialised(r) => ReplyView::Serialised(serialised_view(r)),
            Reply::Stored(r) => ReplyView::Stored(done_view(r)),
            Reply::Moved(r) => ReplyView::Moved(done_view(r)),
            Reply::Listed(r) => ReplyView::Listed(listed_view(r)),
            Reply::Issued(r) => ReplyView::Issued(issued_view(r)),
            Reply::Updated(r) => ReplyView::Updated(done_view(r)),
            Reply::Password(r) => ReplyView::Password(string_view(r)),
        }
    }
}

/// How far a step function got: it needs a request performed and is to be
/// called again with the state given and the reply, or it is done.
pub enum Step<S, T> {
    Ask(Request, S),
    Done(RotatorResult<T>),
}

/// A [`Step`] as specifications see it: the request, the state and the result
/// as their views.
pub enum StepView<S, T> {
    Ask(RequestView, S),
    Done(Result<T, RotatorErrorView>),
}

impl<S: View, T: View> View for Step<S, T> {
    type V = StepView<S::V, T::V>;

    open spec fn view(&self) -> StepView<S::V, T::V> {
        match *self {
            Step::Ask(request, state) => StepView::Ask(request@, state@),
            Step::Done(Ok(value)) => StepView::Done(Ok(value@)),
            Step::Done(Err(error)) => StepView::Done(Err(error@)),
        }
    }
}

/// What a chain of calls of a step function comes to: the requests that it
/// asked, in order, and its result, if it got that far.
pub struct Run<T> {
    pub requests: Seq<RequestView>,
    pub outcome: Option<Result<T, RotatorErrorView>>,
}

/// The chain of calls of `step` that starts in `state` and is handed
/// `replies` one after the other. The chain ends where the step function is
/// done, or where the replies run out.
pub open spec fn run<S, T>(
    step: spec_fn(S, ReplyView) -> StepView<S, T>,
    state: S,
    replies: Seq<ReplyView>,
) -> Run<T>
    decreases replies.len(),
{
    if replies.len() == 0 {
        Run { requests: Seq::empty(), outcome: None }
    } else {
        match step(state, replies[0]) {
            StepView::Done(result) => Run { requests: Seq::empty(), outcome: Some(result) },
            StepView::Ask(request, next) => {
                let rest = run(step, next, replies.drop_first());
                Run { requests: seq![request] + rest.requests, outcome: rest.outcome }
            },
        }
    }
}

} // verus!
