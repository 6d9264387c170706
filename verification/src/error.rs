//! The failures a rotation can end in.
use vstd::prelude::*;
use crate::text::texts;

verus! {

/// Why a rotation step failed.
///
/// The first five variants carry the diagnostic text of a request that the
/// secret store refused for a reason this library does not tell apart; the
/// others name the secret, and the versions where they matter.
#[derive(Clone, Debug, PartialEq, Eq)]
pub enum RotatorError {
    DescribeSecretError(String),
    GetSecretValue(String),
    GetRandomPassword(String),
    PutSecretValue(String),
    UpdateSecretVersionStage(String),
    IamError { secret_id: String, message: String },
    InvalidConfig { secret_id: String, message: String },
    SecretNotFound { secret_id: String, message: String },
    SecretValueNotFound {
        secret_id: String,
        version_stage: Option<String>,
        version_ids: Vec<String>,
        message: String,
    },
    RotationNotEnabled { secret_id: String },
    NoStageForRotation { secret_id: String, version: String },
    NotSetAsPending { secret_id: String, version: String },
    InvalidPasswordParameter { message: String },
    EncryptionFailure { secret_id: String, message: String },
    SerialisationError { secret_id: String, message: String },
    MissingTags { secret_id: String },
    MissingTag { secret_id: String, tag_name: String },
    Other { message: String },
}

pub type RotatorResult<R> = Result<R, RotatorError>;

/// A [`RotatorError`] as specifications see it: every string as its characters.
pub enum RotatorErrorView {
    DescribeSecretError(Seq<char>),
    GetSecretValue(Seq<char>),
    GetRandomPassword(Seq<char>),
    PutSecretValue(Seq<char>),
    UpdateSecretVersionStage(Seq<char>),
    IamError { secret_id: Seq<char>, message: Seq<char> },
    InvalidConfig { secret_id: Seq<char>, message: Seq<char> },
    SecretNotFound { secret_id: Seq<char>, message: Seq<char> },
    SecretValueNotFound {
        secret_id: Seq<char>,
        version_stage: Option<Seq<char>>,
        version_ids: Seq<Seq<char>>,
        message: Seq<char>,
    },
    RotationNotEnabled { secret_id: Seq<char> },
    NoStageForRotation { secret_id: Seq<char>, version: Seq<char> },
    NotSetAsPending { secret_id: Seq<char>, version: Seq<char> },
    InvalidPasswordParameter { message: Seq<char> },
    EncryptionFailure { secret_id: Seq<char>, message: Seq<char> },
    SerialisationError { secret_id: Seq<char>, message: Seq<char> },
    MissingTags { secret_id: Seq<char> },
    MissingTag { secret_id: Seq<char>, tag_name: Seq<char> },
    Other { message: Seq<char> },
}

impl View for RotatorError {
    type V = RotatorErrorView;

    open spec fn view(&self) -> RotatorErrorView {
        match *self {
            RotatorError::DescribeSecretError(m) => RotatorErrorView::DescribeSecretError(m@),
            RotatorError::GetSecretValue(m) => RotatorErrorView::GetSecretValue(m@),
            RotatorError::GetRandomPassword(m) => RotatorErrorView::GetRandomPassword(m@),
            RotatorError::PutSecretValue(m) => RotatorErrorView::PutSecretValue(m@),
            RotatorError::UpdateSecretVersionStage(m) => RotatorErrorView::UpdateSecretVersionStage(
                m@,
            ),
            RotatorError::IamError { secret_id, message } => RotatorErrorView::IamError {
                secret_id: secret_id@,
                message: message@,
            },
            RotatorError::InvalidConfig { secret_id, message } => RotatorErrorView::InvalidConfig {
                secret_id: secret_id@,
                message: message@,
            },
            RotatorError::SecretNotFound {
                secret_id,
                message,
            } => RotatorErrorView::SecretNotFound { secret_id: secret_id@, message: message@ },
            RotatorError::SecretValueNotFound {
                secret_id,
                version_stage,
                version_ids,
                message,
            } => RotatorErrorView::SecretValueNotFound {
                secret_id: secret_id@,
                version_stage: match version_stage {
                    Some(s) => Some(s@),
                    None => None,
                },
                version_ids: texts(version_ids@),
                message: message@,
            },
            RotatorError::RotationNotEnabled { secret_id } => RotatorErrorView::RotationNotEnabled {
                secret_id: secret_id@,
            },
            RotatorError::NoStageForRotation {
                secret_id,
                version,
            } => RotatorErrorView::NoStageForRotation { secret_id: secret_id@, version: version@ },
            RotatorError::NotSetAsPending {
                secret_id,
                version,
            } => RotatorErrorView::NotSetAsPending { secret_id: secret_id@, version: version@ },
            RotatorError::InvalidPasswordParameter {
                message,
            } => RotatorErrorView::InvalidPasswordParameter { message: message@ },
            RotatorError::EncryptionFailure {
                secret_id,
                message,
            } => RotatorErrorView::EncryptionFailure { secret_id: secret_id@, message: message@ },
            RotatorError::SerialisationError {
                secret_id,
                message,
            } => RotatorErrorView::SerialisationError { secret_id: secret_id@, message: message@ },
            RotatorError::MissingTags { secret_id } => RotatorErrorView::MissingTags {
                secret_id: secret_id@,
            },
            RotatorError::MissingTag { secret_id, tag_name } => RotatorErrorView::MissingTag {
                secret_id: secret_id@,
                tag_name: tag_name@,
            },
            RotatorError::Other { message } => RotatorErrorView::Other { message: message@ },
        }
    }
}

/// A result with both sides as their views.
pub open spec fn result_view<T: View>(r: RotatorResult<T>) -> Result<T::V, RotatorErrorView> {
    match r {
        Ok(value) => Ok(value@),
        Err(error) => Err(error@),
    }
}

/// The message of the error that a step ends in when the reply it is handed
/// does not answer the request it asked.
pub open spec fn unexpected_reply_text() -> Seq<char> {
    "the reply does not answer the request that was asked"@
}

/// The error of a reply that does not answer the request that was asked.
pub open spec fn unexpected_reply_view() -> RotatorErrorView {
    RotatorErrorView::Other { message: unexpected_reply_text() }
}

/// The error that a step ends in when the reply it is handed does not answer
/// the request it asked.
pub fn unexpected_reply() -> (e: RotatorError)
    ensures
        e@ == unexpected_reply_view(),
{
    RotatorError::Other {
        message: crate::text::owned("the reply does not answer the request that was asked"),
    }
}

} // verus!
