//! The value stored under one version of a secret.
use vstd::prelude::*;
use std::collections::HashMap;
use crate::error::{
    RotatorError,
    RotatorErrorView,
    RotatorResult,
    unexpected_reply,
    unexpected_reply_view,
};
use crate::exchange::{
    Fault,
    FaultKind,
    FaultView,
    Reply,
    ReplyView,
    Request,
    RequestView,
    Step,
    StepView,
    done_view,
    string_view,
};
use crate::text::{joined, opt_text, owned, owned_opt, texts};

verus! {

/// `serde_json::Value`, a JSON value. The library carries such values through
/// and never looks into one: nothing is claimed of what a value holds.
#[verifier::external_type_specification]
#[verifier::external_body]
pub struct ExJsonValue(serde_json::Value);

/// What stands in place of a password wherever a secret is shown.
pub const PASSWORD_MASK: &'static str = "******";

/// The payload of a secret. Every field may be absent, so that a secret
/// written by an earlier hand can still be read; `attributes` keeps the
/// fields that this library does not know.
///
/// The type has no `Debug`: show [`Secret::redacted`] instead.
#[derive(Clone, PartialEq)]
pub struct Secret {
    pub username: Option<String>,
    pub password: Option<String>,
    pub service_specific_credential_id: Option<String>,
    pub attributes: HashMap<String, serde_json::Value>,
}

/// A [`Secret`] as specifications see it: every string as its characters.
pub struct SecretView {
    pub username: Option<Seq<char>>,
    pub password: Option<Seq<char>>,
    pub service_specific_credential_id: Option<Seq<char>>,
    pub attributes: Map<String, serde_json::Value>,
}

impl View for Secret {
    type V = SecretView;

    open spec fn view(&self) -> SecretView {
        SecretView {
            username: opt_text(self.username),
            password: opt_text(self.password),
            service_specific_credential_id: opt_text(self.service_specific_credential_id),
            attributes: self.attributes@,
        }
    }
}

/// The secret with nothing in it.
pub open spec fn empty_secret() -> SecretView {
    SecretView {
        username: None,
        password: None,
        service_specific_credential_id: None,
        attributes: Map::empty(),
    }
}

/// `secret` with its password, if it has one, replaced by the mask.
pub open spec fn redacted_view(secret: SecretView) -> SecretView {
    SecretView {
        password: match secret.password {
            Some(_) => Some(PASSWORD_MASK@),
            None => None,
        },
        ..secret
    }
}

impl Default for Secret {
    fn default() -> (s: Secret)
        ensures
            s@ == empty_secret(),
    {
        Secret {
            username: None,
            password: None,
            service_specific_credential_id: None,
            attributes: HashMap::new(),
        }
    }
}

impl Secret {
    /// The secret as it may be shown: the password, if there is one, is
    /// replaced by [`PASSWORD_MASK`]; everything else is kept.
    pub fn redacted(self) -> (r: Secret)
        ensures
            r@ == redacted_view(self@),
    {
        let password = match self.password {
            Some(_) => Some(owned(PASSWORD_MASK)),
            None => None,
        };
        Secret {
            username: self.username,
            password,
            service_specific_credential_id: self.service_specific_credential_id,
            attributes: self.attributes,
        }
    }
}

/// What a version of a secret holds: a payload, or nothing that could be read
/// as one.
#[derive(Clone)]
pub struct SecretValue {
    pub secret: Option<Secret>,
}

/// A [`SecretValue`] as specifications see it: every string as its characters.
pub struct SecretValueView {
    pub secret: Option<SecretView>,
}

/// The view of an optional secret.
pub open spec fn opt_secret(secret: Option<Secret>) -> Option<SecretView> {
    match secret {
        Some(s) => Some(s@),
        None => None,
    }
}

impl View for SecretValue {
    type V = SecretValueView;

    open spec fn view(&self) -> SecretValueView {
        SecretValueView { secret: opt_secret(self.secret) }
    }
}

/// The versions that a request for a value named: one or none.
pub open spec fn named_versions(version_id: Option<Seq<char>>) -> Seq<Seq<char>> {
    match version_id {
        Some(v) => seq![v],
        None => Seq::empty(),
    }
}

/// What the store's answer to a request for a stored string amounts to.
pub open spec fn fetched_string(
    secret_id: Seq<char>,
    version_stage: Option<Seq<char>>,
    version_id: Option<Seq<char>>,
    answer: Result<Option<Seq<char>>, FaultView>,
) -> Result<Option<Seq<char>>, RotatorErrorView> {
    match answer {
        Ok(text) => Ok(text),
        Err(fault) => Err(
            match fault.kind {
                FaultKind::ResourceNotFound => RotatorErrorView::SecretValueNotFound {
                    secret_id,
                    version_stage,
                    version_ids: named_versions(version_id),
                    message: fault.message,
                },
                _ => RotatorErrorView::GetSecretValue(fault.debug),
            },
        ),
    }
}

/// Reads the store's answer to a request for the string under
/// `version_stage` and `version_id`. That the store has no such value is a
/// [`RotatorError::SecretValueNotFound`] that names what was asked for; every
/// other refusal is a [`RotatorError::GetSecretValue`].
pub fn get_secret_value_string(
    secret_id: &str,
    version_stage: &Option<String>,
    version_id: &Option<String>,
    answer: Result<Option<String>, Fault>,
) -> (r: RotatorResult<Option<String>>)
    ensures
        match r {
            Ok(text) => fetched_string(
                secret_id@,
                opt_text(*version_stage),
                opt_text(*version_id),
                string_view(answer),
            ) == Ok::<Option<Seq<char>>, RotatorErrorView>(opt_text(text)),
            Err(e) => fetched_string(
                secret_id@,
                opt_text(*version_stage),
                opt_text(*version_id),
                string_view(answer),
            ) == Err::<Option<Seq<char>>, RotatorErrorView>(e@),
        },
{
    match answer {
        Ok(text) => Ok(text),
        Err(fault) => match fault.kind {
            FaultKind::ResourceNotFound => {
                let mut version_ids: Vec<String> = Vec::new();
                match version_id {
                    Some(v) => {
                        version_ids.push(v.clone());
                    },
                    None => {},
                }
                assert(texts(version_ids@) =~= named_versions(opt_text(*version_id)));
                Err(
                    RotatorError::SecretValueNotFound {
                        secret_id: owned(secret_id),
                        version_stage: owned_opt(version_stage),
                        version_ids,
                        message: fault.message,
                    },
                )
            },
            _ => Err(RotatorError::GetSecretValue(fault.debug)),
        },
    }
}

/// Where the reading of a value stands.
#[derive(Debug, Copy, Clone, PartialEq, Eq, Structural)]
pub enum FetchPhase {
    /// Nothing was asked yet.
    Start,
    /// The store was asked for the stored string.
    Reading,
    /// The stored string was handed out to be read as a secret.
    Parsing,
}

/// The reading of the value under a stage and a version.
#[derive(Debug, Clone, PartialEq)]
pub struct Fetch {
    pub secret_id: String,
    pub version_stage: Option<String>,
    pub version_id: Option<String>,
    pub phase: FetchPhase,
}

/// A [`Fetch`] as specifications see it: every string as its characters.
pub struct FetchView {
    pub secret_id: Seq<char>,
    pub version_stage: Option<Seq<char>>,
    pub version_id: Option<Seq<char>>,
    pub phase: FetchPhase,
}

impl View for Fetch {
    type V = FetchView;

    open spec fn view(&self) -> FetchView {
        FetchView {
            secret_id: self.secret_id@,
            version_stage: opt_text(self.version_stage),
            version_id: opt_text(self.version_id),
            phase: self.phase,
        }
    }
}

/// The reading of the value under `version_stage` and `version_id`, before
/// anything was asked.
pub open spec fn fetch_of(
    secret_id: Seq<char>,
    version_stage: Option<Seq<char>>,
    version_id: Option<Seq<char>>,
) -> FetchView {
    FetchView { secret_id, version_stage, version_id, phase: FetchPhase::Start }
}

/// The step that [`get_secret_value`] takes from `state` on `reply`.
pub open spec fn fetch_step(state: FetchView, reply: ReplyView) -> StepView<
    FetchView,
    SecretValueView,
> {
    match state.phase {
        FetchPhase::Start => StepView::Ask(
            RequestView::GetSecretValue {
                secret_id: state.secret_id,
                version_stage: state.version_stage,
                version_id: state.version_id,
            },
            FetchView { phase: FetchPhase::Reading, ..state },
        ),
        FetchPhase::Reading => match reply {
            ReplyView::SecretString(answer) => match fetched_string(
                state.secret_id,
                state.version_stage,
                state.version_id,
                answer,
            ) {
                Ok(Some(text)) => StepView::Ask(
                    RequestView::ParseSecret { secret_string: text },
                    FetchView { phase: FetchPhase::Parsing, ..state },
                ),
                Ok(None) => StepView::Done(Ok(SecretValueView { secret: None })),
                Err(e) => StepView::Done(Err(e)),
            },
            _ => StepView::Done(Err(unexpected_reply_view())),
        },
        FetchPhase::Parsing => match reply {
            ReplyView::Parsed(Ok(secret)) => StepView::Done(Ok(SecretValueView { secret })),
            ReplyView::Parsed(Err(message)) => StepView::Done(
                Err(
                    RotatorErrorView::SerialisationError {
                        secret_id: state.secret_id,
                        message: "secret string value deserialisation error: "@ + message,
                    },
                ),
            ),
            _ => StepView::Done(Err(unexpected_reply_view())),
        },
    }
}

impl Fetch {
    /// The reading of the value of `secret_id` under `version_stage` and
    /// `version_id`, before anything was asked.
    pub fn new(secret_id: &str, version_stage: Option<&str>, version_id: Option<&str>) -> (r: Fetch)
        ensures
            r@ == fetch_of(
                secret_id@,
                match version_stage {
                    Some(s) => Some(s@),
                    None => None,
                },
                match version_id {
                    Some(s) => Some(s@),
                    None => None,
                },
            ),
    {
        Fetch {
            secret_id: owned(secret_id),
            version_stage: match version_stage {
                Some(s) => Some(owned(s)),
                None => None,
            },
            version_id: match version_id {
                Some(s) => Some(owned(s)),
                None => None,
            },
            phase: FetchPhase::Start,
        }
    }
}

/// Reads the value of a secret under a stage and a version, one request at a
/// time: asks the store for the stored string, then has it read as a secret.
/// A version without a string, and a string that is JSON's `null`, give a
/// value without a secret. A string that cannot be read is a
/// [`RotatorError::SerialisationError`]; the store's refusals are as
/// [`get_secret_value_string`] reads them.
pub fn get_secret_value(state: Fetch, reply: Reply) -> (r: Step<Fetch, SecretValue>)
    ensures
        r@ == fetch_step(state@, reply@),
{
    match state.phase {
        FetchPhase::Start => {
            let request = Request::GetSecretValue {
                secret_id: state.secret_id.clone(),
                version_stage: owned_opt(&state.version_stage),
                version_id: owned_opt(&state.version_id),
            };
            Step::Ask(
                request,
                Fetch {
                    secret_id: state.secret_id,
                    version_stage: state.version_stage,
                    version_id: state.version_id,
                    phase: FetchPhase::Reading,
                },
            )
        },
        FetchPhase::Reading => match reply {
            Reply::SecretString(answer) => match get_secret_value_string(
                state.secret_id.as_str(),
                &state.version_stage,
                &state.version_id,
                answer,
            ) {
                Ok(Some(text)) => Step::Ask(
                    Request::ParseSecret { secret_string: text },
                    Fetch {
                        secret_id: state.secret_id,
                        version_stage: state.version_stage,
                        version_id: state.version_id,
                        phase: FetchPhase::Parsing,
                    },
                ),
                Ok(None) => Step::Done(Ok(SecretValue { secret: None })),
                Err(e) => Step::Done(Err(e)),
            },
            _ => Step::Done(Err(unexpected_reply())),
        },
        FetchPhase::Parsing => match reply {
            Reply::Parsed(Ok(secret)) => Step::Done(Ok(SecretValue { secret })),
            Reply::Parsed(Err(message)) => Step::Done(
                Err(
                    RotatorError::SerialisationError {
                        secret_id: state.secret_id,
                        message: joined(
                            "secret string value deserialisation error: ",
                            message.as_str(),
                        ),
                    },
                ),
            ),
            _ => Step::Done(Err(unexpected_reply())),
        },
    }
}

/// What the store's answer to the writing of a value amounts to.
pub open spec fn stored(
    secret_id: Seq<char>,
    token: Seq<char>,
    version_stage: Seq<char>,
    answer: Result<(), FaultView>,
) -> Result<(), RotatorErrorView> {
    match answer {
        Ok(_) => Ok(()),
        Err(fault) => Err(
            match fault.kind {
                FaultKind::ResourceNotFound => RotatorErrorView::SecretValueNotFound {
                    secret_id,
                    version_stage: Some(version_stage),
                    version_ids: seq![token],
                    message: fault.message,
                },
                FaultKind::EncryptionFailure => RotatorErrorView::EncryptionFailure {
                    secret_id,
                    message: fault.message,
                },
                _ => RotatorErrorView::PutSecretValue(fault.debug),
            },
        ),
    }
}

/// Reads the store's answer to the writing of a string as version `token`
/// under `version_stage`. That the store does not have the secret is a
/// [`RotatorError::SecretValueNotFound`] that names the stage and the
/// version; that it could not encrypt is a
/// [`RotatorError::EncryptionFailure`]; every other refusal is a
/// [`RotatorError::PutSecretValue`].
pub fn put_secret_value_string(
    secret_id: &str,
    token: &str,
    version_stage: &str,
    answer: Result<(), Fault>,
) -> (r: RotatorResult<()>)
    ensures
        crate::error::result_view(r) == stored(
            secret_id@,
            token@,
            version_stage@,
            done_view(answer),
        ),
{
    match answer {
        Ok(_) => Ok(()),
        Err(fault) => match fault.kind {
            FaultKind::ResourceNotFound => {
                let mut version_ids: Vec<String> = Vec::new();
                version_ids.push(owned(token));
                assert(texts(version_ids@) =~= seq![token@]);
                Err(
                    RotatorError::SecretValueNotFound {
                        secret_id: owned(secret_id),
                        version_stage: Some(owned(version_stage)),
                        version_ids,
                        message: fault.message,
                    },
                )
            },
            FaultKind::EncryptionFailure => Err(
                RotatorError::EncryptionFailure {
                    secret_id: owned(secret_id),
                    message: fault.message,
                },
            ),
            _ => Err(RotatorError::PutSecretValue(fault.debug)),
        },
    }
}

/// Where the writing of a value stands.
pub enum PutPhase {
    /// Nothing was asked yet; the secret is still to be written.
    Start(Secret),
    /// The secret was handed out to be written as a string.
    Serialising,
    /// The store was asked to keep the string.
    Writing,
}

/// A [`PutPhase`] as specifications see it: every string as its characters.
pub enum PutPhaseView {
    Start(SecretView),
    Serialising,
    Writing,
}

/// The writing of a secret as version `token` under `version_stage`.
pub struct Put {
    pub secret_id: String,
    pub token: String,
    pub version_stage: String,
    pub phase: PutPhase,
}

/// A [`Put`] as specifications see it: every string as its characters.
pub struct PutView {
    pub secret_id: Seq<char>,
    pub token: Seq<char>,
    pub version_stage: Seq<char>,
    pub phase: PutPhaseView,
}

impl View for Put {
    type V = PutView;

    open spec fn view(&self) -> PutView {
        PutView {
            secret_id: self.secret_id@,
            token: self.token@,
            version_stage: self.version_stage@,
            phase: match self.phase {
                PutPhase::Start(secret) => PutPhaseView::Start(secret@),
                PutPhase::Serialising => PutPhaseView::Serialising,
                PutPhase::Writing => PutPhaseView::Writing,
            },
        }
    }
}

/// The writing of `secret` as version `token` under `version_stage`, before
/// anything was asked.
pub open spec fn put_of(
    secret_id: Seq<char>,
    token: Seq<char>,
    secret: SecretView,
    version_stage: Seq<char>,
) -> PutView {
    PutView { secret_id, token, version_stage, phase: PutPhaseView::Start(secret) }
}

/// The step that [`put_secret_value`] takes from `state` on `reply`.
pub open spec fn put_step(state: PutView, reply: ReplyView) -> StepView<PutView, ()> {
    match state.phase {
        PutPhaseView::Start(secret) => StepView::Ask(
            RequestView::SerialiseSecret { secret },
            PutView { phase: PutPhaseView::Serialising, ..state },
        ),
        PutPhaseView::Serialising => match reply {
            ReplyView::Serialised(Ok(text)) => StepView::Ask(
                RequestView::PutSecretValue {
                    secret_id: state.secret_id,
                    client_request_token: state.token,
                    secret_string: text,
                    version_stage: state.version_stage,
                },
                PutView { phase: PutPhaseView::Writing, ..state },
            ),
            ReplyView::Serialised(Err(message)) => StepView::Done(
                Err(RotatorErrorView::SerialisationError { secret_id: state.secret_id, message }),
            ),
            _ => StepView::Done(Err(unexpected_reply_view())),
        },
        PutPhaseView::Writing => match reply {
            ReplyView::Stored(answer) => StepView::Done(
                stored(state.secret_id, state.token, state.version_stage, answer),
            ),
            _ => StepView::Done(Err(unexpected_reply_view())),
        },
    }
}

impl Put {
    /// The writing of `secret` as version `token` of `secret_id` under
    /// `version_stage`, before anything was asked.
    pub fn new(secret_id: &str, token: &str, secret: Secret, version_stage: &str) -> (r: Put)
        ensures
            r@ == put_of(secret_id@, token@, secret@, version_stage@),
    {
        Put {
            secret_id: owned(secret_id),
            token: owned(token),
            version_stage: owned(version_stage),
            phase: PutPhase::Start(secret),
        }
    }
}

/// Writes a secret as a new version under one stage, one request at a time:
/// has the secret written as a string, then asks the store to keep it. A
/// secret that cannot be written is a [`RotatorError::SerialisationError`], and
/// the store is then not asked; the store's refusals are as
/// [`put_secret_value_string`] reads them.
pub fn put_secret_value(state: Put, reply: Reply) -> (r: Step<Put, ()>)
    ensures
        r@ == put_step(state@, reply@),
{
    match state.phase {
        PutPhase::Start(secret) => Step::Ask(
            Request::SerialiseSecret { secret },
            Put {
                secret_id: state.secret_id,
                token: state.token,
                version_stage: state.version_stage,
                phase: PutPhase::Serialising,
            },
        ),
        PutPhase::Serialising => match reply {
            Reply::Serialised(Ok(text)) => {
                let request = Request::PutSecretValue {
                    secret_id: state.secret_id.clone(),
                    client_request_token: state.token.clone(),
                    secret_string: text,
                    version_stage: state.version_stage.clone(),
                };
                Step::Ask(
                    request,
                    Put {
                        secret_id: state.secret_id,
                        token: state.token,
                        version_stage: state.version_stage,
                        phase: PutPhase::Writing,
                    },
                )
            },
            Reply::Serialised(Err(message)) => Step::Done(
                Err(RotatorError::SerialisationError { secret_id: state.secret_id, message }),
            ),
            _ => Step::Done(Err(unexpected_reply())),
        },
        PutPhase::Writing => match reply {
            Reply::Stored(answer) => Step::Done(
                put_secret_value_string(
                    state.secret_id.as_str(),
                    state.token.as_str(),
                    state.version_stage.as_str(),
                    answer,
                ),
            ),
            _ => Step::Done(Err(unexpected_reply())),
        },
    }
}

} // verus!
