//! The resources whose secrets are rotated, and how each makes a new password.
//!
//! A user may hold at most [`MAX_SERVICE_SPECIFIC_CREDENTIALS`] credentials for
//! one service. While there is room a rotation creates a credential; once the
//! pool is full it resets one that the secret in use does not name, so that
//! the credential in use stays valid until the new one has taken its place.
use vstd::prelude::*;
use crate::config::{Config, ConfigView};
use crate::error::{
    RotatorError,
    RotatorErrorView,
    RotatorResult,
    unexpected_reply,
    unexpected_reply_view,
};
use crate::exchange::{Reply, ReplyView, Request, RequestView, Step, StepView};
use crate::iam::{
    Credential,
    CredentialMetadata,
    CredentialMetadataView,
    CredentialStatus,
    CredentialStatusView,
    CredentialView,
    IamError,
    IamErrorView,
    create_service_specific_credential,
    created,
    iam_error_debug,
    list_service_specific_credentials,
    listed,
    metadata_views,
    reset,
    reset_service_specific_credential,
    text_of_status,
    update_service_specific_credential,
    updated,
};
use crate::passwd::{EXCLUDED_CHARACTERS, drawn, get_random_password};
use crate::text::{joined, owned};
use crate::value::{Secret, SecretValue, SecretValueView, SecretView, empty_secret};

verus! {

/// How many credentials the directory lets one user hold for one service.
pub const MAX_SERVICE_SPECIFIC_CREDENTIALS: usize = 2;

/// A resource that needs nothing but a random password.
pub struct GenericResource {}

/// Where the drawing of a random password stands.
#[derive(Debug, Copy, Clone, PartialEq, Eq, Structural)]
pub enum Draw {
    /// Nothing was asked yet.
    Start,
    /// The store was asked for a password.
    Drawing,
}

impl View for Draw {
    type V = Draw;

    open spec fn view(&self) -> Draw {
        *self
    }
}

/// A secret that holds `password` and nothing else.
pub open spec fn password_only(password: Seq<char>) -> SecretView {
    SecretView { password: Some(password), ..empty_secret() }
}

/// The step that [`GenericResource::create_new_password`] takes.
pub open spec fn draw_step(state: Draw, reply: ReplyView) -> StepView<Draw, SecretView> {
    match state {
        Draw::Start => StepView::Ask(
            RequestView::GetRandomPassword { exclude_characters: Some(EXCLUDED_CHARACTERS@) },
            Draw::Drawing,
        ),
        Draw::Drawing => match reply {
            ReplyView::Password(answer) => match drawn(answer) {
                Ok(password) => StepView::Done(Ok(password_only(password))),
                Err(e) => StepView::Done(Err(e)),
            },
            _ => StepView::Done(Err(unexpected_reply_view())),
        },
    }
}

impl GenericResource {
    /// The one generic resource.
    pub fn new() -> (r: GenericResource)
        ensures
            r == (GenericResource {  }),
    {
        GenericResource {  }
    }

    /// Makes a secret out of a random password: asks the store for one, then
    /// hands back a secret that holds it and nothing else.
    pub fn create_new_password(&self, state: Draw, reply: Reply) -> (r: Step<Draw, Secret>)
        ensures
            r@ == draw_step(state, reply@),
    {
        match state {
            Draw::Start => Step::Ask(
                Request::GetRandomPassword { exclude_characters: Some(owned(EXCLUDED_CHARACTERS)) },
                Draw::Drawing,
            ),
            Draw::Drawing => match reply {
                Reply::Password(answer) => match get_random_password(answer) {
                    Ok(password) => {
                        let mut secret = Secret::default();
                        secret.password = Some(password);
                        Step::Done(Ok(secret))
                    },
                    Err(e) => Step::Done(Err(e)),
                },
                _ => Step::Done(Err(unexpected_reply())),
            },
        }
    }
}

/// The credentials that a user holds for one service.
#[derive(Debug, Clone)]
pub struct ServiceSpecificCredentialResource {
    secret_id: String,
    user_name: String,
    service_name: String,
}

/// A [`ServiceSpecificCredentialResource`] as specifications see it: every
/// string as its characters.
pub struct ServiceSpecificCredentialResourceView {
    pub secret_id: Seq<char>,
    pub user_name: Seq<char>,
    pub service_name: Seq<char>,
}

impl View for ServiceSpecificCredentialResource {
    type V = ServiceSpecificCredentialResourceView;

    closed spec fn view(&self) -> ServiceSpecificCredentialResourceView {
        ServiceSpecificCredentialResourceView {
            secret_id: self.secret_id@,
            user_name: self.user_name@,
            service_name: self.service_name@,
        }
    }
}

/// The resource that a configuration describes, or why it describes none.
pub open spec fn resource_of(cfg: ConfigView) -> Result<
    ServiceSpecificCredentialResourceView,
    RotatorErrorView,
> {
    match (cfg.service_name, cfg.user_name) {
        (None, _) => Err(
            RotatorErrorView::InvalidConfig {
                secret_id: cfg.secret_id,
                message: "missing service name for service specific credential"@,
            },
        ),
        (Some(_), None) => Err(
            RotatorErrorView::InvalidConfig {
                secret_id: cfg.secret_id,
                message: "missing resource arn for service specific credential"@,
            },
        ),
        (Some(service_name), Some(user_name)) => Ok(
            ServiceSpecificCredentialResourceView {
                secret_id: cfg.secret_id,
                user_name,
                service_name,
            },
        ),
    }
}

/// The id of the credential that the secret in use names, if it names one.
pub open spec fn credential_in_use(current_value: SecretValueView) -> Option<Seq<char>> {
    match current_value.secret {
        Some(secret) => secret.service_specific_credential_id,
        None => None,
    }
}

/// `i` is the first place in `credentials` whose id is not `id`.
pub open spec fn is_first_other(
    credentials: Seq<CredentialMetadataView>,
    id: Seq<char>,
    i: int,
) -> bool {
    &&& 0 <= i < credentials.len()
    &&& credentials[i].service_specific_credential_id != id
    &&& forall|j: int| 0 <= j < i ==> credentials[j].service_specific_credential_id == id
}

/// Whether some listed credential bears another id than `id`.
pub open spec fn has_other(credentials: Seq<CredentialMetadataView>, id: Seq<char>) -> bool {
    exists|i: int| is_first_other(credentials, id, i)
}

/// The first place in `credentials` whose id is not `id`, if there is one.
pub open spec fn first_other(credentials: Seq<CredentialMetadataView>, id: Seq<char>) -> int {
    choose|i: int| is_first_other(credentials, id, i)
}

/// Which of the listed credentials a rotation resets: the first whose id is
/// not the one in use; the first of all where none is known to be in use;
/// none where every one bears the id in use, or the list is empty.
pub open spec fn credential_to_reset(
    credentials: Seq<CredentialMetadataView>,
    in_use: Option<Seq<char>>,
) -> Option<int> {
    match in_use {
        Some(id) => if has_other(credentials, id) {
            Some(first_other(credentials, id))
        } else {
            None
        },
        None => if credentials.len() > 0 {
            Some(0)
        } else {
            None
        },
    }
}

/// The secret in use, or an empty one, with the user name, the password and
/// the id of `credential` written over its own; what else it holds is kept.
pub open spec fn merged(current_value: SecretValueView, credential: CredentialView) -> SecretView {
    let base = match current_value.secret {
        Some(secret) => secret,
        None => empty_secret(),
    };
    SecretView {
        username: Some(credential.service_user_name),
        password: Some(credential.service_password),
        service_specific_credential_id: Some(credential.service_specific_credential_id),
        attributes: base.attributes,
    }
}

/// The failure of a request to the directory, as a rotation reports it:
/// `what` says which request it was.
pub open spec fn directory_failure(
    secret_id: Seq<char>,
    what: Seq<char>,
    error: IamErrorView,
) -> RotatorErrorView {
    RotatorErrorView::IamError { secret_id, message: what + iam_error_debug(error) }
}

/// Where the making of a new credential password stands.
pub enum Renewal {
    /// Nothing was asked yet.
    Start { current_value: SecretValue },
    /// The directory was asked for the user's credentials.
    Listing { current_value: SecretValue },
    /// The directory was asked for a new credential.
    Creating { current_value: SecretValue },
    /// The directory was asked to reset a credential.
    Resetting { current_value: SecretValue },
    /// The directory was asked to activate the credential that it reset.
    Activating { current_value: SecretValue, credential: Credential },
}

/// A [`Renewal`] as specifications see it: every string as its characters.
pub enum RenewalView {
    Start { current_value: SecretValueView },
    Listing { current_value: SecretValueView },
    Creating { current_value: SecretValueView },
    Resetting { current_value: SecretValueView },
    Activating { current_value: SecretValueView, credential: CredentialView },
}

impl View for Renewal {
    type V = RenewalView;

    open spec fn view(&self) -> RenewalView {
        match *self {
            Renewal::Start { current_value } => RenewalView::Start {
                current_value: current_value@,
            },
            Renewal::Listing { current_value } => RenewalView::Listing {
                current_value: current_value@,
            },
            Renewal::Creating { current_value } => RenewalView::Creating {
                current_value: current_value@,
            },
            Renewal::Resetting { current_value } => RenewalView::Resetting {
                current_value: current_value@,
            },
            Renewal::Activating { current_value, credential } => RenewalView::Activating {
                current_value: current_value@,
                credential: credential@,
            },
        }
    }
}

/// The failure of a rotation that finds the pool full of the credential in
/// use, so that there is none to reset.
pub open spec fn no_credential_to_reset() -> RotatorErrorView {
    RotatorErrorView::Other { message: "no empty credential slots to rotate"@ }
}

/// What follows the listing of the user's credentials.
pub open spec fn after_listing(
    resource: ServiceSpecificCredentialResourceView,
    current_value: SecretValueView,
    credentials: Seq<CredentialMetadataView>,
) -> StepView<RenewalView, SecretView> {
    if credentials.len() < MAX_SERVICE_SPECIFIC_CREDENTIALS {
        StepView::Ask(
            RequestView::CreateServiceSpecificCredential {
                user_name: resource.user_name,
                service_name: resource.service_name,
            },
            RenewalView::Creating { current_value },
        )
    } else {
        match credential_to_reset(credentials, credential_in_use(current_value)) {
            Some(i) => StepView::Ask(
                RequestView::ResetServiceSpecificCredential {
                    service_specific_credential_id: credentials[i].service_specific_credential_id,
                    user_name: Some(resource.user_name),
                },
                RenewalView::Resetting { current_value },
            ),
            None => StepView::Done(Err(no_credential_to_reset())),
        }
    }
}

/// What follows the reset of a credential.
pub open spec fn after_reset(
    resource: ServiceSpecificCredentialResourceView,
    current_value: SecretValueView,
    credential: CredentialView,
) -> StepView<RenewalView, SecretView> {
    if credential.status == CredentialStatusView::Inactive {
        StepView::Ask(
            RequestView::UpdateServiceSpecificCredential {
                service_specific_credential_id: credential.service_specific_credential_id,
                user_name: Some(resource.user_name),
                status: text_of_status(CredentialStatusView::Active),
            },
            RenewalView::Activating { current_value, credential },
        )
    } else {
        StepView::Done(Ok(merged(current_value, credential)))
    }
}

/// The step that [`ServiceSpecificCredentialResource::create_new_password`]
/// takes from `state` on `reply`.
pub open spec fn renewal_step(
    resource: ServiceSpecificCredentialResourceView,
    state: RenewalView,
    reply: ReplyView,
) -> StepView<RenewalView, SecretView> {
    match state {
        RenewalView::Start { current_value } => StepView::Ask(
            RequestView::ListServiceSpecificCredentials {
                user_name: Some(resource.user_name),
                service_name: Some(resource.service_name),
            },
            RenewalView::Listing { current_value },
        ),
        RenewalView::Listing { current_value } => match reply {
            ReplyView::Listed(answer) => match listed(answer) {
                Ok(credentials) => after_listing(resource, current_value, credentials),
                Err(e) => StepView::Done(
                    Err(
                        directory_failure(
                            resource.secret_id,
                            "list service specific credential error: "@,
                            e,
                        ),
                    ),
                ),
            },
            _ => StepView::Done(Err(unexpected_reply_view())),
        },
        RenewalView::Creating { current_value } => match reply {
            ReplyView::Issued(answer) => match created(answer) {
                Ok(credential) => StepView::Done(Ok(merged(current_value, credential))),
                Err(e) => StepView::Done(
                    Err(
                        directory_failure(
                            resource.secret_id,
                            "create service specific credential error: "@,
                            e,
                        ),
                    ),
                ),
            },
            _ => StepView::Done(Err(unexpected_reply_view())),
        },
        RenewalView::Resetting { current_value } => match reply {
            ReplyView::Issued(answer) => match reset(answer) {
                Ok(credential) => after_reset(resource, current_value, credential),
                Err(e) => StepView::Done(
                    Err(
                        directory_failure(
                            resource.secret_id,
                            "reset service specific credential error: "@,
                            e,
                        ),
                    ),
                ),
            },
            _ => StepView::Done(Err(unexpected_reply_view())),
        },
        RenewalView::Activating { current_value, credential } => match reply {
            ReplyView::Updated(answer) => match updated(answer) {
                Ok(_) => StepView::Done(
                    Ok(
                        merged(
                            current_value,
                            CredentialView { status: CredentialStatusView::Active, ..credential },
                        ),
                    ),
                ),
                Err(e) => StepView::Done(
                    Err(
                        directory_failure(
                            resource.secret_id,
                            "update service specific credential error: "@,
                            e,
                        ),
                    ),
                ),
            },
            _ => StepView::Done(Err(unexpected_reply_view())),
        },
    }
}

impl ServiceSpecificCredentialResource {
    /// The resource that `cfg` describes. Both the service and the user must
    /// be named; the service is looked at first.
    pub fn new(cfg: &Config) -> (r: RotatorResult<ServiceSpecificCredentialResource>)
        ensures
            crate::error::result_view(r) == resource_of(cfg@),
    {
        let service_name = match &cfg.service_name {
            Some(name) => name.clone(),
            None => {
                return Err(
                    RotatorError::InvalidConfig {
                        secret_id: cfg.secret_id.clone(),
                        message: owned("missing service name for service specific credential"),
                    },
                );
            },
        };
        let user_name = match &cfg.user_name {
            Some(name) => name.clone(),
            None => {
                return Err(
                    RotatorError::InvalidConfig {
                        secret_id: cfg.secret_id.clone(),
                        message: owned("missing resource arn for service specific credential"),
                    },
                );
            },
        };
        Ok(
            ServiceSpecificCredentialResource {
                secret_id: cfg.secret_id.clone(),
                user_name,
                service_name,
            },
        )
    }

    /// The failure of a request to the directory as this resource reports it.
    fn failure(&self, what: &str, error: &IamError) -> (e: RotatorError)
        ensures
            e@ == directory_failure(self@.secret_id, what@, error@),
    {
        let detail = error.debug_text();
        RotatorError::IamError {
            secret_id: self.secret_id.clone(),
            message: joined(what, detail.as_str()),
        }
    }

    /// Picks the credential to reset, as [`credential_to_reset`] says.
    pub fn select(credentials: &Vec<CredentialMetadata>, current_value: &SecretValue) -> (r: Option<
        usize,
    >)
        ensures
            match r {
                Some(i) => credential_to_reset(
                    metadata_views(credentials@),
                    credential_in_use(current_value@),
                ) == Some(i as int),
                None => credential_to_reset(
                    metadata_views(credentials@),
                    credential_in_use(current_value@),
                ) is None,
            },
    {
        let in_use: Option<&String> = match &current_value.secret {
            Some(secret) => match &secret.service_specific_credential_id {
                Some(id) => Some(id),
                None => None,
            },
            None => None,
        };
        let ghost views = metadata_views(credentials@);
        match in_use {
            Some(id) => {
                let mut i: usize = 0;
                while i < credentials.len()
                    invariant
                        i <= credentials.len(),
                        views == metadata_views(credentials@),
                        credential_in_use(current_value@) == Some(id@),
                        forall|j: int|
                            0 <= j < i ==> views[j].service_specific_credential_id == id@,
                    decreases credentials.len() - i,
                {
                    if credentials[i].service_specific_credential_id != *id {
                        proof {
                            lemma_first_other(views, id@, i as int);
                        }
                        return Some(i);
                    }
                    i += 1;
                }
                None
            },
            None => if credentials.len() > 0 {
                Some(0)
            } else {
                None
            },
        }
    }

    /// The secret to store for `credential`, as [`merged`] says.
    pub fn merge(current_value: SecretValue, credential: Credential) -> (r: Secret)
        ensures
            r@ == merged(current_value@, credential@),
    {
        let mut secret = match current_value.secret {
            Some(secret) => secret,
            None => Secret::default(),
        };
        secret.username = Some(credential.service_user_name);
        secret.password = Some(credential.service_password);
        secret.service_specific_credential_id = Some(credential.service_specific_credential_id);
        secret
    }

    /// Makes the secret that is to replace `current_value`, one request at a
    /// time: lists the user's credentials; creates one while the pool has
    /// room, else resets one that `current_value` does not name, and
    /// activates it if it came back inactive; then writes the credential into
    /// a copy of `current_value`.
    pub fn create_new_password(&self, state: Renewal, reply: Reply) -> (r: Step<Renewal, Secret>)
        ensures
            r@ == renewal_step(self@, state@, reply@),
    {
        match state {
            Renewal::Start { current_value } => Step::Ask(
                Request::ListServiceSpecificCredentials {
                    user_name: Some(self.user_name.clone()),
                    service_name: Some(self.service_name.clone()),
                },
                Renewal::Listing { current_value },
            ),
            Renewal::Listing { current_value } => match reply {
                Reply::Listed(answer) => match list_service_specific_credentials(answer) {
                    Ok(credentials) => {
                        if credentials.len() < MAX_SERVICE_SPECIFIC_CREDENTIALS {
                            Step::Ask(
                                Request::CreateServiceSpecificCredential {
                                    user_name: self.user_name.clone(),
                                    service_name: self.service_name.clone(),
                                },
                                Renewal::Creating { current_value },
                            )
                        } else {
                            match Self::select(&credentials, &current_value) {
                                Some(i) => Step::Ask(
                                    Request::ResetServiceSpecificCredential {
                                        service_specific_credential_id:
                                            credentials[i].service_specific_credential_id.clone(),
                                        user_name: Some(self.user_name.clone()),
                                    },
                                    Renewal::Resetting { current_value },
                                ),
                                None => Step::Done(
                                    Err(
                                        RotatorError::Other {
                                            message: owned("no empty credential slots to rotate"),
                                        },
                                    ),
                                ),
                            }
                        }
                    },
                    Err(e) => Step::Done(
                        Err(self.failure("list service specific credential error: ", &e)),
                    ),
                },
                _ => Step::Done(Err(unexpected_reply())),
            },
            Renewal::Creating { current_value } => match reply {
                Reply::Issued(answer) => match create_service_specific_credential(answer) {
                    Ok(credential) => Step::Done(Ok(Self::merge(current_value, credential))),
                    Err(e) => Step::Done(
                        Err(self.failure("create service specific credential error: ", &e)),
                    ),
                },
                _ => Step::Done(Err(unexpected_reply())),
            },
            Renewal::Resetting { current_value } => match reply {
                Reply::Issued(answer) => match reset_service_specific_credential(answer) {
                    Ok(credential) => {
                        let inactive = match credential.status {
                            CredentialStatus::Inactive => true,
                            _ => false,
                        };
                        if inactive {
                            Step::Ask(
                                Request::UpdateServiceSpecificCredential {
                                    service_specific_credential_id:
                                        credential.service_specific_credential_id.clone(),
                                    user_name: Some(self.user_name.clone()),
                                    status: String::from(CredentialStatus::Active),
                                },
                                Renewal::Activating { current_value, credential },
                            )
                        } else {
                            Step::Done(Ok(Self::merge(current_value, credential)))
                        }
                    },
                    Err(e) => Step::Done(
                        Err(self.failure("reset service specific credential error: ", &e)),
                    ),
                },
                _ => Step::Done(Err(unexpected_reply())),
            },
            Renewal::Activating { current_value, credential } => match reply {
                Reply::Updated(answer) => match update_service_specific_credential(answer) {
                    Ok(_) => {
                        let mut credential = credential;
                        credential.status = CredentialStatus::Active;
                        Step::Done(Ok(Self::merge(current_value, credential)))
                    },
                    Err(e) => Step::Done(
                        Err(self.failure("update service specific credential error: ", &e)),
                    ),
                },
                _ => Step::Done(Err(unexpected_reply())),
            },
        }
    }

    /// Nothing is to be done to set the password of a credential: the
    /// directory honours it as soon as it exists. The result is `Ok(())` for
    /// every secret.
    pub fn set_password(&self, _s: Secret) -> (r: RotatorResult<()>)
        ensures
            r == Ok::<(), RotatorError>(()),
    {
        Ok(())
    }

    /// Nothing is done to test the password of a credential. The result is
    /// `Ok(())` for every secret.
    pub fn test_password(&self, _s: Secret) -> (r: RotatorResult<()>)
        ensures
            r == Ok::<(), RotatorError>(()),
    {
        Ok(())
    }
}

/// A resource whose secrets can be rotated: one variant for each kind.
pub enum Resource {
    ServiceSpecificCredential(ServiceSpecificCredentialResource),
}

/// A [`Resource`] as specifications see it: every string as its characters.
pub enum ResourceView {
    ServiceSpecificCredential(ServiceSpecificCredentialResourceView),
}

impl View for Resource {
    type V = ResourceView;

    open spec fn view(&self) -> ResourceView {
        match *self {
            Resource::ServiceSpecificCredential(r) => ResourceView::ServiceSpecificCredential(r@),
        }
    }
}

/// The step that [`Resource::create_new_password`] takes from `state` on
/// `reply`.
pub open spec fn resource_step(
    resource: ResourceView,
    state: RenewalView,
    reply: ReplyView,
) -> StepView<RenewalView, SecretView> {
    match resource {
        ResourceView::ServiceSpecificCredential(r) => renewal_step(r, state, reply),
    }
}

impl Resource {
    /// Makes the secret that is to replace the one in use, as the kind of
    /// resource has it.
    pub fn create_new_password(&self, state: Renewal, reply: Reply) -> (r: Step<Renewal, Secret>)
        ensures
            r@ == resource_step(self@, state@, reply@),
    {
        match self {
            Resource::ServiceSpecificCredential(r) => r.create_new_password(state, reply),
        }
    }

    /// Applies a secret to the resource, as the kind of resource has it. For
    /// a credential of the directory that is nothing: the result is `Ok(())`
    /// for every secret.
    pub fn set_password(&self, s: Secret) -> (r: RotatorResult<()>)
        ensures
            r == Ok::<(), RotatorError>(()),
    {
        match self {
            Resource::ServiceSpecificCredential(r) => r.set_password(s),
        }
    }

    /// Tries a secret on the resource, as the kind of resource has it. For a
    /// credential of the directory that is nothing: the result is `Ok(())`
    /// for every secret.
    pub fn test_password(&self, s: Secret) -> (r: RotatorResult<()>)
        ensures
            r == Ok::<(), RotatorError>(()),
    {
        match self {
            Resource::ServiceSpecificCredential(r) => r.test_password(s),
        }
    }
}

/// A place that meets [`is_first_other`] is the one that
/// [`credential_to_reset`] picks.
pub proof fn lemma_first_other(credentials: Seq<CredentialMetadataView>, id: Seq<char>, i: int)
    requires
        is_first_other(credentials, id, i),
    ensures
        credential_to_reset(credentials, Some(id)) == Some(i),
{
    let k = first_other(credentials, id);
    assert(is_first_other(credentials, id, k));
    if k < i {
        assert(credentials[k].service_specific_credential_id == id);
    } else if i < k {
        assert(credentials[i].service_specific_credential_id == id);
    }
}

} // verus!
