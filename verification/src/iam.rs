//! Credentials of the directory service, as this library sees them.
use vstd::prelude::*;
use vstd::std_specs::convert::FromSpecImpl;
use crate::exchange::{Fault, FaultKind, FaultView};
use crate::text::{joined, owned, quote, quoted, same};

verus! {

/// Whether the directory accepts a credential.
#[derive(Debug, Clone, PartialEq)]
pub enum CredentialStatus {
    Active,
    Inactive,
    Unknown(String),
}

/// A [`CredentialStatus`] as specifications see it: every string as its characters.
pub enum CredentialStatusView {
    Active,
    Inactive,
    Unknown(Seq<char>),
}

impl View for CredentialStatus {
    type V = CredentialStatusView;

    open spec fn view(&self) -> CredentialStatusView {
        match *self {
            CredentialStatus::Active => CredentialStatusView::Active,
            CredentialStatus::Inactive => CredentialStatusView::Inactive,
            CredentialStatus::Unknown(s) => CredentialStatusView::Unknown(s@),
        }
    }
}

/// The status that the directory's text stands for.
pub open spec fn status_of_text(s: Seq<char>) -> CredentialStatusView {
    if s == "Active"@ {
        CredentialStatusView::Active
    } else if s == "Inactive"@ {
        CredentialStatusView::Inactive
    } else {
        CredentialStatusView::Unknown(s)
    }
}

/// The directory's text for a status.
pub open spec fn text_of_status(status: CredentialStatusView) -> Seq<char> {
    match status {
        CredentialStatusView::Active => "Active"@,
        CredentialStatusView::Inactive => "Inactive"@,
        CredentialStatusView::Unknown(s) => s,
    }
}

impl<'a> From<&'a str> for CredentialStatus {
    fn from(s: &'a str) -> (r: CredentialStatus)
        ensures
            r@ == status_of_text(s@),
    {
        if same(s, "Active") {
            CredentialStatus::Active
        } else if same(s, "Inactive") {
            CredentialStatus::Inactive
        } else {
            CredentialStatus::Unknown(owned(s))
        }
    }
}

impl<'a> FromSpecImpl<&'a str> for CredentialStatus {
    open spec fn obeys_from_spec() -> bool {
        false
    }

    open spec fn from_spec(s: &'a str) -> CredentialStatus {
        arbitrary()
    }
}

impl From<CredentialStatus> for String {
    fn from(status: CredentialStatus) -> (r: String)
        ensures
            r@ == text_of_status(status@),
    {
        match status {
            CredentialStatus::Active => owned("Active"),
            CredentialStatus::Inactive => owned("Inactive"),
            CredentialStatus::Unknown(s) => s,
        }
    }
}

impl FromSpecImpl<CredentialStatus> for String {
    open spec fn obeys_from_spec() -> bool {
        false
    }

    open spec fn from_spec(status: CredentialStatus) -> String {
        arbitrary()
    }
}

/// A credential as the directory lists it: everything but the password, the
/// status still as the directory wrote it.
#[derive(Debug, Clone, PartialEq)]
pub struct CredentialMetadataRecord {
    pub create_date: String,
    pub service_name: String,
    pub service_specific_credential_id: String,
    pub service_user_name: String,
    pub status: String,
    pub user_name: String,
}

/// A credential as the directory hands it out when it creates or resets one,
/// the status still as the directory wrote it. It has no `Debug`, so that the
/// password cannot reach a log by accident.
#[derive(Clone, PartialEq)]
pub struct CredentialRecord {
    pub create_date: String,
    pub service_name: String,
    pub service_password: String,
    pub service_specific_credential_id: String,
    pub service_user_name: String,
    pub status: String,
    pub user_name: String,
}

/// A listed credential.
#[derive(Debug, Clone, PartialEq)]
pub struct CredentialMetadata {
    pub create_date: String,
    pub service_name: String,
    pub service_specific_credential_id: String,
    pub service_user_name: String,
    pub status: CredentialStatus,
    pub user_name: String,
}

/// A [`CredentialMetadata`] as specifications see it: every string as its characters.
pub struct CredentialMetadataView {
    pub create_date: Seq<char>,
    pub service_name: Seq<char>,
    pub service_specific_credential_id: Seq<char>,
    pub service_user_name: Seq<char>,
    pub status: CredentialStatusView,
    pub user_name: Seq<char>,
}

impl View for CredentialMetadata {
    type V = CredentialMetadataView;

    open spec fn view(&self) -> CredentialMetadataView {
        CredentialMetadataView {
            create_date: self.create_date@,
            service_name: self.service_name@,
            service_specific_credential_id: self.service_specific_credential_id@,
            service_user_name: self.service_user_name@,
            status: self.status@,
            user_name: self.user_name@,
        }
    }
}

impl View for CredentialMetadataRecord {
    type V = CredentialMetadataView;

    open spec fn view(&self) -> CredentialMetadataView {
        CredentialMetadataView {
            create_date: self.create_date@,
            service_name: self.service_name@,
            service_specific_credential_id: self.service_specific_credential_id@,
            service_user_name: self.service_user_name@,
            status: status_of_text(self.status@),
            user_name: self.user_name@,
        }
    }
}

impl From<CredentialMetadataRecord> for CredentialMetadata {
    fn from(m: CredentialMetadataRecord) -> (r: CredentialMetadata)
        ensures
            r@ == m@,
    {
        let status = CredentialStatus::from(m.status.as_str());
        CredentialMetadata {
            create_date: m.create_date,
            service_name: m.service_name,
            service_specific_credential_id: m.service_specific_credential_id,
            service_user_name: m.service_user_name,
            status,
            user_name: m.user_name,
        }
    }
}

impl FromSpecImpl<CredentialMetadataRecord> for CredentialMetadata {
    open spec fn obeys_from_spec() -> bool {
        false
    }

    open spec fn from_spec(m: CredentialMetadataRecord) -> CredentialMetadata {
        arbitrary()
    }
}

/// A credential with its password. It has no `Debug`, so that the password
/// cannot reach a log by accident.
#[derive(Clone, PartialEq)]
pub struct Credential {
    pub create_date: String,
    pub service_name: String,
    pub service_password: String,
    pub service_specific_credential_id: String,
    pub service_user_name: String,
    pub status: CredentialStatus,
    pub user_name: String,
}

/// A [`Credential`] as specifications see it: every string as its characters.
pub struct CredentialView {
    pub create_date: Seq<char>,
    pub service_name: Seq<char>,
    pub service_password: Seq<char>,
    pub service_specific_credential_id: Seq<char>,
    pub service_user_name: Seq<char>,
    pub status: CredentialStatusView,
    pub user_name: Seq<char>,
}

impl View for Credential {
    type V = CredentialView;

    open spec fn view(&self) -> CredentialView {
        CredentialView {
            create_date: self.create_date@,
            service_name: self.service_name@,
            service_password: self.service_password@,
            service_specific_credential_id: self.service_specific_credential_id@,
            service_user_name: self.service_user_name@,
            status: self.status@,
            user_name: self.user_name@,
        }
    }
}

impl View for CredentialRecord {
    type V = CredentialView;

    open spec fn view(&self) -> CredentialView {
        CredentialView {
            create_date: self.create_date@,
            service_name: self.service_name@,
            service_password: self.service_password@,
            service_specific_credential_id: self.service_specific_credential_id@,
            service_user_name: self.service_user_name@,
            status: status_of_text(self.status@),
            user_name: self.user_name@,
        }
    }
}

impl From<CredentialRecord> for Credential {
    fn from(m: CredentialRecord) -> (r: Credential)
        ensures
            r@ == m@,
    {
        let status = CredentialStatus::from(m.status.as_str());
        Credential {
            create_date: m.create_date,
            service_name: m.service_name,
            service_password: m.service_password,
            service_specific_credential_id: m.service_specific_credential_id,
            service_user_name: m.service_user_name,
            status,
            user_name: m.user_name,
        }
    }
}

impl FromSpecImpl<CredentialRecord> for Credential {
    open spec fn obeys_from_spec() -> bool {
        false
    }

    open spec fn from_spec(m: CredentialRecord) -> Credential {
        arbitrary()
    }
}

/// The views of a list of credentials.
pub open spec fn metadata_views(items: Seq<CredentialMetadata>) -> Seq<CredentialMetadataView> {
    Seq::new(items.len(), |i: int| items[i]@)
}

/// The views of a list of credentials as the directory wrote them.
pub open spec fn record_views(items: Seq<CredentialMetadataRecord>) -> Seq<CredentialMetadataView> {
    Seq::new(items.len(), |i: int| items[i]@)
}

/// Why a request to the directory failed.
#[derive(Debug, Clone, PartialEq)]
pub enum IamError {
    EntityNotFound { message: String },
    ServiceNotSupported { message: String },
    LimitExceeded { message: String },
    RusotoError { message: String },
    MissingCredentialInResponse,
}

/// A [`IamError`] as specifications see it: every string as its characters.
pub enum IamErrorView {
    EntityNotFound { message: Seq<char> },
    ServiceNotSupported { message: Seq<char> },
    LimitExceeded { message: Seq<char> },
    RusotoError { message: Seq<char> },
    MissingCredentialInResponse,
}

impl View for IamError {
    type V = IamErrorView;

    open spec fn view(&self) -> IamErrorView {
        match *self {
            IamError::EntityNotFound { message } => IamErrorView::EntityNotFound {
                message: message@,
            },
            IamError::ServiceNotSupported { message } => IamErrorView::ServiceNotSupported {
                message: message@,
            },
            IamError::LimitExceeded { message } => IamErrorView::LimitExceeded {
                message: message@,
            },
            IamError::RusotoError { message } => IamErrorView::RusotoError { message: message@ },
            IamError::MissingCredentialInResponse => IamErrorView::MissingCredentialInResponse,
        }
    }
}

pub type IamResult<T> = Result<T, IamError>;

/// The directory's refusal as this library names it, where the listing of
/// credentials was asked for.
pub open spec fn list_fault(fault: FaultView) -> IamErrorView {
    match fault.kind {
        FaultKind::NoSuchEntity => IamErrorView::EntityNotFound { message: fault.message },
        FaultKind::ServiceNotSupported => IamErrorView::ServiceNotSupported {
            message: fault.message,
        },
        _ => IamErrorView::RusotoError { message: fault.debug },
    }
}

/// The directory's refusal as this library names it, where a new credential
/// was asked for.
pub open spec fn create_fault(fault: FaultView) -> IamErrorView {
    match fault.kind {
        FaultKind::LimitExceeded => IamErrorView::LimitExceeded { message: fault.message },
        FaultKind::NoSuchEntity => IamErrorView::EntityNotFound { message: fault.message },
        FaultKind::ServiceNotSupported => IamErrorView::ServiceNotSupported {
            message: fault.message,
        },
        _ => IamErrorView::RusotoError { message: fault.debug },
    }
}

/// The directory's refusal as this library names it, where one credential
/// was to be reset or to change its status.
pub open spec fn credential_fault(fault: FaultView) -> IamErrorView {
    match fault.kind {
        FaultKind::NoSuchEntity => IamErrorView::EntityNotFound { message: fault.message },
        _ => IamErrorView::RusotoError { message: fault.debug },
    }
}

/// What the answer to a listing of credentials amounts to.
pub open spec fn listed(reply: Result<Option<Seq<CredentialMetadataView>>, FaultView>) -> Result<
    Seq<CredentialMetadataView>,
    IamErrorView,
> {
    match reply {
        Ok(Some(list)) => Ok(list),
        Ok(None) => Ok(Seq::empty()),
        Err(fault) => Err(list_fault(fault)),
    }
}

/// What the answer to a request for a new credential amounts to.
pub open spec fn created(reply: Result<Option<CredentialView>, FaultView>) -> Result<
    CredentialView,
    IamErrorView,
> {
    match reply {
        Ok(Some(credential)) => Ok(credential),
        Ok(None) => Err(IamErrorView::MissingCredentialInResponse),
        Err(fault) => Err(create_fault(fault)),
    }
}

/// What the answer to the reset of a credential amounts to.
pub open spec fn reset(reply: Result<Option<CredentialView>, FaultView>) -> Result<
    CredentialView,
    IamErrorView,
> {
    match reply {
        Ok(Some(credential)) => Ok(credential),
        Ok(None) => Err(IamErrorView::MissingCredentialInResponse),
        Err(fault) => Err(credential_fault(fault)),
    }
}

/// What the answer to a change of status amounts to.
pub open spec fn updated(reply: Result<(), FaultView>) -> Result<(), IamErrorView> {
    match reply {
        Ok(_) => Ok(()),
        Err(fault) => Err(credential_fault(fault)),
    }
}

/// Reads the directory's answer to a listing of credentials. A missing list
/// is an empty one. Of the refusals, an unknown user and an unsupported
/// service keep their kind and message; any other is an
/// [`IamError::RusotoError`] with the failure's diagnostic text.
pub fn list_service_specific_credentials(
    reply: Result<Option<Vec<CredentialMetadataRecord>>, Fault>,
) -> (r: IamResult<Vec<CredentialMetadata>>)
    ensures
        match r {
            Ok(list) => listed(crate::exchange::listed_view(reply)) == Ok::<
                Seq<CredentialMetadataView>,
                IamErrorView,
            >(metadata_views(list@)),
            Err(e) => listed(crate::exchange::listed_view(reply)) == Err::<
                Seq<CredentialMetadataView>,
                IamErrorView,
            >(e@),
        },
{
    match reply {
        Ok(Some(records)) => {
            let ghost all = records@;
            let mut list: Vec<CredentialMetadata> = Vec::new();
            for record in it: records.into_iter()
                invariant
                    it.seq() == all,
                    list@.len() == it.index(),
                    forall|j: int| 0 <= j < list@.len() ==> list@[j]@ == all[j]@,
            {
                list.push(CredentialMetadata::from(record));
            }
            assert(metadata_views(list@) =~= record_views(all));
            Ok(list)
        },
        Ok(None) => {
            let list: Vec<CredentialMetadata> = Vec::new();
            assert(metadata_views(list@) =~= Seq::<CredentialMetadataView>::empty());
            Ok(list)
        },
        Err(fault) => match fault.kind {
            FaultKind::NoSuchEntity => Err(IamError::EntityNotFound { message: fault.message }),
            FaultKind::ServiceNotSupported => Err(
                IamError::ServiceNotSupported { message: fault.message },
            ),
            _ => Err(IamError::RusotoError { message: fault.debug }),
        },
    }
}

/// Reads the directory's answer to a request for a new credential. An answer
/// without a credential is [`IamError::MissingCredentialInResponse`]. Of the
/// refusals, a full pool, an unknown user and an unsupported service keep
/// their kind and message; any other is an [`IamError::RusotoError`] with the
/// failure's diagnostic text.
pub fn create_service_specific_credential(reply: Result<Option<CredentialRecord>, Fault>) -> (r:
    IamResult<Credential>)
    ensures
        match r {
            Ok(c) => created(crate::exchange::issued_view(reply)) == Ok::<
                CredentialView,
                IamErrorView,
            >(c@),
            Err(e) => created(crate::exchange::issued_view(reply)) == Err::<
                CredentialView,
                IamErrorView,
            >(e@),
        },
{
    match reply {
        Ok(Some(record)) => Ok(Credential::from(record)),
        Ok(None) => Err(IamError::MissingCredentialInResponse),
        Err(fault) => match fault.kind {
            FaultKind::LimitExceeded => Err(IamError::LimitExceeded { message: fault.message }),
            FaultKind::NoSuchEntity => Err(IamError::EntityNotFound { message: fault.message }),
            FaultKind::ServiceNotSupported => Err(
                IamError::ServiceNotSupported { message: fault.message },
            ),
            _ => Err(IamError::RusotoError { message: fault.debug }),
        },
    }
}

/// Reads the directory's answer to the reset of a credential. An answer
/// without a credential is [`IamError::MissingCredentialInResponse`]. Of the
/// refusals, an unknown credential keeps its kind and message; any other is an
/// [`IamError::RusotoError`] with the failure's diagnostic text.
pub fn reset_service_specific_credential(reply: Result<Option<CredentialRecord>, Fault>) -> (r:
    IamResult<Credential>)
    ensures
        match r {
            Ok(c) => reset(crate::exchange::issued_view(reply)) == Ok::<
                CredentialView,
                IamErrorView,
            >(c@),
            Err(e) => reset(crate::exchange::issued_view(reply)) == Err::<
                CredentialView,
                IamErrorView,
            >(e@),
        },
{
    match reply {
        Ok(Some(record)) => Ok(Credential::from(record)),
        Ok(None) => Err(IamError::MissingCredentialInResponse),
        Err(fault) => match fault.kind {
            FaultKind::NoSuchEntity => Err(IamError::EntityNotFound { message: fault.message }),
            _ => Err(IamError::RusotoError { message: fault.debug }),
        },
    }
}

/// Reads the directory's answer to a change of a credential's status. Of the
/// refusals, an unknown credential keeps its kind and message; any other is an
/// [`IamError::RusotoError`] with the failure's diagnostic text.
pub fn update_service_specific_credential(reply: Result<(), Fault>) -> (r: IamResult<()>)
    ensures
        match r {
            Ok(_) => updated(crate::exchange::done_view(reply)) == Ok::<(), IamErrorView>(()),
            Err(e) => updated(crate::exchange::done_view(reply)) == Err::<(), IamErrorView>(e@),
        },
{
    match reply {
        Ok(_) => Ok(()),
        Err(fault) => match fault.kind {
            FaultKind::NoSuchEntity => Err(IamError::EntityNotFound { message: fault.message }),
            _ => Err(IamError::RusotoError { message: fault.debug }),
        },
    }
}

/// The diagnostic text of a failure that is a variant with a message: the
/// name of the variant, then the message as [`quoted`] shows it, in braces.
pub open spec fn with_message(variant: Seq<char>, message: Seq<char>) -> Seq<char> {
    variant + " { message: "@ + quoted(message) + " }"@
}

/// The diagnostic text of a directory failure, as `{:?}` writes it.
pub open spec fn iam_error_debug(error: IamErrorView) -> Seq<char> {
    match error {
        IamErrorView::EntityNotFound { message } => with_message("EntityNotFound"@, message),
        IamErrorView::ServiceNotSupported { message } => with_message(
            "ServiceNotSupported"@,
            message,
        ),
        IamErrorView::LimitExceeded { message } => with_message("LimitExceeded"@, message),
        IamErrorView::RusotoError { message } => with_message("RusotoError"@, message),
        IamErrorView::MissingCredentialInResponse => "MissingCredentialInResponse"@,
    }
}

fn text_with_message(variant: &str, message: &str) -> (r: String)
    ensures
        r@ == with_message(variant@, message@),
{
    let shown = quote(message);
    let start = joined(variant, " { message: ");
    let middle = joined(start.as_str(), shown.as_str());
    joined(middle.as_str(), " }")
}

impl IamError {
    /// The failure as diagnostic text.
    pub fn debug_text(&self) -> (r: String)
        ensures
            r@ == iam_error_debug(self@),
    {
        match self {
            IamError::EntityNotFound { message } => text_with_message(
                "EntityNotFound",
                message.as_str(),
            ),
            IamError::ServiceNotSupported { message } => text_with_message(
                "ServiceNotSupported",
                message.as_str(),
            ),
            IamError::LimitExceeded { message } => text_with_message(
                "LimitExceeded",
                message.as_str(),
            ),
            IamError::RusotoError { message } => text_with_message("RusotoError", message.as_str()),
            IamError::MissingCredentialInResponse => owned("MissingCredentialInResponse"),
        }
    }
}

} // verus!
