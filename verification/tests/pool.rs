use rotator::config::{Config, ResourceType};
use rotator::error::{RotatorError, RotatorResult};
use rotator::exchange::{Fault, FaultKind, Reply, Request, Step};
use rotator::iam::{
    create_service_specific_credential, list_service_specific_credentials,
    reset_service_specific_credential, update_service_specific_credential, Credential,
    CredentialMetadata, CredentialMetadataRecord, CredentialRecord, CredentialStatus, IamError,
};
use rotator::passwd::get_random_password;
use rotator::resource::{
    Draw, GenericResource, Renewal, Resource, ServiceSpecificCredentialResource,
    MAX_SERVICE_SPECIFIC_CREDENTIALS,
};
use rotator::value::{Secret, SecretValue};
use std::collections::HashMap;

fn config(user_name: Option<&str>, service_name: Option<&str>) -> Config {
    Config {
        secret_id: "sec".to_string(),
        resource_type: ResourceType::ServiceSpecificCredential,
        user_name: user_name.map(|s| s.to_string()),
        service_name: service_name.map(|s| s.to_string()),
    }
}

fn resource() -> ServiceSpecificCredentialResource {
    match ServiceSpecificCredentialResource::new(&config(Some("u"), Some("s"))) {
        Ok(r) => r,
        Err(_) => panic!("the configuration names a user and a service"),
    }
}

fn renew(
    current_value: SecretValue,
    script: Vec<Reply>,
) -> (Vec<Request>, Option<RotatorResult<Secret>>) {
    let r = resource();
    let mut requests = Vec::new();
    let mut state = Renewal::Start { current_value };
    let mut reply = Reply::Nothing;
    let mut script = script.into_iter();
    loop {
        match r.create_new_password(state, reply) {
            Step::Done(result) => return (requests, Some(result)),
            Step::Ask(request, next) => {
                requests.push(request);
                state = next;
                match script.next() {
                    Some(r) => reply = r,
                    None => return (requests, None),
                }
            }
        }
    }
}

fn listed(id: &str) -> CredentialMetadataRecord {
    CredentialMetadataRecord {
        create_date: "2020-01-01T00:00:00Z".to_string(),
        service_name: "s".to_string(),
        service_specific_credential_id: id.to_string(),
        service_user_name: "u-at-1".to_string(),
        status: "Active".to_string(),
        user_name: "u".to_string(),
    }
}

fn issued(id: &str, status: &str) -> CredentialRecord {
    CredentialRecord {
        create_date: "2020-01-01T00:00:00Z".to_string(),
        service_name: "s".to_string(),
        service_password: "pw-".to_string() + id,
        service_specific_credential_id: id.to_string(),
        service_user_name: "u-at-1".to_string(),
        status: status.to_string(),
        user_name: "u".to_string(),
    }
}

fn metadata(id: &str) -> CredentialMetadata {
    CredentialMetadata::from(listed(id))
}

fn in_use(id: Option<&str>) -> SecretValue {
    let mut attributes = HashMap::new();
    attributes.insert("engine".to_string(), serde_json::Value::String("git".to_string()));
    attributes.insert("depth".to_string(), serde_json::Value::from(1));
    SecretValue {
        secret: Some(Secret {
            username: Some("old-user".to_string()),
            password: Some("old-password".to_string()),
            service_specific_credential_id: id.map(|s| s.to_string()),
            attributes,
        }),
    }
}

fn nothing() -> SecretValue {
    SecretValue { secret: None }
}

fn fault(kind: FaultKind, message: &str, debug: &str) -> Fault {
    Fault { kind, message: message.to_string(), debug: debug.to_string() }
}

fn list_request() -> Request {
    Request::ListServiceSpecificCredentials {
        user_name: Some("u".to_string()),
        service_name: Some("s".to_string()),
    }
}

fn create_request() -> Request {
    Request::CreateServiceSpecificCredential {
        user_name: "u".to_string(),
        service_name: "s".to_string(),
    }
}

fn reset_request(id: &str) -> Request {
    Request::ResetServiceSpecificCredential {
        service_specific_credential_id: id.to_string(),
        user_name: Some("u".to_string()),
    }
}

fn is_reset(request: &Request) -> bool {
    matches!(request, Request::ResetServiceSpecificCredential { .. })
}

#[test]
fn the_pool_holds_two() {
    assert_eq!(MAX_SERVICE_SPECIFIC_CREDENTIALS, 2);
}

#[test]
fn a_resource_needs_a_service_and_a_user() {
    assert!(ServiceSpecificCredentialResource::new(&config(Some("u"), Some("s"))).is_ok());
    match ServiceSpecificCredentialResource::new(&config(Some("u"), None)) {
        Err(e) => assert_eq!(
            e,
            RotatorError::InvalidConfig {
                secret_id: "sec".to_string(),
                message: "missing service name for service specific credential".to_string(),
            }
        ),
        Ok(_) => panic!("no service is named"),
    }
    match ServiceSpecificCredentialResource::new(&config(None, Some("s"))) {
        Err(e) => assert_eq!(
            e,
            RotatorError::InvalidConfig {
                secret_id: "sec".to_string(),
                message: "missing resource arn for service specific credential".to_string(),
            }
        ),
        Ok(_) => panic!("no user is named"),
    }
    match ServiceSpecificCredentialResource::new(&config(None, None)) {
        Err(e) => assert_eq!(
            e,
            RotatorError::InvalidConfig {
                secret_id: "sec".to_string(),
                message: "missing service name for service specific credential".to_string(),
            }
        ),
        Ok(_) => panic!("nothing is named"),
    }
}

#[test]
fn room_in_the_pool_is_filled() {
    for pool in vec![vec![], vec![listed("c1")]] {
        let (requests, outcome) = renew(
            in_use(Some("c1")),
            vec![Reply::Listed(Ok(Some(pool))), Reply::Issued(Ok(Some(issued("c9", "Active"))))],
        );
        assert!(requests == vec![list_request(), create_request()]);
        assert!(!requests.iter().any(is_reset));
        match outcome {
            Some(Ok(secret)) => {
                assert_eq!(secret.username, Some("u-at-1".to_string()));
                assert_eq!(secret.password, Some("pw-c9".to_string()));
                assert_eq!(secret.service_specific_credential_id, Some("c9".to_string()));
            }
            _ => panic!("the directory created a credential"),
        }
    }
}

#[test]
fn a_list_that_is_missing_is_an_empty_pool() {
    let (requests, _) = renew(nothing(), vec![Reply::Listed(Ok(None))]);
    assert!(requests == vec![list_request(), create_request()]);
}

#[test]
fn a_full_pool_resets_the_other_credential_in_either_order() {
    let (requests, _) = renew(
        in_use(Some("c1")),
        vec![Reply::Listed(Ok(Some(vec![listed("c1"), listed("c2")])))],
    );
    assert!(requests == vec![list_request(), reset_request("c2")]);
    let (requests, _) = renew(
        in_use(Some("c1")),
        vec![Reply::Listed(Ok(Some(vec![listed("c2"), listed("c1")])))],
    );
    assert!(requests == vec![list_request(), reset_request("c2")]);
    let (requests, _) = renew(
        in_use(Some("c2")),
        vec![Reply::Listed(Ok(Some(vec![listed("c1"), listed("c2")])))],
    );
    assert!(requests == vec![list_request(), reset_request("c1")]);
}

#[test]
fn a_full_pool_with_no_credential_in_use_resets_the_first() {
    for current in vec![in_use(None), nothing()] {
        let (requests, _) =
            renew(current, vec![Reply::Listed(Ok(Some(vec![listed("c1"), listed("c2")])))]);
        assert!(requests == vec![list_request(), reset_request("c1")]);
    }
}

#[test]
fn a_pool_of_nothing_but_the_credential_in_use_cannot_be_rotated() {
    let (requests, outcome) = renew(
        in_use(Some("c1")),
        vec![Reply::Listed(Ok(Some(vec![listed("c1"), listed("c1")])))],
    );
    assert!(requests == vec![list_request()]);
    match outcome {
        Some(Err(e)) => assert_eq!(
            e,
            RotatorError::Other { message: "no empty credential slots to rotate".to_string() }
        ),
        _ => panic!("there is no credential to reset"),
    }
}

#[test]
fn select_picks_the_first_credential_not_in_use() {
    let pool = vec![metadata("c1"), metadata("c1"), metadata("c3"), metadata("c4")];
    assert_eq!(ServiceSpecificCredentialResource::select(&pool, &in_use(Some("c1"))), Some(2));
    assert_eq!(ServiceSpecificCredentialResource::select(&pool, &in_use(Some("c3"))), Some(0));
    assert_eq!(ServiceSpecificCredentialResource::select(&pool, &in_use(None)), Some(0));
    assert_eq!(ServiceSpecificCredentialResource::select(&pool, &nothing()), Some(0));
    assert_eq!(ServiceSpecificCredentialResource::select(&vec![], &in_use(Some("c1"))), None);
    assert_eq!(ServiceSpecificCredentialResource::select(&vec![], &nothing()), None);
}

#[test]
fn an_inactive_credential_is_activated_once() {
    let (requests, outcome) = renew(
        in_use(Some("c1")),
        vec![
            Reply::Listed(Ok(Some(vec![listed("c1"), listed("c2")]))),
            Reply::Issued(Ok(Some(issued("c2", "Inactive")))),
            Reply::Updated(Ok(())),
        ],
    );
    assert_eq!(requests.len(), 3);
    assert!(
        requests[2]
            == Request::UpdateServiceSpecificCredential {
                service_specific_credential_id: "c2".to_string(),
                user_name: Some("u".to_string()),
                status: "Active".to_string(),
            }
    );
    let updates = requests
        .iter()
        .filter(|r| matches!(r, Request::UpdateServiceSpecificCredential { .. }))
        .count();
    assert_eq!(updates, 1);
    match outcome {
        Some(Ok(secret)) => {
            assert_eq!(secret.service_specific_credential_id, Some("c2".to_string()));
            assert_eq!(secret.password, Some("pw-c2".to_string()));
        }
        _ => panic!("the directory activated the credential"),
    }
}

#[test]
fn a_credential_that_is_not_inactive_is_not_activated() {
    for status in vec!["Active", "Suspended"] {
        let (requests, outcome) = renew(
            in_use(Some("c1")),
            vec![
                Reply::Listed(Ok(Some(vec![listed("c1"), listed("c2")]))),
                Reply::Issued(Ok(Some(issued("c2", status)))),
            ],
        );
        assert!(requests == vec![list_request(), reset_request("c2")]);
        assert!(matches!(outcome, Some(Ok(_))));
    }
}

#[test]
fn a_rotation_keeps_the_fields_it_does_not_know() {
    let before = in_use(Some("c1"));
    let kept = match &before.secret {
        Some(secret) => secret.attributes.clone(),
        None => panic!("there is a secret in use"),
    };
    let (_, outcome) = renew(
        before,
        vec![
            Reply::Listed(Ok(Some(vec![listed("c1")]))),
            Reply::Issued(Ok(Some(issued("c2", "Active")))),
        ],
    );
    match outcome {
        Some(Ok(secret)) => {
            assert_eq!(secret.attributes, kept);
            assert_eq!(secret.attributes.len(), 2);
            assert_eq!(
                secret.attributes.get("engine"),
                Some(&serde_json::Value::String("git".to_string()))
            );
            assert_eq!(secret.username, Some("u-at-1".to_string()));
        }
        _ => panic!("the directory created a credential"),
    }
}

#[test]
fn merge_starts_from_an_empty_secret_where_there_is_none() {
    let secret =
        ServiceSpecificCredentialResource::merge(nothing(), Credential::from(issued("c1", "Active")));
    assert_eq!(secret.username, Some("u-at-1".to_string()));
    assert_eq!(secret.password, Some("pw-c1".to_string()));
    assert_eq!(secret.service_specific_credential_id, Some("c1".to_string()));
    assert!(secret.attributes.is_empty());
}

#[test]
fn the_directory_s_refusals_are_reported_with_the_request_that_failed() {
    let gone = || fault(FaultKind::NoSuchEntity, "no user", "Service(NoSuchEntity(\"no user\"))");
    let full = vec![listed("c1"), listed("c2")];

    let (_, outcome) = renew(nothing(), vec![Reply::Listed(Err(gone()))]);
    match outcome {
        Some(Err(e)) => assert_eq!(
            e,
            RotatorError::IamError {
                secret_id: "sec".to_string(),
                message: "list service specific credential error: EntityNotFound { message: \"no user\" }"
                    .to_string(),
            }
        ),
        _ => panic!("the listing failed"),
    }

    let (_, outcome) = renew(
        nothing(),
        vec![
            Reply::Listed(Ok(Some(vec![]))),
            Reply::Issued(Err(fault(FaultKind::LimitExceeded, "two", "Service(LimitExceeded)"))),
        ],
    );
    match outcome {
        Some(Err(e)) => assert_eq!(
            e,
            RotatorError::IamError {
                secret_id: "sec".to_string(),
                message: "create service specific credential error: LimitExceeded { message: \"two\" }"
                    .to_string(),
            }
        ),
        _ => panic!("the creating failed"),
    }

    let (_, outcome) =
        renew(nothing(), vec![Reply::Listed(Ok(Some(vec![]))), Reply::Issued(Ok(None))]);
    match outcome {
        Some(Err(e)) => assert_eq!(
            e,
            RotatorError::IamError {
                secret_id: "sec".to_string(),
                message: "create service specific credential error: MissingCredentialInResponse"
                    .to_string(),
            }
        ),
        _ => panic!("the directory sent no credential"),
    }

    let (_, outcome) = renew(
        nothing(),
        vec![
            Reply::Listed(Ok(Some(full.clone()))),
            Reply::Issued(Err(fault(FaultKind::Other, "", "HttpDispatch(timeout)"))),
        ],
    );
    match outcome {
        Some(Err(e)) => assert_eq!(
            e,
            RotatorError::IamError {
                secret_id: "sec".to_string(),
                message: "reset service specific credential error: RusotoError { message: \"HttpDispatch(timeout)\" }"
                    .to_string(),
            }
        ),
        _ => panic!("the reset failed"),
    }

    let (_, outcome) = renew(
        nothing(),
        vec![
            Reply::Listed(Ok(Some(full.clone()))),
            Reply::Issued(Ok(Some(issued("c1", "Inactive")))),
            Reply::Updated(Err(gone())),
        ],
    );
    match outcome {
        Some(Err(e)) => assert_eq!(
            e,
            RotatorError::IamError {
                secret_id: "sec".to_string(),
                message: "update service specific credential error: EntityNotFound { message: \"no user\" }"
                    .to_string(),
            }
        ),
        _ => panic!("the activation failed"),
    }
}

#[test]
fn the_directory_s_answers_are_read_by_their_kind() {
    let f = |kind: FaultKind| fault(kind, "said", "whole");
    let said = "said".to_string();
    let whole = "whole".to_string();

    assert_eq!(
        list_service_specific_credentials(Ok(Some(vec![listed("c1"), listed("c2")]))),
        Ok(vec![metadata("c1"), metadata("c2")])
    );
    assert_eq!(list_service_specific_credentials(Ok(None)), Ok(vec![]));
    assert_eq!(
        list_service_specific_credentials(Err(f(FaultKind::NoSuchEntity))),
        Err(IamError::EntityNotFound { message: said.clone() })
    );
    assert_eq!(
        list_service_specific_credentials(Err(f(FaultKind::ServiceNotSupported))),
        Err(IamError::ServiceNotSupported { message: said.clone() })
    );
    assert_eq!(
        list_service_specific_credentials(Err(f(FaultKind::LimitExceeded))),
        Err(IamError::RusotoError { message: whole.clone() })
    );

    assert!(
        create_service_specific_credential(Ok(Some(issued("c1", "Active"))))
            == Ok(Credential::from(issued("c1", "Active")))
    );
    assert!(
        create_service_specific_credential(Ok(None)) == Err(IamError::MissingCredentialInResponse)
    );
    assert!(
        create_service_specific_credential(Err(f(FaultKind::LimitExceeded)))
            == Err(IamError::LimitExceeded { message: said.clone() })
    );
    assert!(
        create_service_specific_credential(Err(f(FaultKind::NoSuchEntity)))
            == Err(IamError::EntityNotFound { message: said.clone() })
    );
    assert!(
        create_service_specific_credential(Err(f(FaultKind::ServiceNotSupported)))
            == Err(IamError::ServiceNotSupported { message: said.clone() })
    );
    assert!(
        create_service_specific_credential(Err(f(FaultKind::Other)))
            == Err(IamError::RusotoError { message: whole.clone() })
    );

    assert!(
        reset_service_specific_credential(Ok(Some(issued("c1", "Inactive"))))
            == Ok(Credential::from(issued("c1", "Inactive")))
    );
    assert!(
        reset_service_specific_credential(Ok(None)) == Err(IamError::MissingCredentialInResponse)
    );
    assert!(
        reset_service_specific_credential(Err(f(FaultKind::NoSuchEntity)))
            == Err(IamError::EntityNotFound { message: said.clone() })
    );
    assert!(
        reset_service_specific_credential(Err(f(FaultKind::LimitExceeded)))
            == Err(IamError::RusotoError { message: whole.clone() })
    );

    assert_eq!(update_service_specific_credential(Ok(())), Ok(()));
    assert_eq!(
        update_service_specific_credential(Err(f(FaultKind::NoSuchEntity))),
        Err(IamError::EntityNotFound { message: said.clone() })
    );
    assert_eq!(
        update_service_specific_credential(Err(f(FaultKind::ServiceNotSupported))),
        Err(IamError::RusotoError { message: whole.clone() })
    );
}

#[test]
fn a_status_is_read_from_and_written_as_the_directory_s_text() {
    assert_eq!(CredentialStatus::from("Active"), CredentialStatus::Active);
    assert_eq!(CredentialStatus::from("Inactive"), CredentialStatus::Inactive);
    assert_eq!(CredentialStatus::from("active"), CredentialStatus::Unknown("active".to_string()));
    assert_eq!(CredentialStatus::from(""), CredentialStatus::Unknown("".to_string()));
    assert_eq!(String::from(CredentialStatus::Active), "Active");
    assert_eq!(String::from(CredentialStatus::Inactive), "Inactive");
    assert_eq!(String::from(CredentialStatus::Unknown("Expired".to_string())), "Expired");
    let status: String = CredentialStatus::Active.into();
    assert_eq!(status, "Active");
}

#[test]
fn a_record_becomes_a_credential_field_by_field() {
    let c = Credential::from(issued("c1", "Inactive"));
    assert_eq!(c.create_date, "2020-01-01T00:00:00Z");
    assert_eq!(c.service_name, "s");
    assert_eq!(c.service_password, "pw-c1");
    assert_eq!(c.service_specific_credential_id, "c1");
    assert_eq!(c.service_user_name, "u-at-1");
    assert_eq!(c.status, CredentialStatus::Inactive);
    assert_eq!(c.user_name, "u");
    let m = metadata("c7");
    assert_eq!(m.service_specific_credential_id, "c7");
    assert_eq!(m.status, CredentialStatus::Active);
    assert_eq!(m.user_name, "u");
}

#[test]
fn the_resource_of_a_kind_does_what_the_kind_does() {
    let r = Resource::ServiceSpecificCredential(resource());
    match r.create_new_password(Renewal::Start { current_value: nothing() }, Reply::Nothing) {
        Step::Ask(request, Renewal::Listing { .. }) => assert!(request == list_request()),
        _ => panic!("the first request is the listing"),
    }
    assert_eq!(r.set_password(Secret::default()), Ok(()));
    assert_eq!(r.test_password(Secret::default()), Ok(()));
    assert_eq!(resource().set_password(Secret::default()), Ok(()));
    assert_eq!(resource().test_password(Secret::default()), Ok(()));
}

#[test]
fn a_reply_to_another_request_ends_the_making() {
    let (requests, outcome) = renew(nothing(), vec![Reply::Updated(Ok(()))]);
    assert_eq!(requests.len(), 1);
    match outcome {
        Some(Err(e)) => assert_eq!(
            e,
            RotatorError::Other {
                message: "the reply does not answer the request that was asked".to_string(),
            }
        ),
        _ => panic!("the reply answers no listing"),
    }
}

#[test]
fn a_random_password_is_read_from_the_store_s_answer() {
    assert_eq!(get_random_password(Ok(Some("x1".to_string()))), Ok("x1".to_string()));
    assert_eq!(
        get_random_password(Ok(None)),
        Err(RotatorError::GetRandomPassword("missing password in response".to_string()))
    );
    assert_eq!(
        get_random_password(Err(fault(FaultKind::InvalidParameter, "too long", "whole"))),
        Err(RotatorError::InvalidPasswordParameter { message: "too long".to_string() })
    );
    assert_eq!(
        get_random_password(Err(fault(FaultKind::Other, "", "whole"))),
        Err(RotatorError::GetRandomPassword("whole".to_string()))
    );
}

#[test]
fn a_generic_resource_holds_a_random_password_and_nothing_else() {
    let r = GenericResource::new();
    let state = match r.create_new_password(Draw::Start, Reply::Nothing) {
        Step::Ask(request, state) => {
            assert!(
                request
                    == Request::GetRandomPassword {
                        exclude_characters: Some("/@\"'\\".to_string()),
                    }
            );
            state
        }
        Step::Done(_) => panic!("the password is still to be asked for"),
    };
    assert_eq!(state, Draw::Drawing);
    match r.create_new_password(state, Reply::Password(Ok(Some("x1".to_string())))) {
        Step::Done(Ok(secret)) => {
            assert_eq!(secret.password, Some("x1".to_string()));
            assert_eq!(secret.username, None);
            assert_eq!(secret.service_specific_credential_id, None);
            assert!(secret.attributes.is_empty());
        }
        _ => panic!("the store sent a password"),
    }
    match r.create_new_password(Draw::Drawing, Reply::Password(Ok(None))) {
        Step::Done(Err(e)) => assert_eq!(
            e,
            RotatorError::GetRandomPassword("missing password in response".to_string())
        ),
        _ => panic!("the store sent no password"),
    }
}

#[test]
fn the_diagnostic_text_of_a_failure_is_what_debug_writes() {
    for message in vec!["no user", "", "said \"no\"", "a\\b\n\tc 'd'", "\u{7f}\u{e9}\u{200b}"] {
        let m = message.to_string();
        for e in vec![
            IamError::EntityNotFound { message: m.clone() },
            IamError::ServiceNotSupported { message: m.clone() },
            IamError::LimitExceeded { message: m.clone() },
            IamError::RusotoError { message: m.clone() },
            IamError::MissingCredentialInResponse,
        ] {
            assert_eq!(e.debug_text(), format!("{:?}", e));
        }
    }
    assert_eq!(
        IamError::EntityNotFound { message: "said \"no\"".to_string() }.debug_text(),
        "EntityNotFound { message: \"said \\\"no\\\"\" }"
    );
}
