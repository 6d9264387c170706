use rotator::describe::{SecretDescription, Tag, VersionStageMap};
use rotator::error::{RotatorError, RotatorResult};
use rotator::event::{RotatorEvent, RotatorStep};
use rotator::exchange::{Fault, FaultKind, Reply, Request, Step};
use rotator::iam::{CredentialMetadataRecord, CredentialRecord};
use rotator::rotation::{rotate, Rotation};
use rotator::value::Secret;
use std::collections::HashMap;

fn drive(e: RotatorEvent, script: Vec<Reply>) -> (Vec<Request>, Option<RotatorResult<()>>) {
    let mut requests = Vec::new();
    let mut state = Rotation::Start { e };
    let mut reply = Reply::Nothing;
    let mut script = script.into_iter();
    loop {
        match rotate(state, reply) {
            Step::Done(result) => return (requests, Some(result)),
            Step::Ask(request, next) => {
                requests.push(request);
                state = next;
                match script.next() {
                    Some(r) => reply = r,
                    None => return (requests, None),
                }
            }
        }
    }
}

fn tag(key: &str, value: &str) -> Tag {
    Tag { key: Some(key.to_string()), value: Some(value.to_string()) }
}

fn good_tags() -> Vec<Tag> {
    vec![
        tag("resourceType", "ServiceCredential"),
        tag("userName", "u"),
        tag("serviceName", "s"),
    ]
}

fn versions(entries: &[(&str, &[&str])]) -> VersionStageMap {
    let mut map = VersionStageMap::new();
    for (version, stages) in entries {
        map.insert(version.to_string(), stages.iter().map(|s| s.to_string()).collect());
    }
    map
}

fn description(
    enabled: Option<bool>,
    tags: Option<Vec<Tag>>,
    entries: &[(&str, &[&str])],
) -> SecretDescription {
    SecretDescription {
        rotation_enabled: enabled,
        tags,
        version_ids_to_stages: Some(versions(entries)),
    }
}

fn rotating() -> SecretDescription {
    description(Some(true), Some(good_tags()), &[("v1", &["CURRENT"]), ("tok", &["PENDING"])])
}

fn fault(kind: FaultKind, message: &str, debug: &str) -> Fault {
    Fault { kind, message: message.to_string(), debug: debug.to_string() }
}

fn not_found() -> Fault {
    fault(FaultKind::ResourceNotFound, "no such value", "Service(ResourceNotFound(\"no such value\"))")
}

fn event(step: RotatorStep) -> RotatorEvent {
    RotatorEvent::new("sec", "tok", step)
}

fn all_steps() -> Vec<RotatorStep> {
    vec![
        RotatorStep::CreateSecret,
        RotatorStep::SetSecret,
        RotatorStep::TestSecret,
        RotatorStep::FinishSecret,
    ]
}

fn describe_request() -> Request {
    Request::DescribeSecret { secret_id: "sec".to_string() }
}

fn issued(id: &str, status: &str) -> CredentialRecord {
    CredentialRecord {
        create_date: "2020-01-01T00:00:00Z".to_string(),
        service_name: "s".to_string(),
        service_password: "pw-".to_string() + id,
        service_specific_credential_id: id.to_string(),
        service_user_name: "u-at-1".to_string(),
        status: status.to_string(),
        user_name: "u".to_string(),
    }
}

fn listed(id: &str) -> CredentialMetadataRecord {
    CredentialMetadataRecord {
        create_date: "2020-01-01T00:00:00Z".to_string(),
        service_name: "s".to_string(),
        service_specific_credential_id: id.to_string(),
        service_user_name: "u-at-1".to_string(),
        status: "Active".to_string(),
        user_name: "u".to_string(),
    }
}

fn secret_of(id: &str) -> Secret {
    Secret {
        username: Some("u-at-1".to_string()),
        password: Some("pw-".to_string() + id),
        service_specific_credential_id: Some(id.to_string()),
        attributes: HashMap::new(),
    }
}

#[test]
fn create_with_an_empty_pool_creates_and_stores() {
    let (requests, outcome) = drive(
        event(RotatorStep::CreateSecret),
        vec![
            Reply::Described(Ok(rotating())),
            Reply::SecretString(Ok(Some("{}".to_string()))),
            Reply::Parsed(Ok(Some(Secret::default()))),
            Reply::SecretString(Err(not_found())),
            Reply::Listed(Ok(Some(vec![]))),
            Reply::Issued(Ok(Some(issued("c1", "Active")))),
            Reply::Serialised(Ok("{\"username\":\"u-at-1\"}".to_string())),
            Reply::Stored(Ok(())),
        ],
    );
    assert_eq!(outcome, Some(Ok(())));
    assert_eq!(requests.len(), 8);
    assert!(requests[0] == describe_request());
    assert!(
        requests[1]
            == Request::GetSecretValue {
                secret_id: "sec".to_string(),
                version_stage: Some("CURRENT".to_string()),
                version_id: None,
            }
    );
    assert!(requests[2] == Request::ParseSecret { secret_string: "{}".to_string() });
    assert!(
        requests[3]
            == Request::GetSecretValue {
                secret_id: "sec".to_string(),
                version_stage: Some("PENDING".to_string()),
                version_id: Some("tok".to_string()),
            }
    );
    assert!(
        requests[4]
            == Request::ListServiceSpecificCredentials {
                user_name: Some("u".to_string()),
                service_name: Some("s".to_string()),
            }
    );
    assert!(
        requests[5]
            == Request::CreateServiceSpecificCredential {
                user_name: "u".to_string(),
                service_name: "s".to_string(),
            }
    );
    assert!(requests[6] == Request::SerialiseSecret { secret: secret_of("c1") });
    assert!(
        requests[7]
            == Request::PutSecretValue {
                secret_id: "sec".to_string(),
                client_request_token: "tok".to_string(),
                secret_string: "{\"username\":\"u-at-1\"}".to_string(),
                version_stage: "PENDING".to_string(),
            }
    );
    let creates = requests
        .iter()
        .filter(|r| matches!(r, Request::CreateServiceSpecificCredential { .. }))
        .count();
    let puts = requests.iter().filter(|r| matches!(r, Request::PutSecretValue { .. })).count();
    assert_eq!(creates, 1);
    assert_eq!(puts, 1);
}

#[test]
fn create_again_finds_the_value_and_changes_nothing() {
    let (requests, outcome) = drive(
        event(RotatorStep::CreateSecret),
        vec![
            Reply::Described(Ok(rotating())),
            Reply::SecretString(Ok(Some("current".to_string()))),
            Reply::Parsed(Ok(Some(secret_of("c0")))),
            Reply::SecretString(Ok(Some("pending".to_string()))),
            Reply::Parsed(Ok(Some(secret_of("c1")))),
        ],
    );
    assert_eq!(outcome, Some(Ok(())));
    assert_eq!(requests.len(), 5);
    assert!(requests.iter().all(|r| matches!(
        r,
        Request::DescribeSecret { .. }
            | Request::GetSecretValue { .. }
            | Request::ParseSecret { .. }
    )));
}

#[test]
fn create_with_a_full_pool_resets_the_credential_not_in_use() {
    let (requests, outcome) = drive(
        event(RotatorStep::CreateSecret),
        vec![
            Reply::Described(Ok(rotating())),
            Reply::SecretString(Ok(Some("current".to_string()))),
            Reply::Parsed(Ok(Some(secret_of("c1")))),
            Reply::SecretString(Err(not_found())),
            Reply::Listed(Ok(Some(vec![listed("c1"), listed("c2")]))),
            Reply::Issued(Ok(Some(issued("c2", "Inactive")))),
            Reply::Updated(Ok(())),
            Reply::Serialised(Ok("text".to_string())),
            Reply::Stored(Ok(())),
        ],
    );
    assert_eq!(outcome, Some(Ok(())));
    assert_eq!(requests.len(), 9);
    assert!(
        requests[5]
            == Request::ResetServiceSpecificCredential {
                service_specific_credential_id: "c2".to_string(),
                user_name: Some("u".to_string()),
            }
    );
    assert!(
        requests[6]
            == Request::UpdateServiceSpecificCredential {
                service_specific_credential_id: "c2".to_string(),
                user_name: Some("u".to_string()),
                status: "Active".to_string(),
            }
    );
    assert!(requests[7] == Request::SerialiseSecret { secret: secret_of("c2") });
}

#[test]
fn create_hands_on_a_failure_to_read_the_value_in_use() {
    let (requests, outcome) = drive(
        event(RotatorStep::CreateSecret),
        vec![Reply::Described(Ok(rotating())), Reply::SecretString(Err(not_found()))],
    );
    assert_eq!(requests.len(), 2);
    assert_eq!(
        outcome,
        Some(Err(RotatorError::SecretValueNotFound {
            secret_id: "sec".to_string(),
            version_stage: Some("CURRENT".to_string()),
            version_ids: vec![],
            message: "no such value".to_string(),
        }))
    );
}

#[test]
fn create_hands_on_any_other_failure_to_read_the_pending_value() {
    let (requests, outcome) = drive(
        event(RotatorStep::CreateSecret),
        vec![
            Reply::Described(Ok(rotating())),
            Reply::SecretString(Ok(None)),
            Reply::SecretString(Err(fault(FaultKind::Other, "", "HttpDispatch(timeout)"))),
        ],
    );
    assert_eq!(requests.len(), 3);
    assert_eq!(outcome, Some(Err(RotatorError::GetSecretValue("HttpDispatch(timeout)".to_string()))));
}

#[test]
fn create_reports_a_secret_that_cannot_be_written() {
    let (requests, outcome) = drive(
        event(RotatorStep::CreateSecret),
        vec![
            Reply::Described(Ok(rotating())),
            Reply::SecretString(Ok(None)),
            Reply::SecretString(Err(not_found())),
            Reply::Listed(Ok(None)),
            Reply::Issued(Ok(Some(issued("c1", "Active")))),
            Reply::Serialised(Err("key must be a string".to_string())),
        ],
    );
    assert_eq!(requests.len(), 6);
    assert_eq!(
        outcome,
        Some(Err(RotatorError::SerialisationError {
            secret_id: "sec".to_string(),
            message: "key must be a string".to_string(),
        }))
    );
}

#[test]
fn create_reports_what_the_store_refuses_to_keep() {
    let script = |refusal: Fault| {
        vec![
            Reply::Described(Ok(rotating())),
            Reply::SecretString(Ok(None)),
            Reply::SecretString(Err(not_found())),
            Reply::Listed(Ok(None)),
            Reply::Issued(Ok(Some(issued("c1", "Active")))),
            Reply::Serialised(Ok("text".to_string())),
            Reply::Stored(Err(refusal)),
        ]
    };
    let (_, outcome) = drive(
        event(RotatorStep::CreateSecret),
        script(fault(FaultKind::EncryptionFailure, "no key", "Service(EncryptionFailure)")),
    );
    assert_eq!(
        outcome,
        Some(Err(RotatorError::EncryptionFailure {
            secret_id: "sec".to_string(),
            message: "no key".to_string(),
        }))
    );
    let (_, outcome) = drive(event(RotatorStep::CreateSecret), script(not_found()));
    assert_eq!(
        outcome,
        Some(Err(RotatorError::SecretValueNotFound {
            secret_id: "sec".to_string(),
            version_stage: Some("PENDING".to_string()),
            version_ids: vec!["tok".to_string()],
            message: "no such value".to_string(),
        }))
    );
    let (_, outcome) = drive(
        event(RotatorStep::CreateSecret),
        script(fault(FaultKind::InvalidParameter, "bad", "Service(InvalidParameter(\"bad\"))")),
    );
    assert_eq!(
        outcome,
        Some(Err(RotatorError::PutSecretValue("Service(InvalidParameter(\"bad\"))".to_string())))
    );
}

#[test]
fn a_secret_that_is_not_rotated_is_refused_at_every_step() {
    for enabled in vec![Some(false), None] {
        for step in all_steps() {
            let d = description(
                enabled,
                Some(good_tags()),
                &[("v1", &["CURRENT"]), ("tok", &["PENDING"])],
            );
            let (requests, outcome) = drive(event(step), vec![Reply::Described(Ok(d))]);
            assert!(requests == vec![describe_request()]);
            assert_eq!(
                outcome,
                Some(Err(RotatorError::RotationNotEnabled { secret_id: "sec".to_string() }))
            );
        }
    }
}

#[test]
fn a_version_in_use_needs_nothing_done_at_any_step() {
    for step in all_steps() {
        let d = description(
            Some(true),
            Some(good_tags()),
            &[("v1", &["PREVIOUS"]), ("tok", &["PENDING", "CURRENT"])],
        );
        let (requests, outcome) = drive(event(step), vec![Reply::Described(Ok(d))]);
        assert!(requests == vec![describe_request()]);
        assert_eq!(outcome, Some(Ok(())));
    }
}

#[test]
fn a_token_that_names_no_version_is_refused() {
    let d = description(Some(true), Some(good_tags()), &[("v1", &["CURRENT"])]);
    let (_, outcome) = drive(event(RotatorStep::SetSecret), vec![Reply::Described(Ok(d))]);
    assert_eq!(
        outcome,
        Some(Err(RotatorError::NoStageForRotation {
            secret_id: "sec".to_string(),
            version: "tok".to_string(),
        }))
    );
    let d = SecretDescription {
        rotation_enabled: Some(true),
        tags: Some(good_tags()),
        version_ids_to_stages: None,
    };
    let (_, outcome) = drive(event(RotatorStep::SetSecret), vec![Reply::Described(Ok(d))]);
    assert_eq!(
        outcome,
        Some(Err(RotatorError::NoStageForRotation {
            secret_id: "sec".to_string(),
            version: "tok".to_string(),
        }))
    );
}

#[test]
fn a_version_that_is_not_pending_is_refused() {
    let d = description(
        Some(true),
        Some(good_tags()),
        &[("v1", &["CURRENT"]), ("tok", &["PREVIOUS"])],
    );
    let (requests, outcome) = drive(event(RotatorStep::CreateSecret), vec![Reply::Described(Ok(d))]);
    assert_eq!(requests.len(), 1);
    assert_eq!(
        outcome,
        Some(Err(RotatorError::NotSetAsPending {
            secret_id: "sec".to_string(),
            version: "tok".to_string(),
        }))
    );
}

#[test]
fn the_tags_are_checked_before_anything_else() {
    let entries: &[(&str, &[&str])] = &[("v1", &["CURRENT"]), ("tok", &["PENDING"])];
    let (_, outcome) = drive(
        event(RotatorStep::CreateSecret),
        vec![Reply::Described(Ok(description(Some(false), None, entries)))],
    );
    assert_eq!(outcome, Some(Err(RotatorError::MissingTags { secret_id: "sec".to_string() })));

    let (_, outcome) = drive(
        event(RotatorStep::CreateSecret),
        vec![Reply::Described(Ok(description(
            Some(false),
            Some(vec![tag("userName", "u"), tag("serviceName", "s")]),
            entries,
        )))],
    );
    assert_eq!(
        outcome,
        Some(Err(RotatorError::MissingTag {
            secret_id: "sec".to_string(),
            tag_name: "resourceType".to_string(),
        }))
    );

    let (_, outcome) = drive(
        event(RotatorStep::CreateSecret),
        vec![Reply::Described(Ok(description(
            Some(false),
            Some(vec![tag("resourceType", "Database")]),
            entries,
        )))],
    );
    assert_eq!(
        outcome,
        Some(Err(RotatorError::SerialisationError {
            secret_id: "sec".to_string(),
            message: "ResourceTypeParseError(\"invalid resource type 'Database'\")".to_string(),
        }))
    );

    let (_, outcome) = drive(
        event(RotatorStep::CreateSecret),
        vec![Reply::Described(Ok(description(
            Some(false),
            Some(vec![tag("resourceType", "ServiceCredential"), tag("userName", "u")]),
            entries,
        )))],
    );
    assert_eq!(
        outcome,
        Some(Err(RotatorError::InvalidConfig {
            secret_id: "sec".to_string(),
            message: "missing service name for service specific credential".to_string(),
        }))
    );

    let (_, outcome) = drive(
        event(RotatorStep::CreateSecret),
        vec![Reply::Described(Ok(description(
            Some(false),
            Some(vec![tag("resourceType", "ServiceCredential"), tag("serviceName", "s")]),
            entries,
        )))],
    );
    assert_eq!(
        outcome,
        Some(Err(RotatorError::InvalidConfig {
            secret_id: "sec".to_string(),
            message: "missing resource arn for service specific credential".to_string(),
        }))
    );
}

#[test]
fn a_secret_that_the_store_does_not_have_is_reported() {
    let (requests, outcome) =
        drive(event(RotatorStep::FinishSecret), vec![Reply::Described(Err(not_found()))]);
    assert!(requests == vec![describe_request()]);
    assert_eq!(
        outcome,
        Some(Err(RotatorError::SecretNotFound {
            secret_id: "sec".to_string(),
            message: "no such value".to_string(),
        }))
    );
    let (_, outcome) = drive(
        event(RotatorStep::FinishSecret),
        vec![Reply::Described(Err(fault(FaultKind::Other, "", "HttpDispatch(timeout)")))],
    );
    assert_eq!(
        outcome,
        Some(Err(RotatorError::DescribeSecretError("HttpDispatch(timeout)".to_string())))
    );
}

#[test]
fn set_and_test_need_the_pending_value() {
    for step in vec![RotatorStep::SetSecret, RotatorStep::TestSecret] {
        let (requests, outcome) = drive(
            event(step),
            vec![
                Reply::Described(Ok(rotating())),
                Reply::SecretString(Ok(Some("pending".to_string()))),
                Reply::Parsed(Ok(Some(secret_of("c1")))),
            ],
        );
        assert_eq!(outcome, Some(Ok(())));
        assert_eq!(requests.len(), 3);
        assert!(
            requests[1]
                == Request::GetSecretValue {
                    secret_id: "sec".to_string(),
                    version_stage: Some("PENDING".to_string()),
                    version_id: Some("tok".to_string()),
                }
        );
        assert!(requests[2] == Request::ParseSecret { secret_string: "pending".to_string() });

        let (requests, outcome) = drive(
            event(step),
            vec![Reply::Described(Ok(rotating())), Reply::SecretString(Err(not_found()))],
        );
        assert_eq!(requests.len(), 2);
        assert_eq!(
            outcome,
            Some(Err(RotatorError::SecretValueNotFound {
                secret_id: "sec".to_string(),
                version_stage: Some("PENDING".to_string()),
                version_ids: vec!["tok".to_string()],
                message: "no such value".to_string(),
            }))
        );

        let (_, outcome) = drive(
            event(step),
            vec![
                Reply::Described(Ok(rotating())),
                Reply::SecretString(Ok(Some("{".to_string()))),
                Reply::Parsed(Err("Error(\"EOF\", line: 1, column: 1)".to_string())),
            ],
        );
        assert_eq!(
            outcome,
            Some(Err(RotatorError::SerialisationError {
                secret_id: "sec".to_string(),
                message:
                    "secret string value deserialisation error: Error(\"EOF\", line: 1, column: 1)"
                        .to_string(),
            }))
        );
    }
}

#[test]
fn finish_moves_the_label_in_one_request() {
    let (requests, outcome) = drive(
        event(RotatorStep::FinishSecret),
        vec![
            Reply::Described(Ok(rotating())),
            Reply::Described(Ok(rotating())),
            Reply::Moved(Ok(())),
        ],
    );
    assert_eq!(outcome, Some(Ok(())));
    assert_eq!(requests.len(), 3);
    assert!(requests[1] == describe_request());
    assert!(
        requests[2]
            == Request::UpdateSecretVersionStage {
                secret_id: "sec".to_string(),
                version_stage: "CURRENT".to_string(),
                move_to_version_id: "tok".to_string(),
                remove_from_version_id: Some("v1".to_string()),
            }
    );
}

#[test]
fn finish_again_finds_nothing_to_do() {
    let promoted = || {
        description(
            Some(true),
            Some(good_tags()),
            &[("v1", &["PREVIOUS"]), ("tok", &["PENDING", "CURRENT"])],
        )
    };
    let (requests, outcome) =
        drive(event(RotatorStep::FinishSecret), vec![Reply::Described(Ok(promoted()))]);
    assert!(requests == vec![describe_request()]);
    assert_eq!(outcome, Some(Ok(())));
}

#[test]
fn finish_sees_a_promotion_made_since_the_checks() {
    let promoted = description(
        Some(true),
        Some(good_tags()),
        &[("v1", &["PREVIOUS"]), ("tok", &["CURRENT"])],
    );
    let (requests, outcome) = drive(
        event(RotatorStep::FinishSecret),
        vec![Reply::Described(Ok(rotating())), Reply::Described(Ok(promoted))],
    );
    assert_eq!(requests.len(), 2);
    assert_eq!(outcome, Some(Ok(())));
}

#[test]
fn finish_names_both_versions_when_the_move_finds_nothing() {
    let (_, outcome) = drive(
        event(RotatorStep::FinishSecret),
        vec![
            Reply::Described(Ok(rotating())),
            Reply::Described(Ok(rotating())),
            Reply::Moved(Err(not_found())),
        ],
    );
    assert_eq!(
        outcome,
        Some(Err(RotatorError::SecretValueNotFound {
            secret_id: "sec".to_string(),
            version_stage: Some("CURRENT".to_string()),
            version_ids: vec!["v1".to_string(), "tok".to_string()],
            message: "no such value".to_string(),
        }))
    );
    let (_, outcome) = drive(
        event(RotatorStep::FinishSecret),
        vec![
            Reply::Described(Ok(rotating())),
            Reply::Described(Ok(rotating())),
            Reply::Moved(Err(fault(FaultKind::Other, "", "Unknown(500)"))),
        ],
    );
    assert_eq!(
        outcome,
        Some(Err(RotatorError::UpdateSecretVersionStage("Unknown(500)".to_string())))
    );
}

#[test]
fn a_reply_to_another_request_ends_the_rotation() {
    let (requests, outcome) = drive(event(RotatorStep::CreateSecret), vec![Reply::Stored(Ok(()))]);
    assert_eq!(requests.len(), 1);
    assert_eq!(
        outcome,
        Some(Err(RotatorError::Other {
            message: "the reply does not answer the request that was asked".to_string(),
        }))
    );
}

#[test]
fn a_rotation_waits_for_its_reply() {
    let (requests, outcome) = drive(event(RotatorStep::CreateSecret), vec![]);
    assert!(requests == vec![describe_request()]);
    assert_eq!(outcome, None);
}
