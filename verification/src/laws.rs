//! What holds of every rotation, proved from the step functions' contracts.
use vstd::prelude::*;
use crate::exchange::{ReplyView, RequestView, Run, StepView, run};
use crate::config::config_of;
use crate::create::{CreationView, creation_step};
use crate::describe::{
    CURRENT,
    PENDING,
    SecretDescriptionView,
    VersionStagesView,
    distinct_versions,
    has_version,
    lemma_version_at,
    version_index,
};
use crate::error::RotatorErrorView;
use crate::event::RotatorEventView;
use crate::finish::{
    FinishingView,
    finishing_step,
    is_current,
    last_current,
    versions_of,
};
use crate::rotation::{
    RotationView,
    clearance,
    resource_for,
    rotation_enabled,
    rotation_step,
};
use crate::iam::{
    CredentialMetadataView,
    CredentialStatusView,
    CredentialView,
    listed,
    reset,
    updated,
};
use crate::resource::{
    RenewalView,
    ServiceSpecificCredentialResourceView,
    credential_in_use,
    credential_to_reset,
    directory_failure,
    first_other,
    has_other,
    is_first_other,
    MAX_SERVICE_SPECIFIC_CREDENTIALS,
    lemma_first_other,
    merged,
    no_credential_to_reset,
    renewal_step,
};
use crate::resource::ResourceView;
use crate::value::{
    FetchView,
    SecretValueView,
    SecretView,
    empty_secret,
    fetch_step,
};

verus! {

/// The chain of calls of
/// [`crate::resource::ServiceSpecificCredentialResource::create_new_password`]
/// from its start: the first call is handed nothing, each further call one
/// of `replies`.
pub open spec fn renewal_run(
    resource: ServiceSpecificCredentialResourceView,
    current_value: SecretValueView,
    replies: Seq<ReplyView>,
) -> Run<SecretView> {
    run(
        |state: RenewalView, reply: ReplyView| renewal_step(resource, state, reply),
        RenewalView::Start { current_value },
        seq![ReplyView::Nothing] + replies,
    )
}

/// The request for the credentials that the user of `resource` holds for its
/// service.
pub open spec fn listing_of(resource: ServiceSpecificCredentialResourceView) -> RequestView {
    RequestView::ListServiceSpecificCredentials {
        user_name: Some(resource.user_name),
        service_name: Some(resource.service_name),
    }
}

/// The request for a new credential of the user of `resource` for its
/// service.
pub open spec fn creation_of(resource: ServiceSpecificCredentialResourceView) -> RequestView {
    RequestView::CreateServiceSpecificCredential {
        user_name: resource.user_name,
        service_name: resource.service_name,
    }
}

/// The request to reset the credential at place `i` of `credentials`.
pub open spec fn reset_of(
    resource: ServiceSpecificCredentialResourceView,
    credentials: Seq<CredentialMetadataView>,
    i: int,
) -> RequestView {
    RequestView::ResetServiceSpecificCredential {
        service_specific_credential_id: credentials[i].service_specific_credential_id,
        user_name: Some(resource.user_name),
    }
}

/// The request to activate `credential`.
pub open spec fn activation_of(
    resource: ServiceSpecificCredentialResourceView,
    credential: CredentialView,
) -> RequestView {
    RequestView::UpdateServiceSpecificCredential {
        service_specific_credential_id: credential.service_specific_credential_id,
        user_name: Some(resource.user_name),
        status: "Active"@,
    }
}

/// While the pool has room, a rotation creates a credential and resets none:
/// whatever the directory answers afterwards, once it has listed fewer
/// credentials than the pool holds, the rotation asks for the list and for a
/// new credential, and for nothing else.
pub proof fn law_room_is_filled(
    resource: ServiceSpecificCredentialResourceView,
    current_value: SecretValueView,
    answer: Result<Option<Seq<CredentialMetadataView>>, crate::exchange::FaultView>,
    more: Seq<ReplyView>,
)
    requires
        listed(answer) matches Ok(credentials) && credentials.len()
            < MAX_SERVICE_SPECIFIC_CREDENTIALS,
    ensures
        renewal_run(resource, current_value, seq![ReplyView::Listed(answer)] + more).requests
            == seq![listing_of(resource), creation_of(resource)],
{
    let step = |state: RenewalView, reply: ReplyView| renewal_step(resource, state, reply);
    let replies = seq![ReplyView::Listed(answer)] + more;
    let all = seq![ReplyView::Nothing] + replies;
    assert(all[0] == ReplyView::Nothing);
    assert(all.drop_first() =~= replies);
    assert(replies[0] == ReplyView::Listed(answer));
    assert(replies.drop_first() =~= more);
    reveal_with_fuel(run, 4);
    let rest = run(step, RenewalView::Creating { current_value }, more);
    assert(rest.requests =~= Seq::<RequestView>::empty());
    assert(seq![creation_of(resource)] + rest.requests =~= seq![creation_of(resource)]);
    assert(seq![listing_of(resource)] + seq![creation_of(resource)] =~= seq![
        listing_of(resource),
        creation_of(resource),
    ]);
}

/// The credential in use is never the one to be reset: where the secret in
/// use names a credential, the one picked is listed and bears another id;
/// none is picked only where every listed credential bears the id in use.
pub proof fn law_credential_in_use_is_spared(
    credentials: Seq<CredentialMetadataView>,
    id: Seq<char>,
)
    ensures
        match credential_to_reset(credentials, Some(id)) {
            Some(i) => 0 <= i < credentials.len()
                && credentials[i].service_specific_credential_id != id,
            None => forall|j: int|
                0 <= j < credentials.len() ==> (
                #[trigger] credentials[j]).service_specific_credential_id == id,
        },
{
    if has_other(credentials, id) {
        assert(is_first_other(credentials, id, first_other(credentials, id)));
    } else {
        lemma_all_bear(credentials, id, credentials.len() as int);
    }
}

/// Where no place is the first with another id, every credential before `n`
/// bears `id`.
proof fn lemma_all_bear(credentials: Seq<CredentialMetadataView>, id: Seq<char>, n: int)
    requires
        !has_other(credentials, id),
        0 <= n <= credentials.len(),
    ensures
        forall|j: int|
            0 <= j < n ==> (#[trigger] credentials[j]).service_specific_credential_id == id,
    decreases n,
{
    if n > 0 {
        lemma_all_bear(credentials, id, n - 1);
        if credentials[n - 1].service_specific_credential_id != id {
            assert(is_first_other(credentials, id, n - 1));
        }
    }
}

/// With two credentials listed and one of them in use, it is the other that
/// is picked, in whichever order the directory lists them.
pub proof fn law_full_pool_resets_the_other(
    in_use: CredentialMetadataView,
    other: CredentialMetadataView,
)
    requires
        in_use.service_specific_credential_id != other.service_specific_credential_id,
    ensures
        credential_to_reset(seq![in_use, other], Some(in_use.service_specific_credential_id))
            == Some(1int),
        credential_to_reset(seq![other, in_use], Some(in_use.service_specific_credential_id))
            == Some(0int),
{
    let id = in_use.service_specific_credential_id;
    assert(is_first_other(seq![in_use, other], id, 1));
    lemma_first_other(seq![in_use, other], id, 1);
    assert(is_first_other(seq![other, in_use], id, 0));
    lemma_first_other(seq![other, in_use], id, 0);
}

/// With the pool full and no credential known to be in use, the first listed
/// credential is picked.
pub proof fn law_unknown_use_resets_the_first(credentials: Seq<CredentialMetadataView>)
    requires
        credentials.len() >= MAX_SERVICE_SPECIFIC_CREDENTIALS,
    ensures
        credential_to_reset(credentials, None) == Some(0int),
{
}

/// Once the pool is full, a rotation resets the credential that
/// [`credential_to_reset`] picks and creates none: it asks for the list and
/// for the reset of that credential, and for nothing else before the
/// directory has answered the reset. Where none can be picked the rotation
/// ends with the list, in [`RotatorErrorView::Other`].
pub proof fn law_full_pool_is_recycled(
    resource: ServiceSpecificCredentialResourceView,
    current_value: SecretValueView,
    answer: Result<Option<Seq<CredentialMetadataView>>, crate::exchange::FaultView>,
)
    requires
        listed(answer) matches Ok(credentials) && credentials.len()
            >= MAX_SERVICE_SPECIFIC_CREDENTIALS,
    ensures
        match credential_to_reset(listed(answer)->Ok_0, credential_in_use(current_value)) {
            Some(i) => renewal_run(
                resource,
                current_value,
                seq![ReplyView::Listed(answer)],
            ).requests == seq![listing_of(resource), reset_of(resource, listed(answer)->Ok_0, i)],
            None => renewal_run(resource, current_value, seq![ReplyView::Listed(answer)]) == (Run::<
                SecretView,
            > {
                requests: seq![listing_of(resource)],
                outcome: Some(Err(no_credential_to_reset())),
            }),
        },
{
    let credentials = listed(answer)->Ok_0;
    let replies = seq![ReplyView::Listed(answer)];
    let all = seq![ReplyView::Nothing] + replies;
    assert(all[0] == ReplyView::Nothing);
    assert(all.drop_first() =~= replies);
    assert(replies[0] == ReplyView::Listed(answer));
    assert(replies.drop_first() =~= Seq::<ReplyView>::empty());
    reveal_with_fuel(run, 4);
    assert(seq![listing_of(resource)] + Seq::<RequestView>::empty() =~= seq![
        listing_of(resource),
    ]);
    match credential_to_reset(credentials, credential_in_use(current_value)) {
        Some(i) => {
            let request = reset_of(resource, credentials, i);
            assert(seq![request] + Seq::<RequestView>::empty() =~= seq![request]);
            assert(seq![listing_of(resource)] + seq![request] =~= seq![
                listing_of(resource),
                request,
            ]);
        },
        None => {},
    }
}

/// The chain of calls of
/// [`crate::resource::ServiceSpecificCredentialResource::create_new_password`]
/// that follows the request for a reset: the first of `replies` answers the
/// reset.
pub open spec fn after_reset_run(
    resource: ServiceSpecificCredentialResourceView,
    current_value: SecretValueView,
    replies: Seq<ReplyView>,
) -> Run<SecretView> {
    run(
        |state: RenewalView, reply: ReplyView| renewal_step(resource, state, reply),
        RenewalView::Resetting { current_value },
        replies,
    )
}

/// A credential that comes back from its reset inactive is activated, once,
/// before its secret is handed out: after the reset the rotation asks for
/// the activation of that credential and for nothing else; it hands out the
/// secret, with the credential as active, if the directory activated it, and
/// fails with the directory's refusal if it did not.
pub proof fn law_inactive_is_activated_once(
    resource: ServiceSpecificCredentialResourceView,
    current_value: SecretValueView,
    issued: Result<Option<CredentialView>, crate::exchange::FaultView>,
    answer: Result<(), crate::exchange::FaultView>,
    more: Seq<ReplyView>,
)
    requires
        reset(issued) matches Ok(credential) && credential.status
            == CredentialStatusView::Inactive,
    ensures
        after_reset_run(
            resource,
            current_value,
            seq![ReplyView::Issued(issued), ReplyView::Updated(answer)] + more,
        ) == (Run::<SecretView> {
            requests: seq![activation_of(resource, reset(issued)->Ok_0)],
            outcome: Some(
                match updated(answer) {
                    Ok(_) => Ok(
                        merged(
                            current_value,
                            CredentialView {
                                status: CredentialStatusView::Active,
                                ..reset(issued)->Ok_0
                            },
                        ),
                    ),
                    Err(error) => Err(
                        directory_failure(
                            resource.secret_id,
                            "update service specific credential error: "@,
                            error,
                        ),
                    ),
                },
            ),
        }),
{
    let all = seq![ReplyView::Issued(issued), ReplyView::Updated(answer)] + more;
    assert(all[0] == ReplyView::Issued(issued));
    let tail = all.drop_first();
    assert(tail[0] == ReplyView::Updated(answer));
    reveal_with_fuel(run, 3);
    let request = activation_of(resource, reset(issued)->Ok_0);
    assert(seq![request] + Seq::<RequestView>::empty() =~= seq![request]);
}

/// A credential that comes back from its reset in any other state than
/// inactive is not touched again: its secret is handed out at once.
pub proof fn law_active_is_left_alone(
    resource: ServiceSpecificCredentialResourceView,
    current_value: SecretValueView,
    issued: Result<Option<CredentialView>, crate::exchange::FaultView>,
    more: Seq<ReplyView>,
)
    requires
        reset(issued) matches Ok(credential) && credential.status
            != CredentialStatusView::Inactive,
    ensures
        after_reset_run(resource, current_value, seq![ReplyView::Issued(issued)] + more) == (Run::<
            SecretView,
        > {
            requests: Seq::empty(),
            outcome: Some(Ok(merged(current_value, reset(issued)->Ok_0))),
        }),
{
    let all = seq![ReplyView::Issued(issued)] + more;
    assert(all[0] == ReplyView::Issued(issued));
    reveal_with_fuel(run, 2);
}

/// What a secret holds beyond the three fields of a credential survives a
/// rotation: the new secret has the attributes of the secret in use, or none
/// where there was no secret, and the user name, password and id of the
/// credential that the directory handed out.
pub proof fn law_merge_keeps_unknown_fields(
    current_value: SecretValueView,
    credential: CredentialView,
)
    ensures
        merged(current_value, credential).attributes == match current_value.secret {
            Some(secret) => secret.attributes,
            None => empty_secret().attributes,
        },
        merged(current_value, credential).username == Some(credential.service_user_name),
        merged(current_value, credential).password == Some(credential.service_password),
        merged(current_value, credential).service_specific_credential_id == Some(
            credential.service_specific_credential_id,
        ),
{
}

/// The chain of calls of [`crate::rotation::rotate`] for request `e`, from
/// its start: the first call is handed nothing, each further call one of
/// `replies`.
pub open spec fn rotation_run(e: RotatorEventView, replies: Seq<ReplyView>) -> Run<()> {
    run(
        |state: RotationView, reply: ReplyView| rotation_step(state, reply),
        RotationView::Start { e },
        seq![ReplyView::Nothing] + replies,
    )
}

/// The request for the description of the secret that `e` is about.
pub open spec fn description_of(e: RotatorEventView) -> RequestView {
    RequestView::DescribeSecret { secret_id: e.secret_id }
}

/// Whether the tags of a description give a configuration, and the
/// configuration a resource.
pub open spec fn is_configured(e: RotatorEventView, description: SecretDescriptionView) -> bool {
    match config_of(e.secret_id, description.tags) {
        Ok(config) => resource_for(config) is Ok,
        Err(_) => false,
    }
}

/// A rotation that the checks do not let pass asks for nothing but the
/// description of the secret, and ends as the checks say.
proof fn lemma_refused_or_current(
    e: RotatorEventView,
    description: SecretDescriptionView,
    more: Seq<ReplyView>,
    outcome: Result<(), RotatorErrorView>,
)
    requires
        match clearance(e, description) {
            Err(error) => outcome == Err::<(), RotatorErrorView>(error),
            Ok(crate::rotation::ClearanceView::AlreadyCurrent) => outcome == Ok::<
                (),
                RotatorErrorView,
            >(()),
            Ok(crate::rotation::ClearanceView::Proceed(_)) => false,
        },
    ensures
        rotation_run(e, seq![ReplyView::Described(Ok(description))] + more) == (Run::<()> {
            requests: seq![description_of(e)],
            outcome: Some(outcome),
        }),
{
    let replies = seq![ReplyView::Described(Ok(description))] + more;
    let all = seq![ReplyView::Nothing] + replies;
    assert(all[0] == ReplyView::Nothing);
    assert(all.drop_first() =~= replies);
    assert(replies[0] == ReplyView::Described(Ok(description)));
    reveal_with_fuel(run, 3);
    assert(seq![description_of(e)] + Seq::<RequestView>::empty() =~= seq![description_of(e)]);
}

/// A secret that is not rotated is never touched: whatever step is asked
/// for, the rotation ends once the secret is described, in failure, and has
/// asked for nothing but the description.
pub proof fn law_disabled_rotation_never_proceeds(
    e: RotatorEventView,
    description: SecretDescriptionView,
    more: Seq<ReplyView>,
)
    requires
        !rotation_enabled(description),
    ensures
        clearance(e, description) is Err,
        rotation_run(e, seq![ReplyView::Described(Ok(description))] + more) == (Run::<()> {
            requests: seq![description_of(e)],
            outcome: Some(Err(clearance(e, description)->Err_0)),
        }),
{
    lemma_refused_or_current(e, description, more, Err(clearance(e, description)->Err_0));
}

/// A secret that is not rotated, and whose tags are in order, is refused
/// with [`RotatorErrorView::RotationNotEnabled`], whatever step is asked for.
pub proof fn law_disabled_rotation_is_refused(
    e: RotatorEventView,
    description: SecretDescriptionView,
    more: Seq<ReplyView>,
)
    requires
        !rotation_enabled(description),
        is_configured(e, description),
    ensures
        rotation_run(e, seq![ReplyView::Described(Ok(description))] + more) == (Run::<()> {
            requests: seq![description_of(e)],
            outcome: Some(Err(RotatorErrorView::RotationNotEnabled { secret_id: e.secret_id })),
        }),
{
    lemma_refused_or_current(
        e,
        description,
        more,
        Err(RotatorErrorView::RotationNotEnabled { secret_id: e.secret_id }),
    );
}

/// A version that is in use already needs nothing done: where the secret is
/// rotated and its tags are in order, every step for such a version succeeds
/// once the secret is described, and has asked for nothing but the
/// description; nothing is written and no label is moved.
pub proof fn law_version_in_use_is_left_alone(
    e: RotatorEventView,
    description: SecretDescriptionView,
    more: Seq<ReplyView>,
)
    requires
        rotation_enabled(description),
        is_configured(e, description),
        is_current(versions_of(description), e.client_request_token),
    ensures
        rotation_run(e, seq![ReplyView::Described(Ok(description))] + more) == (Run::<()> {
            requests: seq![description_of(e)],
            outcome: Some(Ok(())),
        }),
{
    lemma_refused_or_current(e, description, more, Ok(()));
}

/// The chain of calls of [`crate::finish::finish_secret`] for request `e`,
/// from its start.
pub open spec fn finishing_run(e: RotatorEventView, replies: Seq<ReplyView>) -> Run<()> {
    run(
        |state: FinishingView, reply: ReplyView| finishing_step(state, reply),
        FinishingView::Start { e },
        seq![ReplyView::Nothing] + replies,
    )
}

/// The request to make the version that `e` names the one in use, in place
/// of `old_version`.
pub open spec fn promotion_request(
    e: RotatorEventView,
    old_version: Option<Seq<char>>,
) -> RequestView {
    RequestView::UpdateSecretVersionStage {
        secret_id: e.secret_id,
        version_stage: CURRENT@,
        move_to_version_id: e.client_request_token,
        remove_from_version_id: old_version,
    }
}

/// The finishing of a version that is not yet in use asks the store once,
/// in one request, to move the label to the version and off the version that
/// carries it; it succeeds if the store does so.
pub proof fn law_finish_moves_the_label_once(
    e: RotatorEventView,
    description: SecretDescriptionView,
    more: Seq<ReplyView>,
)
    requires
        !is_current(versions_of(description), e.client_request_token),
    ensures
        finishing_run(
            e,
            seq![ReplyView::Described(Ok(description)), ReplyView::Moved(Ok(()))] + more,
        ) == (Run::<()> {
            requests: seq![
                description_of(e),
                promotion_request(e, last_current(versions_of(description))),
            ],
            outcome: Some(Ok(())),
        }),
{
    let replies = seq![ReplyView::Described(Ok(description)), ReplyView::Moved(Ok(()))] + more;
    let all = seq![ReplyView::Nothing] + replies;
    assert(all[0] == ReplyView::Nothing);
    assert(all.drop_first() =~= replies);
    assert(replies[0] == ReplyView::Described(Ok(description)));
    let tail = replies.drop_first();
    assert(tail[0] == ReplyView::Moved(Ok(())));
    reveal_with_fuel(run, 4);
    let first = description_of(e);
    let second = promotion_request(e, last_current(versions_of(description)));
    assert(seq![second] + Seq::<RequestView>::empty() =~= seq![second]);
    assert(seq![first] + seq![second] =~= seq![first, second]);
}

/// The finishing of a version that is in use already asks for nothing but
/// the description of the secret, and succeeds.
pub proof fn law_finish_again_is_a_no_op(
    e: RotatorEventView,
    description: SecretDescriptionView,
    more: Seq<ReplyView>,
)
    requires
        is_current(versions_of(description), e.client_request_token),
    ensures
        finishing_run(e, seq![ReplyView::Described(Ok(description))] + more) == (Run::<()> {
            requests: seq![description_of(e)],
            outcome: Some(Ok(())),
        }),
{
    let replies = seq![ReplyView::Described(Ok(description))] + more;
    let all = seq![ReplyView::Nothing] + replies;
    assert(all[0] == ReplyView::Nothing);
    assert(all.drop_first() =~= replies);
    assert(replies[0] == ReplyView::Described(Ok(description)));
    reveal_with_fuel(run, 3);
    assert(seq![description_of(e)] + Seq::<RequestView>::empty() =~= seq![description_of(e)]);
}

/// The versions of a secret after the store has moved `label` to version
/// `to` and off version `from`: `to` carries the label besides what it
/// carried, `from` carries what it carried but the label, every other
/// version is as it was.
pub open spec fn after_move(
    map: VersionStagesView,
    label: Seq<char>,
    to: Seq<char>,
    from: Option<Seq<char>>,
) -> VersionStagesView {
    Seq::new(
        map.len(),
        |i: int|
            (
                map[i].0,
                if map[i].0 == to {
                    map[i].1.push(label)
                } else if from == Some(map[i].0) {
                    map[i].1.filter(|stage: Seq<char>| stage != label)
                } else {
                    map[i].1
                },
            ),
    )
}

/// Once the store has moved the label as the finishing asked, the version
/// is in use: a finishing that is repeated then finds nothing to do, as
/// [`law_finish_again_is_a_no_op`] says.
pub proof fn law_promoted_version_is_in_use(
    map: VersionStagesView,
    token: Seq<char>,
    from: Option<Seq<char>>,
)
    requires
        distinct_versions(map),
        has_version(map, token),
    ensures
        is_current(after_move(map, CURRENT@, token, from), token),
{
    let after = after_move(map, CURRENT@, token, from);
    let k = version_index(map, token);
    assert(after[k].0 == token);
    assert(distinct_versions(after)) by {
        assert forall|i: int, j: int| 0 <= i < j < after.len() implies after[i].0
            != after[j].0 by {
            assert(after[i].0 == map[i].0);
            assert(after[j].0 == map[j].0);
        }
    }
    lemma_version_at(after, k);
    let stages = map[k].1.push(CURRENT@);
    assert(stages[stages.len() - 1] == CURRENT@);
}

/// With one version in use and another pending, the finishing of the pending
/// one moves the label from the one to the other.
pub proof fn law_finish_promotes_pending(
    e: RotatorEventView,
    description: SecretDescriptionView,
    in_use: Seq<char>,
    more: Seq<ReplyView>,
)
    requires
        in_use != e.client_request_token,
        versions_of(description) == seq![
            (in_use, seq![CURRENT@]),
            (e.client_request_token, seq![PENDING@]),
        ],
    ensures
        finishing_run(
            e,
            seq![ReplyView::Described(Ok(description)), ReplyView::Moved(Ok(()))] + more,
        ) == (Run::<()> {
            requests: seq![description_of(e), promotion_request(e, Some(in_use))],
            outcome: Some(Ok(())),
        }),
{
    let map = versions_of(description);
    let token = e.client_request_token;
    assert(CURRENT@ != PENDING@) by {
        reveal_strlit("CURRENT");
        reveal_strlit("PENDING");
        assert(CURRENT@[0] != PENDING@[0]);
    }
    assert(map[1].0 == token);
    let k = version_index(map, token);
    assert(k == 1);
    assert(!map[1].1.contains(CURRENT@));
    assert(!is_current(map, token));
    assert(last_current(map) == Some(in_use)) by {
        reveal_with_fuel(last_current, 3);
        assert(map.last() == map[1]);
        assert(map.drop_last() =~= seq![(in_use, seq![CURRENT@])]);
        assert(map.drop_last().last().1[0] == CURRENT@);
    }
    law_finish_moves_the_label_once(e, description, more);
}

/// The chain of calls of [`crate::create::create_secret`] for request `e`
/// on resource `r`, from its start.
pub open spec fn creation_run(
    e: RotatorEventView,
    r: ResourceView,
    replies: Seq<ReplyView>,
) -> Run<()> {
    run(
        |state: CreationView, reply: ReplyView| creation_step(state, reply),
        CreationView::Start { e, r },
        seq![ReplyView::Nothing] + replies,
    )
}

/// Where the store has the pending value, the creating is done: while the
/// pending value is being read the step asks what the reading asks and
/// nothing else, and once it is read the step has succeeded. So a creating
/// that is repeated for a token whose value is written finds that value and
/// asks nothing of the directory.
pub proof fn law_pending_value_ends_create(
    e: RotatorEventView,
    r: ResourceView,
    current: SecretValueView,
    fetch: FetchView,
    replies: Seq<ReplyView>,
)
    requires
        run(|state: FetchView, reply: ReplyView| fetch_step(state, reply), fetch, replies).outcome
            matches Some(Ok(_)),
    ensures
        run(
            |state: CreationView, reply: ReplyView| creation_step(state, reply),
            CreationView::ReadingPending { e, r, current, fetch },
            replies,
        ) == (Run::<()> {
            requests: run(
                |state: FetchView, reply: ReplyView| fetch_step(state, reply),
                fetch,
                replies,
            ).requests,
            outcome: Some(Ok(())),
        }),
    decreases replies.len(),
{
    reveal_with_fuel(run, 2);
    if replies.len() > 0 {
        match fetch_step(fetch, replies[0]) {
            StepView::Ask(request, next) => {
                law_pending_value_ends_create(e, r, current, next, replies.drop_first());
            },
            StepView::Done(_) => {},
        }
    }
}

/// Whether a request changes what the store or the directory holds.
pub open spec fn changes_something(request: RequestView) -> bool {
    ||| request is PutSecretValue
    ||| request is UpdateSecretVersionStage
    ||| request is CreateServiceSpecificCredential
    ||| request is ResetServiceSpecificCredential
    ||| request is UpdateServiceSpecificCredential
}

/// Whether one of `requests` asks the store to keep a value.
pub open spec fn wrote(requests: Seq<RequestView>) -> bool {
    exists|i: int| 0 <= i < requests.len() && #[trigger] requests[i] is PutSecretValue
}

/// Whether one of `requests` changes what the store or the directory holds.
pub open spec fn changed(requests: Seq<RequestView>) -> bool {
    exists|i: int| 0 <= i < requests.len() && changes_something(#[trigger] requests[i])
}

/// What [`wrote`] and [`changed`] say of a list is what they say of its
/// first request or of the rest.
proof fn lemma_first_and_rest(request: RequestView, rest: Seq<RequestView>)
    ensures
        wrote(seq![request] + rest) <==> (request is PutSecretValue || wrote(rest)),
        changed(seq![request] + rest) <==> (changes_something(request) || changed(rest)),
{
    let all = seq![request] + rest;
    assert(all[0] == request);
    assert forall|i: int| 0 <= i < rest.len() implies #[trigger] rest[i] == all[i + 1] by {}
    if wrote(rest) {
        let i = choose|i: int| 0 <= i < rest.len() && #[trigger] rest[i] is PutSecretValue;
        assert(all[i + 1] is PutSecretValue);
    }
    if wrote(all) {
        let i = choose|i: int| 0 <= i < all.len() && #[trigger] all[i] is PutSecretValue;
        if i > 0 {
            assert(rest[i - 1] is PutSecretValue);
        }
    }
    if changed(rest) {
        let i = choose|i: int| 0 <= i < rest.len() && changes_something(#[trigger] rest[i]);
        assert(changes_something(all[i + 1]));
    }
    if changed(all) {
        let i = choose|i: int| 0 <= i < all.len() && changes_something(#[trigger] all[i]);
        if i > 0 {
            assert(changes_something(rest[i - 1]));
        }
    }
}

/// The creating has asked for nothing yet that changes anything.
pub open spec fn is_reading(state: CreationView) -> bool {
    state is Start || state is ReadingCurrent || state is ReadingPending
}

/// The creating has found no pending value and has not yet asked the store
/// to keep the new one.
pub open spec fn is_making(state: CreationView) -> bool {
    match state {
        CreationView::Renewing { .. } => true,
        CreationView::Storing { store } => !(store.phase is Writing),
        _ => false,
    }
}

/// From a state in which nothing was changed yet, a chain of calls that
/// succeeds without a write has changed nothing; from a state past the
/// reading of the pending value, no chain of calls succeeds without a write.
proof fn lemma_no_write_no_change(state: CreationView, replies: Seq<ReplyView>)
    requires
        is_reading(state) || is_making(state),
    ensures
        ({
            let r = run(
                |state: CreationView, reply: ReplyView| creation_step(state, reply),
                state,
                replies,
            );
            (r.outcome == Some(Ok::<(), RotatorErrorView>(())) && !wrote(r.requests)) ==> (
            is_reading(state) && !changed(r.requests))
        }),
    decreases replies.len(),
{
    reveal_with_fuel(run, 2);
    let step = |state: CreationView, reply: ReplyView| creation_step(state, reply);
    if replies.len() > 0 {
        match creation_step(state, replies[0]) {
            StepView::Ask(request, next) => {
                let rest = run(step, next, replies.drop_first());
                lemma_first_and_rest(request, rest.requests);
                if is_reading(next) || is_making(next) {
                    lemma_no_write_no_change(next, replies.drop_first());
                }
            },
            StepView::Done(_) => {},
        }
    }
}

/// A creating that succeeds without asking the store to keep a value has
/// changed nothing, in the store or in the directory: whatever the replies,
/// it created no credential, reset none and activated none. Together with
/// [`law_pending_value_ends_create`]: of two creatings for one token, only
/// the first writes a value and touches the directory.
pub proof fn law_create_without_write_changes_nothing(
    e: RotatorEventView,
    r: ResourceView,
    replies: Seq<ReplyView>,
)
    ensures
        creation_run(e, r, replies).outcome == Some(Ok::<(), RotatorErrorView>(())) && !wrote(
            creation_run(e, r, replies).requests,
        ) ==> !changed(creation_run(e, r, replies).requests),
{
    lemma_no_write_no_change(CreationView::Start { e, r }, seq![ReplyView::Nothing] + replies);
}

/// Whether a request asks the store to keep a value as the pending value of
/// version `token` of `secret_id`.
pub open spec fn writes_pending(
    request: RequestView,
    secret_id: Seq<char>,
    token: Seq<char>,
) -> bool {
    request matches RequestView::PutSecretValue {
        secret_id: id,
        client_request_token,
        version_stage,
        ..
    } && id == secret_id && client_request_token == token && version_stage == PENDING@
}

/// Whether a creating is about version `token` of `secret_id`.
pub open spec fn is_about(state: CreationView, secret_id: Seq<char>, token: Seq<char>) -> bool {
    match state {
        CreationView::Start { e, .. } => e.secret_id == secret_id && e.client_request_token
            == token,
        CreationView::ReadingCurrent { e, .. } => e.secret_id == secret_id
            && e.client_request_token == token,
        CreationView::ReadingPending { e, .. } => e.secret_id == secret_id
            && e.client_request_token == token,
        CreationView::Renewing { e, .. } => e.secret_id == secret_id && e.client_request_token
            == token,
        CreationView::Storing { store } => store.secret_id == secret_id && store.token == token
            && store.version_stage == PENDING@,
    }
}

/// In every chain of calls of a creating, a request to keep a value is the
/// last request, and it is for the pending value of the version that the
/// creating is about.
proof fn lemma_write_is_last(
    state: CreationView,
    replies: Seq<ReplyView>,
    secret_id: Seq<char>,
    token: Seq<char>,
)
    requires
        is_about(state, secret_id, token),
    ensures
        ({
            let r = run(
                |state: CreationView, reply: ReplyView| creation_step(state, reply),
                state,
                replies,
            );
            forall|i: int|
                0 <= i < r.requests.len() && #[trigger] r.requests[i] is PutSecretValue ==> i
                    == r.requests.len() - 1 && writes_pending(r.requests[i], secret_id, token)
        }),
    decreases replies.len(),
{
    reveal_with_fuel(run, 3);
    let step = |state: CreationView, reply: ReplyView| creation_step(state, reply);
    if replies.len() > 0 {
        match creation_step(state, replies[0]) {
            StepView::Ask(request, next) => {
                let rest = run(step, next, replies.drop_first());
                let all = seq![request] + rest.requests;
                lemma_write_is_last(next, replies.drop_first(), secret_id, token);
                assert(all[0] == request);
                assert forall|i: int|
                    0 <= i < all.len() && #[trigger] all[i] is PutSecretValue implies i
                    == all.len() - 1 && writes_pending(all[i], secret_id, token) by {
                    if i > 0 {
                        assert(all[i] == rest.requests[i - 1]);
                    } else {
                        assert(rest.requests.len() == 0);
                    }
                }
            },
            StepView::Done(_) => {},
        }
    }
}

/// A creating asks the store at most once to keep a value, as the last thing
/// that it asks, and what it then writes is the pending value of the version
/// that the token names.
pub proof fn law_create_writes_at_most_once(
    e: RotatorEventView,
    r: ResourceView,
    replies: Seq<ReplyView>,
)
    ensures
        forall|i: int|
            0 <= i < creation_run(e, r, replies).requests.len() && #[trigger] creation_run(
                e,
                r,
                replies,
            ).requests[i] is PutSecretValue ==> i == creation_run(e, r, replies).requests.len()
                - 1 && writes_pending(
                creation_run(e, r, replies).requests[i],
                e.secret_id,
                e.client_request_token,
            ),
{
    lemma_write_is_last(
        CreationView::Start { e, r },
        seq![ReplyView::Nothing] + replies,
        e.secret_id,
        e.client_request_token,
    );
}

/// The request for the stored string of `secret_id` under a stage and a
/// version.
pub open spec fn reading_of(
    secret_id: Seq<char>,
    version_stage: Seq<char>,
    version_id: Option<Seq<char>>,
) -> RequestView {
    RequestView::GetSecretValue { secret_id, version_stage: Some(version_stage), version_id }
}

/// A first creating, from end to end. Where the store has a value in use
/// and no pending value for the token, and the pool has room, the creating
/// reads both, lists the credentials, has one created, and writes the secret
/// in use with the new credential merged into it as the pending value of the
/// version that the token names: it asks for these seven things, in this
/// order, and for nothing else, and succeeds. What the secret in use holds
/// beyond the three fields of the credential, as it was read from the store,
/// is in the secret that is written.
pub proof fn law_create_stores_the_merged_secret(
    e: RotatorEventView,
    r: ServiceSpecificCredentialResourceView,
    current_text: Seq<char>,
    current: SecretView,
    missing: crate::exchange::FaultView,
    listing: Result<Option<Seq<CredentialMetadataView>>, crate::exchange::FaultView>,
    credential: CredentialView,
    pending_text: Seq<char>,
)
    requires
        missing.kind == crate::exchange::FaultKind::ResourceNotFound,
        listed(listing) matches Ok(credentials) && credentials.len()
            < MAX_SERVICE_SPECIFIC_CREDENTIALS,
    ensures
        creation_run(
            e,
            ResourceView::ServiceSpecificCredential(r),
            seq![
                ReplyView::SecretString(Ok(Some(current_text))),
                ReplyView::Parsed(Ok(Some(current))),
                ReplyView::SecretString(Err(missing)),
                ReplyView::Listed(listing),
                ReplyView::Issued(Ok(Some(credential))),
                ReplyView::Serialised(Ok(pending_text)),
                ReplyView::Stored(Ok(())),
            ],
        ) == (Run::<()> {
            requests: seq![
                reading_of(e.secret_id, CURRENT@, None),
                RequestView::ParseSecret { secret_string: current_text },
                reading_of(e.secret_id, PENDING@, Some(e.client_request_token)),
                listing_of(r),
                creation_of(r),
                RequestView::SerialiseSecret {
                    secret: merged(SecretValueView { secret: Some(current) }, credential),
                },
                RequestView::PutSecretValue {
                    secret_id: e.secret_id,
                    client_request_token: e.client_request_token,
                    secret_string: pending_text,
                    version_stage: PENDING@,
                },
            ],
            outcome: Some(Ok(())),
        }),
        merged(SecretValueView { secret: Some(current) }, credential).attributes
            == current.attributes,
{
    let step = |state: CreationView, reply: ReplyView| creation_step(state, reply);
    let resource = ResourceView::ServiceSpecificCredential(r);
    let r0 = ReplyView::Nothing;
    let r1 = ReplyView::SecretString(Ok(Some(current_text)));
    let r2 = ReplyView::Parsed(Ok(Some(current)));
    let r3 = ReplyView::SecretString(Err(missing));
    let r4 = ReplyView::Listed(listing);
    let r5 = ReplyView::Issued(Ok(Some(credential)));
    let r6 = ReplyView::Serialised(Ok(pending_text));
    let r7 = ReplyView::Stored(Ok(()));
    let replies = seq![r1, r2, r3, r4, r5, r6, r7];
    let all = seq![r0] + replies;
    assert(all =~= seq![r0, r1, r2, r3, r4, r5, r6, r7]);
    let q1 = reading_of(e.secret_id, CURRENT@, None);
    let q2 = RequestView::ParseSecret { secret_string: current_text };
    let q3 = reading_of(e.secret_id, PENDING@, Some(e.client_request_token));
    let q4 = listing_of(r);
    let q5 = creation_of(r);
    let q6 = RequestView::SerialiseSecret {
        secret: merged(SecretValueView { secret: Some(current) }, credential),
    };
    let q7 = RequestView::PutSecretValue {
        secret_id: e.secret_id,
        client_request_token: e.client_request_token,
        secret_string: pending_text,
        version_stage: PENDING@,
    };
    let s0 = CreationView::Start { e, r: resource };
    let a0 = all;
    let a1 = a0.drop_first();
    let a2 = a1.drop_first();
    let a3 = a2.drop_first();
    let a4 = a3.drop_first();
    let a5 = a4.drop_first();
    let a6 = a5.drop_first();
    let a7 = a6.drop_first();
    assert(a1 =~= seq![r1, r2, r3, r4, r5, r6, r7]);
    assert(a2 =~= seq![r2, r3, r4, r5, r6, r7]);
    assert(a3 =~= seq![r3, r4, r5, r6, r7]);
    assert(a4 =~= seq![r4, r5, r6, r7]);
    assert(a5 =~= seq![r5, r6, r7]);
    assert(a6 =~= seq![r6, r7]);
    assert(a7 =~= seq![r7]);
    let t0 = creation_step(s0, a0[0]);
    assert(t0 matches StepView::Ask(q, _) && q == q1);
    let s1 = t0->Ask_1;
    let t1 = creation_step(s1, a1[0]);
    assert(t1 matches StepView::Ask(q, _) && q == q2);
    let s2 = t1->Ask_1;
    let t2 = creation_step(s2, a2[0]);
    assert(t2 matches StepView::Ask(q, _) && q == q3);
    let s3 = t2->Ask_1;
    let t3 = creation_step(s3, a3[0]);
    assert(t3 matches StepView::Ask(q, _) && q == q4);
    let s4 = t3->Ask_1;
    let t4 = creation_step(s4, a4[0]);
    assert(t4 matches StepView::Ask(q, _) && q == q5);
    let s5 = t4->Ask_1;
    let t5 = creation_step(s5, a5[0]);
    assert(t5 matches StepView::Ask(q, _) && q == q6);
    let s6 = t5->Ask_1;
    let t6 = creation_step(s6, a6[0]);
    assert(t6 matches StepView::Ask(q, _) && q == q7);
    let s7 = t6->Ask_1;
    let t7 = creation_step(s7, a7[0]);
    assert(t7 == StepView::<CreationView, ()>::Done(Ok(())));
    assert(run(step, s7, a7) == (Run::<()> { requests: Seq::empty(), outcome: Some(Ok(())) }));
    assert(run(step, s6, a6).requests =~= seq![q7]);
    assert(run(step, s5, a5).requests =~= seq![q6, q7]);
    assert(run(step, s4, a4).requests =~= seq![q5, q6, q7]);
    assert(run(step, s3, a3).requests =~= seq![q4, q5, q6, q7]);
    assert(run(step, s2, a2).requests =~= seq![q3, q4, q5, q6, q7]);
    assert(run(step, s1, a1).requests =~= seq![q2, q3, q4, q5, q6, q7]);
    assert(run(step, s0, a0).requests =~= seq![q1, q2, q3, q4, q5, q6, q7]);
}

} // verus!
