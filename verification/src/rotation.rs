//! One step of a rotation, from the request for it to its result.
//!
//! [`rotate`] is the whole of it. It is a step function: call it with
//! [`Rotation::Start`] and [`Reply::Nothing`], perform the request that it
//! asks, call it again with the state that it gave and the reply, and so on
//! until it is done. Nothing is remembered from one rotation step to the
//! next: every call chain starts by having the store describe the secret.
use vstd::prelude::*;
use crate::config::{Config, ConfigView, ResourceType, config_of};
use crate::create::{Creation, CreationView, create_secret, creation_step};
use crate::describe::{
    CURRENT,
    PENDING,
    SecretDescription,
    SecretDescriptionView,
    VersionStageMap,
    describe_secret,
    described,
    stages_of,
};
use crate::error::{
    RotatorError,
    RotatorErrorView,
    RotatorResult,
    unexpected_reply,
    unexpected_reply_view,
};
use crate::event::{RotatorEvent, RotatorEventView, RotatorStep};
use crate::exchange::{Reply, ReplyView, Request, RequestView, Step, StepView};
use crate::finish::{Finishing, FinishingView, finish_secret, finishing_step, versions_of};
use crate::resource::{
    Resource,
    ResourceView,
    ServiceSpecificCredentialResource,
    resource_of,
};
use crate::set::{Setting, SettingView, set_secret, setting_step};
use crate::test::{Testing, TestingView, test_secret, testing_step};
use crate::text::contains;

verus! {

/// What the checks before a step come to, where they do not refuse it.
pub enum Clearance {
    /// The version is in use already: there is nothing to do.
    AlreadyCurrent,
    /// The step is to be taken, on the resource given.
    Proceed(Resource),
}

/// A [`Clearance`] as specifications see it: every string as its characters.
pub enum ClearanceView {
    AlreadyCurrent,
    Proceed(ResourceView),
}

impl View for Clearance {
    type V = ClearanceView;

    open spec fn view(&self) -> ClearanceView {
        match *self {
            Clearance::AlreadyCurrent => ClearanceView::AlreadyCurrent,
            Clearance::Proceed(r) => ClearanceView::Proceed(r@),
        }
    }
}

/// The resource that a configuration describes, by its kind.
pub open spec fn resource_for(config: ConfigView) -> Result<ResourceView, RotatorErrorView> {
    match config.resource_type {
        ResourceType::ServiceSpecificCredential => match resource_of(config) {
            Ok(r) => Ok(ResourceView::ServiceSpecificCredential(r)),
            Err(e) => Err(e),
        },
    }
}

/// Whether the store rotates the secret. A description that does not say is
/// read as a no.
pub open spec fn rotation_enabled(description: SecretDescriptionView) -> bool {
    description.rotation_enabled == Some(true)
}

/// What the checks on the version that the token names come to, for a secret
/// that is rotated.
pub open spec fn version_clearance(
    e: RotatorEventView,
    description: SecretDescriptionView,
    resource: ResourceView,
) -> Result<ClearanceView, RotatorErrorView> {
    match stages_of(versions_of(description), e.client_request_token) {
        None => Err(
            RotatorErrorView::NoStageForRotation {
                secret_id: e.secret_id,
                version: e.client_request_token,
            },
        ),
        Some(stages) => if stages.contains(CURRENT@) {
            Ok(ClearanceView::AlreadyCurrent)
        } else if !stages.contains(PENDING@) {
            Err(
                RotatorErrorView::NotSetAsPending {
                    secret_id: e.secret_id,
                    version: e.client_request_token,
                },
            )
        } else {
            Ok(ClearanceView::Proceed(resource))
        },
    }
}

/// What the checks before a step come to, in their order: the tags must give
/// a configuration, the configuration a resource; the secret must be
/// rotated; the token must name a version of it; a version in use needs
/// nothing done; any other must be pending.
pub open spec fn clearance(e: RotatorEventView, description: SecretDescriptionView) -> Result<
    ClearanceView,
    RotatorErrorView,
> {
    match config_of(e.secret_id, description.tags) {
        Err(error) => Err(error),
        Ok(config) => match resource_for(config) {
            Err(error) => Err(error),
            Ok(resource) => if !rotation_enabled(description) {
                Err(RotatorErrorView::RotationNotEnabled { secret_id: e.secret_id })
            } else {
                version_clearance(e, description, resource)
            },
        },
    }
}

/// Makes the checks before a step, as [`clearance`] says.
pub fn check(e: &RotatorEvent, description: SecretDescription) -> (r: RotatorResult<Clearance>)
    ensures
        crate::error::result_view(r) == clearance(e@, description@),
{
    let ghost before = description@;
    let SecretDescription { rotation_enabled, tags, version_ids_to_stages } = description;
    let config = match Config::new_for_secret(e.secret_id.as_str(), tags) {
        Ok(config) => config,
        Err(error) => {
            return Err(error);
        },
    };
    let resource = match config.resource_type {
        ResourceType::ServiceSpecificCredential => match ServiceSpecificCredentialResource::new(
            &config,
        ) {
            Ok(r) => Resource::ServiceSpecificCredential(r),
            Err(error) => {
                return Err(error);
            },
        },
    };
    let enabled = match rotation_enabled {
        Some(enabled) => enabled,
        None => false,
    };
    if !enabled {
        return Err(RotatorError::RotationNotEnabled { secret_id: e.secret_id.clone() });
    }
    let versions = match version_ids_to_stages {
        Some(map) => map,
        None => VersionStageMap::new(),
    };
    assert(versions@ == versions_of(before));
    match versions.get(e.client_request_token.as_str()) {
        None => Err(
            RotatorError::NoStageForRotation {
                secret_id: e.secret_id.clone(),
                version: e.client_request_token.clone(),
            },
        ),
        Some(stages) => {
            if contains(stages, CURRENT) {
                Ok(Clearance::AlreadyCurrent)
            } else if !contains(stages, PENDING) {
                Err(
                    RotatorError::NotSetAsPending {
                        secret_id: e.secret_id.clone(),
                        version: e.client_request_token.clone(),
                    },
                )
            } else {
                Ok(Clearance::Proceed(resource))
            }
        },
    }
}

/// Where a rotation step stands.
pub enum Rotation {
    /// Nothing was asked yet.
    Start { e: RotatorEvent },
    /// The store was asked to describe the secret.
    Describing { e: RotatorEvent },
    /// The checks passed; the step asked for is under way.
    Creating(Creation),
    Setting(Setting),
    Testing(Testing),
    Finishing(Finishing),
}

/// A [`Rotation`] as specifications see it: every string as its characters.
pub enum RotationView {
    Start { e: RotatorEventView },
    Describing { e: RotatorEventView },
    Creating(CreationView),
    Setting(SettingView),
    Testing(TestingView),
    Finishing(FinishingView),
}

impl View for Rotation {
    type V = RotationView;

    open spec fn view(&self) -> RotationView {
        match *self {
            Rotation::Start { e } => RotationView::Start { e: e@ },
            Rotation::Describing { e } => RotationView::Describing { e: e@ },
            Rotation::Creating(s) => RotationView::Creating(s@),
            Rotation::Setting(s) => RotationView::Setting(s@),
            Rotation::Testing(s) => RotationView::Testing(s@),
            Rotation::Finishing(s) => RotationView::Finishing(s@),
        }
    }
}

/// The step of the creating, seen from the rotation.
pub open spec fn of_creating(step: StepView<CreationView, ()>) -> StepView<RotationView, ()> {
    match step {
        StepView::Ask(request, state) => StepView::Ask(request, RotationView::Creating(state)),
        StepView::Done(result) => StepView::Done(result),
    }
}

/// The step of the setting, seen from the rotation.
pub open spec fn of_setting(step: StepView<SettingView, ()>) -> StepView<RotationView, ()> {
    match step {
        StepView::Ask(request, state) => StepView::Ask(request, RotationView::Setting(state)),
        StepView::Done(result) => StepView::Done(result),
    }
}

/// The step of the testing, seen from the rotation.
pub open spec fn of_testing(step: StepView<TestingView, ()>) -> StepView<RotationView, ()> {
    match step {
        StepView::Ask(request, state) => StepView::Ask(request, RotationView::Testing(state)),
        StepView::Done(result) => StepView::Done(result),
    }
}

/// The step of the finishing, seen from the rotation.
pub open spec fn of_finishing(step: StepView<FinishingView, ()>) -> StepView<RotationView, ()> {
    match step {
        StepView::Ask(request, state) => StepView::Ask(request, RotationView::Finishing(state)),
        StepView::Done(result) => StepView::Done(result),
    }
}

/// The beginning of the step that request `e` asks for, on `resource`.
pub open spec fn dispatched(e: RotatorEventView, resource: ResourceView) -> StepView<
    RotationView,
    (),
> {
    match e.step {
        RotatorStep::CreateSecret => of_creating(
            creation_step(CreationView::Start { e, r: resource }, ReplyView::Nothing),
        ),
        RotatorStep::SetSecret => of_setting(
            setting_step(SettingView::Start { e }, ReplyView::Nothing),
        ),
        RotatorStep::TestSecret => of_testing(
            testing_step(TestingView::Start { e }, ReplyView::Nothing),
        ),
        RotatorStep::FinishSecret => of_finishing(
            finishing_step(FinishingView::Start { e }, ReplyView::Nothing),
        ),
    }
}

/// What follows the description of the secret.
pub open spec fn after_description(
    e: RotatorEventView,
    description: SecretDescriptionView,
) -> StepView<RotationView, ()> {
    match clearance(e, description) {
        Err(error) => StepView::Done(Err(error)),
        Ok(ClearanceView::AlreadyCurrent) => StepView::Done(Ok(())),
        Ok(ClearanceView::Proceed(resource)) => dispatched(e, resource),
    }
}

/// The step that [`rotate`] takes from `state` on `reply`.
pub open spec fn rotation_step(state: RotationView, reply: ReplyView) -> StepView<
    RotationView,
    (),
> {
    match state {
        RotationView::Start { e } => StepView::Ask(
            RequestView::DescribeSecret { secret_id: e.secret_id },
            RotationView::Describing { e },
        ),
        RotationView::Describing { e } => match reply {
            ReplyView::Described(answer) => match described(e.secret_id, answer) {
                Ok(description) => after_description(e, description),
                Err(error) => StepView::Done(Err(error)),
            },
            _ => StepView::Done(Err(unexpected_reply_view())),
        },
        RotationView::Creating(s) => of_creating(creation_step(s, reply)),
        RotationView::Setting(s) => of_setting(setting_step(s, reply)),
        RotationView::Testing(s) => of_testing(testing_step(s, reply)),
        RotationView::Finishing(s) => of_finishing(finishing_step(s, reply)),
    }
}

fn creating(step: Step<Creation, ()>) -> (r: Step<Rotation, ()>)
    ensures
        r@ == of_creating(step@),
{
    match step {
        Step::Ask(request, state) => Step::Ask(request, Rotation::Creating(state)),
        Step::Done(Ok(done)) => Step::Done(Ok(done)),
        Step::Done(Err(error)) => Step::Done(Err(error)),
    }
}

fn setting(step: Step<Setting, ()>) -> (r: Step<Rotation, ()>)
    ensures
        r@ == of_setting(step@),
{
    match step {
        Step::Ask(request, state) => Step::Ask(request, Rotation::Setting(state)),
        Step::Done(Ok(done)) => Step::Done(Ok(done)),
        Step::Done(Err(error)) => Step::Done(Err(error)),
    }
}

fn testing(step: Step<Testing, ()>) -> (r: Step<Rotation, ()>)
    ensures
        r@ == of_testing(step@),
{
    match step {
        Step::Ask(request, state) => Step::Ask(request, Rotation::Testing(state)),
        Step::Done(Ok(done)) => Step::Done(Ok(done)),
        Step::Done(Err(error)) => Step::Done(Err(error)),
    }
}

fn finishing(step: Step<Finishing, ()>) -> (r: Step<Rotation, ()>)
    ensures
        r@ == of_finishing(step@),
{
    match step {
        Step::Ask(request, state) => Step::Ask(request, Rotation::Finishing(state)),
        Step::Done(Ok(done)) => Step::Done(Ok(done)),
        Step::Done(Err(error)) => Step::Done(Err(error)),
    }
}

/// Takes one step of a rotation, one request at a time. It has the store
/// describe the secret, makes the checks of [`clearance`] on the
/// description, and where they pass, takes the step that the request asks
/// for. A failure of the checks or of the step ends the rotation step with
/// that failure, unchanged; a version that is in use already ends it with
/// success before anything is written or moved.
pub fn rotate(state: Rotation, reply: Reply) -> (r: Step<Rotation, ()>)
    ensures
        r@ == rotation_step(state@, reply@),
{
    match state {
        Rotation::Start { e } => Step::Ask(
            Request::DescribeSecret { secret_id: e.secret_id.clone() },
            Rotation::Describing { e },
        ),
        Rotation::Describing { e } => match reply {
            Reply::Described(answer) => match describe_secret(e.secret_id.as_str(), answer) {
                Ok(description) => match check(&e, description) {
                    Err(error) => Step::Done(Err(error)),
                    Ok(Clearance::AlreadyCurrent) => Step::Done(Ok(())),
                    Ok(Clearance::Proceed(resource)) => match e.step {
                        RotatorStep::CreateSecret => creating(
                            create_secret(Creation::Start { e, r: resource }, Reply::Nothing),
                        ),
                        RotatorStep::SetSecret => setting(
                            set_secret(Setting::Start { e }, Reply::Nothing),
                        ),
                        RotatorStep::TestSecret => testing(
                            test_secret(Testing::Start { e }, Reply::Nothing),
                        ),
                        RotatorStep::FinishSecret => finishing(
                            finish_secret(Finishing::Start { e }, Reply::Nothing),
                        ),
                    },
                },
                Err(error) => Step::Done(Err(error)),
            },
            _ => Step::Done(Err(unexpected_reply())),
        },
        Rotation::Creating(s) => creating(create_secret(s, reply)),
        Rotation::Setting(s) => setting(set_secret(s, reply)),
        Rotation::Testing(s) => testing(test_secret(s, reply)),
        Rotation::Finishing(s) => finishing(finish_secret(s, reply)),
    }
}

} // verus!
