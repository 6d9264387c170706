//! The step that promotes the pending version to the one in use.
use vstd::prelude::*;
use crate::describe::{
    CURRENT,
    SecretDescriptionView,
    VersionStageMap,
    VersionStagesView,
    describe_secret,
    described,
    distinct_versions,
    lemma_version_at,
    stages_of,
};
use crate::error::{
    RotatorError,
    RotatorErrorView,
    RotatorResult,
    unexpected_reply,
    unexpected_reply_view,
};
use crate::event::{RotatorEvent, RotatorEventView};
use crate::exchange::{
    Fault,
    FaultKind,
    FaultView,
    Reply,
    ReplyView,
    Request,
    RequestView,
    Step,
    StepView,
    done_view,
};
use crate::text::{contains, opt_text, owned, owned_opt, texts};

verus! {

/// The versions that a move of a stage label names: the one that loses the
/// label, if there is one, then the one that gains it.
pub open spec fn moved_versions(old_version: Option<Seq<char>>, new_version: Seq<char>) -> Seq<
    Seq<char>,
> {
    match old_version {
        Some(v) => seq![v, new_version],
        None => seq![new_version],
    }
}

/// What the store's answer to the move of a stage label amounts to.
pub open spec fn moved(
    secret_id: Seq<char>,
    version_stage: Seq<char>,
    new_version: Seq<char>,
    old_version: Option<Seq<char>>,
    answer: Result<(), FaultView>,
) -> Result<(), RotatorErrorView> {
    match answer {
        Ok(_) => Ok(()),
        Err(fault) => Err(
            match fault.kind {
                FaultKind::ResourceNotFound => RotatorErrorView::SecretValueNotFound {
                    secret_id,
                    version_stage: Some(version_stage),
                    version_ids: moved_versions(old_version, new_version),
                    message: fault.message,
                },
                _ => RotatorErrorView::UpdateSecretVersionStage(fault.debug),
            },
        ),
    }
}

/// Reads the store's answer to the move of `version_stage` to `new_version`,
/// off `old_version`. That the store does not have a version or the label is
/// a [`RotatorError::SecretValueNotFound`] that names both versions, the old
/// one first; every other refusal is a
/// [`RotatorError::UpdateSecretVersionStage`].
pub fn update_secret_version_stage(
    secret_id: &str,
    version_stage: &str,
    new_version: &str,
    old_version: &Option<String>,
    answer: Result<(), Fault>,
) -> (r: RotatorResult<()>)
    ensures
        crate::error::result_view(r) == moved(
            secret_id@,
            version_stage@,
            new_version@,
            opt_text(*old_version),
            done_view(answer),
        ),
{
    match answer {
        Ok(_) => Ok(()),
        Err(fault) => match fault.kind {
            FaultKind::ResourceNotFound => {
                let mut version_ids: Vec<String> = Vec::new();
                match old_version {
                    Some(v) => {
                        version_ids.push(v.clone());
                    },
                    None => {},
                }
                version_ids.push(owned(new_version));
                assert(texts(version_ids@) =~= moved_versions(
                    opt_text(*old_version),
                    new_version@,
                ));
                Err(
                    RotatorError::SecretValueNotFound {
                        secret_id: owned(secret_id),
                        version_stage: Some(owned(version_stage)),
                        version_ids,
                        message: fault.message,
                    },
                )
            },
            _ => Err(RotatorError::UpdateSecretVersionStage(fault.debug)),
        },
    }
}

/// The last version of `map` that carries the label of the version in use.
pub open spec fn last_current(map: VersionStagesView) -> Option<Seq<char>>
    decreases map.len(),
{
    if map.len() == 0 {
        None
    } else if map.last().1.contains(CURRENT@) {
        Some(map.last().0)
    } else {
        last_current(map.drop_last())
    }
}

/// Whether `version` carries the label of the version in use.
pub open spec fn is_current(map: VersionStagesView, version: Seq<char>) -> bool {
    match stages_of(map, version) {
        Some(stages) => stages.contains(CURRENT@),
        None => false,
    }
}

/// What is to be done to make a version the one in use.
pub enum Promotion {
    /// Nothing: the version is in use already.
    AlreadyCurrent,
    /// The label is to move to it, off the version given, if one is given.
    MoveFrom(Option<String>),
}

/// A [`Promotion`] as specifications see it: every string as its characters.
pub enum PromotionView {
    AlreadyCurrent,
    MoveFrom(Option<Seq<char>>),
}

impl View for Promotion {
    type V = PromotionView;

    open spec fn view(&self) -> PromotionView {
        match *self {
            Promotion::AlreadyCurrent => PromotionView::AlreadyCurrent,
            Promotion::MoveFrom(v) => PromotionView::MoveFrom(opt_text(v)),
        }
    }
}

/// What is to be done to make `token` the version in use.
pub open spec fn promotion_of(map: VersionStagesView, token: Seq<char>) -> PromotionView {
    if is_current(map, token) {
        PromotionView::AlreadyCurrent
    } else {
        PromotionView::MoveFrom(last_current(map))
    }
}

/// Looks for the version in use, as [`promotion_of`] says.
pub fn promotion(map: &VersionStageMap, token: &str) -> (r: Promotion)
    ensures
        r@ == promotion_of(map@, token@),
{
    let wanted = owned(token);
    let mut current_version: Option<String> = None;
    let n = map.len();
    let ghost all = map@;
    let mut i: usize = 0;
    assert(all.take(0).len() == 0);
    while i < n
        invariant
            i <= n,
            n == all.len(),
            all == map@,
            distinct_versions(all),
            wanted@ == token@,
            opt_text(current_version) == last_current(all.take(i as int)),
            forall|j: int|
                0 <= j < i ==> !(all[j].0 == token@ && (#[trigger] all[j]).1.contains(CURRENT@)),
        decreases n - i,
    {
        let entry = map.entry(i);
        proof {
            let before = all.take(i as int);
            let upto = all.take(i + 1);
            assert(upto.last() == all[i as int]);
            assert(upto.drop_last() =~= before);
        }
        if contains(&entry.stages, CURRENT) {
            if entry.version_id == wanted {
                proof {
                    lemma_version_at(all, i as int);
                }
                return Promotion::AlreadyCurrent;
            }
            current_version = Some(entry.version_id.clone());
        }
        i += 1;
    }
    proof {
        assert(all.take(n as int) =~= all);
        if crate::describe::has_version(all, token@) {
            let k = crate::describe::version_index(all, token@);
            assert(all[k].0 == token@);
            assert(!all[k].1.contains(CURRENT@));
        }
    }
    Promotion::MoveFrom(current_version)
}

/// Where the step stands.
pub enum Finishing {
    /// Nothing was asked yet.
    Start { e: RotatorEvent },
    /// The store was asked to describe the secret.
    Describing { e: RotatorEvent },
    /// The store was asked to move the label, off the version given.
    Moving { e: RotatorEvent, old_version: Option<String> },
}

/// A [`Finishing`] as specifications see it: every string as its characters.
pub enum FinishingView {
    Start { e: RotatorEventView },
    Describing { e: RotatorEventView },
    Moving { e: RotatorEventView, old_version: Option<Seq<char>> },
}

impl View for Finishing {
    type V = FinishingView;

    open spec fn view(&self) -> FinishingView {
        match *self {
            Finishing::Start { e } => FinishingView::Start { e: e@ },
            Finishing::Describing { e } => FinishingView::Describing { e: e@ },
            Finishing::Moving { e, old_version } => FinishingView::Moving {
                e: e@,
                old_version: opt_text(old_version),
            },
        }
    }
}

/// The versions of a description; none where it names none.
pub open spec fn versions_of(description: SecretDescriptionView) -> VersionStagesView {
    match description.version_ids_to_stages {
        Some(map) => map,
        None => Seq::empty(),
    }
}

/// What follows the description of the secret.
pub open spec fn after_description(
    e: RotatorEventView,
    description: SecretDescriptionView,
) -> StepView<FinishingView, ()> {
    match promotion_of(versions_of(description), e.client_request_token) {
        PromotionView::AlreadyCurrent => StepView::Done(Ok(())),
        PromotionView::MoveFrom(old_version) => StepView::Ask(
            RequestView::UpdateSecretVersionStage {
                secret_id: e.secret_id,
                version_stage: CURRENT@,
                move_to_version_id: e.client_request_token,
                remove_from_version_id: old_version,
            },
            FinishingView::Moving { e, old_version },
        ),
    }
}

/// The step that [`finish_secret`] takes from `state` on `reply`.
pub open spec fn finishing_step(state: FinishingView, reply: ReplyView) -> StepView<
    FinishingView,
    (),
> {
    match state {
        FinishingView::Start { e } => StepView::Ask(
            RequestView::DescribeSecret { secret_id: e.secret_id },
            FinishingView::Describing { e },
        ),
        FinishingView::Describing { e } => match reply {
            ReplyView::Described(answer) => match described(e.secret_id, answer) {
                Ok(description) => after_description(e, description),
                Err(error) => StepView::Done(Err(error)),
            },
            _ => StepView::Done(Err(unexpected_reply_view())),
        },
        FinishingView::Moving { e, old_version } => match reply {
            ReplyView::Moved(answer) => StepView::Done(
                moved(e.secret_id, CURRENT@, e.client_request_token, old_version, answer),
            ),
            _ => StepView::Done(Err(unexpected_reply_view())),
        },
    }
}

/// Makes the version that the token names the one in use, one request at a
/// time: has the secret described again, and where the version does not yet
/// carry the label, asks the store once to move the label to it and off the
/// version that carried it. Where it carries the label already, nothing is
/// asked and the step succeeds.
pub fn finish_secret(state: Finishing, reply: Reply) -> (r: Step<Finishing, ()>)
    ensures
        r@ == finishing_step(state@, reply@),
{
    match state {
        Finishing::Start { e } => Step::Ask(
            Request::DescribeSecret { secret_id: e.secret_id.clone() },
            Finishing::Describing { e },
        ),
        Finishing::Describing { e } => match reply {
            Reply::Described(answer) => match describe_secret(e.secret_id.as_str(), answer) {
                Ok(description) => {
                    let found = match &description.version_ids_to_stages {
                        Some(map) => promotion(map, e.client_request_token.as_str()),
                        None => {
                            let map = VersionStageMap::new();
                            promotion(&map, e.client_request_token.as_str())
                        },
                    };
                    match found {
                        Promotion::AlreadyCurrent => Step::Done(Ok(())),
                        Promotion::MoveFrom(old_version) => {
                            let request = Request::UpdateSecretVersionStage {
                                secret_id: e.secret_id.clone(),
                                version_stage: owned(CURRENT),
                                move_to_version_id: e.client_request_token.clone(),
                                remove_from_version_id: owned_opt(&old_version),
                            };
                            Step::Ask(request, Finishing::Moving { e, old_version })
                        },
                    }
                },
                Err(error) => Step::Done(Err(error)),
            },
            _ => Step::Done(Err(unexpected_reply())),
        },
        Finishing::Moving { e, old_version } => match reply {
            Reply::Moved(answer) => Step::Done(
                update_secret_version_stage(
                    e.secret_id.as_str(),
                    CURRENT,
                    e.client_request_token.as_str(),
                    &old_version,
                    answer,
                ),
            ),
            _ => Step::Done(Err(unexpected_reply())),
        },
    }
}

} // verus!
