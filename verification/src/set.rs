//! The step that applies the pending value to the resource.
use vstd::prelude::*;
use crate::describe::PENDING;
use crate::event::{RotatorEvent, RotatorEventView};
use crate::exchange::{Reply, ReplyView, Step, StepView};
use crate::value::{
    Fetch,
    FetchView,
    SecretValue,
    SecretValueView,
    fetch_of,
    fetch_step,
    get_secret_value,
};

verus! {

/// Where the step stands.
pub enum Setting {
    /// Nothing was asked yet.
    Start { e: RotatorEvent },
    /// The pending value is being read.
    Reading { fetch: Fetch },
}

/// A [`Setting`] as specifications see it: every string as its characters.
pub enum SettingView {
    Start { e: RotatorEventView },
    Reading { fetch: FetchView },
}

impl View for Setting {
    type V = SettingView;

    open spec fn view(&self) -> SettingView {
        match *self {
            Setting::Start { e } => SettingView::Start { e: e@ },
            Setting::Reading { fetch } => SettingView::Reading { fetch: fetch@ },
        }
    }
}

/// The reading of the value that request `e` is about: the one under the
/// pending stage and the version that the token names.
pub open spec fn pending_fetch(e: RotatorEventView) -> FetchView {
    fetch_of(e.secret_id, Some(PENDING@), Some(e.client_request_token))
}

/// The step of the surrounding reading, seen from this step: it goes on
/// while the reading goes on, and ends as the reading ends, the value itself
/// dropped.
pub open spec fn of_reading(step: StepView<FetchView, SecretValueView>) -> StepView<
    SettingView,
    (),
> {
    match step {
        StepView::Ask(request, fetch) => StepView::Ask(request, SettingView::Reading { fetch }),
        StepView::Done(Ok(_)) => StepView::Done(Ok(())),
        StepView::Done(Err(error)) => StepView::Done(Err(error)),
    }
}

/// The step that [`set_secret`] takes from `state` on `reply`.
pub open spec fn setting_step(state: SettingView, reply: ReplyView) -> StepView<SettingView, ()> {
    match state {
        SettingView::Start { e } => of_reading(fetch_step(pending_fetch(e), ReplyView::Nothing)),
        SettingView::Reading { fetch } => of_reading(fetch_step(fetch, reply)),
    }
}

fn reading(step: Step<Fetch, SecretValue>) -> (r: Step<Setting, ()>)
    ensures
        r@ == of_reading(step@),
{
    match step {
        Step::Ask(request, fetch) => Step::Ask(request, Setting::Reading { fetch }),
        Step::Done(Ok(_)) => Step::Done(Ok(())),
        Step::Done(Err(error)) => Step::Done(Err(error)),
    }
}

/// Confirms that the pending value of the version that the token names can
/// be read, one request at a time. Every failure to read it is handed on;
/// that the store has no such value is a failure like any other. Nothing is
/// then done to the resource: a credential of the directory is valid as soon
/// as it exists.
pub fn set_secret(state: Setting, reply: Reply) -> (r: Step<Setting, ()>)
    ensures
        r@ == setting_step(state@, reply@),
{
    match state {
        Setting::Start { e } => {
            let fetch = Fetch::new(
                e.secret_id.as_str(),
                Some(PENDING),
                Some(e.client_request_token.as_str()),
            );
            reading(get_secret_value(fetch, Reply::Nothing))
        },
        Setting::Reading { fetch } => reading(get_secret_value(fetch, reply)),
    }
}

} // verus!
