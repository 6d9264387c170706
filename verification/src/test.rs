//! The step that tries the pending value out.
use vstd::prelude::*;
use crate::describe::PENDING;
use crate::event::{RotatorEvent, RotatorEventView};
use crate::exchange::{Reply, ReplyView, Step, StepView};
use crate::set::pending_fetch;
use crate::value::{
    Fetch,
    FetchView,
    SecretValue,
    SecretValueView,
    fetch_step,
    get_secret_value,
};

verus! {

/// Where the step stands.
pub enum Testing {
    /// Nothing was asked yet.
    Start { e: RotatorEvent },
    /// The pending value is being read.
    Reading { fetch: Fetch },
}

/// A [`Testing`] as specifications see it: every string as its characters.
pub enum TestingView {
    Start { e: RotatorEventView },
    Reading { fetch: FetchView },
}

impl View for Testing {
    type V = TestingView;

    open spec fn view(&self) -> TestingView {
        match *self {
            Testing::Start { e } => TestingView::Start { e: e@ },
            Testing::Reading { fetch } => TestingView::Reading { fetch: fetch@ },
        }
    }
}

/// The step of the surrounding reading, seen from this step: it goes on
/// while the reading goes on, and ends as the reading ends, the value itself
/// dropped.
pub open spec fn of_reading(step: StepView<FetchView, SecretValueView>) -> StepView<
    TestingView,
    (),
> {
    match step {
        StepView::Ask(request, fetch) => StepView::Ask(request, TestingView::Reading { fetch }),
        StepView::Done(Ok(_)) => StepView::Done(Ok(())),
        StepView::Done(Err(error)) => StepView::Done(Err(error)),
    }
}

/// The step that [`test_secret`] takes from `state` on `reply`.
pub open spec fn testing_step(state: TestingView, reply: ReplyView) -> StepView<TestingView, ()> {
    match state {
        TestingView::Start { e } => of_reading(fetch_step(pending_fetch(e), ReplyView::Nothing)),
        TestingView::Reading { fetch } => of_reading(fetch_step(fetch, reply)),
    }
}

fn reading(step: Step<Fetch, SecretValue>) -> (r: Step<Testing, ()>)
    ensures
        r@ == of_reading(step@),
{
    match step {
        Step::Ask(request, fetch) => Step::Ask(request, Testing::Reading { fetch }),
        Step::Done(Ok(_)) => Step::Done(Ok(())),
        Step::Done(Err(error)) => Step::Done(Err(error)),
    }
}

/// Confirms that the pending value of the version that the token names can
/// be read, one request at a time. Every failure to read it is handed on;
/// that the store has no such value is a failure like any other. The value
/// is then not tried on the resource.
pub fn test_secret(state: Testing, reply: Reply) -> (r: Step<Testing, ()>)
    ensures
        r@ == testing_step(state@, reply@),
{
    match state {
        Testing::Start { e } => {
            let fetch = Fetch::new(
                e.secret_id.as_str(),
                Some(PENDING),
                Some(e.client_request_token.as_str()),
            );
            reading(get_secret_value(fetch, Reply::Nothing))
        },
        Testing::Reading { fetch } => reading(get_secret_value(fetch, reply)),
    }
}

} // verus!
