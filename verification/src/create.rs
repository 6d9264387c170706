//! The step that makes sure a pending value exists.
use vstd::prelude::*;
use crate::describe::{CURRENT, PENDING};
use crate::error::{RotatorError, RotatorErrorView};
use crate::event::{RotatorEvent, RotatorEventView};
use crate::exchange::{Reply, ReplyView, Step, StepView};
use crate::resource::{Renewal, RenewalView, Resource, ResourceView, resource_step};
use crate::set::pending_fetch;
use crate::value::{
    Fetch,
    FetchView,
    Secret,
    SecretValue,
    SecretValueView,
    SecretView,
    Put,
    PutView,
    fetch_of,
    fetch_step,
    get_secret_value,
    put_secret_value,
    put_of,
    put_step,
};

verus! {

/// Where the step stands.
pub enum Creation {
    /// Nothing was asked yet.
    Start { e: RotatorEvent, r: Resource },
    /// The value in use is being read.
    ReadingCurrent { e: RotatorEvent, r: Resource, fetch: Fetch },
    /// The value in use was read; the pending value is being read.
    ReadingPending { e: RotatorEvent, r: Resource, current: SecretValue, fetch: Fetch },
    /// There is no pending value; the resource is making a new secret.
    Renewing { e: RotatorEvent, r: Resource, renewal: Renewal },
    /// The new secret is being written as the pending value.
    Storing { store: Put },
}

/// A [`Creation`] as specifications see it: every string as its characters.
pub enum CreationView {
    Start { e: RotatorEventView, r: ResourceView },
    ReadingCurrent { e: RotatorEventView, r: ResourceView, fetch: FetchView },
    ReadingPending {
        e: RotatorEventView,
        r: ResourceView,
        current: SecretValueView,
        fetch: FetchView,
    },
    Renewing { e: RotatorEventView, r: ResourceView, renewal: RenewalView },
    Storing { store: PutView },
}

impl View for Creation {
    type V = CreationView;

    open spec fn view(&self) -> CreationView {
        match *self {
            Creation::Start { e, r } => CreationView::Start { e: e@, r: r@ },
            Creation::ReadingCurrent { e, r, fetch } => CreationView::ReadingCurrent {
                e: e@,
                r: r@,
                fetch: fetch@,
            },
            Creation::ReadingPending { e, r, current, fetch } => CreationView::ReadingPending {
                e: e@,
                r: r@,
                current: current@,
                fetch: fetch@,
            },
            Creation::Renewing { e, r, renewal } => CreationView::Renewing {
                e: e@,
                r: r@,
                renewal: renewal@,
            },
            Creation::Storing { store } => CreationView::Storing { store: store@ },
        }
    }
}

/// The reading of the value in use of the secret that request `e` is about.
pub open spec fn current_fetch(e: RotatorEventView) -> FetchView {
    fetch_of(e.secret_id, Some(CURRENT@), None)
}

/// The writing of `secret` as the pending value of the version that the
/// token names.
pub open spec fn pending_put(e: RotatorEventView, secret: SecretView) -> PutView {
    put_of(e.secret_id, e.client_request_token, secret, PENDING@)
}

/// Whether an error says that the store has no value under the stage and the
/// version that were asked for.
pub open spec fn is_value_not_found(error: RotatorErrorView) -> bool {
    error is SecretValueNotFound
}

/// The step of the writing, seen from this step.
pub open spec fn of_storing(step: StepView<PutView, ()>) -> StepView<CreationView, ()> {
    match step {
        StepView::Ask(request, store) => StepView::Ask(request, CreationView::Storing { store }),
        StepView::Done(result) => StepView::Done(result),
    }
}

/// The step of the resource, seen from this step: once the resource has made
/// a secret, the writing of it begins.
pub open spec fn of_renewing(
    e: RotatorEventView,
    r: ResourceView,
    step: StepView<RenewalView, SecretView>,
) -> StepView<CreationView, ()> {
    match step {
        StepView::Ask(request, renewal) => StepView::Ask(
            request,
            CreationView::Renewing { e, r, renewal },
        ),
        StepView::Done(Ok(secret)) => of_storing(
            put_step(pending_put(e, secret), ReplyView::Nothing),
        ),
        StepView::Done(Err(error)) => StepView::Done(Err(error)),
    }
}

/// The step of the reading of the pending value, seen from this step: a
/// value that is there ends the step; that the store has none makes the
/// resource begin a new secret; any other failure ends the step with it.
pub open spec fn of_reading_pending(
    e: RotatorEventView,
    r: ResourceView,
    current: SecretValueView,
    step: StepView<FetchView, SecretValueView>,
) -> StepView<CreationView, ()> {
    match step {
        StepView::Ask(request, fetch) => StepView::Ask(
            request,
            CreationView::ReadingPending { e, r, current, fetch },
        ),
        StepView::Done(Ok(_)) => StepView::Done(Ok(())),
        StepView::Done(Err(error)) => if is_value_not_found(error) {
            of_renewing(
                e,
                r,
                resource_step(r, RenewalView::Start { current_value: current }, ReplyView::Nothing),
            )
        } else {
            StepView::Done(Err(error))
        },
    }
}

/// The step of the reading of the value in use, seen from this step: once it
/// is read, the reading of the pending value begins.
pub open spec fn of_reading_current(
    e: RotatorEventView,
    r: ResourceView,
    step: StepView<FetchView, SecretValueView>,
) -> StepView<CreationView, ()> {
    match step {
        StepView::Ask(request, fetch) => StepView::Ask(
            request,
            CreationView::ReadingCurrent { e, r, fetch },
        ),
        StepView::Done(Ok(current)) => of_reading_pending(
            e,
            r,
            current,
            fetch_step(pending_fetch(e), ReplyView::Nothing),
        ),
        StepView::Done(Err(error)) => StepView::Done(Err(error)),
    }
}

/// The step that [`create_secret`] takes from `state` on `reply`.
pub open spec fn creation_step(state: CreationView, reply: ReplyView) -> StepView<
    CreationView,
    (),
> {
    match state {
        CreationView::Start { e, r } => of_reading_current(
            e,
            r,
            fetch_step(current_fetch(e), ReplyView::Nothing),
        ),
        CreationView::ReadingCurrent { e, r, fetch } => of_reading_current(
            e,
            r,
            fetch_step(fetch, reply),
        ),
        CreationView::ReadingPending { e, r, current, fetch } => of_reading_pending(
            e,
            r,
            current,
            fetch_step(fetch, reply),
        ),
        CreationView::Renewing { e, r, renewal } => of_renewing(
            e,
            r,
            resource_step(r, renewal, reply),
        ),
        CreationView::Storing { store } => of_storing(put_step(store, reply)),
    }
}

fn storing(step: Step<Put, ()>) -> (r: Step<Creation, ()>)
    ensures
        r@ == of_storing(step@),
{
    match step {
        Step::Ask(request, store) => Step::Ask(request, Creation::Storing { store }),
        Step::Done(Ok(done)) => Step::Done(Ok(done)),
        Step::Done(Err(error)) => Step::Done(Err(error)),
    }
}

fn renewing(e: RotatorEvent, r: Resource, step: Step<Renewal, Secret>) -> (out: Step<Creation, ()>)
    ensures
        out@ == of_renewing(e@, r@, step@),
{
    match step {
        Step::Ask(request, renewal) => Step::Ask(request, Creation::Renewing { e, r, renewal }),
        Step::Done(Ok(secret)) => {
            let store = Put::new(
                e.secret_id.as_str(),
                e.client_request_token.as_str(),
                secret,
                PENDING,
            );
            storing(put_secret_value(store, Reply::Nothing))
        },
        Step::Done(Err(error)) => Step::Done(Err(error)),
    }
}

fn reading_pending(
    e: RotatorEvent,
    r: Resource,
    current: SecretValue,
    step: Step<Fetch, SecretValue>,
) -> (out: Step<Creation, ()>)
    ensures
        out@ == of_reading_pending(e@, r@, current@, step@),
{
    match step {
        Step::Ask(request, fetch) => Step::Ask(
            request,
            Creation::ReadingPending { e, r, current, fetch },
        ),
        Step::Done(Ok(_)) => Step::Done(Ok(())),
        Step::Done(Err(RotatorError::SecretValueNotFound { .. })) => {
            let begun = r.create_new_password(
                Renewal::Start { current_value: current },
                Reply::Nothing,
            );
            renewing(e, r, begun)
        },
        Step::Done(Err(error)) => Step::Done(Err(error)),
    }
}

fn reading_current(e: RotatorEvent, r: Resource, step: Step<Fetch, SecretValue>) -> (out: Step<
    Creation,
    (),
>)
    ensures
        out@ == of_reading_current(e@, r@, step@),
{
    match step {
        Step::Ask(request, fetch) => Step::Ask(request, Creation::ReadingCurrent { e, r, fetch }),
        Step::Done(Ok(current)) => {
            let fetch = Fetch::new(
                e.secret_id.as_str(),
                Some(PENDING),
                Some(e.client_request_token.as_str()),
            );
            let begun = get_secret_value(fetch, Reply::Nothing);
            reading_pending(e, r, current, begun)
        },
        Step::Done(Err(error)) => Step::Done(Err(error)),
    }
}

/// Makes sure that the version that the token names has a pending value, one
/// request at a time. It reads the value in use, then the pending value of
/// that version. Where the store has that pending value the step succeeds and
/// asks nothing more. Where the store says that it has none, the resource
/// makes a new secret from the value in use, and the secret is written as
/// the pending value of that version. Every other failure ends the step.
pub fn create_secret(state: Creation, reply: Reply) -> (out: Step<Creation, ()>)
    ensures
        out@ == creation_step(state@, reply@),
{
    match state {
        Creation::Start { e, r } => {
            let fetch = Fetch::new(e.secret_id.as_str(), Some(CURRENT), None);
            let begun = get_secret_value(fetch, Reply::Nothing);
            reading_current(e, r, begun)
        },
        Creation::ReadingCurrent { e, r, fetch } => {
            let step = get_secret_value(fetch, reply);
            reading_current(e, r, step)
        },
        Creation::ReadingPending { e, r, current, fetch } => {
            let step = get_secret_value(fetch, reply);
            reading_pending(e, r, current, step)
        },
        Creation::Renewing { e, r, renewal } => {
            let step = r.create_new_password(renewal, reply);
            renewing(e, r, step)
        },
        Creation::Storing { store } => storing(put_secret_value(store, reply)),
    }
}

} // verus!
