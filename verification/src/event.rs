//! What starts one step of a rotation, and what is handed back for it.
use vstd::prelude::*;
use crate::text::same;
use crate::text::owned;

verus! {

/// The four steps of a rotation, in the order in which they are asked for.
#[derive(Copy, Clone, Debug, PartialEq, Eq, Structural)]
pub enum RotatorStep {
    CreateSecret,
    SetSecret,
    TestSecret,
    FinishSecret,
}

/// The step that a name stands for, where it stands for one.
pub open spec fn step_of_name(name: Seq<char>) -> Option<RotatorStep> {
    if name == "createSecret"@ {
        Some(RotatorStep::CreateSecret)
    } else if name == "setSecret"@ {
        Some(RotatorStep::SetSecret)
    } else if name == "testSecret"@ {
        Some(RotatorStep::TestSecret)
    } else if name == "finishSecret"@ {
        Some(RotatorStep::FinishSecret)
    } else {
        None
    }
}

impl RotatorStep {
    /// The step that `name` stands for in a request, where it stands for one.
    pub fn from_name(name: &str) -> (r: Option<RotatorStep>)
        ensures
            r == step_of_name(name@),
    {
        if same(name, "createSecret") {
            Some(RotatorStep::CreateSecret)
        } else if same(name, "setSecret") {
            Some(RotatorStep::SetSecret)
        } else if same(name, "testSecret") {
            Some(RotatorStep::TestSecret)
        } else if same(name, "finishSecret") {
            Some(RotatorStep::FinishSecret)
        } else {
            None
        }
    }

    /// The name that stands for the step in a request.
    pub fn name(&self) -> (r: &'static str)
        ensures
            step_of_name(r@) == Some(*self),
    {
        proof {
            reveal_strlit("createSecret");
            reveal_strlit("setSecret");
            reveal_strlit("testSecret");
            reveal_strlit("finishSecret");
            assert("createSecret"@.len() == 12 && "finishSecret"@.len() == 12);
            assert("setSecret"@.len() == 9 && "testSecret"@.len() == 10);
            assert("createSecret"@[0] != "finishSecret"@[0]);
        }
        match self {
            RotatorStep::CreateSecret => "createSecret",
            RotatorStep::SetSecret => "setSecret",
            RotatorStep::TestSecret => "testSecret",
            RotatorStep::FinishSecret => "finishSecret",
        }
    }
}

/// The request to take one step in the rotation of one secret. The token
/// names the version that the rotation is to bring in.
#[derive(Clone, Debug, PartialEq)]
pub struct RotatorEvent {
    pub secret_id: String,
    pub client_request_token: String,
    pub step: RotatorStep,
}

/// A [`RotatorEvent`] as specifications see it: every string as its characters.
pub struct RotatorEventView {
    pub secret_id: Seq<char>,
    pub client_request_token: Seq<char>,
    pub step: RotatorStep,
}

impl View for RotatorEvent {
    type V = RotatorEventView;

    open spec fn view(&self) -> RotatorEventView {
        RotatorEventView {
            secret_id: self.secret_id@,
            client_request_token: self.client_request_token@,
            step: self.step,
        }
    }
}

impl RotatorEvent {
    /// The request to take `step` in bringing in version
    /// `client_request_token` of `secret_id`.
    pub fn new(secret_id: &str, client_request_token: &str, step: RotatorStep) -> (e: RotatorEvent)
        ensures
            e@ == (RotatorEventView {
                secret_id: secret_id@,
                client_request_token: client_request_token@,
                step,
            }),
    {
        RotatorEvent {
            secret_id: owned(secret_id),
            client_request_token: owned(client_request_token),
            step,
        }
    }
}

/// What is handed back for a step that succeeded.
#[derive(Clone, Debug)]
pub struct RotatorOutput {
    pub message: String,
}

impl RotatorOutput {
    /// The output of a step that succeeded: its message is `ok`.
    pub fn ok() -> (o: RotatorOutput)
        ensures
            o.message@ == "ok"@,
    {
        RotatorOutput { message: owned("ok") }
    }
}

} // verus!
