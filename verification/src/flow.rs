use vstd::prelude::*;
use crate::accounts::{Initialize, Operation};
use crate::address::Address;
use crate::error::ErrorCode;
use crate::event::InitializedEvent;
use crate::signer::{is_vault_signer, lemma_vault_signer_deterministic};

verus! {

/// How the hosting environment answered the last request.
#[derive(Clone, Copy, Debug, PartialEq, Eq)]
pub enum Outcome {
    /// The request was carried out in full.
    Completed,
    /// The request failed, with the environment's error code where it gave one.
    Rejected { cause: Option<u64> },
}

/// What the host must do next.
#[derive(Clone, Copy, Debug, PartialEq, Eq)]
pub enum Action {
    /// Carry out the request and report its outcome.
    Perform(Operation),
    /// The market is live: publish the event and finish.
    Emit(InitializedEvent),
    /// Abandon the transaction with this error.
    Abort { error: ErrorCode, cause: Option<u64> },
    /// The flow has ended; there is nothing to do.
    Idle,
}

/// Where a bootstrap stands.
#[derive(Clone, Copy, Debug, PartialEq, Eq)]
pub enum Stage {
    /// Waiting for allocation `step` of the allocation plan.
    Allocating { step: usize },
    /// Waiting for request `step` of the vault plan.
    Provisioning { step: usize, vault_signer: Address, nonce: u64 },
    /// Waiting for the matching engine to activate the market.
    Activating { nonce: u64 },
    /// The market was activated and the event handed out.
    Done,
    /// The bootstrap was abandoned.
    Failed { error: ErrorCode },
}

/// A market bootstrap in progress.
#[derive(Clone, Copy, Debug, PartialEq, Eq)]
pub struct Deployment {
    pub accounts: Initialize,
    pub coin_lot_size: u64,
    pub pc_lot_size: u64,
    pub pc_dust_threshold: u64,
    pub stage: Stage,
}

impl Deployment {
    /// The stage points into its plan, and the mints of a bootstrap that was
    /// ever started differ.
    pub open spec fn wf(self) -> bool {
        match self.stage {
            Stage::Allocating { step } => step < 2 && self.accounts.coin_mint
                != self.accounts.price_mint,
            Stage::Provisioning { step, .. } => step < 6 && self.accounts.coin_mint
                != self.accounts.price_mint,
            Stage::Activating { .. } => self.accounts.coin_mint != self.accounts.price_mint,
            Stage::Done => self.accounts.coin_mint != self.accounts.price_mint,
            Stage::Failed { .. } => true,
        }
    }

    /// Tests that the stage points into its plan and that the mints of a flow
    /// that was started differ.
    pub fn is_well_formed(&self) -> (r: bool)
        ensures
            r == self.wf(),
    {
        let distinct = !self.accounts.coin_mint.same(&self.accounts.price_mint);
        match self.stage {
            Stage::Allocating { step } => step < 2 && distinct,
            Stage::Provisioning { step, .. } => step < 6 && distinct,
            Stage::Activating { .. } => distinct,
            Stage::Done => distinct,
            Stage::Failed { .. } => true,
        }
    }

    /// Whether the flow still waits for an outcome.
    pub open spec fn running(self) -> bool {
        !(self.stage is Done) && !(self.stage is Failed)
    }

    /// The activation request for a derived nonce.
    pub open spec fn activation(self, nonce: u64) -> Operation {
        Operation::ActivateMarket {
            accounts: self.accounts.activation_accounts(),
            program: self.accounts.serum_dex,
            coin_lot_size: self.coin_lot_size,
            pc_lot_size: self.pc_lot_size,
            vault_signer_nonce: nonce,
            pc_dust_threshold: self.pc_dust_threshold,
        }
    }

    /// The event of a successful bootstrap.
    pub open spec fn event(self) -> InitializedEvent {
        InitializedEvent {
            coin_mint: self.accounts.coin_mint,
            price_mint: self.accounts.price_mint,
        }
    }

    /// The request whose outcome a running flow waits for.
    pub open spec fn pending(self) -> Option<Operation>
        recommends
            self.wf(),
    {
        match self.stage {
            Stage::Allocating { step } => Some(self.accounts.allocation_plan()[step as int]),
            Stage::Provisioning { step, vault_signer, .. } => Some(
                self.accounts.wallets_plan(vault_signer)[step as int],
            ),
            Stage::Activating { nonce } => Some(self.activation(nonce)),
            Stage::Done => None,
            Stage::Failed { .. } => None,
        }
    }

    /// This flow at another stage.
    pub open spec fn at(self, stage: Stage) -> Deployment {
        Deployment { stage: stage, ..self }
    }

    /// The flow abandoned with `error`.
    pub open spec fn abandoned(self, error: ErrorCode, cause: Option<u64>) -> (Deployment, Action) {
        (self.at(Stage::Failed { error: error }), Action::Abort { error: error, cause: cause })
    }

    /// The flow moved on to `stage`, whose request is handed out.
    pub open spec fn moved(self, stage: Stage) -> (Deployment, Action) {
        (self.at(stage), Action::Perform(self.at(stage).pending().unwrap()))
    }

    /// The transition of the flow: the next state and what the host must do,
    /// for the outcome of the pending request and the result of the
    /// vault-signer search, which is read only once the last allocation is
    /// made.
    pub open spec fn step(self, outcome: Outcome, signer: Result<(Address, u64), ErrorCode>) -> (
        Deployment,
        Action,
    ) {
        match self.stage {
            Stage::Allocating { step } => match outcome {
                Outcome::Rejected { cause } => self.abandoned(ErrorCode::AllocationError, cause),
                Outcome::Completed => if step + 1 < 2 {
                    self.moved(Stage::Allocating { step: (step + 1) as usize })
                } else {
                    match signer {
                        Ok((vault_signer, nonce)) => self.moved(
                            Stage::Provisioning { step: 0, vault_signer: vault_signer, nonce: nonce },
                        ),
                        Err(_) => self.abandoned(ErrorCode::NonceNotFound, None),
                    }
                },
            },
            Stage::Provisioning { step, vault_signer, nonce } => match outcome {
                Outcome::Rejected { cause } => self.abandoned(ErrorCode::VaultError, cause),
                Outcome::Completed => if step + 1 < 6 {
                    self.moved(
                        Stage::Provisioning {
                            step: (step + 1) as usize,
                            vault_signer: vault_signer,
                            nonce: nonce,
                        },
                    )
                } else {
                    self.moved(Stage::Activating { nonce: nonce })
                },
            },
            Stage::Activating { nonce } => match outcome {
                Outcome::Rejected { cause } => self.abandoned(
                    ErrorCode::InitializeMarketError,
                    cause,
                ),
                Outcome::Completed => (self.at(Stage::Done), Action::Emit(self.event())),
            },
            Stage::Done => (self, Action::Idle),
            Stage::Failed { .. } => (self, Action::Idle),
        }
    }

    /// Whether the next outcome makes the flow search for the vault signer.
    pub open spec fn needs_signer(self, outcome: Outcome) -> bool {
        self.stage matches Stage::Allocating { step } && step + 1 >= 2 && outcome is Completed
    }

    /// The start of a bootstrap: abandoned at once where the mints match,
    /// else waiting for the first allocation.
    pub open spec fn begin(
        accounts: Initialize,
        coin_lot_size: u64,
        pc_lot_size: u64,
        pc_dust_threshold: u64,
    ) -> (Deployment, Action) {
        let fresh = Deployment {
            accounts: accounts,
            coin_lot_size: coin_lot_size,
            pc_lot_size: pc_lot_size,
            pc_dust_threshold: pc_dust_threshold,
            stage: Stage::Allocating { step: 0 },
        };
        if accounts.coin_mint == accounts.price_mint {
            fresh.abandoned(ErrorCode::MatchingMints, None)
        } else {
            fresh.moved(Stage::Allocating { step: 0 })
        }
    }

    fn abandon(self, error: ErrorCode, cause: Option<u64>) -> (r: (Deployment, Action))
        ensures
            r == self.abandoned(error, cause),
    {
        (Deployment { stage: Stage::Failed { error: error }, ..self }, Action::Abort { error, cause })
    }

    fn move_to(self, stage: Stage) -> (r: (Deployment, Action))
        requires
            self.at(stage).wf(),
            self.at(stage).running(),
        ensures
            r == self.moved(stage),
    {
        let next = Deployment { stage: stage, ..self };
        let op = match stage {
            Stage::Allocating { step } => {
                let plan = self.accounts.init_account_sizes();
                plan[step]
            },
            Stage::Provisioning { step, vault_signer, .. } => {
                let plan = self.accounts.initialize_wallets(&vault_signer);
                plan[step]
            },
            Stage::Activating { nonce } => Operation::ActivateMarket {
                accounts: self.accounts.market_accounts(),
                program: self.accounts.serum_dex,
                coin_lot_size: self.coin_lot_size,
                pc_lot_size: self.pc_lot_size,
                vault_signer_nonce: nonce,
                pc_dust_threshold: self.pc_dust_threshold,
            },
            _ => vstd::pervasive::unreached(),
        };
        (next, Action::Perform(op))
    }

    /// Takes the outcome of the pending request, and the result of the
    /// vault-signer search, to the next state and the next thing to do.
    pub fn advance_with(self, outcome: Outcome, signer: Result<(Address, u64), ErrorCode>) -> (r: (
        Deployment,
        Action,
    ))
        requires
            self.wf(),
        ensures
            r == self.step(outcome, signer),
            r.0.wf(),
    {
        match self.stage {
            Stage::Allocating { step } => match outcome {
                Outcome::Rejected { cause } => self.abandon(ErrorCode::AllocationError, cause),
                Outcome::Completed => if step + 1 < 2 {
                    self.move_to(Stage::Allocating { step: step + 1 })
                } else {
                    match signer {
                        Ok((vault_signer, nonce)) => self.move_to(
                            Stage::Provisioning { step: 0, vault_signer, nonce },
                        ),
                        Err(_) => self.abandon(ErrorCode::NonceNotFound, None),
                    }
                },
            },
            Stage::Provisioning { step, vault_signer, nonce } => match outcome {
                Outcome::Rejected { cause } => self.abandon(ErrorCode::VaultError, cause),
                Outcome::Completed => if step + 1 < 6 {
                    self.move_to(Stage::Provisioning { step: step + 1, vault_signer, nonce })
                } else {
                    self.move_to(Stage::Activating { nonce })
                },
            },
            Stage::Activating { nonce } => match outcome {
                Outcome::Rejected { cause } => self.abandon(ErrorCode::InitializeMarketError, cause),
                Outcome::Completed => (
                    Deployment { stage: Stage::Done, ..self },
                    Action::Emit(
                        InitializedEvent {
                            coin_mint: self.accounts.coin_mint,
                            price_mint: self.accounts.price_mint,
                        },
                    ),
                ),
            },
            Stage::Done => (self, Action::Idle),
            Stage::Failed { .. } => (self, Action::Idle),
        }
    }

    /// Takes the outcome of the pending request to the next state and the next
    /// thing to do, searching for the vault signer once the last allocation is
    /// made.
    pub fn advance(self, outcome: Outcome) -> (r: (Deployment, Action))
        requires
            self.wf(),
        ensures
            r.0.wf(),
            !self.needs_signer(outcome) ==> r == self.step(
                outcome,
                Err::<(Address, u64), ErrorCode>(ErrorCode::NonceNotFound),
            ),
            self.needs_signer(outcome) ==> exists|signer: Result<(Address, u64), ErrorCode>|
                #![auto]
                is_vault_signer(self.accounts.market_state@, self.accounts.serum_dex@, signer) && r
                    == self.step(outcome, signer),
            forall|signer: Result<(Address, u64), ErrorCode>|
                #![auto]
                is_vault_signer(self.accounts.market_state@, self.accounts.serum_dex@, signer) ==> r
                    == self.step(outcome, signer),
    {
        let needed = match (self.stage, outcome) {
            (Stage::Allocating { step }, Outcome::Completed) => step + 1 >= 2,
            _ => false,
        };
        if needed {
            let found = self.accounts.get_vault_signer();
            proof {
                assert forall|signer: Result<(Address, u64), ErrorCode>|
                    is_vault_signer(
                        self.accounts.market_state@,
                        self.accounts.serum_dex@,
                        signer,
                    ) implies signer == found by {
                    lemma_vault_signer_deterministic(
                        self.accounts.market_state@,
                        self.accounts.serum_dex@,
                        signer,
                        found,
                    );
                }
            }
            self.advance_with(outcome, found)
        } else {
            self.advance_with(outcome, Err(ErrorCode::NonceNotFound))
        }
    }
}

/// The stage of a flow whose first `k` requests were all carried out.
pub open spec fn stage_after(k: int, vault_signer: Address, nonce: u64) -> Stage {
    if k < 2 {
        Stage::Allocating { step: k as usize }
    } else if k < 8 {
        Stage::Provisioning { step: (k - 2) as usize, vault_signer: vault_signer, nonce: nonce }
    } else if k == 8 {
        Stage::Activating { nonce: nonce }
    } else {
        Stage::Done
    }
}

impl Deployment {
    /// Every request of a bootstrap that succeeds, in the order in which they
    /// are made: the two allocations, the price vault, the coin vault, the
    /// activation.
    pub open spec fn full_plan(self, vault_signer: Address, nonce: u64) -> Seq<Operation> {
        self.accounts.allocation_plan() + self.accounts.wallets_plan(vault_signer)
            + seq![self.activation(nonce)]
    }

    /// How many requests a flow has still to make before it is done.
    pub open spec fn remaining(self) -> nat {
        match self.stage {
            Stage::Allocating { step } => (9 - step) as nat,
            Stage::Provisioning { step, .. } => (7 - step) as nat,
            Stage::Activating { .. } => 1,
            _ => 0,
        }
    }

    /// The error that a rejected request is reported as.
    pub open spec fn rejection(self) -> ErrorCode {
        match self.stage {
            Stage::Allocating { .. } => ErrorCode::AllocationError,
            Stage::Provisioning { .. } => ErrorCode::VaultError,
            _ => ErrorCode::InitializeMarketError,
        }
    }
}

/// A step of a running flow ends in exactly one of three ways: the flow goes
/// on and hands out the request it now waits for; or it is done and hands out
/// the event; or it has failed with one error, which it hands out. A flow
/// that has ended stays as it is and hands out nothing.
pub proof fn lemma_step_outcomes(
    d: Deployment,
    outcome: Outcome,
    signer: Result<(Address, u64), ErrorCode>,
)
    requires
        d.wf(),
    ensures
        ({
            let (next, action) = d.step(outcome, signer);
            &&& next.wf()
            &&& next.accounts == d.accounts
            &&& d.running() ==> (match action {
                Action::Perform(op) => next.running() && next.pending() == Some(op),
                Action::Emit(event) => next.stage is Done && event == d.event(),
                Action::Abort { error, .. } => next.stage == (Stage::Failed { error: error }) && (
                error == ErrorCode::AllocationError || error == ErrorCode::NonceNotFound || error
                    == ErrorCode::VaultError || error == ErrorCode::InitializeMarketError),
                Action::Idle => false,
            })
            &&& !d.running() ==> next == d && action == Action::Idle
        }),
{
}

/// A rejected request always ends the flow, with the error of the stage at
/// which it was rejected and the cause that the host gave.
pub proof fn lemma_rejection_aborts(
    d: Deployment,
    cause: Option<u64>,
    signer: Result<(Address, u64), ErrorCode>,
)
    requires
        d.wf(),
        d.running(),
    ensures
        d.step(Outcome::Rejected { cause: cause }, signer) == d.abandoned(d.rejection(), cause),
{
}

/// The event is handed out only when the activation request was carried out:
/// never at another stage, and never after a rejection.
pub proof fn lemma_event_follows_activation(
    d: Deployment,
    outcome: Outcome,
    signer: Result<(Address, u64), ErrorCode>,
)
    ensures
        d.step(outcome, signer).1 is Emit <==> d.stage is Activating && outcome is Completed,
        d.step(outcome, signer).1 is Emit ==> d.step(outcome, signer).1 == Action::Emit(d.event()),
{
}

/// A bootstrap is abandoned with `MatchingMints` exactly when the coin mint
/// is the price mint, and then no request is handed out; with distinct mints
/// it starts by handing out the first request of the plan.
pub proof fn lemma_matching_mints(
    accounts: Initialize,
    coin_lot_size: u64,
    pc_lot_size: u64,
    pc_dust_threshold: u64,
)
    ensures
        ({
            let (start, action) = Deployment::begin(
                accounts,
                coin_lot_size,
                pc_lot_size,
                pc_dust_threshold,
            );
            &&& accounts.coin_mint == accounts.price_mint <==> action == (Action::Abort {
                error: ErrorCode::MatchingMints,
                cause: None,
            })
            &&& accounts.coin_mint == accounts.price_mint <==> start.stage == (Stage::Failed {
                error: ErrorCode::MatchingMints,
            })
            &&& accounts.coin_mint != accounts.price_mint <==> action == Action::Perform(
                accounts.allocation_plan()[0],
            )
            &&& accounts.coin_mint != accounts.price_mint <==> start.stage == (Stage::Allocating {
                step: 0,
            })
        }),
{
}

/// While every request is carried out, the flow hands out the requests of the
/// full plan one by one in their order, and after the last one the event: the
/// flow that has completed `k` requests waits for request `k`, and on its
/// completion hands out request `k + 1`, or the event when none is left.
pub proof fn lemma_plan_in_order(d: Deployment, vault_signer: Address, nonce: u64, k: int)
    requires
        0 <= k < 9,
        d.accounts.coin_mint != d.accounts.price_mint,
    ensures
        d.full_plan(vault_signer, nonce).len() == 9,
        d.at(stage_after(k, vault_signer, nonce)).wf(),
        d.at(stage_after(k, vault_signer, nonce)).pending() == Some(
            d.full_plan(vault_signer, nonce)[k],
        ),
        d.at(stage_after(k, vault_signer, nonce)).step(
            Outcome::Completed,
            Ok((vault_signer, nonce)),
        ) == (
            d.at(stage_after(k + 1, vault_signer, nonce)),
            if k + 1 < 9 {
                Action::Perform(d.full_plan(vault_signer, nonce)[k + 1])
            } else {
                Action::Emit(d.event())
            },
        ),
{
    let plan = d.full_plan(vault_signer, nonce);
    assert(d.accounts.allocation_plan().len() == 2);
    assert(d.accounts.wallets_plan(vault_signer).len() == 6);
}

/// The actions that a flow hands out, one for each outcome reported to it in
/// turn.
pub open spec fn trace(
    d: Deployment,
    outcomes: Seq<Outcome>,
    signer: Result<(Address, u64), ErrorCode>,
) -> Seq<Action>
    decreases outcomes.len(),
{
    if outcomes.len() == 0 {
        Seq::empty()
    } else {
        seq![d.step(outcomes[0], signer).1] + trace(
            d.step(outcomes[0], signer).0,
            outcomes.drop_first(),
            signer,
        )
    }
}

/// The state of a flow after the outcomes reported to it in turn.
pub open spec fn state_after(
    d: Deployment,
    outcomes: Seq<Outcome>,
    signer: Result<(Address, u64), ErrorCode>,
) -> Deployment
    decreases outcomes.len(),
{
    if outcomes.len() == 0 {
        d
    } else {
        state_after(d.step(outcomes[0], signer).0, outcomes.drop_first(), signer)
    }
}

/// A flow that has completed `k` requests and is told that each of the
/// remaining `9 - k` was carried out hands out the rest of the full plan in
/// order, then the event, and is done.
pub proof fn lemma_successful_run(
    d: Deployment,
    vault_signer: Address,
    nonce: u64,
    k: int,
    outcomes: Seq<Outcome>,
)
    requires
        0 <= k < 9,
        d.accounts.coin_mint != d.accounts.price_mint,
        outcomes.len() == 9 - k,
        forall|i: int| 0 <= i < outcomes.len() ==> outcomes[i] is Completed,
    ensures
        ({
            let start = d.at(stage_after(k, vault_signer, nonce));
            let actions = trace(start, outcomes, Ok((vault_signer, nonce)));
            &&& actions.len() == 9 - k
            &&& forall|i: int|
                0 <= i < 8 - k ==> actions[i] == Action::Perform(
                    d.full_plan(vault_signer, nonce)[k + 1 + i],
                )
            &&& actions[8 - k] == Action::Emit(d.event())
            &&& state_after(start, outcomes, Ok((vault_signer, nonce))) == d.at(Stage::Done)
        }),
    decreases 9 - k,
{
    let signer = Ok::<(Address, u64), ErrorCode>((vault_signer, nonce));
    let start = d.at(stage_after(k, vault_signer, nonce));
    let rest = outcomes.drop_first();
    lemma_plan_in_order(d, vault_signer, nonce, k);
    assert(outcomes[0] == Outcome::Completed);
    let next = start.step(outcomes[0], signer).0;
    assert(next == d.at(stage_after(k + 1, vault_signer, nonce)));
    if k + 1 < 9 {
        assert forall|i: int| 0 <= i < rest.len() implies rest[i] is Completed by {
            assert(rest[i] == outcomes[i + 1]);
        }
        lemma_successful_run(d, vault_signer, nonce, k + 1, rest);
        let tail = trace(next, rest, signer);
        let actions = trace(start, outcomes, signer);
        assert(actions == seq![start.step(outcomes[0], signer).1] + tail);
        assert forall|i: int| 0 <= i < 8 - k implies actions[i] == Action::Perform(
            d.full_plan(vault_signer, nonce)[k + 1 + i],
        ) by {
            if i > 0 {
                assert(actions[i] == tail[i - 1]);
            }
        }
        assert(actions[8 - k] == tail[7 - k]);
    } else {
        assert(rest.len() == 0);
        assert(trace(next, rest, signer) =~= Seq::<Action>::empty());
        assert(trace(start, outcomes, signer) =~= seq![Action::Emit(d.event())]);
        assert(state_after(next, rest, signer) == next);
    }
}

/// A flow hands out the event at most once, and hands out nothing but `Idle`
/// once it has ended: after an `Emit` or an `Abort`, every later action is
/// `Idle`.
pub proof fn lemma_nothing_after_the_end(
    d: Deployment,
    outcomes: Seq<Outcome>,
    signer: Result<(Address, u64), ErrorCode>,
    i: int,
    j: int,
)
    requires
        d.wf(),
        0 <= i < j < outcomes.len(),
        trace(d, outcomes, signer)[i] is Emit || trace(d, outcomes, signer)[i] is Abort,
    ensures
        trace(d, outcomes, signer).len() == outcomes.len(),
        trace(d, outcomes, signer)[j] == Action::Idle,
    decreases outcomes.len(),
{
    let (next, action) = d.step(outcomes[0], signer);
    let rest = outcomes.drop_first();
    lemma_trace_len(next, rest, signer);
    lemma_step_outcomes(d, outcomes[0], signer);
    let actions = trace(d, outcomes, signer);
    assert(actions == seq![action] + trace(next, rest, signer));
    assert(actions[j] == trace(next, rest, signer)[j - 1]);
    if i == 0 {
        assert(actions[0] == action);
        assert(!next.running());
        lemma_ended_is_idle(next, rest, signer, j - 1);
    } else {
        assert(actions[i] == trace(next, rest, signer)[i - 1]);
        lemma_nothing_after_the_end(next, rest, signer, i - 1, j - 1);
    }
}

/// A trace has one action for each outcome.
pub proof fn lemma_trace_len(
    d: Deployment,
    outcomes: Seq<Outcome>,
    signer: Result<(Address, u64), ErrorCode>,
)
    ensures
        trace(d, outcomes, signer).len() == outcomes.len(),
    decreases outcomes.len(),
{
    if outcomes.len() > 0 {
        lemma_trace_len(d.step(outcomes[0], signer).0, outcomes.drop_first(), signer);
    }
}

/// A flow that has ended answers every outcome with `Idle`.
pub proof fn lemma_ended_is_idle(
    d: Deployment,
    outcomes: Seq<Outcome>,
    signer: Result<(Address, u64), ErrorCode>,
    j: int,
)
    requires
        !d.running(),
        0 <= j < outcomes.len(),
    ensures
        trace(d, outcomes, signer)[j] == Action::Idle,
    decreases outcomes.len(),
{
    let rest = outcomes.drop_first();
    lemma_trace_len(d, rest, signer);
    assert(d.step(outcomes[0], signer) == (d, Action::Idle));
    assert(trace(d, outcomes, signer) == seq![Action::Idle] + trace(d, rest, signer));
    if j > 0 {
        assert(trace(d, outcomes, signer)[j] == trace(d, rest, signer)[j - 1]);
        lemma_ended_is_idle(d, rest, signer, j - 1);
    }
}

/// A flow that has ended stays as it is whatever is reported to it.
pub proof fn lemma_ended_stays(
    d: Deployment,
    outcomes: Seq<Outcome>,
    signer: Result<(Address, u64), ErrorCode>,
)
    requires
        !d.running(),
    ensures
        state_after(d, outcomes, signer) == d,
    decreases outcomes.len(),
{
    if outcomes.len() > 0 {
        assert(d.step(outcomes[0], signer).0 == d);
        lemma_ended_stays(d, outcomes.drop_first(), signer);
    }
}

/// Every bootstrap ends, and ends in one way. A running flow that is told
/// the outcome of each request it hands out, for at least as many requests as
/// it has left, hands out requests up to some point `end`, then exactly one
/// closing action, and is then over: either the event, and the market is
/// active, or one error, and the flow has failed with it.
pub proof fn lemma_flow_ends(
    d: Deployment,
    outcomes: Seq<Outcome>,
    signer: Result<(Address, u64), ErrorCode>,
) -> (end: int)
    requires
        d.wf(),
        d.running(),
        outcomes.len() >= d.remaining(),
    ensures
        0 <= end < outcomes.len(),
        trace(d, outcomes, signer).len() == outcomes.len(),
        forall|j: int| 0 <= j < end ==> trace(d, outcomes, signer)[j] is Perform,
        forall|j: int| end < j < outcomes.len() ==> trace(d, outcomes, signer)[j] == Action::Idle,
        match trace(d, outcomes, signer)[end] {
            Action::Emit(event) => event == d.event() && state_after(d, outcomes, signer).stage
                is Done,
            Action::Abort { error, .. } => state_after(d, outcomes, signer).stage == (Stage::Failed {
                error: error,
            }),
            _ => false,
        },
    decreases outcomes.len(),
{
    let (next, action) = d.step(outcomes[0], signer);
    let rest = outcomes.drop_first();
    let actions = trace(d, outcomes, signer);
    lemma_step_outcomes(d, outcomes[0], signer);
    lemma_trace_len(d, outcomes, signer);
    lemma_trace_len(next, rest, signer);
    assert(actions == seq![action] + trace(next, rest, signer));
    assert(actions[0] == action);
    assert forall|j: int| 0 < j < outcomes.len() implies actions[j] == trace(next, rest, signer)[j
        - 1] by {}
    if next.running() {
        let inner = lemma_flow_ends(next, rest, signer);
        assert(actions[inner + 1] == trace(next, rest, signer)[inner]);
        assert forall|j: int| 0 <= j < inner + 1 implies actions[j] is Perform by {
            if j > 0 {
                assert(actions[j] == trace(next, rest, signer)[j - 1]);
            }
        }
        assert forall|j: int| inner + 1 < j < outcomes.len() implies actions[j]
            == Action::Idle by {
            assert(actions[j] == trace(next, rest, signer)[j - 1]);
        }
        inner + 1
    } else {
        lemma_ended_stays(next, rest, signer);
        assert forall|j: int| 0 < j < outcomes.len() implies actions[j] == Action::Idle by {
            lemma_ended_is_idle(next, rest, signer, j - 1);
        }
        0
    }
}

/// The full plan provisions the price vault before the coin vault, each by
/// allocation, initialization and reassignment in that order; each vault is
/// allocated under the token program, starts under the deployer's authority
/// and ends under the vault signer's.
pub proof fn lemma_vault_order(d: Deployment, vault_signer: Address, nonce: u64)
    ensures
        d.full_plan(vault_signer, nonce).subrange(2, 5) == d.accounts.wallet_plan(
            d.accounts.price_wallet,
            d.accounts.price_mint,
            vault_signer,
        ),
        d.full_plan(vault_signer, nonce).subrange(5, 8) == d.accounts.wallet_plan(
            d.accounts.coin_wallet,
            d.accounts.coin_mint,
            vault_signer,
        ),
        forall|wallet: Address, mint: Address|
            #![trigger d.accounts.wallet_plan(wallet, mint, vault_signer)]
            {
                let plan = d.accounts.wallet_plan(wallet, mint, vault_signer);
                &&& plan.len() == 3
                &&& plan[0] == (Operation::CreateAccount {
                    payer: d.accounts.owner,
                    target: wallet,
                    space: 165,
                    owner: crate::address::token_program(),
                })
                &&& plan[1] == (Operation::InitializeTokenAccount {
                    account: wallet,
                    mint: mint,
                    authority: d.accounts.owner,
                })
                &&& plan[2] == (Operation::SetAccountOwner {
                    account: wallet,
                    current_authority: d.accounts.owner,
                    new_authority: vault_signer,
                })
            },
{
    let plan = d.full_plan(vault_signer, nonce);
    let price = d.accounts.wallet_plan(d.accounts.price_wallet, d.accounts.price_mint, vault_signer);
    let coin = d.accounts.wallet_plan(d.accounts.coin_wallet, d.accounts.coin_mint, vault_signer);
    assert(plan.subrange(2, 5) =~= price);
    assert(plan.subrange(5, 8) =~= coin);
}

/// Starts the bootstrap of a market: checks the mints and hands out the
/// first request.
pub fn initialize(
    accounts: Initialize,
    coin_lot_size: u64,
    pc_lot_size: u64,
    pc_dust_threshold: u64,
) -> (r: (Deployment, Action))
    ensures
        r == Deployment::begin(accounts, coin_lot_size, pc_lot_size, pc_dust_threshold),
        r.0.wf(),
{
    let fresh = Deployment {
        accounts,
        coin_lot_size,
        pc_lot_size,
        pc_dust_threshold,
        stage: Stage::Allocating { step: 0 },
    };
    match accounts.check_mints() {
        Err(_) => fresh.abandon(ErrorCode::MatchingMints, None),
        Ok(_) => fresh.move_to(Stage::Allocating { step: 0 }),
    }
}

} // verus!
