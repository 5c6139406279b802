//! The execution simulator: drives one decoder → validator → invocation run of
//! a chosen variant against a synthetic snapshot, meters a deterministic
//! resource cost, and packages the outcome. Same inputs always yield the same
//! status, snapshot, and resource-unit count.

use vstd::prelude::*;
use crate::ExecError;
use crate::account::{Account, AccountModel, wf_accounts};
use crate::{declarative, lowlevel, minimal};

verus! {

/// The three implementations of the create operation.
#[derive(Clone, Copy, Debug, PartialEq, Eq, Structural)]
pub enum Variant {
    /// The declarative, constraint-driven layer.
    Declarative,
    /// The raw low-level layer.
    LowLevel,
    /// The ultra-minimal zero-allocation layer.
    Minimal,
}

/// The packaged outcome of one simulated execution.
#[derive(Debug)]
pub struct ExecutionResult {
    /// Success, or the failure the run ended in.
    pub status: Result<(), ExecError>,
    /// The snapshot after the run; identical to the pre-state on failure.
    pub post_accounts: Vec<Account>,
    /// The deterministic resource-unit cost of the run.
    pub units: u64,
}

/// The states one instruction execution passes through.
#[derive(Clone, Copy, Debug, PartialEq, Eq, Structural)]
pub enum Phase {
    /// The instruction has been received.
    Pending,
    /// The decoder and validator are examining it.
    Validating,
    /// The decoder or validator refused it; terminal.
    Rejected(ExecError),
    /// The delegated call is in flight.
    Invoking,
    /// The delegated call succeeded; terminal.
    Completed,
    /// The delegated call failed; terminal.
    Failed(ExecError),
}

/// The legal transitions between execution phases.
pub open spec fn phase_step(p: Phase, q: Phase) -> bool {
    match (p, q) {
        (Phase::Pending, Phase::Validating) => true,
        (Phase::Validating, Phase::Rejected(e)) => true,
        (Phase::Validating, Phase::Invoking) => true,
        (Phase::Invoking, Phase::Completed) => true,
        (Phase::Invoking, Phase::Failed(e)) => true,
        _ => false,
    }
}

/// Whether a phase is terminal.
pub open spec fn is_terminal(p: Phase) -> bool {
    match p {
        Phase::Rejected(e) => true,
        Phase::Completed => true,
        Phase::Failed(e) => true,
        _ => false,
    }
}

/// The phases a run with the given status passes through, in order.
pub open spec fn spec_phase_path(status: Result<(), ExecError>) -> Seq<Phase> {
    match status {
        Ok(u) => seq![Phase::Pending, Phase::Validating, Phase::Invoking, Phase::Completed],
        Err(e) => match e {
            ExecError::DelegatedCallFailure(inner) => seq![
                Phase::Pending,
                Phase::Validating,
                Phase::Invoking,
                Phase::Failed(e),
            ],
            _ => seq![Phase::Pending, Phase::Validating, Phase::Rejected(e)],
        },
    }
}

/// Law: every execution's phase path starts at Pending, moves only along the
/// legal transitions, ends in a terminal phase, and revisits no state.
pub proof fn lemma_phase_path_valid(status: Result<(), ExecError>)
    ensures
        spec_phase_path(status).first() == Phase::Pending,
        is_terminal(spec_phase_path(status).last()),
        forall|i: int|
            0 <= i < spec_phase_path(status).len() - 1 ==> phase_step(
                #[trigger] spec_phase_path(status)[i],
                spec_phase_path(status)[i + 1],
            ),
        forall|i: int, j: int|
            0 <= i < j < spec_phase_path(status).len() ==> spec_phase_path(status)[i]
                != spec_phase_path(status)[j],
{
}

/// The decoder cost of a variant, in resource units.
pub open spec fn decode_units(v: Variant) -> u64 {
    match v {
        Variant::Declarative => 160,
        Variant::LowLevel => 25,
        Variant::Minimal => 15,
    }
}

/// The validator cost of a variant, in resource units.
pub open spec fn validate_units(v: Variant) -> u64 {
    match v {
        Variant::Declarative => 340,
        Variant::LowLevel => 60,
        Variant::Minimal => 30,
    }
}

/// The delegated-call cost of a variant, in resource units.
pub open spec fn invoke_units(v: Variant) -> u64 {
    match v {
        Variant::Declarative => 2500,
        Variant::LowLevel => 415,
        Variant::Minimal => 255,
    }
}

/// The deterministic resource cost of a run: each stage the run reached is
/// charged once.
pub open spec fn spec_units_consumed(v: Variant, status: Result<(), ExecError>) -> u64 {
    match status {
        Ok(u) => (decode_units(v) + validate_units(v) + invoke_units(v)) as u64,
        Err(e) => match e {
            ExecError::InvalidPayload => decode_units(v),
            ExecError::UnknownOperation => decode_units(v),
            ExecError::DelegatedCallFailure(inner) => (decode_units(v) + validate_units(v)
                + invoke_units(v)) as u64,
            _ => (decode_units(v) + validate_units(v)) as u64,
        },
    }
}

/// Law: every run that was executed consumed a positive resource count.
pub proof fn lemma_units_positive(v: Variant, status: Result<(), ExecError>)
    ensures
        spec_units_consumed(v, status) > 0,
{
}

/// Meters the deterministic resource cost of a finished run.
pub fn units_consumed(v: Variant, status: &Result<(), ExecError>) -> (r: u64)
    ensures
        r == spec_units_consumed(v, *status),
{
    let base = match v {
        Variant::Declarative => 160u64,
        Variant::LowLevel => 25u64,
        Variant::Minimal => 15u64,
    };
    let validated = match v {
        Variant::Declarative => 340u64,
        Variant::LowLevel => 60u64,
        Variant::Minimal => 30u64,
    };
    let invoked = match v {
        Variant::Declarative => 2500u64,
        Variant::LowLevel => 415u64,
        Variant::Minimal => 255u64,
    };
    match status {
        Ok(u) => base + validated + invoked,
        Err(e) => match e {
            ExecError::InvalidPayload => base,
            ExecError::UnknownOperation => base,
            ExecError::DelegatedCallFailure(inner) => base + validated + invoked,
            _ => base + validated,
        },
    }
}

/// What a simulated run of the chosen variant yields.
pub open spec fn spec_simulation(v: Variant, pre: Seq<AccountModel>, data: Seq<u8>) -> (Result<
    (),
    ExecError,
>, Seq<AccountModel>) {
    match v {
        Variant::Declarative => declarative::spec_process_outcome(pre, data),
        Variant::LowLevel => lowlevel::spec_process_outcome(pre, data),
        Variant::Minimal => minimal::spec_process_outcome(pre, data),
    }
}

/// Runs one variant against a synthetic snapshot: decoder, validator, builder,
/// and the simulated delegated call, then packages status, post-state, and the
/// metered resource cost.
pub fn simulate_instruction(
    v: Variant,
    program_id: &Vec<u8>,
    instruction_data: &[u8],
    accounts: Vec<Account>,
) -> (r: ExecutionResult)
    requires
        wf_accounts(accounts.deep_view()),
    ensures
        r.status == spec_simulation(v, accounts.deep_view(), instruction_data@).0,
        r.post_accounts.deep_view() == spec_simulation(v, accounts.deep_view(), instruction_data@).1,
        r.status is Err ==> r.post_accounts@ == accounts@,
        r.units == spec_units_consumed(v, r.status),
        r.units > 0,
{
    let mut accs = accounts;
    let status = match v {
        Variant::Declarative => declarative::process_instruction(program_id, &mut accs, instruction_data),
        Variant::LowLevel => lowlevel::process_instruction(program_id, &mut accs, instruction_data),
        Variant::Minimal => minimal::process_instruction(program_id, &mut accs, instruction_data),
    };
    let units = units_consumed(v, &status);
    proof {
        lemma_units_positive(v, status);
    }
    ExecutionResult { status, post_accounts: accs, units }
}

} // verus!
