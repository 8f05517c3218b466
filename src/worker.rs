use vstd::prelude::*;

use crate::config::AppConfig;
use crate::model::{ApiError, InverterDetailInfo, InverterState};
use crate::state::{transition, AppState};

verus! {

/// Time between two control cycles, in milliseconds.
pub const EXECUTION_INTERVAL_MS: i64 = 30_000;

/// Whether a new cycle is due, more than one interval after the last one.
pub fn tick_due(now_millis: i64, last_exec_millis: i64) -> (r: bool)
    ensures
        r == (now_millis as int - last_exec_millis as int > EXECUTION_INTERVAL_MS as int),
{
    now_millis as i128 - last_exec_millis as i128 > EXECUTION_INTERVAL_MS as i128
}

/// The text that the charging permission is written as.
pub open spec fn charging_value_of(allow: bool) -> Seq<char> {
    if allow {
        "1"@
    } else {
        "0"@
    }
}

pub fn charging_value(allow: bool) -> (r: &'static str)
    ensures
        r@ == charging_value_of(allow),
{
    if allow {
        "1"
    } else {
        "0"
    }
}

/// The decision of one control cycle: the state to adopt, and the charging
/// permission to write where the decision changed.
#[derive(Debug, Clone, Copy, PartialEq, Eq)]
pub struct StepDecision {
    pub state: AppState,
    pub update_value: Option<&'static str>,
}

/// The state to keep after the write that a decision asked for: the decided
/// state where the write went through (or none was needed); where it failed,
/// the decided grid and debounce bookkeeping with the previous permission, so
/// that the next cycle sees the change again and retries the write.
pub open spec fn spec_state_after_write(prev: AppState, decided: AppState, write_ok: bool) -> AppState {
    if write_ok {
        decided
    } else {
        AppState { allow_grid_charging: prev.allow_grid_charging, ..decided }
    }
}

pub fn state_after_write(prev: &AppState, decided: &AppState, write_ok: bool) -> (r: AppState)
    ensures
        r == spec_state_after_write(*prev, *decided, write_ok),
{
    if write_ok {
        *decided
    } else {
        AppState { allow_grid_charging: prev.allow_grid_charging, ..*decided }
    }
}

/// Decides one control cycle on a fresh telemetry snapshot. An offline device
/// fails the cycle; otherwise the state moves by `transition`, and a write of
/// the new permission is asked for exactly where the permission changed.
pub fn worker_step(
    state: &AppState,
    detail: &InverterDetailInfo,
    config: &AppConfig,
    now_millis: i64,
) -> (r: Result<StepDecision, ApiError>)
    ensures
        detail.state == InverterState::Offline ==> r == Err::<StepDecision, ApiError>(
            ApiError::DeviceUnreachable,
        ),
        detail.state != InverterState::Offline ==> (r matches Ok(d) && d.state == transition(
            *state,
            *detail,
            *config,
            now_millis,
        ) && (d.update_value is Some <==> d.state.allow_grid_charging
            != state.allow_grid_charging) && (d.update_value matches Some(v) ==> v@
            == charging_value_of(d.state.allow_grid_charging))),
{
    if detail.state == InverterState::Offline {
        return Err(ApiError::DeviceUnreachable);
    }
    let new_state = state.update(detail, config, now_millis);
    let update_value = if new_state.allow_grid_charging != state.allow_grid_charging {
        Some(charging_value(new_state.allow_grid_charging))
    } else {
        None
    };
    Ok(StepDecision { state: new_state, update_value })
}

} // verus!
