use vstd::prelude::*;

use crate::config::AppConfig;
use crate::model::InverterDetailInfo;

verus! {

/// Grid voltage, in millivolts, at or below which the grid counts as absent.
pub const GRID_NOISE_MARGIN_MV: u32 = 2000;

/// The controller's memory between two cycles. Times are milliseconds since the
/// Unix epoch.
#[derive(Debug, Clone, Copy, PartialEq, Eq, Structural)]
pub struct AppState {
    pub grid_active: bool,
    pub allow_grid_charging: bool,
    pub last_grid_switch_on_time: i64,
}

/// The grid counts as present above the noise margin.
pub open spec fn grid_present(detail: InverterDetailInfo) -> bool {
    detail.u_ac1_millivolts > GRID_NOISE_MARGIN_MV
}

/// The debounce anchor moves to `now` on a rising edge of the grid only.
pub open spec fn next_switch_on_time(prev: AppState, detail: InverterDetailInfo, now: i64) -> i64 {
    if grid_present(detail) && !prev.grid_active {
        now
    } else {
        prev.last_grid_switch_on_time
    }
}

/// Charging is allowed with the grid present, after the debounce delay, below the
/// ceiling, and either already allowed or below the floor.
pub open spec fn next_allow_grid_charging(
    prev: AppState,
    detail: InverterDetailInfo,
    config: AppConfig,
    now: i64,
) -> bool {
    &&& grid_present(detail)
    &&& now as int > next_switch_on_time(prev, detail, now) as int
        + config.grid_charging_delay_ms as int
    &&& detail.battery_centi_percent < config.max_battery_centi_percent
    &&& (prev.allow_grid_charging || detail.battery_centi_percent
        < config.min_battery_centi_percent)
}

/// The state after one cycle.
pub open spec fn transition(
    prev: AppState,
    detail: InverterDetailInfo,
    config: AppConfig,
    now: i64,
) -> AppState {
    AppState {
        grid_active: grid_present(detail),
        allow_grid_charging: next_allow_grid_charging(prev, detail, config, now),
        last_grid_switch_on_time: next_switch_on_time(prev, detail, now),
    }
}

/// The anchor of a fresh state: far enough back that the first cycle is not
/// held by the debounce delay.
pub open spec fn initial_switch_on_time(config: AppConfig, now: i64) -> int {
    now as int - config.grid_charging_delay_ms as int - 1000
}

/// On a rising edge of the grid the debounce anchor becomes `now`.
pub proof fn lemma_rising_edge_sets_anchor(
    prev: AppState,
    detail: InverterDetailInfo,
    config: AppConfig,
    now: i64,
)
    requires
        !prev.grid_active,
        grid_present(detail),
    ensures
        transition(prev, detail, config, now).last_grid_switch_on_time == now,
{
}

/// While the grid stays present the debounce anchor does not move.
pub proof fn lemma_steady_grid_keeps_anchor(
    prev: AppState,
    detail: InverterDetailInfo,
    config: AppConfig,
    now: i64,
)
    requires
        prev.grid_active,
        grid_present(detail),
    ensures
        transition(prev, detail, config, now).last_grid_switch_on_time
            == prev.last_grid_switch_on_time,
{
}

/// Inside the band between the floor and the ceiling, with the grid present and
/// the debounce delay passed, the charging decision keeps its previous value.
pub proof fn lemma_hysteresis_band_keeps_decision(
    prev: AppState,
    detail: InverterDetailInfo,
    config: AppConfig,
    now: i64,
)
    requires
        prev.grid_active,
        grid_present(detail),
        now as int > prev.last_grid_switch_on_time as int + config.grid_charging_delay_ms as int,
        config.min_battery_centi_percent <= detail.battery_centi_percent,
        detail.battery_centi_percent < config.max_battery_centi_percent,
    ensures
        transition(prev, detail, config, now).allow_grid_charging == prev.allow_grid_charging,
{
}

/// Within the debounce delay after the grid came back, charging is never
/// allowed, whatever the battery level.
pub proof fn lemma_debounce_blocks_charging(
    prev: AppState,
    detail: InverterDetailInfo,
    config: AppConfig,
    now: i64,
)
    requires
        now as int <= next_switch_on_time(prev, detail, now) as int
            + config.grid_charging_delay_ms as int,
    ensures
        !transition(prev, detail, config, now).allow_grid_charging,
{
}

impl AppState {
    pub fn new(config: &AppConfig, now: i64) -> (r: Self)
        requires
            i64::MIN <= initial_switch_on_time(*config, now),
        ensures
            r.grid_active,
            r.allow_grid_charging,
            r.last_grid_switch_on_time == initial_switch_on_time(*config, now),
    {
        let t: i128 = now as i128 - config.grid_charging_delay_ms as i128 - 1000;
        AppState { grid_active: true, allow_grid_charging: true, last_grid_switch_on_time: t as i64 }
    }

    pub fn update(&self, detail: &InverterDetailInfo, config: &AppConfig, now: i64) -> (r: Self)
        ensures
            r == transition(*self, *detail, *config, now),
    {
        let new_grid_active = detail.u_ac1_millivolts > GRID_NOISE_MARGIN_MV;
        let new_grid_switch_on_time = if new_grid_active && !self.grid_active {
            now
        } else {
            self.last_grid_switch_on_time
        };
        let new_allow_grid_charging = new_grid_active
            && now as i128 > new_grid_switch_on_time as i128 + config.grid_charging_delay_ms as i128
            && detail.battery_centi_percent < config.max_battery_centi_percent
            && (self.allow_grid_charging || detail.battery_centi_percent
            < config.min_battery_centi_percent);
        AppState {
            grid_active: new_grid_active,
            allow_grid_charging: new_allow_grid_charging,
            last_grid_switch_on_time: new_grid_switch_on_time,
        }
    }
}

} // verus!
