use vstd::prelude::*;

use crate::model::ApiError;

verus! {

/// Largest battery charge, in hundredths of a percent.
pub const FULL_CENTI_PERCENT: u32 = 10000;

/// A URL without the slashes at its end.
pub open spec fn trim_trailing_slashes(s: Seq<char>) -> Seq<char>
    decreases s.len(),
{
    if s.len() > 0 && s.last() == '/' {
        trim_trailing_slashes(s.drop_last())
    } else {
        s
    }
}

/// Removes every `/` at the end of a text, as `trim_end_matches('/')` does.
pub fn trim_end_slashes(s: &str) -> (r: String)
    ensures
        r@ == trim_trailing_slashes(s@),
{
    let mut k = s.unicode_len();
    assert(s@.subrange(0, k as int) == s@);
    while k > 0 && s.get_char(k - 1) == '/'
        invariant
            k <= s@.len(),
            trim_trailing_slashes(s@) == trim_trailing_slashes(s@.subrange(0, k as int)),
        decreases k,
    {
        assert(s@.subrange(0, k as int).drop_last() == s@.subrange(0, k - 1));
        k = k - 1;
    }
    <String as StringExecFns>::from_str(s.substring_char(0, k))
}

/// Connection credentials, target device and charging policy. Durations are in
/// milliseconds and battery levels in hundredths of a percent.
#[derive(Debug, Clone)]
pub struct AppConfig {
    pub api_url: String,
    pub api_key_id: String,
    pub api_key_secret: String,
    pub inverter_sn: Option<String>,
    pub grid_charging_delay_ms: u64,
    pub min_battery_centi_percent: u32,
    pub max_battery_centi_percent: u32,
}

impl AppConfig {
    /// The policy bounds are ordered and within a full battery.
    pub open spec fn policy_valid(&self) -> bool {
        self.min_battery_centi_percent <= self.max_battery_centi_percent
            && self.max_battery_centi_percent <= FULL_CENTI_PERCENT
    }

    /// The configuration as the controller uses it: the API URL without
    /// trailing slashes, and the policy bounds checked.
    pub fn normalized(self) -> (r: Result<AppConfig, ApiError>)
        ensures
            self.policy_valid() ==> (r matches Ok(c) && c.api_url@ == trim_trailing_slashes(
                self.api_url@,
            ) && c.api_key_id == self.api_key_id && c.api_key_secret == self.api_key_secret
                && c.inverter_sn == self.inverter_sn && c.grid_charging_delay_ms
                == self.grid_charging_delay_ms && c.min_battery_centi_percent
                == self.min_battery_centi_percent && c.max_battery_centi_percent
                == self.max_battery_centi_percent),
            !self.policy_valid() ==> r matches Err(ApiError::Configuration(_)),
    {
        if self.min_battery_centi_percent > self.max_battery_centi_percent
            || self.max_battery_centi_percent > FULL_CENTI_PERCENT {
            return Err(ApiError::Configuration("battery bounds out of order".to_string()));
        }
        let api_url = trim_end_slashes(self.api_url.as_str());
        Ok(AppConfig { api_url, ..self })
    }

    pub fn default_grid_charging_delay() -> (r: u64)
        ensures
            r == 600_000,
    {
        600_000
    }

    pub fn default_min_battery_centi_percent() -> (r: u32)
        ensures
            r == 9000,
    {
        9000
    }

    pub fn default_max_battery_centi_percent() -> (r: u32)
        ensures
            r == 9500,
    {
        9500
    }
}

} // verus!
