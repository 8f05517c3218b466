use solis_charge::api::{
    check_envelope_code, check_parameter_value, decode_envelope, inverter_detail_body,
    parameter_read_body, parameter_write_body, parse_bool_text, text_eq, ParameterValue, SolisApi,
};
use solis_charge::config::{trim_end_slashes, AppConfig};
use solis_charge::model::{ApiError, InverterCommand, InverterDetailInfo, InverterState};
use solis_charge::signing::{canonical_string, content_md5, sign_request, signed_headers};
use solis_charge::state::AppState;
use solis_charge::worker::{state_after_write, tick_due, worker_step};

fn api() -> SolisApi {
    SolisApi::new("https://api.example".to_string(), "kid".to_string(), "key".to_string())
}

#[test]
fn content_md5_of_empty_body() {
    assert_eq!(content_md5(""), "1B2M2Y8AsgTpgAmY7PhCfg==");
}

#[test]
fn canonical_string_layout() {
    assert_eq!(
        canonical_string("abc==", "Wed, 01 Jan 2025 00:00:00 GMT", "/v1/x"),
        "POST\nabc==\napplication/json\nWed, 01 Jan 2025 00:00:00 GMT\n/v1/x"
    );
}

#[test]
fn signature_uses_hmac_sha1() {
    let h = signed_headers("kid", "key", "/p", "", "D".to_string());
    assert_eq!(h.content_md5, "1B2M2Y8AsgTpgAmY7PhCfg==");
    assert_eq!(h.content_type, "application/json");
    assert_eq!(h.date, "D");
    assert_eq!(h.authorization, "API kid:avuZNCL4qH+k1OSJvdDfyrMEaRw=");
}

#[test]
fn content_md5_of_json_body() {
    assert_eq!(content_md5("{}"), "mZFLkyvTelC5g8XnyQrpOw==");
}

#[test]
fn sign_request_renders_http_date() {
    let h = sign_request("kid", "key", "/p", "{}", 1_735_689_600_000).unwrap();
    assert_eq!(h.date, "Wed, 01 Jan 2025 00:00:00 GMT");
    assert!(sign_request("kid", "key", "/p", "{}", i64::MAX).is_none());
}

#[test]
fn request_bodies() {
    assert_eq!(inverter_detail_body("12\"3"), "{\"sn\":\"12\\\"3\"}");
    assert_eq!(
        parameter_read_body("SN1", InverterCommand::AllowGridCharging),
        "{\"inverterSn\":\"SN1\",\"cid\":109}"
    );
    assert_eq!(
        parameter_write_body("SN1", InverterCommand::Time, "1", "0"),
        "{\"inverterSn\":\"SN1\",\"cid\":56,\"value\":\"1\",\"yuanzhi\":\"0\"}"
    );
}

#[test]
fn request_url_and_body() {
    let req = api().get_inverters_request(1_735_689_600_000).unwrap();
    assert_eq!(req.url, "https://api.example/v1/api/inverterList");
    assert_eq!(req.body, "{\"pageNo\":1,\"pageSize\":10}");
    let req = api().get_inverter_detail_request("SN1", 1_735_689_600_000).unwrap();
    assert_eq!(req.url, "https://api.example/v1/api/inverterDetail");
    assert_eq!(req.headers.date, "Wed, 01 Jan 2025 00:00:00 GMT");
    assert!(matches!(
        api().get_inverters_request(i64::MAX),
        Err(ApiError::Transport(_))
    ));
}

#[test]
fn envelope_codes() {
    assert_eq!(check_envelope_code("0", None), Ok(()));
    assert_eq!(
        check_envelope_code("1", Some("bad sign".to_string())),
        Err(ApiError::RemoteApi("bad sign".to_string()))
    );
    assert_eq!(
        check_envelope_code("E1", None),
        Err(ApiError::RemoteApi("unknown error".to_string()))
    );
    assert_eq!(decode_envelope("0", None, Some(7u32)), Ok(7));
    assert!(matches!(decode_envelope::<u32>("0", None, None), Err(ApiError::Transport(_))));
}

#[test]
fn bool_text() {
    assert_eq!(parse_bool_text("true"), Some(true));
    assert_eq!(parse_bool_text("false"), Some(false));
    assert_eq!(parse_bool_text("True"), None);
    assert!(text_eq("abc", "abc"));
    assert!(!text_eq("abc", "abd"));
}

#[test]
fn parameter_read_checks() {
    let pv = check_parameter_value("0".to_string(), "tok".to_string(), "false").unwrap();
    assert_eq!(pv.msg, "0");
    assert_eq!(pv.yuanzhi, "tok");
    assert!(matches!(
        check_parameter_value("0".to_string(), "tok".to_string(), "true"),
        Err(ApiError::UnsupportedResponseShape)
    ));
    assert!(matches!(
        check_parameter_value("0".to_string(), "tok".to_string(), "yes"),
        Err(ApiError::Transport(_))
    ));
}

#[test]
fn update_writes_only_on_mismatch() {
    let same = ParameterValue { msg: "1".to_string(), yuanzhi: "tok".to_string() };
    let r = api()
        .update_parameter_value_request("SN1", InverterCommand::AllowGridCharging, "1", &same, 0)
        .unwrap();
    assert!(r.is_none());
    let differs = ParameterValue { msg: "0".to_string(), yuanzhi: "tok".to_string() };
    let req = api()
        .update_parameter_value_request("SN1", InverterCommand::AllowGridCharging, "1", &differs, 0)
        .unwrap()
        .unwrap();
    assert_eq!(req.url, "https://api.example/v2/api/control");
    assert_eq!(
        req.body,
        "{\"inverterSn\":\"SN1\",\"cid\":109,\"value\":\"1\",\"yuanzhi\":\"tok\"}"
    );
}

fn config() -> AppConfig {
    AppConfig {
        api_url: "http://h//".to_string(),
        api_key_id: "k".to_string(),
        api_key_secret: "s".to_string(),
        inverter_sn: Some("SN1".to_string()),
        grid_charging_delay_ms: 300_000,
        min_battery_centi_percent: 9000,
        max_battery_centi_percent: 9500,
    }
}

#[test]
fn worker_step_offline_and_changes() {
    let state = AppState { grid_active: true, allow_grid_charging: false, last_grid_switch_on_time: 0 };
    let offline = InverterDetailInfo {
        state: InverterState::Offline,
        battery_centi_percent: 5000,
        u_ac1_millivolts: 230_000,
    };
    assert_eq!(worker_step(&state, &offline, &config(), 1_000_000), Err(ApiError::DeviceUnreachable));
    let online = InverterDetailInfo { state: InverterState::Online, ..offline };
    let d = worker_step(&state, &online, &config(), 1_000_000).unwrap();
    assert!(d.state.allow_grid_charging);
    assert_eq!(d.update_value, Some("1"));
    let d2 = worker_step(&d.state, &online, &config(), 1_030_000).unwrap();
    assert_eq!(d2.update_value, None);
    let no_grid = InverterDetailInfo { u_ac1_millivolts: 0, ..online };
    let d3 = worker_step(&d2.state, &no_grid, &config(), 1_060_000).unwrap();
    assert_eq!(d3.update_value, Some("0"));
}

#[test]
fn failed_write_keeps_previous_permission() {
    let prev = AppState { grid_active: false, allow_grid_charging: false, last_grid_switch_on_time: 5 };
    let decided = AppState { grid_active: true, allow_grid_charging: true, last_grid_switch_on_time: 9 };
    assert_eq!(state_after_write(&prev, &decided, true), decided);
    assert_eq!(
        state_after_write(&prev, &decided, false),
        AppState { grid_active: true, allow_grid_charging: false, last_grid_switch_on_time: 9 }
    );
}

#[test]
fn json_bodies_escape_control_characters() {
    assert_eq!(inverter_detail_body("a\\b\n\u{1}"), "{\"sn\":\"a\\\\b\\n\\u0001\"}");
}

#[test]
fn request_succeeds_at_the_epoch_and_in_year_9999() {
    assert_eq!(api().get_inverters_request(0).unwrap().headers.date, "Thu, 01 Jan 1970 00:00:00 GMT");
    assert_eq!(
        api().get_inverters_request(253_402_300_799_999).unwrap().headers.date,
        "Fri, 31 Dec 9999 23:59:59 GMT"
    );
}

#[test]
fn tick_interval() {
    assert!(!tick_due(30_000, 0));
    assert!(tick_due(30_001, 0));
}

#[test]
fn config_normalization() {
    assert_eq!(trim_end_slashes("http://h//"), "http://h");
    assert_eq!(trim_end_slashes("///"), "");
    let c = config().normalized().unwrap();
    assert_eq!(c.api_url, "http://h");
    let bad = AppConfig { min_battery_centi_percent: 9600, ..config() };
    assert!(matches!(bad.normalized(), Err(ApiError::Configuration(_))));
    let over = AppConfig { max_battery_centi_percent: 10001, ..config() };
    assert!(matches!(over.normalized(), Err(ApiError::Configuration(_))));
}

#[test]
fn state_and_command_codes() {
    assert_eq!(InverterState::from_code(2), Some(InverterState::Offline));
    assert_eq!(InverterState::from_code(4), None);
    assert_eq!(InverterState::Alert.code(), 3);
    assert_eq!(InverterCommand::AllowGridCharging.code(), 109);
    assert_eq!(InverterCommand::Time.code(), 56);
    assert_eq!(AppConfig::default_grid_charging_delay(), 600_000);
    assert_eq!(AppConfig::default_max_battery_centi_percent(), 9500);
}
