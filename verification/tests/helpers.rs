use waybar_status::battery;
use waybar_status::bulb;
use waybar_status::bulb::Action::{Color, Listen, Toggle, ToggleBackground};
use waybar_status::recorder;
use waybar_status::types::{Label, Response};

#[test]
fn power_is_shown_only_while_discharging() {
    assert_eq!(battery::read_power("-4813000\n"), Ok(Some(-4813000)));
    assert_eq!(battery::read_power("4813000\n"), Ok(None));
    assert_eq!(battery::read_power("0"), Ok(None));
    assert_eq!(battery::read_power("  -1  "), Ok(Some(-1)));
    assert_eq!(battery::read_power("-9223372036854775808"), Ok(Some(i64::MIN)));
}

#[test]
fn power_that_is_no_number_is_an_error() {
    assert_eq!(battery::read_power(""), Err(()));
    assert_eq!(battery::read_power("   \n"), Err(()));
    assert_eq!(battery::read_power("12 W"), Err(()));
    assert_eq!(battery::read_power("1.5"), Err(()));
    assert_eq!(battery::read_power("9223372036854775808"), Err(()));
}

#[test]
fn capacity_is_a_percentage() {
    assert_eq!(battery::read_capacity("87\n"), Ok("87%".to_string()));
    assert_eq!(battery::read_capacity("100"), Ok("100%".to_string()));
    assert_eq!(battery::read_capacity(" 0 "), Ok("0%".to_string()));
    assert_eq!(battery::read_capacity("-3"), Ok("-3%".to_string()));
    assert_eq!(battery::read_capacity("+5"), Ok("5%".to_string()));
    assert_eq!(battery::read_capacity(""), Err(()));
    assert_eq!(battery::read_capacity("full"), Err(()));
}

#[test]
fn battery_blocks() {
    let drawing = Ok(Some("4.8W".to_string()));
    assert_eq!(battery::power_output(&drawing), Response { class: "power", text: "4.8W" });
    assert_eq!(battery::power_output(&Ok(None)), Response { class: "power-idle", text: " " });
    assert_eq!(battery::power_output(&Err(())), Response { class: "power-err", text: "ERR" });
    let full = Ok("100%".to_string());
    assert_eq!(battery::capacity_output(&full), Response { class: "battery", text: "100%" });
    assert_eq!(
        battery::capacity_output(&Err(())),
        Response { class: "battery-err", text: "ERR" }
    );
    assert_eq!(battery::output("x", "y"), Response { class: "y", text: "x" });
}

#[test]
fn battery_mode_from_the_switches() {
    assert_eq!(battery::mode(false, false), Some(battery::Mode::Power));
    assert_eq!(battery::mode(true, false), Some(battery::Mode::Power));
    assert_eq!(battery::mode(false, true), Some(battery::Mode::Capacity));
    assert_eq!(battery::mode(true, true), None);
}

#[test]
fn bulb_blocks() {
    assert_eq!(bulb::output(false, false), Response { class: "bulb-off", text: "\u{f0e4f}" });
    assert_eq!(bulb::output(false, true), Response { class: "bulb-bg-on", text: "\u{f1a50}" });
    assert_eq!(bulb::output(true, false), Response { class: "bulb-on", text: "\u{ea61}" });
    assert_eq!(bulb::output(true, true), Response { class: "bulb-on", text: "\u{ea61}" });
}

#[test]
fn bulb_report_after_a_reading() {
    let props = |a: &str, b: &str| bulb::Reading::Properties(vec![a.to_string(), b.to_string()]);
    assert_eq!(bulb::report(&props("on", "off")), Some(bulb::output(true, false)));
    assert_eq!(bulb::report(&props("off", "on")), Some(bulb::output(false, true)));
    assert_eq!(bulb::report(&props("on", "on")), Some(bulb::output(true, true)));
    assert_eq!(bulb::report(&props("off", "off")), Some(bulb::output(false, false)));
    assert_eq!(bulb::report(&props("ON", "")), Some(bulb::output(false, false)));
}

#[test]
fn bulb_report_after_a_failed_reading_is_the_off_block() {
    let off = Some(bulb::output(false, false));
    assert_eq!(bulb::report(&bulb::Reading::Unreachable), off);
    assert_eq!(bulb::report(&bulb::Reading::Nothing), off);
    assert_eq!(bulb::report(&bulb::Reading::TimedOut), off);
    assert_eq!(bulb::report(&bulb::Reading::Refused), off);
    assert_eq!(off.unwrap().class, "bulb-off");
}

#[test]
fn bulb_report_with_another_number_of_properties_is_the_off_block() {
    let off = Some(bulb::output(false, false));
    let properties = |p: &[&str]| {
        bulb::Reading::Properties(p.iter().map(|s| s.to_string()).collect())
    };
    assert_eq!(bulb::report(&properties(&[])), off);
    assert_eq!(bulb::report(&properties(&["on"])), off);
    assert_eq!(bulb::report(&properties(&["on", "on", "on"])), off);
    assert_eq!(bulb::report(&properties(&["on", "off", "on", "off"])), off);
    assert_eq!(bulb::ASKED, 2);
}

#[test]
fn bulb_plan_keeps_the_order() {
    assert_eq!(bulb::plan(false, false, None, false), Vec::<bulb::Action>::new());
    assert_eq!(bulb::plan(true, false, None, false), vec![Toggle]);
    assert_eq!(
        bulb::plan(true, true, Some(240), true),
        vec![Toggle, ToggleBackground, Color(240), Listen]
    );
    assert_eq!(bulb::plan(false, true, None, true), vec![ToggleBackground, Listen]);
    assert_eq!(bulb::plan(false, false, Some(0), false), vec![Color(0)]);
    assert_eq!(bulb::PORT, 55443);
    assert_eq!(bulb::SATURATION, 100);
}

#[test]
fn recorder_block() {
    assert_eq!(
        recorder::output(None),
        Label { class: "not-recording", text: String::new() }
    );
    assert_eq!(
        recorder::output(Some(0)),
        Label { class: "recording", text: "\u{eba7}   00:00".to_string() }
    );
    assert_eq!(recorder::output(Some(59)).text, "\u{eba7}   00:59");
    assert_eq!(recorder::output(Some(60)).text, "\u{eba7}   01:59");
    assert_eq!(recorder::output(Some(125)).text, "\u{eba7}   02:123");
    assert_eq!(recorder::output(Some(3600)).text, "\u{eba7}   60:3540");
    assert_eq!(recorder::output(Some(-5)).text, "\u{eba7}   00:-5");
    assert_eq!(recorder::output(Some(-125)).text, "\u{eba7}   -2:-123");
}

#[test]
fn recorder_block_is_what_the_format_gives() {
    for secs in [0i64, 7, 59, 60, 61, 599, 600, 86399, -1, -60, -61, i64::MAX, i64::MIN] {
        let expected = format!("\u{eba7}   {:0>2}:{:0>2}", secs / 60, secs - (secs / 60));
        assert_eq!(recorder::output(Some(secs)).text, expected);
    }
}

#[test]
fn recorder_label_as_response() {
    let label = recorder::output(Some(5));
    assert_eq!(label.response(), Response { class: "recording", text: "\u{eba7}   00:05" });
}

#[test]
fn recorder_elapsed_time() {
    assert_eq!(recorder::elapsed(1_700_000_100, 1_700_000_040), Some(60));
    assert_eq!(recorder::elapsed(10, 40), Some(-30));
    assert_eq!(recorder::elapsed(0, i64::MIN), None);
    assert_eq!(recorder::elapsed(u64::MAX, 0), None);
    assert_eq!(recorder::elapsed(u64::MAX, i64::MAX), None);
    assert_eq!(recorder::elapsed(i64::MAX as u64, 0), Some(i64::MAX));
}

#[test]
fn recorder_mode_from_the_switches() {
    assert_eq!(recorder::mode(true, true), recorder::Mode::Stop);
    assert_eq!(recorder::mode(true, false), recorder::Mode::Stop);
    assert_eq!(recorder::mode(false, true), recorder::Mode::Listen);
    assert_eq!(recorder::mode(false, false), recorder::Mode::Record);
}

#[test]
fn recorder_region_and_file() {
    assert!(recorder::has_region("10,20 300x200\n"));
    assert!(!recorder::has_region(""));
    assert!(!recorder::has_region(" \n"));
    assert_eq!(recorder::video_path("/home/me/Videos", 1700000000), "/home/me/Videos/1700000000.mp4");
    assert_eq!(recorder::video_path("", 0), "/0.mp4");
}
