use needle_core::config::Position;
use needle_core::info::{
    make_api_version, AppInfo, API_VERSION_1_0, API_VERSION_1_2, API_VERSION_1_3, ENGINE_VERSION,
};
use needle_core::error::NeedleError;
use needle_core::mode::ImguiMode;
use needle_core::options::{AppState, NeedleArgs};
use needle_core::time::{format_to_digit, u64_to_string, OpMode, Time, TimeFormat};
use needle_core::{version_info, NeedleLabel};

fn timer(format: TimeFormat, mode: OpMode, start: u64, stop: Option<u64>, started: bool) -> Time {
    Time { format, mode, start_time: start, stop_time: stop, started }
}

#[test]
fn version_info_names_the_library() {
    assert_eq!(version_info(), "needle_core 0.1.0");
}

#[test]
fn labels_share_one_constant_text() {
    // Every kind and every payload yields the same constant: the formatting
    // arguments as literal text.
    assert_eq!(NeedleLabel::Device("x").as_str(), "\"{}\", self");
    assert_eq!(NeedleLabel::PipelineLayout("layout").as_str(), "\"{}\", self");
    assert_eq!(NeedleLabel::Pipeline("").as_str(), "\"{}\", self");
    assert_eq!(NeedleLabel::CommandEncoder("x").as_str(), "\"{}\", self");
    assert_eq!(NeedleLabel::RenderPass("x").as_str(), "\"{}\", self");
    assert_eq!(NeedleLabel::Shader("x").as_str(), "\"{}\", self");
    assert_eq!(NeedleLabel::Texture("x").as_str(), "\"{}\", self");
}

#[test]
fn decimal_rendering() {
    assert_eq!(u64_to_string(0), "0");
    assert_eq!(u64_to_string(9), "9");
    assert_eq!(u64_to_string(10), "10");
    assert_eq!(u64_to_string(1234567890123), "1234567890123");
    assert_eq!(u64_to_string(u64::MAX), "18446744073709551615");
}

#[test]
fn zero_padding() {
    assert_eq!(format_to_digit(2, 5), "05");
    assert_eq!(format_to_digit(2, 42), "42");
    assert_eq!(format_to_digit(2, 123), "123");
    assert_eq!(format_to_digit(3, 42), "042");
    assert_eq!(format_to_digit(3, 1999), "1999");
    assert_eq!(format_to_digit(1, 7), "7");
    assert_eq!(format_to_digit(0, 7), "7");
    assert_eq!(format_to_digit(5, 0), "00000");
}

#[test]
fn duration_rendering_short_format() {
    let t = timer(TimeFormat::HourMinSec, OpMode::CountUpTimer, 0, None, false);
    assert_eq!(t.duration_to_str(0), "00:00:00");
    // 1 hour, 2 minutes, 3 seconds: the minute field counts total minutes.
    assert_eq!(t.duration_to_str(3_723_000), "01:62:03");
    assert_eq!(t.duration_to_str(59_000), "00:00:59");
}

#[test]
fn duration_rendering_long_format() {
    let t = timer(TimeFormat::HourMinSecMSec, OpMode::CountUpTimer, 0, None, false);
    assert_eq!(t.duration_to_str(61_500), "00:01:01.500");
    assert_eq!(t.duration_to_str(7), "00:00:00.007");
}

#[test]
fn wall_clock_rendering() {
    let t = timer(TimeFormat::HourMinSec, OpMode::Clock, 0, None, false);
    assert_eq!(t.time_to_str(9, 5, 3, 123_456_789), "09:05:03");
    let t = timer(TimeFormat::HourMinSecMSec, OpMode::Clock, 0, None, false);
    assert_eq!(t.time_to_str(9, 5, 3, 123_456_789), "09:05:03.123");
    assert_eq!(t.time_to_str(23, 59, 59, 1_999_999_999), "23:59:59.1999");
}

#[test]
fn countdown_readout() {
    // Running: counts down from the configured duration.
    let t = timer(TimeFormat::HourMinSec, OpMode::CountDownTimer(120_000), 1_000, None, true);
    assert_eq!(t.current_time_at(61_000), "00:01:00");
    // Exhausted: clamps at zero.
    assert_eq!(t.current_time_at(999_999), "00:00:00");
    // Stopped with a recorded stop mark: frozen at the mark.
    let t = timer(
        TimeFormat::HourMinSec,
        OpMode::CountDownTimer(120_000),
        1_000,
        Some(31_000),
        false,
    );
    assert_eq!(t.current_time_at(999_999), "00:01:30");
    // Stopped without a mark: the full duration.
    let t = timer(TimeFormat::HourMinSec, OpMode::CountDownTimer(120_000), 1_000, None, false);
    assert_eq!(t.current_time_at(999_999), "00:02:00");
}

#[test]
fn countup_readout() {
    let t = timer(TimeFormat::HourMinSec, OpMode::CountUpTimer, 1_000, None, true);
    assert_eq!(t.current_time_at(3_601_000), "01:60:00");
    // A clock reading behind the base yields zero, not a panic.
    assert_eq!(t.current_time_at(0), "00:00:00");
}

#[test]
fn clock_readout_shape() {
    // Through the real wall clock: the short format is always HH:MM:SS.
    let t = timer(TimeFormat::HourMinSec, OpMode::Clock, 0, None, false);
    let readout = t.current_time();
    assert_eq!(readout.len(), 8);
    assert_eq!(&readout[2..3], ":");
    assert_eq!(&readout[5..6], ":");
}

#[test]
fn toggle_timer_through_real_clock() {
    let mut t = timer(TimeFormat::HourMinSec, OpMode::CountDownTimer(5_000), 0, None, false);
    // Whatever the clock read, the toggle flips the running flag.
    t.toggle_timer();
    assert!(t.started);
    assert_eq!(t.stop_time, None);
    t.toggle_timer();
    assert!(!t.started);
    assert!(t.stop_time.is_some());
}

#[test]
fn stopped_countdown_readout_ignores_the_clock() {
    let t = timer(
        TimeFormat::HourMinSec,
        OpMode::CountDownTimer(120_000),
        1_000,
        Some(31_000),
        false,
    );
    // Frozen at the stop mark, whatever the wall clock says.
    assert_eq!(t.current_time(), "00:01:30");
}

#[test]
fn new_timer_defaults() {
    let t = Time::new(TimeFormat::HourMinSec);
    assert_eq!(t.format, TimeFormat::HourMinSec);
    assert_eq!(t.mode(), OpMode::CountDownTimer(120_000));
    assert_eq!(t.stop_time, None);
    assert!(!t.started);
}

#[test]
fn set_mode_rebases_timers_only() {
    let mut t = timer(TimeFormat::HourMinSec, OpMode::Clock, 5, None, false);
    t.set_mode_at(OpMode::CountUpTimer, 77);
    assert_eq!(t.mode(), OpMode::CountUpTimer);
    assert_eq!(t.start_time, 77);
    t.set_mode_at(OpMode::Clock, 99);
    assert_eq!(t.mode(), OpMode::Clock);
    assert_eq!(t.start_time, 77);
}

#[test]
fn toggle_countdown_start_stop_resume() {
    let mut t = timer(TimeFormat::HourMinSec, OpMode::CountDownTimer(5_000), 0, None, false);
    t.toggle_timer_at(100);
    assert!(t.started);
    assert_eq!(t.start_time, 100);
    assert_eq!(t.stop_time, None);

    t.toggle_timer_at(200);
    assert!(!t.started);
    assert_eq!(t.stop_time, Some(200));

    // Resuming within the duration keeps the base and the mark.
    t.toggle_timer_at(300);
    assert!(t.started);
    assert_eq!(t.start_time, 100);
    assert_eq!(t.stop_time, Some(200));
}

#[test]
fn toggle_countdown_restarts_after_exhaustion() {
    // The stopped span exceeds the duration: resuming restarts from the
    // stop mark.
    let mut t =
        timer(TimeFormat::HourMinSec, OpMode::CountDownTimer(5_000), 0, Some(10_000), false);
    t.toggle_timer_at(20_000);
    assert!(t.started);
    assert_eq!(t.start_time, 10_000);
    assert_eq!(t.stop_time, None);
}

#[test]
fn toggle_countup_resumes_from_mark() {
    let mut t = timer(TimeFormat::HourMinSec, OpMode::CountUpTimer, 0, Some(400), false);
    t.toggle_timer_at(900);
    assert!(t.started);
    assert_eq!(t.start_time, 400);
    assert_eq!(t.stop_time, None);
    t.toggle_timer_at(1_000);
    assert!(!t.started);
    assert_eq!(t.stop_time, Some(1_000));
}

#[test]
fn toggle_ignored_in_clock_mode() {
    let mut t = timer(TimeFormat::HourMinSec, OpMode::Clock, 3, Some(4), false);
    t.toggle_timer_at(500);
    assert_eq!(t, timer(TimeFormat::HourMinSec, OpMode::Clock, 3, Some(4), false));
}

#[test]
fn time_format_names() {
    assert_eq!(TimeFormat::HourMinSec.as_str(), "HourMinSec");
    assert_eq!(TimeFormat::HourMinSecMSec.as_str(), "HourMinSecMSec");
}

#[test]
fn app_states_from_all_options() {
    let args = NeedleArgs {
        help: true,
        version: true,
        gen_config: String::new(),
        print: true,
        config: String::from("custom.toml"),
    };
    let states = AppState::new(&args);
    assert_eq!(
        states,
        vec![
            AppState::Help,
            AppState::Version,
            AppState::GenerateConfig(String::from("stdout")),
            AppState::ConfigFilePath(String::from("custom.toml")),
            AppState::Run,
        ]
    );
}

#[test]
fn app_states_gen_config_path() {
    let args = NeedleArgs {
        help: false,
        version: false,
        gen_config: String::from("out.toml"),
        print: false,
        config: String::new(),
    };
    assert_eq!(
        AppState::new(&args),
        vec![AppState::GenerateConfig(String::from("out.toml")), AppState::Run]
    );
}

#[test]
fn app_states_print_and_path_cancel_out() {
    let args = NeedleArgs {
        help: false,
        version: false,
        gen_config: String::from("out.toml"),
        print: true,
        config: String::new(),
    };
    assert_eq!(AppState::new(&args), vec![AppState::Run]);
}

#[test]
fn app_states_default_is_run_only() {
    let args = NeedleArgs::default();
    assert_eq!(AppState::new(&args), vec![AppState::Run]);
    assert_eq!(AppState::default(), AppState::Run);
}

#[test]
fn imgui_mode_encoding() {
    assert_eq!(ImguiMode::Background.encode(), 0);
    assert_eq!(ImguiMode::ClockTimer.encode(), 1);
    assert_eq!(ImguiMode::Fps.encode(), 2);
    assert_eq!(ImguiMode::Invalid.encode(), u32::MAX);
    assert_eq!(ImguiMode::decode(0), ImguiMode::Background);
    assert_eq!(ImguiMode::decode(1), ImguiMode::ClockTimer);
    assert_eq!(ImguiMode::decode(2), ImguiMode::Fps);
    assert_eq!(ImguiMode::decode(7), ImguiMode::Invalid);
}

#[test]
fn error_messages_and_severity() {
    assert_eq!(NeedleError::Lost.message(), "Surface | Lost");
    assert_eq!(NeedleError::Outdated.message(), "Surface | Outdated");
    assert_eq!(NeedleError::FormatMismatch.message(), "Surface | Swapchain format has changed");
    assert_eq!(NeedleError::NoSuitableAccelerator.message(), "Device | No suitable accelerator");
    assert!(NeedleError::Lost.is_fatal_render_error());
    assert!(NeedleError::FormatMismatch.is_fatal_render_error());
    assert!(!NeedleError::Outdated.is_fatal_render_error());
    assert!(!NeedleError::ConfigExists.is_fatal_render_error());
}

#[test]
fn api_version_packing() {
    assert_eq!(make_api_version(0, 1, 0, 0), API_VERSION_1_0);
    assert_eq!(make_api_version(0, 1, 2, 0), API_VERSION_1_2);
    assert_eq!(make_api_version(0, 0, 1, 0), ENGINE_VERSION);
    assert_eq!(make_api_version(1, 2, 3, 4), (1 << 29) | (2 << 22) | (3 << 12) | 4);
}

#[test]
fn app_info_validates_api_version() {
    let info = AppInfo::new("needle", 1);
    assert_eq!(info.name(), "needle");
    assert_eq!(info.version(), 1);
    assert_eq!(info.engine_name(), "needle-core");
    assert_eq!(info.engine_version(), ENGINE_VERSION);
    assert_eq!(info.api_version(), API_VERSION_1_3);

    let info = AppInfo::new_with_api_version("needle", 1, API_VERSION_1_2);
    assert_eq!(info.api_version(), API_VERSION_1_2);
    // An unknown version falls back to the baseline.
    let info = AppInfo::new_with_api_version("needle", 1, 12345);
    assert_eq!(info.api_version(), API_VERSION_1_0);
}

#[test]
fn corner_positions() {
    assert!(Position::TopLeft.is_corner());
    assert!(Position::BottomRight.is_corner());
    assert!(!Position::Center.is_corner());
    assert!(!Position::Top.is_corner());
}
