use i3blocks_volume_pw::control::{default_sink_from_answer, is_change_event, volume_step, SpawnFailures, CHANGE_EVENT};
use i3blocks_volume_pw::{Config, Coordinator, EventPlan, MixerCommand};

fn config(show: bool, wob: bool) -> Config {
    Config {
        audio_delta: 5,
        volume_control_app: "pavucontrol".to_string(),
        show_device_name: show,
        print_header: false,
        use_wob: wob,
    }
}

#[test]
fn plans_for_each_button() {
    let mut c = Coordinator::new(&config(false, false));
    assert_eq!(c.on_event(2), EventPlan { command: MixerCommand::ToggleMute, recompute: true });
    assert_eq!(c.on_event(4), EventPlan { command: MixerCommand::AdjustVolume(5), recompute: true });
    assert_eq!(c.on_event(5), EventPlan { command: MixerCommand::AdjustVolume(-5), recompute: true });
    assert_eq!(c.on_event(1), EventPlan { command: MixerCommand::LaunchControlApp, recompute: true });
    assert_eq!(c.on_event(CHANGE_EVENT), EventPlan { command: MixerCommand::Nothing, recompute: true });
    assert_eq!(c.on_event(9), EventPlan { command: MixerCommand::Nothing, recompute: true });
    assert!(!c.show_device_name);
    assert_eq!(c.on_event(3), EventPlan { command: MixerCommand::Nothing, recompute: true });
    assert!(c.show_device_name);
    c.on_status("x".to_string(), 1);
    assert_eq!(c.on_event(1), EventPlan { command: MixerCommand::LaunchControlApp, recompute: false });
}

#[test]
fn large_delta_keeps_its_sign() {
    let mut cfg = config(false, false);
    cfg.audio_delta = 200;
    let mut c = Coordinator::new(&cfg);
    assert_eq!(c.on_event(4).command, MixerCommand::AdjustVolume(200));
    assert_eq!(c.on_event(5).command, MixerCommand::AdjustVolume(-200));
}

#[test]
fn first_emission_always_written_then_coalesced() {
    let mut c = Coordinator::new(&config(false, true));
    let e = c.on_status(String::new(), 0);
    assert_eq!(e.line.as_deref(), Some(""));
    assert_eq!(e.level, None);
    let e = c.on_status("a".to_string(), 40);
    assert_eq!(e.line.as_deref(), Some("a"));
    assert_eq!(e.level, Some(40));
    let e = c.on_status("a".to_string(), 40);
    assert_eq!(e.line, None);
    assert_eq!(e.level, None);
    let e = c.on_status("a".to_string(), 40);
    assert_eq!(e.line, None);
    assert_eq!(e.level, None);
    let e = c.on_status("b".to_string(), 40);
    assert_eq!(e.line.as_deref(), Some("b"));
    assert_eq!(e.level, None);
}

#[test]
fn level_display_stops_after_failure() {
    let mut c = Coordinator::new(&config(false, true));
    c.on_status("a".to_string(), 10);
    assert_eq!(c.on_status("b".to_string(), 20).level, Some(20));
    c.level_display_failed();
    assert_eq!(c.on_status("c".to_string(), 30).level, None);
    let mut c = Coordinator::new(&config(false, false));
    c.on_status("a".to_string(), 10);
    assert_eq!(c.on_status("b".to_string(), 20).level, None);
}

#[test]
fn volume_step_arguments() {
    assert_eq!(volume_step(5), Some("+5%".to_string()));
    assert_eq!(volume_step(-5), Some("-5%".to_string()));
    assert_eq!(volume_step(-32768), Some("-32768%".to_string()));
    assert_eq!(volume_step(0), None);
}

#[test]
fn change_events() {
    assert!(is_change_event("Event 'change' on sink #51"));
    assert!(!is_change_event("Event 'new' on client #99"));
}

#[test]
fn default_sink_answer() {
    assert_eq!(default_sink_from_answer("alsa_output.x\n"), Some("alsa_output.x".to_string()));
    assert_eq!(default_sink_from_answer(" \n"), None);
    assert_eq!(default_sink_from_answer(""), None);
}

#[test]
fn spawn_failures_give_up_after_four_in_a_second() {
    let mut f = SpawnFailures::new();
    assert!(!f.record(0));
    assert!(!f.record(300));
    assert!(!f.record(600));
    assert!(f.record(900));
    let mut f = SpawnFailures::new();
    assert!(!f.record(0));
    assert!(!f.record(500));
    assert!(!f.record(1000));
    assert!(!f.record(1400));
    assert_eq!(f.times, vec![500, 1000, 1400]);
}
