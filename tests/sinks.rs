use i3blocks_volume_pw::patterns::DumpPatterns;
use i3blocks_volume_pw::sink::{parse_sinks, select_sink};
use i3blocks_volume_pw::text::{contains_str, parse_u16, split_lines, starts_with, trim_end};
use i3blocks_volume_pw::Sink;

fn block(name: &str, state: &str, volume: &str) -> Vec<String> {
    vec![
        format!("Sink #{}", name.len()),
        format!("\tState: {}", state),
        format!("\tName: {}   ", name),
        "\tMute: no".to_string(),
        format!("\tVolume: mono: 1000 / {}% / -1.00 dB", volume),
        "\tProperties:".to_string(),
        format!("\t\tdevice.alias = \"{} alias\"", name),
    ]
}

fn dump(blocks: &[(&str, &str, &str)]) -> Vec<String> {
    let mut lines = Vec::new();
    for (name, state, volume) in blocks {
        lines.extend(block(name, state, volume));
    }
    lines
}

#[test]
fn parses_each_block_into_one_record() {
    let p = DumpPatterns::new().unwrap();
    let sinks = parse_sinks(&p, &dump(&[("a", "IDLE", "10"), ("bb", "SUSPENDED", "20")]));
    assert_eq!(sinks.len(), 2);
    assert_eq!(sinks[0].sink_name, "a");
    assert_eq!(sinks[0].volume_percent, 10);
    assert_eq!(sinks[0].device_name, "a alias");
    assert!(sinks[0].got_device_name && sinks[0].got_sink_name && sinks[0].got_volume && sinks[0].got_mute);
    assert!(!sinks[0].active && !sinks[0].mute);
    assert_eq!(sinks[1].sink_name, "bb");
    assert_eq!(sinks[1].volume_percent, 20);
}

#[test]
fn parsing_stops_after_active_record() {
    let p = DumpPatterns::new().unwrap();
    let sinks = parse_sinks(&p, &dump(&[("a", "IDLE", "10"), ("bb", "RUNNING", "20"), ("ccc", "IDLE", "30")]));
    assert_eq!(sinks.len(), 2);
    assert!(sinks[1].active);
    assert_eq!(select_sink(&sinks, &Some("ccc".to_string())), Some(1));
}

#[test]
fn lines_before_first_block_are_ignored() {
    let p = DumpPatterns::new().unwrap();
    let mut lines = vec!["\tState: RUNNING".to_string(), "\tName: stray".to_string()];
    lines.extend(block("a", "IDLE", "10"));
    let sinks = parse_sinks(&p, &lines);
    assert_eq!(sinks.len(), 1);
    assert!(!sinks[0].active);
    assert_eq!(sinks[0].sink_name, "a");
}

#[test]
fn no_block_start_means_no_records() {
    let p = DumpPatterns::new().unwrap();
    let lines = vec!["\tState: RUNNING".to_string(), "nothing".to_string()];
    let sinks = parse_sinks(&p, &lines);
    assert!(sinks.is_empty());
    assert_eq!(select_sink(&sinks, &Some("nothing".to_string())), None);
}

#[test]
fn active_record_wins_over_default() {
    let p = DumpPatterns::new().unwrap();
    for active in 0..3 {
        let names = ["a", "bb", "ccc"];
        let blocks: Vec<(&str, &str, &str)> = names
            .iter()
            .enumerate()
            .map(|(i, n)| (*n, if i == active { "RUNNING" } else { "IDLE" }, "50"))
            .collect();
        let sinks = parse_sinks(&p, &dump(&blocks));
        assert_eq!(select_sink(&sinks, &Some("a".to_string())), Some(active));
        assert_eq!(select_sink(&sinks, &None), Some(active));
    }
}

#[test]
fn default_record_when_none_active() {
    let p = DumpPatterns::new().unwrap();
    let sinks = parse_sinks(&p, &dump(&[("a", "IDLE", "10"), ("bb", "IDLE", "20"), ("ccc", "IDLE", "30")]));
    assert_eq!(select_sink(&sinks, &Some("ccc".to_string())), Some(2));
    assert_eq!(select_sink(&sinks, &Some("zz".to_string())), Some(0));
    assert_eq!(select_sink(&sinks, &None), Some(0));
}

#[test]
fn clear_resets_every_field() {
    let mut s = Sink::new();
    s.volume_percent = 30;
    s.device_name = "x".to_string();
    s.mute = true;
    s.active = true;
    s.got_mute = true;
    s.got_volume = true;
    s.got_device_name = true;
    s.sink_name = "y".to_string();
    s.got_sink_name = true;
    s.clear();
    assert_eq!(s.volume_percent, 0);
    assert!(s.device_name.is_empty() && s.sink_name.is_empty());
    assert!(!s.mute && !s.active && !s.got_mute && !s.got_volume && !s.got_device_name && !s.got_sink_name);
}

#[test]
fn u16_parsing_follows_from_str() {
    assert_eq!(parse_u16("40"), Some(40));
    assert_eq!(parse_u16("+7"), Some(7));
    assert_eq!(parse_u16("007"), Some(7));
    assert_eq!(parse_u16("65535"), Some(65535));
    assert_eq!(parse_u16("65536"), None);
    assert_eq!(parse_u16(""), None);
    assert_eq!(parse_u16("+"), None);
    assert_eq!(parse_u16("-1"), None);
    assert_eq!(parse_u16("4a"), None);
}

#[test]
fn text_helpers() {
    assert_eq!(trim_end("name \t\n\u{3000}"), "name");
    assert_eq!(trim_end("  "), "");
    assert!(starts_with("Sink #3", "Sink"));
    assert!(!starts_with("Sin", "Sink"));
    assert!(contains_str("Event 'change' on sink #5", "change"));
    assert!(!contains_str("Event 'new' on sink #5", "change"));
    assert!(contains_str("x", ""));
}

#[test]
fn splits_lines_like_str_lines() {
    assert_eq!(split_lines("a\r\nb\n\nc\r"), vec!["a", "b", "", "c\r"]);
    assert_eq!(split_lines("x\n"), vec!["x"]);
    assert_eq!(split_lines(""), Vec::<String>::new());
    assert_eq!(split_lines("\n"), vec![""]);
}
