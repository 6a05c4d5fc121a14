use i3blocks_volume_pw::{get_output, Header, Output};

const HEADSET: &str = "alsa_output.usb-Creative_Technology_Creative_USB_Headset-00.11.analog-stereo";

const ACTIVE: &str = "Sink #52\n\
\tState: SUSPENDED\n\
\tName: alsa_output.pci-0000_00_1f.3.analog-stereo\n\
\tDescription: Built-in Audio Analog Stereo\n\
\tDriver: PipeWire\n\
\tMute: no\n\
\tVolume: front-left: 65536 / 100% / 0.00 dB,   front-right: 65536 / 100% / 0.00 dB\n\
\t        balance 0.00\n\
\tBase Volume: 65536 / 100% / 0.00 dB\n\
\tProperties:\n\
\t\talsa.card_name = \"HDA Intel PCH\"\n\
\t\tdevice.alias = \"Built-in Audio\"\n\
\t\tnode.nick = \"ALC257 Analog\"\n\
Sink #61\n\
\tState: RUNNING\n\
\tName: alsa_output.usb-Creative_Technology_Creative_USB_Headset-00.11.analog-stereo\n\
\tDescription: Creative USB Headset Analog Stereo\n\
\tDriver: PipeWire\n\
\tMute: no\n\
\tVolume: front-left: 26214 /  40% / -23.87 dB,   front-right: 26214 /  40% / -23.87 dB\n\
\t        balance 0.00\n\
\tBase Volume: 65536 / 100% / 0.00 dB\n\
\tProperties:\n\
\t\tdevice.alias = \"Creative USB Headset\"\n\
\t\tnode.nick = \"Creative Headset\"\n\
Sink #70\n\
\tState: IDLE\n\
\tName: bluez_output.00_11_22_33_44_55.1\n\
\tMute: yes\n\
\tVolume: front-left: 6554 /  10% / -60.00 dB,   front-right: 6554 /  10% / -60.00 dB\n\
\tProperties:\n\
\t\tnode.nick = \"Speaker\"\n";

const INACTIVE: &str = "Sink #52\n\
\tState: SUSPENDED\n\
\tName: alsa_output.pci-0000_00_1f.3.analog-stereo\n\
\tMute: no\n\
\tVolume: front-left: 65536 / 100% / 0.00 dB,   front-right: 65536 / 100% / 0.00 dB\n\
\tProperties:\n\
\t\tnode.nick = \"ALC257 Analog\"\n\
Sink #61\n\
\tState: SUSPENDED\n\
\tName: alsa_output.usb-Creative_Technology_Creative_USB_Headset-00.11.analog-stereo\n\
\tMute: no\n\
\tVolume: front-left: 26214 /  40% / -23.87 dB,   front-right: 26214 /  40% / -23.87 dB\n\
\tProperties:\n\
\t\tnode.nick = \"Creative USB Headset\"\n";

const MEDIUM: char = '\u{1F509}';

fn lines(text: &str) -> Vec<String> {
    text.lines().map(|l| l.to_owned()).collect()
}

fn one_sink(state: &str, mute: &str, volume: &str, nick: &str) -> Vec<String> {
    vec![
        "Sink #1".to_string(),
        format!("\tState: {}", state),
        "\tName: only.sink".to_string(),
        format!("\tMute: {}", mute),
        format!("\tVolume: front-left: 1 / {}% / 0.00 dB", volume),
        "\tProperties:".to_string(),
        format!("\t\tnode.nick = \"{}\"", nick),
    ]
}

#[test]
fn active_output() {
    let (status_line, volume) = get_output(Some(HEADSET.to_string()), lines(ACTIVE), true).unwrap();
    assert!(status_line.contains(&String::from_iter([MEDIUM])));
    assert!(status_line.contains("40%"));
    assert!(status_line.contains("Creative USB Headset"));
    assert!(volume == 40);
}

#[test]
fn no_device_name() {
    let (status_line, volume) = get_output(Some(HEADSET.to_string()), lines(ACTIVE), false).unwrap();
    assert!(status_line.contains(&String::from_iter([MEDIUM])));
    assert!(status_line.contains("40%"));
    assert!(!status_line.contains("Creative USB Headset"));
    assert!(volume == 40);
}

#[test]
fn inactive_output() {
    let (status_line, volume) = get_output(Some(HEADSET.to_string()), lines(INACTIVE), true).unwrap();
    assert!(status_line.contains(&String::from_iter([MEDIUM])));
    assert!(status_line.contains("40%"));
    assert!(status_line.contains("Creative USB Headset"));
    assert_eq!(volume, 40);
}

#[test]
fn empty_sink_list() {
    let lines: Vec<String> = Vec::new();
    let (status_line, volume) = get_output(None, lines, false).unwrap();
    assert!(status_line.is_empty());
    assert_eq!(volume, 0);
}

#[test]
fn test_output() {
    let o = Output::new("full text!".to_string());
    let r = o.to_json().unwrap();
    assert!(!r.is_empty());
}

#[test]
fn output_json_exact_and_escaped() {
    let mut o = Output::new("a \"b\"\n".to_string());
    o.short_text = Some("s".to_string());
    o.border_top = Some(-3);
    o.min_width = Some(300);
    o.urgent = Some(true);
    o.separator = Some(false);
    assert_eq!(
        o.to_json().unwrap(),
        "{\"full_text\":\"a \\\"b\\\"\\n\",\"short_text\":\"s\",\"border_top\":-3,\"min_width\":300,\"urgent\":true,\"separator\":false}"
    );
}

#[test]
fn header_json() {
    let mut h = Header::new(1);
    h.click_events = Some(true);
    assert_eq!(h.to_json(), "{\"version\":1,\"click_events\":true}");
}

#[test]
fn exact_line_with_device_name() {
    let (line, level) = get_output(None, one_sink("RUNNING", "no", "40", "Creative USB Headset"), true).unwrap();
    assert_eq!(
        line,
        "{\"full_text\":\"\u{1F509} 40% [Creative USB Headset]\",\"short_text\":\"\u{1F509} 40%\"}"
    );
    assert_eq!(level, 40);
}

#[test]
fn exact_line_without_device_name() {
    let (line, level) = get_output(None, one_sink("RUNNING", "no", "40", "Creative USB Headset"), false).unwrap();
    assert_eq!(line, "{\"full_text\":\"\u{1F509} 40%\"}");
    assert_eq!(level, 40);
}

#[test]
fn muted_sink_reports_level_zero() {
    let (line, level) = get_output(None, one_sink("IDLE", "yes", "75", "Speaker"), false).unwrap();
    assert_eq!(line, "{\"full_text\":\"\u{1F507} 75%\"}");
    assert_eq!(level, 0);
}

#[test]
fn icon_boundaries() {
    let cases = [("0", '\u{1F508}'), ("20", '\u{1F508}'), ("21", MEDIUM), ("60", MEDIUM), ("61", '\u{1F50A}'), ("100", '\u{1F50A}')];
    for (volume, icon) in cases {
        let (line, _) = get_output(None, one_sink("RUNNING", "no", volume, "x"), false).unwrap();
        assert_eq!(line, format!("{{\"full_text\":\"{} {}%\"}}", icon, volume));
    }
}

#[test]
fn urgent_above_full_volume_even_muted() {
    let (line, level) = get_output(None, one_sink("RUNNING", "no", "101", "x"), false).unwrap();
    assert_eq!(line, "{\"full_text\":\"\u{1F50A} 101%\",\"urgent\":true}");
    assert_eq!(level, 101);
    let (line, level) = get_output(None, one_sink("RUNNING", "yes", "150", "x"), false).unwrap();
    assert_eq!(line, "{\"full_text\":\"\u{1F507} 150%\",\"urgent\":true}");
    assert_eq!(level, 0);
    let (line, _) = get_output(None, one_sink("RUNNING", "no", "100", "x"), false).unwrap();
    assert!(!line.contains("urgent"));
}

#[test]
fn volume_too_large_reads_as_zero() {
    let (line, level) = get_output(None, one_sink("RUNNING", "no", "70000", "x"), false).unwrap();
    assert_eq!(line, "{\"full_text\":\"\u{1F508} 0%\"}");
    assert_eq!(level, 0);
}

#[test]
fn no_block_start_gives_empty_result() {
    let text = vec!["\tState: RUNNING".to_string(), "\tMute: no".to_string(), "garbage".to_string()];
    let r = get_output(Some("x".to_string()), text, true);
    assert_eq!(r, Ok((String::new(), 0)));
}

#[test]
fn first_sink_when_no_active_and_no_default() {
    let (line, level) = get_output(Some("missing".to_string()), lines(INACTIVE), false).unwrap();
    assert_eq!(line, "{\"full_text\":\"\u{1F50A} 100%\"}");
    assert_eq!(level, 100);
    let (_, level) = get_output(None, lines(INACTIVE), false).unwrap();
    assert_eq!(level, 100);
}

#[test]
fn first_device_name_wins() {
    let mut dump = one_sink("RUNNING", "no", "40", "First");
    dump.push("\t\tnode.nick = \"Second\"".to_string());
    dump.push("\tMute: yes".to_string());
    let (line, level) = get_output(None, dump, true).unwrap();
    assert!(line.contains("[First]"));
    assert!(!line.contains("Second"));
    assert_eq!(level, 40);
}

#[test]
fn state_line_may_repeat() {
    let mut dump = one_sink("RUNNING", "no", "40", "A");
    dump.push("\tState: IDLE".to_string());
    dump.extend(one_sink("RUNNING", "no", "70", "B"));
    let (line, _) = get_output(None, dump, true).unwrap();
    assert!(line.contains("[B]"));
}
