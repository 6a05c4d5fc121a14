//! The status shown for the selected sink, and the whole pipeline from the
//! dump's lines to one line of the bar.

use vstd::prelude::*;

use crate::patterns::{opt_view, patterns_compile, DumpPatterns};
use crate::protocol::{
    bool_text, json_string, object_text, output_json, with_text, with_value, Output,
};
use crate::sink::{
    is_block_start, lemma_no_block_start_no_sinks, models, parse_sinks, parsed_sinks,
    select_sink, selection, Sink, SinkModel,
};
use crate::text::{contains, decimal, occurs_at, push_decimal, string_views};

verus! {

/// The volume icon.
#[derive(PartialEq, Eq, Structural, Clone, Copy, Debug)]
pub enum Icon {
    Muted,
    Low,
    Medium,
    High,
}

/// The icon for a mute state and a volume: mute first, then volume up to
/// 20, up to 60, and above.
pub open spec fn icon_for(mute: bool, volume: u16) -> Icon {
    if mute {
        Icon::Muted
    } else if volume <= 20 {
        Icon::Low
    } else if volume <= 60 {
        Icon::Medium
    } else {
        Icon::High
    }
}

/// The character that shows an icon.
pub open spec fn icon_glyph(i: Icon) -> char {
    match i {
        Icon::Muted => '\u{1F507}',
        Icon::Low => '\u{1F508}',
        Icon::Medium => '\u{1F509}',
        Icon::High => '\u{1F50A}',
    }
}

impl Icon {
    /// The icon for a mute state and a volume.
    pub fn of(mute: bool, volume: u16) -> (r: Icon)
        ensures
            r == icon_for(mute, volume),
    {
        if mute {
            Icon::Muted
        } else if volume <= 20 {
            Icon::Low
        } else if volume <= 60 {
            Icon::Medium
        } else {
            Icon::High
        }
    }

    /// The character that shows this icon, as a string.
    pub fn glyph(&self) -> (r: &'static str)
        ensures
            r@ == seq![icon_glyph(*self)],
    {
        proof {
            reveal_strlit("\u{1F507}");
            reveal_strlit("\u{1F508}");
            reveal_strlit("\u{1F509}");
            reveal_strlit("\u{1F50A}");
        }
        match self {
            Icon::Muted => "\u{1F507}",
            Icon::Low => "\u{1F508}",
            Icon::Medium => "\u{1F509}",
            Icon::High => "\u{1F50A}",
        }
    }
}

/// Icon, space, volume and percent sign.
pub open spec fn base_text(s: SinkModel) -> Seq<char> {
    seq![icon_glyph(icon_for(s.mute, s.volume_percent)), ' '] + decimal(s.volume_percent as nat)
        + seq!['%']
}

/// Whether the device name is shown.
pub open spec fn shows_device_name(s: SinkModel, include_device_name: bool) -> bool {
    include_device_name && s.device_name.len() > 0
}

/// What the bar shows of a sink.
pub ghost struct StatusModel {
    pub full_text: Seq<char>,
    pub short_text: Option<Seq<char>>,
    pub urgent: bool,
}

/// The status of a sink: the base text, followed by the device name in
/// brackets when it is shown, in which case the base text alone is the
/// short form; urgent above 100%.
pub open spec fn status_of(s: SinkModel, include_device_name: bool) -> StatusModel {
    if shows_device_name(s, include_device_name) {
        StatusModel {
            full_text: base_text(s) + seq![' ', '['] + s.device_name + seq![']'],
            short_text: Some(base_text(s)),
            urgent: s.volume_percent > 100,
        }
    } else {
        StatusModel { full_text: base_text(s), short_text: None, urgent: s.volume_percent > 100 }
    }
}

/// The level for the level display: zero while muted.
pub open spec fn display_level(s: SinkModel) -> u16 {
    if s.mute {
        0
    } else {
        s.volume_percent
    }
}

/// Whether `o` carries the status `m` and nothing else.
pub open spec fn output_shows(o: Output, m: StatusModel) -> bool {
    &&& o.full_text@ == m.full_text
    &&& opt_view(o.short_text) == m.short_text
    &&& o.urgent == if m.urgent { Some(true) } else { None::<bool> }
    &&& o.color is None
    &&& o.background is None
    &&& o.border is None
    &&& o.border_top is None
    &&& o.border_right is None
    &&& o.border_bottom is None
    &&& o.border_left is None
    &&& o.min_width is None
    &&& o.align is None
    &&& o.name is None
    &&& o.instance is None
    &&& o.separator is None
    &&& o.separator_block_width is None
    &&& o.markup is None
}

/// The JSON line for a status; `None` when a string could not be quoted.
pub open spec fn status_json(m: StatusModel) -> Option<Seq<char>> {
    let ms = with_text(Some(Seq::empty()), "full_text"@, Some(m.full_text));
    let ms = with_text(ms, "short_text"@, m.short_text);
    let ms = with_value(ms, "urgent"@, if m.urgent { Some(bool_text(true)) } else { None });
    match ms {
        Some(ms) => Some(object_text(ms)),
        None => None,
    }
}

/// The status object for a sink.
pub fn status_output(sink: &Sink, include_device_name: bool) -> (r: Output)
    ensures
        output_shows(r, status_of(sink@, include_device_name)),
{
    let mut base = String::new();
    base.append(Icon::of(sink.mute, sink.volume_percent).glyph());
    base.append(" ");
    push_decimal(&mut base, sink.volume_percent);
    base.append("%");
    proof {
        reveal_strlit(" ");
        reveal_strlit("%");
        assert(base@ =~= base_text(sink@));
    }
    let mut output = Output::new(String::new());
    if include_device_name && !sink.device_name.as_str().is_empty() {
        let mut full = base.clone();
        full.append(" [");
        full.append(sink.device_name.as_str());
        full.append("]");
        proof {
            reveal_strlit(" [");
            reveal_strlit("]");
            assert(full@ =~= status_of(sink@, include_device_name).full_text);
        }
        output.full_text = full;
        output.short_text = Some(base);
    } else {
        output.full_text = base;
    }
    if sink.volume_percent > 100 {
        output.urgent = Some(true);
    }
    output
}

proof fn lemma_output_json(o: Output, m: StatusModel)
    requires
        output_shows(o, m),
    ensures
        output_json(o) == status_json(m),
{
}

/// Why no status line could be made.
#[derive(PartialEq, Eq, Structural, Clone, Copy, Debug)]
pub enum OutputError {
    /// A line pattern of the dump did not compile.
    Patterns,
    /// A string could not be written as JSON.
    Serialize,
}

/// The status line and level for a dump: empty and zero when no sink is
/// selected; `None` when the status could not be written as JSON.
pub open spec fn report(
    lines: Seq<Seq<char>>,
    default_sink: Option<Seq<char>>,
    include_device_name: bool,
) -> Option<(Seq<char>, u16)> {
    let sinks = parsed_sinks(lines);
    match selection(sinks, default_sink) {
        None => Some((Seq::empty(), 0)),
        Some(i) => match status_json(status_of(sinks[i], include_device_name)) {
            Some(j) => Some((j, display_level(sinks[i]))),
            None => None,
        },
    }
}

/// Gets the output to be displayed to the user.
/// The first element of the tuple is the status line,
/// and the second element is the volume percentage to display to the user.
pub fn get_output(default_sink_node: Option<String>, lines: Vec<String>, include_device_name: bool) -> (r: Result<(String, u16), OutputError>)
    ensures
        !patterns_compile() ==> r == Err::<(String, u16), OutputError>(OutputError::Patterns),
        patterns_compile() ==> match report(string_views(lines@), opt_view(default_sink_node), include_device_name) {
            Some((t, level)) => r matches Ok((line, l)) && line@ == t && l == level,
            None => r == Err::<(String, u16), OutputError>(OutputError::Serialize),
        },
{
    let patterns = match DumpPatterns::new() {
        Some(p) => p,
        None => {
            return Err(OutputError::Patterns);
        },
    };
    let sinks = parse_sinks(&patterns, &lines);
    let ghost s = models(sinks@);
    match select_sink(&sinks, &default_sink_node) {
        None => Ok((String::new(), 0)),
        Some(i) => {
            let sink = &sinks[i];
            assert(s[i as int] == sink@);
            let output = status_output(sink, include_device_name);
            proof {
                lemma_output_json(output, status_of(sink@, include_device_name));
            }
            match output.to_json() {
                Some(line) => Ok((line, if sink.mute { 0 } else { sink.volume_percent })),
                None => Err(OutputError::Serialize),
            }
        },
    }
}

/// The icon is a function of mute state and volume that splits them into
/// four disjoint buckets: muted whatever the volume; otherwise low up to
/// 20, medium from 21 to 60, high from 61.
pub proof fn lemma_icon_buckets(mute: bool, volume: u16)
    ensures
        icon_for(mute, volume) == Icon::Muted <==> mute,
        icon_for(mute, volume) == Icon::Low <==> !mute && volume <= 20,
        icon_for(mute, volume) == Icon::Medium <==> !mute && 21 <= volume <= 60,
        icon_for(mute, volume) == Icon::High <==> !mute && volume >= 61,
{
}

/// A status is urgent exactly when the volume is above 100, muted or not.
pub proof fn lemma_urgent_above_full(s: SinkModel, include_device_name: bool)
    ensures
        status_of(s, include_device_name).urgent <==> s.volume_percent > 100,
        status_of(SinkModel { mute: !s.mute, ..s }, include_device_name).urgent
            == status_of(s, include_device_name).urgent,
{
}

/// For the same sink, the full text holds the captured device name when it
/// is to be shown; when it is not, the full text is the base text alone and
/// holds the name only where the base text itself does. The level is the
/// same either way.
pub proof fn lemma_device_name_shown(s: SinkModel)
    requires
        s.device_name.len() > 0,
    ensures
        contains(status_of(s, true).full_text, s.device_name),
        status_of(s, false).full_text == base_text(s),
        !contains(base_text(s), s.device_name) ==> !contains(
            status_of(s, false).full_text,
            s.device_name,
        ),
{
    let t = status_of(s, true).full_text;
    let k: int = base_text(s).len() as int + 2;
    assert(t.subrange(k, k + s.device_name.len() as int) =~= s.device_name);
    assert(occurs_at(t, s.device_name, k));
}

/// A dump without a block-start line reports the empty line and level zero.
pub proof fn lemma_no_sinks_empty_report(
    lines: Seq<Seq<char>>,
    default_sink: Option<Seq<char>>,
    include_device_name: bool,
)
    requires
        forall|i: int| 0 <= i < lines.len() ==> !is_block_start(#[trigger] lines[i]),
    ensures
        report(lines, default_sink, include_device_name) == Some((Seq::<char>::empty(), 0u16)),
{
    lemma_no_block_start_no_sinks(lines, default_sink);
}

} // verus!
