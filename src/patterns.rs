//! The line patterns of the mixer's sink dump, matched by the `regex` crate.

use vstd::prelude::*;

use crate::text::{trim_end, trimmed_end};

verus! {

#[verifier::external_type_specification]
#[verifier::external_body]
pub struct ExRegex(regex::Regex);

/// Whether `regex` accepts `pattern` as a regular expression.
pub uninterp spec fn regex_compiles(pattern: Seq<char>) -> bool;

/// The text of the first capture group of the leftmost match of `pattern`
/// in `text`, or `None` when there is no match or the group took no part.
pub uninterp spec fn regex_first_group(pattern: Seq<char>, text: Seq<char>) -> Option<Seq<char>>;

/// A compiled regular expression together with its source text.
pub struct LinePattern {
    source: String,
    re: regex::Regex,
}

impl LinePattern {
    /// The text that the expression was compiled from.
    pub closed spec fn source(&self) -> Seq<char> {
        self.source@
    }

    /// Relies on `regex::Regex::new`: it compiles `pattern` or reports an
    /// error, depending on the text of the pattern alone.
    #[verifier::external_body]
    fn compile(pattern: &str) -> (r: Option<LinePattern>)
        ensures
            r is Some <==> regex_compiles(pattern@),
            r matches Some(p) ==> p.source() == pattern@,
    {
        match regex::Regex::new(pattern) {
            Ok(re) => Some(LinePattern { source: pattern.to_string(), re }),
            Err(_) => None,
        }
    }

    /// Relies on `regex::Regex::captures` and `regex::Captures::get`: the
    /// first group of the leftmost match in `text`.
    #[verifier::external_body]
    fn first_group(&self, text: &str) -> (r: Option<String>)
        ensures
            r matches Some(g) ==> regex_first_group(self.source(), text@) == Some(g@),
            r is None ==> regex_first_group(self.source(), text@) is None,
    {
        match self.re.captures(text) {
            Some(caps) => match caps.get(1) {
                Some(m) => Some(m.as_str().to_string()),
                None => None,
            },
            None => None,
        }
    }
}

/// Start of a status line: `State: <word>`.
pub open spec fn state_pattern() -> Seq<char> {
    "^\\t+?State: (\\w+)"@
}

/// Mute line: `Mute: <word>`.
pub open spec fn mute_pattern() -> Seq<char> {
    "^\\t+?Mute: (\\w+)"@
}

/// Volume line of the front-left or mono channel; the group is the first percentage.
pub open spec fn volume_pattern() -> Seq<char> {
    "^\\t+?Volume:\\s*(?:front-left|mono).*?\\d*?(\\d+?)%"@
}

/// Device name property, first choice.
pub open spec fn nick_pattern() -> Seq<char> {
    "^\\t\\tnode\\.nick\\s=\\s\"([^\"]+?)\""@
}

/// Device name property, second choice.
pub open spec fn alias_pattern() -> Seq<char> {
    "^\\t\\tdevice\\.alias\\s=\\s\"([^\"]+?)\""@
}

/// The sink's internal name, matched against the line without trailing white space.
pub open spec fn sink_name_pattern() -> Seq<char> {
    "^\\tName: (.+)$"@
}

/// Whether every line pattern compiles.
pub open spec fn patterns_compile() -> bool {
    &&& regex_compiles(state_pattern())
    &&& regex_compiles(mute_pattern())
    &&& regex_compiles(volume_pattern())
    &&& regex_compiles(nick_pattern())
    &&& regex_compiles(alias_pattern())
    &&& regex_compiles(sink_name_pattern())
}

/// What each line pattern captured on one line of the dump.
pub struct LineCaptures {
    pub state: Option<String>,
    pub mute: Option<String>,
    pub volume: Option<String>,
    pub nick: Option<String>,
    pub alias: Option<String>,
    pub sink_name: Option<String>,
}

/// View of an optional string.
pub open spec fn opt_view(o: Option<String>) -> Option<Seq<char>> {
    match o {
        Some(s) => Some(s@),
        None => None,
    }
}

/// Mathematical form of [`LineCaptures`].
pub ghost struct CapturesModel {
    pub state: Option<Seq<char>>,
    pub mute: Option<Seq<char>>,
    pub volume: Option<Seq<char>>,
    pub nick: Option<Seq<char>>,
    pub alias: Option<Seq<char>>,
    pub sink_name: Option<Seq<char>>,
}

impl View for LineCaptures {
    type V = CapturesModel;

    open spec fn view(&self) -> CapturesModel {
        CapturesModel {
            state: opt_view(self.state),
            mute: opt_view(self.mute),
            volume: opt_view(self.volume),
            nick: opt_view(self.nick),
            alias: opt_view(self.alias),
            sink_name: opt_view(self.sink_name),
        }
    }
}

/// What the line patterns capture on `line`.
pub open spec fn line_captures(line: Seq<char>) -> CapturesModel {
    CapturesModel {
        state: regex_first_group(state_pattern(), line),
        mute: regex_first_group(mute_pattern(), line),
        volume: regex_first_group(volume_pattern(), line),
        nick: regex_first_group(nick_pattern(), line),
        alias: regex_first_group(alias_pattern(), line),
        sink_name: regex_first_group(sink_name_pattern(), trimmed_end(line)),
    }
}

/// The compiled line patterns of the sink dump.
pub struct DumpPatterns {
    state: LinePattern,
    mute: LinePattern,
    volume: LinePattern,
    nick: LinePattern,
    alias: LinePattern,
    sink_name: LinePattern,
}

impl DumpPatterns {
    /// Each pattern was compiled from its own text.
    pub closed spec fn wf(&self) -> bool {
        &&& self.state.source() == state_pattern()
        &&& self.mute.source() == mute_pattern()
        &&& self.volume.source() == volume_pattern()
        &&& self.nick.source() == nick_pattern()
        &&& self.alias.source() == alias_pattern()
        &&& self.sink_name.source() == sink_name_pattern()
    }

    /// Compiles the line patterns; `None` when one of them does not compile.
    pub fn new() -> (r: Option<DumpPatterns>)
        ensures
            r is Some <==> patterns_compile(),
            r matches Some(p) ==> p.wf(),
    {
        let state = LinePattern::compile("^\\t+?State: (\\w+)");
        let mute = LinePattern::compile("^\\t+?Mute: (\\w+)");
        let volume = LinePattern::compile("^\\t+?Volume:\\s*(?:front-left|mono).*?\\d*?(\\d+?)%");
        let nick = LinePattern::compile("^\\t\\tnode\\.nick\\s=\\s\"([^\"]+?)\"");
        let alias = LinePattern::compile("^\\t\\tdevice\\.alias\\s=\\s\"([^\"]+?)\"");
        let sink_name = LinePattern::compile("^\\tName: (.+)$");
        match (state, mute, volume, nick, alias, sink_name) {
            (Some(state), Some(mute), Some(volume), Some(nick), Some(alias), Some(sink_name)) => {
                Some(DumpPatterns { state, mute, volume, nick, alias, sink_name })
            },
            _ => None,
        }
    }

    /// Matches every line pattern against `line`.
    pub fn captures(&self, line: &str) -> (r: LineCaptures)
        requires
            self.wf(),
        ensures
            r@ == line_captures(line@),
    {
        let trimmed = trim_end(line);
        LineCaptures {
            state: self.state.first_group(line),
            mute: self.mute.first_group(line),
            volume: self.volume.first_group(line),
            nick: self.nick.first_group(line),
            alias: self.alias.first_group(line),
            sink_name: self.sink_name.first_group(trimmed.as_str()),
        }
    }
}

} // verus!
