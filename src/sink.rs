//! Sink records: parsing the mixer's dump and choosing the sink to report.

use vstd::prelude::*;

use crate::patterns::{line_captures, opt_view, CapturesModel, DumpPatterns, LineCaptures};
use crate::text::{is_prefix, parse_u16, parsed_u16, starts_with, string_views};

verus! {

/// One audio sink as read from its block of the dump.
pub struct Sink {
    pub volume_percent: u16,
    pub device_name: String,
    pub mute: bool,
    pub active: bool,
    pub got_mute: bool,
    pub got_volume: bool,
    pub got_device_name: bool,
    pub sink_name: String,
    pub got_sink_name: bool,
}

/// Mathematical form of [`Sink`].
pub ghost struct SinkModel {
    pub volume_percent: u16,
    pub device_name: Seq<char>,
    pub mute: bool,
    pub active: bool,
    pub got_mute: bool,
    pub got_volume: bool,
    pub got_device_name: bool,
    pub sink_name: Seq<char>,
    pub got_sink_name: bool,
}

impl View for Sink {
    type V = SinkModel;

    open spec fn view(&self) -> SinkModel {
        SinkModel {
            volume_percent: self.volume_percent,
            device_name: self.device_name@,
            mute: self.mute,
            active: self.active,
            got_mute: self.got_mute,
            got_volume: self.got_volume,
            got_device_name: self.got_device_name,
            sink_name: self.sink_name@,
            got_sink_name: self.got_sink_name,
        }
    }
}

/// A record with nothing captured yet.
pub open spec fn empty_sink() -> SinkModel {
    SinkModel {
        volume_percent: 0,
        device_name: Seq::empty(),
        mute: false,
        active: false,
        got_mute: false,
        got_volume: false,
        got_device_name: false,
        sink_name: Seq::empty(),
        got_sink_name: false,
    }
}

/// The volume that a captured percentage stands for; zero when it is not a `u16`.
pub open spec fn percent_value(g: Seq<char>) -> u16 {
    match parsed_u16(g) {
        Some(v) => v,
        None => 0,
    }
}

/// Takes the sink name from `c` unless one was captured already.
pub open spec fn read_sink_name(s: SinkModel, c: CapturesModel) -> SinkModel {
    if !s.got_sink_name && c.sink_name is Some {
        SinkModel { sink_name: c.sink_name->Some_0, got_sink_name: true, ..s }
    } else {
        s
    }
}

/// The record after one line of its block, given what the patterns captured
/// there. The state is taken every time; every other field only while it
/// has not been captured.
pub open spec fn read_fields(s: SinkModel, c: CapturesModel) -> SinkModel {
    if c.state is Some {
        SinkModel { active: c.state->Some_0 == "RUNNING"@, ..s }
    } else if !s.got_mute && c.mute is Some {
        SinkModel { mute: c.mute->Some_0 == "yes"@, got_mute: true, ..s }
    } else if !s.got_volume && c.volume is Some {
        SinkModel { volume_percent: percent_value(c.volume->Some_0), got_volume: true, ..s }
    } else if !s.got_device_name && c.nick is Some {
        SinkModel {
            device_name: c.nick->Some_0,
            got_device_name: c.nick->Some_0.len() > 0,
            ..s
        }
    } else if !s.got_device_name && c.alias is Some {
        read_sink_name(
            SinkModel {
                device_name: c.alias->Some_0,
                got_device_name: c.alias->Some_0.len() > 0,
                ..s
            },
            c,
        )
    } else {
        read_sink_name(s, c)
    }
}

impl Sink {
    /// A record with nothing captured yet.
    pub fn new() -> (r: Sink)
        ensures
            r@ == empty_sink(),
    {
        Sink {
            volume_percent: 0,
            device_name: String::new(),
            mute: false,
            active: false,
            got_mute: false,
            got_volume: false,
            got_device_name: false,
            sink_name: String::new(),
            got_sink_name: false,
        }
    }

    /// Reverts all fields to the default state.
    pub fn clear(&mut self)
        ensures
            final(self)@ == empty_sink(),
    {
        self.volume_percent = 0;
        self.device_name = String::new();
        self.mute = false;
        self.active = false;
        self.got_mute = false;
        self.got_device_name = false;
        self.got_volume = false;
        self.sink_name = String::new();
        self.got_sink_name = false;
    }

    fn take_sink_name(&mut self, c: &LineCaptures)
        ensures
            final(self)@ == read_sink_name(old(self)@, c@),
    {
        if !self.got_sink_name {
            match &c.sink_name {
                Some(n) => {
                    self.sink_name = n.clone();
                    self.got_sink_name = true;
                },
                None => {},
            }
        }
    }

    /// Reads one line of this sink's block, given what the line patterns
    /// captured on it.
    pub fn read_captures(&mut self, c: &LineCaptures)
        ensures
            final(self)@ == read_fields(old(self)@, c@),
    {
        proof {
            reveal_strlit("RUNNING");
            reveal_strlit("yes");
        }
        if let Some(state) = &c.state {
            let running = String::from_str("RUNNING");
            self.active = state.eq(&running);
            return;
        }
        if !self.got_mute {
            if let Some(m) = &c.mute {
                let yes = String::from_str("yes");
                self.mute = m.eq(&yes);
                self.got_mute = true;
                return;
            }
        }
        if !self.got_volume {
            if let Some(v) = &c.volume {
                self.volume_percent = match parse_u16(v.as_str()) {
                    Some(p) => p,
                    None => 0,
                };
                self.got_volume = true;
                return;
            }
        }
        if !self.got_device_name {
            if let Some(n) = &c.nick {
                self.device_name = n.clone();
                self.got_device_name = !n.as_str().is_empty();
                return;
            } else if let Some(n) = &c.alias {
                self.device_name = n.clone();
                self.got_device_name = !n.as_str().is_empty();
            }
        }
        self.take_sink_name(c);
    }
}

/// The records of a list of sinks.
pub open spec fn models(sinks: Seq<Sink>) -> Seq<SinkModel> {
    sinks.map_values(|s: Sink| s@)
}

/// Whether `line` opens the block of a new sink.
pub open spec fn is_block_start(line: Seq<char>) -> bool {
    is_prefix("Sink"@, line)
}

/// Where the parser stands after a prefix of the dump: the records closed
/// so far, the record being read (if a block was opened), and whether the
/// pass has stopped.
pub ghost struct ParseModel {
    pub sinks: Seq<SinkModel>,
    pub current: Option<SinkModel>,
    pub stopped: bool,
}

/// The parser before the first line.
pub open spec fn parse_start() -> ParseModel {
    ParseModel { sinks: Seq::empty(), current: None, stopped: false }
}

/// One line of the dump. A block start closes the open record; with
/// `early_stop`, when that record is active the pass stops there, since no
/// later record can be chosen over it. Lines before the first block start
/// belong to no record.
pub open spec fn parse_step(st: ParseModel, line: Seq<char>, early_stop: bool) -> ParseModel {
    if st.stopped {
        st
    } else if is_block_start(line) {
        match st.current {
            None => ParseModel { current: Some(empty_sink()), ..st },
            Some(c) => if early_stop && c.active {
                ParseModel { sinks: st.sinks.push(c), current: None, stopped: true }
            } else {
                ParseModel { sinks: st.sinks.push(c), current: Some(empty_sink()), stopped: false }
            },
        }
    } else {
        match st.current {
            None => st,
            Some(c) => ParseModel { current: Some(read_fields(c, line_captures(line))), ..st },
        }
    }
}

/// The parser after all of `lines`.
pub open spec fn parse_prefix(lines: Seq<Seq<char>>, early_stop: bool) -> ParseModel
    decreases lines.len(),
{
    if lines.len() == 0 {
        parse_start()
    } else {
        parse_step(parse_prefix(lines.drop_last(), early_stop), lines.last(), early_stop)
    }
}

/// The records when the parser has read `lines`: those closed, and the
/// open one, closed at the end of input.
pub open spec fn records_of(st: ParseModel) -> Seq<SinkModel> {
    match st.current {
        Some(c) => st.sinks.push(c),
        None => st.sinks,
    }
}

/// The sink records of a dump, in dump order, up to the first record that
/// is active when its block ends.
pub open spec fn parsed_sinks(lines: Seq<Seq<char>>) -> Seq<SinkModel> {
    records_of(parse_prefix(lines, true))
}

/// Every sink record of a dump, in dump order.
pub open spec fn all_sinks(lines: Seq<Seq<char>>) -> Seq<SinkModel> {
    records_of(parse_prefix(lines, false))
}

proof fn lemma_stopped_stays(lines: Seq<Seq<char>>, k: int)
    requires
        0 <= k <= lines.len(),
        parse_prefix(lines.subrange(0, k), true).stopped,
    ensures
        parse_prefix(lines, true) == parse_prefix(lines.subrange(0, k), true),
    decreases lines.len(),
{
    if k < lines.len() {
        assert(lines.drop_last().subrange(0, k) =~= lines.subrange(0, k));
        lemma_stopped_stays(lines.drop_last(), k);
    } else {
        assert(lines.subrange(0, k) =~= lines);
    }
}

/// Parses the sink dump, one line after another.
pub fn parse_sinks(patterns: &DumpPatterns, lines: &Vec<String>) -> (r: Vec<Sink>)
    requires
        patterns.wf(),
    ensures
        models(r@) == parsed_sinks(string_views(lines@)),
{
    let ghost all = string_views(lines@);
    let mut sinks: Vec<Sink> = Vec::new();
    let mut sink = Sink::new();
    let mut got_sink = false;
    let mut i: usize = 0;
    proof {
        reveal_strlit("Sink");
        assert(all.subrange(0, 0) =~= Seq::<Seq<char>>::empty());
        assert(models(sinks@) =~= Seq::<SinkModel>::empty());
    }
    while i < lines.len()
        invariant
            patterns.wf(),
            all == string_views(lines@),
            i <= lines.len(),
            !parse_prefix(all.subrange(0, i as int), true).stopped,
            models(sinks@) == parse_prefix(all.subrange(0, i as int), true).sinks,
            got_sink == parse_prefix(all.subrange(0, i as int), true).current is Some,
            got_sink ==> parse_prefix(all.subrange(0, i as int), true).current == Some(sink@),
        decreases lines.len() - i,
    {
        let line = &lines[i];
        let ghost pre = all.subrange(0, i as int);
        let ghost next = all.subrange(0, i + 1);
        assert(next.drop_last() =~= pre);
        assert(next.last() == line@);
        if starts_with(line.as_str(), "Sink") {
            if got_sink {
                let active = sink.active;
                let closed = sink;
                sinks.push(closed);
                sink = Sink::new();
                assert(models(sinks@) =~= parse_prefix(pre, true).sinks.push(closed@));
                if active {
                    proof {
                        lemma_stopped_stays(all, i + 1);
                        assert(all.subrange(0, lines@.len() as int) =~= all);
                    }
                    return sinks;
                }
            } else {
                sink = Sink::new();
            }
            got_sink = true;
        } else if got_sink {
            let c = patterns.captures(line.as_str());
            sink.read_captures(&c);
        }
        i = i + 1;
    }
    proof {
        assert(all.subrange(0, lines@.len() as int) =~= all);
    }
    if got_sink {
        let ghost before = sinks@;
        sinks.push(sink);
        assert(models(sinks@) =~= models(before).push(sinks@.last()@));
    }
    sinks
}

/// Whether `i` is the first active record of `s`.
pub open spec fn is_first_active(s: Seq<SinkModel>, i: int) -> bool {
    &&& 0 <= i < s.len()
    &&& s[i].active
    &&& forall|j: int| 0 <= j < i ==> !(#[trigger] s[j]).active
}

/// The position of the first active record of `s`, if any.
pub open spec fn first_active(s: Seq<SinkModel>) -> Option<int> {
    if exists|i: int| is_first_active(s, i) {
        Some(choose|i: int| is_first_active(s, i))
    } else {
        None
    }
}

/// Whether `i` is the first record of `s` whose sink name is `name`.
pub open spec fn is_first_named(s: Seq<SinkModel>, name: Seq<char>, i: int) -> bool {
    &&& 0 <= i < s.len()
    &&& s[i].sink_name == name
    &&& forall|j: int| 0 <= j < i ==> (#[trigger] s[j]).sink_name != name
}

/// The position of the first record of `s` named `name`, if any.
pub open spec fn first_named(s: Seq<SinkModel>, name: Seq<char>) -> Option<int> {
    if exists|i: int| is_first_named(s, name, i) {
        Some(choose|i: int| is_first_named(s, name, i))
    } else {
        None
    }
}

/// The record to report: the first active one; else the first whose sink
/// name is the default sink; else the first; `None` for no records.
pub open spec fn selection(s: Seq<SinkModel>, default_sink: Option<Seq<char>>) -> Option<int> {
    if first_active(s) is Some {
        first_active(s)
    } else if default_sink is Some && first_named(s, default_sink->Some_0) is Some {
        first_named(s, default_sink->Some_0)
    } else if s.len() > 0 {
        Some(0)
    } else {
        None
    }
}

proof fn lemma_first_active_is(s: Seq<SinkModel>, i: int)
    requires
        is_first_active(s, i),
    ensures
        first_active(s) == Some(i),
{
    let k = choose|k: int| is_first_active(s, k);
    if k < i {
        assert(!s[k].active);
    } else if i < k {
        assert(!s[i].active);
    }
}

proof fn lemma_first_named_is(s: Seq<SinkModel>, name: Seq<char>, i: int)
    requires
        is_first_named(s, name, i),
    ensures
        first_named(s, name) == Some(i),
{
    let k = choose|k: int| is_first_named(s, name, k);
    if k < i {
        assert(s[k].sink_name != name);
    } else if i < k {
        assert(s[i].sink_name != name);
    }
}

fn find_named(sinks: &Vec<Sink>, name: &String) -> (r: Option<usize>)
    ensures
        match r {
            Some(k) => first_named(models(sinks@), name@) == Some(k as int),
            None => first_named(models(sinks@), name@) is None,
        },
{
    let ghost s = models(sinks@);
    let mut k: usize = 0;
    while k < sinks.len()
        invariant
            s == models(sinks@),
            k <= sinks.len(),
            forall|j: int| 0 <= j < k ==> (#[trigger] s[j]).sink_name != name@,
        decreases sinks.len() - k,
    {
        if sinks[k].sink_name.eq(name) {
            proof {
                assert(s[k as int].sink_name == name@);
                lemma_first_named_is(s, name@, k as int);
            }
            return Some(k);
        }
        k = k + 1;
    }
    None
}

/// Picks the sink to report, as [`selection`] says.
pub fn select_sink(sinks: &Vec<Sink>, default_sink: &Option<String>) -> (r: Option<usize>)
    ensures
        match r {
            Some(i) => selection(models(sinks@), opt_view(*default_sink)) == Some(i as int),
            None => selection(models(sinks@), opt_view(*default_sink)) is None,
        },
{
    let ghost s = models(sinks@);
    let mut i: usize = 0;
    while i < sinks.len()
        invariant
            s == models(sinks@),
            i <= sinks.len(),
            forall|j: int| 0 <= j < i ==> !(#[trigger] s[j]).active,
        decreases sinks.len() - i,
    {
        if sinks[i].active {
            proof {
                lemma_first_active_is(s, i as int);
            }
            return Some(i);
        }
        i = i + 1;
    }
    assert(first_active(s) is None);
    match default_sink {
        Some(d) => {
            if let Some(k) = find_named(sinks, d) {
                return Some(k);
            }
        },
        None => {},
    }
    if sinks.len() > 0 {
        Some(0)
    } else {
        None
    }
}

proof fn lemma_no_block_start_prefix(lines: Seq<Seq<char>>)
    requires
        forall|i: int| 0 <= i < lines.len() ==> !is_block_start(#[trigger] lines[i]),
    ensures
        parse_prefix(lines, true) == parse_start(),
    decreases lines.len(),
{
    if lines.len() > 0 {
        lemma_no_block_start_prefix(lines.drop_last());
        assert(!is_block_start(lines[lines.len() - 1]));
    }
}

/// A dump without a block-start line has no sink records, and then no
/// record is selected, whatever the default sink.
pub proof fn lemma_no_block_start_no_sinks(lines: Seq<Seq<char>>, default_sink: Option<Seq<char>>)
    requires
        forall|i: int| 0 <= i < lines.len() ==> !is_block_start(#[trigger] lines[i]),
    ensures
        parsed_sinks(lines) == Seq::<SinkModel>::empty(),
        selection(parsed_sinks(lines), default_sink) is None,
{
    lemma_no_block_start_prefix(lines);
    let s = parsed_sinks(lines);
    assert(!(exists|i: int| is_first_active(s, i)));
}

/// When exactly one record is active, that record is selected, wherever it
/// stands and whatever the default sink.
pub proof fn lemma_active_sink_selected(s: Seq<SinkModel>, i: int, default_sink: Option<Seq<char>>)
    requires
        0 <= i < s.len(),
        s[i].active,
        forall|j: int| 0 <= j < s.len() && j != i ==> !(#[trigger] s[j]).active,
    ensures
        selection(s, default_sink) == Some(i),
{
    lemma_first_active_is(s, i);
}

proof fn lemma_first_named_exists(s: Seq<SinkModel>, name: Seq<char>, k: int)
    requires
        0 <= k < s.len(),
        s[k].sink_name == name,
    ensures
        first_named(s, name) matches Some(i) && is_first_named(s, name, i),
    decreases k,
{
    if exists|j: int| 0 <= j < k && (#[trigger] s[j]).sink_name == name {
        let j = choose|j: int| 0 <= j < k && (#[trigger] s[j]).sink_name == name;
        lemma_first_named_exists(s, name, j);
    } else {
        lemma_first_named_is(s, name, k);
    }
}

/// With no active record, the first record named after the default sink is
/// selected when there is one.
pub proof fn lemma_default_sink_selected(s: Seq<SinkModel>, name: Seq<char>, k: int)
    requires
        forall|j: int| 0 <= j < s.len() ==> !(#[trigger] s[j]).active,
        0 <= k < s.len(),
        s[k].sink_name == name,
    ensures
        selection(s, Some(name)) matches Some(i) && is_first_named(s, name, i),
{
    assert(!(exists|i: int| is_first_active(s, i)));
    lemma_first_named_exists(s, name, k);
}

/// With no active record and no record named after the default sink, the
/// first record is selected.
pub proof fn lemma_first_sink_fallback(s: Seq<SinkModel>, default_sink: Option<Seq<char>>)
    requires
        s.len() > 0,
        forall|j: int| 0 <= j < s.len() ==> !(#[trigger] s[j]).active,
        default_sink matches Some(d) ==> forall|j: int|
            0 <= j < s.len() ==> (#[trigger] s[j]).sink_name != d,
    ensures
        selection(s, default_sink) == Some(0int),
{
    assert(!(exists|i: int| is_first_active(s, i)));
    if let Some(d) = default_sink {
        assert(!(exists|i: int| is_first_named(s, d, i)));
    }
}

proof fn lemma_early_stop_prefix(lines: Seq<Seq<char>>)
    ensures
        !parse_prefix(lines, false).stopped,
        !parse_prefix(lines, true).stopped ==> parse_prefix(lines, true) == parse_prefix(lines, false),
        !parse_prefix(lines, true).stopped ==> forall|j: int|
            0 <= j < parse_prefix(lines, true).sinks.len() ==> !(
            #[trigger] parse_prefix(lines, true).sinks[j]).active,
        parse_prefix(lines, true).stopped ==> ({
            let a = parse_prefix(lines, true).sinks;
            let b = parse_prefix(lines, false).sinks;
            &&& parse_prefix(lines, true).current is None
            &&& 0 < a.len() <= b.len()
            &&& b.subrange(0, a.len() as int) == a
            &&& a.last().active
            &&& forall|j: int| 0 <= j < a.len() - 1 ==> !(#[trigger] a[j]).active
        }),
    decreases lines.len(),
{
    if lines.len() > 0 {
        let rest = lines.drop_last();
        lemma_early_stop_prefix(rest);
        let a0 = parse_prefix(rest, true);
        let b0 = parse_prefix(rest, false);
        let a = parse_prefix(lines, true);
        let b = parse_prefix(lines, false);
        if a0.stopped {
            let n = a0.sinks.len() as int;
            assert(a == a0);
            assert(b.sinks.len() >= b0.sinks.len());
            assert(b.sinks.subrange(0, n) =~= b0.sinks.subrange(0, n));
        } else if a.stopped {
            assert(a.sinks =~= b.sinks);
            assert(forall|j: int| 0 <= j < a.sinks.len() - 1 ==> a.sinks[j] == a0.sinks[j]);
        } else {
            assert(forall|j: int| 0 <= j < a0.sinks.len() ==> a.sinks[j] == a0.sinks[j]);
        }
    }
}

/// Stopping at the first record that is active when its block ends loses
/// nothing: the records read are the first records of the whole dump, and
/// the same record is selected from them as from all records.
pub proof fn lemma_early_stop_keeps_selection(lines: Seq<Seq<char>>, default_sink: Option<Seq<char>>)
    ensures
        parsed_sinks(lines).len() <= all_sinks(lines).len(),
        all_sinks(lines).subrange(0, parsed_sinks(lines).len() as int) == parsed_sinks(lines),
        selection(parsed_sinks(lines), default_sink) == selection(all_sinks(lines), default_sink),
{
    lemma_early_stop_prefix(lines);
    let a = parse_prefix(lines, true);
    let b = parse_prefix(lines, false);
    if a.stopped {
        let p = parsed_sinks(lines);
        let f = all_sinks(lines);
        let n = p.len() as int;
        assert(p == a.sinks);
        assert(f.subrange(0, n) =~= b.sinks.subrange(0, n));
        assert(forall|j: int| 0 <= j < n ==> f[j] == p[j]) by {
            assert forall|j: int| 0 <= j < n implies f[j] == p[j] by {
                assert(f.subrange(0, n)[j] == f[j]);
            }
        }
        lemma_first_active_is(p, n - 1);
        lemma_first_active_is(f, n - 1);
    } else {
        assert(all_sinks(lines).subrange(0, parsed_sinks(lines).len() as int) =~= parsed_sinks(lines));
    }
}

} // verus!
