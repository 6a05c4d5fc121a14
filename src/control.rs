//! Decisions of the refresh loop and of the change listener, as state
//! machines: the caller performs each action and reports what happened.

use vstd::prelude::*;

use crate::text::{contains, contains_str, decimal, push_decimal, trim_end, trimmed_end};

verus! {

/// Settings read from the environment.
pub struct Config {
    /// Percentage by which one scroll step changes the volume.
    pub audio_delta: u8,
    /// Program started by a left click.
    pub volume_control_app: String,
    /// Whether the device name is shown at start.
    pub show_device_name: bool,
    /// Whether the protocol header is printed first.
    pub print_header: bool,
    /// Whether levels are forwarded to the level display.
    pub use_wob: bool,
}

/// Event code of a change notification.
pub const CHANGE_EVENT: u8 = 0;

/// What to do to the mixer before recomputing.
#[derive(PartialEq, Eq, Structural, Clone, Copy, Debug)]
pub enum MixerCommand {
    Nothing,
    ToggleMute,
    /// Change the volume by this many percent.
    AdjustVolume(i16),
    LaunchControlApp,
}

/// The answer to one event: a mixer command, and whether to recompute the status.
#[derive(PartialEq, Eq, Structural, Clone, Copy, Debug)]
pub struct EventPlan {
    pub command: MixerCommand,
    pub recompute: bool,
}

/// What to write after a recompute.
pub struct Emission {
    /// The status line, when it is to be written.
    pub line: Option<String>,
    /// The level, when it is to be sent to the level display.
    pub level: Option<u16>,
}

/// State of the refresh loop that lives as long as the loop.
pub struct Coordinator {
    pub show_device_name: bool,
    pub audio_delta: u8,
    pub previous_line: String,
    pub first_update: bool,
    pub last_volume: u16,
    pub level_display: bool,
}

/// Mathematical form of [`Coordinator`].
pub ghost struct CoordinatorModel {
    pub show_device_name: bool,
    pub audio_delta: u8,
    pub previous_line: Seq<char>,
    pub first_update: bool,
    pub last_volume: u16,
    pub level_display: bool,
}

impl View for Coordinator {
    type V = CoordinatorModel;

    open spec fn view(&self) -> CoordinatorModel {
        CoordinatorModel {
            show_device_name: self.show_device_name,
            audio_delta: self.audio_delta,
            previous_line: self.previous_line@,
            first_update: self.first_update,
            last_volume: self.last_volume,
            level_display: self.level_display,
        }
    }
}

/// The plan for an event: middle click toggles mute, scrolling up raises
/// and down lowers the volume by the delta, left click starts the control
/// program, right click toggles the device name; every event but the left
/// click recomputes, and so does any event before the first update.
pub open spec fn plan_for(st: CoordinatorModel, button: u8) -> EventPlan {
    if button == 2 {
        EventPlan { command: MixerCommand::ToggleMute, recompute: true }
    } else if button == 4 {
        EventPlan { command: MixerCommand::AdjustVolume(st.audio_delta as i16), recompute: true }
    } else if button == 5 {
        EventPlan {
            command: MixerCommand::AdjustVolume((-(st.audio_delta as int)) as i16),
            recompute: true,
        }
    } else if button == 1 {
        EventPlan { command: MixerCommand::LaunchControlApp, recompute: st.first_update }
    } else {
        EventPlan { command: MixerCommand::Nothing, recompute: true }
    }
}

/// The state after an event: a right click toggles the device name.
pub open spec fn after_event(st: CoordinatorModel, button: u8) -> CoordinatorModel {
    if button == 3 {
        CoordinatorModel { show_device_name: !st.show_device_name, ..st }
    } else {
        st
    }
}

/// Whether a recomputed line is written: when it differs from the last
/// written one, and always the first time.
pub open spec fn writes_line(st: CoordinatorModel, line: Seq<char>) -> bool {
    line != st.previous_line || st.first_update
}

/// Whether a recomputed level goes to the level display: when it is
/// attached, after the first update, and the level changed.
pub open spec fn forwards_level(st: CoordinatorModel, level: u16) -> bool {
    st.level_display && !st.first_update && level != st.last_volume
}

/// The state after a recompute.
pub open spec fn after_status(st: CoordinatorModel, line: Seq<char>, level: u16) -> CoordinatorModel {
    CoordinatorModel {
        previous_line: if writes_line(st, line) { line } else { st.previous_line },
        first_update: false,
        last_volume: level,
        ..st
    }
}

impl Coordinator {
    /// The state before the first event.
    pub fn new(config: &Config) -> (r: Coordinator)
        ensures
            r.show_device_name == config.show_device_name,
            r.audio_delta == config.audio_delta,
            r.previous_line@ == Seq::<char>::empty(),
            r.first_update,
            r.last_volume == 0,
            r.level_display == config.use_wob,
    {
        Coordinator {
            show_device_name: config.show_device_name,
            audio_delta: config.audio_delta,
            previous_line: String::new(),
            first_update: true,
            last_volume: 0,
            level_display: config.use_wob,
        }
    }

    /// Decides what an event leads to.
    pub fn on_event(&mut self, button: u8) -> (r: EventPlan)
        ensures
            r == plan_for(old(self)@, button),
            final(self)@ == after_event(old(self)@, button),
    {
        if button == 2 {
            EventPlan { command: MixerCommand::ToggleMute, recompute: true }
        } else if button == 4 {
            EventPlan { command: MixerCommand::AdjustVolume(self.audio_delta as i16), recompute: true }
        } else if button == 5 {
            EventPlan {
                command: MixerCommand::AdjustVolume(-(self.audio_delta as i16)),
                recompute: true,
            }
        } else if button == 1 {
            EventPlan { command: MixerCommand::LaunchControlApp, recompute: self.first_update }
        } else {
            if button == 3 {
                self.show_device_name = !self.show_device_name;
            }
            EventPlan { command: MixerCommand::Nothing, recompute: true }
        }
    }

    /// Decides what to write for a recomputed status line and level.
    pub fn on_status(&mut self, line: String, level: u16) -> (r: Emission)
        ensures
            final(self)@ == after_status(old(self)@, line@, level),
            r.line is Some <==> writes_line(old(self)@, line@),
            r.line matches Some(l) ==> l@ == line@,
            r.level == if forwards_level(old(self)@, level) { Some(level) } else { None::<u16> },
    {
        let forward = self.level_display && !self.first_update && level != self.last_volume;
        let write = !line.eq(&self.previous_line) || self.first_update;
        let out = if write {
            self.previous_line = line.clone();
            Some(line)
        } else {
            None
        };
        self.last_volume = level;
        self.first_update = false;
        Emission { line: out, level: if forward { Some(level) } else { None } }
    }

    /// The level display could not be written to: stop using it.
    pub fn level_display_failed(&mut self)
        ensures
            final(self)@ == (CoordinatorModel { level_display: false, ..old(self)@ }),
    {
        self.level_display = false;
    }
}

/// A recompute that gives the same line and level as the one before
/// writes nothing and sends no level, whatever came before it.
pub proof fn lemma_repeat_writes_nothing(st: CoordinatorModel, line: Seq<char>, level: u16)
    ensures
        !writes_line(after_status(st, line, level), line),
        !forwards_level(after_status(st, line, level), level),
        after_status(after_status(st, line, level), line, level) == after_status(st, line, level),
{
}

/// The argument that changes the volume by `delta` percent: a sign, the
/// amount and a percent sign; `None` for no change.
pub open spec fn volume_step_text(delta: int) -> Option<Seq<char>> {
    if delta == 0 {
        None
    } else if delta > 0 {
        Some(seq!['+'] + decimal(delta as nat) + seq!['%'])
    } else {
        Some(seq!['-'] + decimal((-delta) as nat) + seq!['%'])
    }
}

/// The argument that changes the volume by `delta` percent.
pub fn volume_step(delta: i16) -> (r: Option<String>)
    ensures
        match r {
            Some(t) => volume_step_text(delta as int) == Some(t@),
            None => volume_step_text(delta as int) is None,
        },
{
    if delta == 0 {
        return None;
    }
    let mut t = String::new();
    let amount: u16 = if delta > 0 {
        t.append("+");
        delta as u16
    } else {
        t.append("-");
        (-(delta as i32)) as u16
    };
    push_decimal(&mut t, amount);
    t.append("%");
    proof {
        reveal_strlit("+");
        reveal_strlit("-");
        reveal_strlit("%");
        assert(t@ =~= volume_step_text(delta as int)->Some_0);
    }
    Some(t)
}

/// Whether a line of the mixer's event stream reports a change.
pub fn is_change_event(line: &str) -> (r: bool)
    ensures
        r == contains(line@, "change"@),
{
    contains_str(line, "change")
}

/// The default sink named by the mixer's answer, without trailing white
/// space; `None` when nothing is left.
pub fn default_sink_from_answer(answer: &str) -> (r: Option<String>)
    ensures
        trimmed_end(answer@).len() == 0 ==> r is None,
        trimmed_end(answer@).len() > 0 ==> (r matches Some(n) && n@ == trimmed_end(answer@)),
{
    let name = trim_end(answer);
    if name.as_str().is_empty() {
        None
    } else {
        Some(name)
    }
}

/// The failures kept after a failure at `now`: those less than a second
/// (1000 ms) before it. A time after `now` counts as no time before it.
pub open spec fn recent_failures(times: Seq<u64>, now: u64) -> Seq<u64>
    decreases times.len(),
{
    if times.len() == 0 {
        Seq::empty()
    } else {
        let rest = recent_failures(times.drop_last(), now);
        let t = times.last();
        if t > now || now - t < 1000 {
            rest.push(t)
        } else {
            rest
        }
    }
}

/// Times, in milliseconds, at which starting the event stream failed.
pub struct SpawnFailures {
    pub times: Vec<u64>,
}

impl SpawnFailures {
    pub fn new() -> (r: SpawnFailures)
        ensures
            r.times@ == Seq::<u64>::empty(),
    {
        SpawnFailures { times: Vec::new() }
    }

    /// Records a failure at `now`, forgetting those a second or more
    /// before it; true when more than three remain, and the listener is to
    /// give up.
    pub fn record(&mut self, now: u64) -> (give_up: bool)
        ensures
            final(self).times@ == recent_failures(old(self).times@, now).push(now),
            give_up == (final(self).times@.len() > 3),
    {
        let mut kept: Vec<u64> = Vec::new();
        let mut i: usize = 0;
        while i < self.times.len()
            invariant
                i <= self.times@.len(),
                kept@ == recent_failures(self.times@.subrange(0, i as int), now),
            decreases self.times@.len() - i,
        {
            let t = self.times[i];
            proof {
                let next = self.times@.subrange(0, i + 1);
                assert(next.drop_last() =~= self.times@.subrange(0, i as int));
            }
            if t > now || now - t < 1000 {
                kept.push(t);
            }
            i = i + 1;
        }
        assert(self.times@.subrange(0, self.times@.len() as int) =~= self.times@);
        kept.push(now);
        self.times = kept;
        self.times.len() > 3
    }
}

} // verus!
