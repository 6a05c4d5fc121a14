//! The status bar's line protocol: click events in, header and status
//! objects out, written as JSON.

use vstd::prelude::*;

use crate::patterns::opt_view;
use crate::text::{decimal, push_decimal};

verus! {

/// A mouse click on the block, as the bar reports it.
pub struct Click {
    pub name: Option<String>,
    pub instance: Option<String>,
    pub button: u8,
    pub modifiers: Option<Vec<String>>,
    pub x: i16,
    pub y: i16,
    pub relative_x: i16,
    pub relative_y: i16,
    pub output_x: Option<i16>,
    pub output_y: Option<i16>,
    pub width: u16,
    pub height: u16,
}

/// The header sent once before the stream of status objects.
pub struct Header {
    pub version: u8,
    pub click_events: Option<bool>,
    pub stop_signal: Option<u8>,
    pub cont_signal: Option<u8>,
}

/// One status object of the bar.
pub struct Output {
    /// Ex: `E: 10.0.0.1 (1000 Mbit/s)`
    pub full_text: String,
    /// Ex: `10.0.0.1`
    pub short_text: Option<String>,
    /// Ex: `#00ff00`
    pub color: Option<String>,
    /// Ex: `#1c1c1c`
    pub background: Option<String>,
    /// Ex: `#ee0000`
    pub border: Option<String>,
    /// Ex: `1`
    pub border_top: Option<i16>,
    /// Ex: `0`
    pub border_right: Option<i16>,
    /// Ex: `3`
    pub border_bottom: Option<i16>,
    /// Ex: `1`
    pub border_left: Option<i16>,
    /// Ex: `300`
    pub min_width: Option<u16>,
    /// Ex: `right`
    pub align: Option<String>,
    /// Ex: `false`
    pub urgent: Option<bool>,
    /// Ex: `ethernet`
    pub name: Option<String>,
    /// Ex: `eth0`
    pub instance: Option<String>,
    /// Ex: `true`
    pub separator: Option<bool>,
    /// Ex: `9`
    pub separator_block_width: Option<u16>,
    /// Ex: `none`, `pango`
    pub markup: Option<String>,
}

impl Header {
    /// A header with the given version and nothing else.
    pub fn new(version: u8) -> (r: Header)
        ensures
            r.version == version,
            r.click_events is None,
            r.stop_signal is None,
            r.cont_signal is None,
    {
        Header { version, click_events: None, stop_signal: None, cont_signal: None }
    }
}

impl Output {
    /// An object with the given text and every other field absent.
    pub fn new(full_text: String) -> (r: Output)
        ensures
            r.full_text == full_text,
            r.has_only_text(),
    {
        Output {
            full_text,
            short_text: None,
            color: None,
            background: None,
            border: None,
            border_top: None,
            border_right: None,
            border_bottom: None,
            border_left: None,
            min_width: None,
            align: None,
            urgent: None,
            name: None,
            instance: None,
            separator: None,
            separator_block_width: None,
            markup: None,
        }
    }

    /// Every optional field but the short text and urgency is absent.
    pub open spec fn has_only_text(&self) -> bool {
        &&& self.color is None
        &&& self.background is None
        &&& self.border is None
        &&& self.border_top is None
        &&& self.border_right is None
        &&& self.border_bottom is None
        &&& self.border_left is None
        &&& self.min_width is None
        &&& self.align is None
        &&& self.name is None
        &&& self.instance is None
        &&& self.separator is None
        &&& self.separator_block_width is None
        &&& self.markup is None
        &&& self.short_text is None
        &&& self.urgent is None
    }
}

/// The JSON string literal that `serde_json` writes for `s`, or `None` when
/// it reports an error.
pub uninterp spec fn json_string(s: Seq<char>) -> Option<Seq<char>>;

/// Relies on `serde_json::to_string` on a `str`: the JSON string literal
/// for `s`, a function of `s` alone.
#[verifier::external_body]
fn quote(s: &str) -> (r: Option<String>)
    ensures
        r matches Some(t) ==> json_string(s@) == Some(t@),
        r is None ==> json_string(s@) is None,
{
    match serde_json::to_string(s) {
        Ok(t) => Some(t),
        Err(_) => None,
    }
}

/// `"key":value`
pub open spec fn member_text(m: (Seq<char>, Seq<char>)) -> Seq<char> {
    seq!['"'] + m.0 + seq!['"', ':'] + m.1
}

/// The members of an object, separated by commas.
pub open spec fn members_text(ms: Seq<(Seq<char>, Seq<char>)>) -> Seq<char>
    decreases ms.len(),
{
    if ms.len() == 0 {
        Seq::empty()
    } else if ms.len() == 1 {
        member_text(ms[0])
    } else {
        members_text(ms.drop_last()) + seq![','] + member_text(ms.last())
    }
}

/// A JSON object from keys and their already encoded values, in order.
pub open spec fn object_text(ms: Seq<(Seq<char>, Seq<char>)>) -> Seq<char> {
    seq!['{'] + members_text(ms) + seq!['}']
}

/// Views of key and encoded value pairs.
pub open spec fn member_views(ms: Seq<(String, String)>) -> Seq<(Seq<char>, Seq<char>)> {
    ms.map_values(|m: (String, String)| (m.0@, m.1@))
}

/// Writes a JSON object from keys and their already encoded values. The
/// keys are written as they are.
pub fn json_object(members: &Vec<(String, String)>) -> (r: String)
    ensures
        r@ == object_text(member_views(members@)),
{
    let ghost ms = member_views(members@);
    let mut out = String::from_str("{");
    proof {
        reveal_strlit("{");
        assert(ms.subrange(0, 0) =~= Seq::<(Seq<char>, Seq<char>)>::empty());
    }
    let mut i: usize = 0;
    while i < members.len()
        invariant
            ms == member_views(members@),
            i <= members.len(),
            out@ == seq!['{'] + members_text(ms.subrange(0, i as int)),
        decreases members.len() - i,
    {
        let ghost before = out@;
        if i > 0 {
            out.append(",");
        }
        out.append("\"");
        out.append(members[i].0.as_str());
        out.append("\":");
        out.append(members[i].1.as_str());
        proof {
            let next = ms.subrange(0, i + 1);
            assert(next.drop_last() =~= ms.subrange(0, i as int));
            assert(next.last() == (members@[i as int].0@, members@[i as int].1@));
            reveal_strlit(",");
            reveal_strlit("\"");
            reveal_strlit("\":");
            assert(","@ =~= seq![',']);
            assert("\""@ =~= seq!['"']);
            assert("\":"@ =~= seq!['"', ':']);
            let mt = member_text(next.last());
            if i == 0 {
                assert(members_text(next) == mt);
                assert(before =~= seq!['{']);
            } else {
                assert(members_text(next) == members_text(ms.subrange(0, i as int)) + seq![','] + mt);
            }
            assert(out@ =~= seq!['{'] + members_text(next));
        }
        i = i + 1;
    }
    out.append("}");
    proof {
        reveal_strlit("}");
    }
    assert(ms.subrange(0, members@.len() as int) =~= ms);
    out
}

/// Members so far plus `key` with the JSON literal of `v`, when `v` is
/// present; `None` once quoting has failed.
pub open spec fn with_text(
    acc: Option<Seq<(Seq<char>, Seq<char>)>>,
    key: Seq<char>,
    v: Option<Seq<char>>,
) -> Option<Seq<(Seq<char>, Seq<char>)>> {
    match acc {
        None => None,
        Some(ms) => match v {
            None => Some(ms),
            Some(t) => match json_string(t) {
                Some(q) => Some(ms.push((key, q))),
                None => None,
            },
        },
    }
}

/// Members so far plus `key` with the encoded value `v`, when `v` is present.
pub open spec fn with_value(
    acc: Option<Seq<(Seq<char>, Seq<char>)>>,
    key: Seq<char>,
    v: Option<Seq<char>>,
) -> Option<Seq<(Seq<char>, Seq<char>)>> {
    match acc {
        None => None,
        Some(ms) => match v {
            None => Some(ms),
            Some(t) => Some(ms.push((key, t))),
        },
    }
}

/// JSON number for an integer.
pub open spec fn int_text(n: int) -> Seq<char> {
    if n < 0 {
        seq!['-'] + decimal((-n) as nat)
    } else {
        decimal(n as nat)
    }
}

/// JSON literal for a boolean.
pub open spec fn bool_text(b: bool) -> Seq<char> {
    if b {
        "true"@
    } else {
        "false"@
    }
}

/// JSON number for an optional integer.
pub open spec fn opt_int_text(v: Option<int>) -> Option<Seq<char>> {
    match v {
        Some(n) => Some(int_text(n)),
        None => None,
    }
}

/// JSON literal for an optional boolean.
pub open spec fn opt_bool_text(v: Option<bool>) -> Option<Seq<char>> {
    match v {
        Some(b) => Some(bool_text(b)),
        None => None,
    }
}

/// An optional `i16` as an optional integer.
pub open spec fn opt_i16_int(v: Option<i16>) -> Option<int> {
    match v {
        Some(n) => Some(n as int),
        None => None,
    }
}

/// An optional `u16` as an optional integer.
pub open spec fn opt_u16_int(v: Option<u16>) -> Option<int> {
    match v {
        Some(n) => Some(n as int),
        None => None,
    }
}

/// An optional `u8` as an optional integer.
pub open spec fn opt_u8_int(v: Option<u8>) -> Option<int> {
    match v {
        Some(n) => Some(n as int),
        None => None,
    }
}

/// The members of a status object in field order, absent fields left out;
/// `None` when a string could not be quoted.
pub open spec fn output_members(o: Output) -> Option<Seq<(Seq<char>, Seq<char>)>> {
    let m = with_text(Some(Seq::empty()), "full_text"@, Some(o.full_text@));
    let m = with_text(m, "short_text"@, opt_view(o.short_text));
    let m = with_text(m, "color"@, opt_view(o.color));
    let m = with_text(m, "background"@, opt_view(o.background));
    let m = with_text(m, "border"@, opt_view(o.border));
    let m = with_value(m, "border_top"@, opt_int_text(opt_i16_int(o.border_top)));
    let m = with_value(m, "border_right"@, opt_int_text(opt_i16_int(o.border_right)));
    let m = with_value(m, "border_bottom"@, opt_int_text(opt_i16_int(o.border_bottom)));
    let m = with_value(m, "border_left"@, opt_int_text(opt_i16_int(o.border_left)));
    let m = with_value(m, "min_width"@, opt_int_text(opt_u16_int(o.min_width)));
    let m = with_text(m, "align"@, opt_view(o.align));
    let m = with_value(m, "urgent"@, opt_bool_text(o.urgent));
    let m = with_text(m, "name"@, opt_view(o.name));
    let m = with_text(m, "instance"@, opt_view(o.instance));
    let m = with_value(m, "separator"@, opt_bool_text(o.separator));
    let m = with_value(
        m,
        "separator_block_width"@,
        opt_int_text(opt_u16_int(o.separator_block_width)),
    );
    with_text(m, "markup"@, opt_view(o.markup))
}

/// The JSON text of a status object, or `None` when a string could not be quoted.
pub open spec fn output_json(o: Output) -> Option<Seq<char>> {
    match output_members(o) {
        Some(ms) => Some(object_text(ms)),
        None => None,
    }
}

/// The members of a header in field order, absent fields left out.
pub open spec fn header_members(h: Header) -> Seq<(Seq<char>, Seq<char>)> {
    let m = with_value(Some(Seq::empty()), "version"@, Some(int_text(h.version as int)));
    let m = with_value(m, "click_events"@, opt_bool_text(h.click_events));
    let m = with_value(m, "stop_signal"@, opt_int_text(opt_u8_int(h.stop_signal)));
    let m = with_value(m, "cont_signal"@, opt_int_text(opt_u8_int(h.cont_signal)));
    m->Some_0
}

fn int_string(n: i32) -> (r: String)
    requires
        -0x10000 < n < 0x10000,
    ensures
        r@ == int_text(n as int),
{
    let mut s = String::new();
    if n < 0 {
        s.append("-");
        proof {
            reveal_strlit("-");
        }
        push_decimal(&mut s, (-n) as u16);
    } else {
        push_decimal(&mut s, n as u16);
    }
    s
}

fn bool_string(b: bool) -> (r: String)
    ensures
        r@ == bool_text(b),
{
    if b {
        String::from_str("true")
    } else {
        String::from_str("false")
    }
}

fn add_text(ms: &mut Vec<(String, String)>, key: &str, v: &Option<String>) -> (ok: bool)
    ensures
        with_text(Some(member_views(old(ms)@)), key@, opt_view(*v)) == if ok {
            Some(member_views(final(ms)@))
        } else {
            None::<Seq<(Seq<char>, Seq<char>)>>
        },
{
    match v {
        None => true,
        Some(t) => match quote(t.as_str()) {
            Some(q) => {
                let ghost before = ms@;
                ms.push((String::from_str(key), q));
                assert(member_views(ms@) =~= member_views(before).push((key@, q@)));
                true
            },
            None => false,
        },
    }
}

fn add_value(ms: &mut Vec<(String, String)>, key: &str, v: Option<String>)
    ensures
        with_value(Some(member_views(old(ms)@)), key@, opt_view(v)) == Some(
            member_views(final(ms)@),
        ),
{
    match v {
        None => {},
        Some(t) => {
            let ghost before = ms@;
            let ghost tv = t@;
            ms.push((String::from_str(key), t));
            assert(member_views(ms@) =~= member_views(before).push((key@, tv)));
        },
    }
}

fn opt_i16_string(v: Option<i16>) -> (r: Option<String>)
    ensures
        opt_view(r) == opt_int_text(opt_i16_int(v)),
{
    match v {
        Some(n) => Some(int_string(n as i32)),
        None => None,
    }
}

fn opt_u16_string(v: Option<u16>) -> (r: Option<String>)
    ensures
        opt_view(r) == opt_int_text(opt_u16_int(v)),
{
    match v {
        Some(n) => Some(int_string(n as i32)),
        None => None,
    }
}

fn opt_u8_string(v: Option<u8>) -> (r: Option<String>)
    ensures
        opt_view(r) == opt_int_text(opt_u8_int(v)),
{
    match v {
        Some(n) => Some(int_string(n as i32)),
        None => None,
    }
}

fn opt_bool_string(v: Option<bool>) -> (r: Option<String>)
    ensures
        opt_view(r) == opt_bool_text(v),
{
    match v {
        Some(b) => Some(bool_string(b)),
        None => None,
    }
}

impl Output {
    /// The object as one line of JSON: its fields in order, absent ones
    /// left out. `None` when a string could not be quoted.
    pub fn to_json(&self) -> (r: Option<String>)
        ensures
            match r {
                Some(j) => output_json(*self) == Some(j@),
                None => output_json(*self) is None,
            },
    {
        let mut ms: Vec<(String, String)> = Vec::new();
        proof {
            assert(member_views(ms@) =~= Seq::<(Seq<char>, Seq<char>)>::empty());
        }
        if !add_text(&mut ms, "full_text", &Some(self.full_text.clone())) {
            return None;
        }
        if !add_text(&mut ms, "short_text", &self.short_text) {
            return None;
        }
        if !add_text(&mut ms, "color", &self.color) {
            return None;
        }
        if !add_text(&mut ms, "background", &self.background) {
            return None;
        }
        if !add_text(&mut ms, "border", &self.border) {
            return None;
        }
        add_value(&mut ms, "border_top", opt_i16_string(self.border_top));
        add_value(&mut ms, "border_right", opt_i16_string(self.border_right));
        add_value(&mut ms, "border_bottom", opt_i16_string(self.border_bottom));
        add_value(&mut ms, "border_left", opt_i16_string(self.border_left));
        add_value(&mut ms, "min_width", opt_u16_string(self.min_width));
        if !add_text(&mut ms, "align", &self.align) {
            return None;
        }
        add_value(&mut ms, "urgent", opt_bool_string(self.urgent));
        if !add_text(&mut ms, "name", &self.name) {
            return None;
        }
        if !add_text(&mut ms, "instance", &self.instance) {
            return None;
        }
        add_value(&mut ms, "separator", opt_bool_string(self.separator));
        add_value(&mut ms, "separator_block_width", opt_u16_string(self.separator_block_width));
        if !add_text(&mut ms, "markup", &self.markup) {
            return None;
        }
        Some(json_object(&ms))
    }
}

impl Header {
    /// The header as one line of JSON: its fields in order, absent ones left out.
    pub fn to_json(&self) -> (r: String)
        ensures
            r@ == object_text(header_members(*self)),
    {
        let mut ms: Vec<(String, String)> = Vec::new();
        proof {
            assert(member_views(ms@) =~= Seq::<(Seq<char>, Seq<char>)>::empty());
        }
        add_value(&mut ms, "version", Some(int_string(self.version as i32)));
        add_value(&mut ms, "click_events", opt_bool_string(self.click_events));
        add_value(&mut ms, "stop_signal", opt_u8_string(self.stop_signal));
        add_value(&mut ms, "cont_signal", opt_u8_string(self.cont_signal));
        json_object(&ms)
    }
}

} // verus!
