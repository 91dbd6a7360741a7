//! Command parameter objects: plain records whose optional fields are the
//! writable parameters of each light command, each with a flattening step
//! that turns the populated fields into the ordered key/value text pairs
//! sent as a form-encoded request body.
//!
//! Every field is optional: an absent field is left out of the flattened
//! list entirely, a present one contributes exactly one pair, and the pairs
//! come in field declaration order. Booleans render as lowercase `true` /
//! `false` and integers as plain decimal numerals. Fields that carry a
//! fractional quantity hold the numeral as text, exactly as it should
//! appear on the wire.

use vstd::prelude::*;

use crate::numerals::spec_bool_text;
use crate::numerals::spec_int_dec;
use crate::numerals::bool_to_string;
use crate::numerals::i64_to_string;
use crate::json::spec_json_string;
use crate::json::push_json_string;

verus! {

/// The pairs contributed by an optional text field: one pair holding the
/// text itself when present, nothing when absent.
pub open spec fn text_pairs(key: Seq<char>, v: Option<String>) -> Seq<(Seq<char>, Seq<char>)> {
    match v {
        Option::Some(s) => seq![(key, s@)],
        Option::None => Seq::empty(),
    }
}

/// The pairs contributed by an optional integer field, rendered in decimal.
pub open spec fn int_pairs(key: Seq<char>, v: Option<i64>) -> Seq<(Seq<char>, Seq<char>)> {
    match v {
        Option::Some(n) => seq![(key, spec_int_dec(n as int))],
        Option::None => Seq::empty(),
    }
}

/// The pairs contributed by an optional boolean field, rendered lowercase.
pub open spec fn bool_pairs(key: Seq<char>, v: Option<bool>) -> Seq<(Seq<char>, Seq<char>)> {
    match v {
        Option::Some(b) => seq![(key, spec_bool_text(b))],
        Option::None => Seq::empty(),
    }
}

/// A string in double quotes, as it appears inside the palette list.
pub open spec fn spec_quoted(s: Seq<char>) -> Seq<char> {
    seq!['"'] + s + seq!['"']
}

/// The entries after the first in the palette rendering: each one preceded
/// by a comma and a space, in double quotes.
pub open spec fn spec_palette_tail(items: Seq<Seq<char>>) -> Seq<char>
    decreases items.len(),
{
    if items.len() == 0 {
        Seq::empty()
    } else {
        ", "@ + spec_quoted(items[0]) + spec_palette_tail(items.drop_first())
    }
}

/// The bespoke bracketed, comma-separated, double-quoted rendering of a list
/// of color names, e.g. `["red", "green"]`. This exact format is what the
/// vendor endpoint parses; it is not a standard JSON array encoding. An
/// empty list renders as the empty bracket pair.
pub open spec fn spec_palette_text(items: Seq<Seq<char>>) -> Seq<char> {
    if items.len() == 0 {
        "[]"@
    } else {
        "[\""@ + items[0] + "\""@ + spec_palette_tail(items.drop_first()) + "]"@
    }
}

/// The pairs contributed by the optional palette field.
pub open spec fn palette_pairs(key: Seq<char>, v: Option<Vec<String>>) -> Seq<
    (Seq<char>, Seq<char>),
> {
    match v {
        Option::Some(items) => seq![(key, spec_palette_text(items.deep_view()))],
        Option::None => Seq::empty(),
    }
}

proof fn lemma_palette_tail_push(s: Seq<Seq<char>>, x: Seq<char>)
    ensures
        spec_palette_tail(s.push(x)) == spec_palette_tail(s) + ", "@ + spec_quoted(x),
    decreases s.len(),
{
    reveal_strlit(", ");
    reveal_with_fuel(spec_palette_tail, 3);
    if s.len() == 0 {
        assert(s.push(x)[0] == x);
        assert(s.push(x).drop_first() =~= Seq::<Seq<char>>::empty());
        assert(spec_palette_tail(s.push(x)) =~= spec_palette_tail(s) + ", "@ + spec_quoted(x));
    } else {
        assert(s.push(x).drop_first() =~= s.drop_first().push(x));
        lemma_palette_tail_push(s.drop_first(), x);
        assert(spec_palette_tail(s.push(x)) =~= spec_palette_tail(s) + ", "@ + spec_quoted(x));
    }
}

/// Renders a list of color names in the bracketed, double-quoted palette
/// format, exactly as [`spec_palette_text`] describes.
pub fn string_vec_to_params(input: Vec<String>) -> (r: String)
    ensures
        r@ == spec_palette_text(input.deep_view()),
{
    let ghost dv: Seq<Seq<char>> = input.deep_view();
    let mut out = String::new();
    if input.len() == 0 {
        out.append("[]");
        proof {
            assert(out@ =~= "[]"@);
        }
        return out;
    }
    let mut i: usize = 0;
    while i < input.len()
        invariant
            dv == input.deep_view(),
            dv.len() == input.len(),
            i <= input.len(),
            i == 0 ==> out@ == Seq::<char>::empty(),
            i > 0 ==> out@ == "[\""@ + dv[0] + "\""@ + spec_palette_tail(
                dv.subrange(1, i as int),
            ),
        decreases input.len() - i,
    {
        proof {
            assert(input[i as int].deep_view() == dv[i as int]);
        }
        if i == 0 {
            out.append("[\"");
            out.append(input[i].as_str());
            out.append("\"");
            proof {
                assert(dv.subrange(1, 1) =~= Seq::<Seq<char>>::empty());
                assert(out@ =~= "[\""@ + dv[0] + "\""@ + spec_palette_tail(dv.subrange(1, 1)));
            }
        } else {
            out.append(", \"");
            out.append(input[i].as_str());
            out.append("\"");
            proof {
                assert(dv.subrange(1, i + 1 as int) =~= dv.subrange(1, i as int).push(
                    dv[i as int],
                ));
                lemma_palette_tail_push(dv.subrange(1, i as int), dv[i as int]);
                reveal_strlit(", \"");
                reveal_strlit(", ");
                reveal_strlit("\"");
                assert(", \""@ =~= ", "@ + "\""@);
                assert(out@ =~= "[\""@ + dv[0] + "\""@ + spec_palette_tail(
                    dv.subrange(1, i + 1 as int),
                ));
            }
        }
        i += 1;
    }
    out.append("]");
    proof {
        assert(dv.subrange(1, dv.len() as int) =~= dv.drop_first());
        assert(out@ =~= spec_palette_text(dv));
    }
    out
}

/// Pushes one key/value pair made of a key literal and an owned value.
fn push_pair(params: &mut Vec<(String, String)>, key: &str, value: String)
    ensures
        final(params).deep_view() =~= old(params).deep_view().push((key@, value@)),
{
    let pair = (String::from_str(key), value);
    params.push(pair);
    proof {
        assert(final(params).deep_view() =~= old(params).deep_view().push((key@, value@)));
    }
}

/// An optional text field as a JSON value: a quoted, escaped string when
/// present, `null` when absent.
pub open spec fn spec_opt_text_json(v: Option<String>) -> Seq<char> {
    match v {
        Option::Some(s) => spec_json_string(s@),
        Option::None => "null"@,
    }
}

/// An optional numeral field as a JSON value: the raw numeral text when
/// present, `null` when absent.
pub open spec fn spec_opt_raw_json(v: Option<String>) -> Seq<char> {
    match v {
        Option::Some(s) => s@,
        Option::None => "null"@,
    }
}

/// An optional boolean field as a JSON value: lowercase `true` / `false`
/// when present, `null` when absent.
pub open spec fn spec_opt_bool_json(v: Option<bool>) -> Seq<char> {
    match v {
        Option::Some(b) => spec_bool_text(b),
        Option::None => "null"@,
    }
}

/// Appends an optional text field as a JSON value.
fn push_opt_text_json(out: &mut String, v: &Option<String>)
    ensures
        final(out)@ == old(out)@ + spec_opt_text_json(*v),
{
    match v {
        Some(s) => push_json_string(out, s.as_str()),
        None => out.append("null"),
    }
}

/// Appends an optional numeral field as a JSON value.
fn push_opt_raw_json(out: &mut String, v: &Option<String>)
    ensures
        final(out)@ == old(out)@ + spec_opt_raw_json(*v),
{
    match v {
        Some(s) => out.append(s.as_str()),
        None => out.append("null"),
    }
}

/// Appends an optional boolean field as a JSON value.
fn push_opt_bool_json(out: &mut String, v: &Option<bool>)
    ensures
        final(out)@ == old(out)@ + spec_opt_bool_json(*v),
{
    match v {
        Some(b) => if *b {
            out.append("true")
        } else {
            out.append("false")
        },
        None => out.append("null"),
    }
}

/// Parameters of the clean (HEV) command.
#[derive(Default, Debug, Clone, PartialEq)]
pub struct Clean {
    pub stop: Option<bool>,
    pub duration: Option<i64>,
}

impl Clean {
    /// A clean command with no field populated.
    pub fn new() -> (r: Self)
        ensures
            r.stop is None,
            r.duration is None,
    {
        Clean { stop: None, duration: None }
    }

    /// The flattened form pairs of the populated fields, in declaration order.
    pub open spec fn spec_params(self) -> Seq<(Seq<char>, Seq<char>)> {
        bool_pairs("stop"@, self.stop) + int_pairs("duration"@, self.duration)
    }

    /// Flattens the populated fields into ordered key/value text pairs.
    pub fn to_params(&self) -> (r: Vec<(String, String)>)
        ensures
            r.deep_view() == self.spec_params(),
    {
        let mut params: Vec<(String, String)> = Vec::new();
        match &self.stop {
            Some(stop) => push_pair(&mut params, "stop", bool_to_string(*stop)),
            None => {},
        }
        match &self.duration {
            Some(duration) => push_pair(&mut params, "duration", i64_to_string(*duration)),
            None => {},
        }
        proof {
            assert(params.deep_view() =~~= self.spec_params());
        }
        params
    }
}

/// Parameters of the full-state replacement command. Fields that carry a
/// fractional quantity (`brightness`, `duration`, `infrared`) hold the
/// decimal numeral as text, exactly as it should appear on the wire.
#[derive(Default, Debug, Clone, PartialEq)]
pub struct State {
    pub power: Option<String>,
    pub color: Option<String>,
    pub brightness: Option<String>,
    pub duration: Option<String>,
    pub infrared: Option<String>,
    pub selector: Option<String>,
    pub fast: Option<bool>,
}

impl State {
    /// A state with no field populated.
    pub fn new() -> (r: Self)
        ensures
            r.power is None,
            r.color is None,
            r.brightness is None,
            r.duration is None,
            r.infrared is None,
            r.selector is None,
            r.fast is None,
    {
        State {
            power: None,
            color: None,
            brightness: None,
            duration: None,
            infrared: None,
            selector: None,
            fast: None,
        }
    }

    /// The flattened form pairs of the populated fields, in declaration order.
    pub open spec fn spec_params(self) -> Seq<(Seq<char>, Seq<char>)> {
        text_pairs("power"@, self.power) + text_pairs("color"@, self.color) + text_pairs(
            "brightness"@,
            self.brightness,
        ) + text_pairs("duration"@, self.duration) + text_pairs("infrared"@, self.infrared)
            + text_pairs("selector"@, self.selector) + bool_pairs("fast"@, self.fast)
    }

    /// Flattens the populated fields into ordered key/value text pairs.
    #[verifier::rlimit(50)]
    pub fn to_params(&self) -> (r: Vec<(String, String)>)
        ensures
            r.deep_view() == self.spec_params(),
    {
        let mut params: Vec<(String, String)> = Vec::new();
        match &self.power {
            Some(power) => push_pair(&mut params, "power", power.clone()),
            None => {},
        }
        match &self.color {
            Some(color) => push_pair(&mut params, "color", color.clone()),
            None => {},
        }
        match &self.brightness {
            Some(brightness) => push_pair(&mut params, "brightness", brightness.clone()),
            None => {},
        }
        match &self.duration {
            Some(duration) => push_pair(&mut params, "duration", duration.clone()),
            None => {},
        }
        match &self.infrared {
            Some(infrared) => push_pair(&mut params, "infrared", infrared.clone()),
            None => {},
        }
        match &self.selector {
            Some(selector) => push_pair(&mut params, "selector", selector.clone()),
            None => {},
        }
        match &self.fast {
            Some(fast) => push_pair(&mut params, "fast", bool_to_string(*fast)),
            None => {},
        }
        proof {
            assert(params.deep_view() =~~= self.spec_params());
        }
        params
    }

    /// The state as a JSON object, every field written in declaration
    /// order, absent fields as `null`: text fields as quoted strings,
    /// numeral fields as their raw text, `fast` as a bare boolean.
    pub open spec fn spec_json(self) -> Seq<char> {
        "{\"power\":"@ + spec_opt_text_json(self.power) + ",\"color\":"@ + spec_opt_text_json(
            self.color,
        ) + ",\"brightness\":"@ + spec_opt_raw_json(self.brightness) + ",\"duration\":"@
            + spec_opt_raw_json(self.duration) + ",\"infrared\":"@ + spec_opt_raw_json(
            self.infrared,
        ) + ",\"selector\":"@ + spec_opt_text_json(self.selector) + ",\"fast\":"@
            + spec_opt_bool_json(self.fast) + "}"@
    }

    /// Writes the state as the JSON object [`State::spec_json`] describes.
    pub fn to_json(&self) -> (r: String)
        ensures
            r@ == self.spec_json(),
    {
        let mut out = String::new();
        out.append("{\"power\":");
        push_opt_text_json(&mut out, &self.power);
        out.append(",\"color\":");
        push_opt_text_json(&mut out, &self.color);
        out.append(",\"brightness\":");
        push_opt_raw_json(&mut out, &self.brightness);
        out.append(",\"duration\":");
        push_opt_raw_json(&mut out, &self.duration);
        out.append(",\"infrared\":");
        push_opt_raw_json(&mut out, &self.infrared);
        out.append(",\"selector\":");
        push_opt_text_json(&mut out, &self.selector);
        out.append(",\"fast\":");
        push_opt_bool_json(&mut out, &self.fast);
        out.append("}");
        proof {
            assert(out@ =~= self.spec_json());
        }
        out
    }
}

/// Parameters of the power toggle command.
#[derive(Default, Debug, Clone, PartialEq)]
pub struct Toggle {
    pub duration: Option<i64>,
}

impl Toggle {
    /// A toggle command with no field populated.
    pub fn new() -> (r: Self)
        ensures
            r.duration is None,
    {
        Toggle { duration: None }
    }

    /// The flattened form pairs of the populated fields, in declaration order.
    pub open spec fn spec_params(self) -> Seq<(Seq<char>, Seq<char>)> {
        int_pairs("duration"@, self.duration)
    }

    /// Flattens the populated fields into ordered key/value text pairs.
    pub fn to_params(&self) -> (r: Vec<(String, String)>)
        ensures
            r.deep_view() == self.spec_params(),
    {
        let mut params: Vec<(String, String)> = Vec::new();
        match &self.duration {
            Some(duration) => push_pair(&mut params, "duration", i64_to_string(*duration)),
            None => {},
        }
        proof {
            assert(params.deep_view() =~~= self.spec_params());
        }
        params
    }
}

/// The payload of the bulk multi-state write: a list of states, each
/// normally carrying its own selector, plus a shared default state. It is
/// sent as a JSON body rather than flattened into form pairs.
#[derive(Default, Debug, Clone, PartialEq)]
pub struct States {
    pub states: Option<Vec<State>>,
    pub defaults: Option<State>,
}

impl States {
    /// A bulk write payload with no field populated.
    pub fn new() -> (r: Self)
        ensures
            r.states is None,
            r.defaults is None,
    {
        States { states: None, defaults: None }
    }

    /// The comma-separated JSON objects of a list of states.
    pub open spec fn spec_states_items(items: Seq<State>) -> Seq<char>
        decreases items.len(),
    {
        if items.len() == 0 {
            Seq::empty()
        } else if items.len() == 1 {
            items[0].spec_json()
        } else {
            Self::spec_states_items(items.drop_last()) + seq![','] + items.last().spec_json()
        }
    }

    /// The payload as a JSON object `{"states": ..., "defaults": ...}`:
    /// the list of states as a JSON array, each as [`State::spec_json`],
    /// and either field as `null` when absent.
    pub open spec fn spec_json(self) -> Seq<char> {
        "{\"states\":"@ + (match self.states {
            Option::Some(items) => seq!['['] + Self::spec_states_items(items@) + seq![']'],
            Option::None => "null"@,
        }) + ",\"defaults\":"@ + (match self.defaults {
            Option::Some(st) => st.spec_json(),
            Option::None => "null"@,
        }) + "}"@
    }

    /// Writes the payload as the JSON object [`States::spec_json`]
    /// describes.
    pub fn to_json(&self) -> (r: String)
        ensures
            r@ == self.spec_json(),
    {
        let mut out = String::new();
        out.append("{\"states\":");
        match &self.states {
            Some(items) => {
                out.append("[");
                proof {
                    reveal_strlit("[");
                }
                let ghost mid = out@;
                let mut i: usize = 0;
                while i < items.len()
                    invariant
                        i <= items@.len(),
                        out@ == mid + Self::spec_states_items(items@.subrange(0, i as int)),
                    decreases items@.len() - i,
                {
                    if i > 0 {
                        out.append(",");
                        proof {
                            reveal_strlit(",");
                        }
                    }
                    let piece = items[i].to_json();
                    out.append(piece.as_str());
                    i += 1;
                    proof {
                        if i == 1 {
                            assert(items@.subrange(0, 1)[0] == items@[0]);
                            assert(out@ =~= mid + Self::spec_states_items(
                                items@.subrange(0, i as int),
                            ));
                        } else {
                            assert(items@.subrange(0, i as int).drop_last() =~= items@.subrange(
                                0,
                                i - 1,
                            ));
                            assert(items@.subrange(0, i as int).last() == items@[i - 1]);
                            assert(out@ =~= mid + Self::spec_states_items(
                                items@.subrange(0, i as int),
                            ));
                        }
                    }
                }
                out.append("]");
                proof {
                    reveal_strlit("]");
                    assert(items@.subrange(0, items@.len() as int) =~= items@);
                }
            },
            None => {
                out.append("null");
            },
        }
        out.append(",\"defaults\":");
        match &self.defaults {
            Some(st) => {
                let piece = st.to_json();
                out.append(piece.as_str());
            },
            None => {
                out.append("null");
            },
        }
        out.append("}");
        proof {
            assert(out@ =~= self.spec_json());
        }
        out
    }
}

/// Parameters of the state delta command. Fields that carry a fractional
/// quantity hold the decimal numeral as text.
#[derive(Default, Debug, Clone, PartialEq)]
pub struct StateDelta {
    pub power: Option<String>,
    pub duration: Option<String>,
    pub infrared: Option<String>,
    pub hue: Option<String>,
    pub saturation: Option<String>,
    pub brightness: Option<String>,
    pub kelvin: Option<i64>,
    pub fast: Option<bool>,
}

impl StateDelta {
    /// A state delta with no field populated.
    pub fn new() -> (r: Self)
        ensures
            r.power is None,
            r.duration is None,
            r.infrared is None,
            r.hue is None,
            r.saturation is None,
            r.brightness is None,
            r.kelvin is None,
            r.fast is None,
    {
        StateDelta {
            power: None,
            duration: None,
            infrared: None,
            hue: None,
            saturation: None,
            brightness: None,
            kelvin: None,
            fast: None,
        }
    }

    /// The flattened form pairs of the populated fields, in declaration order.
    pub open spec fn spec_params(self) -> Seq<(Seq<char>, Seq<char>)> {
        text_pairs("power"@, self.power) + text_pairs("duration"@, self.duration) + text_pairs(
            "infrared"@,
            self.infrared,
        ) + text_pairs("hue"@, self.hue) + text_pairs("saturation"@, self.saturation) + text_pairs(
            "brightness"@,
            self.brightness,
        ) + int_pairs("kelvin"@, self.kelvin) + bool_pairs("fast"@, self.fast)
    }

    /// Flattens the populated fields into ordered key/value text pairs.
    #[verifier::spinoff_prover]
    #[verifier::rlimit(100)]
    pub fn to_params(&self) -> (r: Vec<(String, String)>)
        ensures
            r.deep_view() == self.spec_params(),
    {
        let mut params: Vec<(String, String)> = Vec::new();
        match &self.power {
            Some(power) => push_pair(&mut params, "power", power.clone()),
            None => {},
        }
        match &self.duration {
            Some(duration) => push_pair(&mut params, "duration", duration.clone()),
            None => {},
        }
        match &self.infrared {
            Some(infrared) => push_pair(&mut params, "infrared", infrared.clone()),
            None => {},
        }
        match &self.hue {
            Some(hue) => push_pair(&mut params, "hue", hue.clone()),
            None => {},
        }
        match &self.saturation {
            Some(saturation) => push_pair(&mut params, "saturation", saturation.clone()),
            None => {},
        }
        match &self.brightness {
            Some(brightness) => push_pair(&mut params, "brightness", brightness.clone()),
            None => {},
        }
        match &self.kelvin {
            Some(kelvin) => push_pair(&mut params, "kelvin", i64_to_string(*kelvin)),
            None => {},
        }
        match &self.fast {
            Some(fast) => push_pair(&mut params, "fast", bool_to_string(*fast)),
            None => {},
        }
        proof {
            assert(params.deep_view() =~~= self.spec_params());
        }
        params
    }
}

/// Parameters of the breathe animation. Fields that carry a fractional
/// quantity hold the decimal numeral as text.
#[derive(Default, Debug, Clone, PartialEq)]
pub struct BreatheEffect {
    pub color: Option<String>,
    pub from_color: Option<String>,
    pub period: Option<String>,
    pub cycles: Option<String>,
    pub persist: Option<bool>,
    pub power_on: Option<bool>,
    pub peak: Option<String>,
}

impl BreatheEffect {
    /// A breathe effect with no field populated.
    pub fn new() -> (r: Self)
        ensures
            r.color is None,
            r.from_color is None,
            r.period is None,
            r.cycles is None,
            r.persist is None,
            r.power_on is None,
            r.peak is None,
    {
        BreatheEffect {
            color: None,
            from_color: None,
            period: None,
            cycles: None,
            persist: None,
            power_on: None,
            peak: None,
        }
    }

    /// The flattened form pairs of the populated fields, in declaration order.
    pub open spec fn spec_params(self) -> Seq<(Seq<char>, Seq<char>)> {
        text_pairs("color"@, self.color) + text_pairs("from_color"@, self.from_color) + text_pairs(
            "period"@,
            self.period,
        ) + text_pairs("cycles"@, self.cycles) + bool_pairs("persist"@, self.persist) + bool_pairs(
            "power_on"@,
            self.power_on,
        ) + text_pairs("peak"@, self.peak)
    }

    /// Flattens the populated fields into ordered key/value text pairs.
    #[verifier::rlimit(50)]
    pub fn to_params(&self) -> (r: Vec<(String, String)>)
        ensures
            r.deep_view() == self.spec_params(),
    {
        let mut params: Vec<(String, String)> = Vec::new();
        match &self.color {
            Some(color) => push_pair(&mut params, "color", color.clone()),
            None => {},
        }
        match &self.from_color {
            Some(from_color) => push_pair(&mut params, "from_color", from_color.clone()),
            None => {},
        }
        match &self.period {
            Some(period) => push_pair(&mut params, "period", period.clone()),
            None => {},
        }
        match &self.cycles {
            Some(cycles) => push_pair(&mut params, "cycles", cycles.clone()),
            None => {},
        }
        match &self.persist {
            Some(persist) => push_pair(&mut params, "persist", bool_to_string(*persist)),
            None => {},
        }
        match &self.power_on {
            Some(power_on) => push_pair(&mut params, "power_on", bool_to_string(*power_on)),
            None => {},
        }
        match &self.peak {
            Some(peak) => push_pair(&mut params, "peak", peak.clone()),
            None => {},
        }
        proof {
            assert(params.deep_view() =~~= self.spec_params());
        }
        params
    }
}

/// Parameters of the move animation. The `cycles` field holds its decimal
/// numeral as text.
#[derive(Default, Debug, Clone, PartialEq)]
pub struct MoveEffect {
    pub direction: Option<String>,
    pub period: Option<i64>,
    pub cycles: Option<String>,
    pub power_on: Option<bool>,
    pub fast: Option<bool>,
}

impl MoveEffect {
    /// A move effect with no field populated.
    pub fn new() -> (r: Self)
        ensures
            r.direction is None,
            r.period is None,
            r.cycles is None,
            r.power_on is None,
            r.fast is None,
    {
        MoveEffect { direction: None, period: None, cycles: None, power_on: None, fast: None }
    }

    /// The flattened form pairs of the populated fields, in declaration order.
    pub open spec fn spec_params(self) -> Seq<(Seq<char>, Seq<char>)> {
        text_pairs("direction"@, self.direction) + int_pairs("period"@, self.period) + text_pairs(
            "cycles"@,
            self.cycles,
        ) + bool_pairs("power_on"@, self.power_on) + bool_pairs("fast"@, self.fast)
    }

    /// Flattens the populated fields into ordered key/value text pairs.
    pub fn to_params(&self) -> (r: Vec<(String, String)>)
        ensures
            r.deep_view() == self.spec_params(),
    {
        let mut params: Vec<(String, String)> = Vec::new();
        match &self.direction {
            Some(direction) => push_pair(&mut params, "direction", direction.clone()),
            None => {},
        }
        match &self.period {
            Some(period) => push_pair(&mut params, "period", i64_to_string(*period)),
            None => {},
        }
        match &self.cycles {
            Some(cycles) => push_pair(&mut params, "cycles", cycles.clone()),
            None => {},
        }
        match &self.power_on {
            Some(power_on) => push_pair(&mut params, "power_on", bool_to_string(*power_on)),
            None => {},
        }
        match &self.fast {
            Some(fast) => push_pair(&mut params, "fast", bool_to_string(*fast)),
            None => {},
        }
        proof {
            assert(params.deep_view() =~~= self.spec_params());
        }
        params
    }
}

/// Parameters of the morph animation. The `duration` field holds its
/// decimal numeral as text; the palette renders in the bespoke bracketed
/// format of [`spec_palette_text`].
#[derive(Default, Debug, Clone, PartialEq)]
pub struct MorphEffect {
    pub period: Option<i64>,
    pub duration: Option<String>,
    pub palette: Option<Vec<String>>,
    pub power_on: Option<bool>,
    pub fast: Option<bool>,
}

impl MorphEffect {
    /// A morph effect with no field populated.
    pub fn new() -> (r: Self)
        ensures
            r.period is None,
            r.duration is None,
            r.palette is None,
            r.power_on is None,
            r.fast is None,
    {
        MorphEffect { period: None, duration: None, palette: None, power_on: None, fast: None }
    }

    /// The flattened form pairs of the populated fields, in declaration order.
    pub open spec fn spec_params(self) -> Seq<(Seq<char>, Seq<char>)> {
        int_pairs("period"@, self.period) + text_pairs("duration"@, self.duration) + palette_pairs(
            "palette"@,
            self.palette,
        ) + bool_pairs("power_on"@, self.power_on) + bool_pairs("fast"@, self.fast)
    }

    /// Flattens the populated fields into ordered key/value text pairs.
    pub fn to_params(&self) -> (r: Vec<(String, String)>)
        ensures
            r.deep_view() == self.spec_params(),
    {
        let mut params: Vec<(String, String)> = Vec::new();
        match &self.period {
            Some(period) => push_pair(&mut params, "period", i64_to_string(*period)),
            None => {},
        }
        match &self.duration {
            Some(duration) => push_pair(&mut params, "duration", duration.clone()),
            None => {},
        }
        match &self.palette {
            Some(palette) => push_pair(&mut params, "palette", string_vec_to_params(palette.clone())),
            None => {},
        }
        match &self.power_on {
            Some(power_on) => push_pair(&mut params, "power_on", bool_to_string(*power_on)),
            None => {},
        }
        match &self.fast {
            Some(fast) => push_pair(&mut params, "fast", bool_to_string(*fast)),
            None => {},
        }
        proof {
            assert(params.deep_view() =~~= self.spec_params());
        }
        params
    }
}

/// Parameters of the pulse animation. Fields that carry a fractional
/// quantity hold the decimal numeral as text.
#[derive(Default, Debug, Clone, PartialEq)]
pub struct PulseEffect {
    pub color: Option<String>,
    pub from_color: Option<String>,
    pub period: Option<String>,
    pub cycles: Option<String>,
    pub persist: Option<bool>,
    pub power_on: Option<bool>,
}

impl PulseEffect {
    /// A pulse effect with no field populated.
    pub fn new() -> (r: Self)
        ensures
            r.color is None,
            r.from_color is None,
            r.period is None,
            r.cycles is None,
            r.persist is None,
            r.power_on is None,
    {
        PulseEffect {
            color: None,
            from_color: None,
            period: None,
            cycles: None,
            persist: None,
            power_on: None,
        }
    }

    /// The flattened form pairs of the populated fields, in declaration order.
    pub open spec fn spec_params(self) -> Seq<(Seq<char>, Seq<char>)> {
        text_pairs("color"@, self.color) + text_pairs("from_color"@, self.from_color) + text_pairs(
            "period"@,
            self.period,
        ) + text_pairs("cycles"@, self.cycles) + bool_pairs("persist"@, self.persist) + bool_pairs(
            "power_on"@,
            self.power_on,
        )
    }

    /// Flattens the populated fields into ordered key/value text pairs.
    #[verifier::spinoff_prover]
    #[verifier::rlimit(100)]
    pub fn to_params(&self) -> (r: Vec<(String, String)>)
        ensures
            r.deep_view() == self.spec_params(),
    {
        let mut params: Vec<(String, String)> = Vec::new();
        match &self.color {
            Some(color) => push_pair(&mut params, "color", color.clone()),
            None => {},
        }
        match &self.from_color {
            Some(from_color) => push_pair(&mut params, "from_color", from_color.clone()),
            None => {},
        }
        match &self.period {
            Some(period) => push_pair(&mut params, "period", period.clone()),
            None => {},
        }
        match &self.cycles {
            Some(cycles) => push_pair(&mut params, "cycles", cycles.clone()),
            None => {},
        }
        match &self.persist {
            Some(persist) => push_pair(&mut params, "persist", bool_to_string(*persist)),
            None => {},
        }
        match &self.power_on {
            Some(power_on) => push_pair(&mut params, "power_on", bool_to_string(*power_on)),
            None => {},
        }
        proof {
            assert(params.deep_view() =~~= self.spec_params());
        }
        params
    }
}

/// Parameters of the command that turns any running animation off.
#[derive(Default, Debug, Clone, PartialEq)]
pub struct EffectsOff {
    pub power_off: Option<bool>,
}

impl EffectsOff {
    /// An effects-off command with no field populated.
    pub fn new() -> (r: Self)
        ensures
            r.power_off is None,
    {
        EffectsOff { power_off: None }
    }

    /// The flattened form pairs of the populated fields, in declaration order.
    pub open spec fn spec_params(self) -> Seq<(Seq<char>, Seq<char>)> {
        bool_pairs("power_off"@, self.power_off)
    }

    /// Flattens the populated fields into ordered key/value text pairs.
    pub fn to_params(&self) -> (r: Vec<(String, String)>)
        ensures
            r.deep_view() == self.spec_params(),
    {
        let mut params: Vec<(String, String)> = Vec::new();
        match &self.power_off {
            Some(power_off) => push_pair(&mut params, "power_off", bool_to_string(*power_off)),
            None => {},
        }
        proof {
            assert(params.deep_view() =~~= self.spec_params());
        }
        params
    }
}

/// Parameters of the flame animation. The `duration` field holds its
/// decimal numeral as text.
#[derive(Default, Debug, Clone, PartialEq)]
pub struct FlameEffect {
    pub period: Option<i64>,
    pub duration: Option<String>,
    pub power_on: Option<bool>,
    pub fast: Option<bool>,
}

impl FlameEffect {
    /// A flame effect with no field populated.
    pub fn new() -> (r: Self)
        ensures
            r.period is None,
            r.duration is None,
            r.power_on is None,
            r.fast is None,
    {
        FlameEffect { period: None, duration: None, power_on: None, fast: None }
    }

    /// The flattened form pairs of the populated fields, in declaration order.
    pub open spec fn spec_params(self) -> Seq<(Seq<char>, Seq<char>)> {
        int_pairs("period"@, self.period) + text_pairs("duration"@, self.duration) + bool_pairs(
            "power_on"@,
            self.power_on,
        ) + bool_pairs("fast"@, self.fast)
    }

    /// Flattens the populated fields into ordered key/value text pairs.
    pub fn to_params(&self) -> (r: Vec<(String, String)>)
        ensures
            r.deep_view() == self.spec_params(),
    {
        let mut params: Vec<(String, String)> = Vec::new();
        match &self.period {
            Some(period) => push_pair(&mut params, "period", i64_to_string(*period)),
            None => {},
        }
        match &self.duration {
            Some(duration) => push_pair(&mut params, "duration", duration.clone()),
            None => {},
        }
        match &self.power_on {
            Some(power_on) => push_pair(&mut params, "power_on", bool_to_string(*power_on)),
            None => {},
        }
        match &self.fast {
            Some(fast) => push_pair(&mut params, "fast", bool_to_string(*fast)),
            None => {},
        }
        proof {
            assert(params.deep_view() =~~= self.spec_params());
        }
        params
    }
}

/// Law: flattening a clean command with no populated field yields no
/// pairs, and flattening one with every field populated yields one pair
/// per field, in declaration order, under the declared keys.
pub proof fn lemma_clean_params_population(stop: bool, duration: i64)
    ensures
        (Clean { stop: None, duration: None }).spec_params() == Seq::<
            (Seq<char>, Seq<char>),
        >::empty(),
        (Clean { stop: Some(stop), duration: Some(duration) }).spec_params() == seq![
            ("stop"@, spec_bool_text(stop)),
            ("duration"@, spec_int_dec(duration as int)),
        ],
{
    assert((Clean { stop: None, duration: None }).spec_params() =~~= Seq::<
        (Seq<char>, Seq<char>),
    >::empty());
    assert((Clean { stop: Some(stop), duration: Some(duration) }).spec_params() =~~= seq![
        ("stop"@, spec_bool_text(stop)),
        ("duration"@, spec_int_dec(duration as int)),
    ]);
}

/// Law: as [`lemma_clean_params_population`], for the full-state command.
pub proof fn lemma_state_params_population(
    power: String,
    color: String,
    brightness: String,
    duration: String,
    infrared: String,
    selector: String,
    fast: bool,
)
    ensures
        (State {
            power: None,
            color: None,
            brightness: None,
            duration: None,
            infrared: None,
            selector: None,
            fast: None,
        }).spec_params() == Seq::<(Seq<char>, Seq<char>)>::empty(),
        (State {
            power: Some(power),
            color: Some(color),
            brightness: Some(brightness),
            duration: Some(duration),
            infrared: Some(infrared),
            selector: Some(selector),
            fast: Some(fast),
        }).spec_params() == seq![
            ("power"@, power@),
            ("color"@, color@),
            ("brightness"@, brightness@),
            ("duration"@, duration@),
            ("infrared"@, infrared@),
            ("selector"@, selector@),
            ("fast"@, spec_bool_text(fast)),
        ],
{
    assert((State {
        power: None,
        color: None,
        brightness: None,
        duration: None,
        infrared: None,
        selector: None,
        fast: None,
    }).spec_params() =~~= Seq::<(Seq<char>, Seq<char>)>::empty());
    assert((State {
        power: Some(power),
        color: Some(color),
        brightness: Some(brightness),
        duration: Some(duration),
        infrared: Some(infrared),
        selector: Some(selector),
        fast: Some(fast),
    }).spec_params() =~~= seq![
        ("power"@, power@),
        ("color"@, color@),
        ("brightness"@, brightness@),
        ("duration"@, duration@),
        ("infrared"@, infrared@),
        ("selector"@, selector@),
        ("fast"@, spec_bool_text(fast)),
    ]);
}

/// Law: as [`lemma_clean_params_population`], for the toggle command.
pub proof fn lemma_toggle_params_population(duration: i64)
    ensures
        (Toggle { duration: None }).spec_params() == Seq::<(Seq<char>, Seq<char>)>::empty(),
        (Toggle { duration: Some(duration) }).spec_params() == seq![
            ("duration"@, spec_int_dec(duration as int)),
        ],
{
    assert((Toggle { duration: None }).spec_params() =~~= Seq::<(Seq<char>, Seq<char>)>::empty());
    assert((Toggle { duration: Some(duration) }).spec_params() =~~= seq![
        ("duration"@, spec_int_dec(duration as int)),
    ]);
}

/// Law: as [`lemma_clean_params_population`], for the state delta command.
pub proof fn lemma_state_delta_params_population(
    power: String,
    duration: String,
    infrared: String,
    hue: String,
    saturation: String,
    brightness: String,
    kelvin: i64,
    fast: bool,
)
    ensures
        (StateDelta {
            power: None,
            duration: None,
            infrared: None,
            hue: None,
            saturation: None,
            brightness: None,
            kelvin: None,
            fast: None,
        }).spec_params() == Seq::<(Seq<char>, Seq<char>)>::empty(),
        (StateDelta {
            power: Some(power),
            duration: Some(duration),
            infrared: Some(infrared),
            hue: Some(hue),
            saturation: Some(saturation),
            brightness: Some(brightness),
            kelvin: Some(kelvin),
            fast: Some(fast),
        }).spec_params() == seq![
            ("power"@, power@),
            ("duration"@, duration@),
            ("infrared"@, infrared@),
            ("hue"@, hue@),
            ("saturation"@, saturation@),
            ("brightness"@, brightness@),
            ("kelvin"@, spec_int_dec(kelvin as int)),
            ("fast"@, spec_bool_text(fast)),
        ],
{
    assert((StateDelta {
        power: None,
        duration: None,
        infrared: None,
        hue: None,
        saturation: None,
        brightness: None,
        kelvin: None,
        fast: None,
    }).spec_params() =~~= Seq::<(Seq<char>, Seq<char>)>::empty());
    assert((StateDelta {
        power: Some(power),
        duration: Some(duration),
        infrared: Some(infrared),
        hue: Some(hue),
        saturation: Some(saturation),
        brightness: Some(brightness),
        kelvin: Some(kelvin),
        fast: Some(fast),
    }).spec_params() =~~= seq![
        ("power"@, power@),
        ("duration"@, duration@),
        ("infrared"@, infrared@),
        ("hue"@, hue@),
        ("saturation"@, saturation@),
        ("brightness"@, brightness@),
        ("kelvin"@, spec_int_dec(kelvin as int)),
        ("fast"@, spec_bool_text(fast)),
    ]);
}

/// Law: as [`lemma_clean_params_population`], for the breathe effect.
pub proof fn lemma_breathe_params_population(
    color: String,
    from_color: String,
    period: String,
    cycles: String,
    persist: bool,
    power_on: bool,
    peak: String,
)
    ensures
        (BreatheEffect {
            color: None,
            from_color: None,
            period: None,
            cycles: None,
            persist: None,
            power_on: None,
            peak: None,
        }).spec_params() == Seq::<(Seq<char>, Seq<char>)>::empty(),
        (BreatheEffect {
            color: Some(color),
            from_color: Some(from_color),
            period: Some(period),
            cycles: Some(cycles),
            persist: Some(persist),
            power_on: Some(power_on),
            peak: Some(peak),
        }).spec_params() == seq![
            ("color"@, color@),
            ("from_color"@, from_color@),
            ("period"@, period@),
            ("cycles"@, cycles@),
            ("persist"@, spec_bool_text(persist)),
            ("power_on"@, spec_bool_text(power_on)),
            ("peak"@, peak@),
        ],
{
    assert((BreatheEffect {
        color: None,
        from_color: None,
        period: None,
        cycles: None,
        persist: None,
        power_on: None,
        peak: None,
    }).spec_params() =~~= Seq::<(Seq<char>, Seq<char>)>::empty());
    assert((BreatheEffect {
        color: Some(color),
        from_color: Some(from_color),
        period: Some(period),
        cycles: Some(cycles),
        persist: Some(persist),
        power_on: Some(power_on),
        peak: Some(peak),
    }).spec_params() =~~= seq![
        ("color"@, color@),
        ("from_color"@, from_color@),
        ("period"@, period@),
        ("cycles"@, cycles@),
        ("persist"@, spec_bool_text(persist)),
        ("power_on"@, spec_bool_text(power_on)),
        ("peak"@, peak@),
    ]);
}

/// Law: as [`lemma_clean_params_population`], for the move effect.
pub proof fn lemma_move_params_population(
    direction: String,
    period: i64,
    cycles: String,
    power_on: bool,
    fast: bool,
)
    ensures
        (MoveEffect {
            direction: None,
            period: None,
            cycles: None,
            power_on: None,
            fast: None,
        }).spec_params() == Seq::<(Seq<char>, Seq<char>)>::empty(),
        (MoveEffect {
            direction: Some(direction),
            period: Some(period),
            cycles: Some(cycles),
            power_on: Some(power_on),
            fast: Some(fast),
        }).spec_params() == seq![
            ("direction"@, direction@),
            ("period"@, spec_int_dec(period as int)),
            ("cycles"@, cycles@),
            ("power_on"@, spec_bool_text(power_on)),
            ("fast"@, spec_bool_text(fast)),
        ],
{
    assert((MoveEffect {
        direction: None,
        period: None,
        cycles: None,
        power_on: None,
        fast: None,
    }).spec_params() =~~= Seq::<(Seq<char>, Seq<char>)>::empty());
    assert((MoveEffect {
        direction: Some(direction),
        period: Some(period),
        cycles: Some(cycles),
        power_on: Some(power_on),
        fast: Some(fast),
    }).spec_params() =~~= seq![
        ("direction"@, direction@),
        ("period"@, spec_int_dec(period as int)),
        ("cycles"@, cycles@),
        ("power_on"@, spec_bool_text(power_on)),
        ("fast"@, spec_bool_text(fast)),
    ]);
}

/// Law: as [`lemma_clean_params_population`], for the morph effect.
pub proof fn lemma_morph_params_population(
    period: i64,
    duration: String,
    palette: Vec<String>,
    power_on: bool,
    fast: bool,
)
    ensures
        (MorphEffect {
            period: None,
            duration: None,
            palette: None,
            power_on: None,
            fast: None,
        }).spec_params() == Seq::<(Seq<char>, Seq<char>)>::empty(),
        (MorphEffect {
            period: Some(period),
            duration: Some(duration),
            palette: Some(palette),
            power_on: Some(power_on),
            fast: Some(fast),
        }).spec_params() == seq![
            ("period"@, spec_int_dec(period as int)),
            ("duration"@, duration@),
            ("palette"@, spec_palette_text(palette.deep_view())),
            ("power_on"@, spec_bool_text(power_on)),
            ("fast"@, spec_bool_text(fast)),
        ],
{
    assert((MorphEffect {
        period: None,
        duration: None,
        palette: None,
        power_on: None,
        fast: None,
    }).spec_params() =~~= Seq::<(Seq<char>, Seq<char>)>::empty());
    assert((MorphEffect {
        period: Some(period),
        duration: Some(duration),
        palette: Some(palette),
        power_on: Some(power_on),
        fast: Some(fast),
    }).spec_params() =~~= seq![
        ("period"@, spec_int_dec(period as int)),
        ("duration"@, duration@),
        ("palette"@, spec_palette_text(palette.deep_view())),
        ("power_on"@, spec_bool_text(power_on)),
        ("fast"@, spec_bool_text(fast)),
    ]);
}

/// Law: as [`lemma_clean_params_population`], for the pulse effect.
pub proof fn lemma_pulse_params_population(
    color: String,
    from_color: String,
    period: String,
    cycles: String,
    persist: bool,
    power_on: bool,
)
    ensures
        (PulseEffect {
            color: None,
            from_color: None,
            period: None,
            cycles: None,
            persist: None,
            power_on: None,
        }).spec_params() == Seq::<(Seq<char>, Seq<char>)>::empty(),
        (PulseEffect {
            color: Some(color),
            from_color: Some(from_color),
            period: Some(period),
            cycles: Some(cycles),
            persist: Some(persist),
            power_on: Some(power_on),
        }).spec_params() == seq![
            ("color"@, color@),
            ("from_color"@, from_color@),
            ("period"@, period@),
            ("cycles"@, cycles@),
            ("persist"@, spec_bool_text(persist)),
            ("power_on"@, spec_bool_text(power_on)),
        ],
{
    assert((PulseEffect {
        color: None,
        from_color: None,
        period: None,
        cycles: None,
        persist: None,
        power_on: None,
    }).spec_params() =~~= Seq::<(Seq<char>, Seq<char>)>::empty());
    assert((PulseEffect {
        color: Some(color),
        from_color: Some(from_color),
        period: Some(period),
        cycles: Some(cycles),
        persist: Some(persist),
        power_on: Some(power_on),
    }).spec_params() =~~= seq![
        ("color"@, color@),
        ("from_color"@, from_color@),
        ("period"@, period@),
        ("cycles"@, cycles@),
        ("persist"@, spec_bool_text(persist)),
        ("power_on"@, spec_bool_text(power_on)),
    ]);
}

/// Law: as [`lemma_clean_params_population`], for the effects-off command.
pub proof fn lemma_effects_off_params_population(power_off: bool)
    ensures
        (EffectsOff { power_off: None }).spec_params() == Seq::<(Seq<char>, Seq<char>)>::empty(),
        (EffectsOff { power_off: Some(power_off) }).spec_params() == seq![
            ("power_off"@, spec_bool_text(power_off)),
        ],
{
    assert((EffectsOff { power_off: None }).spec_params() =~~= Seq::<
        (Seq<char>, Seq<char>),
    >::empty());
    assert((EffectsOff { power_off: Some(power_off) }).spec_params() =~~= seq![
        ("power_off"@, spec_bool_text(power_off)),
    ]);
}

/// Law: as [`lemma_clean_params_population`], for the flame effect.
pub proof fn lemma_flame_params_population(
    period: i64,
    duration: String,
    power_on: bool,
    fast: bool,
)
    ensures
        (FlameEffect { period: None, duration: None, power_on: None, fast: None }).spec_params()
            == Seq::<(Seq<char>, Seq<char>)>::empty(),
        (FlameEffect {
            period: Some(period),
            duration: Some(duration),
            power_on: Some(power_on),
            fast: Some(fast),
        }).spec_params() == seq![
            ("period"@, spec_int_dec(period as int)),
            ("duration"@, duration@),
            ("power_on"@, spec_bool_text(power_on)),
            ("fast"@, spec_bool_text(fast)),
        ],
{
    assert((FlameEffect {
        period: None,
        duration: None,
        power_on: None,
        fast: None,
    }).spec_params() =~~= Seq::<(Seq<char>, Seq<char>)>::empty());
    assert((FlameEffect {
        period: Some(period),
        duration: Some(duration),
        power_on: Some(power_on),
        fast: Some(fast),
    }).spec_params() =~~= seq![
        ("period"@, spec_int_dec(period as int)),
        ("duration"@, duration@),
        ("power_on"@, spec_bool_text(power_on)),
        ("fast"@, spec_bool_text(fast)),
    ]);
}

} // verus!
