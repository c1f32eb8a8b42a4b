//! The value snapshot of everything currently visible on the screen, and its
//! pure assembly from the clock, the weather cache and the event log.
//!
//! Two snapshots compare equal exactly when every visible field compares
//! equal; the render engine suppresses redraws on that comparison, so it is
//! structural over all fields.

use vstd::prelude::*;

use crate::clock::{spec_zone_label, LocalTime, ZoneLabel};
use crate::textfmt::{
    dec_i64, format_date, format_deci, format_time, spec_date_str, spec_dec_int, spec_deci,
    spec_time_str,
};
use crate::weather::{opt_record_view, WeatherRecord, WeatherRecordView};

verus! {

/// Colors the render plan distinguishes; the embedding program maps them to
/// the display's RGB values.
#[derive(Clone, Copy, PartialEq, Eq, Structural, Debug)]
pub enum DrawColor {
    Yellow,
    Blue,
    White,
    Gray,
    Black,
}

/// Everything that should currently be visible, as plain strings.
#[derive(Debug, PartialEq)]
pub struct DisplayState {
    pub time_str: String,
    pub date_str: String,
    pub weather_temp: String,
    pub weather_desc: String,
    pub weather_icon: String,
    pub wind_str: String,
    pub hum_str: String,
    pub city_name: String,
    pub movement_events: Vec<String>,
}

#[verifier::ext_equal]
pub ghost struct DisplayStateView {
    pub time_str: Seq<char>,
    pub date_str: Seq<char>,
    pub weather_temp: Seq<char>,
    pub weather_desc: Seq<char>,
    pub weather_icon: Seq<char>,
    pub wind_str: Seq<char>,
    pub hum_str: Seq<char>,
    pub city_name: Seq<char>,
    pub movement_events: Seq<Seq<char>>,
}

impl View for DisplayState {
    type V = DisplayStateView;

    open spec fn view(&self) -> DisplayStateView {
        DisplayStateView {
            time_str: self.time_str@,
            date_str: self.date_str@,
            weather_temp: self.weather_temp@,
            weather_desc: self.weather_desc@,
            weather_icon: self.weather_icon@,
            wind_str: self.wind_str@,
            hum_str: self.hum_str@,
            city_name: self.city_name@,
            movement_events: self.movement_events.deep_view(),
        }
    }
}

/// The view of a snapshot whose fields are all empty.
pub open spec fn empty_state_view() -> DisplayStateView {
    DisplayStateView {
        time_str: Seq::empty(),
        date_str: Seq::empty(),
        weather_temp: Seq::empty(),
        weather_desc: Seq::empty(),
        weather_icon: Seq::empty(),
        wind_str: Seq::empty(),
        hum_str: Seq::empty(),
        city_name: Seq::empty(),
        movement_events: Seq::empty(),
    }
}

impl DisplayState {
    /// A snapshot with every field empty — the initial "previous" state.
    pub fn new() -> (r: DisplayState)
        ensures
            r@ == empty_state_view(),
    {
        let r = DisplayState {
            time_str: String::new(),
            date_str: String::new(),
            weather_temp: String::new(),
            weather_desc: String::new(),
            weather_icon: String::new(),
            wind_str: String::new(),
            hum_str: String::new(),
            city_name: String::new(),
            movement_events: Vec::new(),
        };
        assert(r@ =~~= empty_state_view());
        r
    }

    /// Structural equality over every visible field.
    pub fn equals(&self, other: &DisplayState) -> (r: bool)
        ensures
            r == (self@ == other@),
    {
        let r = self.time_str == other.time_str && self.date_str == other.date_str
            && self.weather_temp == other.weather_temp && self.weather_desc == other.weather_desc
            && self.weather_icon == other.weather_icon && self.wind_str == other.wind_str
            && self.hum_str == other.hum_str && self.city_name == other.city_name
            && string_vecs_equal(&self.movement_events, &other.movement_events);
        proof {
            if r {
                assert(self@ =~~= other@);
            }
        }
        r
    }
}

/// Element-wise equality of two string vectors.
fn string_vecs_equal(a: &Vec<String>, b: &Vec<String>) -> (r: bool)
    ensures
        r == (a.deep_view() == b.deep_view()),
{
    if a.len() != b.len() {
        assert(a.deep_view().len() == a@.len() && b.deep_view().len() == b@.len());
        return false;
    }
    let mut i: usize = 0;
    while i < a.len()
        invariant
            i <= a@.len(),
            a@.len() == b@.len(),
            forall|j: int| 0 <= j < i ==> a.deep_view()[j] == b.deep_view()[j],
        decreases a@.len() - i,
    {
        if !(a[i] == b[i]) {
            assert(a.deep_view()[i as int] == a@[i as int]@);
            assert(b.deep_view()[i as int] == b@[i as int]@);
            return false;
        }
        i = i + 1;
    }
    assert(a.deep_view() =~~= b.deep_view());
    true
}

/// What the built snapshot holds, given the local time, the cached weather
/// record (if any) and the movement-event strings: formatted time and date,
/// the weather read-out (empty strings while the cache is empty), and the
/// events unchanged.
pub open spec fn build_spec(
    lt: LocalTime,
    w: Option<WeatherRecordView>,
    events: Seq<Seq<char>>,
) -> DisplayStateView {
    let time = spec_time_str(lt.hour as nat, lt.minute as nat, lt.second as nat);
    let date = spec_date_str(lt.day as nat, lt.month as nat, lt.year as int) + seq![' ']
        + spec_zone_label(lt.zone_label == ZoneLabel::Cest);
    match w {
        Option::Some(rec) => DisplayStateView {
            time_str: time,
            date_str: date,
            weather_temp: spec_deci(rec.temperature_deci_celsius) + "\u{b0}C"@,
            weather_desc: rec.description,
            weather_icon: rec.icon_code,
            wind_str: "W: "@ + spec_deci(rec.wind_speed_deci_mps) + "m/s"@,
            hum_str: "H: "@ + spec_dec_int(rec.humidity_percent) + "%"@,
            city_name: rec.city,
            movement_events: events,
        },
        Option::None => DisplayStateView {
            time_str: time,
            date_str: date,
            weather_temp: Seq::empty(),
            weather_desc: Seq::empty(),
            weather_icon: Seq::empty(),
            wind_str: Seq::empty(),
            hum_str: Seq::empty(),
            city_name: Seq::empty(),
            movement_events: events,
        },
    }
}

/// Assembles a display snapshot from its three inputs. Pure: no I/O, fully
/// deterministic, and total — an empty weather cache yields empty weather
/// fields rather than a failure.
pub struct DisplayStateBuilder {}

impl DisplayStateBuilder {
    pub fn build(
        local: &LocalTime,
        weather: &Option<WeatherRecord>,
        movement_events: Vec<String>,
    ) -> (r: DisplayState)
        ensures
            r@ == build_spec(*local, opt_record_view(*weather), movement_events.deep_view()),
    {
        let time_str = format_time(local.hour, local.minute, local.second);
        let mut date_str = format_date(local.day, local.month, local.year);
        date_str.append(" ");
        proof {
            reveal_strlit(" ");
        }
        date_str.append(local.zone_label.as_str());
        let r = match weather {
            Some(w) => {
                let mut weather_temp = format_deci(w.temperature_deci_celsius);
                weather_temp.append("\u{b0}C");
                let mut wind_str = String::from_str("W: ");
                wind_str.append(format_deci(w.wind_speed_deci_mps).as_str());
                wind_str.append("m/s");
                let mut hum_str = String::from_str("H: ");
                hum_str.append(dec_i64(w.humidity_percent as i64).as_str());
                hum_str.append("%");
                DisplayState {
                    time_str,
                    date_str,
                    weather_temp,
                    weather_desc: w.description.clone(),
                    weather_icon: w.icon_code.clone(),
                    wind_str,
                    hum_str,
                    city_name: w.city.clone(),
                    movement_events,
                }
            },
            None => DisplayState {
                time_str,
                date_str,
                weather_temp: String::new(),
                weather_desc: String::new(),
                weather_icon: String::new(),
                wind_str: String::new(),
                hum_str: String::new(),
                city_name: String::new(),
                movement_events,
            },
        };
        assert(r@ =~~= build_spec(*local, opt_record_view(*weather), r.movement_events.deep_view()));
        r
    }
}

/// Law: building is deterministic — identical inputs yield structurally
/// equal snapshots.
pub proof fn lemma_build_deterministic(
    lt1: LocalTime,
    lt2: LocalTime,
    w1: Option<WeatherRecordView>,
    w2: Option<WeatherRecordView>,
    e1: Seq<Seq<char>>,
    e2: Seq<Seq<char>>,
)
    requires
        lt1 == lt2,
        w1 == w2,
        e1 == e2,
    ensures
        build_spec(lt1, w1, e1) == build_spec(lt2, w2, e2),
{
}

/// Icon color by the first two characters of the icon code: clear sky and
/// thunder yellow, rain blue, snow white, clouds and mist gray, anything
/// else (unknown or too short a code) white.
pub open spec fn icon_color_spec(code: Seq<char>) -> DrawColor {
    if code.len() >= 2 {
        let c0 = code[0];
        let c1 = code[1];
        if (c0 == '0' && (c1 == '1' || c1 == '2')) || (c0 == '1' && c1 == '1') {
            DrawColor::Yellow
        } else if (c0 == '0' && c1 == '9') || (c0 == '1' && c1 == '0') {
            DrawColor::Blue
        } else if c0 == '1' && c1 == '3' {
            DrawColor::White
        } else if (c0 == '0' && (c1 == '3' || c1 == '4')) || (c0 == '5' && c1 == '0') {
            DrawColor::Gray
        } else {
            DrawColor::White
        }
    } else {
        DrawColor::White
    }
}

/// Determine the icon color for a weather condition code.
pub fn get_weather_icon_color(icon_code: &str) -> (r: DrawColor)
    ensures
        r == icon_color_spec(icon_code@),
{
    let n = icon_code.unicode_len();
    if n < 2 {
        return DrawColor::White;
    }
    let c0 = icon_code.get_char(0);
    let c1 = icon_code.get_char(1);
    if (c0 == '0' && (c1 == '1' || c1 == '2')) || (c0 == '1' && c1 == '1') {
        DrawColor::Yellow
    } else if (c0 == '0' && c1 == '9') || (c0 == '1' && c1 == '0') {
        DrawColor::Blue
    } else if c0 == '1' && c1 == '3' {
        DrawColor::White
    } else if (c0 == '0' && (c1 == '3' || c1 == '4')) || (c0 == '5' && c1 == '0') {
        DrawColor::Gray
    } else {
        DrawColor::White
    }
}

pub open spec fn is_code(code: Seq<char>, a: char, b: char, c: char) -> bool {
    code.len() == 3 && code[0] == a && code[1] == b && code[2] == c
}

/// The fallback glyph for an icon code, used when no bitmap exists for it:
/// a fixed table of the twelve known codes, a placeholder for the rest.
pub open spec fn symbol_spec(code: Seq<char>) -> Seq<char> {
    if is_code(code, '0', '1', 'd') {
        "\u{2600}"@
    } else if is_code(code, '0', '1', 'n') {
        "\u{1f319}"@
    } else if is_code(code, '0', '2', 'd') {
        "\u{1f324}"@
    } else if is_code(code, '0', '2', 'n') {
        "\u{2601}"@
    } else if is_code(code, '0', '3', 'd') || is_code(code, '0', '3', 'n') {
        "\u{2601}"@
    } else if is_code(code, '0', '4', 'd') || is_code(code, '0', '4', 'n') {
        "\u{2601}"@
    } else if is_code(code, '0', '9', 'd') || is_code(code, '0', '9', 'n') {
        "\u{1f327}"@
    } else if is_code(code, '1', '0', 'd') {
        "\u{1f326}"@
    } else if is_code(code, '1', '0', 'n') {
        "\u{1f327}"@
    } else if is_code(code, '1', '1', 'd') || is_code(code, '1', '1', 'n') {
        "\u{26c8}"@
    } else if is_code(code, '1', '3', 'd') || is_code(code, '1', '3', 'n') {
        "\u{2744}"@
    } else if is_code(code, '5', '0', 'd') || is_code(code, '5', '0', 'n') {
        "\u{1f32b}"@
    } else {
        "\u{2753}"@
    }
}

/// Map a weather condition code to its fallback glyph.
pub fn get_weather_symbol(icon_code: &str) -> (r: &'static str)
    ensures
        r@ == symbol_spec(icon_code@),
{
    let n = icon_code.unicode_len();
    if n != 3 {
        return "\u{2753}";
    }
    let c0 = icon_code.get_char(0);
    let c1 = icon_code.get_char(1);
    let c2 = icon_code.get_char(2);
    if c2 != 'd' && c2 != 'n' {
        return "\u{2753}";
    }
    let day = c2 == 'd';
    if c0 == '0' && c1 == '1' {
        if day {
            "\u{2600}"
        } else {
            "\u{1f319}"
        }
    } else if c0 == '0' && c1 == '2' {
        if day {
            "\u{1f324}"
        } else {
            "\u{2601}"
        }
    } else if c0 == '0' && (c1 == '3' || c1 == '4') {
        "\u{2601}"
    } else if c0 == '0' && c1 == '9' {
        "\u{1f327}"
    } else if c0 == '1' && c1 == '0' {
        if day {
            "\u{1f326}"
        } else {
            "\u{1f327}"
        }
    } else if c0 == '1' && c1 == '1' {
        "\u{26c8}"
    } else if c0 == '1' && c1 == '3' {
        "\u{2744}"
    } else if c0 == '5' && c1 == '0' {
        "\u{1f32b}"
    } else {
        "\u{2753}"
    }
}

} // verus!
