//! The render planner: decides which drawing operations a display snapshot
//! needs, redrawing only when the snapshot changed (or when forced) to keep
//! flicker down.
//!
//! Rather than clearing the whole screen each frame, the plan overwrites the
//! affected regions in place: date and time are always redrawn, the weather
//! block only while a record is shown, and the movement-event area is erased
//! with a filled rectangle before its entries are drawn again. The trade-off:
//! a full clear would be simpler but makes the whole screen blink once per
//! change; region overwriting leaves untouched pixels alone.
//!
//! The planner emits plain drawing commands; the embedding program replays
//! them against the physical display and may drop individual failing
//! primitives without harm.

use vstd::prelude::*;

use crate::display_state::{
    empty_state_view, get_weather_icon_color, get_weather_symbol, icon_color_spec, symbol_spec,
    DisplayState, DisplayStateView, DrawColor,
};

verus! {

/// The two text styles the display uses: the body font and the large
/// symbol font of the fallback weather glyph.
#[derive(Clone, Copy, PartialEq, Eq, Structural, Debug)]
pub enum TextStyle {
    Body,
    Symbol,
}

/// One drawing command for the 240x320 display.
#[derive(Debug, PartialEq)]
pub enum DrawOp {
    /// Draw `text` with its top-left anchor at `(x, y)`.
    Text { x: i32, y: i32, style: TextStyle, text: String },
    /// Fill the axis-aligned rectangle at `(x, y)` of the given size.
    FillRect { x: i32, y: i32, width: u32, height: u32, color: DrawColor },
    /// Draw each listed pixel in the given color.
    Pixels { points: Vec<(i32, i32)>, color: DrawColor },
}

pub ghost enum DrawOpView {
    Text { x: i32, y: i32, style: TextStyle, text: Seq<char> },
    FillRect { x: i32, y: i32, width: u32, height: u32, color: DrawColor },
    Pixels { points: Seq<(i32, i32)>, color: DrawColor },
}

impl View for DrawOp {
    type V = DrawOpView;

    open spec fn view(&self) -> DrawOpView {
        match self {
            DrawOp::Text { x, y, style, text } => DrawOpView::Text {
                x: *x,
                y: *y,
                style: *style,
                text: text@,
            },
            DrawOp::FillRect { x, y, width, height, color } => DrawOpView::FillRect {
                x: *x,
                y: *y,
                width: *width,
                height: *height,
                color: *color,
            },
            DrawOp::Pixels { points, color } => DrawOpView::Pixels {
                points: points@,
                color: *color,
            },
        }
    }
}

pub open spec fn ops_view(ops: Seq<DrawOp>) -> Seq<DrawOpView> {
    ops.map_values(|op: DrawOp| op@)
}

pub open spec fn opt_bytes_view(b: Option<&Vec<u8>>) -> Option<Seq<u8>> {
    match b {
        Option::Some(v) => Option::Some(v@),
        Option::None => Option::None,
    }
}

// ---------------------------------------------------------------------------
// Weather icon
// ---------------------------------------------------------------------------

/// Whether the icon bitmap has the bit for pixel `(x, y)` set. The bitmap is
/// 1 bit per pixel, row-major, 5 bytes per 40-pixel row, most significant
/// bit first within each byte; positions beyond the data are unset.
pub open spec fn bit_set(data: Seq<u8>, x: int, y: int) -> bool {
    let byte_index = y * 5 + x / 8;
    let shift = (7 - (x % 8)) as u32;
    0 <= byte_index < data.len() && (data[byte_index] >> shift) & 1 == 1
}

/// The set pixels among the first `n` positions of the 40x40 icon grid in
/// row-major order, each translated to its fixed screen anchor at (160, 70).
pub open spec fn icon_points_upto(data: Seq<u8>, n: int) -> Seq<(i32, i32)>
    decreases n,
{
    if n <= 0 {
        Seq::empty()
    } else {
        let i = n - 1;
        let x = i % 40;
        let y = i / 40;
        icon_points_upto(data, i) + (if bit_set(data, x, y) {
            seq![(((160 + x) as i32, (70 + y) as i32))]
        } else {
            Seq::empty()
        })
    }
}

/// All set pixels of the 40x40 icon bitmap, in row-major order.
pub open spec fn icon_points(data: Seq<u8>) -> Seq<(i32, i32)> {
    icon_points_upto(data, 1600)
}

/// Decodes the 1-bit-per-pixel 40x40 icon bitmap into the screen positions
/// of its set pixels, row-major.
pub fn decode_icon_pixels(data: &Vec<u8>) -> (pts: Vec<(i32, i32)>)
    ensures
        pts@ == icon_points(data@),
{
    let mut pts: Vec<(i32, i32)> = Vec::new();
    let mut p: usize = 0;
    while p < 1600
        invariant
            p <= 1600,
            pts@ =~= icon_points_upto(data@, p as int),
        decreases 1600 - p,
    {
        let x = p % 40;
        let y = p / 40;
        let byte_index = y * 5 + x / 8;
        let shift = (7 - (x % 8)) as u32;
        if byte_index < data.len() {
            if (data[byte_index] >> shift) & 1 == 1 {
                pts.push((160 + x as i32, 70 + y as i32));
            }
        }
        p = p + 1;
    }
    pts
}

/// The drawing of the weather icon: the decoded bitmap pixels in the icon's
/// color when a bitmap exists for the code, else the fallback glyph in the
/// symbol font at the same anchor.
pub open spec fn icon_ops_spec(code: Seq<char>, bitmap: Option<Seq<u8>>) -> Seq<DrawOpView> {
    match bitmap {
        Option::Some(data) => seq![
            DrawOpView::Pixels { points: icon_points(data), color: icon_color_spec(code) },
        ],
        Option::None => seq![
            DrawOpView::Text { x: 160, y: 70, style: TextStyle::Symbol, text: symbol_spec(code) },
        ],
    }
}

/// Plans the weather-icon drawing for `icon_code`, given the bitmap the
/// embedding program has for that code (if any).
pub fn render_weather_icon(icon_code: &str, icon_bitmap: Option<&Vec<u8>>) -> (ops: Vec<DrawOp>)
    ensures
        ops_view(ops@) == icon_ops_spec(icon_code@, opt_bytes_view(icon_bitmap)),
{
    let mut ops: Vec<DrawOp> = Vec::new();
    match icon_bitmap {
        Some(data) => {
            let color = get_weather_icon_color(icon_code);
            let points = decode_icon_pixels(data);
            ops.push(DrawOp::Pixels { points, color });
        },
        None => {
            let symbol = get_weather_symbol(icon_code);
            ops.push(
                DrawOp::Text {
                    x: 160,
                    y: 70,
                    style: TextStyle::Symbol,
                    text: String::from_str(symbol),
                },
            );
        },
    }
    assert(ops_view(ops@) =~= icon_ops_spec(icon_code@, opt_bytes_view(icon_bitmap)));
    ops
}

// ---------------------------------------------------------------------------
// Movement events
// ---------------------------------------------------------------------------

/// The text command for movement event `i`: even indices in the left column,
/// odd indices in the right, the row advancing after every pair.
pub open spec fn event_op(events: Seq<Seq<char>>, i: int) -> DrawOpView {
    DrawOpView::Text {
        x: if i % 2 == 0 {
            10
        } else {
            120
        },
        y: (220 + 20 * (i / 2)) as i32,
        style: TextStyle::Body,
        text: events[i],
    }
}

pub open spec fn event_ops_upto(events: Seq<Seq<char>>, n: int) -> Seq<DrawOpView>
    decreases n,
{
    if n <= 0 {
        Seq::empty()
    } else {
        event_ops_upto(events, n - 1) + seq![event_op(events, n - 1)]
    }
}

/// The text commands for all movement events, two columns, newest first.
pub open spec fn event_ops(events: Seq<Seq<char>>) -> Seq<DrawOpView> {
    event_ops_upto(events, events.len() as int)
}

/// Plans the movement-event text commands.
pub fn render_movement_events(events: &Vec<String>) -> (ops: Vec<DrawOp>)
    requires
        events@.len() <= 100_000_000,
    ensures
        ops_view(ops@) == event_ops(events.deep_view()),
{
    let mut ops: Vec<DrawOp> = Vec::new();
    let mut i: usize = 0;
    while i < events.len()
        invariant
            i <= events@.len(),
            events@.len() <= 100_000_000,
            ops_view(ops@) =~= event_ops_upto(events.deep_view(), i as int),
        decreases events@.len() - i,
    {
        let x: i32 = if i % 2 == 0 {
            10
        } else {
            120
        };
        let y: i32 = 220 + 20 * ((i as i32) / 2);
        ops.push(DrawOp::Text { x, y, style: TextStyle::Body, text: events[i].clone() });
        i = i + 1;
    }
    assert(ops_view(ops@) =~= event_ops(events.deep_view()));
    ops
}

// ---------------------------------------------------------------------------
// The full plan
// ---------------------------------------------------------------------------

/// The complete drawing plan for a snapshot: date and time always; while a
/// record is shown, also the weather block, the icon, an erase of the event
/// area and the event entries.
pub open spec fn render_ops_spec(s: DisplayStateView, bitmap: Option<Seq<u8>>) -> Seq<DrawOpView> {
    let base = seq![
        DrawOpView::Text { x: 10, y: 20, style: TextStyle::Body, text: s.date_str },
        DrawOpView::Text { x: 10, y: 40, style: TextStyle::Body, text: s.time_str },
    ];
    if s.city_name.len() == 0 {
        base
    } else {
        base + seq![
            DrawOpView::Text { x: 10, y: 60, style: TextStyle::Body, text: s.city_name },
            DrawOpView::Text { x: 10, y: 90, style: TextStyle::Body, text: s.weather_temp },
            DrawOpView::Text { x: 10, y: 120, style: TextStyle::Body, text: s.weather_desc },
            DrawOpView::Text { x: 10, y: 150, style: TextStyle::Body, text: s.wind_str },
            DrawOpView::Text { x: 10, y: 180, style: TextStyle::Body, text: s.hum_str },
        ] + icon_ops_spec(s.weather_icon, bitmap) + seq![
            DrawOpView::FillRect { x: 0, y: 210, width: 240, height: 80, color: DrawColor::Black },
        ] + event_ops(s.movement_events)
    }
}

/// Plans every drawing operation the snapshot needs, overwriting regions in
/// place rather than clearing the screen.
pub fn render_display(state: &DisplayState, icon_bitmap: Option<&Vec<u8>>) -> (ops: Vec<DrawOp>)
    requires
        state.movement_events@.len() <= 100_000_000,
    ensures
        ops_view(ops@) == render_ops_spec(state@, opt_bytes_view(icon_bitmap)),
{
    let mut ops: Vec<DrawOp> = Vec::new();
    ops.push(
        DrawOp::Text { x: 10, y: 20, style: TextStyle::Body, text: state.date_str.clone() },
    );
    ops.push(
        DrawOp::Text { x: 10, y: 40, style: TextStyle::Body, text: state.time_str.clone() },
    );
    if !state.city_name.as_str().is_empty() {
        ops.push(
            DrawOp::Text { x: 10, y: 60, style: TextStyle::Body, text: state.city_name.clone() },
        );
        ops.push(
            DrawOp::Text { x: 10, y: 90, style: TextStyle::Body, text: state.weather_temp.clone() },
        );
        ops.push(
            DrawOp::Text {
                x: 10,
                y: 120,
                style: TextStyle::Body,
                text: state.weather_desc.clone(),
            },
        );
        ops.push(
            DrawOp::Text { x: 10, y: 150, style: TextStyle::Body, text: state.wind_str.clone() },
        );
        ops.push(
            DrawOp::Text { x: 10, y: 180, style: TextStyle::Body, text: state.hum_str.clone() },
        );
        let mut icon_ops = render_weather_icon(state.weather_icon.as_str(), icon_bitmap);
        ops.append(&mut icon_ops);
        ops.push(
            DrawOp::FillRect { x: 0, y: 210, width: 240, height: 80, color: DrawColor::Black },
        );
        let mut ev_ops = render_movement_events(&state.movement_events);
        ops.append(&mut ev_ops);
    }
    assert(ops_view(ops@) =~= render_ops_spec(state@, opt_bytes_view(icon_bitmap)));
    ops
}

// ---------------------------------------------------------------------------
// The engine
// ---------------------------------------------------------------------------

/// Diff-based renderer: keeps the previously rendered snapshot and plans
/// drawing only when the new snapshot differs (or when forced).
pub struct RenderEngine {
    pub previous_state: DisplayState,
}

impl RenderEngine {
    /// A fresh engine whose remembered snapshot is empty, so the first
    /// render always draws.
    pub fn new() -> (r: RenderEngine)
        ensures
            r.previous_state@ == empty_state_view(),
    {
        RenderEngine { previous_state: DisplayState::new() }
    }

    /// Plans the drawing for `new_state`. When neither forced nor different
    /// from the previous snapshot, nothing is drawn and the previous
    /// snapshot is kept; otherwise the full plan is emitted and `new_state`
    /// becomes the remembered snapshot.
    pub fn render(
        &mut self,
        new_state: DisplayState,
        icon_bitmap: Option<&Vec<u8>>,
        forced: bool,
    ) -> (ops: Vec<DrawOp>)
        requires
            new_state.movement_events@.len() <= 100_000_000,
        ensures
            (forced || old(self).previous_state@ != new_state@) ==> ops_view(ops@)
                == render_ops_spec(new_state@, opt_bytes_view(icon_bitmap)),
            (forced || old(self).previous_state@ != new_state@)
                ==> final(self).previous_state@ == new_state@,
            (!forced && old(self).previous_state@ == new_state@) ==> ops@.len() == 0,
            (!forced && old(self).previous_state@ == new_state@)
                ==> final(self).previous_state == old(self).previous_state,
    {
        if forced || !self.previous_state.equals(&new_state) {
            let ops = render_display(&new_state, icon_bitmap);
            self.previous_state = new_state;
            ops
        } else {
            Vec::new()
        }
    }
}

} // verus!
