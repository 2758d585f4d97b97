//! Fixed window geometry, colors, extended-style arithmetic and the
//! control layout rules of the runner window.
//!
//! The extended-style constants carry the platform's numeric values, so
//! the style words computed here can be written to the window verbatim.

use vstd::prelude::*;
use crate::timer::{duration_text, format_duration, CAP_SECONDS};

verus! {

/// Fixed width of the runner window.
pub const WINDOW_WIDTH: u32 = 400;

/// Fixed height of the runner window.
pub const WINDOW_HEIGHT: u32 = 300;

/// Dark blue-gray window background.
pub const BACKGROUND_COLOR: u32 = 0x001E1E2E;

/// Light gray text color.
pub const TEXT_COLOR: u32 = 0x00CDD6F4;

/// Extended-style bit of a window that appears as an application window.
pub const EX_STYLE_APP_WINDOW: u32 = 0x00040000;

/// Extended-style bit of a tool window.
pub const EX_STYLE_TOOL_WINDOW: u32 = 0x00000080;

/// Extended-style bit of a click-through window.
pub const EX_STYLE_TRANSPARENT: u32 = 0x00000020;

/// Extended-style bit of a layered window.
pub const EX_STYLE_LAYERED: u32 = 0x00080000;

/// The three bits set together while the window is parked in the tray.
pub const EX_STYLE_TRAY_MARKS: u32 = EX_STYLE_TOOL_WINDOW | EX_STYLE_TRANSPARENT
    | EX_STYLE_LAYERED;

/// The extended style after a "Show" transition: the tray marks
/// cleared, the app-window bit set, everything else kept.
pub open spec fn shown_ex_style(s: u32) -> u32 {
    (s & !EX_STYLE_TRAY_MARKS) | EX_STYLE_APP_WINDOW
}

/// The extended style after a "Hide" transition: the app-window bit
/// cleared, the tray marks set, everything else kept.
pub open spec fn hidden_ex_style(s: u32) -> u32 {
    (s & !EX_STYLE_APP_WINDOW) | EX_STYLE_TRAY_MARKS
}

proof fn lemma_tray_marks_value()
    ensures
        EX_STYLE_TRAY_MARKS == 0x000800A0u32,
{
    assert(0x00000080u32 | 0x00000020u32 | 0x00080000u32 == 0x000800A0u32) by (bit_vector);
}

/// Computes the extended style of a presented window.
pub fn apply_shown_ex_style(s: u32) -> (r: u32)
    ensures
        r == shown_ex_style(s),
{
    (s & !EX_STYLE_TRAY_MARKS) | EX_STYLE_APP_WINDOW
}

/// Computes the extended style of a tray-parked window.
pub fn apply_hidden_ex_style(s: u32) -> (r: u32)
    ensures
        r == hidden_ex_style(s),
{
    (s & !EX_STYLE_APP_WINDOW) | EX_STYLE_TRAY_MARKS
}

/// A second "Show" changes the extended style no further.
pub proof fn lemma_shown_style_idempotent(s: u32)
    ensures
        shown_ex_style(shown_ex_style(s)) == shown_ex_style(s),
{
    lemma_tray_marks_value();
    let t = shown_ex_style(s);
    assert(t == (s & !0x000800A0u32) | 0x00040000u32);
    assert((((s & !0x000800A0u32) | 0x00040000u32) & !0x000800A0u32) | 0x00040000u32 == (s
        & !0x000800A0u32) | 0x00040000u32) by (bit_vector);
}

/// A second "Hide" changes the extended style no further.
pub proof fn lemma_hidden_style_idempotent(s: u32)
    ensures
        hidden_ex_style(hidden_ex_style(s)) == hidden_ex_style(s),
{
    lemma_tray_marks_value();
    assert((((s & !0x00040000u32) | 0x000800A0u32) & !0x00040000u32) | 0x000800A0u32 == (s
        & !0x00040000u32) | 0x000800A0u32) by (bit_vector);
}

/// After "Hide" the window carries all three tray marks and no
/// app-window bit; after "Show" the reverse.
pub proof fn lemma_style_marks(s: u32)
    ensures
        hidden_ex_style(s) & EX_STYLE_APP_WINDOW == 0,
        hidden_ex_style(s) & EX_STYLE_TOOL_WINDOW != 0,
        hidden_ex_style(s) & EX_STYLE_TRANSPARENT != 0,
        hidden_ex_style(s) & EX_STYLE_LAYERED != 0,
        shown_ex_style(s) & EX_STYLE_APP_WINDOW != 0,
        shown_ex_style(s) & EX_STYLE_TOOL_WINDOW == 0,
        shown_ex_style(s) & EX_STYLE_TRANSPARENT == 0,
        shown_ex_style(s) & EX_STYLE_LAYERED == 0,
{
    lemma_tray_marks_value();
    assert(((s & !0x00040000u32) | 0x000800A0u32) & 0x00040000u32 == 0 && ((s & !0x00040000u32)
        | 0x000800A0u32) & 0x00000080u32 != 0 && ((s & !0x00040000u32) | 0x000800A0u32)
        & 0x00000020u32 != 0 && ((s & !0x00040000u32) | 0x000800A0u32) & 0x00080000u32 != 0 && ((s
        & !0x000800A0u32) | 0x00040000u32) & 0x00040000u32 != 0 && ((s & !0x000800A0u32)
        | 0x00040000u32) & 0x00000080u32 == 0 && ((s & !0x000800A0u32) | 0x00040000u32)
        & 0x00000020u32 == 0 && ((s & !0x000800A0u32) | 0x00040000u32) & 0x00080000u32 == 0)
        by (bit_vector);
}

/// How a child control answers the pre-paint background query: the
/// duration label paints its background opaquely in the window color so
/// the refreshed text stays legible, every other label blends in; all
/// draw with the fixed text color.
pub struct PaintDecision {
    /// Paint the background opaquely rather than transparently.
    pub opaque: bool,
    /// Background color to use when painting opaquely.
    pub background_color: u32,
    /// Foreground text color, always set.
    pub text_color: u32,
}

/// Decides the background mode and colors for a control about to draw.
pub fn paint_decision(is_duration_label: bool) -> (d: PaintDecision)
    ensures
        d.opaque == is_duration_label,
        d.background_color == BACKGROUND_COLOR,
        d.text_color == TEXT_COLOR,
{
    PaintDecision {
        opaque: is_duration_label,
        background_color: BACKGROUND_COLOR,
        text_color: TEXT_COLOR,
    }
}

/// A label's width from its measured text extent: the extent plus 20
/// padding, or the fallback 200 when measurement failed.
pub fn padded_text_width(measured: Option<u32>) -> (w: u32)
    requires
        (measured matches Some(cx) ==> cx + 20 <= u32::MAX),
    ensures
        w == (match measured {
            Some(cx) => cx + 20,
            None => 200int,
        }),
{
    match measured {
        Some(cx) => cx + 20,
        None => 200,
    }
}

/// The horizontal position that centers a control of the given width in
/// the fixed window width, exactly as the platform's truncating signed
/// division places it (negative when the control is wider than the
/// window).
pub fn centered_label_x(width: u32) -> (x: i32)
    requires
        width <= i32::MAX,
    ensures
        width <= WINDOW_WIDTH ==> x == (WINDOW_WIDTH - width as int) / 2,
        width > WINDOW_WIDTH ==> x == -((width as int - WINDOW_WIDTH) / 2),
{
    if width <= WINDOW_WIDTH {
        ((WINDOW_WIDTH - width) / 2) as i32
    } else {
        -(((width - WINDOW_WIDTH) / 2) as i32)
    }
}

/// The full width and horizontal position of one styled label: the
/// measured-or-fallback width of [`padded_text_width`], 40 more
/// padding, then centered by [`centered_label_x`].
pub fn label_placement(measured: Option<u32>) -> (p: (u32, i32))
    requires
        (measured matches Some(cx) ==> cx + 60 <= i32::MAX),
    ensures
        p.0 == (match measured {
            Some(cx) => cx + 60,
            None => 240int,
        }),
        p.0 <= WINDOW_WIDTH ==> p.1 == (WINDOW_WIDTH - p.0 as int) / 2,
        p.0 > WINDOW_WIDTH ==> p.1 == -((p.0 as int - WINDOW_WIDTH) / 2),
{
    let w = padded_text_width(measured) + 40;
    let x = centered_label_x(w);
    (w, x)
}

/// What the main window is created from: the fixed window class, the
/// resolved title, the fixed size and the dark background brush.
pub struct WindowPlan {
    pub class_name: String,
    pub title: String,
    pub width: u32,
    pub height: u32,
    pub background: u32,
}

/// The main window's creation parameters for a resolved title.
pub fn window_plan(title: &String) -> (w: WindowPlan)
    ensures
        w.class_name@ == "QuestPasser"@,
        w.title@ == title@,
        w.width == WINDOW_WIDTH,
        w.height == WINDOW_HEIGHT,
        w.background == BACKGROUND_COLOR,
{
    WindowPlan {
        class_name: String::from_str("QuestPasser"),
        title: title.clone(),
        width: 400,
        height: 300,
        background: BACKGROUND_COLOR,
    }
}

/// One styled child control of the startup sequence: text, vertical
/// offset, height, font face, size and weight.  The horizontal
/// placement follows from the measured text width through
/// [`padded_text_width`] and [`centered_label_x`].
pub struct LabelPlan {
    pub text: String,
    pub y: i32,
    pub height: i32,
    pub font_name: String,
    pub font_size: i32,
    pub bold: bool,
}

/// The four styled labels created at startup, in creation order: the
/// resolved title, the branding line, the subtitle, and the duration
/// line starting at zero elapsed seconds; all in the fixed face.
pub fn startup_labels(title: &String) -> (m: Vec<LabelPlan>)
    ensures
        m@.len() == 4,
        forall|k: int| 0 <= k < 4 ==> (#[trigger] m@[k]).font_name@ == "Segoe UI"@,
        m@[0].text@ == title@ && m@[0].y == 50 && m@[0].height == 40 && m@[0].font_size == 24
            && m@[0].bold,
        m@[1].text@ == "Quest Passer"@ && m@[1].y == 20 && m@[1].height == 30 && m@[1].font_size
            == 16 && m@[1].bold,
        m@[2].text@ == "Active Game Session"@ && m@[2].y == 90 && m@[2].height == 25
            && m@[2].font_size == 18 && !m@[2].bold,
        m@[3].text@ == duration_text(0) && m@[3].y == WINDOW_HEIGHT - 100 && m@[3].height == 30
            && m@[3].font_size == 20 && !m@[3].bold,
{
    let mut m: Vec<LabelPlan> = Vec::new();
    m.push(
        LabelPlan {
            text: title.clone(),
            y: 50,
            height: 40,
            font_name: String::from_str("Segoe UI"),
            font_size: 24,
            bold: true,
        },
    );
    m.push(
        LabelPlan {
            text: String::from_str("Quest Passer"),
            y: 20,
            height: 30,
            font_name: String::from_str("Segoe UI"),
            font_size: 16,
            bold: true,
        },
    );
    m.push(
        LabelPlan {
            text: String::from_str("Active Game Session"),
            y: 90,
            height: 25,
            font_name: String::from_str("Segoe UI"),
            font_size: 18,
            bold: false,
        },
    );
    m.push(
        LabelPlan {
            text: format_duration(0),
            y: 200,
            height: 30,
            font_name: String::from_str("Segoe UI"),
            font_size: 20,
            bold: false,
        },
    );
    m
}

/// Geometry and range of the progress indicator: a thin bar above the
/// duration line, spanning the window minus the side margins, running
/// from 0 to [`CAP_SECONDS`].
pub struct ProgressBarPlan {
    pub x: i32,
    pub y: i32,
    pub width: i32,
    pub height: i32,
    pub range_max: u32,
}

/// The progress indicator's fixed placement and range.
pub fn progress_bar_plan() -> (p: ProgressBarPlan)
    ensures
        p.x == 20,
        p.y == WINDOW_HEIGHT - 65,
        p.width == WINDOW_WIDTH - 40,
        p.height == 6,
        p.range_max == CAP_SECONDS,
{
    ProgressBarPlan { x: 20, y: 235, width: 360, height: 6, range_max: 900 }
}

/// The UTF-16 code units of one character: the unit itself below
/// 0x10000, else the surrogate pair.
pub open spec fn utf16_units(c: char) -> Seq<u16> {
    let v = c as int;
    if v < 0x10000 {
        seq![v as u16]
    } else {
        seq![
            (0xD800 + ((v - 0x10000) / 0x400)) as u16,
            (0xDC00 + ((v - 0x10000) % 0x400)) as u16,
        ]
    }
}

/// The UTF-16 code units of the first `i` characters of `s`.
pub open spec fn utf16_prefix(s: Seq<char>, i: int) -> Seq<u16>
    decreases i,
{
    if i <= 0 {
        Seq::empty()
    } else {
        utf16_prefix(s, i - 1) + utf16_units(s[i - 1])
    }
}

/// A platform wide string: the UTF-16 code units of the text followed
/// by the terminating zero unit.
pub open spec fn wide_text(s: Seq<char>) -> Seq<u16> {
    utf16_prefix(s, s.len() as int) + seq![0u16]
}

/// Encodes text as the zero-terminated UTF-16 wide string the platform
/// string APIs take.
pub fn to_wstring(s: &str) -> (r: Vec<u16>)
    ensures
        r@ == wide_text(s@),
{
    let n = s.unicode_len();
    let mut out: Vec<u16> = Vec::new();
    let mut i: usize = 0;
    while i < n
        invariant
            n == s@.len(),
            i <= n,
            out@ == utf16_prefix(s@, i as int),
        decreases n - i,
    {
        let c = s.get_char(i);
        let v = c as u32;
        if v < 0x10000 {
            out.push(v as u16);
        } else {
            let off = v - 0x10000;
            assert(off / 0x400 <= 0x3FF) by (nonlinear_arith)
                requires
                    off <= 0xFFFFF,
            ;
            out.push(0xD800u16 + (off / 0x400) as u16);
            out.push(0xDC00u16 + (off % 0x400) as u16);
        }
        proof {
            assert(out@ =~= utf16_prefix(s@, i as int + 1));
        }
        i = i + 1;
    }
    out.push(0u16);
    proof {
        assert(out@ =~= wide_text(s@));
    }
    out
}

} // verus!
