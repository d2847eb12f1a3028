//! The style resolver: colours and surface attributes as a total function of
//! what an element is and of how the pointer currently meets it.
//!
//! All quantities are integers. Colour channels and opacity run from 0 to 255,
//! lengths are whole pixels, gradient angles are whole degrees.

use vstd::prelude::*;
use crate::enums::change_type::ChangeType;

verus! {

/// An sRGB colour with its opacity, each channel from 0 to 255.
#[derive(Debug, Clone, Copy, PartialEq, Eq, Structural)]
pub struct Color {
    pub r: u8,
    pub g: u8,
    pub b: u8,
    /// 0 is fully clear, 255 fully opaque.
    pub a: u8,
}

impl Color {
    pub open spec fn spec_rgb(r: u8, g: u8, b: u8) -> Color {
        Color { r, g, b, a: 255 }
    }

    pub open spec fn spec_rgba(r: u8, g: u8, b: u8, a: u8) -> Color {
        Color { r, g, b, a }
    }

    pub open spec fn spec_transparent() -> Color {
        Color { r: 0, g: 0, b: 0, a: 0 }
    }

    pub open spec fn is_opaque(self) -> bool {
        self.a == 255
    }

    /// An opaque colour.
    #[verifier::when_used_as_spec(spec_rgb)]
    pub fn rgb(r: u8, g: u8, b: u8) -> (c: Color)
        ensures
            c == Color::spec_rgb(r, g, b),
    {
        Color { r, g, b, a: 255 }
    }

    /// A colour with the opacity `a`, out of 255.
    #[verifier::when_used_as_spec(spec_rgba)]
    pub fn rgba(r: u8, g: u8, b: u8, a: u8) -> (c: Color)
        ensures
            c == Color::spec_rgba(r, g, b, a),
    {
        Color { r, g, b, a }
    }

    /// The colour that shows nothing.
    #[verifier::when_used_as_spec(spec_transparent)]
    pub fn transparent() -> (c: Color)
        ensures
            c == Color::spec_transparent(),
    {
        Color { r: 0, g: 0, b: 0, a: 0 }
    }
}

/// The interaction status of one element during one render pass. The host
/// supplies it; the state never stores it.
#[derive(Debug, Clone, Copy, PartialEq, Eq, Structural)]
pub enum Status {
    Idle,
    Hovered,
    Pressed,
}

/// The interactive roles that the panel knows.
#[derive(Debug, Clone, Copy, PartialEq, Eq, Structural)]
pub enum Role {
    AcceptAllButton,
    SecondaryButton,
    FinishButton,
    RowSurface,
}

/// The line around a surface.
#[derive(Debug, Clone, Copy, PartialEq, Eq, Structural)]
pub struct Border {
    pub color: Color,
    pub width: u16,
    pub radius: u16,
}

/// The shadow below a surface.
#[derive(Debug, Clone, Copy, PartialEq, Eq, Structural)]
pub struct Shadow {
    pub color: Color,
    pub offset_x: i16,
    pub offset_y: i16,
    pub blur_radius: u16,
}

/// The visual attributes of an interactive element.
#[derive(Debug, Clone, Copy, PartialEq, Eq)]
pub struct Style {
    /// `None` leaves the surface unfilled.
    pub background: Option<Color>,
    pub text_color: Color,
    pub border: Border,
    pub shadow: Shadow,
}

impl Border {
    /// No line and square corners.
    pub open spec fn spec_none() -> Border {
        Border { color: Color::spec_transparent(), width: 0, radius: 0 }
    }

    pub open spec fn spec_rounded(radius: u16) -> Border {
        Border { color: Color::spec_transparent(), width: 0, radius }
    }

    /// No line, corners rounded by `radius`.
    #[verifier::when_used_as_spec(spec_rounded)]
    pub fn rounded(radius: u16) -> (b: Border)
        ensures
            b == Border::spec_rounded(radius),
    {
        Border { color: Color::transparent(), width: 0, radius }
    }
}

impl Shadow {
    pub open spec fn spec_none() -> Shadow {
        Shadow { color: Color::spec_transparent(), offset_x: 0, offset_y: 0, blur_radius: 0 }
    }

    pub open spec fn spec_below(opacity: u8, offset_y: i16, blur_radius: u16) -> Shadow {
        Shadow { color: Color::spec_rgba(0, 0, 0, opacity), offset_x: 0, offset_y, blur_radius }
    }

    /// No shadow.
    #[verifier::when_used_as_spec(spec_none)]
    pub fn none() -> (s: Shadow)
        ensures
            s == Shadow::spec_none(),
    {
        Shadow { color: Color::transparent(), offset_x: 0, offset_y: 0, blur_radius: 0 }
    }

    /// A black shadow straight below the surface.
    #[verifier::when_used_as_spec(spec_below)]
    pub fn below(opacity: u8, offset_y: i16, blur_radius: u16) -> (s: Shadow)
        ensures
            s == Shadow::spec_below(opacity, offset_y, blur_radius),
    {
        Shadow { color: Color::rgba(0, 0, 0, opacity), offset_x: 0, offset_y, blur_radius }
    }
}

/// The accent of a kind of change: green for what was added, amber for what
/// was modified, red for what was deleted.
pub open spec fn spec_accent(kind: ChangeType) -> Color {
    match kind {
        ChangeType::Added => Color::spec_rgb(0x7b, 0xfd, 0x6b),
        ChangeType::Modified => Color::spec_rgb(0xff, 0x9f, 0x4d),
        ChangeType::Deleted => Color::spec_rgb(0xff, 0x57, 0x57),
    }
}

/// The accent colour of a row, keyed by the kind of its change alone.
#[verifier::when_used_as_spec(spec_accent)]
pub fn accent(kind: ChangeType) -> (c: Color)
    ensures
        c == spec_accent(kind),
{
    match kind {
        ChangeType::Added => Color::rgb(0x7b, 0xfd, 0x6b),
        ChangeType::Modified => Color::rgb(0xff, 0x9f, 0x4d),
        ChangeType::Deleted => Color::rgb(0xff, 0x57, 0x57),
    }
}

/// The fixed tones of the panel's texts.
pub open spec fn spec_text_primary() -> Color {
    Color::spec_rgb(0xeb, 0xf4, 0xff)
}

pub open spec fn spec_text_secondary() -> Color {
    Color::spec_rgb(0x6b, 0x72, 0x80)
}

pub open spec fn spec_button_text() -> Color {
    Color::spec_rgb(0xdb, 0xea, 0xfe)
}

pub open spec fn spec_heading_tone() -> Color {
    Color::spec_rgb(0xff, 0xcc, 0x4d)
}

pub open spec fn spec_warning_tone() -> Color {
    Color::spec_rgb(0xff, 0x57, 0x57)
}

/// The tone of titles and running text.
#[verifier::when_used_as_spec(spec_text_primary)]
pub fn text_primary() -> (c: Color)
    ensures
        c == spec_text_primary(),
{
    Color::rgb(0xeb, 0xf4, 0xff)
}

/// The neutral tone of a row's metadata, whatever the kind of its change.
#[verifier::when_used_as_spec(spec_text_secondary)]
pub fn text_secondary() -> (c: Color)
    ensures
        c == spec_text_secondary(),
{
    Color::rgb(0x6b, 0x72, 0x80)
}

/// The tone of the label on every button.
#[verifier::when_used_as_spec(spec_button_text)]
pub fn button_text() -> (c: Color)
    ensures
        c == spec_button_text(),
{
    Color::rgb(0xdb, 0xea, 0xfe)
}

/// The tone of the summary's heading.
#[verifier::when_used_as_spec(spec_heading_tone)]
pub fn heading_tone() -> (c: Color)
    ensures
        c == spec_heading_tone(),
{
    Color::rgb(0xff, 0xcc, 0x4d)
}

/// The tone of the summary's closing warning.
#[verifier::when_used_as_spec(spec_warning_tone)]
pub fn warning_tone() -> (c: Color)
    ensures
        c == spec_warning_tone(),
{
    Color::rgb(0xff, 0x57, 0x57)
}

/// The outline that the two large buttons share.
pub open spec fn spec_pill_outline() -> Border {
    Border { color: Color::spec_rgb(0x07, 0x20, 0x27), width: 1, radius: 100 }
}

/// What an element of `role` looks like while the pointer is elsewhere.
pub open spec fn spec_resting(role: Role) -> Style {
    match role {
        Role::AcceptAllButton => Style {
            background: Some(Color::spec_rgb(0x11, 0x14, 0x1b)),
            text_color: spec_button_text(),
            border: spec_pill_outline(),
            shadow: Shadow::spec_below(115, 2, 6),
        },
        Role::FinishButton => Style {
            background: Some(Color::spec_rgb(0x0b, 0x0d, 0x12)),
            text_color: spec_button_text(),
            border: spec_pill_outline(),
            shadow: Shadow::spec_below(115, 2, 6),
        },
        Role::SecondaryButton => Style {
            background: Some(Color::spec_rgba(255, 255, 255, 13)),
            text_color: spec_button_text(),
            border: Border::spec_rounded(100),
            shadow: Shadow::spec_none(),
        },
        Role::RowSurface => Style {
            background: None,
            text_color: Color::spec_transparent(),
            border: Border::spec_rounded(14),
            shadow: Shadow::spec_none(),
        },
    }
}

/// What an element of `role` looks like under the pointer: the resting style
/// with a lighter fill and, on the large buttons, a deeper shadow.
pub open spec fn spec_hovered(role: Role) -> Style {
    let resting = spec_resting(role);
    match role {
        Role::AcceptAllButton | Role::FinishButton => Style {
            background: Some(Color::spec_rgb(0x08, 0x34, 0x3e)),
            shadow: Shadow::spec_below(153, 3, 10),
            ..resting
        },
        Role::SecondaryButton => Style {
            background: Some(Color::spec_rgba(255, 255, 255, 31)),
            ..resting
        },
        Role::RowSurface => Style {
            background: Some(Color::spec_rgba(255, 255, 255, 10)),
            ..resting
        },
    }
}

/// The style of an element, keyed by its role and its status alone. A press
/// shows the resting style; only hovering has a look of its own.
pub open spec fn spec_resolve(role: Role, status: Status) -> Style {
    match status {
        Status::Hovered => spec_hovered(role),
        Status::Idle | Status::Pressed => spec_resting(role),
    }
}

impl Style {
    /// The style that sets nothing: no fill, no text colour, no border, no
    /// shadow.
    pub open spec fn blank() -> Style {
        Style {
            background: None,
            text_color: Color::spec_transparent(),
            border: Border::spec_none(),
            shadow: Shadow::spec_none(),
        }
    }

    /// Whether nothing of the surface itself is drawn.
    pub open spec fn is_invisible(self) -> bool {
        &&& self.background is None
        &&& self.border.width == 0
        &&& self.shadow == Shadow::spec_none()
    }
}

fn pill_outline() -> (b: Border)
    ensures
        b == spec_pill_outline(),
{
    Border { color: Color::rgb(0x07, 0x20, 0x27), width: 1, radius: 100 }
}

fn resting(role: Role) -> (s: Style)
    ensures
        s == spec_resting(role),
{
    match role {
        Role::AcceptAllButton => Style {
            background: Some(Color::rgb(0x11, 0x14, 0x1b)),
            text_color: button_text(),
            border: pill_outline(),
            shadow: Shadow::below(115, 2, 6),
        },
        Role::FinishButton => Style {
            background: Some(Color::rgb(0x0b, 0x0d, 0x12)),
            text_color: button_text(),
            border: pill_outline(),
            shadow: Shadow::below(115, 2, 6),
        },
        Role::SecondaryButton => Style {
            background: Some(Color::rgba(255, 255, 255, 13)),
            text_color: button_text(),
            border: Border::rounded(100),
            shadow: Shadow::none(),
        },
        Role::RowSurface => Style {
            background: None,
            text_color: Color::transparent(),
            border: Border::rounded(14),
            shadow: Shadow::none(),
        },
    }
}

fn hovered(role: Role) -> (s: Style)
    ensures
        s == spec_hovered(role),
{
    let mut style = resting(role);
    match role {
        Role::AcceptAllButton | Role::FinishButton => {
            style.background = Some(Color::rgb(0x08, 0x34, 0x3e));
            style.shadow = Shadow::below(153, 3, 10);
        },
        Role::SecondaryButton => {
            style.background = Some(Color::rgba(255, 255, 255, 31));
        },
        Role::RowSurface => {
            style.background = Some(Color::rgba(255, 255, 255, 10));
        },
    }
    style
}

/// Resolves the style of an interactive element. It is defined for every
/// role and every status, and depends on nothing else.
#[verifier::when_used_as_spec(spec_resolve)]
pub fn resolve(role: Role, status: Status) -> (s: Style)
    ensures
        s == spec_resolve(role, status),
{
    match status {
        Status::Hovered => hovered(role),
        Status::Idle | Status::Pressed => resting(role),
    }
}

/// Every kind has an opaque accent of its own, and every role has, in every
/// status, a style that sets something.
pub proof fn lemma_styles_are_total(kind: ChangeType, other: ChangeType, role: Role, status: Status)
    ensures
        spec_accent(kind).is_opaque(),
        kind != other ==> spec_accent(kind) != spec_accent(other),
        spec_resolve(role, status) != Style::blank(),
{
}

/// A press has no look of its own: it shows what the idle element shows.
pub proof fn lemma_pressed_shows_idle(role: Role)
    ensures
        spec_resolve(role, Status::Pressed) == spec_resolve(role, Status::Idle),
{
}

/// Hovering always changes the fill, and changes nothing but fill and
/// shadow.
pub proof fn lemma_hovered_differs(role: Role)
    ensures
        spec_resolve(role, Status::Hovered).background != spec_resolve(role, Status::Idle).background,
        spec_resolve(role, Status::Hovered).background is Some,
        spec_resolve(role, Status::Hovered).text_color == spec_resolve(role, Status::Idle).text_color,
        spec_resolve(role, Status::Hovered).border == spec_resolve(role, Status::Idle).border,
{
}

/// A row is invisible until touched: at rest nothing of its surface is
/// drawn, and it is the only role of which this holds.
pub proof fn lemma_only_rows_rest_invisible(role: Role)
    ensures
        spec_resolve(role, Status::Idle).is_invisible() <==> role == Role::RowSurface,
        !spec_resolve(role, Status::Hovered).is_invisible(),
{
}

/// A colour at a place along a gradient's line.
#[derive(Debug, Clone, Copy, PartialEq, Eq, Structural)]
pub struct ColorStop {
    /// The place, in hundredths of the line's length.
    pub offset: u8,
    pub color: Color,
}

/// A linear gradient from `start`, at the beginning of its line, to `end`,
/// at the end of it, through `middle` where there is one.
#[derive(Debug, Clone, Copy, PartialEq, Eq)]
pub struct Gradient {
    /// The direction of the line, in degrees.
    pub angle: u16,
    pub start: Color,
    pub middle: Option<ColorStop>,
    pub end: Color,
}

/// What fills a static surface.
#[derive(Debug, Clone, Copy, PartialEq, Eq)]
pub enum Fill {
    Solid(Color),
    Linear(Gradient),
}

/// The static surfaces of the panel, from the outermost inwards.
#[derive(Debug, Clone, Copy, PartialEq, Eq, Structural)]
pub enum Surface {
    /// The backdrop behind the panel.
    Root,
    /// The panel itself.
    Panel,
    /// The block that holds the analysis summary.
    Summary,
}

/// The visual attributes of a static surface.
#[derive(Debug, Clone, Copy, PartialEq, Eq)]
pub struct SurfaceStyle {
    pub background: Fill,
    pub border: Border,
    pub shadow: Shadow,
}

/// The style of each static surface.
pub open spec fn spec_surface_style(surface: Surface) -> SurfaceStyle {
    match surface {
        Surface::Root => SurfaceStyle {
            background: Fill::Linear(
                Gradient {
                    angle: 0,
                    start: Color::spec_rgb(0x24, 0x24, 0x3e),
                    middle: Some(ColorStop { offset: 50, color: Color::spec_rgb(0x30, 0x2b, 0x63) }),
                    end: Color::spec_rgb(0x0f, 0x0c, 0x29),
                },
            ),
            border: Border::spec_none(),
            shadow: Shadow::spec_none(),
        },
        Surface::Panel => SurfaceStyle {
            background: Fill::Linear(
                Gradient {
                    angle: 180,
                    start: Color::spec_rgb(0x11, 0x14, 0x1b),
                    middle: None,
                    end: Color::spec_rgb(0x0b, 0x0d, 0x12),
                },
            ),
            border: Border::spec_rounded(20),
            shadow: Shadow::spec_below(153, 6, 24),
        },
        Surface::Summary => SurfaceStyle {
            background: Fill::Solid(Color::spec_rgba(255, 255, 255, 8)),
            border: Border { color: spec_warning_tone(), width: 0, radius: 12 },
            shadow: Shadow::spec_none(),
        },
    }
}

/// Resolves the style of a static surface. No interaction changes it.
#[verifier::when_used_as_spec(spec_surface_style)]
pub fn surface_style(surface: Surface) -> (s: SurfaceStyle)
    ensures
        s == spec_surface_style(surface),
{
    match surface {
        Surface::Root => SurfaceStyle {
            background: Fill::Linear(
                Gradient {
                    angle: 0,
                    start: Color::rgb(0x24, 0x24, 0x3e),
                    middle: Some(ColorStop { offset: 50, color: Color::rgb(0x30, 0x2b, 0x63) }),
                    end: Color::rgb(0x0f, 0x0c, 0x29),
                },
            ),
            border: Border::rounded(0),
            shadow: Shadow::none(),
        },
        Surface::Panel => SurfaceStyle {
            background: Fill::Linear(
                Gradient {
                    angle: 180,
                    start: Color::rgb(0x11, 0x14, 0x1b),
                    middle: None,
                    end: Color::rgb(0x0b, 0x0d, 0x12),
                },
            ),
            border: Border::rounded(20),
            shadow: Shadow::below(153, 6, 24),
        },
        Surface::Summary => SurfaceStyle {
            background: Fill::Solid(Color::rgba(255, 255, 255, 8)),
            border: Border { color: warning_tone(), width: 0, radius: 12 },
            shadow: Shadow::none(),
        },
    }
}

} // verus!
