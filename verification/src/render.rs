//! What a frame looks like.
//!
//! Lengths and positions are counted in half pixels, in which everything that
//! is centred comes out whole. Colour components and opacities are counted in
//! thousandths.
use vstd::prelude::*;

use crate::input::{AuthFeedback, LockState};
use crate::window::{LockWindow, XRequest};

verus! {

/// The colours of a frame.
#[derive(Debug, Clone, Copy, PartialEq, Eq, Structural)]
pub enum Color {
    /// Text, `#cdd6f4`.
    Text,
    /// The border of the prompt, `#cba6f7`.
    Mauve,
    /// Refusals, `#f38ba8`.
    Red,
    /// The background, `#1e1e2e`.
    Base,
}

/// A colour by its parts, in thousandths of full red, green and blue.
#[derive(Debug, Clone, Copy, PartialEq, Eq, Structural)]
pub struct Rgb {
    pub red: u32,
    pub green: u32,
    pub blue: u32,
}

/// The font of all texts.
pub const FONT_FAMILY: &'static str = "IosevkaTerm Nerd Font";

/// What is shown of a refusal for which no reason is known.
pub const DEFAULT_FAILURE: &'static str = "Authentication failed";

/// Where the wallpaper lies below the home directory.
pub const WALLPAPER_PATH: &'static str = ".config/x11lock/wallpaper.png";

/// Half pixels in a pixel.
pub const HALVES: i128 = 2;

/// Least width of the box around the prompt, in pixels.
pub const INPUT_MIN_WIDTH: i128 = 200;

/// Free space left and right of the dots, in pixels.
pub const INPUT_PADDING: i128 = 30;

/// Height of the box, in pixels.
pub const INPUT_HEIGHT: i128 = 40;

/// Radius of the corners of the box, in pixels.
pub const INPUT_RADIUS: i128 = 20;

/// Width of the border of the box, in pixels.
pub const BORDER_WIDTH: i128 = 2;

/// Radius of a dot, in pixels.
pub const DOT_RADIUS: i128 = 5;

/// Distance of two dots, in pixels.
pub const DOT_SPACING: i128 = 16;

/// Distance of the time from the middle of the window, in pixels.
pub const TIME_OFFSET_TOP: i128 = 60;

/// Distance of the date from the time, in pixels.
pub const DATE_SPACING: i128 = 8;

/// Distance of the box from the date, in pixels.
pub const INPUT_SPACING: i128 = 24;

/// Distance of the message from the box, in pixels.
pub const ERROR_MSG_SPACING: i128 = 12;

/// Opacity of the tint over the background.
pub const OVERLAY_OPACITY: u32 = 400;

/// Opacity of the inside of the box.
pub const INPUT_BG_OPACITY: u32 = 800;

/// The texts of a frame.
#[derive(Debug, Clone, Copy, PartialEq, Eq, Structural)]
pub enum Label {
    Time,
    Date,
    Message,
}

/// How large a text is, in pixels.
#[derive(Debug, Clone, Copy, PartialEq, Eq, Structural)]
pub struct Extent {
    pub width: i32,
    pub height: i32,
}

/// A rectangle with round corners.
#[derive(Debug, Clone, Copy, PartialEq, Eq, Structural)]
pub struct RoundedRect {
    pub x: i128,
    pub y: i128,
    pub width: i128,
    pub height: i128,
    pub radius: i128,
}

/// A part of a circle, from one angle clockwise to another, in quarter turns.
#[derive(Debug, Clone, Copy, PartialEq, Eq, Structural)]
pub struct Arc {
    pub x: i128,
    pub y: i128,
    pub radius: i128,
    pub from: i32,
    pub to: i32,
}

/// The outline of a rectangle with round corners, as the quarter circles of its
/// corners. Straight lines join them, clockwise from the upper right one.
#[derive(Debug, Clone, Copy, PartialEq, Eq, Structural)]
pub struct Outline {
    pub top_right: Arc,
    pub bottom_right: Arc,
    pub bottom_left: Arc,
    pub top_left: Arc,
}

/// A step in drawing a frame.
#[derive(Debug, Clone, Copy, PartialEq, Eq, Structural)]
pub enum DrawOp {
    /// Paint the scaled wallpaper over the whole window.
    PaintWallpaper,
    /// Paint a colour over the whole window.
    PaintColor { color: Color },
    /// Paint a translucent colour over the whole window.
    PaintTint { color: Color, opacity: u32 },
    /// Show a text, with its upper left corner at a point.
    ShowText { label: Label, x: i128, y: i128, color: Color },
    /// Fill a rectangle with a translucent colour.
    FillRect { outline: Outline, color: Color, opacity: u32 },
    /// Draw the border of a rectangle.
    StrokeRect { outline: Outline, color: Color, line_width: i128 },
    /// Fill a circle.
    FillDot { x: i128, y: i128, radius: i128, color: Color },
}

/// What a frame is made of.
#[derive(Debug, Clone, Copy, PartialEq, Eq, Structural)]
pub struct FrameContent {
    /// Width of the window in pixels.
    pub width: u16,
    /// Height of the window in pixels.
    pub height: u16,
    /// Whether there is a wallpaper.
    pub wallpaper: bool,
    /// What the prompt looks like.
    pub state: LockState,
    /// How many dots the prompt shows.
    pub password_len: usize,
    /// The size of the time.
    pub time: Extent,
    /// The size of the date.
    pub date: Extent,
    /// The size of the message, if there is one.
    pub message: Option<Extent>,
}

/// What the prompt is made of.
#[derive(Debug, Clone, Copy, PartialEq, Eq, Structural)]
pub struct PromptBox {
    /// The middle of the window, in half pixels, which is its width in pixels.
    pub center_x: u16,
    /// The lower edge of the date, in half pixels.
    pub date_bottom: i64,
    /// What the prompt looks like.
    pub state: LockState,
    /// How many dots it shows.
    pub password_len: usize,
}

/// The parts of a colour.
pub open spec fn color_parts(color: Color) -> Rgb {
    match color {
        Color::Text => Rgb { red: 804, green: 839, blue: 957 },
        Color::Mauve => Rgb { red: 796, green: 651, blue: 969 },
        Color::Red => Rgb { red: 953, green: 545, blue: 659 },
        Color::Base => Rgb { red: 118, green: 118, blue: 180 },
    }
}

/// Takes a colour apart.
pub fn rgb(color: Color) -> (res: Rgb)
    ensures
        res == color_parts(color),
{
    match color {
        Color::Text => Rgb { red: 804, green: 839, blue: 957 },
        Color::Mauve => Rgb { red: 796, green: 651, blue: 969 },
        Color::Red => Rgb { red: 953, green: 545, blue: 659 },
        Color::Base => Rgb { red: 118, green: 118, blue: 180 },
    }
}

/// The height of a font in pixels.
pub open spec fn font_pixels(label: Label) -> u32 {
    match label {
        Label::Time => 64,
        Label::Date => 24,
        Label::Message => 16,
    }
}

/// The height of the font of a text, in pixels.
pub fn font_size(label: Label) -> (res: u32)
    ensures
        res == font_pixels(label),
{
    match label {
        Label::Time => 64,
        Label::Date => 24,
        Label::Message => 16,
    }
}

/// The outline of a rectangle: the middle of each corner's circle lies one radius
/// inside both edges, and the arc runs from one edge to the other.
pub open spec fn outline(rect: RoundedRect) -> Outline {
    let left = (rect.x + rect.radius) as i128;
    let right = (rect.x + rect.width - rect.radius) as i128;
    let top = (rect.y + rect.radius) as i128;
    let bottom = (rect.y + rect.height - rect.radius) as i128;
    let r = rect.radius;
    Outline {
        top_right: Arc { x: right, y: top, radius: r, from: (-1) as i32, to: 0 },
        bottom_right: Arc { x: right, y: bottom, radius: r, from: 0, to: 1 },
        bottom_left: Arc { x: left, y: bottom, radius: r, from: 1, to: 2 },
        top_left: Arc { x: left, y: top, radius: r, from: 2, to: 3 },
    }
}

impl PromptBox {
    /// The upper edge of the box, below the date.
    pub open spec fn input_y(self) -> int {
        self.date_bottom + 2 * INPUT_SPACING
    }

    /// The width of the box in pixels: room for all dots, but no less than the
    /// least width.
    pub open spec fn input_width(self) -> int {
        let dots = self.password_len * DOT_SPACING + 2 * INPUT_PADDING;
        if self.password_len > 0 && dots > INPUT_MIN_WIDTH {
            dots
        } else {
            INPUT_MIN_WIDTH as int
        }
    }

    /// The box around the dots, centred.
    pub open spec fn rect(self) -> RoundedRect {
        RoundedRect {
            x: (self.center_x - self.input_width()) as i128,
            y: self.input_y() as i128,
            width: (2 * self.input_width()) as i128,
            height: (2 * INPUT_HEIGHT) as i128,
            radius: (2 * INPUT_RADIUS) as i128,
        }
    }

    /// Where the middle of a dot is: the dots stand in the middle of the box, in
    /// equal distances.
    pub open spec fn dot_x(self, j: int) -> int {
        self.center_x - (self.password_len - 1) * DOT_SPACING + 2 * (j * DOT_SPACING)
    }

    /// One dot.
    pub open spec fn dot(self, j: int) -> DrawOp {
        DrawOp::FillDot {
            x: self.dot_x(j) as i128,
            y: (self.input_y() + INPUT_HEIGHT) as i128,
            radius: (2 * DOT_RADIUS) as i128,
            color: if self.state is Error {
                Color::Red
            } else {
                Color::Text
            },
        }
    }

    /// All that is drawn of the prompt: a box with a border that is red after a
    /// refusal, and a dot for each byte of the password.
    pub open spec fn ops(self) -> Seq<DrawOp> {
        seq![
            DrawOp::FillRect {
                outline: outline(self.rect()),
                color: Color::Base,
                opacity: INPUT_BG_OPACITY,
            },
            DrawOp::StrokeRect {
                outline: outline(self.rect()),
                color: if self.state is Error {
                    Color::Red
                } else {
                    Color::Mauve
                },
                line_width: (2 * BORDER_WIDTH) as i128,
            },
        ] + Seq::new(self.password_len as nat, |j: int| self.dot(j))
    }
}

impl FrameContent {
    /// The background: the wallpaper, or a plain colour, below a tint.
    pub open spec fn background_ops(self) -> Seq<DrawOp> {
        seq![
            if self.wallpaper {
                DrawOp::PaintWallpaper
            } else {
                DrawOp::PaintColor { color: Color::Base }
            },
            DrawOp::PaintTint { color: Color::Base, opacity: OVERLAY_OPACITY },
        ]
    }

    /// Where a text of this width starts so that it is centred.
    pub open spec fn centred(self, text: Extent) -> int {
        self.width - text.width
    }

    /// The upper edge of the time.
    pub open spec fn time_y(self) -> int {
        self.height - 2 * self.time.height - 2 * TIME_OFFSET_TOP
    }

    /// The upper edge of the date, below the time.
    pub open spec fn date_y(self) -> int {
        self.time_y() + 2 * self.time.height + 2 * DATE_SPACING
    }

    /// The lower edge of the date.
    pub open spec fn date_bottom(self) -> int {
        self.date_y() + 2 * self.date.height
    }

    /// The time and the date, both centred.
    pub open spec fn time_ops(self) -> Seq<DrawOp> {
        seq![
            DrawOp::ShowText {
                label: Label::Time,
                x: self.centred(self.time) as i128,
                y: self.time_y() as i128,
                color: Color::Text,
            },
            DrawOp::ShowText {
                label: Label::Date,
                x: self.centred(self.date) as i128,
                y: self.date_y() as i128,
                color: Color::Text,
            },
        ]
    }

    /// The prompt.
    pub open spec fn prompt_box(self) -> PromptBox {
        PromptBox {
            center_x: self.width,
            date_bottom: self.date_bottom() as i64,
            state: self.state,
            password_len: self.password_len,
        }
    }

    /// The message, red and centred below the box, if there is one.
    pub open spec fn message_ops(self) -> Seq<DrawOp> {
        match self.message {
            Some(extent) => seq![
                DrawOp::ShowText {
                    label: Label::Message,
                    x: self.centred(extent) as i128,
                    y: (self.prompt_box().input_y() + 2 * INPUT_HEIGHT + 2 * ERROR_MSG_SPACING) as i128,
                    color: Color::Red,
                },
            ],
            None => Seq::empty(),
        }
    }

    /// All that is drawn, from the back to the front.
    pub open spec fn ops(self) -> Seq<DrawOp> {
        self.background_ops() + self.time_ops() + self.prompt_box().ops() + self.message_ops()
    }
}

/// Draws the background.
fn render_background(content: &FrameContent, ops: &mut Vec<DrawOp>)
    ensures
        final(ops)@ == old(ops)@ + content.background_ops(),
{
    if content.wallpaper {
        ops.push(DrawOp::PaintWallpaper);
    } else {
        ops.push(DrawOp::PaintColor { color: Color::Base });
    }
    ops.push(DrawOp::PaintTint { color: Color::Base, opacity: OVERLAY_OPACITY });
    assert(ops@ =~= old(ops)@ + content.background_ops());
}

/// Draws the time and the date, and returns the lower edge of the date.
fn render_time(content: &FrameContent, ops: &mut Vec<DrawOp>) -> (res: i64)
    ensures
        final(ops)@ == old(ops)@ + content.time_ops(),
        res == content.date_bottom(),
{
    let center_x = content.width as i128;
    let center_y = content.height as i128;

    let time_y = center_y - content.time.height as i128 * HALVES - TIME_OFFSET_TOP * HALVES;
    ops.push(
        DrawOp::ShowText {
            label: Label::Time,
            x: center_x - content.time.width as i128,
            y: time_y,
            color: Color::Text,
        },
    );

    let date_y = time_y + content.time.height as i128 * HALVES + DATE_SPACING * HALVES;
    ops.push(
        DrawOp::ShowText {
            label: Label::Date,
            x: center_x - content.date.width as i128,
            y: date_y,
            color: Color::Text,
        },
    );
    assert(ops@ =~= old(ops)@ + content.time_ops());
    (date_y + content.date.height as i128 * HALVES) as i64
}

/// The outline of a rectangle with round corners.
fn rounded_rect(x: i128, y: i128, w: i128, h: i128, r: i128) -> (res: Outline)
    requires
        0 <= r <= w,
        r <= h,
        x + w <= i128::MAX,
        y + h <= i128::MAX,
    ensures
        res == outline(RoundedRect { x, y, width: w, height: h, radius: r }),
{
    Outline {
        top_right: Arc { x: x + w - r, y: y + r, radius: r, from: -1, to: 0 },
        bottom_right: Arc { x: x + w - r, y: y + h - r, radius: r, from: 0, to: 1 },
        bottom_left: Arc { x: x + r, y: y + h - r, radius: r, from: 1, to: 2 },
        top_left: Arc { x: x + r, y: y + r, radius: r, from: 2, to: 3 },
    }
}

/// Says how to draw the box with the dots that stand for the password. Of the
/// password it takes only the length.
pub fn render_input_box(
    center_x: u16,
    date_bottom: i64,
    state: LockState,
    password_len: usize,
) -> (res: Vec<DrawOp>)
    ensures
        res@ == (PromptBox { center_x, date_bottom, state, password_len }).ops(),
{
    let ghost prompt = PromptBox { center_x, date_bottom, state, password_len };
    let len = password_len as i128;
    let center = center_x as i128;
    let dots_width = if password_len > 0 {
        len * DOT_SPACING + INPUT_PADDING * 2
    } else {
        0
    };
    let input_w = if dots_width > INPUT_MIN_WIDTH {
        dots_width
    } else {
        INPUT_MIN_WIDTH
    };
    let input_y = date_bottom as i128 + INPUT_SPACING * HALVES;
    let input_x = center - input_w;
    let outline = rounded_rect(
        input_x,
        input_y,
        input_w * HALVES,
        INPUT_HEIGHT * HALVES,
        INPUT_RADIUS * HALVES,
    );

    let (border_color, dot_color) = match state {
        LockState::Error => (Color::Red, Color::Red),
        _ => (Color::Mauve, Color::Text),
    };

    let mut ops: Vec<DrawOp> = Vec::new();
    ops.push(DrawOp::FillRect { outline, color: Color::Base, opacity: INPUT_BG_OPACITY });
    ops.push(
        DrawOp::StrokeRect { outline, color: border_color, line_width: BORDER_WIDTH * HALVES },
    );
    let ghost boxed = ops@;

    let first_dot_x = center - (len - 1) * DOT_SPACING;
    let dot_y = input_y + INPUT_HEIGHT;
    let mut j: usize = 0;
    while j < password_len
        invariant
            j <= password_len,
            len == password_len,
            center == center_x,
            prompt == (PromptBox { center_x, date_bottom, state, password_len }),
            first_dot_x == center - (len - 1) * DOT_SPACING,
            dot_y == prompt.input_y() + INPUT_HEIGHT,
            dot_color == (if state is Error {
                Color::Red
            } else {
                Color::Text
            }),
            ops@ == boxed + Seq::new(j as nat, |k: int| prompt.dot(k)),
        decreases password_len - j,
    {
        let dx = first_dot_x + j as i128 * DOT_SPACING * HALVES;
        ops.push(
            DrawOp::FillDot { x: dx, y: dot_y, radius: DOT_RADIUS * HALVES, color: dot_color },
        );
        j = j + 1;
        assert(ops@ =~= boxed + Seq::new(j as nat, |k: int| prompt.dot(k)));
    }
    assert(ops@ =~= prompt.ops());
    ops
}

/// Draws the message below the box.
fn render_auth_message(content: &FrameContent, input_y: i128, extent: Extent, ops: &mut Vec<DrawOp>)
    requires
        input_y == content.prompt_box().input_y(),
        content.message == Some(extent),
    ensures
        final(ops)@ == old(ops)@ + content.message_ops(),
{
    ops.push(
        DrawOp::ShowText {
            label: Label::Message,
            x: content.width as i128 - extent.width as i128,
            y: input_y + INPUT_HEIGHT * HALVES + ERROR_MSG_SPACING * HALVES,
            color: Color::Red,
        },
    );
    assert(ops@ =~= old(ops)@ + content.message_ops());
}

/// Says how to draw a frame, step by step.
pub fn render_frame(content: &FrameContent) -> (res: Vec<DrawOp>)
    ensures
        res@ == content.ops(),
{
    let mut ops: Vec<DrawOp> = Vec::new();
    render_background(content, &mut ops);
    let date_bottom = render_time(content, &mut ops);
    let mut prompt = render_input_box(
        content.width,
        date_bottom,
        content.state,
        content.password_len,
    );
    ops.append(&mut prompt);
    if let Some(extent) = content.message {
        let input_y = date_bottom as i128 + INPUT_SPACING * HALVES;
        render_auth_message(content, input_y, extent, &mut ops);
    }
    assert(ops@ =~= content.ops());
    ops
}

/// The message below the prompt: the reason of a refusal, or a default where
/// none is known.
pub open spec fn failure_text(feedback: AuthFeedback, message: Option<Seq<char>>) -> Option<
    Seq<char>,
> {
    match feedback {
        AuthFeedback::Message => Some(
            match message {
                Some(m) => m,
                None => DEFAULT_FAILURE@,
            },
        ),
        AuthFeedback::Nothing => None,
    }
}

/// The message to show below the prompt, if any.
pub fn fail_text<'a>(feedback: AuthFeedback, message: Option<&'a str>) -> (res: Option<&'a str>)
    ensures
        ({
            let said = match message {
                Some(m) => Some(m@),
                None => None,
            };
            match res {
                Some(t) => failure_text(feedback, said) == Some(t@),
                None => failure_text(feedback, said) is None,
            }
        }),
{
    match feedback {
        AuthFeedback::Message => match message {
            Some(m) => Some(m),
            None => Some(DEFAULT_FAILURE),
        },
        AuthFeedback::Nothing => None,
    }
}

/// Where the wallpaper of a user lies.
pub fn wallpaper_path(home: &str) -> (res: String)
    ensures
        res@ == home@.push('/') + WALLPAPER_PATH@,
{
    let mut path = home.to_owned();
    path.push('/');
    path.append(WALLPAPER_PATH);
    path
}

/// The size of an image in pixels.
#[derive(Debug, Clone, Copy, PartialEq, Eq, Structural)]
pub struct ImageSize {
    pub width: i32,
    pub height: i32,
}

/// By how much an image is scaled, as a fraction.
#[derive(Debug, Clone, Copy, PartialEq, Eq, Structural)]
pub struct Scale {
    pub numerator: i32,
    pub denominator: i32,
}

/// Whether an image has an area.
pub open spec fn has_area(image: ImageSize) -> bool {
    image.width > 0 && image.height > 0
}

/// The scale by which an image covers a window: the larger of the two by which
/// its width and its height become those of the window.
pub open spec fn covering(window: ImageSize, image: ImageSize) -> Scale {
    if window.width * image.height >= window.height * image.width {
        Scale { numerator: window.width, denominator: image.width }
    } else {
        Scale { numerator: window.height, denominator: image.height }
    }
}

/// The scale by which an image covers a window. An image without an area covers
/// nothing.
pub fn scale_background(window: ImageSize, image: ImageSize) -> (res: Option<Scale>)
    ensures
        res is Some <==> has_area(image),
        res matches Some(scale) ==> scale == covering(window, image),
{
    if image.width <= 0 || image.height <= 0 {
        return None;
    }
    proof {
        lemma_product_fits(window.width, image.height);
        lemma_product_fits(window.height, image.width);
    }
    if window.width as i64 * image.height as i64 >= window.height as i64 * image.width as i64 {
        Some(Scale { numerator: window.width, denominator: image.width })
    } else {
        Some(Scale { numerator: window.height, denominator: image.height })
    }
}

/// Where the upper left corner of a scaled image lies in a window, in pixels, as
/// fractions with a common denominator.
#[derive(Debug, Clone, Copy, PartialEq, Eq, Structural)]
pub struct Offset {
    pub x: i128,
    pub y: i128,
    pub denominator: i128,
}

/// Where a scaled image lies so that it is centred: half of what the window has
/// more than the image, in both directions.
pub open spec fn centring(window: ImageSize, image: ImageSize, scale: Scale) -> Offset {
    Offset {
        x: (window.width * scale.denominator - image.width * scale.numerator) as i128,
        y: (window.height * scale.denominator - image.height * scale.numerator) as i128,
        denominator: (2 * scale.denominator) as i128,
    }
}

/// Where a scaled image lies so that it is centred in a window.
pub fn placement(window: ImageSize, image: ImageSize, scale: Scale) -> (res: Offset)
    ensures
        res.x == window.width * scale.denominator - image.width * scale.numerator,
        res.y == window.height * scale.denominator - image.height * scale.numerator,
        res.denominator == 2 * scale.denominator,
        res == centring(window, image, scale),
{
    proof {
        lemma_product_fits(window.width, scale.denominator);
        lemma_product_fits(image.width, scale.numerator);
        lemma_product_fits(window.height, scale.denominator);
        lemma_product_fits(image.height, scale.numerator);
    }
    Offset {
        x: window.width as i128 * scale.denominator as i128 - image.width as i128
            * scale.numerator as i128,
        y: window.height as i128 * scale.denominator as i128 - image.height as i128
            * scale.numerator as i128,
        denominator: scale.denominator as i128 * 2,
    }
}

/// The product of two lengths stays far below the limits of the machine.
proof fn lemma_product_fits(a: i32, b: i32)
    ensures
        -0x4000_0000_0000_0000 <= a * b <= 0x4000_0000_0000_0000,
{
    assert(-0x4000_0000_0000_0000 <= a * b <= 0x4000_0000_0000_0000) by (nonlinear_arith)
        requires
            -0x8000_0000 <= a <= 0x7fff_ffff,
            -0x8000_0000 <= b <= 0x7fff_ffff,
    ;
}

/// The place of a centred image is not cut off by the limits of the machine.
pub(crate) proof fn lemma_centring(window: ImageSize, image: ImageSize, scale: Scale)
    ensures
        centring(window, image, scale).x == window.width * scale.denominator - image.width
            * scale.numerator,
        centring(window, image, scale).y == window.height * scale.denominator - image.height
            * scale.numerator,
{
    lemma_product_fits(window.width, scale.denominator);
    lemma_product_fits(image.width, scale.numerator);
    lemma_product_fits(window.height, scale.denominator);
    lemma_product_fits(image.height, scale.numerator);
}

/// How the wallpaper lies behind a window.
#[derive(Debug, Clone, Copy, PartialEq, Eq, Structural)]
pub struct Background {
    pub scale: Scale,
    pub offset: Offset,
}

/// How an image lies behind a window: it covers the window and is centred.
pub open spec fn behind(window: ImageSize, image: ImageSize) -> Background {
    Background {
        scale: covering(window, image),
        offset: centring(window, image, covering(window, image)),
    }
}

/// What a window is drawn with: an image for the frame, a pixmap of the same
/// size to copy it through, and how the wallpaper lies behind it.
#[derive(Debug, Clone, Copy, PartialEq, Eq, Structural)]
pub struct Canvas {
    pub size: ImageSize,
    pub pixmap: u32,
    pub gc: u32,
    pub background: Option<Background>,
}

/// The size of the frames of a window.
pub open spec fn frame_extent(window: LockWindow) -> ImageSize {
    ImageSize { width: window.width as i32, height: window.height as i32 }
}

/// The size of the frames of a window.
pub fn frame_size(window: &LockWindow) -> (res: ImageSize)
    ensures
        res == frame_extent(*window),
{
    ImageSize { width: window.width as i32, height: window.height as i32 }
}

/// What a window needs on the server to be drawn: a pixmap of its size, and a
/// graphics context for it.
#[derive(Debug, Clone, Copy, PartialEq, Eq, Structural)]
pub struct BlitResources {
    pub pixmap: u32,
    pub gc: u32,
}

/// The wallpaper has no area.
#[derive(Debug, Clone, Copy, PartialEq, Eq, Structural)]
pub struct EmptyWallpaper;

/// How many windows have what they need on the server.
pub open spec fn equipped(windows: Seq<LockWindow>, resources: Seq<BlitResources>) -> nat {
    if windows.len() <= resources.len() {
        windows.len()
    } else {
        resources.len()
    }
}

/// What windows are drawn with: frames of their sizes, the resources in the same
/// place, and the wallpaper so that it covers them and is centred, if there is one.
pub open spec fn canvases(
    windows: Seq<LockWindow>,
    resources: Seq<BlitResources>,
    wallpaper: Option<ImageSize>,
) -> Seq<Canvas> {
    Seq::new(
        equipped(windows, resources),
        |i: int|
            Canvas {
                size: frame_extent(windows[i]),
                pixmap: resources[i].pixmap,
                gc: resources[i].gc,
                background: match wallpaper {
                    Some(image) => Some(behind(frame_extent(windows[i]), image)),
                    None => None,
                },
            },
    )
}

/// What all windows are drawn with, in the order of the windows.
pub struct RenderContext {
    canvases: Vec<Canvas>,
}

impl View for RenderContext {
    type V = Seq<Canvas>;

    closed spec fn view(&self) -> Seq<Canvas> {
        self.canvases@
    }
}

impl RenderContext {
    /// Prepares the windows to be drawn, given what was created for each of them on
    /// the server, and puts the wallpaper behind them, if there is one. A wallpaper
    /// without an area cannot be put behind a window.
    pub fn load(
        windows: &Vec<LockWindow>,
        resources: &Vec<BlitResources>,
        wallpaper: Option<ImageSize>,
    ) -> (res: Result<Self, EmptyWallpaper>)
        ensures
            res is Err <==> equipped(windows@, resources@) > 0 && wallpaper is Some && !has_area(
                wallpaper->0,
            ),
            res matches Ok(ctx) ==> ctx@ == canvases(windows@, resources@, wallpaper),
    {
        let mut loaded: Vec<Canvas> = Vec::new();
        let mut i: usize = 0;
        while i < windows.len() && i < resources.len()
            invariant
                i <= equipped(windows@, resources@),
                i > 0 && wallpaper is Some ==> has_area(wallpaper->0),
                loaded@.len() == i,
                forall|k: int|
                    0 <= k < i ==> #[trigger] loaded@[k] == canvases(
                        windows@,
                        resources@,
                        wallpaper,
                    )[k],
            decreases windows.len() - i,
        {
            let size = frame_size(&windows[i]);
            let background = match wallpaper {
                Some(image) => match scale_background(size, image) {
                    Some(scale) => Some(
                        Background { scale, offset: placement(size, image, scale) },
                    ),
                    None => {
                        return Err(EmptyWallpaper);
                    },
                },
                None => None,
            };
            loaded.push(
                Canvas { size, pixmap: resources[i].pixmap, gc: resources[i].gc, background },
            );
            i = i + 1;
        }
        assert(loaded@ =~= canvases(windows@, resources@, wallpaper));
        Ok(RenderContext { canvases: loaded })
    }

    /// What a window is drawn with.
    pub fn canvas(&self, i: usize) -> (res: Option<Canvas>)
        ensures
            res is Some <==> i < self@.len(),
            res matches Some(c) ==> c == self@[i as int],
    {
        if i < self.canvases.len() {
            Some(self.canvases[i])
        } else {
            None
        }
    }

    /// Says how to give the resources on the server back.
    pub fn cleanup(&self) -> (res: Vec<XRequest>)
        ensures
            res@ == free_requests(self@),
    {
        let mut res: Vec<XRequest> = Vec::new();
        let mut i: usize = 0;
        while i < self.canvases.len()
            invariant
                i <= self.canvases.len(),
                res@.len() == 2 * i,
                forall|k: int|
                    0 <= k < res@.len() ==> #[trigger] res@[k] == free_requests(self@)[k],
            decreases self.canvases.len() - i,
        {
            res.push(XRequest::FreeGc(self.canvases[i].gc));
            res.push(XRequest::FreePixmap(self.canvases[i].pixmap));
            i = i + 1;
        }
        assert(res@ =~= free_requests(self@));
        res
    }
}

/// The requests that give the resources of all windows back.
pub open spec fn free_requests(canvases: Seq<Canvas>) -> Seq<XRequest> {
    Seq::new(
        2 * canvases.len(),
        |i: int|
            if i % 2 == 0 {
                XRequest::FreeGc(canvases[i / 2].gc)
            } else {
                XRequest::FreePixmap(canvases[i / 2].pixmap)
            },
    )
}

} // verus!
