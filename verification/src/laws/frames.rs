//! What a frame shows, and what it is drawn with. Lengths are in half pixels, so
//! that the middle of a window has the window's width and height as its place.
#![allow(unused_imports)]
use vstd::prelude::*;

use crate::input::{AuthFeedback, LockState};
use crate::locker::{Locker, LockerView};
use crate::render;
use crate::render::{
    Background, BlitResources, Canvas, Color, DrawOp, EmptyWallpaper, Extent, FrameContent,
    ImageSize, Label, Offset, Outline, PromptBox, RenderContext, Rgb, Scale,
};
use crate::window::LockWindow;

verus! {

/// Whether an outline is that of the box with room for `dots` dots: its edges are
/// equally far from the middle, it is 200 pixels wide or as wide as 16 for each dot
/// and 30 on both sides take, 40 high, and has quarter circles of 20 as corners.
pub open spec fn is_box(outline: Outline, middle: int, top: int, dots: nat) -> bool {
    let reach = if 16 * dots + 60 > 200 {
        16 * dots + 60
    } else {
        200
    };
    &&& outline.top_left.x == middle - reach + 40
    &&& outline.bottom_left.x == middle - reach + 40
    &&& outline.top_right.x == middle + reach - 40
    &&& outline.bottom_right.x == middle + reach - 40
    &&& outline.top_left.y == top + 40
    &&& outline.top_right.y == top + 40
    &&& outline.bottom_left.y == top + 80 - 40
    &&& outline.bottom_right.y == top + 80 - 40
    &&& outline.top_left.radius == 40
    &&& outline.top_right.radius == 40
    &&& outline.bottom_left.radius == 40
    &&& outline.bottom_right.radius == 40
    &&& outline.top_right.from == -1 && outline.top_right.to == 0
    &&& outline.bottom_right.from == 0 && outline.bottom_right.to == 1
    &&& outline.bottom_left.from == 1 && outline.bottom_left.to == 2
    &&& outline.top_left.from == 2 && outline.top_left.to == 3
}

/// Whether steps draw the prompt 24 pixels below `date_bottom`: the box, its border,
/// red exactly after a refusal, and one dot for each character, 16 pixels apart on
/// the middle line of the box, and red exactly after a refusal.
pub open spec fn draws_prompt(
    ops: Seq<DrawOp>,
    middle: int,
    date_bottom: int,
    refused: bool,
    dots: nat,
) -> bool {
    &&& ops.len() == 2 + dots
    &&& ops[0] matches DrawOp::FillRect { outline, color, opacity } && color is Base && opacity
        == 800 && is_box(outline, middle, date_bottom + 48, dots)
    &&& ops[1] matches DrawOp::StrokeRect { outline, color, line_width } && line_width == 4
        && is_box(outline, middle, date_bottom + 48, dots) && (refused <==> color is Red) && (
    !refused <==> color is Mauve)
    &&& forall|k: int|
        2 <= k < ops.len() ==> (#[trigger] ops[k] matches DrawOp::FillDot { x, y, radius, color }
            && x == middle + 32 * (k - 2) - 16 * (dots - 1) && y == date_bottom + 48 + 40
            && radius == 10 && (refused <==> color is Red) && (!refused <==> color is Text))
}

/// Whether a step shows a text in the middle of a window, as far from its left as
/// from its right edge.
pub open spec fn shows_text(
    op: DrawOp,
    what: Label,
    extent: Extent,
    width: u16,
    top: int,
    red: bool,
) -> bool {
    op matches DrawOp::ShowText { label, x, y, color } && label == what && x + (x + 2
        * extent.width) == 2 * width && y == top && (red <==> color is Red) && (!red <==> color
        is Text)
}

/// Whether steps draw a frame: the wallpaper or a plain colour, a tint over it, the
/// time 60 pixels above the middle, the date 8 pixels below the time, the prompt, and
/// 12 pixels below its box the message, if there is one.
pub open spec fn draws_frame(
    ops: Seq<DrawOp>,
    width: u16,
    height: u16,
    wallpaper: bool,
    refused: bool,
    dots: nat,
    time: Extent,
    date: Extent,
    message: Option<Extent>,
) -> bool {
    let date_bottom = height - 120 + 16 + 2 * date.height;
    &&& ops.len() == 6 + dots + if message is Some {
        1int
    } else {
        0
    }
    &&& wallpaper ==> ops[0] == DrawOp::PaintWallpaper
    &&& !wallpaper ==> ops[0] == (DrawOp::PaintColor { color: Color::Base })
    &&& ops[1] == (DrawOp::PaintTint { color: Color::Base, opacity: 400 })
    &&& shows_text(ops[2], Label::Time, time, width, height - 120 - 2 * time.height, false)
    &&& shows_text(ops[3], Label::Date, date, width, height - 120 + 16, false)
    &&& draws_prompt(ops.subrange(4, 6int + dots), width as int, date_bottom, refused, dots)
    &&& message matches Some(extent) ==> shows_text(
        ops[6int + dots],
        Label::Message,
        extent,
        width,
        date_bottom + 48 + 80 + 24,
        true,
    )
}

/// The steps of a prompt draw it in its place.
proof fn lemma_prompt(prompt: PromptBox)
    ensures
        draws_prompt(
            prompt.ops(),
            prompt.center_x as int,
            prompt.date_bottom as int,
            prompt.state is Error,
            prompt.password_len as nat,
        ),
{
    let ops = prompt.ops();
    assert forall|k: int| 2 <= k < ops.len() implies (#[trigger] ops[k] matches DrawOp::FillDot {
        x,
        y,
        radius,
        color,
    } && x == prompt.center_x + 32 * (k - 2) - 16 * (prompt.password_len - 1) && y
        == prompt.date_bottom + 48 + 40 && radius == 10 && (prompt.state is Error <==> color is Red)
        && (!(prompt.state is Error) <==> color is Text)) by {
        assert(ops[k] == prompt.dot(k - 2));
    }
}

/// The steps of a frame draw all of its parts.
proof fn lemma_frame(content: FrameContent)
    ensures
        draws_frame(
            content.ops(),
            content.width,
            content.height,
            content.wallpaper,
            content.state is Error,
            content.password_len as nat,
            content.time,
            content.date,
            content.message,
        ),
{
    lemma_prompt(content.prompt_box());
    assert(content.ops().subrange(4, 6 + content.password_len) =~= content.prompt_box().ops());
}

/// The prompt is drawn with its box, its border and one dot for each byte.
pub proof fn law_prompt_is_drawn(
    center_x: u16,
    date_bottom: i64,
    state: LockState,
    password_len: usize,
    res: Vec<DrawOp>,
)
    requires
        call_ensures(render::render_input_box, (center_x, date_bottom, state, password_len), res),
    ensures
        draws_prompt(
            res@,
            center_x as int,
            date_bottom as int,
            state is Error,
            password_len as nat,
        ),
{
    lemma_prompt(PromptBox { center_x, date_bottom, state, password_len });
}

/// A frame is drawn with all that it is made of.
pub proof fn law_frame_is_drawn(content: FrameContent, res: Vec<DrawOp>)
    requires
        call_ensures(render::render_frame, (&content,), res),
    ensures
        draws_frame(
            res@,
            content.width,
            content.height,
            content.wallpaper,
            content.state is Error,
            content.password_len as nat,
            content.time,
            content.date,
            content.message,
        ),
{
    lemma_frame(content);
}

/// The frame of a window starts with the wallpaper exactly if one lies behind that
/// window, and otherwise with a plain colour.
pub proof fn law_wallpaper_is_shown(
    locker: LockerView,
    i: int,
    time: Extent,
    date: Extent,
    message: Extent,
)
    requires
        locker.canvases is Some,
        0 <= i < locker.windows.len(),
        i < locker.canvases->0.len(),
    ensures
        locker.canvases->0[i].background is Some <==> locker.content(
            i,
            time,
            date,
            message,
        ).ops()[0] == DrawOp::PaintWallpaper,
        locker.canvases->0[i].background is None <==> locker.content(
            i,
            time,
            date,
            message,
        ).ops()[0] == (DrawOp::PaintColor { color: Color::Base }),
{
    lemma_frame(locker.content(i, time, date, message));
}

/// The frame of a window has the size of that window and shows the prompt of the
/// locker: it is red exactly after a refusal, has one dot for each character that was
/// typed, and the message exactly while there is one to show.
pub proof fn law_frame_shows_locker(
    locker: LockerView,
    i: int,
    time: Extent,
    date: Extent,
    message: Extent,
)
    requires
        locker.canvases is Some,
        0 <= i < locker.windows.len(),
        i < locker.canvases->0.len(),
        locker.input.password.len() <= usize::MAX,
        forall|k: int|
            0 <= k < locker.input.password.len() ==> ' ' <= #[trigger] locker.input.password[k]
                <= '~',
    ensures
        draws_frame(
            locker.content(i, time, date, message).ops(),
            locker.windows[i].width,
            locker.windows[i].height,
            locker.canvases->0[i].background is Some,
            locker.input.state is Error,
            locker.input.password.len(),
            time,
            date,
            if locker.input.feedback is Message {
                Some(message)
            } else {
                None
            },
        ),
{
    lemma_frame(locker.content(i, time, date, message));
    assert(vstd::utf8::is_ascii_chars(locker.input.password));
    vstd::utf8::is_ascii_chars_encode_utf8(locker.input.password);
}

/// A locker says how to draw a window exactly if there is such a window and it has
/// something to be drawn with. The frame is that of this window and this prompt.
pub proof fn law_locker_draws_frame(
    locker: Locker,
    i: usize,
    time: Extent,
    date: Extent,
    message: Extent,
    res: Option<Vec<DrawOp>>,
)
    requires
        call_ensures(Locker::render_frame, (&locker, i, time, date, message), res),
        vstd::utf8::encode_utf8(locker@.input.password).len() <= usize::MAX,
    ensures
        res is Some <==> i < locker@.windows.len() && locker@.canvases is Some && i
            < locker@.canvases->0.len(),
        res matches Some(ops) ==> draws_frame(
            ops@,
            locker@.windows[i as int].width,
            locker@.windows[i as int].height,
            locker@.canvases->0[i as int].background is Some,
            locker@.input.state is Error,
            vstd::utf8::encode_utf8(locker@.input.password).len(),
            time,
            date,
            if locker@.input.feedback is Message {
                Some(message)
            } else {
                None
            },
        ),
{
    lemma_frame(locker@.content(i as int, time, date, message));
}

/// Whether a wallpaper lies behind a window so that it covers it, no larger than it
/// has to be, and is centred.
pub open spec fn covers_centred(background: Background, window: ImageSize, image: ImageSize) -> bool {
    let n = background.scale.numerator;
    let d = background.scale.denominator;
    let offset = background.offset;
    &&& d > 0
    &&& n * image.width >= window.width * d
    &&& n * image.height >= window.height * d
    &&& n * image.width == window.width * d || n * image.height == window.height * d
    &&& offset.denominator == 2 * d
    &&& offset.x + (offset.x + 2 * (image.width * n)) == window.width * offset.denominator
    &&& offset.y + (offset.y + 2 * (image.height * n)) == window.height * offset.denominator
}

/// An image that is put behind a window covers it and is centred.
proof fn lemma_behind(window: ImageSize, image: ImageSize)
    requires
        image.width > 0,
        image.height > 0,
    ensures
        covers_centred(render::behind(window, image), window, image),
{
    crate::laws::law_wallpaper_covers(window, image);
    crate::laws::law_wallpaper_is_centred(window, image);
}

/// Whether canvases are those of windows: one for each window for which something
/// was created on the server, of the window's size and with what was created for it.
/// Behind each lies the wallpaper, if there is one.
pub open spec fn are_canvases_of(
    canvases: Seq<Canvas>,
    windows: Seq<LockWindow>,
    resources: Seq<BlitResources>,
    wallpaper: Option<ImageSize>,
) -> bool {
    &&& windows.len() <= resources.len() ==> canvases.len() == windows.len()
    &&& windows.len() > resources.len() ==> canvases.len() == resources.len()
    &&& forall|i: int|
        0 <= i < canvases.len() ==> {
            let canvas = #[trigger] canvases[i];
            &&& canvas.size.width == windows[i].width
            &&& canvas.size.height == windows[i].height
            &&& canvas.pixmap == resources[i].pixmap
            &&& canvas.gc == resources[i].gc
            &&& canvas.background is Some <==> wallpaper is Some
            &&& wallpaper is Some ==> covers_centred(
                canvas.background->0,
                canvas.size,
                wallpaper->0,
            )
        }
}

proof fn lemma_canvases(
    windows: Seq<LockWindow>,
    resources: Seq<BlitResources>,
    wallpaper: Option<ImageSize>,
)
    requires
        windows.len() > 0 && resources.len() > 0 && wallpaper is Some ==> wallpaper->0.width > 0
            && wallpaper->0.height > 0,
    ensures
        are_canvases_of(
            render::canvases(windows, resources, wallpaper),
            windows,
            resources,
            wallpaper,
        ),
{
    let canvases = render::canvases(windows, resources, wallpaper);
    assert forall|i: int| 0 <= i < canvases.len() && wallpaper is Some implies covers_centred(
        (#[trigger] canvases[i]).background->0,
        canvases[i].size,
        wallpaper->0,
    ) by {
        lemma_behind(canvases[i].size, wallpaper->0);
    }
}

/// Loading the background makes every window that is equipped ready to be drawn, with
/// the wallpaper behind it if there is one. It fails, and changes nothing, exactly if
/// a wallpaper without an area would have to be put behind a window.
pub proof fn law_background_is_loaded(
    locker: &mut Locker,
    resources: Vec<BlitResources>,
    wallpaper: Option<ImageSize>,
    res: Result<(), EmptyWallpaper>,
)
    requires
        call_ensures(Locker::load_background, (locker, &resources, wallpaper), res),
    ensures
        res is Err <==> old(locker)@.windows.len() > 0 && resources@.len() > 0 && wallpaper is Some
            && (wallpaper->0.width <= 0 || wallpaper->0.height <= 0),
        res is Err ==> final(locker)@ == old(locker)@,
        res is Ok ==> final(locker)@.canvases is Some && are_canvases_of(
            final(locker)@.canvases->0,
            old(locker)@.windows,
            resources@,
            wallpaper,
        ),
        final(locker)@ == (LockerView { canvases: final(locker)@.canvases, ..old(locker)@ }),
{
    if res is Ok {
        lemma_canvases(old(locker)@.windows, resources@, wallpaper);
    }
}

/// What windows are drawn with is loaded in the same way outside of a locker.
pub proof fn law_context_is_loaded(
    windows: Vec<LockWindow>,
    resources: Vec<BlitResources>,
    wallpaper: Option<ImageSize>,
    res: Result<RenderContext, EmptyWallpaper>,
)
    requires
        call_ensures(RenderContext::load, (&windows, &resources, wallpaper), res),
    ensures
        res is Err <==> windows@.len() > 0 && resources@.len() > 0 && wallpaper is Some && (
        wallpaper->0.width <= 0 || wallpaper->0.height <= 0),
        res matches Ok(ctx) ==> are_canvases_of(ctx@, windows@, resources@, wallpaper),
{
    if res is Ok {
        lemma_canvases(windows@, resources@, wallpaper);
    }
}

/// What a window is drawn with is found under the number of the window, and nothing
/// under any other number.
pub proof fn law_canvas_of_window(
    ctx: RenderContext,
    locker: Locker,
    i: usize,
    res: Option<Canvas>,
    of_locker: Option<Canvas>,
)
    requires
        call_ensures(RenderContext::canvas, (&ctx, i), res),
        call_ensures(Locker::canvas, (&locker, i), of_locker),
    ensures
        i < ctx@.len() ==> res == Some(ctx@[i as int]),
        i >= ctx@.len() ==> res is None,
        locker@.canvases is Some && i < locker@.canvases->0.len() ==> of_locker == Some(
            locker@.canvases->0[i as int],
        ),
        locker@.canvases is None || i >= locker@.canvases->0.len() ==> of_locker is None,
{
}

/// The frames of a window are as large as the window.
pub proof fn law_frame_size(window: LockWindow, res: ImageSize)
    requires
        call_ensures(render::frame_size, (&window,), res),
    ensures
        res.width == window.width,
        res.height == window.height,
{
}

/// An image with an area has a scale by which it covers a window, no larger than it
/// has to be; one without has none.
pub proof fn law_scale_covers(window: ImageSize, image: ImageSize, res: Option<Scale>)
    requires
        call_ensures(render::scale_background, (window, image), res),
    ensures
        res is Some <==> image.width > 0 && image.height > 0,
        res matches Some(scale) ==> {
            let n = scale.numerator;
            let d = scale.denominator;
            &&& d > 0
            &&& n * image.width >= window.width * d
            &&& n * image.height >= window.height * d
            &&& n * image.width == window.width * d || n * image.height == window.height * d
        },
{
    if res is Some {
        crate::laws::law_wallpaper_covers(window, image);
    }
}

/// A scaled image is placed so that what is left of the window, or reaches over it, is
/// the same on both sides, and the same above and below.
pub proof fn law_placement_is_centred(
    window: ImageSize,
    image: ImageSize,
    scale: Scale,
    res: Offset,
)
    requires
        call_ensures(render::placement, (window, image, scale), res),
    ensures
        res.denominator == 2 * scale.denominator,
        res.x + (res.x + 2 * (image.width * scale.numerator)) == window.width * res.denominator,
        res.y + (res.y + 2 * (image.height * scale.numerator)) == window.height * res.denominator,
{
    let (w, h, d) = (window.width as int, window.height as int, scale.denominator as int);
    assert(w * (2 * d) == 2 * (w * d) && h * (2 * d) == 2 * (h * d)) by (nonlinear_arith);
}

/// A message is shown exactly while there is a refusal to explain: its reason, or a
/// default where none is known.
pub proof fn law_shown_message(feedback: AuthFeedback, message: Option<&str>, res: Option<&str>)
    requires
        call_ensures(render::fail_text, (feedback, message), res),
    ensures
        res is Some <==> feedback is Message,
        res is Some && message is Some ==> res->0@ == message->0@,
        res is Some && message is None ==> res->0@ == "Authentication failed"@,
{
}

/// Whether a part of a colour in thousandths is the nearest to one out of 255.
pub open spec fn nearest_thousandth(part: u32, byte: int) -> bool {
    -255 <= 2 * (255 * part - 1000 * byte) <= 255
}

/// The colours are those of their names, to the nearest thousandth, and the plain
/// background has the colour that windows have before their first frame.
pub proof fn law_colors(color: Color, res: Rgb)
    requires
        call_ensures(render::rgb, (color,), res),
    ensures
        color is Text ==> nearest_thousandth(res.red, 0xcd) && nearest_thousandth(res.green, 0xd6)
            && nearest_thousandth(res.blue, 0xf4),
        color is Mauve ==> nearest_thousandth(res.red, 0xcb) && nearest_thousandth(res.green, 0xa6)
            && nearest_thousandth(res.blue, 0xf7),
        color is Red ==> nearest_thousandth(res.red, 0xf3) && nearest_thousandth(res.green, 0x8b)
            && nearest_thousandth(res.blue, 0xa8),
        color is Base ==> nearest_thousandth(res.red, 0x1e) && nearest_thousandth(res.green, 0x1e)
            && nearest_thousandth(res.blue, 0x2e),
{
}

/// The time is written in letters of 64 pixels, the date in letters of 24, and the
/// message in letters of 16.
pub proof fn law_font_sizes(label: Label, res: u32)
    requires
        call_ensures(render::font_size, (label,), res),
    ensures
        label is Time ==> res == 64,
        label is Date ==> res == 24,
        label is Message ==> res == 16,
{
}

/// The wallpaper lies in the home directory, below the configuration of the locker.
pub proof fn law_wallpaper_path(home: &str, res: String)
    requires
        call_ensures(render::wallpaper_path, (home,), res),
    ensures
        res@ == home@ + "/.config/x11lock/wallpaper.png"@,
{
    reveal_strlit("/.config/x11lock/wallpaper.png");
    reveal_strlit(".config/x11lock/wallpaper.png");
    assert(res@ =~= home@ + "/.config/x11lock/wallpaper.png"@);
}

} // verus!
