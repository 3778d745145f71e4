use x11lock::clock::{date_text, time_text, LocalTime};
use x11lock::input::{AuthFeedback, LockState};
use x11lock::monitor::{
    begin_detection, detect_monitors, fallback_monitor, randr_lists_crtcs, CrtcInfo, Monitor,
    ScreenSize,
};
use x11lock::render::{
    fail_text, font_size, frame_size, placement, render_frame, render_input_box, rgb,
    scale_background, wallpaper_path, Arc, Background, BlitResources, Canvas, Color, DrawOp,
    EmptyWallpaper, Extent, FrameContent, ImageSize, Label, Offset, Outline, RenderContext, Rgb,
    Scale,
};
use x11lock::window::{
    create_lock_window, create_windows, destroy_windows, map_windows, ungrab_input, LockWindow,
    WindowRequest, XRequest,
};

const SCREEN: ScreenSize = ScreenSize { width: 1920, height: 1080 };

fn crtc(x: i16, y: i16, width: u16, height: u16, outputs: Vec<u32>) -> Option<CrtcInfo> {
    Some(CrtcInfo { x, y, width, height, outputs })
}

fn content() -> FrameContent {
    FrameContent {
        width: 1001,
        height: 801,
        wallpaper: false,
        state: LockState::Idle,
        password_len: 0,
        time: Extent { width: 151, height: 80 },
        date: Extent { width: 220, height: 30 },
        message: None,
    }
}

#[test]
fn randr_lists_crtcs_from_1_2_on() {
    assert!(!randr_lists_crtcs(0, 9));
    assert!(!randr_lists_crtcs(1, 1));
    assert!(randr_lists_crtcs(1, 2));
    assert!(randr_lists_crtcs(1, 5));
    assert!(randr_lists_crtcs(2, 0));
}

#[test]
fn old_randr_falls_back_to_the_screen() {
    let whole = vec![Monitor { x: 0, y: 0, width: 1920, height: 1080 }];
    assert_eq!(fallback_monitor(SCREEN), whole);
    assert_eq!(begin_detection(SCREEN, 1, 1), Some(whole));
    assert_eq!(begin_detection(SCREEN, 1, 2), None);
}

#[test]
fn inactive_crtcs_are_skipped() {
    let crtcs = vec![
        crtc(0, 0, 800, 600, vec![7]),
        crtc(0, 0, 0, 600, vec![7]),
        None,
        crtc(0, 0, 800, 0, vec![7]),
        crtc(0, 0, 800, 600, vec![]),
        crtc(-800, 10, 1024, 768, vec![8, 9]),
    ];
    assert_eq!(
        detect_monitors(SCREEN, &crtcs),
        vec![
            Monitor { x: 0, y: 0, width: 800, height: 600 },
            Monitor { x: -800, y: 10, width: 1024, height: 768 },
        ]
    );
}

#[test]
fn there_is_always_a_monitor() {
    assert_eq!(detect_monitors(SCREEN, &vec![]), fallback_monitor(SCREEN));
    let off = vec![None, crtc(0, 0, 0, 0, vec![])];
    assert_eq!(detect_monitors(SCREEN, &off), fallback_monitor(SCREEN));
}

#[test]
fn windows_lie_exactly_over_monitors() {
    let monitor = Monitor { x: -5, y: 6, width: 70, height: 80 };
    let request = WindowRequest {
        x: -5,
        y: 6,
        width: 70,
        height: 80,
        border_width: 0,
        background_pixel: 0x1e1e2e,
        override_redirect: true,
        event_mask: 0x8005,
    };
    assert_eq!(create_lock_window(&monitor), request);
    assert_eq!(create_windows(&vec![monitor, monitor]), vec![request, request]);
    assert_eq!(create_windows(&vec![]), vec![]);
}

#[test]
fn windows_are_mapped_and_destroyed() {
    let windows =
        vec![LockWindow { id: 3, width: 1, height: 2 }, LockWindow { id: 4, width: 1, height: 2 }];
    assert_eq!(
        map_windows(&windows),
        vec![
            XRequest::MapWindow(3),
            XRequest::RaiseWindow(3),
            XRequest::MapWindow(4),
            XRequest::RaiseWindow(4),
            XRequest::Flush,
        ]
    );
    assert_eq!(
        destroy_windows(&windows, Some(9)),
        vec![
            XRequest::DestroyWindow(3),
            XRequest::DestroyWindow(4),
            XRequest::FreeCursor(9),
            XRequest::Flush,
        ]
    );
    assert_eq!(destroy_windows(&vec![], None), vec![XRequest::Flush]);
    assert_eq!(
        ungrab_input(),
        vec![XRequest::UngrabKeyboard, XRequest::UngrabPointer, XRequest::Flush]
    );
}

#[test]
fn times_and_dates_are_formatted() {
    let moment = |year, month, day, hour, minute| LocalTime { year, month, day, hour, minute };
    let time = |hour, minute| time_text(&moment(2024, 1, 1, hour, minute));
    let date = |year, month, day| date_text(&moment(year, month, day, 0, 0));
    assert_eq!(time(0, 0).unwrap(), "00:00");
    assert_eq!(time(8, 5).unwrap(), "08:05");
    assert_eq!(time(23, 59).unwrap(), "23:59");
    assert_eq!(date(2026, 11, 16).unwrap(), "Monday, November 16");
    assert_eq!(date(2024, 2, 29).unwrap(), "Thursday, February 29");
    assert_eq!(date(2000, 1, 1).unwrap(), "Saturday, January 01");
    assert_eq!(date(1970, 1, 1).unwrap(), "Thursday, January 01");
    assert_eq!(date(1, 1, 1).unwrap(), "Monday, January 01");
    assert_eq!(date(1900, 3, 1).unwrap(), "Thursday, March 01");
}

#[test]
fn moments_outside_the_calendar_have_no_text() {
    let moment = |year, month, day, hour, minute| LocalTime { year, month, day, hour, minute };
    for wrong in [
        moment(2023, 2, 29, 0, 0),
        moment(1900, 2, 29, 0, 0),
        moment(2023, 4, 31, 0, 0),
        moment(2023, 0, 1, 0, 0),
        moment(2023, 13, 1, 0, 0),
        moment(2023, 1, 0, 0, 0),
        moment(2023, 1, 32, 0, 0),
        moment(2023, 1, 1, 24, 0),
        moment(2023, 1, 1, 0, 60),
        moment(262143, 1, 1, 0, 0),
        moment(-262144, 1, 1, 0, 0),
    ] {
        assert_eq!(time_text(&wrong), None);
        assert_eq!(date_text(&wrong), None);
    }
    assert_eq!(time_text(&moment(262142, 12, 31, 1, 2)).unwrap(), "01:02");
    assert_eq!(time_text(&moment(-262143, 1, 1, 1, 2)).unwrap(), "01:02");
}

#[test]
fn dates_follow_the_gregorian_calendar() {
    let days =
        ["Monday", "Tuesday", "Wednesday", "Thursday", "Friday", "Saturday", "Sunday"];
    let names = [
        "January", "February", "March", "April", "May", "June", "July", "August", "September",
        "October", "November", "December",
    ];
    let mut past: i64 = 0;
    for year in 1..=2400 {
        let leap = year % 4 == 0 && (year % 100 != 0 || year % 400 == 0);
        for month in 1..=12u32 {
            let length = match month {
                2 => 28 + leap as u32,
                4 | 6 | 9 | 11 => 30,
                _ => 31,
            };
            for day in [1, 17, length] {
                let weekday = days[((past + day as i64 - 1) % 7) as usize];
                let expected = format!("{}, {} {:02}", weekday, names[month as usize - 1], day);
                let moment = LocalTime { year, month, day, hour: 3, minute: 4 };
                assert_eq!(date_text(&moment), Some(expected));
            }
            let beyond = LocalTime { year, month, day: length + 1, hour: 3, minute: 4 };
            assert_eq!(date_text(&beyond), None);
            past += length as i64;
        }
    }
}

#[test]
fn colours_and_fonts() {
    assert_eq!(rgb(Color::Text), Rgb { red: 804, green: 839, blue: 957 });
    assert_eq!(rgb(Color::Mauve), Rgb { red: 796, green: 651, blue: 969 });
    assert_eq!(rgb(Color::Red), Rgb { red: 953, green: 545, blue: 659 });
    assert_eq!(rgb(Color::Base), Rgb { red: 118, green: 118, blue: 180 });
    assert_eq!(font_size(Label::Time), 64);
    assert_eq!(font_size(Label::Date), 24);
    assert_eq!(font_size(Label::Message), 16);
    assert_eq!(804.0 / 1000.0, 0.804);
    assert_eq!(545.0 / 1000.0, 0.545);
}

#[test]
fn empty_prompt_frame() {
    // The box is 200 pixels wide and centred: from 400.5 to 600.5.
    let outline = Outline {
        top_right: Arc { x: 1161, y: 845, radius: 40, from: -1, to: 0 },
        bottom_right: Arc { x: 1161, y: 845, radius: 40, from: 0, to: 1 },
        bottom_left: Arc { x: 841, y: 845, radius: 40, from: 1, to: 2 },
        top_left: Arc { x: 841, y: 845, radius: 40, from: 2, to: 3 },
    };
    assert_eq!(
        render_frame(&content()),
        vec![
            DrawOp::PaintColor { color: Color::Base },
            DrawOp::PaintTint { color: Color::Base, opacity: 400 },
            DrawOp::ShowText { label: Label::Time, x: 850, y: 521, color: Color::Text },
            DrawOp::ShowText { label: Label::Date, x: 781, y: 697, color: Color::Text },
            DrawOp::FillRect { outline, color: Color::Base, opacity: 800 },
            DrawOp::StrokeRect { outline, color: Color::Mauve, line_width: 4 },
        ]
    );
}

#[test]
fn frames_agree_with_the_layout_in_pixels() {
    for len in [1usize, 2, 8, 9, 10, 25] {
        let frame = FrameContent { password_len: len, state: LockState::Typing, ..content() };
        let (w, h) = (1001.0, 801.0);
        let (center_x, center_y): (f64, f64) = (w / 2.0, h / 2.0);
        let time_y = center_y - 80.0 - 60.0;
        let date_y = time_y + 80.0 + 8.0;
        let input_y = date_y + 30.0 + 24.0;
        let dots_width: f64 = len as f64 * 16.0 + 30.0 * 2.0;
        let input_w = dots_width.max(200.0);
        let input_x = center_x - input_w / 2.0;
        let first = center_x - (len as f64 - 1.0) * 16.0 / 2.0;
        let px = |halves: i128| halves as f64 / 2.0;

        let ops = render_frame(&frame);
        assert_eq!(ops.len(), 6 + len);
        match ops[4] {
            DrawOp::FillRect { outline, .. } => {
                assert_eq!(px(outline.top_right.x), input_x + input_w - 20.0);
                assert_eq!(px(outline.top_right.y), input_y + 20.0);
                assert_eq!(px(outline.bottom_left.x), input_x + 20.0);
                assert_eq!(px(outline.bottom_left.y), input_y + 40.0 - 20.0);
                assert_eq!(px(outline.bottom_left.radius), 20.0);
            }
            _ => panic!("no box"),
        }
        for j in 0..len {
            match ops[6 + j] {
                DrawOp::FillDot { x, y, radius, color } => {
                    assert_eq!(px(x), first + j as f64 * 16.0);
                    assert_eq!(px(y), input_y + 40.0 / 2.0);
                    assert_eq!(px(radius), 5.0);
                    assert!(px(x - radius) > input_x + 30.0);
                    assert!(px(x + radius) < input_x + input_w - 30.0);
                    assert!(px(y - radius) > input_y && px(y + radius) < input_y + 40.0);
                    assert_eq!(color, Color::Text);
                }
                _ => panic!("no dot"),
            }
        }
    }
}

#[test]
fn refusal_frame_is_red() {
    let frame = FrameContent {
        wallpaper: true,
        state: LockState::Error,
        password_len: 1,
        message: Some(Extent { width: 100, height: 20 }),
        ..content()
    };
    let ops = render_frame(&frame);
    assert_eq!(ops.len(), 8);
    assert_eq!(ops[0], DrawOp::PaintWallpaper);
    assert!(matches!(ops[5], DrawOp::StrokeRect { color: Color::Red, .. }));
    assert_eq!(ops[6], DrawOp::FillDot { x: 1001, y: 845, radius: 10, color: Color::Red });
    assert_eq!(
        ops[7],
        DrawOp::ShowText { label: Label::Message, x: 901, y: 909, color: Color::Red }
    );
}

#[test]
fn message_text() {
    assert_eq!(fail_text(AuthFeedback::Nothing, Some("wrong")), None);
    assert_eq!(fail_text(AuthFeedback::Nothing, None), None);
    assert_eq!(fail_text(AuthFeedback::Message, Some("wrong")), Some("wrong"));
    assert_eq!(fail_text(AuthFeedback::Message, None), Some("Authentication failed"));
}

#[test]
fn wallpaper_lies_below_home() {
    assert_eq!(wallpaper_path("/home/alice"), "/home/alice/.config/x11lock/wallpaper.png");
    assert_eq!(wallpaper_path(""), "/.config/x11lock/wallpaper.png");
}

#[test]
fn wallpaper_covers_the_window() {
    let size = |width, height| ImageSize { width, height };
    let scale = |numerator, denominator| Some(Scale { numerator, denominator });
    assert_eq!(scale_background(size(1920, 1080), size(100, 100)), scale(1920, 100));
    assert_eq!(scale_background(size(1080, 1920), size(100, 100)), scale(1920, 100));
    assert_eq!(scale_background(size(1920, 1080), size(1920, 1080)), scale(1920, 1920));
    assert_eq!(scale_background(size(800, 600), size(4000, 1000)), scale(600, 1000));
    assert_eq!(scale_background(size(65535, 65535), size(i32::MAX, 1)), scale(65535, 1));
    assert_eq!(scale_background(size(800, 600), size(0, 10)), None);
    assert_eq!(scale_background(size(800, 600), size(10, 0)), None);
    assert_eq!(scale_background(size(800, 600), size(-1, -1)), None);
}

#[test]
fn wallpaper_is_centred() {
    let size = |width, height| ImageSize { width, height };
    for (window, image) in [
        (size(1920, 1080), size(100, 100)),
        (size(1080, 1920), size(640, 480)),
        (size(800, 600), size(4000, 1000)),
        (size(1920, 1080), size(1920, 1080)),
    ] {
        let scale = scale_background(window, image).unwrap();
        let offset = placement(window, image, scale);
        let k = f64::from(scale.numerator) / f64::from(scale.denominator);
        let x = (f64::from(window.width) - f64::from(image.width) * k) / 2.0;
        let y = (f64::from(window.height) - f64::from(image.height) * k) / 2.0;
        assert!((offset.x as f64 / offset.denominator as f64 - x).abs() < 1e-9);
        assert!((offset.y as f64 / offset.denominator as f64 - y).abs() < 1e-9);
    }
    let far = placement(
        size(i32::MIN, i32::MAX),
        size(i32::MAX, i32::MIN),
        Scale { numerator: i32::MAX, denominator: i32::MAX },
    );
    assert_eq!(far.x, -(i32::MAX as i128) * (u32::MAX as i128));
    assert_eq!(far.y, (i32::MAX as i128) * (u32::MAX as i128));
    assert_eq!(far.denominator, 2 * i32::MAX as i128);
}

#[test]
fn prompt_is_a_box_and_dots() {
    let ops = render_input_box(1001, 757, LockState::Typing, 3);
    assert_eq!(ops.len(), 5);
    assert!(matches!(ops[0], DrawOp::FillRect { color: Color::Base, opacity: 800, .. }));
    assert!(matches!(ops[1], DrawOp::StrokeRect { color: Color::Mauve, line_width: 4, .. }));
    for (j, x) in [969, 1001, 1033].into_iter().enumerate() {
        assert_eq!(ops[2 + j], DrawOp::FillDot { x, y: 845, radius: 10, color: Color::Text });
    }
    assert_eq!(render_input_box(1001, 757, LockState::Idle, 0).len(), 2);
    assert_eq!(render_input_box(0, i64::MIN, LockState::Error, 1).len(), 3);
}

#[test]
fn context_holds_a_canvas_for_each_window() {
    let windows = vec![
        LockWindow { id: 1, width: 200, height: 100 },
        LockWindow { id: 2, width: 100, height: 200 },
    ];
    let resources =
        vec![BlitResources { pixmap: 11, gc: 12 }, BlitResources { pixmap: 21, gc: 22 }];
    assert_eq!(frame_size(&windows[0]), ImageSize { width: 200, height: 100 });

    let bare = RenderContext::load(&windows, &resources, None).ok().unwrap();
    let first =
        Canvas { size: ImageSize { width: 200, height: 100 }, pixmap: 11, gc: 12, background: None };
    assert_eq!(bare.canvas(0), Some(first));
    assert_eq!(bare.canvas(2), None);

    let image = Some(ImageSize { width: 50, height: 50 });
    let papered = RenderContext::load(&windows, &resources, image).ok().unwrap();
    assert_eq!(
        papered.canvas(1),
        Some(Canvas {
            size: ImageSize { width: 100, height: 200 },
            pixmap: 21,
            gc: 22,
            background: Some(Background {
                scale: Scale { numerator: 200, denominator: 50 },
                offset: Offset { x: -5000, y: 0, denominator: 100 },
            }),
        })
    );
    assert_eq!(
        papered.cleanup(),
        vec![
            XRequest::FreeGc(12),
            XRequest::FreePixmap(11),
            XRequest::FreeGc(22),
            XRequest::FreePixmap(21),
        ]
    );

    let empty = Some(ImageSize { width: 0, height: 50 });
    assert_eq!(RenderContext::load(&windows, &resources, empty).err(), Some(EmptyWallpaper));
    assert!(RenderContext::load(&vec![], &vec![], empty).is_ok());
}
