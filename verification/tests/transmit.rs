use pingpaint::address::craftaddr;
use pingpaint::config::Config;
use pingpaint::raster::{Color, Raster};
use pingpaint::source::Pixel;
use pingpaint::stats::{Counters, Report};
use pingpaint::source::raster_order;
use pingpaint::transmit::{
    address_for, place, prepare, Action, Painter, Phase, Step, NAP_SECS,
};

const SEC: u128 = 1_000_000_000;

const RED: [u8; 4] = [0xff, 0, 0, 0xff];
const BLUE: [u8; 4] = [0, 0, 0xff, 0xff];

fn raster(width: u32, height: u32, colors: &[[u8; 4]]) -> Raster {
    let data: Vec<u8> = colors.iter().flat_map(|c| c.iter().copied()).collect();
    Raster::new(width, height, data).expect("four bytes for each position")
}

fn in_order() -> Config {
    Config { shuffle: false, ..Config::default() }
}

fn send(address: u128) -> Step {
    Step { action: Action::Send { address }, woke: false, hue: None }
}

fn just(action: Action) -> Step {
    Step { action, woke: false, hue: None }
}

#[test]
fn two_pixels_are_sent_in_raster_order_at_the_offset() {
    let config = Config { x: 10, y: 20, once: true, ..in_order() };
    let mut painter = Painter::new(config, raster(2, 1, &[RED, BLUE]), 0);
    assert_eq!(painter.phase(), Phase::Idling);

    let first = painter.poll(0);
    assert_eq!(first, send(craftaddr(10, 20, 0xff, 0, 0)));
    assert_eq!(first, send(0x2001_0610_1908_a000_000a_0014_0000_ffff));
    assert_eq!(painter.phase(), Phase::Sending);
    assert_eq!(painter.record(true, 1), None);

    let second = painter.poll(2);
    assert_eq!(second, send(craftaddr(11, 20, 0, 0, 0xff)));
    assert_eq!(second, send(0x2001_0610_1908_a000_000b_0014_ff00_00ff));
    assert_eq!(painter.record(true, 3), None);

    assert_eq!(painter.phase(), Phase::Done);
    assert_eq!(painter.poll(4), just(Action::Stop));
    assert_eq!(painter.poll(5), just(Action::Stop));
    assert_eq!(painter.stats().counters.total_sent, 2);
    assert_eq!(painter.stats().counters.total_errors, 0);
}

#[test]
fn polling_again_before_recording_names_the_same_pixel() {
    let mut painter = Painter::new(in_order(), raster(2, 1, &[RED, BLUE]), 0);
    let first = painter.poll(0);
    assert_eq!(painter.poll(1), first);
    assert_eq!(painter.poll(9 * SEC), first);
    assert_eq!(painter.stats().counters.total_sent, 0);
    painter.record(true, 2);
    assert_eq!(painter.poll(3), send(craftaddr(1, 0, 0, 0, 0xff)));
}

#[test]
fn without_once_the_passes_go_on() {
    let mut painter = Painter::new(in_order(), raster(2, 1, &[RED, BLUE]), 0);
    for pass in 0..3u64 {
        assert_eq!(painter.phase(), Phase::Idling);
        assert_eq!(painter.poll(0), send(craftaddr(0, 0, 0xff, 0, 0)));
        painter.record(true, 0);
        assert_eq!(painter.poll(0), send(craftaddr(1, 0, 0, 0, 0xff)));
        painter.record(true, 0);
        assert_eq!(painter.stats().counters.total_sent, 2 * (pass + 1));
    }
    assert_eq!(painter.phase(), Phase::Idling);
}

#[test]
fn a_failed_send_is_counted_and_the_loop_goes_on() {
    let config = Config { once: true, ..in_order() };
    let mut painter = Painter::new(config, raster(3, 1, &[RED, BLUE, RED]), 0);
    painter.poll(0);
    painter.record(false, 0);
    assert_eq!(painter.poll(0), send(craftaddr(1, 0, 0, 0, 0xff)));
    painter.record(true, 0);
    assert_eq!(painter.poll(0), send(craftaddr(2, 0, 0xff, 0, 0)));
    painter.record(false, 0);
    assert_eq!(
        painter.stats().counters,
        Counters { total_sent: 3, total_errors: 2, window_sent: 3, window_errors: 2 }
    );
    assert_eq!(painter.poll(0), just(Action::Stop));
}

#[test]
fn an_image_without_pixels_is_one_pass() {
    let once = Config { once: true, ..in_order() };
    let mut painter = Painter::new(once, raster(0, 0, &[]), 0);
    assert_eq!(painter.poll(0), just(Action::Stop));
    assert_eq!(painter.phase(), Phase::Done);

    let mut endless = Painter::new(in_order(), raster(0, 0, &[]), 0);
    assert_eq!(endless.poll(0), just(Action::Again));
    assert_eq!(endless.phase(), Phase::Idling);
    assert_eq!(endless.poll(1), just(Action::Again));
    assert_eq!(endless.stats().counters.total_sent, 0);
}

#[test]
fn pixels_that_are_not_opaque_can_be_left_out() {
    let config = Config { opaque_only: true, once: true, ..in_order() };
    let colors = [[1, 2, 3, 0], [4, 5, 6, 255], [7, 8, 9, 254]];
    let mut painter = Painter::new(config, raster(3, 1, &colors), 0);
    assert_eq!(
        painter.pixels(),
        &[Pixel { x: 1, y: 0, color: Color { r: 4, g: 5, b: 6, a: 255 } }]
    );
    assert_eq!(painter.poll(0), send(craftaddr(1, 0, 4, 5, 6)));
    painter.record(true, 0);
    assert_eq!(painter.poll(0), just(Action::Stop));

    let none = [[1, 2, 3, 0], [7, 8, 9, 254]];
    let mut nothing = Painter::new(config, raster(2, 1, &none), 0);
    assert_eq!(nothing.poll(0), just(Action::Stop));
}

#[test]
fn the_painter_idles_until_the_timeout_has_passed() {
    let config = Config { timeout: Some(3), ..in_order() };
    let mut painter = Painter::new(config, raster(1, 1, &[RED]), 10 * SEC);
    assert_eq!(painter.poll(10 * SEC), just(Action::Sleep));
    assert_eq!(painter.poll(11 * SEC), just(Action::Sleep));
    assert_eq!(painter.poll(13 * SEC), just(Action::Sleep));
    assert_eq!(painter.phase(), Phase::Idling);
    let woken = painter.poll(13 * SEC + 1);
    let red = Action::Send { address: craftaddr(0, 0, 0xff, 0, 0) };
    assert_eq!(woken, Step { action: red, woke: true, hue: None });
    painter.record(true, 13 * SEC + 2);
    assert_eq!(painter.poll(14 * SEC), just(Action::Sleep));
    assert_eq!(painter.poll(16 * SEC + 1), just(Action::Sleep));
    assert!(painter.poll(16 * SEC + 2).woke);
    assert_eq!(NAP_SECS, 1);
}

#[test]
fn a_timeout_of_zero_never_idles() {
    let config = Config { timeout: Some(0), ..in_order() };
    let mut painter = Painter::new(config, raster(1, 1, &[RED]), 7);
    for _ in 0..3 {
        let step = painter.poll(7);
        let red = Action::Send { address: craftaddr(0, 0, 0xff, 0, 0) };
        assert_eq!(step, Step { action: red, woke: true, hue: None });
        painter.record(true, 7);
    }
}

#[test]
fn a_quiet_painter_wakes_without_saying_so() {
    let config = Config { timeout: Some(1), quiet: true, ..in_order() };
    let mut painter = Painter::new(config, raster(1, 1, &[RED]), 0);
    assert_eq!(painter.poll(SEC), just(Action::Sleep));
    assert_eq!(painter.poll(SEC + 1), send(craftaddr(0, 0, 0xff, 0, 0)));
}

#[test]
fn a_report_comes_with_the_send_that_passes_the_interval() {
    let config = Config { interval: 2, ..in_order() };
    let mut painter = Painter::new(config, raster(2, 1, &[RED, BLUE]), 0);
    painter.poll(0);
    assert_eq!(painter.record(true, SEC), None);
    painter.poll(SEC);
    assert_eq!(painter.record(false, 2 * SEC), None);
    painter.poll(2 * SEC);
    let report = painter.record(true, 2 * SEC + 1);
    assert_eq!(
        report,
        Some(Report { window_sent: 3, window_errors: 1, total_sent: 3, total_errors: 1 })
    );
    assert_eq!(report.map(|r| r.line()), Some("3pks 1eps (33.3%) 3 packets 1 errors".to_string()));
    assert_eq!(
        painter.stats().counters,
        Counters { total_sent: 3, total_errors: 1, window_sent: 0, window_errors: 0 }
    );
    painter.poll(3 * SEC);
    assert_eq!(painter.record(true, 4 * SEC + 1), None);
    painter.poll(4 * SEC + 1);
    assert_eq!(
        painter.record(true, 4 * SEC + 2),
        Some(Report { window_sent: 2, window_errors: 0, total_sent: 5, total_errors: 1 })
    );
}

#[test]
fn a_quiet_painter_counts_and_never_reports() {
    let config = Config { quiet: true, ..in_order() };
    let mut painter = Painter::new(config, raster(1, 1, &[RED]), 0);
    for i in 0..5u128 {
        painter.poll(i * 10 * SEC);
        assert_eq!(painter.record(i % 2 == 0, i * 10 * SEC + 1), None);
    }
    assert_eq!(
        painter.stats().counters,
        Counters { total_sent: 5, total_errors: 2, window_sent: 5, window_errors: 2 }
    );
}

#[test]
fn a_new_pass_does_not_reset_the_counters() {
    let config = Config { interval: 1000, ..in_order() };
    let mut painter = Painter::new(config, raster(1, 1, &[RED]), 0);
    for pass in 1..=4u64 {
        painter.poll(0);
        painter.record(pass % 2 != 0, 0);
        assert_eq!(
            painter.stats().counters,
            Counters {
                total_sent: pass,
                total_errors: pass / 2,
                window_sent: pass,
                window_errors: pass / 2
            }
        );
    }
}

#[test]
fn the_offset_saturates_at_the_edge_of_the_canvas() {
    assert_eq!(place(0, 0), 0);
    assert_eq!(place(10, 20), 30);
    assert_eq!(place(0xffff, 0), 0xffff);
    assert_eq!(place(0xfffe, 1), 0xffff);
    assert_eq!(place(0xfffe, 2), 0xffff);
    assert_eq!(place(1, 0xffff), 0xffff);
    assert_eq!(place(0, 0x1_0000), 0xffff);
    assert_eq!(place(0xffff, u32::MAX), 0xffff);
    assert_eq!(place(0, 0xfffe), 0xfffe);
}

#[test]
fn the_address_of_a_pixel_has_the_offset_added() {
    let config = Config { x: 0xfff0, y: 5, ..Config::default() };
    let near = Pixel { x: 3, y: 4, color: Color { r: 1, g: 2, b: 3, a: 0 } };
    assert_eq!(address_for(&config, &near), craftaddr(0xfff3, 9, 1, 2, 3));
    let far = Pixel { x: 0x10, y: 0xfffb, color: Color { r: 1, g: 2, b: 3, a: 255 } };
    assert_eq!(address_for(&config, &far), craftaddr(0xffff, 0xffff, 1, 2, 3));
}

#[test]
fn the_painter_carries_the_request() {
    let painter = Painter::new(Config::default(), raster(1, 1, &[RED]), 0);
    let bytes = painter.request().as_bytes();
    assert_eq!(bytes.len(), 64);
    assert_eq!(&bytes[..4], &[128, 0, 0x7f, 0xff]);
    assert_eq!(painter.config(), Config::default());
    assert_eq!(painter.hue(), 0);
}

#[test]
fn a_shuffling_painter_sends_every_pixel_once_in_a_pass() {
    let colors: Vec<[u8; 4]> = (0..100u8).map(|i| [i, 0, 0, 255]).collect();
    let config = Config { once: true, ..Config::default() };
    assert!(config.shuffle);
    let mut painter = Painter::new(config, raster(10, 10, &colors), 0);
    let mut sent: Vec<u128> = Vec::new();
    loop {
        match painter.poll(0).action {
            Action::Send { address } => {
                sent.push(address);
                painter.record(true, 0);
            }
            Action::Stop => break,
            other => panic!("unexpected {:?}", other),
        }
    }
    let mut expected: Vec<u128> =
        (0..100u16).map(|i| craftaddr(i % 10, i / 10, i as u8, 0, 0)).collect();
    assert_ne!(sent, expected);
    sent.sort();
    expected.sort();
    assert_eq!(sent, expected);
}

#[test]
fn the_hue_turns_every_five_seconds_from_the_decoded_image() {
    let colors = [[200, 30, 60, 255], [10, 180, 90, 7]];
    let data: Vec<u8> = colors.iter().flat_map(|c| c.iter().copied()).collect();
    let config = Config { hue_speed: Some(90), ..in_order() };
    let mut painter = Painter::new(config, raster(2, 1, &colors), 0);

    let mut now = 0u128;
    let mut pass = |painter: &mut Painter, now: u128| -> (Step, Vec<Pixel>) {
        let first = painter.poll(now);
        let pixels = painter.pixels().to_vec();
        painter.record(true, now);
        painter.poll(now);
        painter.record(true, now);
        (first, pixels)
    };

    let (first, pixels) = pass(&mut painter, now);
    assert_eq!(first.hue, None);
    assert_eq!(pixels[0].color, Color { r: 200, g: 30, b: 60, a: 255 });
    now = 5 * SEC;
    let (still, _) = pass(&mut painter, now);
    assert_eq!(still.hue, None);
    assert_eq!(painter.hue(), 0);

    for turn in 1..=5i32 {
        now += 5 * SEC + 1;
        let (step, pixels) = pass(&mut painter, now);
        let hue = (turn * 90) % 360;
        assert_eq!(step.hue, Some(hue));
        assert_eq!(painter.hue(), hue);
        let source = image::RgbaImage::from_raw(2, 1, data.clone()).expect("fits");
        let turned = image::imageops::huerotate(&source, hue).into_raw();
        assert_eq!(pixels.len(), 2);
        for (i, pixel) in pixels.iter().enumerate() {
            assert_eq!((pixel.x, pixel.y), (i as u32, 0));
            let c = &turned[4 * i..4 * i + 4];
            assert_eq!(pixel.color, Color { r: c[0], g: c[1], b: c[2], a: c[3] });
            assert_eq!(pixel.color.a, colors[i][3]);
        }
        if turn == 2 {
            assert_ne!(pixels[0].color, Color { r: 200, g: 30, b: 60, a: 255 });
        }
    }
}

#[test]
fn the_hue_turns_only_between_passes() {
    let config = Config { hue_speed: Some(30), ..in_order() };
    let mut painter = Painter::new(config, raster(2, 1, &[RED, BLUE]), 0);
    painter.poll(0);
    painter.record(true, 0);
    let within = painter.poll(60 * SEC);
    assert_eq!(within, send(craftaddr(1, 0, 0, 0, 0xff)));
    assert_eq!(painter.hue(), 0);
    painter.record(true, 60 * SEC);
    let next = painter.poll(60 * SEC);
    assert_eq!(next.hue, Some(30));
    assert_eq!(painter.hue(), 30);
}

#[test]
fn a_quiet_painter_turns_the_hue_without_saying_so() {
    let config = Config { hue_speed: Some(-45), quiet: true, ..in_order() };
    let mut painter = Painter::new(config, raster(1, 1, &[RED]), 0);
    let step = painter.poll(5 * SEC + 1);
    assert_eq!(step.hue, None);
    assert!(!step.woke);
    assert_eq!(painter.hue(), -45);
}

#[test]
fn the_hue_does_not_turn_while_the_painter_idles() {
    let config = Config { hue_speed: Some(10), timeout: Some(100), ..in_order() };
    let mut painter = Painter::new(config, raster(1, 1, &[RED]), 0);
    assert_eq!(painter.poll(50 * SEC), just(Action::Sleep));
    assert_eq!(painter.hue(), 0);
    let step = painter.poll(100 * SEC + 1);
    assert!(step.woke);
    assert_eq!(step.hue, Some(10));
}

#[test]
fn turning_the_hue_keeps_the_opaque_pixels() {
    let colors = [[200, 30, 60, 255], [10, 180, 90, 7], [1, 2, 3, 255]];
    let config = Config { hue_speed: Some(120), opaque_only: true, ..in_order() };
    let mut painter = Painter::new(config, raster(3, 1, &colors), 0);
    painter.poll(6 * SEC);
    let pixels = painter.pixels();
    assert_eq!(pixels.len(), 2);
    assert_eq!((pixels[0].x, pixels[1].x), (0, 2));
    assert!(pixels.iter().all(|p| p.color.a == 255));
}

#[test]
fn every_turn_keeps_size_positions_and_alpha() {
    let colors: Vec<[u8; 4]> = (0..256u32)
        .map(|i| [(i * 7) as u8, (255 - i) as u8, (i * 13 + 5) as u8, (i * 31) as u8])
        .collect();
    let data: Vec<u8> = colors.iter().flat_map(|c| c.iter().copied()).collect();
    let config = Config { hue_speed: Some(-37), quiet: true, ..in_order() };
    let mut painter = Painter::new(config, raster(16, 16, &colors), 0);
    let mut now = 0u128;
    let mut hue = 0i32;
    for _ in 0..40 {
        now += 5 * SEC + 1;
        assert!(matches!(painter.poll(now).action, Action::Send { .. }));
        hue = (hue - 37) % 360;
        assert_eq!(painter.hue(), hue);
        let source = image::RgbaImage::from_raw(16, 16, data.clone()).expect("fits");
        let turned = image::imageops::huerotate(&source, hue);
        assert_eq!(turned.dimensions(), (16, 16));
        let pixels = painter.pixels().to_vec();
        assert_eq!(pixels.len(), 256);
        for (i, pixel) in pixels.iter().enumerate() {
            assert_eq!((pixel.x, pixel.y), (i as u32 % 16, i as u32 / 16));
            assert_eq!(pixel.color.a, colors[i][3]);
            let c = turned.get_pixel(pixel.x, pixel.y).0;
            assert_eq!(pixel.color, Color { r: c[0], g: c[1], b: c[2], a: c[3] });
        }
        for _ in 0..256 {
            painter.poll(now);
            painter.record(true, now);
        }
        assert_eq!(painter.phase(), Phase::Idling);
    }
}

#[test]
fn an_image_is_prepared_as_configured() {
    let colors = [RED, BLUE, BLUE, RED];
    let kept = prepare(raster(2, 2, &colors), None).expect("nothing to resize");
    assert_eq!((kept.width(), kept.height()), (2, 2));
    assert_eq!(raster_order(&kept, false), raster_order(&raster(2, 2, &colors), false));

    let scaled = prepare(raster(2, 2, &colors), Some((6, 4))).expect("within bounds");
    assert_eq!((scaled.width(), scaled.height()), (6, 4));
    let direct = raster(2, 2, &colors).resize_exact(6, 4).expect("within bounds");
    assert_eq!(raster_order(&scaled, false), raster_order(&direct, false));

    assert!(prepare(raster(2, 2, &colors), Some((u32::MAX, 1))).is_none());
}

#[test]
fn a_resized_image_is_painted_at_its_new_size() {
    let image = prepare(raster(2, 1, &[RED, RED]), Some((3, 2))).expect("within bounds");
    let config = Config { once: true, resize: Some((3, 2)), ..in_order() };
    let mut painter = Painter::new(config, image, 0);
    let mut sent = Vec::new();
    while let Action::Send { address } = painter.poll(0).action {
        sent.push(address);
        painter.record(true, 0);
    }
    let expected: Vec<u128> =
        (0..6u16).map(|i| craftaddr(i % 3, i / 3, 0xff, 0, 0)).collect();
    assert_eq!(sent, expected);
}
