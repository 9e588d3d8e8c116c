use screensaver::Coordinate;
use screensaver::RecordingSink;
use screensaver::ScreenSaver;
use screensaver::ScriptedSource;
use screensaver::draw_coordinate;
use screensaver::draw_coordinate_fixed;

fn empty_source() -> ScriptedSource {
    ScriptedSource::new(Vec::new())
}

fn stored_of<const N: usize>(s: &ScreenSaver<ScriptedSource, N>) -> Vec<Coordinate> {
    let mut out: Vec<Coordinate> = Vec::new();
    let mut i: usize = 0;
    while i < s.len() {
        out.push(s.point_at(i));
        i += 1;
    }
    out
}

fn recorded_of(sink: &RecordingSink) -> Vec<Coordinate> {
    let mut out: Vec<Coordinate> = Vec::new();
    let mut i: usize = 0;
    while i < sink.pixel_count() {
        out.push(sink.pixel_at(i));
        i += 1;
    }
    out
}

#[test]
fn capacity_tracks_steps_up_to_n() {
    let mut s = ScreenSaver::<ScriptedSource, 3>::new(empty_source());
    assert_eq!(s.len(), 0);
    let mut step: u32 = 0;
    while step < 5 {
        s.tick_with_draws(step, step + 1, 10, 10);
        let expected: usize = if (step as usize) + 1 < 3 { (step as usize) + 1 } else { 3 };
        assert_eq!(s.len(), expected);
        step += 1;
    }
}

#[test]
fn fifo_order_after_saturation() {
    let mut s = ScreenSaver::<ScriptedSource, 2>::new(empty_source());
    s.tick_with_draws(1, 1, 100, 100);
    s.tick_with_draws(2, 2, 100, 100);
    s.tick_with_draws(3, 3, 100, 100);
    s.tick_with_draws(4, 4, 100, 100);
    assert_eq!(
        stored_of(&s),
        vec![Coordinate { x: 3, y: 3 }, Coordinate { x: 4, y: 4 }]
    );
}

#[test]
fn determinism_with_explicit_draws() {
    let mut s = ScreenSaver::<ScriptedSource, 3>::new(empty_source());
    s.tick_with_draws(11, 32, 10, 10);
    s.tick_with_draws(13, 24, 10, 10);
    s.tick_with_draws(45, 6, 10, 10);
    s.tick_with_draws(7, 18, 10, 10);
    assert_eq!(
        stored_of(&s),
        vec![
            Coordinate { x: 3, y: 4 },
            Coordinate { x: 5, y: 6 },
            Coordinate { x: 7, y: 8 },
        ]
    );
}

#[test]
fn determinism_with_scripted_source() {
    let script: Vec<u32> = vec![11, 32, 13, 24, 45, 6, 7, 18];
    let mut s = ScreenSaver::<ScriptedSource, 3>::new(ScriptedSource::new(script));
    s.tick(10, 10);
    s.tick(10, 10);
    s.tick(10, 10);
    s.tick(10, 10);
    assert_eq!(
        stored_of(&s),
        vec![
            Coordinate { x: 3, y: 4 },
            Coordinate { x: 5, y: 6 },
            Coordinate { x: 7, y: 8 },
        ]
    );
}

#[test]
fn render_issues_one_instruction_per_point_in_order() {
    let mut s = ScreenSaver::<ScriptedSource, 4>::new(empty_source());
    s.tick_with_draws(9, 8, 20, 20);
    s.tick_with_draws(7, 6, 20, 20);
    s.tick_with_draws(5, 4, 20, 20);
    let mut sink = RecordingSink::new(20, 20);
    let r = s.draw(&mut sink);
    assert!(r.is_ok());
    assert_eq!(
        recorded_of(&sink),
        vec![
            Coordinate { x: 9, y: 8 },
            Coordinate { x: 7, y: 6 },
            Coordinate { x: 5, y: 4 },
        ]
    );
}

#[test]
fn render_swallows_sink_failures() {
    let mut s = ScreenSaver::<ScriptedSource, 4>::new(empty_source());
    s.tick_with_draws(1, 2, 50, 50);
    s.tick_with_draws(3, 4, 50, 50);
    s.tick_with_draws(5, 6, 50, 50);
    let mask: Vec<bool> = vec![true, false, true];
    let mut sink = RecordingSink::new_with_failures(50, 50, mask);
    let r = s.draw(&mut sink);
    assert!(r.is_ok());
    assert_eq!(
        recorded_of(&sink),
        vec![
            Coordinate { x: 1, y: 2 },
            Coordinate { x: 3, y: 4 },
            Coordinate { x: 5, y: 6 },
        ]
    );
}

#[test]
fn render_of_fresh_buffer_issues_nothing() {
    let s = ScreenSaver::<ScriptedSource, 8>::new(empty_source());
    let mut sink = RecordingSink::new(30, 30);
    let r = s.draw(&mut sink);
    assert!(r.is_ok());
    assert_eq!(sink.pixel_count(), 0);
}

#[test]
fn single_slot_replaces_previous_point() {
    let mut s = ScreenSaver::<ScriptedSource, 1>::new(empty_source());
    s.tick_with_draws(4, 5, 10, 10);
    assert_eq!(stored_of(&s), vec![Coordinate { x: 4, y: 5 }]);
    s.tick_with_draws(6, 7, 10, 10);
    assert_eq!(stored_of(&s), vec![Coordinate { x: 6, y: 7 }]);
    s.tick_with_draws(8, 9, 10, 10);
    assert_eq!(stored_of(&s), vec![Coordinate { x: 8, y: 9 }]);
}

#[test]
fn modulo_mapping_reproduced_exactly() {
    let c = draw_coordinate(4294967295, 0, 10, 7);
    assert_eq!(c, Coordinate { x: 5, y: 0 });
    let d = draw_coordinate(123456789, 987654321, 1000, 1000);
    assert_eq!(d, Coordinate { x: 789, y: 321 });
    let e = draw_coordinate(17, 19, 2147483647, 2147483647);
    assert_eq!(e, Coordinate { x: 17, y: 19 });
}

#[test]
fn fixed_divisor_maps_onto_128_by_64() {
    assert_eq!(draw_coordinate_fixed(0, 0), Coordinate { x: 0, y: 0 });
    assert_eq!(
        draw_coordinate_fixed(4294967295, 4294967295),
        Coordinate { x: 127, y: 63 }
    );
    assert_eq!(
        draw_coordinate_fixed(33554432, 134217728),
        Coordinate { x: 1, y: 2 }
    );
}

#[test]
fn tick_fixed_stores_divided_draws() {
    let script: Vec<u32> = vec![33554432, 134217728];
    let mut s = ScreenSaver::<ScriptedSource, 4>::new(ScriptedSource::new(script));
    s.tick_fixed();
    assert_eq!(stored_of(&s), vec![Coordinate { x: 1, y: 2 }]);
}

#[test]
fn tick_draw_steps_with_sink_dimensions_then_renders() {
    let script: Vec<u32> = vec![11, 32, 13, 24, 45, 6];
    let mut s = ScreenSaver::<ScriptedSource, 2>::new(ScriptedSource::new(script));
    let mut sink = RecordingSink::new(10, 10);
    let r1 = s.tick_draw(&mut sink);
    assert!(r1.is_ok());
    assert_eq!(sink.pixel_count(), 1);
    let r2 = s.tick_draw(&mut sink);
    assert!(r2.is_ok());
    assert_eq!(sink.pixel_count(), 3);
    let r3 = s.tick_draw(&mut sink);
    assert!(r3.is_ok());
    assert_eq!(sink.pixel_count(), 5);
    assert_eq!(
        recorded_of(&sink),
        vec![
            Coordinate { x: 1, y: 2 },
            Coordinate { x: 1, y: 2 },
            Coordinate { x: 3, y: 4 },
            Coordinate { x: 3, y: 4 },
            Coordinate { x: 5, y: 6 },
        ]
    );
}

#[test]
fn tick_draw_skips_step_on_degenerate_surface() {
    let mut s = ScreenSaver::<ScriptedSource, 4>::new(empty_source());
    s.tick_with_draws(2, 3, 10, 10);
    let mut sink = RecordingSink::new(0, 10);
    let r = s.tick_draw(&mut sink);
    assert!(r.is_ok());
    assert_eq!(s.len(), 1);
    assert_eq!(recorded_of(&sink), vec![Coordinate { x: 2, y: 3 }]);
    let mut wide = RecordingSink::new(2147483648, 10);
    let r2 = s.tick_draw(&mut wide);
    assert!(r2.is_ok());
    assert_eq!(s.len(), 1);
    assert_eq!(wide.pixel_count(), 1);
}

#[test]
fn scripted_source_yields_zero_when_exhausted() {
    let mut s = ScreenSaver::<ScriptedSource, 2>::new(ScriptedSource::new(vec![7]));
    s.tick(5, 5);
    s.tick(5, 5);
    assert_eq!(
        stored_of(&s),
        vec![Coordinate { x: 2, y: 0 }, Coordinate { x: 0, y: 0 }]
    );
}
