use benilla_app::post::bloom::{
    bloom_params, bloom_uniform, prepare_textures, run_bloom, texture_size, update_bloom_view, BloomPass,
    BloomPipelines, BloomTextures, PassTexture, TextureSize,
};
use benilla_app::post::cube::{identity_cube, strip_to_cube, StripError, CUBE_BYTES};
use benilla_app::post::ease::ease_place;
use benilla_app::post::grading::{
    archive_path, catalog_source, grade_uniform, grade_view, load_catalog, loose_path, lut_paths,
    rendered_minute, run_grade, select_pair, update_grade_view, FadeSteps, GradeBinding,
    GradeBlend, GradeCatalog, GradePair, GradeResidency, GradeRow, RowPaths, Source, Strip,
    ViewWrite,
};
use benilla_app::post::sun_shafts::{
    draws_shafts, far_plane, outside_frame, shaft_key, shaft_row, update_shaft_view, ShaftGate,
    ShaftKey, ShaftView,
};
use benilla_app::post::uniform::{prepare_uniforms, uniform_bytes, BufferWrite};
use benilla_app::single::Single;
use std::collections::HashMap;

const GRADE_FADE_S: f32 = 2.0;

fn n(v: f32) -> Single {
    Single::from_bits(v.to_bits())
}

fn f(v: Single) -> f32 {
    f32::from_bits(v.bits)
}

fn smoothstep(a: f32, b: f32, value: f32) -> f32 {
    let t = f(ease_place(n((value - a) / (b - a))));
    t * t * (3.0 - 2.0 * t)
}

fn night_weight(minute: f32) -> f32 {
    let dawn = smoothstep(330.0, 450.0, minute);
    let dusk = smoothstep(1110.0, 1230.0, minute);
    1.0 - dawn * (1.0 - dusk)
}

#[test]
fn grade_night_weight_follows_the_rendered_minute() {
    let noon = n(720.0);
    let manual = Some((1260, n(1260.0)));
    assert_eq!(f(rendered_minute(noon, manual)), 1260.0);
    assert_eq!(night_weight(f(rendered_minute(noon, manual))), 1.0);
    let live = n(1260.5);
    assert_eq!(f(rendered_minute(live, manual)), 1260.5);
    assert_eq!(f(rendered_minute(live, None)), 1260.5);
}

#[test]
fn identity_volume_has_exact_axes() {
    let cube = identity_cube();
    let at = |r: usize, g: usize, b: usize| &cube[((b * 32 + g) * 32 + r) * 4..][..4];
    assert_eq!(at(0, 0, 0), &[0, 0, 0, 255]);
    assert_eq!(at(31, 0, 0), &[255, 0, 0, 255]);
    assert_eq!(at(0, 31, 0), &[0, 255, 0, 255]);
    assert_eq!(at(0, 0, 31), &[0, 0, 255, 255]);
    assert_eq!(at(15, 16, 1), &[123, 132, 8, 255]);
}

fn step(blend: &mut GradeBlend, target: Option<GradePair>, dt: f32, snap: bool) {
    let by = dt / GRADE_FADE_S;
    let fade = f(blend.fade);
    let steps = FadeSteps {
        kept: n(fade + by),
        reversed: n(1.0 - fade + by),
        restarted: n(by),
    };
    blend.step(target, &steps, snap);
}

fn shows(pair: Option<GradePair>) -> Option<(u64, u64, f32)> {
    pair.map(|p| (p.day, p.night, f(p.strength)))
}

#[test]
fn zone_change_crossfades_and_a_quick_return_reverses() {
    let pair = |id: u64, strength: f32| {
        Some(GradePair {
            day: id,
            night: id + 1,
            strength: n(strength),
        })
    };
    let (a, b) = (pair(10, 1.0), pair(20, 0.5));
    let mut blend = GradeBlend::new();
    step(&mut blend, None, 0.016, false);
    step(&mut blend, a, 0.016, false);
    assert_eq!((shows(blend.current), f(blend.fade)), (shows(a), 1.0));
    step(&mut blend, b, 0.5, false);
    assert_eq!(shows(blend.previous), shows(a));
    assert!((f(blend.fade) - 0.25).abs() < 1e-6);
    step(&mut blend, a, 0.0, false);
    assert_eq!(
        (shows(blend.current), shows(blend.previous)),
        (shows(a), shows(b))
    );
    assert!((f(blend.fade) - 0.75).abs() < 1e-6);
    step(&mut blend, a, 1.0, false);
    assert_eq!((f(blend.fade), blend.previous.is_none()), (1.0, true));
    step(&mut blend, None, 1.0, false);
    assert_eq!(
        (blend.current.is_none(), shows(blend.previous)),
        (true, shows(a))
    );
    assert!((f(blend.fade) - 0.5).abs() < 1e-6);
    step(&mut blend, None, 0.0, true);
    assert!(blend.previous.is_none() && blend.current.is_none());
}

#[test]
fn a_run_of_the_crossfade_keeps_its_bounds() {
    let pair = |id: u64| {
        Some(GradePair {
            day: id,
            night: id + 1,
            strength: n(0.75),
        })
    };
    let targets = [pair(10), None, pair(20), pair(10), pair(10), pair(30), None];
    let steps = [0.0, 0.25, 0.016, 1.5, 0.5, 3.0, 0.125, 0.75];
    let mut blend = GradeBlend::new();
    let mut fresh = true;
    for frame in 0..200 {
        let target = targets[frame % targets.len()];
        let snap = frame % 31 == 30;
        step(&mut blend, target, steps[frame % steps.len()], snap);
        let fade = f(blend.fade);
        assert!((0.0..=1.0).contains(&fade), "frame {frame}: {fade}");
        assert_eq!(shows(blend.current), shows(target), "frame {frame}");
        if fade == 1.0 {
            assert!(blend.previous.is_none(), "frame {frame}");
        }
        if snap || fresh {
            assert_eq!(fade, 1.0, "frame {frame}");
        }
        fresh = snap || (fresh && target.is_none());
    }
}

#[test]
fn day_night_blend_is_continuous() {
    assert_eq!(night_weight(0.0), 1.0);
    assert_eq!(night_weight(720.0), 0.0);
    assert_eq!(night_weight(1439.0), 1.0);
    assert!((night_weight(390.0) - 0.5).abs() < 1.0e-6);
}

#[test]
fn edge_and_night_fades_are_bounded() {
    assert_eq!(smoothstep(0.0, 1.0, -1.0), 0.0);
    assert_eq!(smoothstep(0.0, 1.0, 2.0), 1.0);
    assert!((smoothstep(0.0, 1.0, 0.5) - 0.5).abs() < 1.0e-6);
}

#[test]
fn a_strip_is_stacked_into_a_cube() {
    let strip: Vec<u8> = (0..CUBE_BYTES).map(|i| (i / 4 % 251) as u8).collect();
    let cube = strip_to_cube(1024, 32, &vec![strip.clone()]).expect("a cube");
    for (r, g, b) in [(0, 0, 0), (31, 0, 0), (3, 7, 11), (0, 31, 30), (31, 31, 31)] {
        let in_cube = ((b * 32 + g) * 32 + r) * 4;
        let in_strip = (g * 1024 + b * 32 + r) * 4;
        assert_eq!(cube[in_cube..in_cube + 4], strip[in_strip..in_strip + 4]);
    }
    assert_eq!(strip_to_cube(1024, 32, &vec![cube]), Ok(strip));
}

#[test]
fn a_strip_of_another_shape_holds_no_cube() {
    assert_eq!(
        strip_to_cube(1024, 16, &Vec::new()),
        Err(StripError::WrongSize { width: 1024, height: 16 })
    );
    assert_eq!(
        strip_to_cube(512, 32, &Vec::new()),
        Err(StripError::WrongSize { width: 512, height: 32 })
    );
    assert_eq!(strip_to_cube(1024, 32, &Vec::new()), Err(StripError::NoBaseLevel));
    assert_eq!(
        strip_to_cube(1024, 32, &vec![vec![0; 7]]),
        Err(StripError::WrongLength { bytes: 7 })
    );
}

#[test]
fn a_catalog_keeps_a_place_for_every_strip() {
    let whole = Strip {
        width: 1024,
        height: 32,
        mips: vec![vec![9; CUBE_BYTES]],
    };
    let broken = Strip {
        width: 1,
        height: 1,
        mips: Vec::new(),
    };
    let cubes = load_catalog(&vec![None, Some(whole), Some(broken)]);
    assert_eq!(cubes.len(), 3);
    assert!(cubes[0].is_none() && cubes[2].is_none());
    assert_eq!(cubes[1].as_ref().map(Vec::len), Some(CUBE_BYTES));
    assert_eq!(catalog_source(false, true), Source::Nowhere);
    assert_eq!(catalog_source(true, true), Source::Loose);
    assert_eq!(catalog_source(true, false), Source::Archive);
}

#[test]
fn a_path_is_written_as_each_store_parts_it() {
    assert_eq!(loose_path("World\\Grade\\d\u{e4}mmer.blp"), "World/Grade/d\u{e4}mmer.blp");
    assert_eq!(archive_path("World/Grade/a\\b.blp"), "World\\Grade\\a\\b.blp");
    assert_eq!(archive_path(""), "");
    let row = |day: &str, night: &str| RowPaths {
        day: day.to_string(),
        night: night.to_string(),
    };
    let mut paths = lut_paths(&vec![row("a", "b"), row("b", "a"), row("c", "c")]);
    paths.sort();
    assert_eq!(paths, vec!["a", "b", "c"]);
}

fn catalog() -> GradeCatalog {
    let row = |day_lut, night_lut, strength: f32| GradeRow {
        day_lut,
        night_lut,
        strength: n(strength),
    };
    GradeCatalog {
        rows: HashMap::from([(12, row(1, 2, 0.5)), (40, row(1, 9, 1.0)), (50, row(1, 2, 0.0))]),
        luts: HashMap::from([(1, 101), (2, 102)]),
        identity: 7,
        top_zone: HashMap::from([(13, 12)]),
    }
}

#[test]
fn an_area_is_graded_by_its_own_row_or_its_zones() {
    let of = |area, capture| shows(select_pair(&catalog(), area, capture));
    assert_eq!(of(Some(12), None), Some((101, 102, 0.5)));
    assert_eq!(of(Some(13), None), Some((101, 102, 0.5)));
    assert_eq!(of(Some(40), Some(12)), Some((101, 7, 1.0)), "a missing cube changes nothing");
    assert_eq!(of(None, Some(12)), Some((101, 102, 0.5)));
    assert_eq!(of(Some(50), None), None);
    assert_eq!(of(Some(99), None), None);
    assert_eq!(of(None, None), None);
}

#[test]
fn a_view_is_written_only_where_it_differs() {
    let mut blend = GradeBlend::new();
    assert!(grade_view(&blend, 7, n(0.25)).is_none());
    step(&mut blend, select_pair(&catalog(), Some(12), None), 0.0, false);
    let view = grade_view(&blend, 7, n(0.25));
    let shown = view.expect("a view");
    assert_eq!((shown.day, shown.night), (101, 102));
    assert_eq!((shown.prev_day, shown.prev_night), (7, 7));
    assert_eq!(f(shown.prev_strength), 0.0);
    assert_eq!(update_grade_view(true, true, &view, &None), ViewWrite::Insert);
    assert_eq!(update_grade_view(true, true, &view, &view), ViewWrite::Leave);
    let later = grade_view(&blend, 7, n(0.5));
    assert_eq!(update_grade_view(true, true, &later, &view), ViewWrite::Insert);
    assert_eq!(update_grade_view(false, true, &view, &view), ViewWrite::Remove);
    assert_eq!(update_grade_view(true, false, &view, &None), ViewWrite::Leave);
    assert_eq!(update_grade_view(true, true, &None, &view), ViewWrite::Remove);
}

#[test]
fn a_bloom_follows_its_tier() {
    assert_eq!(update_bloom_view(0, true, None), (ViewWrite::Leave, 0));
    assert_eq!(update_bloom_view(0, true, Some(1)), (ViewWrite::Remove, 0));
    assert_eq!(update_bloom_view(1, true, None), (ViewWrite::Insert, 1));
    assert_eq!(update_bloom_view(9, true, Some(2)), (ViewWrite::Leave, 2));
    assert_eq!(update_bloom_view(2, false, Some(2)), (ViewWrite::Remove, 2));
    let view = Some(TextureSize { width: 1920, height: 20 });
    assert_eq!(texture_size(view, 1), Some(TextureSize { width: 480, height: 8 }));
    assert_eq!(texture_size(view, 2), Some(TextureSize { width: 960, height: 10 }));
    assert_eq!(texture_size(None, 2), None);
    let held = Some(BloomTextures { a: 1, b: 2, tier: 1 });
    assert!(!prepare_textures(held, 1, 2, 1));
    assert!(prepare_textures(held, 1, 2, 2));
    assert!(prepare_textures(held, 2, 1, 1));
    assert!(prepare_textures(None, 1, 2, 1));
    let low = bloom_params(1);
    assert_eq!((f(low.tier), f(low.gain)), (1.0, 0.55));
    let high = bloom_params(2);
    assert_eq!((f(high.tier), f(high.gain)), (2.0, 0.78));
}

#[test]
fn a_bloom_runs_whole_or_not_at_all() {
    let mut pipelines = BloomPipelines {
        extract: true,
        blur_across: true,
        blur_down: true,
        combine: false,
    };
    assert!(run_bloom(&pipelines).is_empty());
    pipelines.combine = true;
    let passes = run_bloom(&pipelines);
    let order: Vec<BloomPass> = passes.iter().map(|p| p.pass).collect();
    assert_eq!(
        order,
        vec![
            BloomPass::Extract,
            BloomPass::BlurAcross,
            BloomPass::BlurDown,
            BloomPass::Combine,
        ]
    );
    assert_eq!(passes[3].auxiliary, PassTexture::A);
    assert_eq!(passes[2].destination, PassTexture::A);
}

const OUTDOORS: ShaftGate = ShaftGate {
    enabled: true,
    active: true,
    indoors: false,
    has_sun: true,
};

fn shafts(strength: f32) -> Option<ShaftView> {
    Some(ShaftView {
        u: n(0.5),
        v: n(0.5),
        strength: n(strength),
        red: n(1.0),
        green: n(1.0),
        blue: n(1.0),
    })
}

#[test]
fn shafts_show_outdoors_while_they_are_strong() {
    let mut depth = 1;
    let bright = shafts(0.5);
    assert_eq!(update_shaft_view(&OUTDOORS, &bright, &None, 4, &mut depth), ViewWrite::Insert);
    assert_eq!(depth, 5);
    assert_eq!(update_shaft_view(&OUTDOORS, &bright, &bright, 4, &mut depth), ViewWrite::Leave);
    let weak = shafts(0.001);
    assert_eq!(update_shaft_view(&OUTDOORS, &weak, &bright, 4, &mut depth), ViewWrite::Remove);
    assert_eq!(update_shaft_view(&OUTDOORS, &None, &None, 4, &mut depth), ViewWrite::Remove);
    let inside = ShaftGate {
        indoors: true,
        ..OUTDOORS
    };
    assert_eq!(update_shaft_view(&inside, &bright, &None, 4, &mut depth), ViewWrite::Leave);
    assert_eq!(update_shaft_view(&inside, &bright, &bright, 4, &mut depth), ViewWrite::Remove);
    assert!(draws_shafts(true, 4, depth));
    assert!(!draws_shafts(true, 4, 1));
    assert!(!draws_shafts(false, 4, depth));
    assert_eq!(shaft_key(3, 1), ShaftKey { format: 3, multisampled: false });
    assert_eq!(shaft_key(3, 4), ShaftKey { format: 3, multisampled: true });
    assert_eq!(f(far_plane(None)), 3000.0);
    assert_eq!(f(far_plane(Some(n(777.0)))), 777.0);
}

#[test]
fn a_sun_off_the_frame_is_measured_by_its_farthest_edge() {
    let off = |u: f32, v: f32| f(outside_frame(n(-u), n(u - 1.0), n(-v), n(v - 1.0)));
    assert_eq!(off(0.5, 0.25), 0.0);
    assert_eq!(off(-0.25, 0.5), 0.25);
    assert_eq!(off(1.5, 1.25), 0.5);
    assert_eq!(off(0.5, -3.0), 3.0);
}

fn native(values: &[f32]) -> Vec<u8> {
    values.iter().flat_map(|v| v.to_ne_bytes()).collect()
}

#[test]
fn numbers_are_handed_over_in_the_machines_bytes() {
    assert_eq!(
        bloom_uniform(&bloom_params(1)),
        native(&[1.0, 0.55, 0.0, 0.0])
    );
    assert_eq!(
        bloom_uniform(&bloom_params(2)),
        native(&[2.0, 0.78, 0.0, 0.0])
    );
    let mut blend = GradeBlend::new();
    step(&mut blend, select_pair(&catalog(), Some(12), None), 0.0, false);
    let view = grade_view(&blend, 7, n(0.25)).expect("a view");
    assert_eq!(grade_uniform(&view), native(&[0.5, 0.25, 1.0, 0.0]));
    assert!(uniform_bytes(&Vec::new()).is_empty());
    let row = shaft_row(&shafts(0.5).expect("shafts"));
    assert_eq!(
        uniform_bytes(&row),
        native(&[0.5, 0.5, 0.5, 28.0, 1.0, 1.0, 1.0, 0.0])
    );
    assert_eq!(prepare_uniforms(true), BufferWrite::Rewrite);
    assert_eq!(prepare_uniforms(false), BufferWrite::Create);
}

#[test]
fn a_view_is_graded_once_everything_is_resident() {
    let mut there = GradeResidency {
        pipeline: true,
        day: true,
        night: true,
        prev_day: true,
        prev_night: false,
    };
    assert!(run_grade(&there).is_none());
    there.prev_night = true;
    let bindings = run_grade(&there).expect("a pass");
    assert_eq!(bindings.len(), 8);
    assert_eq!(bindings[0], GradeBinding::Scene);
    assert_eq!(bindings[4], GradeBinding::CubeSampler);
    assert_eq!(bindings[7], GradeBinding::PrevNight);
}
