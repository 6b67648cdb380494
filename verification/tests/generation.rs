use webbrot::options::{colormap_from_index, COLORMAP_COUNT};
use webbrot::pipeline::{encode_image, gen_image};
use webbrot::raster::{palette_index, render_raster, Viewport};
use webbrot::{mandelbrot, Colormap, Complex, Double, GenerationError, MandelbrotConfig, Options};

fn d(v: f64) -> Double {
    Double { bits: v.to_bits() }
}

fn c(re: f64, im: f64) -> Complex {
    Complex { re: d(re), im: d(im) }
}

fn scenario_options() -> Options {
    let mut o = Options::default();
    o.dimensions = (4, 4);
    o.image_center = Some(c(-0.5, 0.0));
    o.view_size = Some((d(1.0), d(1.0)));
    o.step_limits = (150, 1024);
    o.rng_seed = Some(42);
    o.colormap = Some(Colormap::Acton);
    o
}

#[test]
fn invalid_bounds_fail_fast() {
    let mut o = scenario_options();
    o.step_limits = (500, 500);
    assert_eq!(gen_image(&o), Err(GenerationError::InvalidIterationBounds));
    assert_eq!(encode_image(&o), Err(GenerationError::InvalidIterationBounds));
}

#[test]
fn invalid_dimensions_fail_fast() {
    let mut o = scenario_options();
    o.dimensions = (4, 1);
    assert_eq!(gen_image(&o), Err(GenerationError::InvalidDimensions));
}

#[test]
fn scenario_grid_is_deterministic() {
    let first = gen_image(&scenario_options()).unwrap();
    let second = gen_image(&scenario_options()).unwrap();
    assert_eq!(first, second);

    let img_a = image::load_from_memory(&first).unwrap().to_rgba8();
    let img_b = image::load_from_memory(&second).unwrap().to_rgba8();
    assert_eq!(img_a.dimensions(), (4, 4));
    assert_eq!(img_a.as_raw(), img_b.as_raw());
}

#[test]
fn seeded_random_run_is_deterministic() {
    let mut o = Options::default();
    o.dimensions = (8, 8);
    o.step_limits = (2, 60);
    o.rng_seed = Some(7);
    let first = gen_image(&o).unwrap();
    let second = gen_image(&o).unwrap();
    assert_eq!(first, second);
}

#[test]
fn byte_stream_decodes_to_configured_size() {
    let mut o = scenario_options();
    o.dimensions = (16, 16);
    let bytes = gen_image(&o).unwrap();
    let img = image::load_from_memory(&bytes).unwrap();
    assert_eq!(img.width(), 16);
    assert_eq!(img.height(), 16);
}

#[test]
fn two_by_two_grid_renders() {
    let mut o = scenario_options();
    o.dimensions = (2, 2);
    let bytes = gen_image(&o).unwrap();
    let img = image::load_from_memory(&bytes).unwrap().to_rgba8();
    assert_eq!(img.dimensions(), (2, 2));
}

#[test]
fn transport_encoding_is_base64_of_the_stream() {
    let o = scenario_options();
    let bytes = gen_image(&o).unwrap();
    let text = encode_image(&o).unwrap();
    let engine = base64::engine::GeneralPurpose::new(
        &base64::alphabet::STANDARD,
        base64::engine::GeneralPurposeConfig::new(),
    );
    let decoded = base64::Engine::decode(&engine, &text).unwrap();
    assert_eq!(decoded, bytes);
}

#[test]
fn rendered_buffer_matches_pixel_evaluation() {
    let cfg = MandelbrotConfig::default();
    let palette = Colormap::Batlow.to_colormap();
    let vp = Viewport { xmin: d(-1.5), xmax: d(0.5), ymin: d(-1.0), ymax: d(1.0) };
    let (w, h) = (4u32, 4u32);
    let buf = render_raster(w, h, &vp, &palette, &cfg, 3);
    assert_eq!(buf.width, w);
    assert_eq!(buf.height, h);
    assert_eq!(buf.data.len(), (4 * w * h) as usize);

    // every pixel was written: the alpha byte starts at zero and only an
    // insertion sets it to 255
    for p in 0..(w * h) as usize {
        assert_eq!(buf.data[4 * p + 3], 255);
    }

    // spot-check one pixel against a by-hand evaluation of the same maths
    let (x, y) = (2u32, 1u32);
    let ux = x as f64 / (w as f64 - 1.0);
    let uy = y as f64 / (h as f64 - 1.0);
    let px = -1.5 * (1.0 - ux) + 0.5 * ux;
    let py = -1.0 * (1.0 - uy) + 1.0 * uy;
    let steps = mandelbrot(c(px, py), &cfg);
    let idx = palette_index(steps, palette.len());
    let off = 4 * (y * w + x) as usize;
    assert_eq!(buf.data[off], palette[idx]);
    assert_eq!(buf.data[off + 1], palette[idx + 1]);
    assert_eq!(buf.data[off + 2], palette[idx + 2]);
}

#[test]
fn random_palette_choice_matches_a_seeded_draw() {
    let mut o = scenario_options();
    o.rng_seed = Some(11);
    o.colormap = None;
    let auto_bytes = gen_image(&o).unwrap();

    // the palette draw restarts the generator from the resolved seed and
    // ranges over every named gradient but the last
    let mut rng = fastrand::Rng::with_seed(11);
    let choice = rng.usize(0..(COLORMAP_COUNT - 1));
    o.colormap = Some(colormap_from_index(choice));
    let explicit_bytes = gen_image(&o).unwrap();

    assert_eq!(auto_bytes, explicit_bytes);
}

#[test]
fn different_seeds_give_different_images() {
    let mut o = Options::default();
    o.dimensions = (8, 8);
    o.step_limits = (2, 60);
    o.rng_seed = Some(7);
    let first = gen_image(&o).unwrap();
    o.rng_seed = Some(8);
    let second = gen_image(&o).unwrap();
    assert_ne!(first, second);
}

#[test]
fn zero_chunk_hint_is_treated_as_one() {
    let mut o = scenario_options();
    o.chunk_size = 0;
    let bytes = gen_image(&o).unwrap();
    o.chunk_size = 15;
    assert_eq!(bytes, gen_image(&o).unwrap());
}

#[test]
fn random_palette_and_viewport_still_produce_a_valid_image() {
    let mut o = Options::default();
    o.dimensions = (6, 5);
    o.step_limits = (2, 40);
    o.rng_seed = Some(1234);
    let bytes = gen_image(&o).unwrap();
    let img = image::load_from_memory(&bytes).unwrap();
    assert_eq!(img.width(), 6);
    assert_eq!(img.height(), 5);
}
