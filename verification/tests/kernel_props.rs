use webbrot::colormaps::PALETTE_LEN;
use webbrot::options::{colormap_from_index, validate, COLORMAP_COUNT};
use webbrot::raster::{eval_chunk, palette_index, pixel_coords, Viewport};
use webbrot::{choose_center, lerp, mandelbrot, rand_range};
use webbrot::{Colormap, Complex, Double, GenerationError, MandelbrotConfig, Options};

fn d(v: f64) -> Double {
    Double { bits: v.to_bits() }
}

fn c(re: f64, im: f64) -> Complex {
    Complex { re: d(re), im: d(im) }
}

fn small_cfg() -> MandelbrotConfig {
    MandelbrotConfig { min_steps: 2, max_steps: 60, bailout_num: d(1.0e15) }
}

#[test]
fn cardioid_point_never_escapes() {
    let cfg = MandelbrotConfig::default();
    assert_eq!(mandelbrot(c(0.0, 0.0), &cfg), 0);
    let short = MandelbrotConfig { min_steps: 1, max_steps: 10, bailout_num: d(1.0e15) };
    assert_eq!(mandelbrot(c(0.0, 0.0), &short), 0);
}

#[test]
fn kernel_is_pure() {
    let cfg = MandelbrotConfig::default();
    let p = c(-0.7435, 0.1314);
    let first = mandelbrot(p, &cfg);
    let second = mandelbrot(p, &cfg);
    assert_eq!(first, second);
}

#[test]
fn kernel_escapes_immediately_far_outside() {
    let cfg = MandelbrotConfig { min_steps: 1, max_steps: 10, bailout_num: d(100.0) };
    // c0 = 2: after one step c = 6, dc = 13, |dc_sum|^2 = 169 >= 100.
    assert_eq!(mandelbrot(c(2.0, 0.0), &cfg), 1);
}

#[test]
fn kernel_steps_stay_below_budget() {
    let cfg = small_cfg();
    for &(x, y) in &[(0.0, 0.0), (2.0, 0.0), (-1.5, 0.5), (0.3, 0.6), (-0.75, 0.1)] {
        let steps = mandelbrot(c(x, y), &cfg);
        assert!(steps < cfg.max_steps);
    }
}

#[test]
fn lerp_matches_hardware_arithmetic() {
    let r = lerp(d(2.0), d(6.0), d(0.5));
    assert_eq!(r.bits, 4.0f64.to_bits());
    let lo = lerp(d(-1.5), d(1.0), d(0.0));
    assert_eq!(lo.bits, (-1.5f64).to_bits());
    let hi = lerp(d(-1.5), d(1.0), d(1.0));
    assert_eq!(hi.bits, 1.0f64.to_bits());
}

#[test]
fn default_config_resolves_threshold() {
    let cfg = MandelbrotConfig::default();
    assert_eq!(cfg.min_steps, 150);
    assert_eq!(cfg.max_steps, 1024);
    assert_eq!(cfg.bailout_num.bits, 1.0e15f64.to_bits());
}

#[test]
fn default_options_match_documented_values() {
    let o = Options::default();
    assert_eq!(o.dimensions, (960, 540));
    assert!(o.image_center.is_none());
    assert!(o.view_size.is_none());
    assert_eq!(o.step_limits, (150, 1024));
    assert!(o.colormap.is_none());
    assert!(o.rng_seed.is_none());
    assert_eq!(o.bailout_num.bits, 15.0f64.to_bits());
    assert_eq!(o.chunk_size, 15);
}

#[test]
fn validate_accepts_defaults() {
    assert!(validate(&Options::default()).is_ok());
}

#[test]
fn equal_iteration_bounds_are_rejected() {
    let mut o = Options::default();
    o.step_limits = (500, 500);
    assert_eq!(validate(&o), Err(GenerationError::InvalidIterationBounds));
}

#[test]
fn tiny_dimensions_are_rejected() {
    let mut o = Options::default();
    o.dimensions = (1, 540);
    assert_eq!(validate(&o), Err(GenerationError::InvalidDimensions));
    o.dimensions = (960, 0);
    assert_eq!(validate(&o), Err(GenerationError::InvalidDimensions));
}

#[test]
fn palette_index_is_clamped_into_range() {
    assert_eq!(palette_index(0, PALETTE_LEN), 0);
    assert_eq!(palette_index(1, PALETTE_LEN), 3);
    assert_eq!(palette_index(255, PALETTE_LEN), 765);
    assert_eq!(palette_index(256, PALETTE_LEN), 765);
    assert_eq!(palette_index(1023, PALETTE_LEN), 765);
    assert_eq!(palette_index(u32::MAX, PALETTE_LEN), 765);
}

#[test]
fn every_colormap_has_a_full_table() {
    for i in 0..COLORMAP_COUNT {
        let table = colormap_from_index(i).to_colormap();
        assert_eq!(table.len(), PALETTE_LEN);
    }
}

#[test]
fn colormaps_are_distinct_gradients() {
    assert_ne!(Colormap::Acton.to_colormap(), Colormap::Grayc.to_colormap());
    assert_ne!(Colormap::Vik.to_colormap(), Colormap::Viko.to_colormap());
}

#[test]
fn grayscale_colormap_endpoints() {
    let g = Colormap::Grayc.to_colormap();
    assert_eq!(&g[0..3], &[0, 0, 0]);
    // last entry: mix(128, 255, 254/255) == (128 * 1 + 255 * 254) / 255 == 254
    assert_eq!(&g[765..768], &[254, 254, 254]);
}

#[test]
fn colormap_enumeration_order() {
    assert_eq!(colormap_from_index(0), Colormap::Acton);
    assert_eq!(colormap_from_index(26), Colormap::Vik);
    assert_eq!(colormap_from_index(27), Colormap::Viko);
    assert_eq!(COLORMAP_COUNT, 28);
}

#[test]
fn pixel_grid_is_complete_and_distinct() {
    let coords = pixel_coords(3, 2);
    assert_eq!(coords, vec![(0, 0), (1, 0), (2, 0), (0, 1), (1, 1), (2, 1)]);
    for i in 0..coords.len() {
        for j in 0..i {
            assert_ne!(coords[i], coords[j]);
        }
    }
}

#[test]
fn chunk_worker_keeps_coordinates() {
    let cfg = small_cfg();
    let vp = Viewport { xmin: d(-2.0), xmax: d(1.0), ymin: d(-1.0), ymax: d(1.0) };
    let palette = Colormap::Acton.to_colormap();
    let coords = pixel_coords(2, 2);
    let results = eval_chunk(&coords, 0, 4, 2, 2, &vp, &palette, &cfg);
    assert_eq!(results.len(), 4);
    for (i, r) in results.iter().enumerate() {
        assert_eq!((r.x, r.y), coords[i]);
    }
}

#[test]
fn rand_range_is_reproducible() {
    let a = rand_range(99, d(-2.5), d(-1.0));
    let b = rand_range(99, d(-2.5), d(-1.0));
    assert_eq!(a.0, b.0);
    assert_eq!(a.1.bits, b.1.bits);
    let v = f64::from_bits(a.1.bits);
    assert!((-2.5..=-1.0).contains(&v));
}

#[test]
fn chosen_center_lies_in_the_band() {
    let cfg = small_cfg();
    let (_state, point, steps) = choose_center(123, &cfg);
    assert!(steps >= cfg.min_steps && steps < cfg.max_steps);
    assert_eq!(steps, mandelbrot(point, &cfg));
    let x = f64::from_bits(point.re.bits);
    let y = f64::from_bits(point.im.bits);
    assert!((-1.5..=1.0).contains(&x));
    assert!((0.0..=1.0).contains(&y));
}
