use vstd::arithmetic::div_mod::{
    lemma_fundamental_div_mod, lemma_mod_bound,
};
use vstd::prelude::*;

use crate::colormaps::spec_colormap;
use crate::complex::Complex;
use crate::fp::{
    add_bits, div_bits, fadd, fdiv, fmul, fpow, fsub, mul_bits, pow_bits, sub_bits, u32_bits,
    Double, F_NEG_FIVE_HALVES, F_NEG_ONE, F_TEN, F_TWO,
};
use crate::fp::double_of_u32;
use crate::kernel::{mandelbrot, spec_escape_steps, MandelbrotConfig};
use crate::options::{
    colormap_from_index, config_valid, spec_colormap_at, spec_config_error, validate,
    GenerationError, Options, COLORMAP_COUNT,
};
use crate::raster::{render_raster, spec_pixel_rgba, ColorBuffer, Viewport};
use crate::rng::{process_seed, rand_index, rand_range, spec_rand_range, usize_draw};
use crate::sampler::{
    accepted_within, cand_accepted, cand_point, center_witness, choose_center,
    MAX_CENTER_ATTEMPTS,
};

verus! {

/// The PNG byte stream `image` produces for an RGBA buffer of the given
/// dimensions; for a fixed build it depends on the dimensions and bytes
/// alone.
pub uninterp spec fn png_bytes(width: u32, height: u32, data: Seq<u8>) -> Seq<u8>;

/// The text the base64 standard-alphabet engine produces for a byte stream.
pub uninterp spec fn base64_of(data: Seq<u8>) -> Seq<char>;

/// Relies on `image::RgbaImage::from_raw` (which accepts exactly a buffer of
/// `4 * width * height` bytes) and `ImageBuffer::write_to` with
/// `ImageFormat::Png`: the encoded stream depends on the dimensions and the
/// pixel bytes alone. Any encoding failure is reported as `None`.
#[verifier::external_body]
fn png_encode(width: u32, height: u32, data: Vec<u8>) -> (r: Option<Vec<u8>>)
    requires
        data@.len() == 4 * (width as int) * (height as int),
    ensures
        r is Some ==> r->0@ == png_bytes(width, height, data@),
{
    let img = match image::RgbaImage::from_raw(width, height, data) {
        Some(i) => i,
        None => {
            return None;
        },
    };
    let mut out: Vec<u8> = Vec::new();
    match img.write_to(&mut std::io::Cursor::new(&mut out), image::ImageFormat::Png) {
        Ok(()) => Some(out),
        Err(_) => None,
    }
}

/// Relies on base64's `Engine::encode` with the `GeneralPurpose` engine, the
/// standard alphabet and the default (padding) config: the text depends on
/// the input bytes alone. `encode` panics when the output length overflows
/// `usize`, so the input is bounded well below that.
#[verifier::external_body]
fn base64_encode(data: &Vec<u8>) -> (r: String)
    requires
        data@.len() <= usize::MAX as int / 4,
    ensures
        r@ == base64_of(data@),
{
    let engine = base64::engine::GeneralPurpose::new(
        &base64::alphabet::STANDARD,
        base64::engine::GeneralPurposeConfig::new(),
    );
    base64::Engine::encode(&engine, data)
}

/// Bit pattern of the escape threshold: ten raised to the configured
/// exponent.
pub open spec fn spec_threshold(o: Options) -> u64 {
    pow_bits(F_TEN, o.bailout_num.bits)
}

/// The numeric configuration a request resolves to.
pub open spec fn spec_numeric_config(o: Options) -> MandelbrotConfig {
    MandelbrotConfig {
        min_steps: o.step_limits.0,
        max_steps: o.step_limits.1,
        bailout_num: Double { bits: spec_threshold(o) },
    }
}

/// The palette a request resolves to: the caller's choice, or a uniform draw
/// over the named gradients. The draw range excludes the last gradient, as
/// it always has; the exclusion is kept deliberately so that seeded runs
/// stay reproducible across versions.
pub open spec fn spec_palette(o: Options, seed: u64) -> Seq<u8> {
    match o.colormap {
        Some(c) => spec_colormap(c),
        None => spec_colormap(
            spec_colormap_at(usize_draw(seed, (COLORMAP_COUNT - 1) as usize) as int),
        ),
    }
}

/// Which candidate index certifies the center phase: 0 when the center is
/// explicit; otherwise the first accepted rejection-sampling candidate, or
/// the attempt ceiling when none was accepted.
pub open spec fn center_k_valid(o: Options, seed: u64, k: nat) -> bool {
    let cfg = spec_numeric_config(o);
    match o.image_center {
        Some(_) => k == 0,
        None => {
            if accepted_within(seed, cfg, MAX_CENTER_ATTEMPTS as nat) {
                &&& 1 <= k
                &&& cand_accepted(seed, k, cfg)
                &&& forall|j: nat| 1 <= j < k ==> !cand_accepted(seed, j, cfg)
            } else {
                k == MAX_CENTER_ATTEMPTS as nat
            }
        },
    }
}

/// The resolved center point for candidate index `k`.
pub open spec fn spec_center_point(o: Options, seed: u64, k: nat) -> Complex {
    match o.image_center {
        Some(p) => p,
        None => cand_point(seed, k),
    }
}

/// The escape-step count of the resolved center, which seeds the default
/// zoom level.
pub open spec fn spec_center_steps(o: Options, seed: u64, k: nat) -> u32 {
    spec_escape_steps(spec_center_point(o, seed, k), spec_numeric_config(o))
}

/// The resolved half-extents `(dx, dy)`: half the explicit view size, or
/// `steps^u` with `u` drawn from `[-2.5, -1.0]`, with `dy` scaled by the
/// pixel aspect ratio.
pub open spec fn spec_extent(o: Options, seed: u64, steps: u32) -> (u64, u64) {
    match o.view_size {
        Some(s) => (div_bits(s.0.bits, F_TWO), div_bits(s.1.bits, F_TWO)),
        None => {
            let dx = pow_bits(u32_bits(steps), spec_rand_range(seed, F_NEG_FIVE_HALVES, F_NEG_ONE));
            (dx, div_bits(mul_bits(dx, u32_bits(o.dimensions.1)), u32_bits(o.dimensions.0)))
        },
    }
}

/// The viewport centered at `center` with half-extents `(dx, dy)`.
pub open spec fn spec_viewport(center: Complex, dx: u64, dy: u64) -> Viewport {
    Viewport {
        xmin: Double { bits: sub_bits(center.re.bits, dx) },
        xmax: Double { bits: add_bits(center.re.bits, dx) },
        ymin: Double { bits: sub_bits(center.im.bits, dy) },
        ymax: Double { bits: add_bits(center.im.bits, dy) },
    }
}

/// One RGBA component by position.
pub open spec fn rgba_component(t: (u8, u8, u8, u8), c: int) -> u8 {
    if c == 0 {
        t.0
    } else if c == 1 {
        t.1
    } else if c == 2 {
        t.2
    } else {
        t.3
    }
}

/// The finished frame as flat RGBA bytes, row-major from the top row.
pub open spec fn spec_raster_bytes(
    w: u32,
    h: u32,
    vp: Viewport,
    palette: Seq<u8>,
    cfg: MandelbrotConfig,
) -> Seq<u8> {
    Seq::new(
        (4 * (w as int) * (h as int)) as nat,
        |i: int|
            rgba_component(
                spec_pixel_rgba(
                    ((i / 4) % (w as int)) as u32,
                    ((i / 4) / (w as int)) as u32,
                    w,
                    h,
                    vp,
                    palette,
                    cfg,
                ),
                i % 4,
            ),
    )
}

/// The viewport of a run, resolved from the request, the seed and the center
/// candidate index.
pub open spec fn spec_run_viewport(o: Options, seed: u64, k: nat) -> Viewport {
    let center = spec_center_point(o, seed, k);
    let ext = spec_extent(o, seed, spec_center_steps(o, seed, k));
    spec_viewport(center, ext.0, ext.1)
}

/// The PNG byte stream of a run, resolved from the request, the seed and the
/// center candidate index.
pub open spec fn spec_run_bytes(o: Options, seed: u64, k: nat) -> Seq<u8> {
    png_bytes(
        o.dimensions.0,
        o.dimensions.1,
        spec_raster_bytes(
            o.dimensions.0,
            o.dimensions.1,
            spec_run_viewport(o, seed, k),
            spec_palette(o, seed),
            spec_numeric_config(o),
        ),
    )
}

///`k` certifies that `bytes` is the image of the run for this request and
/// seed.
pub open spec fn run_witness(o: Options, seed: u64, k: nat, bytes: Seq<u8>) -> bool {
    center_k_valid(o, seed, k) && bytes == spec_run_bytes(o, seed, k)
}

/// What a successful run produces for a request and a resolved seed. There
/// is only one such byte stream (see `lemma_generation_deterministic`).
pub open spec fn seeded_bytes_ok(o: Options, seed: u64, bytes: Seq<u8>) -> bool {
    exists|k: nat| run_witness(o, seed, k, bytes)
}

/// What `gen_image` may return for a valid request and a resolved seed:
/// the run's byte stream, or an encoding failure.
pub open spec fn seeded_outcome(o: Options, seed: u64, r: Result<Vec<u8>, GenerationError>) -> bool {
    match r {
        Ok(bytes) => seeded_bytes_ok(o, seed, bytes@),
        Err(e) => e == GenerationError::EncodingFailed,
    }
}

/// The full contract of `gen_image`: invalid requests fail with their
/// configuration error before any work; valid ones resolve a seed (the
/// explicit one, or some adopted process seed) and produce that seed's run.
pub open spec fn gen_outcome(o: Options, r: Result<Vec<u8>, GenerationError>) -> bool {
    if !config_valid(o) {
        r is Err && r->Err_0 == spec_config_error(o)
    } else {
        match o.rng_seed {
            Some(s) => seeded_outcome(o, s, r),
            None => exists|s: u64| seeded_outcome(o, s, r),
        }
    }
}

/// Determinism: for one request and one resolved seed there is exactly one
/// image byte stream, so two successful runs agree byte for byte.
pub proof fn lemma_generation_deterministic(o: Options, seed: u64, b1: Seq<u8>, b2: Seq<u8>)
    requires
        seeded_bytes_ok(o, seed, b1),
        seeded_bytes_ok(o, seed, b2),
    ensures
        b1 == b2,
{
    let k1 = choose|k: nat| run_witness(o, seed, k, b1);
    let k2 = choose|k: nat| run_witness(o, seed, k, b2);
    let cfg = spec_numeric_config(o);
    match o.image_center {
        Some(_) => {},
        None => {
            if accepted_within(seed, cfg, MAX_CENTER_ATTEMPTS as nat) {
                if k1 < k2 {
                    assert(!cand_accepted(seed, k1, cfg));
                }
                if k2 < k1 {
                    assert(!cand_accepted(seed, k2, cfg));
                }
            }
        },
    }
    assert(k1 == k2);
}

/// A finished color buffer holds exactly the run's flat RGBA bytes.
proof fn lemma_buffer_bytes(
    buf: ColorBuffer,
    w: u32,
    h: u32,
    vp: Viewport,
    palette: Seq<u8>,
    cfg: MandelbrotConfig,
)
    requires
        buf.wf(),
        buf.width == w,
        buf.height == h,
        w >= 1,
        forall|x: int, y: int|
            0 <= x < w && 0 <= y < h ==> buf.rgba_at(x, y) == spec_pixel_rgba(
                x as u32,
                y as u32,
                w,
                h,
                vp,
                palette,
                cfg,
            ),
    ensures
        buf.data@ == spec_raster_bytes(w, h, vp, palette, cfg),
{
    let target = spec_raster_bytes(w, h, vp, palette, cfg);
    assert forall|i: int| 0 <= i < buf.data@.len() implies buf.data@[i] == target[i] by {
        let pix = i / 4;
        let c = i % 4;
        let x = pix % (w as int);
        let y = pix / (w as int);
        lemma_fundamental_div_mod(i, 4);
        lemma_mod_bound(i, 4);
        lemma_fundamental_div_mod(pix, w as int);
        lemma_mod_bound(pix, w as int);
        assert(0 <= pix && 4 * pix + c == i) by (nonlinear_arith)
            requires
                i == 4 * (i / 4) + i % 4,
                pix == i / 4,
                c == i % 4,
                0 <= i,
                0 <= c < 4,
        ;
        assert(pix < (w as int) * (h as int) && y < h) by (nonlinear_arith)
            requires
                4 * pix + c == i,
                0 <= c < 4,
                (i as int) < 4 * (w as int) * (h as int),
                pix == (w as int) * y + x,
                0 <= x < (w as int),
                0 <= y,
                w as int >= 1,
        ;
        assert(y * (w as int) == (w as int) * y) by (nonlinear_arith);
        assert(crate::raster::flat_index(x, y, w as int) == pix);
        assert(buf.rgba_at(x, y) == spec_pixel_rgba(x as u32, y as u32, w, h, vp, palette, cfg));
    }
    assert(buf.data@ =~= target);
}

/// Runs the whole pipeline: validates the request, resolves the seed, the
/// palette, the center (explicitly or by rejection sampling), the extents
/// and the viewport — each random phase restarted from the same resolved
/// seed — renders every pixel in chunks, and encodes the buffer as a PNG
/// byte stream. A zero chunk-size hint is treated as one.
#[verifier::loop_isolation(false)]
pub fn gen_image(options: &Options) -> (r: Result<Vec<u8>, GenerationError>)
    requires
        4 * (options.dimensions.0 as int) * (options.dimensions.1 as int) <= usize::MAX as int,
    ensures
        gen_outcome(*options, r),
{
    if let Err(e) = validate(options) {
        return Err(e);
    }

    let cfg = MandelbrotConfig {
        min_steps: options.step_limits.0,
        max_steps: options.step_limits.1,
        bailout_num: fpow(Double { bits: F_TEN }, options.bailout_num),
    };
    proof {
        assert(cfg == spec_numeric_config(*options));
    }

    let seed: u64 = match options.rng_seed {
        Some(s) => s,
        None => process_seed(),
    };

    let width = options.dimensions.0;
    let height = options.dimensions.1;

    let palette: Vec<u8> = match options.colormap {
        Some(c) => c.to_colormap(),
        None => {
            let choice = rand_index(seed, COLORMAP_COUNT - 1);
            colormap_from_index(choice).to_colormap()
        },
    };
    proof {
        assert(palette@ == spec_palette(*options, seed));
    }

    let center: Complex;
    let steps: u32;
    let ghost k: nat;
    match options.image_center {
        Some(p) => {
            center = p;
            steps = mandelbrot(p, &cfg);
            proof {
                k = 0;
            }
        },
        None => {
            let picked = choose_center(seed, &cfg);
            center = picked.1;
            steps = picked.2;
            proof {
                if accepted_within(seed, cfg, MAX_CENTER_ATTEMPTS as nat) {
                    k = choose|kk: nat|
                        center_witness(seed, cfg, kk, picked.0, picked.1, picked.2);
                } else {
                    k = MAX_CENTER_ATTEMPTS as nat;
                }
                assert(center_k_valid(*options, seed, k));
                assert(center == spec_center_point(*options, seed, k));
                assert(steps == spec_center_steps(*options, seed, k));
            }
        },
    }

    let two = Double { bits: F_TWO };
    let (dx, dy): (Double, Double) = match options.view_size {
        Some(s) => (fdiv(s.0, two), fdiv(s.1, two)),
        None => {
            let (_state, u) = rand_range(
                seed,
                Double { bits: F_NEG_FIVE_HALVES },
                Double { bits: F_NEG_ONE },
            );
            let dx = fpow(double_of_u32(steps), u);
            (dx, fdiv(fmul(dx, double_of_u32(height)), double_of_u32(width)))
        },
    };
    proof {
        assert((dx.bits, dy.bits) == spec_extent(*options, seed, steps));
    }

    let vp = Viewport {
        xmin: fsub(center.re, dx),
        xmax: fadd(center.re, dx),
        ymin: fsub(center.im, dy),
        ymax: fadd(center.im, dy),
    };
    proof {
        assert(vp == spec_run_viewport(*options, seed, k));
    }

    let chunk_size: usize = if options.chunk_size == 0 {
        1
    } else {
        options.chunk_size
    };

    let buf = render_raster(width, height, &vp, &palette, &cfg, chunk_size);
    proof {
        lemma_buffer_bytes(buf, width, height, vp, palette@, cfg);
    }

    let encoded = png_encode(width, height, buf.data);
    let result: Result<Vec<u8>, GenerationError> = match encoded {
        Some(bytes) => Ok(bytes),
        None => Err(GenerationError::EncodingFailed),
    };
    proof {
        if result is Ok {
            assert(run_witness(*options, seed, k, result->Ok_0@));
        }
        assert(seeded_outcome(*options, seed, result));
        if options.rng_seed is None {
            assert(exists|s: u64| seeded_outcome(*options, s, result));
        }
    }
    result
}

/// What `encode_image` may return: the base64 text of the run's PNG stream
/// for the resolved seed, or an error as in `gen_outcome`.
pub open spec fn seeded_text_outcome(
    o: Options,
    seed: u64,
    r: Result<String, GenerationError>,
) -> bool {
    match r {
        Ok(s) => exists|b: Seq<u8>| seeded_bytes_ok(o, seed, b) && s@ == base64_of(b),
        Err(e) => e == GenerationError::EncodingFailed,
    }
}

/// The full contract of `encode_image`, mirroring `gen_outcome` through the
/// base64 transport encoding.
pub open spec fn encode_outcome(o: Options, r: Result<String, GenerationError>) -> bool {
    if !config_valid(o) {
        r is Err && r->Err_0 == spec_config_error(o)
    } else {
        match o.rng_seed {
            Some(s) => seeded_text_outcome(o, s, r),
            None => exists|s: u64| seeded_text_outcome(o, s, r),
        }
    }
}

/// Determinism carries through the transport encoding: two successful
/// encoded runs for one request and one resolved seed agree character for
/// character.
pub proof fn lemma_encoded_deterministic(
    o: Options,
    seed: u64,
    r1: Result<String, GenerationError>,
    r2: Result<String, GenerationError>,
)
    requires
        seeded_text_outcome(o, seed, r1),
        seeded_text_outcome(o, seed, r2),
        r1 is Ok,
        r2 is Ok,
    ensures
        r1->Ok_0@ == r2->Ok_0@,
{
    let b1 = choose|b: Seq<u8>| seeded_bytes_ok(o, seed, b) && r1->Ok_0@ == base64_of(b);
    let b2 = choose|b: Seq<u8>| seeded_bytes_ok(o, seed, b) && r2->Ok_0@ == base64_of(b);
    lemma_generation_deterministic(o, seed, b1, b2);
}

/// Generates the image and transport-encodes its PNG byte stream as base64
/// text, ready for embedding. A stream too large for the text encoding is
/// reported as an encoding failure.
pub fn encode_image(options: &Options) -> (r: Result<String, GenerationError>)
    requires
        4 * (options.dimensions.0 as int) * (options.dimensions.1 as int) <= usize::MAX as int,
    ensures
        encode_outcome(*options, r),
{
    let produced = gen_image(options);
    match produced {
        Err(e) => {
            let result: Result<String, GenerationError> = Err(e);
            proof {
                if config_valid(*options) && options.rng_seed is None {
                    let s0 = choose|s: u64| seeded_outcome(*options, s, produced);
                    assert(seeded_text_outcome(*options, s0, result));
                }
            }
            result
        },
        Ok(bytes) => {
            if bytes.len() <= usize::MAX / 4 {
                let text = base64_encode(&bytes);
                let result: Result<String, GenerationError> = Ok(text);
                proof {
                    match options.rng_seed {
                        Some(s) => {
                            assert(seeded_bytes_ok(*options, s, bytes@));
                            assert(seeded_text_outcome(*options, s, result));
                        },
                        None => {
                            let s0 = choose|s: u64| seeded_outcome(*options, s, produced);
                            assert(seeded_bytes_ok(*options, s0, bytes@));
                            assert(seeded_text_outcome(*options, s0, result));
                        },
                    }
                }
                result
            } else {
                let result: Result<String, GenerationError> = Err(
                    GenerationError::EncodingFailed,
                );
                proof {
                    match options.rng_seed {
                        Some(s) => {
                            assert(seeded_text_outcome(*options, s, result));
                        },
                        None => {
                            let s0 = choose|s: u64| seeded_outcome(*options, s, produced);
                            assert(seeded_text_outcome(*options, s0, result));
                        },
                    }
                }
                result
            }
        },
    }
}

} // verus!
