use vstd::prelude::*;

use crate::options::Colormap;

verus! {

/// Every palette is 256 RGB samples, 768 bytes at stride 3.
pub const PALETTE_LEN: usize = 768;

/// The three RGB anchor colors (start, middle, end) that define a gradient.
pub open spec fn spec_anchors(c: Colormap) -> ((u8, u8, u8), (u8, u8, u8), (u8, u8, u8)) {
    match c {
        Colormap::Acton => ((46, 33, 77), (160, 100, 150), (230, 216, 250)),
        Colormap::Bamako => ((0, 64, 55), (140, 120, 40), (255, 229, 170)),
        Colormap::Batlow => ((1, 25, 89), (90, 140, 60), (250, 204, 250)),
        Colormap::Berlin => ((158, 176, 255), (25, 25, 25), (255, 173, 173)),
        Colormap::Bilbao => ((255, 255, 255), (160, 110, 90), (75, 0, 0)),
        Colormap::Broc => ((44, 26, 95), (240, 240, 240), (38, 77, 38)),
        Colormap::Broco => ((44, 26, 95), (235, 235, 235), (38, 77, 38)),
        Colormap::Buda => ((179, 0, 179), (200, 120, 90), (255, 230, 0)),
        Colormap::Cork => ((44, 26, 95), (240, 240, 240), (66, 119, 66)),
        Colormap::Corko => ((44, 26, 95), (235, 235, 235), (66, 119, 66)),
        Colormap::Davos => ((0, 5, 74), (90, 140, 160), (254, 254, 211)),
        Colormap::Devon => ((44, 26, 95), (120, 120, 200), (255, 255, 255)),
        Colormap::Grayc => ((0, 0, 0), (128, 128, 128), (255, 255, 255)),
        Colormap::Hawaii => ((140, 2, 103), (120, 150, 80), (179, 242, 255)),
        Colormap::Imola => ((26, 51, 179), (80, 150, 120), (255, 255, 102)),
        Colormap::Lajolla => ((255, 255, 204), (200, 100, 60), (26, 26, 0)),
        Colormap::Lapaz => ((26, 12, 100), (120, 140, 150), (254, 242, 217)),
        Colormap::Lisbon => ((230, 229, 255), (25, 25, 25), (255, 255, 217)),
        Colormap::Nuuk => ((5, 89, 89), (150, 150, 120), (255, 255, 204)),
        Colormap::Oleron => ((26, 38, 64), (140, 140, 100), (250, 250, 200)),
        Colormap::Oslo => ((0, 1, 0), (120, 140, 180), (255, 255, 255)),
        Colormap::Roma => ((127, 25, 0), (120, 180, 150), (26, 51, 153)),
        Colormap::Romao => ((127, 25, 0), (110, 170, 140), (26, 51, 153)),
        Colormap::Tofino => ((222, 217, 255), (20, 20, 20), (217, 255, 217)),
        Colormap::Tokyo => ((26, 14, 52), (130, 110, 130), (254, 254, 216)),
        Colormap::Turku => ((0, 0, 0), (140, 120, 100), (255, 204, 204)),
        Colormap::Vik => ((0, 18, 97), (235, 235, 235), (89, 38, 0)),
        Colormap::Viko => ((0, 18, 97), (230, 230, 230), (89, 38, 0)),
    }
}

fn anchors(c: Colormap) -> (r: ((u8, u8, u8), (u8, u8, u8), (u8, u8, u8)))
    ensures
        r == spec_anchors(c),
{
    match c {
        Colormap::Acton => ((46, 33, 77), (160, 100, 150), (230, 216, 250)),
        Colormap::Bamako => ((0, 64, 55), (140, 120, 40), (255, 229, 170)),
        Colormap::Batlow => ((1, 25, 89), (90, 140, 60), (250, 204, 250)),
        Colormap::Berlin => ((158, 176, 255), (25, 25, 25), (255, 173, 173)),
        Colormap::Bilbao => ((255, 255, 255), (160, 110, 90), (75, 0, 0)),
        Colormap::Broc => ((44, 26, 95), (240, 240, 240), (38, 77, 38)),
        Colormap::Broco => ((44, 26, 95), (235, 235, 235), (38, 77, 38)),
        Colormap::Buda => ((179, 0, 179), (200, 120, 90), (255, 230, 0)),
        Colormap::Cork => ((44, 26, 95), (240, 240, 240), (66, 119, 66)),
        Colormap::Corko => ((44, 26, 95), (235, 235, 235), (66, 119, 66)),
        Colormap::Davos => ((0, 5, 74), (90, 140, 160), (254, 254, 211)),
        Colormap::Devon => ((44, 26, 95), (120, 120, 200), (255, 255, 255)),
        Colormap::Grayc => ((0, 0, 0), (128, 128, 128), (255, 255, 255)),
        Colormap::Hawaii => ((140, 2, 103), (120, 150, 80), (179, 242, 255)),
        Colormap::Imola => ((26, 51, 179), (80, 150, 120), (255, 255, 102)),
        Colormap::Lajolla => ((255, 255, 204), (200, 100, 60), (26, 26, 0)),
        Colormap::Lapaz => ((26, 12, 100), (120, 140, 150), (254, 242, 217)),
        Colormap::Lisbon => ((230, 229, 255), (25, 25, 25), (255, 255, 217)),
        Colormap::Nuuk => ((5, 89, 89), (150, 150, 120), (255, 255, 204)),
        Colormap::Oleron => ((26, 38, 64), (140, 140, 100), (250, 250, 200)),
        Colormap::Oslo => ((0, 1, 0), (120, 140, 180), (255, 255, 255)),
        Colormap::Roma => ((127, 25, 0), (120, 180, 150), (26, 51, 153)),
        Colormap::Romao => ((127, 25, 0), (110, 170, 140), (26, 51, 153)),
        Colormap::Tofino => ((222, 217, 255), (20, 20, 20), (217, 255, 217)),
        Colormap::Tokyo => ((26, 14, 52), (130, 110, 130), (254, 254, 216)),
        Colormap::Turku => ((0, 0, 0), (140, 120, 100), (255, 204, 204)),
        Colormap::Vik => ((0, 18, 97), (235, 235, 235), (89, 38, 0)),
        Colormap::Viko => ((0, 18, 97), (230, 230, 230), (89, 38, 0)),
    }
}

/// Linear mix of two channel values with weight `t/255`.
pub open spec fn spec_channel_mix(a: u8, b: u8, t: int) -> int {
    ((a as int) * (255 - t) + (b as int) * t) / 255
}

fn channel_mix(a: u8, b: u8, t: u32) -> (r: u8)
    requires
        t <= 255,
    ensures
        r as int == spec_channel_mix(a, b, t as int),
{
    proof {
        assert((a as int) * (255 - t as int) + (b as int) * (t as int) <= 255 * 255)
            by (nonlinear_arith)
            requires
                a as int <= 255,
                b as int <= 255,
                0 <= t as int <= 255,
        ;
    }
    let v: u32 = ((a as u32) * (255 - t) + (b as u32) * t) / 255;
    v as u8
}

/// The RGB sample of a gradient at entry `e` of 256: the first half blends
/// from the start anchor to the middle one, the second half from the middle
/// to the end.
pub open spec fn spec_colormap_entry(c: Colormap, e: int) -> (u8, u8, u8) {
    let a = spec_anchors(c);
    if e < 128 {
        (
            spec_channel_mix(a.0.0, a.1.0, 2 * e) as u8,
            spec_channel_mix(a.0.1, a.1.1, 2 * e) as u8,
            spec_channel_mix(a.0.2, a.1.2, 2 * e) as u8,
        )
    } else {
        (
            spec_channel_mix(a.1.0, a.2.0, 2 * (e - 128)) as u8,
            spec_channel_mix(a.1.1, a.2.1, 2 * (e - 128)) as u8,
            spec_channel_mix(a.1.2, a.2.2, 2 * (e - 128)) as u8,
        )
    }
}

/// One byte of a gradient's flat stride-3 table.
pub open spec fn spec_colormap_byte(c: Colormap, i: int) -> u8 {
    let e = spec_colormap_entry(c, i / 3);
    if i % 3 == 0 {
        e.0
    } else if i % 3 == 1 {
        e.1
    } else {
        e.2
    }
}

/// A gradient's full table: 256 RGB samples as 768 flat bytes.
pub open spec fn spec_colormap(c: Colormap) -> Seq<u8> {
    Seq::new(PALETTE_LEN as nat, |i: int| spec_colormap_byte(c, i))
}

impl Colormap {
    /// The gradient's lookup table: 256 RGB samples, flat at stride 3.
    #[verifier::loop_isolation(false)]
    pub fn to_colormap(self) -> (r: Vec<u8>)
        ensures
            r@ == spec_colormap(self),
            r@.len() == PALETTE_LEN,
    {
        let (a0, a1, a2) = anchors(self);
        let mut data: Vec<u8> = Vec::new();
        let mut e: usize = 0;
        while e < 256
            invariant
                e <= 256,
                data@.len() == 3 * e,
                forall|i: int| 0 <= i < data@.len() ==> data@[i] == spec_colormap_byte(self, i),
            decreases 256 - e,
        {
            let t: u32 = if e < 128 {
                2 * (e as u32)
            } else {
                2 * ((e as u32) - 128)
            };
            let (red, green, blue) = if e < 128 {
                (
                    channel_mix(a0.0, a1.0, t),
                    channel_mix(a0.1, a1.1, t),
                    channel_mix(a0.2, a1.2, t),
                )
            } else {
                (
                    channel_mix(a1.0, a2.0, t),
                    channel_mix(a1.1, a2.1, t),
                    channel_mix(a1.2, a2.2, t),
                )
            };
            proof {
                assert((red, green, blue) == spec_colormap_entry(self, e as int));
                assert((3 * e as int) / 3 == e as int);
                assert((3 * e as int + 1) / 3 == e as int);
                assert((3 * e as int + 2) / 3 == e as int);
            }
            data.push(red);
            data.push(green);
            data.push(blue);
            e = e + 1;
        }
        proof {
            assert(data@ =~= spec_colormap(self));
        }
        data
    }
}

} // verus!
