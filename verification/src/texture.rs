//! Mipmap generation: one mip level is produced from the previous one by
//! averaging each 2x2 pixel block per RGBA channel, halving width and
//! height, with exact integer averaging (truncating division by four).

use vstd::prelude::*;
use vstd::arithmetic::div_mod::lemma_fundamental_div_mod;

verus! {

/// One channel of a box-filtered output pixel: the truncated mean of the
/// four source samples of channel `c` of the 2x2 block at `(u, v)`, read
/// with a row stride of `2 * halfw` pixels.
pub open spec fn mip_value(rgba: Seq<u8>, halfw: int, u: int, v: int, c: int) -> u8 {
    let stride = 2 * halfw;
    let s0 = rgba[((v * 2) * stride + u * 2) * 4 + c];
    let s1 = rgba[((v * 2) * stride + u * 2 + 1) * 4 + c];
    let s2 = rgba[((v * 2 + 1) * stride + u * 2) * 4 + c];
    let s3 = rgba[((v * 2 + 1) * stride + u * 2 + 1) * 4 + c];
    (((s0 + s1 + s2 + s3) as int) / 4) as u8
}

/// The channel value of an RGBA color at byte phase `i` (0 to 3).
pub open spec fn rgba_channel(c0: u8, c1: u8, c2: u8, c3: u8, i: int) -> u8 {
    if i == 0 {
        c0
    } else if i == 1 {
        c1
    } else if i == 2 {
        c2
    } else {
        c3
    }
}

/// A pixel buffer holds one uniform RGBA color: every byte is the channel
/// value of its phase.
pub open spec fn uniform_rgba(s: Seq<u8>, c0: u8, c1: u8, c2: u8, c3: u8) -> bool {
    forall|i: int| 0 <= i < s.len() ==> s[i] == rgba_channel(c0, c1, c2, c3, i % 4)
}

/// Output bytes are laid out row-major: earlier pixels sit at strictly
/// smaller byte positions.
proof fn lemma_mip_index_lt(halfw: int, v2: int, u2: int, c2: int, v: int, u: int, c: int)
    requires
        0 <= u2 < halfw,
        0 <= c2 < 4,
        0 <= v2,
        0 <= u,
        0 <= c,
        v2 < v || (v2 == v && u2 < u) || (v2 == v && u2 == u && c2 < c),
    ensures
        0 <= (v2 * halfw + u2) * 4 + c2 < v * (halfw * 4) + u * 4 + c,
{
    assert(0 <= (v2 * halfw + u2) * 4 + c2 < v * (halfw * 4) + u * 4 + c) by (nonlinear_arith)
        requires
            0 <= u2 < halfw,
            0 <= c2 < 4,
            0 <= v2,
            0 <= u,
            0 <= c,
            v2 < v || (v2 == v && u2 < u) || (v2 == v && u2 == u && c2 < c),
    ;
}

/// Box-filter one mip level: halve width and height and average each 2x2
/// block of the source per channel. The source is read with a row stride of
/// `2 * (width / 2)` pixels, exactly as the output grid tiles it.
pub fn compute_mip_level(width: u32, height: u32, rgba: Vec<u8>) -> (r: (u32, u32, Vec<u8>))
    requires
        rgba@.len() == width * height * 4,
        width * height * 4 <= u32::MAX,
    ensures
        r.0 == width as int / 2,
        r.1 == height as int / 2,
        r.2@.len() == (width as int / 2) * (height as int / 2) * 4,
        forall|v: int, u: int, c: int|
            0 <= v < height as int / 2 && 0 <= u < width as int / 2 && 0 <= c < 4
                ==> r.2@[(v * (width as int / 2) + u) * 4 + c] == #[trigger] mip_value(
                rgba@,
                width as int / 2,
                u,
                v,
                c,
            ),
{
    let halfw = width / 2;
    let halfh = height / 2;
    let stride = halfw * 2;
    proof {
        assert(16 * (halfw as int) * (halfh as int) <= width * height * 4) by (nonlinear_arith)
            requires
                0 <= halfw && 0 <= halfh,
                halfw == width as int / 2,
                halfh == height as int / 2,
                2 * (width as int / 2) <= width,
                2 * (height as int / 2) <= height,
        ;
    }
    let mut new_rgba: Vec<u8> = Vec::new();
    let mut v: u32 = 0;
    while v < halfh
        invariant
            halfw == width as int / 2,
            halfh == height as int / 2,
            stride == 2 * halfw,
            rgba@.len() == width * height * 4,
            width * height * 4 <= u32::MAX,
            16 * (halfw as int) * (halfh as int) <= width * height * 4,
            v <= halfh,
            new_rgba@.len() == v * (halfw * 4),
            forall|v2: int, u2: int, c2: int|
                0 <= v2 < v && 0 <= u2 < halfw && 0 <= c2 < 4 ==> new_rgba@[(v2 * halfw + u2) * 4
                    + c2] == mip_value(rgba@, halfw as int, u2, v2, c2),
        decreases halfh as int - v as int,
    {
        let mut u: u32 = 0;
        while u < halfw
            invariant
                halfw == width as int / 2,
                halfh == height as int / 2,
                stride == 2 * halfw,
                rgba@.len() == width * height * 4,
                width * height * 4 <= u32::MAX,
                16 * (halfw as int) * (halfh as int) <= width * height * 4,
                v < halfh,
                u <= halfw,
                new_rgba@.len() == v * (halfw * 4) + u * 4,
                forall|v2: int, u2: int, c2: int|
                    0 <= v2 < v && 0 <= u2 < halfw && 0 <= c2 < 4 ==> new_rgba@[(v2 * halfw + u2)
                        * 4 + c2] == mip_value(rgba@, halfw as int, u2, v2, c2),
                forall|u2: int, c2: int|
                    0 <= u2 < u && 0 <= c2 < 4 ==> new_rgba@[(v as int * halfw + u2) * 4 + c2]
                        == mip_value(rgba@, halfw as int, u2, v as int, c2),
            decreases halfw as int - u as int,
        {
            let mut c: u32 = 0;
            while c < 4
                invariant
                    halfw == width as int / 2,
                    halfh == height as int / 2,
                    stride == 2 * halfw,
                    rgba@.len() == width * height * 4,
                    width * height * 4 <= u32::MAX,
                    16 * (halfw as int) * (halfh as int) <= width * height * 4,
                    v < halfh,
                    u < halfw,
                    c <= 4,
                    new_rgba@.len() == v * (halfw * 4) + u * 4 + c,
                    forall|v2: int, u2: int, c2: int|
                        0 <= v2 < v && 0 <= u2 < halfw && 0 <= c2 < 4 ==> new_rgba@[(v2 * halfw
                            + u2) * 4 + c2] == mip_value(rgba@, halfw as int, u2, v2, c2),
                    forall|u2: int, c2: int|
                        0 <= u2 < u && 0 <= c2 < 4 ==> new_rgba@[(v as int * halfw + u2) * 4 + c2]
                            == mip_value(rgba@, halfw as int, u2, v as int, c2),
                    forall|c2: int|
                        0 <= c2 < c ==> new_rgba@[(v as int * halfw + u as int) * 4 + c2]
                            == mip_value(rgba@, halfw as int, u as int, v as int, c2),
                decreases 4 - c as int,
            {
                proof {
                    let vi = v as int;
                    let ui = u as int;
                    let ci = c as int;
                    let hw = halfw as int;
                    let hh = halfh as int;
                    let st = stride as int;
                    assert(0 <= (vi * 2) * st && 0 <= (vi * 2 + 1) * st && ((vi * 2) * st + ui * 2)
                        * 4 + ci + 4 < 16 * hw * hh && ((vi * 2 + 1) * st + ui * 2) * 4 + ci + 4
                        < 16 * hw * hh) by (nonlinear_arith)
                        requires
                            0 <= vi < hh,
                            0 <= ui < hw,
                            0 <= ci < 4,
                            st == 2 * hw,
                    ;
                }
                let base0: u32 = ((v * 2) * stride + u * 2) * 4 + c;
                let base1: u32 = ((v * 2 + 1) * stride + u * 2) * 4 + c;
                let s0 = rgba[base0 as usize] as u16;
                let s1 = rgba[(base0 + 4) as usize] as u16;
                let s2 = rgba[base1 as usize] as u16;
                let s3 = rgba[(base1 + 4) as usize] as u16;
                let value = ((s0 + s1 + s2 + s3) / 4) as u8;
                new_rgba.push(value);
                proof {
                    let vi = v as int;
                    let ui = u as int;
                    let ci = c as int;
                    let hw = halfw as int;
                    assert(vi * (hw * 4) + ui * 4 + ci == (vi * hw + ui) * 4 + ci)
                        by (nonlinear_arith);
                    assert(new_rgba@[(vi * hw + ui) * 4 + ci] == mip_value(rgba@, hw, ui, vi, ci));
                    assert forall|v2: int, u2: int, c2: int|
                        0 <= v2 < vi && 0 <= u2 < hw && 0 <= c2 < 4 implies new_rgba@[(v2 * hw + u2)
                        * 4 + c2] == mip_value(rgba@, hw, u2, v2, c2) by {
                        lemma_mip_index_lt(hw, v2, u2, c2, vi, ui, ci);
                    }
                    assert forall|u2: int, c2: int|
                        0 <= u2 < ui && 0 <= c2 < 4 implies new_rgba@[(vi * hw + u2) * 4 + c2]
                        == mip_value(rgba@, hw, u2, vi, c2) by {
                        lemma_mip_index_lt(hw, vi, u2, c2, vi, ui, ci);
                    }
                    assert forall|c2: int|
                        0 <= c2 < ci + 1 implies new_rgba@[(vi * hw + ui) * 4 + c2] == mip_value(
                        rgba@,
                        hw,
                        ui,
                        vi,
                        c2,
                    ) by {
                        if c2 < ci {
                            lemma_mip_index_lt(hw, vi, ui, c2, vi, ui, ci);
                        }
                    }
                }
                c = c + 1;
            }
            u = u + 1;
            proof {
                assert(new_rgba@.len() == v * (halfw * 4) + u * 4) by (nonlinear_arith)
                    requires
                        new_rgba@.len() == v * (halfw as int * 4) + (u - 1) * 4 + 4,
                ;
            }
        }
        v = v + 1;
        proof {
            assert(new_rgba@.len() == v * (halfw * 4)) by (nonlinear_arith)
                requires
                    new_rgba@.len() == (v - 1) * (halfw as int * 4) + halfw as int * 4,
            ;
        }
    }
    proof {
        assert(new_rgba@.len() == (halfw as int) * (halfh as int) * 4) by (nonlinear_arith)
            requires
                new_rgba@.len() == (halfh as int) * ((halfw as int) * 4),
        ;
    }
    (halfw, halfh, new_rgba)
}

/// Box-filtering a uniform-color buffer yields the same color at every
/// output channel: the mean of four equal samples is that sample.
pub proof fn lemma_mip_value_uniform(
    rgba: Seq<u8>,
    halfw: int,
    u: int,
    v: int,
    c: int,
    c0: u8,
    c1: u8,
    c2: u8,
    c3: u8,
)
    requires
        uniform_rgba(rgba, c0, c1, c2, c3),
        halfw >= 1,
        0 <= u < halfw,
        0 <= v,
        0 <= c < 4,
        ((v * 2 + 1) * (2 * halfw) + u * 2 + 1) * 4 + 3 < rgba.len(),
    ensures
        mip_value(rgba, halfw, u, v, c) == rgba_channel(c0, c1, c2, c3, c),
{
    let stride = 2 * halfw;
    let i0 = ((v * 2) * stride + u * 2) * 4 + c;
    let i1 = ((v * 2) * stride + u * 2 + 1) * 4 + c;
    let i2 = ((v * 2 + 1) * stride + u * 2) * 4 + c;
    let i3 = ((v * 2 + 1) * stride + u * 2 + 1) * 4 + c;
    assert(0 <= i0 && i0 <= i1 && i1 <= i2 && i2 <= i3) by (nonlinear_arith)
        requires
            halfw >= 1,
            0 <= u < halfw,
            0 <= v,
            0 <= c < 4,
            stride == 2 * halfw,
            i0 == ((v * 2) * stride + u * 2) * 4 + c,
            i1 == ((v * 2) * stride + u * 2 + 1) * 4 + c,
            i2 == ((v * 2 + 1) * stride + u * 2) * 4 + c,
            i3 == ((v * 2 + 1) * stride + u * 2 + 1) * 4 + c,
    ;
    assert(i0 % 4 == c && i1 % 4 == c && i2 % 4 == c && i3 % 4 == c) by (nonlinear_arith)
        requires
            0 <= c < 4,
            i0 == ((v * 2) * stride + u * 2) * 4 + c,
            i1 == ((v * 2) * stride + u * 2 + 1) * 4 + c,
            i2 == ((v * 2 + 1) * stride + u * 2) * 4 + c,
            i3 == ((v * 2 + 1) * stride + u * 2 + 1) * 4 + c,
            0 <= i0 && 0 <= i1 && 0 <= i2 && 0 <= i3,
    ;
    let k = rgba_channel(c0, c1, c2, c3, c);
    assert(rgba[i0] == k && rgba[i1] == k && rgba[i2] == k && rgba[i3] == k);
    assert((4 * (k as int)) / 4 == k as int);
}

/// A whole box-filtered level of a uniform-color image is uniform in the
/// same color: filtering is idempotent on uniform colors at every level.
pub proof fn lemma_mip_level_uniform(
    out: Seq<u8>,
    rgba: Seq<u8>,
    halfw: int,
    halfh: int,
    c0: u8,
    c1: u8,
    c2: u8,
    c3: u8,
)
    requires
        uniform_rgba(rgba, c0, c1, c2, c3),
        halfw >= 0,
        halfh >= 0,
        16 * halfw * halfh <= rgba.len(),
        out.len() == halfw * halfh * 4,
        forall|v: int, u: int, c: int|
            0 <= v < halfh && 0 <= u < halfw && 0 <= c < 4 ==> out[(v * halfw + u) * 4 + c]
                == mip_value(rgba, halfw, u, v, c),
    ensures
        uniform_rgba(out, c0, c1, c2, c3),
{
    assert forall|i: int| 0 <= i < out.len() implies out[i] == rgba_channel(
        c0,
        c1,
        c2,
        c3,
        i % 4,
    ) by {
        let p = i / 4;
        let c = i % 4;
        lemma_fundamental_div_mod(i, 4);
        let u = p % halfw;
        let v = p / halfw;
        assert(halfw >= 1 && halfh >= 1) by (nonlinear_arith)
            requires
                halfw >= 0,
                halfh >= 0,
                0 < halfw * halfh * 4,
        ;
        lemma_fundamental_div_mod(p, halfw);
        assert(0 <= c < 4);
        assert(0 <= u < halfw && 0 <= v) by (nonlinear_arith)
            requires
                halfw >= 1,
                0 <= p,
                u == p % halfw,
                v == p / halfw,
        ;
        assert(0 <= p < halfw * halfh) by (nonlinear_arith)
            requires
                0 <= i < halfw * halfh * 4,
                p == i / 4,
        ;
        assert(v < halfh) by (nonlinear_arith)
            requires
                halfw >= 1,
                0 <= p < halfw * halfh,
                v == p / halfw,
        ;
        assert(i == (v * halfw + u) * 4 + c) by (nonlinear_arith)
            requires
                i == 4 * p + c,
                p == halfw * v + u,
        ;
        assert(((v * 2 + 1) * (2 * halfw) + u * 2 + 1) * 4 + 3 < 16 * halfw * halfh)
            by (nonlinear_arith)
            requires
                halfw >= 1,
                0 <= u < halfw,
                0 <= v < halfh,
                0 <= c < 4,
        ;
        lemma_mip_value_uniform(rgba, halfw, u, v, c, c0, c1, c2, c3);
        assert(out[i] == mip_value(rgba, halfw, u, v, c));
    }
}

} // verus!
