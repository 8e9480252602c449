//! Pixel post-processing.
//!
//! A device-independent-bitmap read returns pixel channels in reversed order
//! relative to the conventional RGB(A) ordering. The post-processor exchanges
//! the first and third byte of every pixel group exactly once. For 24-bit
//! reads the OS additionally pads each row to a four-byte boundary, so the
//! rows are repacked into a contiguous raster before the exchange.

use vstd::prelude::*;
use vstd::arithmetic::div_mod::lemma_fundamental_div_mod_converse;

verus! {

/// Where byte `i` of the channel-swapped raster comes from in the raw
/// raster: within every complete `channels`-sized pixel group, position 0
/// reads from position 2 and position 2 from position 0; every other byte
/// (and any trailing incomplete group) is read from its own position.
pub open spec fn swap_rb_index(len: int, channels: int, i: int) -> int
    recommends
        3 <= channels,
        0 <= i < len,
{
    let group = i / channels;
    let offset = i % channels;
    if (group + 1) * channels <= len {
        if offset == 0 {
            i + 2
        } else if offset == 2 {
            i - 2
        } else {
            i
        }
    } else {
        i
    }
}

/// The raster with the first and third byte of every complete pixel group
/// exchanged.
pub open spec fn swap_rb(s: Seq<u8>, channels: int) -> Seq<u8>
    recommends
        3 <= channels,
{
    Seq::new(s.len(), |i: int| s[swap_rb_index(s.len() as int, channels, i)])
}

/// The row stride of a device-independent-bitmap read at 24 bits per pixel:
/// three bytes per pixel, rows padded to a multiple of four bytes.
pub open spec fn row_stride_24(width: int) -> int {
    ((3 * width + 3) / 4) * 4
}

/// The contiguous top-down raster drawn from `height` padded rows of
/// `row_stride_24(width)` bytes each: the padding tail of every row is
/// dropped.
pub open spec fn pack_rows(raw: Seq<u8>, width: int, height: int) -> Seq<u8>
    recommends
        0 < width,
        0 < height,
        raw.len() == row_stride_24(width) * height,
{
    Seq::new((3 * width * height) as nat, |i: int|
        raw[(i / (3 * width)) * row_stride_24(width) + i % (3 * width)]
    )
}

/// The packed `width x height` sub-rectangle of a packed `src_width`-wide
/// raster with `channels` bytes per pixel, taken at origin `(x, y)`.
pub open spec fn sub_rect(
    s: Seq<u8>,
    src_width: int,
    channels: int,
    x: int,
    y: int,
    width: int,
    height: int,
) -> Seq<u8>
    recommends
        0 <= x,
        0 <= y,
        0 < width,
        0 < height,
        3 <= channels,
{
    Seq::new((channels * width * height) as nat, |i: int| {
        let row = i / (channels * width);
        let m = i % (channels * width);
        s[(y + row) * (channels * src_width) + channels * x + m]
    })
}

/// Exchanges the first and third byte of every complete four-byte pixel
/// group, in place: the post-processing step of a 32-bit capture.
pub fn swap_rb_quads(buf: &mut Vec<u8>)
    ensures
        final(buf)@ == swap_rb(old(buf)@, 4),
{
    let len = buf.len();
    let groups = len / 4;
    let ghost target = swap_rb(old(buf)@, 4);
    let mut i: usize = 0;
    while i < groups
        invariant
            groups == len / 4,
            len == buf@.len(),
            len == old(buf)@.len(),
            i <= groups,
            target == swap_rb(old(buf)@, 4),
            forall|j: int| 0 <= j < 4 * i ==> buf@[j] == target[j],
            forall|j: int| 4 * i <= j < len ==> buf@[j] == old(buf)@[j],
        decreases groups - i,
    {
        proof {
            assert(4 * (i + 1) <= 4 * groups <= len);
            lemma_fundamental_div_mod_converse(4 * i as int, 4, i as int, 0);
            lemma_fundamental_div_mod_converse(4 * i as int + 1, 4, i as int, 1);
            lemma_fundamental_div_mod_converse(4 * i as int + 2, 4, i as int, 2);
            lemma_fundamental_div_mod_converse(4 * i as int + 3, 4, i as int, 3);
        }
        let a = buf[4 * i];
        let b = buf[4 * i + 2];
        buf.set(4 * i, b);
        buf.set(4 * i + 2, a);
        i = i + 1;
    }
    proof {
        assert forall|j: int| 0 <= j < len implies buf@[j] == target[j] by {
            if j >= 4 * groups {
                lemma_fundamental_div_mod_converse(j, 4, groups as int, j - 4 * groups);
            }
        }
        assert(buf@ =~= target);
    }
}

/// The padded row stride at 24 bits per pixel covers the row's pixel bytes
/// and at most three bytes of padding.
pub proof fn lemma_row_stride_24_bounds(width: int)
    requires
        0 < width,
    ensures
        3 * width <= row_stride_24(width) <= 3 * width + 3,
{
    let bytes = 3 * width + 3;
    vstd::arithmetic::div_mod::lemma_fundamental_div_mod(bytes, 4);
    vstd::arithmetic::div_mod::lemma_mod_division_less_than_divisor(bytes, 4);
}

/// Packs the padded rows of a 24-bit device-independent-bitmap read into a
/// contiguous raster and exchanges the first and third channel of every
/// pixel: the post-processing step of a 24-bit capture.
pub fn extract_rgb(raw: &Vec<u8>, width: i32, height: i32) -> (out: Vec<u8>)
    requires
        0 < width,
        0 < height,
        raw@.len() == row_stride_24(width as int) * (height as int),
    ensures
        out@ == swap_rb(pack_rows(raw@, width as int, height as int), 3),
        out@.len() == 3 * width * height,
{
    let ghost wi = width as int;
    let ghost hi = height as int;
    let ghost st = row_stride_24(wi);
    let ghost target = swap_rb(pack_rows(raw@, wi, hi), 3);
    let raw_len: usize = raw.len();
    proof {
        lemma_row_stride_24_bounds(wi);
        // The stride fits usize: it is at most the raw length.
        assert(st <= st * hi) by (nonlinear_arith)
            requires
                0 <= st,
                1 <= hi;
        assert(st <= raw_len);
    }
    let stride64: u64 = (3 * (width as u64) + 3) / 4 * 4;
    proof {
        assert(stride64 == st);
    }
    let stride: usize = stride64 as usize;
    let w: usize = width as usize;
    let h: usize = height as usize;
    let mut out: Vec<u8> = Vec::new();
    let mut row: usize = 0;
    while row < h
        invariant
            stride == st,
            st == row_stride_24(wi),
            w == wi,
            h == hi,
            0 < wi,
            0 < hi,
            3 * wi <= st <= 3 * wi + 3,
            raw@.len() == st * hi,
            st * hi <= usize::MAX,
            target == swap_rb(pack_rows(raw@, wi, hi), 3),
            target.len() == 3 * wi * hi,
            row <= h,
            out@.len() == 3 * wi * row,
            forall|j: int| 0 <= j < out@.len() ==> out@[j] == target[j],
        decreases h - row,
    {
        proof {
            assert((row as int) * st + st <= st * hi
                && 3 * wi * (row as int) + 3 * wi <= 3 * wi * hi
                && 3 * wi * hi <= st * hi) by (nonlinear_arith)
                requires
                    0 <= row as int && (row as int) < hi,
                    0 < wi,
                    3 * wi <= st;
        }
        let row_base: usize = row * stride;
        let out_row_base: usize = 3 * w * row;
        let mut col: usize = 0;
        while col < w
            invariant
                stride == st,
                st == row_stride_24(wi),
                w == wi,
                h == hi,
                0 < wi,
                0 < hi,
                3 * wi <= st <= 3 * wi + 3,
                raw@.len() == st * hi,
                st * hi <= usize::MAX,
                target == swap_rb(pack_rows(raw@, wi, hi), 3),
                target.len() == 3 * wi * hi,
                row < h,
                row_base == row as int * st,
                row_base + st <= raw@.len(),
                out_row_base == 3 * wi * row,
                out_row_base + 3 * wi <= target.len(),
                col <= w,
                out@.len() == out_row_base + 3 * col,
                forall|j: int| 0 <= j < out@.len() ==> out@[j] == target[j],
            decreases w - col,
        {
            let base: usize = row_base + 3 * col;
            let b0 = raw[base];
            let b1 = raw[base + 1];
            let b2 = raw[base + 2];
            out.push(b2);
            out.push(b1);
            out.push(b0);
            proof {
                let i = out_row_base as int + 3 * col;
                let packed = pack_rows(raw@, wi, hi);
                let group = (row as int) * wi + col;
                // The three bytes just pushed sit in one complete pixel
                // group of the packed raster.
                assert(i == group * 3 && (group + 1) * 3 <= 3 * wi * hi) by (nonlinear_arith)
                    requires
                        i == 3 * wi * (row as int) + 3 * col,
                        group == (row as int) * wi + col,
                        0 <= row as int && (row as int) < hi,
                        0 <= col && col < wi;
                lemma_fundamental_div_mod_converse(i, 3, group, 0);
                lemma_fundamental_div_mod_converse(i + 1, 3, group, 1);
                lemma_fundamental_div_mod_converse(i + 2, 3, group, 2);
                assert(swap_rb_index(3 * wi * hi, 3, i) == i + 2);
                assert(swap_rb_index(3 * wi * hi, 3, i + 1) == i + 1);
                assert(swap_rb_index(3 * wi * hi, 3, i + 2) == i);
                // Each packed byte comes from its padded row in the raw
                // buffer.
                assert(i == (row as int) * (3 * wi) + 3 * col) by (nonlinear_arith)
                    requires
                        i == 3 * wi * (row as int) + 3 * col;
                lemma_fundamental_div_mod_converse(i, 3 * wi, row as int, 3 * col);
                lemma_fundamental_div_mod_converse(i + 1, 3 * wi, row as int, 3 * col + 1);
                lemma_fundamental_div_mod_converse(i + 2, 3 * wi, row as int, 3 * col + 2);
                assert(0 <= i && i + 2 < packed.len());
                assert((i / (3 * wi)) * row_stride_24(wi) == row_base as int);
                assert(packed[i] == raw@[row_base as int + 3 * col]);
                assert(packed[i + 1] == raw@[row_base as int + 3 * col + 1]);
                assert(packed[i + 2] == raw@[row_base as int + 3 * col + 2]);
                assert(target[i] == packed[i + 2]);
                assert(target[i + 1] == packed[i + 1]);
                assert(target[i + 2] == packed[i]);
            }
            col = col + 1;
        }
        proof {
            assert(3 * wi * ((row + 1) as int) == 3 * wi * (row as int) + 3 * wi)
                by (nonlinear_arith);
        }
        row = row + 1;
    }
    proof {
        assert(out@ =~= target);
    }
    out
}

/// The swapped-from position is itself in range, and swapping its index
/// again leads back: the byte exchange is a self-inverse permutation.
pub proof fn lemma_swap_rb_index_involution(len: int, channels: int, i: int)
    requires
        3 <= channels,
        0 <= i < len,
    ensures
        0 <= swap_rb_index(len, channels, i) < len,
        swap_rb_index(len, channels, swap_rb_index(len, channels, i)) == i,
{
    let group = i / channels;
    let offset = i % channels;
    vstd::arithmetic::div_mod::lemma_fundamental_div_mod(i, channels);
    vstd::arithmetic::div_mod::lemma_mod_division_less_than_divisor(i, channels);
    vstd::arithmetic::div_mod::lemma_div_pos_is_pos(i, channels);
    if (group + 1) * channels <= len {
        assert((group + 1) * channels == group * channels + channels) by (nonlinear_arith);
        if offset == 0 {
            lemma_fundamental_div_mod_converse(i + 2, channels, group, 2);
            assert(swap_rb_index(len, channels, i) == i + 2);
            assert(swap_rb_index(len, channels, i + 2) == i);
        } else if offset == 2 {
            lemma_fundamental_div_mod_converse(i - 2, channels, group, 0);
            assert(swap_rb_index(len, channels, i) == i - 2);
            assert(swap_rb_index(len, channels, i - 2) == i);
        } else {
            assert(swap_rb_index(len, channels, i) == i);
        }
    } else {
        assert(swap_rb_index(len, channels, i) == i);
    }
}

/// Exchanging the first and third channel twice reproduces the raw byte
/// order: the post-processor swaps exactly once, and applying it again
/// undoes it.
pub proof fn lemma_swap_rb_involution(s: Seq<u8>, channels: int)
    requires
        3 <= channels,
    ensures
        swap_rb(swap_rb(s, channels), channels) == s,
{
    let len = s.len() as int;
    let t = swap_rb(s, channels);
    assert forall|i: int| 0 <= i < len implies swap_rb(t, channels)[i] == s[i] by {
        lemma_swap_rb_index_involution(len, channels, i);
        let j = swap_rb_index(len, channels, i);
        assert(swap_rb(t, channels)[i] == t[j]);
        assert(t[j] == s[swap_rb_index(len, channels, j)]);
    }
    assert(swap_rb(t, channels) =~= s);
}

/// Cropping commutes with the channel swap on a 32-bit raster: extracting a
/// sub-rectangle of the raw pixels and then swapping channels yields the same
/// bytes as swapping the whole raster first and cropping the processed
/// raster. A capture with a crop therefore returns exactly the crop
/// rectangle's portion of what a full capture of the same rendered content
/// returns, as long as the crop rectangle lies inside the full bounds.
pub proof fn lemma_crop_after_swap(
    s: Seq<u8>,
    src_width: int,
    src_height: int,
    x: int,
    y: int,
    width: int,
    height: int,
)
    requires
        s.len() == 4 * src_width * src_height,
        0 <= x,
        0 <= y,
        0 < width,
        0 < height,
        x + width <= src_width,
        y + height <= src_height,
    ensures
        swap_rb(sub_rect(s, src_width, 4, x, y, width, height), 4)
            == sub_rect(swap_rb(s, 4), src_width, 4, x, y, width, height),
{
    let n = s.len() as int;
    let l = 4 * width * height;
    let gw = 4 * width;
    let gsw = 4 * src_width;
    let sub = sub_rect(s, src_width, 4, x, y, width, height);
    let sw = swap_rb(s, 4);
    assert(l == gw * height && n == gsw * src_height && gw <= gsw) by (nonlinear_arith)
        requires
            n == 4 * src_width * src_height,
            l == 4 * width * height,
            gw == 4 * width,
            gsw == 4 * src_width,
            0 < width <= src_width,
            0 < height <= src_height;
    assert(sub.len() == l);
    assert forall|i: int| 0 <= i < l implies swap_rb(sub, 4)[i]
        == sub_rect(sw, src_width, 4, x, y, width, height)[i] by {
        let r = i / gw;
        let m = i % gw;
        vstd::arithmetic::div_mod::lemma_fundamental_div_mod(i, gw);
        vstd::arithmetic::div_mod::lemma_mod_division_less_than_divisor(i, gw);
        vstd::arithmetic::div_mod::lemma_div_pos_is_pos(i, gw);
        assert(r < height) by (nonlinear_arith)
            requires
                i == r * gw + m,
                0 <= m < gw,
                0 < gw,
                i < gw * height,
                0 <= r;
        let q4 = m / 4;
        let o = m % 4;
        vstd::arithmetic::div_mod::lemma_fundamental_div_mod(m, 4);
        vstd::arithmetic::div_mod::lemma_mod_division_less_than_divisor(m, 4);
        vstd::arithmetic::div_mod::lemma_div_pos_is_pos(m, 4);
        let target = (y + r) * gsw + 4 * x + m;
        // The byte's pixel group within the sub-rectangle, and within the
        // source raster, both lie wholly inside their rasters.
        let sub_group = r * width + q4;
        let src_group = (y + r) * src_width + x + q4;
        assert(i == sub_group * 4 + o
            && (sub_group + 1) * 4 <= l
            && target == src_group * 4 + o
            && (src_group + 1) * 4 <= n
            && q4 < width) by (nonlinear_arith)
            requires
                i == r * gw + m,
                m == q4 * 4 + o,
                0 <= o < 4,
                0 <= m < gw,
                0 <= r < height,
                sub_group == r * width + q4,
                src_group == (y + r) * src_width + x + q4,
                target == (y + r) * gsw + 4 * x + m,
                l == 4 * width * height,
                n == 4 * src_width * src_height,
                gw == 4 * width,
                gsw == 4 * src_width,
                0 <= x,
                0 <= y,
                0 < width,
                0 < height,
                x + width <= src_width,
                y + height <= src_height;
        lemma_fundamental_div_mod_converse(i, 4, sub_group, o);
        lemma_fundamental_div_mod_converse(target, 4, src_group, o);
        assert(0 <= target < n);
        if o == 0 {
            assert(swap_rb_index(l, 4, i) == i + 2);
            assert(swap_rb_index(n, 4, target) == target + 2);
            // The swapped-to byte stays on the same sub-rectangle row.
            lemma_fundamental_div_mod_converse(i + 2, gw, r, m + 2);
            assert(swap_rb(sub, 4)[i] == sub[i + 2]);
            assert(sub[i + 2] == s[(y + r) * gsw + 4 * x + (m + 2)]);
            assert(sub_rect(sw, src_width, 4, x, y, width, height)[i] == sw[target]);
            assert(sw[target] == s[target + 2]);
        } else if o == 2 {
            assert(swap_rb_index(l, 4, i) == i - 2);
            assert(swap_rb_index(n, 4, target) == target - 2);
            lemma_fundamental_div_mod_converse(i - 2, gw, r, m - 2);
            assert(swap_rb(sub, 4)[i] == sub[i - 2]);
            assert(sub[i - 2] == s[(y + r) * gsw + 4 * x + (m - 2)]);
            assert(sub_rect(sw, src_width, 4, x, y, width, height)[i] == sw[target]);
            assert(sw[target] == s[target - 2]);
        } else {
            assert(swap_rb_index(l, 4, i) == i);
            assert(swap_rb_index(n, 4, target) == target);
            assert(swap_rb(sub, 4)[i] == sub[i]);
            assert(sub[i] == s[target]);
            assert(sub_rect(sw, src_width, 4, x, y, width, height)[i] == sw[target]);
            assert(sw[target] == s[target]);
        }
    }
    assert(swap_rb(sub, 4) =~= sub_rect(sw, src_width, 4, x, y, width, height));
}

} // verus!
