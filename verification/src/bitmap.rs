use vstd::prelude::*;

verus! {

/// Least significant byte of a 32-bit value.
pub open spec fn byte0(v: u32) -> u8 {
    (v & 0xff) as u8
}

/// Second byte of a 32-bit value, little-endian order.
pub open spec fn byte1(v: u32) -> u8 {
    ((v >> 8) & 0xff) as u8
}

/// Third byte of a 32-bit value, little-endian order.
pub open spec fn byte2(v: u32) -> u8 {
    ((v >> 16) & 0xff) as u8
}

/// Most significant byte of a 32-bit value.
pub open spec fn byte3(v: u32) -> u8 {
    ((v >> 24) & 0xff) as u8
}

/// The four bytes of a 32-bit value in little-endian order.
pub open spec fn le32(v: u32) -> Seq<u8> {
    Seq::empty().push(byte0(v)).push(byte1(v)).push(byte2(v)).push(byte3(v))
}

/// The 54 header bytes of an uncompressed 32-bit-per-pixel bitmap file:
/// a 14-byte file header (magic "BM", total file size, two reserved words,
/// pixel-data offset 54) followed by a 40-byte info header (header size 40,
/// width, height, 1 plane, 32 bits per pixel, no compression, and the five
/// remaining fields left 0). All multi-byte fields are little-endian.
pub open spec fn bmp_header(width: u32, height: u32, total: u32) -> Seq<u8> {
    Seq::empty().push(0x42u8).push(0x4Du8) + le32(total) + le32(0) + le32(54) + le32(40) + le32(
        width,
    ) + le32(height) + Seq::empty().push(1u8).push(0u8).push(32u8).push(0u8) + le32(0) + le32(0)
        + le32(0) + le32(0) + le32(0) + le32(0)
}

/// A whole bitmap byte stream: both headers, then the raw pixel rows,
/// bottom-up, unchanged.
pub open spec fn bmp_stream(width: u32, height: u32, pixels: Seq<u8>) -> Seq<u8> {
    bmp_header(width, height, (54 + pixels.len()) as u32) + pixels
}

/// A 32-bit little-endian field read from four bytes of a stream.
pub open spec fn read_u32_le(s: Seq<u8>, off: int) -> u32
    recommends
        0 <= off,
        off + 4 <= s.len(),
{
    ((s[off] as int) + (s[off + 1] as int) * 0x100 + (s[off + 2] as int) * 0x10000
        + (s[off + 3] as int) * 0x1000000) as u32
}

/// The width field of a bitmap stream, as a format-conforming reader sees it.
pub open spec fn stream_width(s: Seq<u8>) -> u32 {
    read_u32_le(s, 18)
}

/// The height field of a bitmap stream, as a format-conforming reader sees it.
pub open spec fn stream_height(s: Seq<u8>) -> u32 {
    read_u32_le(s, 22)
}

/// The pixel body of a bitmap stream: everything after the two headers.
pub open spec fn stream_pixels(s: Seq<u8>) -> Seq<u8> {
    s.skip(54)
}

/// A byte stream is a valid bitmap file of this layout exactly when it is
/// the encoding of its own width, height and pixel fields, and its pixel
/// body holds exactly four bytes per pixel of the claimed dimensions.
pub open spec fn valid_bmp(s: Seq<u8>) -> bool {
    s.len() >= 54 && s.len() <= u32::MAX && 4 * (stream_width(s) * stream_height(s)) == s.len()
        - 54 && s == bmp_stream(stream_width(s), stream_height(s), stream_pixels(s))
}

/// Append the four little-endian bytes of a 32-bit value.
fn push_u32_le(out: &mut Vec<u8>, v: u32)
    ensures
        final(out)@ == old(out)@ + le32(v),
{
    proof {
        assert((v & 0xff) < 256 && ((v >> 8) & 0xff) < 256 && ((v >> 16) & 0xff) < 256 && ((v
            >> 24) & 0xff) < 256) by (bit_vector);
    }
    out.push((v & 0xff) as u8);
    out.push(((v >> 8) & 0xff) as u8);
    out.push(((v >> 16) & 0xff) as u8);
    out.push(((v >> 24) & 0xff) as u8);
    proof {
        assert(out@ =~= old(out)@ + le32(v));
    }
}

/// Build the 54 header bytes for the given dimensions and total file size.
#[verifier::rlimit(50)]
fn header_bytes(width: u32, height: u32, total: u32) -> (r: Vec<u8>)
    ensures
        r@ == bmp_header(width, height, total),
{
    let mut out: Vec<u8> = Vec::new();
    out.push(0x42);
    out.push(0x4D);
    push_u32_le(&mut out, total);
    push_u32_le(&mut out, 0);
    push_u32_le(&mut out, 54);
    push_u32_le(&mut out, 40);
    push_u32_le(&mut out, width);
    push_u32_le(&mut out, height);
    out.push(1);
    out.push(0);
    out.push(32);
    out.push(0);
    push_u32_le(&mut out, 0);
    push_u32_le(&mut out, 0);
    push_u32_le(&mut out, 0);
    push_u32_le(&mut out, 0);
    push_u32_le(&mut out, 0);
    push_u32_le(&mut out, 0);
    proof {
        assert(out@ =~= bmp_header(width, height, total));
    }
    out
}

/// Assemble a complete bitmap byte stream: file header, info header, then
/// the raw pixel bytes unchanged. The caller's buffer and the 54 header
/// bytes together must fit the 32-bit file-size field.
pub fn encode(width: u32, height: u32, pixel_bytes: &Vec<u8>) -> (r: Vec<u8>)
    requires
        54 + pixel_bytes@.len() <= u32::MAX,
    ensures
        r@ == bmp_stream(width, height, pixel_bytes@),
        r@.len() == 54 + pixel_bytes@.len(),
{
    let total: u32 = 54 + pixel_bytes.len() as u32;
    let mut out = header_bytes(width, height, total);
    let n: usize = pixel_bytes.len();
    for i in 0..n
        invariant
            n == pixel_bytes@.len(),
            54 + pixel_bytes@.len() <= u32::MAX,
            total == 54 + pixel_bytes@.len(),
            out@ == bmp_header(width, height, total) + pixel_bytes@.take(i as int),
    {
        out.push(pixel_bytes[i]);
        proof {
            assert(pixel_bytes@.take(i + 1) =~= pixel_bytes@.take(i as int).push(
                pixel_bytes@[i as int],
            ));
            assert(out@ =~= bmp_header(width, height, total) + pixel_bytes@.take(i + 1));
        }
    }
    proof {
        assert(pixel_bytes@.take(n as int) =~= pixel_bytes@);
        assert(out@ =~= bmp_stream(width, height, pixel_bytes@));
    }
    out
}

/// Read a 32-bit little-endian field out of a stream.
fn read_field(stream: &Vec<u8>, off: usize) -> (v: u32)
    requires
        off + 4 <= stream@.len(),
    ensures
        v == read_u32_le(stream@, off as int),
{
    let m: usize = stream.len();
    proof {
        assert(off + 4 <= m);
    }
    let b0: u32 = stream[off] as u32;
    let b1: u32 = stream[off + 1] as u32;
    let b2: u32 = stream[off + 2] as u32;
    let b3: u32 = stream[off + 3] as u32;
    b0 + b1 * 0x100 + b2 * 0x10000 + b3 * 0x1000000
}

/// Read a bitmap byte stream back as its width, height and pixel bytes.
/// This succeeds exactly on the valid streams of this layout, and on those
/// it returns precisely the fields a format-conforming reader finds.
pub fn decode(stream: &Vec<u8>) -> (r: Option<(u32, u32, Vec<u8>)>)
    ensures
        match r {
            Some(t) => valid_bmp(stream@) && t.0 == stream_width(stream@) && t.1 == stream_height(
                stream@,
            ) && t.2@ == stream_pixels(stream@),
            None => !valid_bmp(stream@),
        },
{
    let n: usize = stream.len();
    if n < 54 {
        return None;
    }
    if n as u64 > 0xFFFF_FFFFu64 {
        return None;
    }
    let w: u32 = read_field(stream, 18);
    let h: u32 = read_field(stream, 22);
    let wu: u64 = w as u64;
    let hu: u64 = h as u64;
    proof {
        assert(wu * hu <= 0xFFFF_FFFFu64 * 0xFFFF_FFFFu64) by (nonlinear_arith)
            requires
                wu <= 0xFFFF_FFFFu64,
                hu <= 0xFFFF_FFFFu64,
        ;
    }
    let area: u64 = wu * hu;
    let body: usize = n - 54;
    if !(area <= 1073741810 && body as u64 == 4 * area) {
        proof {
            assert(area == w * h);
            if valid_bmp(stream@) {
                assert(stream_width(stream@) == w && stream_height(stream@) == h);
                assert(4 * (w * h) == n - 54);
                assert(false);
            }
        }
        return None;
    }
    let expected = header_bytes(w, h, n as u32);
    let mut i: usize = 0;
    while i < 54
        invariant
            i <= 54,
            54 <= n == stream@.len(),
            n <= u32::MAX,
            w == stream_width(stream@),
            h == stream_height(stream@),
            expected@ == bmp_header(w, h, n as u32),
            forall|j: int| 0 <= j < i ==> stream@[j] == expected@[j],
        decreases 54 - i,
    {
        if stream[i] != expected[i] {
            proof {
                if valid_bmp(stream@) {
                    assert(stream@ == bmp_stream(
                        stream_width(stream@),
                        stream_height(stream@),
                        stream_pixels(stream@),
                    ));
                    assert((54 + stream_pixels(stream@).len()) as u32 == n as u32);
                    assert(stream@[i as int] == bmp_header(w, h, n as u32)[i as int]);
                }
            }
            return None;
        }
        i += 1;
    }
    let mut px: Vec<u8> = Vec::new();
    let mut k: usize = 54;
    while k < n
        invariant
            54 <= k <= n == stream@.len(),
            px@ == stream@.subrange(54, k as int),
        decreases n - k,
    {
        px.push(stream[k]);
        proof {
            assert(stream@.subrange(54, k + 1) =~= stream@.subrange(54, k as int).push(
                stream@[k as int],
            ));
        }
        k += 1;
    }
    proof {
        assert(px@ =~= stream@.skip(54));
        assert(stream@ =~= bmp_header(w, h, n as u32) + px@);
        assert((54 + px@.len()) as u32 == n as u32);
        assert(stream@ == bmp_stream(w, h, px@));
        assert(area == w * h);
        assert(px@.len() == 4 * (w * h));
        lemma_stream_shape(w, h, px@);
    }
    Some((w, h, px))
}

/// The four little-endian bytes of a 32-bit value recompose to that value.
proof fn lemma_u32_le_bytes(v: u32)
    ensures
        (byte0(v) as int) + (byte1(v) as int) * 0x100 + (byte2(v) as int) * 0x10000 + (byte3(v)
            as int) * 0x1000000 == v,
{
    assert((v & 0xff) < 256 && ((v >> 8) & 0xff) < 256 && ((v >> 16) & 0xff) < 256 && ((v >> 24)
        & 0xff) < 256) by (bit_vector);
    assert((v & 0xff) + ((v >> 8) & 0xff) * 0x100 + ((v >> 16) & 0xff) * 0x10000 + ((v >> 24)
        & 0xff) * 0x1000000 == v) by (bit_vector);
}

/// An encoded stream has exactly length `54 + pixels.len()`, opens with the
/// magic bytes "BM", and a format-conforming reader finds in it exactly the
/// width, height and pixel bytes that were encoded: the encoding loses
/// nothing and the round trip is exact.
pub proof fn lemma_stream_shape(width: u32, height: u32, pixels: Seq<u8>)
    requires
        54 + pixels.len() <= u32::MAX,
    ensures
        bmp_stream(width, height, pixels).len() == 54 + pixels.len(),
        bmp_stream(width, height, pixels)[0] == 0x42u8,
        bmp_stream(width, height, pixels)[1] == 0x4Du8,
        stream_width(bmp_stream(width, height, pixels)) == width,
        stream_height(bmp_stream(width, height, pixels)) == height,
        stream_pixels(bmp_stream(width, height, pixels)) == pixels,
        pixels.len() == 4 * (width * height) ==> valid_bmp(bmp_stream(width, height, pixels)),
{
    let total = (54 + pixels.len()) as u32;
    let h = bmp_header(width, height, total);
    let s = bmp_stream(width, height, pixels);
    assert(h.len() == 54);
    assert(s[18] == byte0(width) && s[19] == byte1(width) && s[20] == byte2(width) && s[21]
        == byte3(width));
    assert(s[22] == byte0(height) && s[23] == byte1(height) && s[24] == byte2(height) && s[25]
        == byte3(height));
    lemma_u32_le_bytes(width);
    lemma_u32_le_bytes(height);
    assert(stream_width(s) == width);
    assert(stream_height(s) == height);
    assert(stream_pixels(s) =~= pixels);
}

/// Encoding the same width, height and pixel bytes twice yields
/// byte-identical streams: the encoding is a function of its inputs alone.
pub proof fn lemma_encode_deterministic(
    width: u32,
    height: u32,
    pixels: Seq<u8>,
    s1: Seq<u8>,
    s2: Seq<u8>,
)
    requires
        s1 == bmp_stream(width, height, pixels),
        s2 == bmp_stream(width, height, pixels),
    ensures
        s1 == s2,
{
}

} // verus!
