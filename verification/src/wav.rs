//! Peak normalization of WAV clips: a pure transform that rescales every
//! 16-bit PCM sample by one global gain so the loudest sample reaches a
//! target fraction of full scale.
//!
//! The target peak is given as an amplitude in sample units, `0..=32767`,
//! i.e. the target fraction of full scale times the largest representable
//! amplitude. Each output sample is the input sample times
//! `target / peak`, rounded half away from zero and clamped to the
//! representable range; a buffer whose peak is zero is scaled as if its peak
//! were one, so silence stays silence. Format parameters and every byte
//! outside the sample data are left untouched.

use vstd::prelude::*;
use vstd::arithmetic::div_mod::lemma_fundamental_div_mod;

verus! {

/// A malformed WAV buffer: missing or ill-formed RIFF/WAVE header, `fmt `
/// or `data` chunk, or a format other than 16-bit integer PCM.
#[derive(Debug, Clone, Copy, PartialEq, Eq, Structural)]
pub struct DecodeError;

/// The little-endian 16-bit value at offset `k`.
pub open spec fn u16_at(b: Seq<u8>, k: int) -> int {
    b[k] + 256 * b[k + 1]
}

/// The little-endian 32-bit value at offset `k`.
pub open spec fn le32_at(b: Seq<u8>, k: int) -> int {
    b[k] + 256 * b[k + 1] + 65536 * b[k + 2] + 16777216 * b[k + 3]
}

/// The signed reading of a 16-bit value in `0..65536`.
pub open spec fn signed16(v: int) -> int {
    if v < 32768 {
        v
    } else {
        v - 65536
    }
}

/// The unsigned 16-bit encoding of a signed value in `-32768..=32767`.
pub open spec fn encode16(x: int) -> int {
    if x >= 0 {
        x
    } else {
        x + 65536
    }
}

/// Absolute value.
pub open spec fn abs_i(x: int) -> int {
    if x < 0 {
        -x
    } else {
        x
    }
}

/// Division of `a` by `m`, rounded half away from zero.
pub open spec fn round_div(a: int, m: int) -> int {
    if a >= 0 {
        (2 * a + m) / (2 * m)
    } else {
        -((2 * (-a) + m) / (2 * m))
    }
}

/// A sample in `-32768..=32767`.
pub open spec fn clamp16(x: int) -> int {
    if x < -32768 {
        -32768
    } else if x > 32767 {
        32767
    } else {
        x
    }
}

/// What peak normalization makes of one sample: the sample times
/// `t / m`, rounded half away from zero, clamped to the representable
/// range.
pub open spec fn scaled_sample(s: int, t: int, m: int) -> int {
    clamp16(round_div(s * t, m))
}

/// Start of the chunk after one whose contents start at `off` with size
/// `sz`: chunk contents are padded to an even length, and the walk never
/// runs past the end of the buffer.
pub open spec fn chunk_next(len: int, off: int, sz: int) -> int {
    let raw = off + sz + (if sz % 2 == 1 {
        1int
    } else {
        0int
    });
    if raw <= len {
        raw
    } else {
        len
    }
}

/// Walks the chunk list from `pos` for a chunk whose four-byte identifier
/// is `c0 c1 c2 c3`; yields the offset and size of its contents. A chunk
/// whose declared contents run past the end of the buffer is malformed.
pub open spec fn find_chunk(b: Seq<u8>, pos: int, c0: u8, c1: u8, c2: u8, c3: u8) -> Option<
    (int, int),
>
    decreases b.len() - pos,
{
    if pos < 0 || pos + 8 > b.len() {
        None
    } else {
        let sz = le32_at(b, pos + 4);
        if b[pos] == c0 && b[pos + 1] == c1 && b[pos + 2] == c2 && b[pos + 3] == c3 {
            if pos + 8 + sz <= b.len() {
                Some((pos + 8, sz))
            } else {
                None
            }
        } else {
            find_chunk(b, chunk_next(b.len() as int, pos + 8, sz), c0, c1, c2, c3)
        }
    }
}

proof fn lemma_find_chunk_bounds(b: Seq<u8>, pos: int, c0: u8, c1: u8, c2: u8, c3: u8)
    requires
        find_chunk(b, pos, c0, c1, c2, c3) is Some,
    ensures
        ({
            let (off, sz) = find_chunk(b, pos, c0, c1, c2, c3)->Some_0;
            &&& pos + 8 <= off
            &&& 0 <= sz
            &&& off + sz <= b.len()
        }),
    decreases b.len() - pos,
{
    if !(pos < 0 || pos + 8 > b.len()) {
        let sz = le32_at(b, pos + 4);
        if !(b[pos] == c0 && b[pos + 1] == c1 && b[pos + 2] == c2 && b[pos + 3] == c3) {
            lemma_find_chunk_bounds(b, chunk_next(b.len() as int, pos + 8, sz), c0, c1, c2, c3);
        }
    }
}

/// The offset and size of the sample data in a well-formed buffer: a RIFF
/// header declaring WAVE contents, then a `fmt ` chunk declaring 16-bit
/// integer PCM, then a `data` chunk of even size.
pub open spec fn wav_layout(b: Seq<u8>) -> Option<(int, int)> {
    if b.len() >= 12 && b[0] == 0x52 && b[1] == 0x49 && b[2] == 0x46 && b[3] == 0x46  // "RIFF"
     && b[8] == 0x57 && b[9] == 0x41 && b[10] == 0x56 && b[11] == 0x45  // "WAVE"
     {
        match find_chunk(b, 12, 0x66, 0x6d, 0x74, 0x20) {  // "fmt "
            Some((fmt_off, fmt_sz)) => {
                if fmt_sz >= 16 && u16_at(b, fmt_off) == 1 && u16_at(b, fmt_off + 14) == 16 {
                    match find_chunk(
                        b,
                        chunk_next(b.len() as int, fmt_off, fmt_sz),
                        0x64,
                        0x61,
                        0x74,
                        0x61,
                    ) {  // "data"
                        Some((data_off, data_sz)) => {
                            if data_sz % 2 == 0 {
                                Some((data_off, data_sz))
                            } else {
                                None
                            }
                        },
                        None => None,
                    }
                } else {
                    None
                }
            },
            None => None,
        }
    } else {
        None
    }
}

/// Offset of the sample data; 0 when the buffer is malformed.
pub open spec fn wav_data_off(b: Seq<u8>) -> int {
    match wav_layout(b) {
        Some((off, sz)) => off,
        None => 0,
    }
}

/// Size in bytes of the sample data; 0 when the buffer is malformed.
pub open spec fn wav_data_len(b: Seq<u8>) -> int {
    match wav_layout(b) {
        Some((off, sz)) => sz,
        None => 0,
    }
}

/// Number of samples.
pub open spec fn wav_sample_count(b: Seq<u8>) -> int {
    wav_data_len(b) / 2
}

/// The `k`th sample, given the offset of the sample data.
pub open spec fn wav_sample(b: Seq<u8>, off: int, k: int) -> int {
    signed16(u16_at(b, off + 2 * k))
}

/// The largest absolute sample value among the first `k` samples.
pub open spec fn peak_upto(b: Seq<u8>, off: int, k: int) -> int
    decreases k,
{
    if k <= 0 {
        0
    } else {
        let prev = peak_upto(b, off, k - 1);
        let cur = abs_i(wav_sample(b, off, k - 1));
        if cur > prev {
            cur
        } else {
            prev
        }
    }
}

/// The peak amplitude of the buffer's samples.
pub open spec fn wav_peak(b: Seq<u8>) -> int {
    peak_upto(b, wav_data_off(b), wav_sample_count(b))
}

/// The divisor of the normalization gain: the peak amplitude, with an
/// all-silence buffer treated as if its peak were one.
pub open spec fn wav_gain_den(b: Seq<u8>) -> int {
    if wav_peak(b) == 0 {
        1
    } else {
        wav_peak(b)
    }
}

/// What a normalized buffer holds: the same length, every byte outside the
/// sample data unchanged, and each sample replaced by its scaled value
/// `clamp(round(s * t / m))` where `m` is the gain divisor.
pub open spec fn normalize_output(b: Seq<u8>, t: int, out: Seq<u8>) -> bool {
    let off = wav_data_off(b);
    let dlen = wav_data_len(b);
    let n = wav_sample_count(b);
    let m1 = wav_gain_den(b);
    &&& out.len() == b.len()
    &&& (forall|j: int| 0 <= j < b.len() && !(off <= j < off + dlen) ==> out[j] == b[j])
    &&& (forall|k: int|
        #![trigger out[off + 2 * k]]
        0 <= k < n ==> {
            let e = encode16(scaled_sample(wav_sample(b, off, k), t, m1));
            out[off + 2 * k] == e % 256 && out[off + 2 * k + 1] == e / 256
        })
}

proof fn lemma_peak_bounds(b: Seq<u8>, off: int, k: int)
    ensures
        0 <= peak_upto(b, off, k) <= 32768,
        forall|kk: int| 0 <= kk < k ==> abs_i(wav_sample(b, off, kk)) <= peak_upto(b, off, k),
    decreases k,
{
    if k > 0 {
        lemma_peak_bounds(b, off, k - 1);
    }
}

fn read_u16(b: &Vec<u8>, p: usize) -> (v: u16)
    requires
        p + 1 < b@.len(),
    ensures
        v as int == u16_at(b@, p as int),
{
    // the exec length bounds p + 1 below usize::MAX
    let _len = b.len();
    (b[p] as u16) + (b[p + 1] as u16) * 256
}

fn find_chunk_ex(b: &Vec<u8>, start: usize, c0: u8, c1: u8, c2: u8, c3: u8) -> (r: Option<
    (usize, usize),
>)
    requires
        start <= b@.len(),
    ensures
        match r {
            Some(p) => find_chunk(b@, start as int, c0, c1, c2, c3) == Some(
                (p.0 as int, p.1 as int),
            ),
            None => find_chunk(b@, start as int, c0, c1, c2, c3) is None,
        },
{
    let n = b.len();
    let mut pos = start;
    loop
        invariant
            pos <= n,
            n == b@.len(),
            find_chunk(b@, start as int, c0, c1, c2, c3) == find_chunk(
                b@,
                pos as int,
                c0,
                c1,
                c2,
                c3,
            ),
        decreases n - pos,
    {
        if n - pos < 8 {
            return None;
        }
        let sz64: u64 = (b[pos + 4] as u64) + (b[pos + 5] as u64) * 256 + (b[pos + 6] as u64)
            * 65536 + (b[pos + 7] as u64) * 16777216;
        proof {
            assert(sz64 as int == le32_at(b@, pos + 4));
        }
        let rem: u64 = (n - pos - 8) as u64;
        if b[pos] == c0 && b[pos + 1] == c1 && b[pos + 2] == c2 && b[pos + 3] == c3 {
            if sz64 <= rem {
                return Some((pos + 8, sz64 as usize));
            } else {
                return None;
            }
        } else {
            if sz64 > rem {
                // the declared size runs past the end: the walk stops there
                proof {
                    assert(chunk_next(n as int, pos + 8, sz64 as int) == n as int);
                    assert(find_chunk(b@, n as int, c0, c1, c2, c3) is None);
                }
                return None;
            }
            let mut next = pos + 8 + (sz64 as usize);
            if sz64 % 2 == 1 {
                if next < n {
                    next = next + 1;
                }
            }
            proof {
                assert(next as int == chunk_next(n as int, pos + 8, sz64 as int));
            }
            pos = next;
        }
    }
}

/// Locates the sample data of a well-formed 16-bit PCM buffer.
fn parse_wav(b: &Vec<u8>) -> (r: Option<(usize, usize)>)
    ensures
        match r {
            Some(p) => {
                &&& wav_layout(b@) == Some((p.0 as int, p.1 as int))
                &&& p.0 + p.1 <= b@.len()
                &&& p.1 % 2 == 0
            },
            None => wav_layout(b@) is None,
        },
{
    let n = b.len();
    if n < 12 {
        return None;
    }
    if !(b[0] == 0x52 && b[1] == 0x49 && b[2] == 0x46 && b[3] == 0x46 && b[8] == 0x57 && b[9]
        == 0x41 && b[10] == 0x56 && b[11] == 0x45) {
        return None;
    }
    let fmt = match find_chunk_ex(b, 12, 0x66, 0x6d, 0x74, 0x20) {
        Some(p) => p,
        None => {
            return None;
        },
    };
    let (fmt_off, fmt_sz) = fmt;
    proof {
        lemma_find_chunk_bounds(b@, 12, 0x66, 0x6d, 0x74, 0x20);
    }
    if fmt_sz < 16 {
        return None;
    }
    if read_u16(b, fmt_off) != 1 {
        return None;
    }
    if read_u16(b, fmt_off + 14) != 16 {
        return None;
    }
    let mut after_fmt = fmt_off + fmt_sz;
    if fmt_sz % 2 == 1 {
        if after_fmt < n {
            after_fmt = after_fmt + 1;
        }
    }
    proof {
        assert(after_fmt as int == chunk_next(n as int, fmt_off as int, fmt_sz as int));
    }
    let data = match find_chunk_ex(b, after_fmt, 0x64, 0x61, 0x74, 0x61) {
        Some(p) => p,
        None => {
            return None;
        },
    };
    let (data_off, data_sz) = data;
    proof {
        lemma_find_chunk_bounds(b@, after_fmt as int, 0x64, 0x61, 0x74, 0x61);
    }
    if data_sz % 2 != 0 {
        return None;
    }
    Some((data_off, data_sz))
}

fn compute_peak(b: &Vec<u8>, off: usize, n: usize) -> (p: u32)
    requires
        off + 2 * n <= b@.len(),
    ensures
        p as int == peak_upto(b@, off as int, n as int),
        p <= 32768,
{
    let blen = b.len();
    let mut peak: u32 = 0;
    let mut k: usize = 0;
    proof {
        lemma_peak_bounds(b@, off as int, n as int);
    }
    while k < n
        invariant
            k <= n,
            off + 2 * n <= b@.len(),
            b@.len() <= usize::MAX,
            peak as int == peak_upto(b@, off as int, k as int),
            peak <= 32768,
        decreases n - k,
    {
        let v = read_u16(b, off + 2 * k);
        let mag: u32 = if v < 32768 {
            v as u32
        } else {
            65536 - (v as u32)
        };
        proof {
            assert(mag as int == abs_i(wav_sample(b@, off as int, k as int)));
            assert(peak_upto(b@, off as int, k + 1) == (if mag as int > peak_upto(
                b@,
                off as int,
                k as int,
            ) {
                mag as int
            } else {
                peak_upto(b@, off as int, k as int)
            }));
        }
        if mag > peak {
            peak = mag;
        }
        k = k + 1;
    }
    peak
}

/// The scaled, clamped 16-bit encoding of the sample with unsigned reading
/// `v`, for target peak `t` and gain divisor `m1`.
fn scale_one(v: u16, t: u16, m1: u32) -> (e: u16)
    requires
        t <= 32767,
        1 <= m1 <= 32768,
    ensures
        e as int == encode16(scaled_sample(signed16(v as int), t as int, m1 as int)),
{
    let ghost s = signed16(v as int);
    let ghost a = s * (t as int);
    let mag: u32 = if v < 32768 {
        v as u32
    } else {
        65536 - (v as u32)
    };
    proof {
        assert(mag as int == abs_i(s));
    }
    proof {
        assert((mag as int) * (t as int) <= 32768 * 32767) by (nonlinear_arith)
            requires
                mag <= 32768,
                t <= 32767,
        {}
    }
    let au: u64 = (mag as u64) * (t as u64);
    proof {
        assert(au as int == abs_i(a)) by (nonlinear_arith)
            requires
                s == signed16(v as int),
                a == s * (t as int),
                au == mag as u64 * t as u64,
                mag as int == abs_i(s),
                t >= 0,
        {}
    }
    let q: u64 = (2 * au + (m1 as u64)) / (2 * (m1 as u64));
    proof {
        assert(q as int == (2 * abs_i(a) + m1) / (2 * (m1 as int)));
        vstd::arithmetic::div_mod::lemma_div_nonincreasing(2 * au as int + m1 as int, 2 * m1 as int);
    }
    if v < 32768 {
        // non-negative sample: round_div(a, m1) == q
        let e: u16 = if q > 32767 {
            32767
        } else {
            q as u16
        };
        proof {
            assert(a >= 0) by (nonlinear_arith)
                requires
                    a == s * (t as int),
                    s >= 0,
                    t >= 0,
            {}
            assert(round_div(a, m1 as int) == q as int);
            assert(e as int == encode16(clamp16(round_div(a, m1 as int))));
        }
        e
    } else {
        // negative sample: round_div(a, m1) == -q, or 0 when t == 0
        let qc: u64 = if q > 32768 {
            32768
        } else {
            q
        };
        let e: u16 = if qc == 0 {
            0
        } else {
            (65536 - qc) as u16
        };
        proof {
            if t == 0 {
                assert(a == 0) by (nonlinear_arith)
                    requires
                        a == s * (t as int),
                        t == 0,
                {}
                assert(abs_i(a) == 0);
                vstd::arithmetic::div_mod::lemma_basic_div(m1 as int, 2 * m1 as int);
                assert(q == 0);
                assert(round_div(a, m1 as int) == 0);
            } else {
                assert(a < 0) by (nonlinear_arith)
                    requires
                        a == s * (t as int),
                        s < 0,
                        t >= 1,
                {}
                assert(round_div(a, m1 as int) == -(q as int));
            }
            assert(e as int == encode16(clamp16(round_div(a, m1 as int))));
        }
        e
    }
}

/// Rescales every sample of a 16-bit PCM WAV buffer by one global gain so
/// the peak amplitude becomes `target_peak` (a fraction of full scale,
/// expressed as an amplitude in `0..=32767`). Rounding is half away from
/// zero, with clamping at the representable range; a buffer whose samples
/// are all zero is left as it is. The header and every byte outside the
/// sample data are preserved; a malformed buffer is rejected.
pub fn normalize_wav(wav: &Vec<u8>, target_peak: u16) -> (r: Result<Vec<u8>, DecodeError>)
    requires
        target_peak <= 32767,
    ensures
        r is Ok <==> wav_layout(wav@) is Some,
        r matches Ok(out) ==> normalize_output(wav@, target_peak as int, out@),
{
    let parsed = match parse_wav(wav) {
        Some(p) => p,
        None => {
            return Err(DecodeError);
        },
    };
    let (data_off, data_len) = parsed;
    let n = data_len / 2;
    proof {
        lemma_fundamental_div_mod(data_len as int, 2);
        assert(2 * (n as int) == data_len as int);
    }
    let peak = compute_peak(wav, data_off, n);
    let m1: u32 = if peak == 0 {
        1
    } else {
        peak
    };
    proof {
        assert(m1 as int == wav_gain_den(wav@));
    }
    // start from a byte-for-byte copy of the input
    let len = wav.len();
    let mut out: Vec<u8> = Vec::new();
    let mut i: usize = 0;
    while i < len
        invariant
            i <= len,
            len == wav@.len(),
            out@ == wav@.subrange(0, i as int),
        decreases len - i,
    {
        out.push(wav[i]);
        i = i + 1;
        proof {
            assert(out@ =~= wav@.subrange(0, i as int));
        }
    }
    proof {
        assert(out@ =~= wav@);
    }
    // overwrite the sample data with the scaled samples
    let ghost t = target_peak as int;
    let ghost offg = data_off as int;
    let mut k: usize = 0;
    while k < n
        invariant
            k <= n,
            out@.len() == wav@.len(),
            len == wav@.len(),
            data_off + 2 * n <= len,
            target_peak <= 32767,
            1 <= m1 <= 32768,
            data_off + 2 * n <= wav@.len(),
            n == wav_sample_count(wav@),
            offg == data_off as int,
            t == target_peak as int,
            wav_layout(wav@) == Some((data_off as int, data_len as int)),
            m1 as int == wav_gain_den(wav@),
            forall|j: int|
                0 <= j < wav@.len() && !(offg <= j < offg + 2 * k) ==> out@[j] == wav@[j],
            forall|kk: int|
                #![trigger out@[offg + 2 * kk]]
                0 <= kk < k ==> {
                    let e = encode16(scaled_sample(wav_sample(wav@, offg, kk), t, m1 as int));
                    out@[offg + 2 * kk] == e % 256 && out@[offg + 2 * kk + 1] == e / 256
                },
        decreases n - k,
    {
        let v = read_u16(wav, data_off + 2 * k);
        let e = scale_one(v, target_peak, m1);
        let lo: u8 = (e % 256) as u8;
        let hi: u8 = (e / 256) as u8;
        let ghost before = out@;
        out[data_off + 2 * k] = lo;
        out[data_off + 2 * k + 1] = hi;
        proof {
            let ghost enc = encode16(scaled_sample(wav_sample(wav@, offg, k as int), t, m1 as int));
            assert(v as int == u16_at(wav@, offg + 2 * k));
            assert(e as int == enc);
            assert(out@[offg + 2 * k] == enc % 256);
            assert(out@[offg + 2 * k + 1] == enc / 256);
            assert(forall|j: int|
                0 <= j < wav@.len() && !(offg <= j < offg + 2 * (k + 1)) ==> out@[j] == before[j]);
        }
        k = k + 1;
    }
    proof {
        assert(normalize_output(wav@, t, out@));
    }
    Ok(out)
}


proof fn lemma_peak_of_silence(b: Seq<u8>, off: int, k: int)
    requires
        forall|kk: int| 0 <= kk < k ==> wav_sample(b, off, kk) == 0,
    ensures
        peak_upto(b, off, k) == 0,
    decreases k,
{
    if k > 0 {
        lemma_peak_of_silence(b, off, k - 1);
    }
}

proof fn lemma_bytes_of_u16(b: Seq<u8>, p: int)
    requires
        0 <= p,
        p + 1 < b.len(),
    ensures
        0 <= u16_at(b, p) < 65536,
        u16_at(b, p) % 256 == b[p],
        u16_at(b, p) / 256 == b[p + 1],
{
    vstd::arithmetic::div_mod::lemma_fundamental_div_mod_converse(
        u16_at(b, p),
        256,
        b[p + 1] as int,
        b[p] as int,
    );
}

/// Scaling by a gain of one returns the sample: when the peak already
/// equals the target, `round(s * t / t) == s`, and no clamping occurs for
/// `|s| <= t <= 32767`.
proof fn lemma_scaled_at_unit_gain(s: int, t: int)
    requires
        0 < t <= 32767,
        abs_i(s) <= t,
    ensures
        scaled_sample(s, t, t) == s,
{
    if s >= 0 {
        assert(s * t >= 0 && 2 * (s * t) + t == s * (2 * t) + t) by (nonlinear_arith)
            requires
                s >= 0,
                t > 0,
        {}
        vstd::arithmetic::div_mod::lemma_fundamental_div_mod_converse(
            2 * (s * t) + t,
            2 * t,
            s,
            t,
        );
        assert(round_div(s * t, t) == s);
    } else {
        let a = s * t;
        assert(a < 0 && 2 * (-a) + t == (-s) * (2 * t) + t) by (nonlinear_arith)
            requires
                a == s * t,
                s < 0,
                t > 0,
        {}
        vstd::arithmetic::div_mod::lemma_fundamental_div_mod_converse(
            2 * (-a) + t,
            2 * t,
            -s,
            t,
        );
        assert(round_div(a, t) == s);
    }
}

/// A buffer whose peak amplitude already equals the target peak is
/// normalized to a bit-identical buffer.
pub proof fn lemma_normalize_peak_at_target(b: Seq<u8>, t: int, out: Seq<u8>)
    requires
        wav_layout(b) is Some,
        normalize_output(b, t, out),
        wav_peak(b) == t,
        0 < t <= 32767,
    ensures
        out == b,
{
    let off = wav_data_off(b);
    let dlen = wav_data_len(b);
    let n = wav_sample_count(b);
    lemma_peak_bounds(b, off, n);
    lemma_find_chunk_layout_bounds(b);
    lemma_fundamental_div_mod(dlen, 2);
    assert(dlen == 2 * n);
    assert forall|j: int| 0 <= j < b.len() implies out[j] == b[j] by {
        if off <= j < off + dlen {
            lemma_fundamental_div_mod(j - off, 2);
            let k = (j - off) / 2;
            let r = (j - off) % 2;
            assert(j == off + 2 * k + r && 0 <= r < 2);
            assert(0 <= k < n);
            let p = off + 2 * k;
            let s = wav_sample(b, off, k);
            lemma_bytes_of_u16(b, p);
            assert(abs_i(s) <= t);
            lemma_scaled_at_unit_gain(s, t);
            let e = encode16(scaled_sample(s, t, wav_gain_den(b)));
            assert(e == u16_at(b, p));
            assert(out[p] == e % 256);
            assert(out[p + 1] == e / 256);
            assert(out[p] == b[p] && out[p + 1] == b[p + 1]);
        }
    }
    assert(out =~= b);
}

/// An all-silence buffer normalizes to itself: every output sample is
/// zero, with no division by zero.
pub proof fn lemma_normalize_silence(b: Seq<u8>, t: int, out: Seq<u8>)
    requires
        wav_layout(b) is Some,
        normalize_output(b, t, out),
        0 <= t <= 32767,
        forall|k: int| 0 <= k < wav_sample_count(b) ==> wav_sample(b, wav_data_off(b), k) == 0,
    ensures
        forall|k: int|
            0 <= k < wav_sample_count(b) ==> wav_sample(out, wav_data_off(b), k) == 0,
        out == b,
{
    let off = wav_data_off(b);
    let dlen = wav_data_len(b);
    let n = wav_sample_count(b);
    lemma_peak_of_silence(b, off, n);
    assert(wav_gain_den(b) == 1);
    lemma_find_chunk_layout_bounds(b);
    lemma_fundamental_div_mod(dlen, 2);
    assert(dlen == 2 * n);
    assert forall|j: int| 0 <= j < b.len() implies out[j] == b[j] by {
        if off <= j < off + dlen {
            lemma_fundamental_div_mod(j - off, 2);
            let k = (j - off) / 2;
            let r = (j - off) % 2;
            assert(j == off + 2 * k + r && 0 <= r < 2);
            assert(0 <= k < n);
            let p = off + 2 * k;
            let s = wav_sample(b, off, k);
            assert(s == 0);
            assert(s * t == 0) by (nonlinear_arith)
                requires
                    s == 0,
            {}
            assert(round_div(s * t, 1) == (0 + 1) / 2);
            assert(scaled_sample(s, t, 1) == 0);
            let e = encode16(scaled_sample(s, t, wav_gain_den(b)));
            assert(e == 0);
            lemma_bytes_of_u16(b, p);
            assert(u16_at(b, p) == 0);
            assert(out[p] == e % 256);
            assert(out[p + 1] == e / 256);
            assert(out[p] == b[p] && out[p + 1] == b[p + 1]);
        }
    }
    assert(out =~= b);
    assert forall|k: int| 0 <= k < n implies wav_sample(out, off, k) == 0 by {
        assert(wav_sample(b, off, k) == 0);
    }
}

/// Bounds that a well-formed layout gives: the sample data lies inside
/// the buffer.
proof fn lemma_find_chunk_layout_bounds(b: Seq<u8>)
    requires
        wav_layout(b) is Some,
    ensures
        0 <= wav_data_off(b),
        wav_data_off(b) + wav_data_len(b) <= b.len(),
        wav_data_len(b) % 2 == 0,
        0 <= wav_data_len(b),
{
    let fmt = find_chunk(b, 12, 0x66, 0x6d, 0x74, 0x20);
    lemma_find_chunk_bounds(b, 12, 0x66, 0x6d, 0x74, 0x20);
    let (fmt_off, fmt_sz) = fmt->Some_0;
    let next = chunk_next(b.len() as int, fmt_off, fmt_sz);
    lemma_find_chunk_bounds(b, next, 0x64, 0x61, 0x74, 0x61);
}

} // verus!
