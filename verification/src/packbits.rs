//! PackBits run-length decoding of PICT scanlines.

use vstd::prelude::*;

verus! {

/// Decodes PackBits data starting at `pos` until `out` holds `n` bytes.
/// Each control byte `c` is followed by `c + 1` literal bytes when
/// `c < 128`, is skipped when `c == 128`, and otherwise is followed by one
/// byte repeated `257 - c` times. `None` when the data ends first or a run
/// would overshoot `n`; otherwise the output and the position after the
/// last byte read.
pub open spec fn packbits_from(s: Seq<u8>, pos: int, n: nat, out: Seq<u8>) -> Option<(Seq<u8>, int)>
    decreases s.len() - pos,
{
    if out.len() >= n {
        Some((out, pos))
    } else if pos < 0 || pos >= s.len() {
        None
    } else {
        let c = s[pos] as int;
        if c < 128 {
            let lit = c + 1;
            if lit > n - out.len() || pos + 1 + lit > s.len() {
                None
            } else {
                packbits_from(s, pos + 1 + lit, n, out + s.subrange(pos + 1, pos + 1 + lit))
            }
        } else if c == 128 {
            packbits_from(s, pos + 1, n, out)
        } else {
            let rep = 257 - c;
            if rep > n - out.len() || pos + 1 >= s.len() {
                None
            } else {
                packbits_from(s, pos + 2, n, out + Seq::new(rep as nat, |i: int| s[pos + 1]))
            }
        }
    }
}

/// Word-oriented PackBits: like `packbits_from`, but literal and repeat
/// counts are in two-byte words; repeats copy one two-byte word.
pub open spec fn packwords_from(s: Seq<u8>, pos: int, n: nat, out: Seq<u8>) -> Option<(Seq<u8>, int)>
    decreases s.len() - pos,
{
    if out.len() >= n {
        Some((out, pos))
    } else if pos < 0 || pos >= s.len() {
        None
    } else {
        let c = s[pos] as int;
        if c < 128 {
            let bytes = 2 * (c + 1);
            if bytes > n - out.len() || pos + 1 + bytes > s.len() {
                None
            } else {
                packwords_from(s, pos + 1 + bytes, n, out + s.subrange(pos + 1, pos + 1 + bytes))
            }
        } else if c == 128 {
            packwords_from(s, pos + 1, n, out)
        } else {
            let rep = 257 - c;
            if 2 * rep > n - out.len() || pos + 3 > s.len() {
                None
            } else {
                packwords_from(
                    s,
                    pos + 3,
                    n,
                    out + Seq::new((2 * rep) as nat, |i: int| if i % 2 == 0 { s[pos + 1] } else { s[pos + 2] }),
                )
            }
        }
    }
}

/// Why PackBits decoding failed.
#[derive(Debug, Clone, Copy, PartialEq, Eq, Structural)]
pub enum PackBitsError {
    /// A literal or a run would go past the requested output length.
    InvalidData,
    /// The compressed data ended before the output was complete.
    UnexpectedEof,
}

/// The kind of failure of `packbits_from` on the same arguments, when it
/// fails: a run that would overshoot `n` is invalid data (checked before
/// its bytes are read), data that ends first is an unexpected end.
pub open spec fn packbits_error(s: Seq<u8>, pos: int, n: nat, out: Seq<u8>) -> PackBitsError
    decreases s.len() - pos,
{
    if out.len() >= n {
        PackBitsError::InvalidData
    } else if pos < 0 || pos >= s.len() {
        PackBitsError::UnexpectedEof
    } else {
        let c = s[pos] as int;
        if c < 128 {
            let lit = c + 1;
            if lit > n - out.len() {
                PackBitsError::InvalidData
            } else if pos + 1 + lit > s.len() {
                PackBitsError::UnexpectedEof
            } else {
                packbits_error(s, pos + 1 + lit, n, out + s.subrange(pos + 1, pos + 1 + lit))
            }
        } else if c == 128 {
            packbits_error(s, pos + 1, n, out)
        } else {
            let rep = 257 - c;
            if rep > n - out.len() {
                PackBitsError::InvalidData
            } else if pos + 1 >= s.len() {
                PackBitsError::UnexpectedEof
            } else {
                packbits_error(s, pos + 2, n, out + Seq::new(rep as nat, |i: int| s[pos + 1]))
            }
        }
    }
}

/// The kind of failure of `packwords_from` on the same arguments, when it
/// fails.
pub open spec fn packwords_error(s: Seq<u8>, pos: int, n: nat, out: Seq<u8>) -> PackBitsError
    decreases s.len() - pos,
{
    if out.len() >= n {
        PackBitsError::InvalidData
    } else if pos < 0 || pos >= s.len() {
        PackBitsError::UnexpectedEof
    } else {
        let c = s[pos] as int;
        if c < 128 {
            let bytes = 2 * (c + 1);
            if bytes > n - out.len() {
                PackBitsError::InvalidData
            } else if pos + 1 + bytes > s.len() {
                PackBitsError::UnexpectedEof
            } else {
                packwords_error(s, pos + 1 + bytes, n, out + s.subrange(pos + 1, pos + 1 + bytes))
            }
        } else if c == 128 {
            packwords_error(s, pos + 1, n, out)
        } else {
            let rep = 257 - c;
            if 2 * rep > n - out.len() {
                PackBitsError::InvalidData
            } else if pos + 3 > s.len() {
                PackBitsError::UnexpectedEof
            } else {
                packwords_error(
                    s,
                    pos + 3,
                    n,
                    out + Seq::new((2 * rep) as nat, |i: int| if i % 2 == 0 { s[pos + 1] } else { s[pos + 2] }),
                )
            }
        }
    }
}

pub proof fn lemma_packbits_len(s: Seq<u8>, pos: int, n: nat, out: Seq<u8>)
    requires
        out.len() <= n,
    ensures
        packbits_from(s, pos, n, out) matches Some((o, p)) ==> o.len() == n && pos <= p
            && (p == pos || p <= s.len()),
    decreases s.len() - pos,
{
    if out.len() < n && 0 <= pos < s.len() {
        let c = s[pos] as int;
        if c < 128 {
            let lit = c + 1;
            if !(out.len() + lit > n || pos + 1 + lit > s.len()) {
                lemma_packbits_len(s, pos + 1 + lit, n, out + s.subrange(pos + 1, pos + 1 + lit));
            }
        } else if c == 128 {
            lemma_packbits_len(s, pos + 1, n, out);
        } else {
            let rep = 257 - c;
            if !(out.len() + rep > n || pos + 1 >= s.len()) {
                lemma_packbits_len(s, pos + 2, n, out + Seq::new(rep as nat, |i: int| s[pos + 1]));
            }
        }
    }
}

pub proof fn lemma_packwords_len(s: Seq<u8>, pos: int, n: nat, out: Seq<u8>)
    requires
        out.len() <= n,
    ensures
        packwords_from(s, pos, n, out) matches Some((o, p)) ==> o.len() == n && pos <= p
            && (p == pos || p <= s.len()),
    decreases s.len() - pos,
{
    if out.len() < n && 0 <= pos < s.len() {
        let c = s[pos] as int;
        if c < 128 {
            let bytes = 2 * (c + 1);
            if !(out.len() + bytes > n || pos + 1 + bytes > s.len()) {
                lemma_packwords_len(s, pos + 1 + bytes, n, out + s.subrange(pos + 1, pos + 1 + bytes));
            }
        } else if c == 128 {
            lemma_packwords_len(s, pos + 1, n, out);
        } else {
            let rep = 257 - c;
            if !(out.len() + 2 * rep > n || pos + 3 > s.len()) {
                lemma_packwords_len(
                    s,
                    pos + 3,
                    n,
                    out + Seq::new((2 * rep) as nat, |i: int| if i % 2 == 0 { s[pos + 1] } else { s[pos + 2] }),
                );
            }
        }
    }
}

/// Reads PackBits-compressed data from `data` at `pos` until `n` bytes are
/// produced: the bytes and the position after the compressed run, or why
/// decoding failed (a run overshooting `n`, or the data ending first).
pub fn read_packbits(data: &[u8], pos: usize, n: usize) -> (r: Result<(Vec<u8>, usize), PackBitsError>)
    ensures
        match packbits_from(data@, pos as int, n as nat, Seq::empty()) {
            Some((o, p)) => r matches Ok((v, q)) && v@ == o && q == p,
            None => r matches Err(e) && e == packbits_error(data@, pos as int, n as nat, Seq::empty()),
        },
        r matches Ok((v, q)) ==> v@.len() == n && pos <= q && (q == pos || q <= data@.len()),
{
    let ghost s = data@;
    let ghost target = packbits_from(s, pos as int, n as nat, Seq::empty());
    let ghost err = packbits_error(s, pos as int, n as nat, Seq::empty());
    proof {
        lemma_packbits_len(s, pos as int, n as nat, Seq::empty());
    }
    let mut out: Vec<u8> = Vec::new();
    let mut p: usize = pos;
    while out.len() < n
        invariant
            out@.len() <= n,
            pos <= p,
            packbits_from(s, p as int, n as nat, out@) == target,
            target == packbits_from(s, pos as int, n as nat, Seq::empty()),
            packbits_error(s, p as int, n as nat, out@) == err,
            err == packbits_error(s, pos as int, n as nat, Seq::empty()),
            target matches Some((o, q)) ==> o.len() == n && pos <= q && (q == pos || q <= s.len()),
            data@ == s,
        decreases s.len() - p,
    {
        if p >= data.len() {
            return Err(PackBitsError::UnexpectedEof);
        }
        let c = data[p];
        if c < 128 {
            let lit = c as usize + 1;
            if lit > n - out.len() {
                return Err(PackBitsError::InvalidData);
            }
            if data.len() - (p + 1) < lit {
                return Err(PackBitsError::UnexpectedEof);
            }
            let ghost before = out@;
            let start = p + 1;
            let mut k: usize = 0;
            while k < lit
                invariant
                    k <= lit,
                    start + lit <= data.len(),
                    out@ == before + s.subrange(start as int, start + k),
                    data@ == s,
                decreases lit - k,
            {
                out.push(data[start + k]);
                assert(s.subrange(start as int, start + k + 1) == s.subrange(start as int, start + k).push(s[start + k]));
                k += 1;
            }
            p = p + 1 + lit;
        } else if c == 128 {
            p = p + 1;
        } else {
            let rep = 257 - (c as usize);
            if rep > n - out.len() {
                return Err(PackBitsError::InvalidData);
            }
            if p + 1 >= data.len() {
                return Err(PackBitsError::UnexpectedEof);
            }
            let value = data[p + 1];
            let ghost before = out@;
            let mut k: usize = 0;
            while k < rep
                invariant
                    k <= rep,
                    out@ == before + Seq::new(k as nat, |i: int| value),
                decreases rep - k,
            {
                out.push(value);
                assert(Seq::new((k + 1) as nat, |i: int| value) == Seq::new(k as nat, |i: int| value).push(value));
                k += 1;
            }
            assert(Seq::new(rep as nat, |i: int| value) == Seq::new(rep as nat, |i: int| s[p + 1]));
            p = p + 2;
        }
    }
    Ok((out, p))
}

/// Word-oriented PackBits (`unpack_words_exact`): literal and repeat counts
/// are in two-byte words.
pub fn read_packwords(data: &[u8], pos: usize, n: usize) -> (r: Result<(Vec<u8>, usize), PackBitsError>)
    ensures
        match packwords_from(data@, pos as int, n as nat, Seq::empty()) {
            Some((o, p)) => r matches Ok((v, q)) && v@ == o && q == p,
            None => r matches Err(e) && e == packwords_error(data@, pos as int, n as nat, Seq::empty()),
        },
        r matches Ok((v, q)) ==> v@.len() == n && pos <= q && (q == pos || q <= data@.len()),
{
    let ghost s = data@;
    let ghost target = packwords_from(s, pos as int, n as nat, Seq::empty());
    let ghost err = packwords_error(s, pos as int, n as nat, Seq::empty());
    proof {
        lemma_packwords_len(s, pos as int, n as nat, Seq::empty());
    }
    let mut out: Vec<u8> = Vec::new();
    let mut p: usize = pos;
    while out.len() < n
        invariant
            out@.len() <= n,
            pos <= p,
            packwords_from(s, p as int, n as nat, out@) == target,
            target == packwords_from(s, pos as int, n as nat, Seq::empty()),
            packwords_error(s, p as int, n as nat, out@) == err,
            err == packwords_error(s, pos as int, n as nat, Seq::empty()),
            target matches Some((o, q)) ==> o.len() == n && pos <= q && (q == pos || q <= s.len()),
            data@ == s,
        decreases s.len() - p,
    {
        if p >= data.len() {
            return Err(PackBitsError::UnexpectedEof);
        }
        let c = data[p];
        if c < 128 {
            let bytes = 2 * (c as usize + 1);
            if bytes > n - out.len() {
                return Err(PackBitsError::InvalidData);
            }
            if data.len() - (p + 1) < bytes {
                return Err(PackBitsError::UnexpectedEof);
            }
            let ghost before = out@;
            let start = p + 1;
            let mut k: usize = 0;
            while k < bytes
                invariant
                    k <= bytes,
                    start + bytes <= data.len(),
                    out@ == before + s.subrange(start as int, start + k),
                    data@ == s,
                decreases bytes - k,
            {
                out.push(data[start + k]);
                assert(s.subrange(start as int, start + k + 1) == s.subrange(start as int, start + k).push(s[start + k]));
                k += 1;
            }
            p = p + 1 + bytes;
        } else if c == 128 {
            p = p + 1;
        } else {
            let rep = 257 - (c as usize);
            if 2 * rep > n - out.len() {
                return Err(PackBitsError::InvalidData);
            }
            if data.len() < 3 || p > data.len() - 3 {
                return Err(PackBitsError::UnexpectedEof);
            }
            let hi = data[p + 1];
            let lo = data[p + 2];
            let ghost before = out@;
            let ghost word = Seq::new((2 * rep) as nat, |i: int| if i % 2 == 0 { hi } else { lo });
            let mut k: usize = 0;
            while k < rep
                invariant
                    k <= rep,
                    out@ == before + word.take(2 * k),
                    word == Seq::new((2 * rep) as nat, |i: int| if i % 2 == 0 { hi } else { lo }),
                decreases rep - k,
            {
                out.push(hi);
                out.push(lo);
                assert(word.take(2 * k + 2) == word.take(2 * k).push(hi).push(lo));
                k += 1;
            }
            assert(word.take(2 * rep) == word);
            assert(word == Seq::new((2 * rep) as nat, |i: int| if i % 2 == 0 { s[p + 1] } else { s[p + 2] }));
            p = p + 3;
        }
    }
    Ok((out, p))
}

/// Unpacks a whole PackBits buffer into exactly `expected_len` bytes;
/// bytes after the last run are ignored.
pub fn unpack_exact(input: &[u8], expected_len: usize) -> (r: Result<Vec<u8>, PackBitsError>)
    ensures
        match packbits_from(input@, 0, expected_len as nat, Seq::empty()) {
            Some((o, p)) => r matches Ok(v) && v@ == o,
            None => r matches Err(e) && e == packbits_error(input@, 0, expected_len as nat, Seq::empty()),
        },
{
    match read_packbits(input, 0, expected_len) {
        Ok((v, _)) => Ok(v),
        Err(e) => Err(e),
    }
}

/// Unpacks a whole word-oriented PackBits buffer into exactly
/// `expected_len` bytes.
pub fn unpack_words_exact(input: &[u8], expected_len: usize) -> (r: Result<Vec<u8>, PackBitsError>)
    ensures
        match packwords_from(input@, 0, expected_len as nat, Seq::empty()) {
            Some((o, p)) => r matches Ok(v) && v@ == o,
            None => r matches Err(e) && e == packwords_error(input@, 0, expected_len as nat, Seq::empty()),
        },
{
    match read_packwords(input, 0, expected_len) {
        Ok((v, _)) => Ok(v),
        Err(e) => Err(e),
    }
}

} // verus!

verus! {

/// Why scanline data could not be decoded.
#[derive(Debug, Clone, Copy, PartialEq, Eq, Structural)]
pub enum ScanError {
    /// The data ended early or did not unpack to the expected size; the
    /// caller may try again with the other size-field width.
    Truncated,
    /// The data is malformed in a way that the decoder does not recover
    /// from (the packed component data does not fill its share of the
    /// scanline).
    Fatal,
}

/// Outcome of decoding scanlines: the bytes and the position after them,
/// or the kind of failure.
pub enum ScanResult {
    Done(Seq<u8>, int),
    Truncated,
    Fatal,
}

/// Whether an executable outcome is the specified one.
pub open spec fn scan_matches(r: Result<(Vec<u8>, usize), ScanError>, sr: ScanResult) -> bool {
    match sr {
        ScanResult::Done(o, p) => r matches Ok((v, q)) && v@ == o && q == p,
        ScanResult::Truncated => r matches Err(e) && e == ScanError::Truncated,
        ScanResult::Fatal => r matches Err(e) && e == ScanError::Fatal,
    }
}

/// The packed-size field of a scanline at `pos` (two bytes when `large`,
/// else one) and the position after it.
pub open spec fn scan_header(s: Seq<u8>, pos: int, large: bool) -> Option<(int, int)> {
    if large {
        if 0 <= pos && pos + 2 <= s.len() {
            Some((s[pos] as int * 256 + s[pos + 1] as int, pos + 2))
        } else {
            None
        }
    } else {
        if 0 <= pos && pos + 1 <= s.len() {
            Some((s[pos] as int, pos + 1))
        } else {
            None
        }
    }
}

/// Unpacks `packed` into `n` bytes, by words when `chunks`.
pub open spec fn unpack(packed: Seq<u8>, n: nat, chunks: bool) -> Option<Seq<u8>> {
    let r = if chunks {
        packwords_from(packed, 0, n, Seq::empty())
    } else {
        packbits_from(packed, 0, n, Seq::empty())
    };
    match r {
        Some((o, _)) => Some(o),
        None => None,
    }
}

/// One packed scanline at `pos`: a size field, then that many packed bytes
/// that unpack to `n` bytes.
pub open spec fn rle_scanline(s: Seq<u8>, pos: int, large: bool, chunks: bool, n: nat) -> Option<(Seq<u8>, int)> {
    match scan_header(s, pos, large) {
        Some((size, start)) => if start + size <= s.len() {
            match unpack(s.subrange(start, start + size), n, chunks) {
                Some(o) => Some((o, start + size)),
                None => None,
            }
        } else {
            None
        },
        None => None,
    }
}

/// `count` consecutive packed scanlines, concatenated.
pub open spec fn rle_scanlines(s: Seq<u8>, pos: int, count: nat, large: bool, chunks: bool, n: nat) -> Option<(Seq<u8>, int)>
    decreases count,
{
    if count == 0 {
        Some((Seq::empty(), pos))
    } else {
        match rle_scanlines(s, pos, (count - 1) as nat, large, chunks, n) {
            Some((acc, p)) => match rle_scanline(s, p, large, chunks, n) {
                Some((line, q)) => Some((acc + line, q)),
                None => None,
            },
            None => None,
        }
    }
}

/// Scanlines decoded first with the size-field width `start_large`, and on
/// failure again from the same position with the other width.
pub open spec fn decode_rle(s: Seq<u8>, pos: int, count: nat, start_large: bool, chunks: bool, n: nat) -> Option<(Seq<u8>, int)> {
    match rle_scanlines(s, pos, count, start_large, chunks, n) {
        Some(r) => Some(r),
        None => rle_scanlines(s, pos, count, !start_large, chunks, n),
    }
}

/// One scanline of one-component-at-a-time data: the packed bytes unpack
/// to the first `n / 4 * cc` bytes of an `n`-byte scanline, the rest stays
/// zero.
pub open spec fn components_scanline(s: Seq<u8>, pos: int, large: bool, chunks: bool, n: nat, cc: nat) -> ScanResult {
    let css = (n / 4 * cc) as nat;
    match scan_header(s, pos, large) {
        Some((size, start)) => if start + size <= s.len() {
            match unpack(s.subrange(start, start + size), css, chunks) {
                Some(o) => if css <= n {
                    ScanResult::Done(o + Seq::new((n - css) as nat, |i: int| 0u8), start + size)
                } else {
                    ScanResult::Fatal
                },
                None => ScanResult::Fatal,
            }
        } else {
            ScanResult::Truncated
        },
        None => ScanResult::Truncated,
    }
}

/// `count` consecutive component scanlines, stopping at the first failure.
pub open spec fn components_scanlines(s: Seq<u8>, pos: int, count: nat, large: bool, chunks: bool, n: nat, cc: nat) -> ScanResult
    decreases count,
{
    if count == 0 {
        ScanResult::Done(Seq::empty(), pos)
    } else {
        match components_scanlines(s, pos, (count - 1) as nat, large, chunks, n, cc) {
            ScanResult::Done(acc, p) => match components_scanline(s, p, large, chunks, n, cc) {
                ScanResult::Done(line, q) => ScanResult::Done(acc + line, q),
                other => other,
            },
            other => other,
        }
    }
}

/// Component scanlines with one retry using the other size-field width
/// after a truncation; a fatal failure is final.
pub open spec fn decode_components(s: Seq<u8>, pos: int, count: nat, start_large: bool, chunks: bool, n: nat, cc: nat) -> ScanResult {
    match components_scanlines(s, pos, count, start_large, chunks, n, cc) {
        ScanResult::Truncated => components_scanlines(s, pos, count, !start_large, chunks, n, cc),
        other => other,
    }
}

/// Reads a scanline's packed-size field.
fn read_scan_header(data: &[u8], pos: usize, large: bool) -> (r: Option<(usize, usize)>)
    ensures
        match scan_header(data@, pos as int, large) {
            Some((size, start)) => r matches Some((sz, st)) && sz == size && st == start,
            None => r is None,
        },
{
    if large {
        if pos <= data.len() && data.len() - pos >= 2 {
            Some((data[pos] as usize * 256 + data[pos + 1] as usize, pos + 2))
        } else {
            None
        }
    } else {
        if pos < data.len() {
            Some((data[pos] as usize, pos + 1))
        } else {
            None
        }
    }
}

/// Decodes one packed scanline (`decode_rle_scanline`).
pub fn decode_rle_scanline(data: &[u8], pos: usize, large: bool, large_chunks: bool, n: usize) -> (r: Option<(Vec<u8>, usize)>)
    ensures
        match rle_scanline(data@, pos as int, large, large_chunks, n as nat) {
            Some((o, p)) => r matches Some((v, q)) && v@ == o && q == p,
            None => r is None,
        },
{
    let (size, start) = read_scan_header(data, pos, large)?;
    if size > data.len() - start {
        return None;
    }
    let packed = &data[start..start + size];
    let unpacked = if large_chunks {
        unpack_words_exact(packed, n)
    } else {
        unpack_exact(packed, n)
    };
    match unpacked {
        Ok(v) => Some((v, start + size)),
        Err(_) => None,
    }
}

proof fn lemma_rle_scanlines_len(s: Seq<u8>, pos: int, count: nat, large: bool, chunks: bool, n: nat)
    ensures
        rle_scanlines(s, pos, count, large, chunks, n) matches Some((o, p)) ==> o.len() == count * n,
    decreases count,
{
    if count == 0 {
        assert(count * n == 0) by (nonlinear_arith)
            requires count == 0;
    } else {
        lemma_rle_scanlines_len(s, pos, (count - 1) as nat, large, chunks, n);
        if let Some((acc, p)) = rle_scanlines(s, pos, (count - 1) as nat, large, chunks, n) {
            if let Some((line, q)) = rle_scanline(s, p, large, chunks, n) {
                match scan_header(s, p, large) {
                    Some((size, start)) => {
                        if chunks {
                            lemma_packwords_len(s.subrange(start, start + size), 0, n, Seq::empty());
                        } else {
                            lemma_packbits_len(s.subrange(start, start + size), 0, n, Seq::empty());
                        }
                    },
                    None => {},
                }
                assert(line.len() == n);
                assert(acc.len() == (count - 1) * n);
                assert((count - 1) * n + n == count * n) by (nonlinear_arith)
                    requires count > 0;
                assert(rle_scanlines(s, pos, count, large, chunks, n) == Some((acc + line, q)));
                assert((acc + line).len() == count * n);
            }
        }
    }
}

/// Decodes `count` scanlines with one size-field width.
fn scanlines_once(data: &[u8], pos: usize, count: usize, large: bool, chunks: bool, n: usize) -> (r: Option<(Vec<u8>, usize)>)
    ensures
        match rle_scanlines(data@, pos as int, count as nat, large, chunks, n as nat) {
            Some((o, p)) => r matches Some((v, q)) && v@ == o && q == p,
            None => r is None,
        },
{
    let mut out: Vec<u8> = Vec::new();
    let mut p = pos;
    let mut y: usize = 0;
    while y < count
        invariant
            y <= count,
            rle_scanlines(data@, pos as int, y as nat, large, chunks, n as nat) == Some((out@, p as int)),
        decreases count - y,
    {
        let (line, q) = match decode_rle_scanline(data, p, large, chunks, n) {
            Some(x) => x,
            None => {
                proof { lemma_rle_none_after(data@, pos as int, y as nat, count as nat, large, chunks, n as nat); }
                return None;
            },
        };
        let ghost before = out@;
        let mut k: usize = 0;
        while k < line.len()
            invariant
                k <= line.len(),
                out@ == before + line@.take(k as int),
            decreases line.len() - k,
        {
            out.push(line[k]);
            assert(line@.take(k + 1) == line@.take(k as int).push(line@[k as int]));
            k += 1;
        }
        assert(line@.take(line.len() as int) == line@);
        p = q;
        y += 1;
    }
    Some((out, p))
}

proof fn lemma_rle_none_after(s: Seq<u8>, pos: int, i: nat, n_lines: nat, large: bool, chunks: bool, n: nat)
    requires
        i < n_lines,
        rle_scanlines(s, pos, i, large, chunks, n) matches Some((acc, p)) && rle_scanline(s, p, large, chunks, n) is None,
    ensures
        rle_scanlines(s, pos, n_lines, large, chunks, n) is None,
    decreases n_lines,
{
    if n_lines > i + 1 {
        lemma_rle_none_after(s, pos, i, (n_lines - 1) as nat, large, chunks, n);
    }
}

/// Decodes `count` packed scanlines of `n` bytes each
/// (`decode_rle_scanlines`), retrying once with the other size-field width
/// when the first attempt fails.
pub fn decode_rle_scanlines(data: &[u8], pos: usize, count: usize, start_large: bool, large_chunks: bool, n: usize) -> (r: Option<(Vec<u8>, usize)>)
    ensures
        match decode_rle(data@, pos as int, count as nat, start_large, large_chunks, n as nat) {
            Some((o, p)) => r matches Some((v, q)) && v@ == o && q == p && o.len() == count * n,
            None => r is None,
        },
{
    proof {
        lemma_rle_scanlines_len(data@, pos as int, count as nat, start_large, large_chunks, n as nat);
        lemma_rle_scanlines_len(data@, pos as int, count as nat, !start_large, large_chunks, n as nat);
    }
    match scanlines_once(data, pos, count, start_large, large_chunks, n) {
        Some(x) => Some(x),
        None => scanlines_once(data, pos, count, !start_large, large_chunks, n),
    }
}

} // verus!

verus! {

/// Decodes one scanline of component-separated data
/// (`decode_rle_components_scanline`).
pub fn decode_rle_components_scanline(
    data: &[u8],
    pos: usize,
    large: bool,
    large_chunks: bool,
    n: usize,
    component_count: usize,
) -> (r: Result<(Vec<u8>, usize), ScanError>)
    requires
        n / 4 * component_count <= usize::MAX,
    ensures
        scan_matches(r, components_scanline(data@, pos as int, large, large_chunks, n as nat, component_count as nat)),
{
    let css = n / 4 * component_count;
    let (size, start) = match read_scan_header(data, pos, large) {
        Some(x) => x,
        None => return Err(ScanError::Truncated),
    };
    if size > data.len() - start {
        return Err(ScanError::Truncated);
    }
    let packed = &data[start..start + size];
    let unpacked = if large_chunks {
        unpack_words_exact(packed, css)
    } else {
        unpack_exact(packed, css)
    };
    let component_scanline = match unpacked {
        Ok(v) => v,
        Err(_) => return Err(ScanError::Fatal),
    };
    if css > n {
        return Err(ScanError::Fatal);
    }
    proof {
        if large_chunks {
            lemma_packwords_len(packed@, 0, css as nat, Seq::empty());
        } else {
            lemma_packbits_len(packed@, 0, css as nat, Seq::empty());
        }
    }
    let mut combined = component_scanline;
    let ghost head = combined@;
    let mut k: usize = css;
    while k < n
        invariant
            css <= k <= n,
            combined@ == head + Seq::new((k - css) as nat, |i: int| 0u8),
        decreases n - k,
    {
        combined.push(0u8);
        assert(Seq::new((k + 1 - css) as nat, |i: int| 0u8) == Seq::new((k - css) as nat, |i: int| 0u8).push(0u8));
        k += 1;
    }
    Ok((combined, start + size))
}

/// Decodes `count` component scanlines with one size-field width.
fn components_once(data: &[u8], pos: usize, count: usize, large: bool, chunks: bool, n: usize, cc: usize) -> (r: Result<(Vec<u8>, usize), ScanError>)
    requires
        n / 4 * cc <= usize::MAX,
    ensures
        scan_matches(r, components_scanlines(data@, pos as int, count as nat, large, chunks, n as nat, cc as nat)),
{
    let mut out: Vec<u8> = Vec::new();
    let mut p = pos;
    let mut y: usize = 0;
    while y < count
        invariant
            y <= count,
            n / 4 * cc <= usize::MAX,
            components_scanlines(data@, pos as int, y as nat, large, chunks, n as nat, cc as nat) == ScanResult::Done(out@, p as int),
        decreases count - y,
    {
        let (line, q) = match decode_rle_components_scanline(data, p, large, chunks, n, cc) {
            Ok(x) => x,
            Err(e) => {
                proof { lemma_components_fail_after(data@, pos as int, y as nat, count as nat, large, chunks, n as nat, cc as nat); }
                return Err(e);
            },
        };
        let ghost before = out@;
        let mut k: usize = 0;
        while k < line.len()
            invariant
                k <= line.len(),
                out@ == before + line@.take(k as int),
            decreases line.len() - k,
        {
            out.push(line[k]);
            assert(line@.take(k + 1) == line@.take(k as int).push(line@[k as int]));
            k += 1;
        }
        assert(line@.take(line.len() as int) == line@);
        p = q;
        y += 1;
    }
    Ok((out, p))
}

proof fn lemma_components_fail_after(s: Seq<u8>, pos: int, i: nat, n_lines: nat, large: bool, chunks: bool, n: nat, cc: nat)
    requires
        i < n_lines,
        components_scanlines(s, pos, i, large, chunks, n, cc) matches ScanResult::Done(acc, p)
            && !(components_scanline(s, p, large, chunks, n, cc) is Done),
    ensures
        components_scanlines(s, pos, n_lines, large, chunks, n, cc) == ({
            let p = components_scanlines(s, pos, i, large, chunks, n, cc)->Done_1;
            components_scanline(s, p, large, chunks, n, cc)
        }),
    decreases n_lines,
{
    if n_lines > i + 1 {
        lemma_components_fail_after(s, pos, i, (n_lines - 1) as nat, large, chunks, n, cc);
    }
}

/// Decodes `count` component scanlines (`decode_rle_components_scanlines`),
/// retrying once with the other size-field width after a truncation.
pub fn decode_rle_components_scanlines(
    data: &[u8],
    pos: usize,
    count: usize,
    start_large: bool,
    large_chunks: bool,
    n: usize,
    component_count: usize,
) -> (r: Result<(Vec<u8>, usize), ScanError>)
    requires
        n / 4 * component_count <= usize::MAX,
    ensures
        scan_matches(r, decode_components(data@, pos as int, count as nat, start_large, large_chunks, n as nat, component_count as nat)),
{
    match components_once(data, pos, count, start_large, large_chunks, n, component_count) {
        Err(ScanError::Truncated) => components_once(data, pos, count, !start_large, large_chunks, n, component_count),
        other => other,
    }
}

} // verus!
