use vstd::prelude::*;

verus! {

/// Why a run-length encoded flag image could not be decoded.
#[derive(Debug, Clone, Copy, PartialEq, Eq, Structural)]
pub enum FlagDecodeError {
    TruncatedInput,
    TruncatedOutput,
    TrailingInput,
    OutputOverflow,
}

/// `count` copies of the two-byte pixel `(lo, hi)`.
pub open spec fn pixel_run(lo: u8, hi: u8, count: nat) -> Seq<u8> {
    Seq::new(2 * count, |j: int| if j % 2 == 0 { lo } else { hi })
}

/// Decoding from input position `p` into output position `o` of an output
/// of `out_len` bytes: the outcome and the bytes written from `o` on.
/// A run is four bytes: a little-endian pixel count, then the pixel.
pub open spec fn rle_decode(input: Seq<u8>, p: int, out_len: int, o: int) -> (Result<(), FlagDecodeError>, Seq<u8>)
    decreases input.len() - p,
{
    if 0 <= p < input.len() && o < out_len {
        if p + 4 > input.len() {
            (Err(FlagDecodeError::TruncatedInput), seq![])
        } else {
            let count = input[p] + 256 * input[p + 1];
            if count == 0 || o + 2 * count > out_len {
                (Err(FlagDecodeError::OutputOverflow), seq![])
            } else {
                let (r, rest) = rle_decode(input, p + 4, out_len, o + 2 * count);
                (r, pixel_run(input[p + 2], input[p + 3], count as nat) + rest)
            }
        }
    } else if p == input.len() && o == out_len {
        (Ok(()), seq![])
    } else if o == out_len {
        (Err(FlagDecodeError::TrailingInput), seq![])
    } else {
        (Err(FlagDecodeError::TruncatedOutput), seq![])
    }
}

/// Decodes a run-length encoded RGB565 image into `output`, which it must
/// fill exactly. Runs decoded before an error stay written.
pub fn decode_flag_rle(input: &[u8], output: &mut [u8]) -> (r: Result<(), FlagDecodeError>)
    ensures
        ({
            let (res, bytes) = rle_decode(input@, 0, old(output)@.len() as int, 0);
            &&& r == res
            &&& final(output)@ == bytes + old(output)@.skip(bytes.len() as int)
        }),
{
    let ghost n = output@.len() as int;
    let ghost old_out = output@;
    let ghost total = rle_decode(input@, 0, n, 0);
    assert(output@.take(0) =~= Seq::<u8>::empty());
    assert(total.1 == output@.take(0) + total.1);
    let mut in_pos: usize = 0;
    let mut out_pos: usize = 0;
    while in_pos < input.len() && out_pos < output.len()
        invariant
            output@.len() == n,
            n == old_out.len(),
            old_out == old(output)@,
            total == rle_decode(input@, 0, old(output)@.len() as int, 0),
            in_pos <= input@.len(),
            out_pos <= n,
            rle_decode(input@, in_pos as int, n, out_pos as int).0 == total.0,
            total.1 == output@.take(out_pos as int) + rle_decode(input@, in_pos as int, n, out_pos as int).1,
            output@.skip(out_pos as int) == old_out.skip(out_pos as int),
        decreases input@.len() - in_pos,
    {
        if input.len() - in_pos < 4 {
            proof {
                assert(rle_decode(input@, in_pos as int, n, out_pos as int) == (Err::<(), FlagDecodeError>(FlagDecodeError::TruncatedInput), Seq::<u8>::empty()));
                assert(total.1 =~= output@.take(out_pos as int));
                assert(output@ =~= output@.take(out_pos as int) + old_out.skip(out_pos as int));
                assert(total.0 == Err::<(), FlagDecodeError>(FlagDecodeError::TruncatedInput));
                assert(total.1.len() == out_pos);
            }
            return Err(FlagDecodeError::TruncatedInput);
        }
        let count = input[in_pos] as usize + 256 * input[in_pos + 1] as usize;
        let lo = input[in_pos + 2];
        let hi = input[in_pos + 3];
        in_pos = in_pos + 4;
        let run_bytes = count * 2;
        if count == 0 || run_bytes > output.len() - out_pos {
            proof {
                assert(rle_decode(input@, (in_pos - 4) as int, n, out_pos as int) == (Err::<(), FlagDecodeError>(FlagDecodeError::OutputOverflow), Seq::<u8>::empty()));
                assert(total.1 =~= output@.take(out_pos as int));
                assert(output@ =~= output@.take(out_pos as int) + old_out.skip(out_pos as int));
                assert(total.0 == Err::<(), FlagDecodeError>(FlagDecodeError::OutputOverflow));
                assert(total.1.len() == out_pos);
            }
            return Err(FlagDecodeError::OutputOverflow);
        }
        let start = out_pos;
        let ghost before = output@;
        let mut k: usize = 0;
        while k < run_bytes
            invariant
                output@.len() == n,
                before.len() == n,
                run_bytes == 2 * count,
                start + run_bytes <= n,
                k <= run_bytes,
                forall|t: int| 0 <= t < start ==> output@[t] == before[t],
                forall|t: int| start + k <= t < n ==> output@[t] == before[t],
                forall|t: int| 0 <= t < k ==> output@[start + t] == pixel_run(lo, hi, count as nat)[t],
            decreases run_bytes - k,
        {
            let value = if k % 2 == 0 { lo } else { hi };
            output[start + k] = value;
            k = k + 1;
        }
        proof {
            assert(output@.take(start + run_bytes) =~= before.take(start as int) + pixel_run(lo, hi, count as nat));
            assert(output@.skip(start + run_bytes) =~= old_out.skip(start + run_bytes)) by {
                assert forall|t: int| 0 <= t < n - (start + run_bytes) implies #[trigger] output@.skip(start + run_bytes)[t]
                    == old_out.skip(start + run_bytes)[t] by {
                    assert(old_out.skip(start as int)[t + run_bytes] == before.skip(start as int)[t + run_bytes]);
                }
            }
        }
        out_pos = out_pos + run_bytes;
    }
    proof { assert(output@ =~= output@.take(out_pos as int) + old_out.skip(out_pos as int)); }
    if in_pos == input.len() && out_pos == output.len() {
        Ok(())
    } else if out_pos == output.len() {
        Err(FlagDecodeError::TrailingInput)
    } else {
        Err(FlagDecodeError::TruncatedOutput)
    }
}


/// A run's pixel count is the little-endian 16-bit value of its first two
/// bytes: a single run `(lo, hi, p0, p1)` of `n = lo + 256 * hi` pixels
/// decodes into an output of exactly `2n` bytes without error, as `n`
/// copies of the pixel `(p0, p1)`.
pub proof fn law_run_count_little_endian(lo: u8, hi: u8, p0: u8, p1: u8)
    requires
        lo as int + 256 * hi as int > 0,
    ensures
        ({
            let n = lo as int + 256 * hi as int;
            let (res, bytes) = rle_decode(seq![lo, hi, p0, p1], 0, 2 * n, 0);
            &&& res == Ok::<(), FlagDecodeError>(())
            &&& bytes.len() == 2 * n
            &&& forall|j: int| 0 <= j < 2 * n ==> #[trigger] bytes[j] == if j % 2 == 0 { p0 } else { p1 }
        }),
{
    let input = seq![lo, hi, p0, p1];
    let n = lo as int + 256 * hi as int;
    assert(rle_decode(input, 4, 2 * n, 2 * n) == (Ok::<(), FlagDecodeError>(()), Seq::<u8>::empty()));
    let bytes = rle_decode(input, 0, 2 * n, 0).1;
    assert(bytes =~= pixel_run(p0, p1, n as nat));
}

proof fn lemma_decode_after(a: Seq<u8>, b: Seq<u8>, q: int, l1: int, l2: int, r: int)
    requires
        0 <= q <= b.len(),
    ensures
        rle_decode(a + b, a.len() + q, l1 + l2, l1 + r) == rle_decode(b, q, l2, r),
    decreases b.len() - q,
{
    let input = a + b;
    let p = a.len() + q;
    if q < b.len() && r < l2 && q + 4 <= b.len() {
        assert(input[p] == b[q] && input[p + 1] == b[q + 1]);
        assert(input[p + 2] == b[q + 2] && input[p + 3] == b[q + 3]);
        let count = b[q] + 256 * b[q + 1];
        if count != 0 && r + 2 * count <= l2 {
            lemma_decode_after(a, b, q + 4, l1, l2, r + 2 * count);
            assert(a.len() + (q + 4) == p + 4);
            assert(l1 + (r + 2 * count) == l1 + r + 2 * count);
        }
    }
}

proof fn lemma_decode_concat(first: Seq<u8>, rest: Seq<u8>, p: int, o: int, l1: int, l2: int)
    requires
        0 <= p <= first.len(),
        0 <= l2,
        rle_decode(first, p, l1, o).0 == Ok::<(), FlagDecodeError>(()),
    ensures
        rle_decode(first + rest, p, l1 + l2, o) == (rle_decode(rest, 0, l2, 0).0,
            rle_decode(first, p, l1, o).1 + rle_decode(rest, 0, l2, 0).1),
    decreases first.len() - p,
{
    let input = first + rest;
    let tail = rle_decode(rest, 0, l2, 0);
    if p < first.len() {
        assert(o < l1 && p + 4 <= first.len());
        assert(input[p] == first[p] && input[p + 1] == first[p + 1]);
        assert(input[p + 2] == first[p + 2] && input[p + 3] == first[p + 3]);
        let count = first[p] + 256 * first[p + 1];
        lemma_decode_concat(first, rest, p + 4, o + 2 * count, l1, l2);
        let run = pixel_run(first[p + 2], first[p + 3], count as nat);
        let later = rle_decode(first, p + 4, l1, o + 2 * count).1;
        assert(run + (later + tail.1) == (run + later) + tail.1);
    } else {
        assert(o == l1);
        lemma_decode_after(first, rest, 0, l1, l2, 0);
        assert(first.len() + 0 == p);
        assert(rle_decode(first, p, l1, o).1 + tail.1 == tail.1);
    }
}

/// Decoding goes run by run: a stream that decodes cleanly into `n1` bytes,
/// followed by any other stream, decodes into `n1 + n2` bytes as the first
/// stream's pixels followed by what the second alone gives in `n2` bytes,
/// with the second's outcome.
pub proof fn law_decode_concatenates(first: Seq<u8>, rest: Seq<u8>, n1: nat, n2: nat)
    requires
        rle_decode(first, 0, n1 as int, 0).0 == Ok::<(), FlagDecodeError>(()),
    ensures
        rle_decode(first + rest, 0, n1 + n2 as int, 0) == (rle_decode(rest, 0, n2 as int, 0).0,
            rle_decode(first, 0, n1 as int, 0).1 + rle_decode(rest, 0, n2 as int, 0).1),
{
    lemma_decode_concat(first, rest, 0, 0, n1 as int, n2 as int);
}

/// A single run `(lo, hi, p0, p1)` of `n = lo + 256 * hi` pixels into a
/// non-empty output of `len` bytes: it decodes only when the run fills the
/// output exactly; an empty run or one longer than the output overflows it,
/// and a shorter one leaves the output short.
pub proof fn law_single_run_outcome(lo: u8, hi: u8, p0: u8, p1: u8, len: nat)
    requires
        len > 0,
    ensures
        ({
            let n = lo as int + 256 * hi as int;
            let res = rle_decode(seq![lo, hi, p0, p1], 0, len as int, 0).0;
            &&& (res == Ok::<(), FlagDecodeError>(())) == (n > 0 && 2 * n == len)
            &&& (res == Err::<(), FlagDecodeError>(FlagDecodeError::OutputOverflow)) == (n == 0 || 2 * n > len)
            &&& (res == Err::<(), FlagDecodeError>(FlagDecodeError::TruncatedOutput)) == (n > 0 && 2 * n < len)
        }),
{
    let input = seq![lo, hi, p0, p1];
    let n = lo as int + 256 * hi as int;
    if n > 0 && 2 * n <= len {
        assert(rle_decode(input, 4, len as int, 2 * n).0 == if 2 * n == len {
            Ok::<(), FlagDecodeError>(())
        } else {
            Err(FlagDecodeError::TruncatedOutput)
        });
    }
}

/// Fewer than four bytes of input cannot hold a run: with output left to
/// fill, decoding reports the input truncated.
pub proof fn law_short_input_truncated(input: Seq<u8>, len: nat)
    requires
        0 < input.len() < 4,
        len > 0,
    ensures
        rle_decode(input, 0, len as int, 0).0 == Err::<(), FlagDecodeError>(FlagDecodeError::TruncatedInput),
{
}

/// A stream that has filled the output but holds more runs reports
/// trailing input.
pub proof fn law_trailing_input(first: Seq<u8>, rest: Seq<u8>, n1: nat)
    requires
        rle_decode(first, 0, n1 as int, 0).0 == Ok::<(), FlagDecodeError>(()),
        rest.len() > 0,
    ensures
        rle_decode(first + rest, 0, n1 as int, 0).0 == Err::<(), FlagDecodeError>(FlagDecodeError::TrailingInput),
{
    lemma_decode_concat(first, rest, 0, 0, n1 as int, 0);
}

} // verus!
