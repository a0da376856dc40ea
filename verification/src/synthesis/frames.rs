//! Codec frames, and what their audio has to do with them.

use vstd::prelude::*;
use crate::real32::Real32;

verus! {

/// The tokens of some frames.
pub open spec fn tokens_of(frames: Seq<Vec<i32>>) -> Seq<Seq<i32>> {
    Seq::new(frames.len(), |i: int| frames[i]@)
}

/// Codes cut into frames of `codebooks` codes each.
pub open spec fn framed(values: Seq<i32>, frames: nat, codebooks: nat) -> Seq<Seq<i32>> {
    Seq::new(
        frames,
        |i: int| values.subrange((i * codebooks) as int, (i * codebooks + codebooks) as int),
    )
}

/// The first token of each frame, where frames have any.
pub open spec fn leading_tokens(values: Seq<i32>, frames: nat, codebooks: nat) -> Seq<i32> {
    if codebooks == 0 {
        Seq::empty()
    } else {
        Seq::new(frames, |i: int| values[(i * codebooks) as int])
    }
}

/// Putting the frames of some codes back together gives the codes.
pub proof fn lemma_flatten_framed(values: Seq<i32>, frames: nat, codebooks: nat)
    requires
        frames * codebooks <= values.len(),
    ensures
        framed(values, frames, codebooks).flatten() == values.take((frames * codebooks) as int),
    decreases frames,
{
    let all = framed(values, frames, codebooks);
    if frames == 0 {
        assert(all =~= Seq::<Seq<i32>>::empty());
        assert(0 * codebooks == 0) by (nonlinear_arith);
        assert(all.flatten() =~= values.take(0));
    } else {
        let fewer = (frames - 1) as nat;
        assert(fewer * codebooks + codebooks == frames * codebooks) by (nonlinear_arith)
            requires
                fewer + 1 == frames,
        ;
        lemma_flatten_framed(values, fewer, codebooks);
        assert(all.drop_last() =~= framed(values, fewer, codebooks));
        all.lemma_flatten_and_flatten_alt_are_equivalent();
        all.drop_last().lemma_flatten_and_flatten_alt_are_equivalent();
        assert(all.last() == values.subrange(
            (fewer * codebooks) as int,
            (fewer * codebooks + codebooks) as int,
        ));
        assert(values.take((fewer * codebooks) as int) + all.last() =~= values.take(
            (frames * codebooks) as int,
        ));
    }
}

/// Cuts codes into frames.
pub fn split_frames(values: &Vec<i32>, frames: usize, codebooks: usize) -> (r: Vec<Vec<i32>>)
    requires
        frames * codebooks <= values@.len(),
    ensures
        tokens_of(r@) == framed(values@, frames as nat, codebooks as nat),
        r@.len() == frames,
{
    let mut r: Vec<Vec<i32>> = Vec::new();
    let len: usize = values.len();
    let mut start: usize = 0;
    let mut i: usize = 0;
    while i < frames
        invariant
            i <= frames,
            len == values@.len(),
            frames * codebooks <= len,
            start == i * codebooks,
            r@.len() == i,
            tokens_of(r@) == framed(values@, i as nat, codebooks as nat),
        decreases frames - i,
    {
        assert(i * codebooks + codebooks <= frames * codebooks) by (nonlinear_arith)
            requires
                i + 1 <= frames,
                codebooks >= 0,
        ;
        assert((i + 1) * codebooks == i * codebooks + codebooks) by (nonlinear_arith);
        let end: usize = start + codebooks;
        let mut frame: Vec<i32> = Vec::new();
        let mut k: usize = start;
        while k < end
            invariant
                start <= k <= end <= values@.len(),
                frame@ == values@.subrange(start as int, k as int),
            decreases end - k,
        {
            frame.push(values[k]);
            k = k + 1;
            assert(frame@ =~= values@.subrange(start as int, k as int));
        }
        let ghost before = r@;
        r.push(frame);
        i = i + 1;
        start = end;
        assert(tokens_of(r@) =~= framed(values@, i as nat, codebooks as nat)) by {
            assert(tokens_of(r@).drop_last() =~= tokens_of(before));
            assert forall|j: int| 0 <= j < i implies tokens_of(r@)[j] == framed(
                values@,
                i as nat,
                codebooks as nat,
            )[j] by {
                if j < i - 1 {
                    assert(tokens_of(before)[j] == framed(
                        values@,
                        (i - 1) as nat,
                        codebooks as nat,
                    )[j]);
                }
            }
        }
    }
    r
}

/// The first token of each of the frames that codes are cut into.
pub fn first_tokens(values: &Vec<i32>, frames: usize, codebooks: usize) -> (r: Vec<i32>)
    requires
        frames * codebooks <= values@.len(),
    ensures
        r@ == leading_tokens(values@, frames as nat, codebooks as nat),
{
    let mut r: Vec<i32> = Vec::new();
    if codebooks == 0 {
        return r;
    }
    let len: usize = values.len();
    let mut start: usize = 0;
    let mut i: usize = 0;
    while i < frames
        invariant
            i <= frames,
            codebooks > 0,
            len == values@.len(),
            frames * codebooks <= len,
            start == i * codebooks,
            r@ == leading_tokens(values@, i as nat, codebooks as nat),
        decreases frames - i,
    {
        assert(i * codebooks + codebooks <= frames * codebooks) by (nonlinear_arith)
            requires
                i + 1 <= frames,
                codebooks >= 0,
        ;
        assert((i + 1) * codebooks == i * codebooks + codebooks) by (nonlinear_arith);
        r.push(values[start]);
        i = i + 1;
        start = start + codebooks;
        assert(r@ =~= leading_tokens(values@, i as nat, codebooks as nat));
    }
    r
}

/// Puts the tokens of frames one behind the other.
pub fn flatten_frames(frames: &Vec<Vec<i32>>) -> (r: Vec<i32>)
    ensures
        r@ == tokens_of(frames@).flatten(),
{
    let mut r: Vec<i32> = Vec::new();
    let mut i: usize = 0;
    assert(tokens_of(frames@).take(0) =~= Seq::<Seq<i32>>::empty());
    while i < frames.len()
        invariant
            i <= frames@.len(),
            r@ == tokens_of(frames@).take(i as int).flatten(),
        decreases frames@.len() - i,
    {
        let ghost before = r@;
        let frame = &frames[i];
        let mut k: usize = 0;
        while k < frame.len()
            invariant
                k <= frame@.len(),
                r@ == before + frame@.take(k as int),
            decreases frame@.len() - k,
        {
            r.push(frame[k]);
            k = k + 1;
            assert(r@ =~= before + frame@.take(k as int));
        }
        assert(frame@.take(k as int) =~= frame@);
        proof {
            let longer = tokens_of(frames@).take(i + 1);
            assert(longer.drop_last() =~= tokens_of(frames@).take(i as int));
            assert(longer.last() == frame@);
            longer.lemma_flatten_and_flatten_alt_are_equivalent();
            longer.drop_last().lemma_flatten_and_flatten_alt_are_equivalent();
        }
        i = i + 1;
    }
    assert(tokens_of(frames@).take(i as int) =~= tokens_of(frames@));
    r
}

/// How many samples at the start of the audio of `total` frames stand for the first `prefix` of
/// them: their share, rounded down.
pub open spec fn prefix_samples(prefix: nat, samples: nat, total: nat) -> nat {
    if prefix == 0 || total == 0 {
        0
    } else {
        let product = if prefix * samples <= usize::MAX {
            prefix * samples
        } else {
            usize::MAX as nat
        };
        if product / total < samples {
            product / total
        } else {
            samples
        }
    }
}

/// Where every frame has `per_frame` samples and the product fits, cutting the prefix's share off
/// leaves exactly the samples of the other frames.
pub proof fn lemma_cut_leaves_generated(prefix: nat, generated: nat, per_frame: nat)
    requires
        prefix + generated > 0,
        prefix * ((prefix + generated) * per_frame) <= usize::MAX,
    ensures
        ({
            let total = prefix + generated;
            let samples = total * per_frame;
            samples - prefix_samples(prefix, samples, total) == generated * per_frame
        }),
{
    let total = prefix + generated;
    let samples = total * per_frame;
    assert(samples == prefix * per_frame + generated * per_frame) by (nonlinear_arith)
        requires
            samples == (prefix + generated) * per_frame,
    ;
    if prefix > 0 {
        assert((prefix * samples) / total == prefix * per_frame) by (nonlinear_arith)
            requires
                total > 0,
                samples == total * per_frame,
        ;
        assert(generated * per_frame >= 0) by (nonlinear_arith);
    } else {
        assert(prefix * per_frame == 0) by (nonlinear_arith)
            requires
                prefix == 0,
        ;
    }
}

/// How many samples at the start of the audio stand for the prefix.
pub fn prefix_cut(prefix: usize, samples: usize, total: usize) -> (r: usize)
    ensures
        r == prefix_samples(prefix as nat, samples as nat, total as nat),
        r <= samples,
{
    if prefix == 0 || total == 0 {
        return 0;
    }
    let product: usize = match prefix.checked_mul(samples) {
        Some(n) => n,
        None => usize::MAX,
    };
    let share = product / total;
    if share < samples {
        share
    } else {
        samples
    }
}

/// The audio from sample `from` on.
pub fn samples_from(pcm: &Vec<Real32>, from: usize) -> (r: Vec<Real32>)
    requires
        from <= pcm@.len(),
    ensures
        r@ == pcm@.skip(from as int),
{
    let mut r: Vec<Real32> = Vec::new();
    let mut i: usize = from;
    while i < pcm.len()
        invariant
            from <= i <= pcm@.len(),
            r@ == pcm@.subrange(from as int, i as int),
        decreases pcm@.len() - i,
    {
        r.push(pcm[i]);
        i = i + 1;
        assert(r@ =~= pcm@.subrange(from as int, i as int));
    }
    assert(r@ =~= pcm@.skip(from as int));
    r
}

} // verus!
