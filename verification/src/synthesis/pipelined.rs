//! Vocoding chunk by chunk while the transformer goes on generating.
//!
//! Each chunk after the first is decoded behind the last frame of the one before it, and the audio
//! of that frame is crossfaded with the tail of the audio so far.

use vstd::prelude::*;
use crate::real32::Real32;
#[allow(unused_imports)]
use crate::synthesis::frames::{lemma_cut_leaves_generated, prefix_samples};

verus! {

/// The number of frames of the chunk before that a chunk is decoded behind.
pub const OVERLAP_FRAMES: usize = 1;

/// Some codec frames: their codes, frame by frame, and how many they are.
#[derive(Debug)]
pub struct VocoderChunk {
    pub codes: Vec<i32>,
    pub n_frames: usize,
}

impl VocoderChunk {
    /// Whether the codes fill the frames. Where there is no frame, the codes are not looked at.
    pub open spec fn fills(&self, n_codebooks: nat) -> bool {
        self.n_frames > 0 ==> self.codes@.len() == self.n_frames * n_codebooks
    }
}

/// The number of vocoder threads beside the transformer: half of all, and at least one.
pub fn vocoder_threads(thread_count: usize) -> (r: usize)
    ensures
        r == (if thread_count < 2 {
            1
        } else {
            thread_count / 2
        }),
{
    let half = thread_count / 2;
    if half > 1 {
        half
    } else {
        1
    }
}

/// How many samples of a chunk's audio stand for the frames that it was decoded behind: their
/// share of the audio, but no more than there is to crossfade with.
pub open spec fn overlap_samples(context: nat, n_frames: nat, audio: nat, so_far: nat) -> nat {
    if context > 0 && so_far > 0 {
        let share = (audio * context) / (context + n_frames);
        if share < so_far {
            share
        } else {
            so_far
        }
    } else {
        0
    }
}

/// The audio so far with its tail replaced by the crossfade, and the rest of the new audio behind.
pub open spec fn spliced(so_far: Seq<Real32>, crossfade: Seq<Real32>, audio: Seq<Real32>) -> Seq<
    Real32,
> {
    so_far.take(so_far.len() - crossfade.len()) + crossfade + audio.skip(crossfade.len() as int)
}

/// The vocoder's side of a pipelined synthesis: the audio so far and the chunk decoded last.
#[derive(Debug)]
pub struct VocoderWorker {
    n_codebooks: usize,
    pcm: Vec<Real32>,
    prev_codes: Vec<i32>,
    prev_n_frames: usize,
}

impl VocoderWorker {
    /// The number of codes of a frame.
    pub closed spec fn n_codebooks(&self) -> nat {
        self.n_codebooks as nat
    }

    /// The audio so far.
    pub closed spec fn pcm(&self) -> Seq<Real32> {
        self.pcm@
    }

    /// The codes of the chunk decoded last.
    pub closed spec fn prev_codes(&self) -> Seq<i32> {
        self.prev_codes@
    }

    /// The number of frames of the chunk decoded last, or none before the first.
    pub closed spec fn prev_n_frames(&self) -> nat {
        self.prev_n_frames as nat
    }

    /// Whether the codes of the chunk decoded last fill its frames.
    pub open spec fn wf(&self) -> bool {
        self.prev_n_frames() > 0 ==> self.prev_codes().len() == self.prev_n_frames()
            * self.n_codebooks()
    }

    /// How many frames the next chunk is decoded behind.
    pub open spec fn spec_context_frames(&self) -> nat {
        if OVERLAP_FRAMES < self.prev_n_frames() {
            OVERLAP_FRAMES as nat
        } else {
            self.prev_n_frames()
        }
    }

    /// The codes of the frames that the next chunk is decoded behind.
    pub open spec fn context(&self) -> Seq<i32> {
        self.prev_codes().skip(
            self.prev_codes().len() - self.spec_context_frames() * self.n_codebooks(),
        )
    }

    /// A worker that has decoded nothing.
    pub fn new(n_codebooks: usize) -> (r: VocoderWorker)
        ensures
            r.wf(),
            r.n_codebooks() == n_codebooks,
            r.pcm() == Seq::<Real32>::empty(),
            r.prev_n_frames() == 0,
    {
        VocoderWorker { n_codebooks, pcm: Vec::new(), prev_codes: Vec::new(), prev_n_frames: 0 }
    }

    /// How many frames the next chunk is decoded behind.
    pub fn context_frames(&self) -> (r: usize)
        ensures
            r == self.spec_context_frames(),
            r <= OVERLAP_FRAMES,
    {
        if OVERLAP_FRAMES < self.prev_n_frames {
            OVERLAP_FRAMES
        } else {
            self.prev_n_frames
        }
    }

    /// What is handed to the vocoder for a chunk: its frames behind those of the context.
    pub fn request(&self, chunk: &VocoderChunk) -> (r: VocoderChunk)
        requires
            self.wf(),
            chunk.n_frames + OVERLAP_FRAMES <= usize::MAX,
        ensures
            r.n_frames == self.spec_context_frames() + chunk.n_frames,
            self.spec_context_frames() == 0 ==> r.codes@ == chunk.codes@,
            self.spec_context_frames() > 0 ==> r.codes@ == self.context() + chunk.codes@,
            r.fills(self.n_codebooks()) && r.n_frames > 0 ==> chunk.fills(self.n_codebooks()),
    {
        let context = self.context_frames();
        let mut codes: Vec<i32> = Vec::new();
        if context > 0 {
            proof {
                assert(self.prev_n_frames * self.n_codebooks >= context * self.n_codebooks)
                    by (nonlinear_arith)
                    requires
                        self.prev_n_frames >= context,
                        self.n_codebooks >= 0,
                ;
                assert(context * self.n_codebooks == self.n_codebooks) by (nonlinear_arith)
                    requires
                        context == 1,
                ;
            }
            let start: usize = self.prev_codes.len() - self.n_codebooks;
            let mut i: usize = start;
            while i < self.prev_codes.len()
                invariant
                    start <= i <= self.prev_codes@.len(),
                    codes@ == self.prev_codes@.subrange(start as int, i as int),
                decreases self.prev_codes@.len() - i,
            {
                codes.push(self.prev_codes[i]);
                i = i + 1;
                assert(codes@ == self.prev_codes@.subrange(start as int, i as int));
            }
            assert(codes@ == self.context());
            assert(codes@.len() == self.n_codebooks);
            assert((context + chunk.n_frames) * self.n_codebooks == self.n_codebooks
                + chunk.n_frames * self.n_codebooks) by (nonlinear_arith)
                requires
                    context == 1,
            ;
        }
        let ghost before = codes@;
        let mut k: usize = 0;
        while k < chunk.codes.len()
            invariant
                k <= chunk.codes@.len(),
                codes@ == before + chunk.codes@.subrange(0, k as int),
            decreases chunk.codes@.len() - k,
        {
            codes.push(chunk.codes[k]);
            k = k + 1;
            assert(codes@ == before + chunk.codes@.subrange(0, k as int));
        }
        assert(codes@ == before + chunk.codes@);
        VocoderChunk { codes, n_frames: context + chunk.n_frames }
    }

    /// How many samples of the chunk's audio are crossfaded with the tail of the audio so far.
    pub fn overlap(&self, n_frames: usize, audio_len: usize) -> (r: usize)
        requires
            n_frames + OVERLAP_FRAMES <= usize::MAX,
        ensures
            r == overlap_samples(
                self.spec_context_frames(),
                n_frames as nat,
                audio_len as nat,
                self.pcm().len(),
            ),
            r <= self.pcm().len(),
            r <= audio_len,
    {
        let context = self.context_frames();
        if context > 0 && self.pcm.len() > 0 {
            assert(audio_len * context == audio_len) by (nonlinear_arith)
                requires
                    context == 1,
            ;
            let share: usize = audio_len / (context + n_frames);
            assert(share <= audio_len) by (nonlinear_arith)
                requires
                    share == audio_len as int / (context + n_frames),
                    context + n_frames >= 1,
                    audio_len >= 0,
            ;
            if share < self.pcm.len() {
                share
            } else {
                self.pcm.len()
            }
        } else {
            0
        }
    }

    /// The tail of the audio so far that is crossfaded, `overlap` samples long.
    pub fn tail(&self, overlap: usize) -> (r: Vec<Real32>)
        requires
            overlap <= self.pcm().len(),
        ensures
            r@ == self.pcm().skip(self.pcm().len() - overlap),
    {
        let mut r: Vec<Real32> = Vec::new();
        let start: usize = self.pcm.len() - overlap;
        let mut i: usize = start;
        while i < self.pcm.len()
            invariant
                start <= i <= self.pcm@.len(),
                r@ == self.pcm@.subrange(start as int, i as int),
            decreases self.pcm@.len() - i,
        {
            r.push(self.pcm[i]);
            i = i + 1;
            assert(r@ == self.pcm@.subrange(start as int, i as int));
        }
        assert(r@ == self.pcm@.skip(start as int));
        r
    }

    /// Takes up the audio of a chunk, whose overlap with the audio so far has been crossfaded.
    pub fn absorb(&mut self, chunk: VocoderChunk, audio: &Vec<Real32>, crossfade: &Vec<Real32>)
        requires
            old(self).wf(),
            chunk.fills(old(self).n_codebooks()),
            crossfade@.len() == overlap_samples(
                old(self).spec_context_frames(),
                chunk.n_frames as nat,
                audio@.len(),
                old(self).pcm().len(),
            ),
        ensures
            final(self).wf(),
            final(self).n_codebooks() == old(self).n_codebooks(),
            final(self).pcm() == spliced(old(self).pcm(), crossfade@, audio@),
            final(self).prev_codes() == chunk.codes@,
            final(self).prev_n_frames() == chunk.n_frames,
    {
        let ghost before = self.pcm@;
        proof {
            lemma_overlap_bounds(
                self.spec_context_frames(),
                chunk.n_frames as nat,
                audio@.len(),
                before.len(),
            );
        }
        let total: usize = self.pcm.len();
        let start: usize = total - crossfade.len();
        let mut i: usize = 0;
        while i < crossfade.len()
            invariant
                i <= crossfade@.len(),
                total == before.len(),
                start + crossfade@.len() == before.len(),
                self.pcm@ == before.take(start as int) + crossfade@.take(i as int) + before.skip(
                    start + i,
                ),
                self.n_codebooks() == old(self).n_codebooks(),
            decreases crossfade@.len() - i,
        {
            self.pcm.set(start + i, crossfade[i]);
            i = i + 1;
            assert(self.pcm@ =~= before.take(start as int) + crossfade@.take(i as int)
                + before.skip(start + i));
        }
        assert(self.pcm@ =~= before.take(start as int) + crossfade@);
        let ghost kept = self.pcm@;
        let mut k: usize = crossfade.len();
        while k < audio.len()
            invariant
                crossfade@.len() <= k <= audio@.len(),
                self.pcm@ == kept + audio@.subrange(crossfade@.len() as int, k as int),
                self.n_codebooks() == old(self).n_codebooks(),
            decreases audio@.len() - k,
        {
            self.pcm.push(audio[k]);
            k = k + 1;
            assert(self.pcm@ =~= kept + audio@.subrange(crossfade@.len() as int, k as int));
        }
        assert(self.pcm@ =~= spliced(before, crossfade@, audio@));
        self.prev_n_frames = chunk.n_frames;
        self.prev_codes = chunk.codes;
    }

    /// The audio of all chunks.
    pub fn into_pcm(self) -> (r: Vec<Real32>)
        ensures
            r@ == self.pcm(),
    {
        self.pcm
    }
}

proof fn lemma_overlap_bounds(context: nat, n_frames: nat, audio: nat, so_far: nat)
    requires
        context <= 1,
    ensures
        overlap_samples(context, n_frames, audio, so_far) <= audio,
        overlap_samples(context, n_frames, audio, so_far) <= so_far,
{
    if context > 0 && so_far > 0 {
        assert((audio * context) / (context + n_frames) <= audio) by (nonlinear_arith)
            requires
                context == 1,
        ;
    }
}

/// One chunk adds the samples of its own frames: with `per_frame` samples to a frame, what it was
/// decoded behind adds nothing.
pub proof fn lemma_chunk_adds_its_frames(
    per_frame: nat,
    context: nat,
    n_frames: nat,
    so_far: Seq<Real32>,
    crossfade: Seq<Real32>,
    audio: Seq<Real32>,
)
    requires
        context <= OVERLAP_FRAMES,
        audio.len() == per_frame * (context + n_frames),
        so_far.len() >= per_frame * context,
        crossfade.len() == overlap_samples(context, n_frames, audio.len(), so_far.len()),
    ensures
        spliced(so_far, crossfade, audio).len() == so_far.len() + per_frame * n_frames,
{
    lemma_overlap_bounds(context, n_frames, audio.len(), so_far.len());
    lemma_overlap_is_context(per_frame, context, n_frames, so_far.len());
    assert(per_frame * (context + n_frames) == per_frame * context + per_frame * n_frames)
        by (nonlinear_arith);
}

proof fn lemma_overlap_is_context(per_frame: nat, context: nat, n_frames: nat, so_far: nat)
    requires
        context <= 1,
        so_far >= per_frame * context,
    ensures
        overlap_samples(context, n_frames, per_frame * (context + n_frames), so_far) == per_frame
            * context,
{
    if context == 1 {
        let whole = context + n_frames;
        assert((per_frame * whole) * context == per_frame * whole) by (nonlinear_arith)
            requires
                context == 1,
        ;
        assert((per_frame * whole) / whole == per_frame) by (nonlinear_arith)
            requires
                whole > 0,
        ;
    } else {
        assert(per_frame * context == 0) by (nonlinear_arith)
            requires
                context == 0,
        ;
    }
}

/// How many samples a worker holds after chunks of the given numbers of frames, where the vocoder
/// makes `per_frame` samples of a frame.
pub open spec fn piped_samples(per_frame: nat, chunks: Seq<nat>) -> nat
    decreases chunks.len(),
{
    if chunks.len() == 0 {
        0
    } else {
        let so_far = piped_samples(per_frame, chunks.drop_last());
        let context = if chunks.len() > 1 && chunks[chunks.len() - 2] > 0 {
            OVERLAP_FRAMES as nat
        } else {
            0
        };
        let audio = per_frame * (context + chunks.last());
        (so_far + audio - overlap_samples(context, chunks.last(), audio, so_far)) as nat
    }
}

/// The number of frames of some chunks.
pub open spec fn total_frames(chunks: Seq<nat>) -> nat
    decreases chunks.len(),
{
    if chunks.len() == 0 {
        0
    } else {
        total_frames(chunks.drop_last()) + chunks.last()
    }
}

/// Vocoding chunk by chunk makes as many samples as vocoding all frames at once.
pub proof fn lemma_pipelining_keeps_length(per_frame: nat, chunks: Seq<nat>)
    ensures
        piped_samples(per_frame, chunks) == per_frame * total_frames(chunks),
    decreases chunks.len(),
{
    if chunks.len() > 0 {
        let rest = chunks.drop_last();
        let last = chunks.last();
        lemma_pipelining_keeps_length(per_frame, rest);
        let so_far = piped_samples(per_frame, rest);
        let context: nat = if chunks.len() > 1 && chunks[chunks.len() - 2] > 0 {
            1
        } else {
            0
        };
        assert(so_far >= per_frame * context) by {
            if context == 1 {
                assert(rest.last() == chunks[chunks.len() - 2]);
                assert(total_frames(rest) >= 1);
                assert(per_frame * total_frames(rest) >= per_frame * 1) by (nonlinear_arith)
                    requires
                        total_frames(rest) >= 1,
                ;
            } else {
                assert(per_frame * 0 == 0);
            }
        }
        lemma_overlap_is_context(per_frame, context, last, so_far);
        assert(per_frame * (context + last) == per_frame * context + per_frame * last)
            by (nonlinear_arith);
        assert(per_frame * (total_frames(rest) + last) == per_frame * total_frames(rest) + per_frame
            * last) by (nonlinear_arith);
    } else {
        assert(per_frame * 0 == 0);
    }
}

/// A crossfade changes nothing of the audio so far but its tail.
pub proof fn lemma_splice_keeps_earlier(
    so_far: Seq<Real32>,
    crossfade: Seq<Real32>,
    audio: Seq<Real32>,
    i: int,
)
    requires
        crossfade.len() <= so_far.len(),
        crossfade.len() <= audio.len(),
        0 <= i < so_far.len() - crossfade.len(),
    ensures
        spliced(so_far, crossfade, audio)[i] == so_far[i],
{
}

/// Absorbing a chunk takes a worker from one count of [`piped_samples`] to the next.
pub proof fn lemma_absorb_follows_count(
    per_frame: nat,
    chunks: Seq<nat>,
    n_frames: nat,
    so_far: Seq<Real32>,
    crossfade: Seq<Real32>,
    audio: Seq<Real32>,
)
    requires
        so_far.len() == piped_samples(per_frame, chunks),
        ({
            let context = if chunks.len() > 0 && chunks.last() > 0 {
                OVERLAP_FRAMES as nat
            } else {
                0
            };
            &&& audio.len() == per_frame * (context + n_frames)
            &&& crossfade.len() == overlap_samples(context, n_frames, audio.len(), so_far.len())
        }),
    ensures
        spliced(so_far, crossfade, audio).len() == piped_samples(per_frame, chunks.push(n_frames)),
{
    let context: nat = if chunks.len() > 0 && chunks.last() > 0 {
        1
    } else {
        0
    };
    assert(chunks.push(n_frames).drop_last() =~= chunks);
    lemma_overlap_bounds(context, n_frames, audio.len(), so_far.len());
}

proof fn lemma_total_behind(first: nat, chunks: Seq<nat>)
    ensures
        total_frames(seq![first] + chunks) == first + total_frames(chunks),
    decreases chunks.len(),
{
    let all = seq![first] + chunks;
    if chunks.len() == 0 {
        assert(all.drop_last() =~= Seq::<nat>::empty());
        assert(total_frames(all.drop_last()) == 0);
    } else {
        assert(all.drop_last() =~= seq![first] + chunks.drop_last());
        lemma_total_behind(first, chunks.drop_last());
    }
}

/// A pipelined synthesis with a reference take of `prefix` frames ends with as many samples as its
/// generated frames have, `per_frame` to each, just as one that vocodes all frames at once.
pub proof fn lemma_pipelined_result_len(per_frame: nat, prefix: nat, chunks: Seq<nat>)
    requires
        prefix > 0,
        prefix * ((prefix + total_frames(chunks)) * per_frame) <= usize::MAX,
    ensures
        ({
            let samples = piped_samples(per_frame, seq![prefix] + chunks);
            let total = prefix + total_frames(chunks);
            &&& samples == total * per_frame
            &&& samples - prefix_samples(prefix, samples, total) == total_frames(chunks) * per_frame
        }),
{
    let total = prefix + total_frames(chunks);
    lemma_pipelining_keeps_length(per_frame, seq![prefix] + chunks);
    lemma_total_behind(prefix, chunks);
    assert(per_frame * total == total * per_frame) by (nonlinear_arith);
    lemma_cut_leaves_generated(prefix, total_frames(chunks), per_frame);
}

} // verus!
