//! Framing of volume analysis and the smoothing of voice-activity masks.
//!
//! The RMS of each frame, the dB threshold and the interpolating upsample
//! are floating point and are computed over the frames and masks that are
//! decided here.
use vstd::prelude::*;

verus! {

/// Configuration of a volume extractor.
#[derive(Clone, Copy, Debug, PartialEq, Eq, Structural)]
pub struct VolumeExtractorInfo {
    /// Hop size used for analysis.
    pub hop_size: usize,
}

/// Extracts per-frame volumes at a fixed hop size.
#[derive(Clone, Copy, Debug)]
pub struct VolumeExtractor {
    hop_size: usize,
}

/// The frames of a signal of `len` samples at hop size `hop`: frame `n`
/// covers `[n * hop, min((n + 1) * hop, len))`. There are `len / hop + 1`
/// frames (none when `hop` is 0); a frame that starts at or past the end
/// is `None`, and repeats the previous frame's volume.
pub open spec fn frame_at(len: int, hop: int, n: int) -> Option<(usize, usize)> {
    let start = n * hop;
    let end = if (n + 1) * hop < len { (n + 1) * hop } else { len };
    if start >= len { None } else { Some((start as usize, end as usize)) }
}

pub open spec fn frame_count(len: int, hop: int) -> int {
    if hop == 0 { 0 } else { len / hop + 1 }
}

/// Whether sample `n` of a smoothed mask is set: some sample of the mask
/// within four positions of `n` is set.
pub open spec fn dilated_at(mask: Seq<bool>, n: int) -> bool {
    exists|k: int| n - 4 <= k <= n + 4 && 0 <= k < mask.len() && #[trigger] mask[k]
}

impl VolumeExtractor {
    pub closed spec fn hop(&self) -> usize {
        self.hop_size
    }

    /// Create a new extractor configured with the given `hop_size`.
    pub fn new(hop_size: usize) -> (r: Self)
        ensures
            r.hop() == hop_size,
    {
        VolumeExtractor { hop_size }
    }

    /// Return the extractor configuration.
    pub fn get_volume_extractor_info(&self) -> (r: VolumeExtractorInfo)
        ensures
            r.hop_size == self.hop(),
    {
        VolumeExtractorInfo { hop_size: self.hop_size }
    }

    /// The analysis frames of a signal of `audio_len` samples.
    pub fn frame_bounds(&self, audio_len: usize) -> (r: Vec<Option<(usize, usize)>>)
        requires
            self.hop() > 0 ==> (audio_len / self.hop() + 1) * self.hop() <= usize::MAX,
        ensures
            r@.len() == frame_count(audio_len as int, self.hop() as int),
            forall|n: int| 0 <= n < r@.len() ==> #[trigger] r@[n] == frame_at(audio_len as int, self.hop() as int, n),
    {
        let hop = self.hop_size;
        let mut out: Vec<Option<(usize, usize)>> = Vec::new();
        if hop == 0 {
            return out;
        }
        assert(audio_len / hop + 1 <= (audio_len / hop + 1) * hop) by (nonlinear_arith)
            requires hop > 0;
        let n_frames = audio_len / hop + 1;
        let mut n: usize = 0;
        while n < n_frames
            invariant
                hop > 0,
                hop == self.hop(),
                n_frames == audio_len / hop + 1,
                n_frames * hop <= usize::MAX,
                n <= n_frames,
                out@.len() == n,
                forall|m: int| 0 <= m < n ==> #[trigger] out@[m] == frame_at(audio_len as int, hop as int, m),
            decreases n_frames - n,
        {
            assert((n + 1) * hop <= n_frames * hop) by (nonlinear_arith)
                requires n + 1 <= n_frames, hop > 0;
            assert(n * hop <= (n + 1) * hop) by (nonlinear_arith)
                requires hop > 0;
            let start = n * hop;
            let next = (n + 1) * hop;
            let end = if next < audio_len { next } else { audio_len };
            if start >= audio_len {
                out.push(None);
            } else {
                out.push(Some((start, end)));
            }
            n = n + 1;
        }
        out
    }
}

/// Frames are contiguous: each frame starts where the previous one ended,
/// the first starts at 0, and a frame is missing only at the very end.
pub proof fn law_frames_tile_the_signal(len: int, hop: int, n: int)
    requires
        len >= 0,
        hop > 0,
        0 <= n,
        n + 1 < frame_count(len, hop),
    ensures
        frame_at(len, hop, 0) matches Some(f) ==> f.0 == 0,
        frame_at(len, hop, n) matches Some(f) && frame_at(len, hop, n + 1) matches Some(g) ==> f.1 == g.0,
        frame_at(len, hop, n) is Some,
{
    assert((n + 1) * hop <= (len / hop) * hop) by (nonlinear_arith)
        requires n + 1 <= len / hop, hop > 0;
    assert((len / hop) * hop <= len) by (nonlinear_arith)
        requires hop > 0, len >= 0;
    assert(n * hop < (n + 1) * hop) by (nonlinear_arith)
        requires hop > 0;
}

/// Every sample of the signal lies in a frame: sample `i` lies in frame
/// `i / hop`, which is one of the frames.
pub proof fn law_every_sample_in_a_frame(len: int, hop: int, i: int)
    requires
        hop > 0,
        0 <= i < len <= usize::MAX,
    ensures
        i / hop < frame_count(len, hop),
        frame_at(len, hop, i / hop) matches Some(f) && f.0 <= i < f.1,
{
    let n = i / hop;
    assert(n * hop <= i < (n + 1) * hop) by (nonlinear_arith)
        requires n == i / hop, hop > 0, i >= 0;
    assert(n <= len / hop) by (nonlinear_arith)
        requires n == i / hop, hop > 0, 0 <= i < len;
    assert(0 <= n * hop) by (nonlinear_arith)
        requires n >= 0, hop > 0;
}

/// The smoothing radius is four samples: a set sample sets every sample
/// within four positions of it, and a sample with no set sample within
/// four positions stays clear.
pub proof fn law_dilation_radius(mask: Seq<bool>, n: int, k: int)
    requires
        0 <= n < mask.len(),
    ensures
        0 <= k < mask.len() && mask[k] && n - 4 <= k <= n + 4 ==> dilated_at(mask, n),
        (forall|j: int| 0 <= j < mask.len() && n - 4 <= j <= n + 4 ==> !#[trigger] mask[j]) ==> !dilated_at(mask, n),
{
    if 0 <= k < mask.len() && mask[k] && n - 4 <= k <= n + 4 {
        assert(mask[k]);
    }
}

/// Smoothing never clears a set sample.
pub proof fn law_dilation_keeps_set_samples(mask: Seq<bool>, n: int)
    requires
        0 <= n < mask.len(),
        mask[n],
    ensures
        dilated_at(mask, n),
{
    assert(mask[n]);
}

/// Smooths a voice-activity mask: a sample is set when any sample within
/// four positions of it is set (the mask's ends extend outward).
pub fn dilate_mask(mask: &Vec<bool>) -> (r: Vec<bool>)
    ensures
        r@.len() == mask@.len(),
        forall|n: int| 0 <= n < r@.len() ==> #[trigger] r@[n] == dilated_at(mask@, n),
{
    let len = mask.len();
    let mut out: Vec<bool> = Vec::new();
    let mut n: usize = 0;
    while n < len
        invariant
            len == mask@.len(),
            n <= len,
            out@.len() == n,
            forall|m: int| 0 <= m < n ==> #[trigger] out@[m] == dilated_at(mask@, m),
        decreases len - n,
    {
        let lo: usize = if n >= 4 { n - 4 } else { 0 };
        let hi: usize = if len - n > 4 { n + 4 } else { len - 1 };
        let mut found = false;
        let mut k: usize = lo;
        while k <= hi
            invariant
                len == mask@.len(),
                n < len,
                lo == (if n >= 4 { n - 4 } else { 0 }),
                hi == (if n + 4 < len { n + 4 } else { len - 1 }),
                lo <= k <= hi + 1,
                found <==> exists|j: int| lo <= j < k && #[trigger] mask@[j],
            decreases hi + 1 - k,
        {
            if mask[k] {
                found = true;
            }
            k = k + 1;
        }
        assert(found == dilated_at(mask@, n as int)) by {
            if found {
                let j = choose|j: int| lo <= j < k && #[trigger] mask@[j];
                assert(n - 4 <= j <= n + 4 && 0 <= j < mask@.len() && mask@[j]);
            }
            if dilated_at(mask@, n as int) {
                let j = choose|j: int| n - 4 <= j <= n + 4 && 0 <= j < mask@.len() && #[trigger] mask@[j];
                assert(lo <= j < k);
            }
        }
        out.push(found);
        n = n + 1;
    }
    out
}

} // verus!
