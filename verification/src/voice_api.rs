//! The audio requests of the HTTP and Socket.IO front ends: decoding a
//! block, converting it and encoding the result.
use vstd::prelude::*;
use crate::audio_codec::{
    base64_padded_len, base64_standard_decode, base64_encoding, bytes_of, bytes_to_samples,
    decode_base64, encode_base64, samples_of, samples_to_bytes, lemma_bytes_samples_roundtrip,
};
use crate::crossfade::{CrossfadePoint, crossfaded, fade_len, law_crossfade_step};
use crate::voice_changer_manager::{ManagerView, VoiceChangerManager, overlap_of};

verus! {

/// Reply of the HTTP test endpoint: the request's timestamp and the
/// converted block in base64.
#[derive(Debug)]
pub struct TestResponse {
    pub timestamp: u64,
    pub changed_voice_base64: String,
}

/// The bytes a request's base64 buffer carries: its decoding, or nothing
/// when it does not decode.
pub open spec fn payload_bytes(buffer: Seq<char>) -> Seq<u8> {
    match base64_standard_decode(buffer) {
        Some(b) => b,
        None => Seq::<u8>::empty(),
    }
}

/// The manager converts block `input` into `out`, going from state `m` to
/// state `m2`.
pub open spec fn converted<F: Fn(CrossfadePoint) -> i16>(
    blend: F,
    m: ManagerView,
    input: Seq<i16>,
    out: Seq<i16>,
    m2: ManagerView,
) -> bool {
    if m.settings.pass_through {
        out == input && m2 == m
    } else {
        &&& crossfaded(
            blend,
            m.prev_audio,
            input,
            overlap_of(m.settings),
            m.settings.cross_fade_offset_rate_bits,
            m.settings.cross_fade_end_rate_bits,
            out,
            m2.prev_audio,
        )
        &&& m2 == (ManagerView { prev_audio: m2.prev_audio, ..m })
    }
}

proof fn lemma_padded_len_bound(n: int)
    requires
        0 <= n <= usize::MAX / 2,
    ensures
        base64_padded_len(n) <= usize::MAX,
{
    assert((n / 3) * 4 <= 2 * n) by (nonlinear_arith)
        requires n >= 0;
}

/// Converts the block carried by a test request: the base64 buffer is
/// decoded (a buffer that does not decode carries no samples), read as
/// little-endian 16-bit samples, converted by the manager, and the result
/// is encoded back to base64; the timestamp is echoed.
pub fn process_test_request<F: Fn(CrossfadePoint) -> i16>(
    manager: &mut VoiceChangerManager,
    timestamp: u64,
    buffer: &str,
    blend: F,
) -> (r: TestResponse)
    requires
        forall|p: CrossfadePoint| blend.requires((p,)),
        buffer@.len() <= usize::MAX / 2,
    ensures
        r.timestamp == timestamp,
        exists|out: Seq<i16>|
            converted(blend, old(manager)@, samples_of(payload_bytes(buffer@)), out, final(manager)@)
                && r.changed_voice_base64@ == base64_encoding(bytes_of(out))
                && base64_standard_decode(r.changed_voice_base64@) == Some(bytes_of(out)),
{
    let bytes = match decode_base64(buffer) {
        Some(b) => b,
        None => Vec::new(),
    };
    let samples = bytes_to_samples(bytes.as_slice());
    let changed = manager.change_voice(samples.as_slice(), blend);
    let out_bytes = samples_to_bytes(changed.as_slice());
    proof {
        lemma_padded_len_bound(out_bytes@.len() as int);
    }
    let encoded = encode_base64(out_bytes.as_slice());
    assert(bytes@ == payload_bytes(buffer@));
    assert(converted(blend, old(manager)@, samples_of(payload_bytes(buffer@)), changed@, manager@));
    TestResponse { timestamp, changed_voice_base64: encoded }
}

/// What the Socket.IO voice handler answers: the request's timestamp (0
/// when absent) and the converted block as little-endian bytes (an absent
/// attachment is an empty block).
pub fn process_voice_message<F: Fn(CrossfadePoint) -> i16>(
    manager: &mut VoiceChangerManager,
    timestamp: Option<u64>,
    audio: Option<Vec<u8>>,
    blend: F,
) -> (r: (u64, Vec<u8>))
    requires
        forall|p: CrossfadePoint| blend.requires((p,)),
    ensures
        r.0 == match timestamp { Some(t) => t, None => 0 },
        exists|out: Seq<i16>|
            converted(
                blend,
                old(manager)@,
                samples_of(match audio { Some(a) => a@, None => Seq::<u8>::empty() }),
                out,
                final(manager)@,
            ) && r.1@ == bytes_of(out),
{
    let ts = match timestamp {
        Some(t) => t,
        None => 0,
    };
    let bytes = match audio {
        Some(a) => a,
        None => Vec::new(),
    };
    let samples = bytes_to_samples(bytes.as_slice());
    let changed = manager.change_voice(samples.as_slice(), blend);
    let blen = bytes.len();
    assert(samples@.len() == blen / 2);
    assert(changed@.len() == samples@.len());
    assert(2 * changed@.len() <= blen);
    let out_bytes = samples_to_bytes(changed.as_slice());
    assert(converted(
        blend,
        old(manager)@,
        samples_of(match audio { Some(a) => a@, None => Seq::<u8>::empty() }),
        changed@,
        manager@,
    ));
    (ts, out_bytes)
}

/// Without a cross-fade (the kept tail does not match the block's length,
/// or there is no overlap) a block comes out unchanged.
pub proof fn law_unfaded_block_unchanged<F: Fn(CrossfadePoint) -> i16>(
    blend: F,
    m: ManagerView,
    input: Seq<i16>,
    out: Seq<i16>,
    m2: ManagerView,
)
    requires
        converted(blend, m, input, out, m2),
        fade_len(m.prev_audio.len() as int, input.len() as int, overlap_of(m.settings)) == 0,
    ensures
        out == input,
{
    if !m.settings.pass_through {
        assert(out =~= input);
    }
}

/// Two conversions in a row with pass-through off: the manager keeps
/// exactly the last `min(crossFadeOverlapSize, len)` samples of the first
/// output, and a second block whose length differs from that tail's comes
/// out unchanged. The settings stay as they were.
pub proof fn law_second_block_fades_against_first_tail<F: Fn(CrossfadePoint) -> i16>(
    blend: F,
    m0: ManagerView,
    a: Seq<i16>,
    out1: Seq<i16>,
    m1: ManagerView,
    b: Seq<i16>,
    out2: Seq<i16>,
    m2: ManagerView,
)
    requires
        !m0.settings.pass_through,
        converted(blend, m0, a, out1, m1),
        converted(blend, m1, b, out2, m2),
    ensures
        ({
            let overlap = m0.settings.cross_fade_overlap_size as usize;
            let k: int = if (overlap as int) < a.len() { overlap as int } else { a.len() as int };
            &&& m1.settings == m0.settings
            &&& m1.prev_audio == out1.subrange(out1.len() - k, out1.len() as int)
            &&& b.len() != k ==> out2 == b
        }),
{
    law_crossfade_step(
        blend,
        m0.prev_audio,
        a,
        overlap_of(m0.settings),
        m0.settings.cross_fade_offset_rate_bits,
        m0.settings.cross_fade_end_rate_bits,
        out1,
        m1.prev_audio,
    );
    law_crossfade_step(
        blend,
        m1.prev_audio,
        b,
        overlap_of(m1.settings),
        m1.settings.cross_fade_offset_rate_bits,
        m1.settings.cross_fade_end_rate_bits,
        out2,
        m2.prev_audio,
    );
}

/// After start-up, a reset or a cleared buffer, the first block comes out
/// unchanged.
pub proof fn law_first_block_unchanged<F: Fn(CrossfadePoint) -> i16>(
    blend: F,
    m: ManagerView,
    input: Seq<i16>,
    out: Seq<i16>,
    m2: ManagerView,
)
    requires
        converted(blend, m, input, out, m2),
        m.prev_audio.len() == 0,
    ensures
        out == input,
{
    law_unfaded_block_unchanged(blend, m, input, out, m2);
}

/// The test endpoint echoes its payload: when the manager keeps no audio
/// (as after start-up or a reset) and the buffer decodes to an even number
/// of bytes, the reply encodes exactly those bytes.
pub proof fn law_test_endpoint_echoes<F: Fn(CrossfadePoint) -> i16>(
    blend: F,
    m: ManagerView,
    buffer: Seq<char>,
    bytes: Seq<u8>,
    out: Seq<i16>,
    m2: ManagerView,
    reply: Seq<char>,
)
    requires
        m.prev_audio.len() == 0,
        base64_standard_decode(buffer) == Some(bytes),
        bytes.len() % 2 == 0,
        converted(blend, m, samples_of(payload_bytes(buffer)), out, m2),
        reply == base64_encoding(bytes_of(out)),
    ensures
        reply == base64_encoding(bytes),
{
    let input = samples_of(bytes);
    assert(payload_bytes(buffer) == bytes);
    assert(fade_len(m.prev_audio.len() as int, input.len() as int, overlap_of(m.settings)) == 0);
    law_unfaded_block_unchanged(blend, m, input, out, m2);
    lemma_bytes_samples_roundtrip(bytes);
    assert(bytes.subrange(0, 2 * (bytes.len() / 2) as int) =~= bytes);
}

} // verus!
