use vstd::prelude::*;

verus! {

/// Why a received frame could not be read.
#[derive(Debug, PartialEq, Eq)]
pub enum FrameError {
    /// The stream ended before the number of bytes that the length byte announced.
    Truncated,
}

/// The length byte written in front of a payload: its length, truncated to eight bits.
pub open spec fn length_byte(len: nat) -> u8 {
    (len % 256) as u8
}

/// The bytes put on the stream for one payload: the length byte, then the payload.
pub open spec fn framed(payload: Seq<u8>) -> Seq<u8> {
    seq![length_byte(payload.len())] + payload
}

/// What a reader makes of the bytes it received: nothing when the stream is empty,
/// the announced number of bytes after the length byte when they are all there,
/// an error otherwise. Bytes past the announced length are not read.
pub open spec fn unframed(received: Seq<u8>) -> Result<Option<Seq<u8>>, FrameError> {
    if received.len() == 0 {
        Ok(None)
    } else if received.len() - 1 < received[0] {
        Err(FrameError::Truncated)
    } else {
        Ok(Some(received.subrange(1, 1 + received[0] as int)))
    }
}

/// Frames an already serialised value for the stream: one length byte, then the bytes.
/// A payload of 256 bytes or more gets its length truncated to eight bits.
pub fn send_data(payload: &[u8]) -> (r: Vec<u8>)
    ensures
        r@ == framed(payload@),
{
    let len_byte: u8 = (payload.len() % 256) as u8;
    let mut r: Vec<u8> = Vec::new();
    r.push(len_byte);
    let mut i: usize = 0;
    while i < payload.len()
        invariant
            i <= payload.len(),
            r@ == seq![len_byte] + payload@.subrange(0, i as int),
            len_byte == length_byte(payload@.len()),
        decreases payload.len() - i,
    {
        r.push(payload[i]);
        i = i + 1;
        assert(payload@.subrange(0, i as int) == payload@.subrange(0, i - 1).push(payload@[i - 1]));
    }
    assert(payload@.subrange(0, payload@.len() as int) == payload@);
    r
}

/// Reads one frame out of the bytes received on a stream.
pub fn recv_data(received: &[u8]) -> (r: Result<Option<Vec<u8>>, FrameError>)
    ensures
        match (r, unframed(received@)) {
            (Ok(Some(p)), Ok(Some(q))) => p@ == q,
            (Ok(None), Ok(None)) => true,
            (Err(e), Err(f)) => e == f,
            _ => false,
        },
{
    if received.len() == 0 {
        return Ok(None);
    }
    let len: usize = received[0] as usize;
    if received.len() - 1 < len {
        return Err(FrameError::Truncated);
    }
    let mut p: Vec<u8> = Vec::new();
    let mut i: usize = 0;
    while i < len
        invariant
            i <= len,
            len == received@[0],
            1 + len <= received@.len(),
            p@ == received@.subrange(1, 1 + i as int),
        decreases len - i,
    {
        p.push(received[1 + i]);
        i = i + 1;
        assert(received@.subrange(1, 1 + i as int) == received@.subrange(1, i as int).push(received@[i as int]));
    }
    Ok(Some(p))
}

/// A payload shorter than 256 bytes comes back unchanged from its frame.
pub proof fn lemma_frame_round_trip(payload: Seq<u8>)
    requires
        payload.len() < 256,
    ensures
        unframed(framed(payload)) == Ok::<Option<Seq<u8>>, FrameError>(Some(payload)),
{
    let f = framed(payload);
    assert(f[0] == payload.len());
    assert(f.subrange(1, 1 + payload.len() as int) == payload);
}

/// Of a longer payload the reader gets back the first `len % 256` bytes only.
pub proof fn lemma_frame_long_payload(payload: Seq<u8>)
    requires
        payload.len() >= 256,
    ensures
        unframed(framed(payload)) == Ok::<Option<Seq<u8>>, FrameError>(
            Some(payload.subrange(0, (payload.len() % 256) as int)),
        ),
{
    let f = framed(payload);
    let k = (payload.len() % 256) as int;
    assert(f[0] == k);
    assert(f.subrange(1, 1 + k) == payload.subrange(0, k));
}

}
