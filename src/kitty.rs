use vstd::prelude::*;

verus! {

/// Bytes of base64 text sent in one escape sequence.
pub const CHUNK_LEN: usize = 4096;

/// The standard (padded) base64 encoding of some bytes, as the `base64`
/// crate's `general_purpose::STANDARD` engine writes it.
pub uninterp spec fn base64_standard(data: Seq<u8>) -> Seq<u8>;

/// Relies on base64's `Engine::encode` with the `STANDARD` engine.
#[verifier::external_body]
fn base64_encode(data: &[u8]) -> (r: Vec<u8>)
    ensures
        r@ == base64_standard(data@),
{
    base64::Engine::encode(&base64::engine::general_purpose::STANDARD, data).into_bytes()
}

/// Opening of a graphics escape: `ESC _ G f=100,a=T,` for the first chunk
/// (a PNG, transmitted and shown), `ESC _ G` for the ones after it.
pub open spec fn frame_open(first: bool) -> Seq<u8> {
    if first {
        seq![27u8, 95, 71, 102, 61, 49, 48, 48, 44, 97, 61, 84, 44]
    } else {
        seq![27u8, 95, 71]
    }
}

/// `m=0;` on the last chunk, `m=1;` when more follow.
pub open spec fn more_flag(last: bool) -> Seq<u8> {
    if last {
        seq![109u8, 61, 48, 59]
    } else {
        seq![109u8, 61, 49, 59]
    }
}

/// Closing of a graphics escape: `ESC \`.
pub open spec fn frame_close() -> Seq<u8> {
    seq![27u8, 92]
}

/// Length of the chunk taken from the front of the remaining text.
pub open spec fn chunk_len(remaining: nat) -> nat {
    if remaining <= CHUNK_LEN {
        remaining
    } else {
        CHUNK_LEN as nat
    }
}

/// The escape sequences that carry base64 text to a terminal speaking the
/// kitty graphics protocol, one per chunk of at most 4096 bytes.
pub open spec fn kitty_frames(encoded: Seq<u8>, first: bool) -> Seq<u8>
    decreases encoded.len(),
{
    if encoded.len() == 0 {
        Seq::empty()
    } else {
        let n = chunk_len(encoded.len());
        frame_open(first) + more_flag(encoded.len() <= CHUNK_LEN) + encoded.take(n as int)
            + frame_close() + kitty_frames(encoded.skip(n as int), false)
    }
}

fn push_all(out: &mut Vec<u8>, bytes: &Vec<u8>)
    ensures
        final(out)@ == old(out)@ + bytes@,
{
    let mut i: usize = 0;
    while i < bytes.len()
        invariant
            i <= bytes@.len(),
            out@ == old(out)@ + bytes@.take(i as int),
        decreases bytes@.len() - i,
    {
        out.push(bytes[i]);
        i = i + 1;
        assert(out@ =~= old(out)@ + bytes@.take(i as int));
    }
    assert(bytes@.take(i as int) =~= bytes@);
}

/// Frames base64 text for the kitty graphics protocol.
pub fn kitty_sequence(encoded: &Vec<u8>) -> (r: Vec<u8>)
    ensures
        r@ == kitty_frames(encoded@, true),
{
    let mut out: Vec<u8> = Vec::new();
    let mut pos: usize = 0;
    assert(encoded@.skip(0) =~= encoded@);
    while pos < encoded.len()
        invariant
            pos <= encoded@.len(),
            out@ + kitty_frames(encoded@.skip(pos as int), pos == 0) == kitty_frames(encoded@, true),
        decreases encoded@.len() - pos,
    {
        let rest: usize = encoded.len() - pos;
        let n: usize = if rest <= CHUNK_LEN { rest } else { CHUNK_LEN };
        let ghost before = out@;
        let ghost tail = encoded@.skip(pos as int);
        let open = if pos == 0 {
            vec![27u8, 95, 71, 102, 61, 49, 48, 48, 44, 97, 61, 84, 44]
        } else {
            vec![27u8, 95, 71]
        };
        assert(open@ =~= frame_open(pos == 0));
        push_all(&mut out, &open);
        let flag = if rest <= CHUNK_LEN {
            vec![109u8, 61, 48, 59]
        } else {
            vec![109u8, 61, 49, 59]
        };
        assert(flag@ =~= more_flag(rest <= CHUNK_LEN));
        push_all(&mut out, &flag);
        let ghost mid = out@;
        let end: usize = pos + n;
        let mut j: usize = pos;
        while j < end
            invariant
                end <= encoded@.len(),
                pos <= j <= end,
                out@ == mid + encoded@.subrange(pos as int, j as int),
            decreases end - j,
        {
            out.push(encoded[j]);
            j = j + 1;
            assert(out@ =~= mid + encoded@.subrange(pos as int, j as int));
        }
        let close = vec![27u8, 92];
        assert(close@ =~= frame_close());
        push_all(&mut out, &close);
        proof {
            assert(tail.len() == rest);
            assert(encoded@.subrange(pos as int, pos + n) =~= tail.take(n as int));
            assert(tail.skip(n as int) =~= encoded@.skip(pos + n));
            assert(out@ =~= before + (frame_open(pos == 0) + more_flag(tail.len() <= CHUNK_LEN)
                + tail.take(n as int) + frame_close()));
        }
        pos = pos + n;
    }
    assert(encoded@.skip(pos as int) =~= Seq::<u8>::empty());
    assert(out@ + Seq::<u8>::empty() =~= out@);
    out
}

/// Encodes PNG bytes as base64 and frames them for the kitty graphics
/// protocol.
pub fn kitty_png_sequence(png: &[u8]) -> (r: Vec<u8>)
    ensures
        r@ == kitty_frames(base64_standard(png@), true),
{
    let encoded = base64_encode(png);
    kitty_sequence(&encoded)
}

} // verus!
