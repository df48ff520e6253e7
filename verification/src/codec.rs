//! The wire envelope: how a wire message is laid out in bytes.
//!
//! The first byte tells the kind of the message: 1 for a protocol message,
//! whose payload follows as it is, and 2 for a view update. A view is its
//! number of heads as a compact length, the heads, 32 bytes each, and the
//! finalized number, 4 bytes, least significant first.

use crate::primitives::BlockHash;
use crate::view::{View, ViewModel};
use crate::wire::{WireMessage, WireMessageModel};
use vstd::prelude::*;
use vstd::view::View as _;

verus! {

/// Why bytes are not the encoding of a wire message.
#[derive(Clone, Copy, Debug, PartialEq, Eq, Structural)]
pub enum DecodeError {
    /// The bytes end before the message is complete.
    Truncated,
    /// The first byte names no kind of message.
    UnknownVariant,
    /// The number of heads is not written in its shortest form, or is too
    /// large for 32 bits.
    LengthOutOfRange,
}

/// The two bytes of `value`, least significant first.
pub open spec fn le2(value: int) -> Seq<u8> {
    seq![(value % 256) as u8, (value / 256 % 256) as u8]
}

/// The four bytes of `value`, least significant first.
pub open spec fn le4(value: int) -> Seq<u8> {
    seq![
        (value % 256) as u8,
        (value / 256 % 256) as u8,
        (value / 65536 % 256) as u8,
        (value / 16777216 % 256) as u8,
    ]
}

/// The number whose bytes, least significant first, are the first two of `bytes`.
pub open spec fn from_le2(bytes: Seq<u8>) -> int {
    bytes[0] + 256 * bytes[1]
}

/// The number whose bytes, least significant first, are the first four of `bytes`.
pub open spec fn from_le4(bytes: Seq<u8>) -> int {
    bytes[0] + 256 * bytes[1] + 65536 * bytes[2] + 16777216 * bytes[3]
}

/// The compact encoding of a length: one, two, four or five bytes,
/// the shortest that holds the value, whose two lowest bits tell which.
pub open spec fn compact(value: u32) -> Seq<u8> {
    if value < 64 {
        seq![(value * 4) as u8]
    } else if value < 16384 {
        le2(value * 4 + 1)
    } else if value < 1073741824 {
        le4(value * 4 + 2)
    } else {
        seq![3u8] + le4(value as int)
    }
}

/// The length that `bytes` start with, and the number of bytes it takes.
pub open spec fn parse_compact(bytes: Seq<u8>) -> Result<(u32, nat), DecodeError> {
    if bytes.len() == 0 {
        Err(DecodeError::Truncated)
    } else if bytes[0] % 4 == 0 {
        Ok(((bytes[0] / 4) as u32, 1))
    } else if bytes[0] % 4 == 1 {
        if bytes.len() < 2 {
            Err(DecodeError::Truncated)
        } else if from_le2(bytes) / 4 > 63 {
            Ok(((from_le2(bytes) / 4) as u32, 2))
        } else {
            Err(DecodeError::LengthOutOfRange)
        }
    } else if bytes[0] % 4 == 2 {
        if bytes.len() < 4 {
            Err(DecodeError::Truncated)
        } else if from_le4(bytes) / 4 > 16383 {
            Ok(((from_le4(bytes) / 4) as u32, 4))
        } else {
            Err(DecodeError::LengthOutOfRange)
        }
    } else if bytes[0] != 3 {
        Err(DecodeError::LengthOutOfRange)
    } else if bytes.len() < 5 {
        Err(DecodeError::Truncated)
    } else if from_le4(bytes.skip(1)) > 1073741823 {
        Ok((from_le4(bytes.skip(1)) as u32, 5))
    } else {
        Err(DecodeError::LengthOutOfRange)
    }
}

/// The bytes of `heads`, one head after the other.
pub open spec fn hashes_bytes(heads: Seq<BlockHash>) -> Seq<u8>
    decreases heads.len(),
{
    if heads.len() == 0 {
        Seq::empty()
    } else {
        hashes_bytes(heads.drop_last()) + heads.last().0@
    }
}

/// The hash whose bytes are the 32 bytes of `bytes` from `offset` on.
pub open spec fn hash_at(bytes: Seq<u8>, offset: int) -> BlockHash {
    choose|hash: BlockHash| hash.0@ == bytes.subrange(offset, offset + 32)
}

/// The `count` hashes that `bytes` start with.
pub open spec fn parse_hashes(bytes: Seq<u8>, count: nat) -> Seq<BlockHash> {
    Seq::new(count, |k: int| hash_at(bytes, 32 * k))
}

/// The encoding of `view`, which has at most `u32::MAX` heads.
pub open spec fn encode_view(view: ViewModel) -> Seq<u8> {
    compact(view.heads.len() as u32) + hashes_bytes(view.heads) + le4(
        view.finalized_number as int,
    )
}

/// The view that `bytes` start with, and the number of bytes it takes.
pub open spec fn parse_view(bytes: Seq<u8>) -> Result<(ViewModel, nat), DecodeError> {
    match parse_compact(bytes) {
        Err(error) => Err(error),
        Ok((count, used)) => if bytes.len() - used < 32 * count + 4 {
            Err(DecodeError::Truncated)
        } else {
            Ok(
                (
                    ViewModel {
                        heads: parse_hashes(bytes.skip(used as int), count as nat),
                        finalized_number: from_le4(bytes.skip(used + 32 * count)) as u32,
                    },
                    (used + 32 * count + 4) as nat,
                ),
            )
        },
    }
}

/// The encoding of `message`, whose payload, if it has one, is given in bytes.
pub open spec fn encode_wire(message: WireMessageModel<Seq<u8>>) -> Seq<u8> {
    match message {
        WireMessageModel::ProtocolMessage(payload) => seq![1u8] + payload,
        WireMessageModel::ViewUpdate(view) => seq![2u8] + encode_view(view),
    }
}

/// The message that `bytes` encode. A protocol message takes all the bytes
/// after the first as its payload; after a view update further bytes may
/// follow, which are ignored.
pub open spec fn decode_wire(bytes: Seq<u8>) -> Result<WireMessageModel<Seq<u8>>, DecodeError> {
    if bytes.len() == 0 {
        Err(DecodeError::Truncated)
    } else if bytes[0] == 1 {
        Ok(WireMessageModel::ProtocolMessage(bytes.skip(1)))
    } else if bytes[0] == 2 {
        match parse_view(bytes.skip(1)) {
            Ok((view, _)) => Ok(WireMessageModel::ViewUpdate(view)),
            Err(error) => Err(error),
        }
    } else {
        Err(DecodeError::UnknownVariant)
    }
}

/// A message with a payload of bytes, the payload taken as a sequence.
pub open spec fn framed(message: WireMessageModel<Vec<u8>>) -> WireMessageModel<Seq<u8>> {
    match message {
        WireMessageModel::ProtocolMessage(payload) => WireMessageModel::ProtocolMessage(payload@),
        WireMessageModel::ViewUpdate(view) => WireMessageModel::ViewUpdate(view),
    }
}

/// Appends the four bytes of `value`, least significant first.
fn push_le4(out: &mut Vec<u8>, value: u32)
    ensures
        final(out)@ == old(out)@ + le4(value as int),
{
    out.push((value % 256) as u8);
    out.push((value / 256 % 256) as u8);
    out.push((value / 65536 % 256) as u8);
    out.push((value / 16777216 % 256) as u8);
    assert(out@ =~= old(out)@ + le4(value as int));
}

/// Appends the compact encoding of `value`.
fn push_compact(out: &mut Vec<u8>, value: u32)
    ensures
        final(out)@ == old(out)@ + compact(value),
{
    if value < 64 {
        out.push((value * 4) as u8);
    } else if value < 16384 {
        let tagged: u32 = value * 4 + 1;
        out.push((tagged % 256) as u8);
        out.push((tagged / 256 % 256) as u8);
    } else if value < 1073741824 {
        push_le4(out, value * 4 + 2);
    } else {
        out.push(3u8);
        push_le4(out, value);
    }
    assert(out@ =~= old(out)@ + compact(value));
}

/// Appends the encoding of `view` to `out`.
fn push_view(out: &mut Vec<u8>, view: &View)
    requires
        view@.heads.len() <= u32::MAX,
    ensures
        final(out)@ == old(out)@ + encode_view(view@),
{
    push_compact(out, view.heads.len() as u32);
    let ghost start = out@;
    let mut i: usize = 0;
    assert(view.heads@.take(0) =~= Seq::empty());
    assert(out@ =~= start + hashes_bytes(view.heads@.take(0)));
    while i < view.heads.len()
        invariant
            i <= view.heads.len(),
            out@ == start + hashes_bytes(view.heads@.take(i as int)),
        decreases view.heads.len() - i,
    {
        let ghost before = out@;
        let head: BlockHash = view.heads[i];
        let mut j: usize = 0;
        while j < 32
            invariant
                j <= 32,
                out@ == before + head.0@.take(j as int),
            decreases 32 - j,
        {
            out.push(head.0[j]);
            assert(head.0@.take(j + 1) =~= head.0@.take(j as int).push(head.0@[j as int]));
            j += 1;
        }
        assert(head.0@.take(32) =~= head.0@);
        assert(view.heads@.take(i + 1).drop_last() =~= view.heads@.take(i as int));
        assert(view.heads@.take(i + 1).last() == head);
        assert(out@ =~= start + hashes_bytes(view.heads@.take(i + 1)));
        i += 1;
    }
    assert(view.heads@.take(view.heads@.len() as int) =~= view.heads@);
    push_le4(out, view.finalized_number);
    assert(out@ =~= old(out)@ + encode_view(view@));
}

/// The bytes that announce `view` to a peer: those of a view update.
pub fn encode_view_update(view: &View) -> (bytes: Vec<u8>)
    requires
        view@.heads.len() <= u32::MAX,
    ensures
        bytes@ == encode_wire(WireMessageModel::ViewUpdate(view@)),
{
    let mut bytes: Vec<u8> = Vec::new();
    bytes.push(2u8);
    push_view(&mut bytes, view);
    assert(bytes@ =~= seq![2u8] + encode_view(view@));
    bytes
}

/// The bytes that carry a protocol message whose own encoding is `payload`.
pub fn encode_protocol_message(payload: &[u8]) -> (bytes: Vec<u8>)
    ensures
        bytes@ == encode_wire(WireMessageModel::ProtocolMessage(payload@)),
{
    let mut bytes: Vec<u8> = Vec::new();
    bytes.push(1u8);
    let mut i: usize = 0;
    while i < payload.len()
        invariant
            i <= payload.len(),
            bytes@ == seq![1u8] + payload@.take(i as int),
        decreases payload.len() - i,
    {
        bytes.push(payload[i]);
        assert(payload@.take(i + 1) =~= payload@.take(i as int).push(payload@[i as int]));
        i += 1;
    }
    assert(payload@.take(payload@.len() as int) =~= payload@);
    bytes
}

/// The bytes of `message`, whose payload, if it has one, is encoded already.
pub fn encode(message: &WireMessage<Vec<u8>>) -> (bytes: Vec<u8>)
    requires
        message@ matches WireMessageModel::ViewUpdate(view) ==> view.heads.len() <= u32::MAX,
    ensures
        bytes@ == encode_wire(framed(message@)),
{
    match message {
        WireMessage::ProtocolMessage(payload) => encode_protocol_message(payload.as_slice()),
        WireMessage::ViewUpdate(view) => encode_view_update(view),
    }
}

/// Reads the compact length that `bytes` start with.
fn read_compact(bytes: &[u8]) -> (parsed: Result<(u32, usize), DecodeError>)
    ensures
        match parsed {
            Ok((value, used)) => parse_compact(bytes@) == Ok::<(u32, nat), DecodeError>(
                (value, used as nat),
            ) && used <= bytes@.len(),
            Err(error) => parse_compact(bytes@) == Err::<(u32, nat), DecodeError>(error),
        },
{
    if bytes.len() == 0 {
        return Err(DecodeError::Truncated);
    }
    let prefix: u8 = bytes[0];
    if prefix % 4 == 0 {
        let value: u32 = (prefix / 4) as u32;
        Ok((value, 1))
    } else if prefix % 4 == 1 {
        if bytes.len() < 2 {
            return Err(DecodeError::Truncated);
        }
        let tagged: u32 = prefix as u32 + 256 * (bytes[1] as u32);
        let value: u32 = tagged / 4;
        if value > 63 {
            Ok((value, 2))
        } else {
            Err(DecodeError::LengthOutOfRange)
        }
    } else if prefix % 4 == 2 {
        if bytes.len() < 4 {
            return Err(DecodeError::Truncated);
        }
        let tagged: u32 = read_le4(bytes, 0);
        let value: u32 = tagged / 4;
        assert(bytes@.skip(0) =~= bytes@);
        if value > 16383 {
            Ok((value, 4))
        } else {
            Err(DecodeError::LengthOutOfRange)
        }
    } else if prefix != 3 {
        Err(DecodeError::LengthOutOfRange)
    } else {
        if bytes.len() < 5 {
            return Err(DecodeError::Truncated);
        }
        let value: u32 = read_le4(bytes, 1);
        if value > 1073741823 {
            Ok((value, 5))
        } else {
            Err(DecodeError::LengthOutOfRange)
        }
    }
}

/// Reads the number whose four bytes, least significant first, stand at
/// `offset` in `bytes`.
fn read_le4(bytes: &[u8], offset: usize) -> (value: u32)
    requires
        offset + 4 <= bytes@.len(),
    ensures
        value == from_le4(bytes@.skip(offset as int)),
{
    let b0: u32 = bytes[offset] as u32;
    let b1: u32 = bytes[offset + 1] as u32;
    let b2: u32 = bytes[offset + 2] as u32;
    let b3: u32 = bytes[offset + 3] as u32;
    b0 + 256 * b1 + 65536 * b2 + 16777216 * b3
}

/// Reads the hash whose 32 bytes stand at `offset` in `bytes`.
fn read_hash(bytes: &[u8], offset: usize) -> (hash: BlockHash)
    requires
        offset + 32 <= bytes@.len(),
    ensures
        hash == hash_at(bytes@, offset as int),
{
    let total: usize = bytes.len();
    let mut array: [u8; 32] = [0u8;32];
    let mut j: usize = 0;
    while j < 32
        invariant
            j <= 32,
            offset + 32 <= total == bytes@.len(),
            forall|k: int| 0 <= k < j ==> array@[k] == bytes@[offset + k],
        decreases 32 - j,
    {
        array[j] = bytes[offset + j];
        j += 1;
    }
    let hash = BlockHash(array);
    proof {
        assert(hash.0@ =~= bytes@.subrange(offset as int, offset + 32));
        let chosen = hash_at(bytes@, offset as int);
        assert(chosen.0@ == bytes@.subrange(offset as int, offset + 32));
        assert(chosen.0 =~= hash.0);
    }
    hash
}

/// Reads the view that `bytes` start with.
fn read_view(bytes: &[u8]) -> (parsed: Result<View, DecodeError>)
    ensures
        match parsed {
            Ok(view) => parse_view(bytes@) matches Ok((model, _)) && model == view@,
            Err(error) => parse_view(bytes@) == Err::<(ViewModel, nat), DecodeError>(error),
        },
{
    let (count, used) = match read_compact(bytes) {
        Ok(parsed) => parsed,
        Err(error) => {
            return Err(error);
        },
    };
    let total: usize = bytes.len();
    let left: usize = total - used;
    if left < 4 || (left - 4) / 32 < count as usize {
        return Err(DecodeError::Truncated);
    }
    let ghost rest = bytes@.skip(used as int);
    let mut heads: Vec<BlockHash> = Vec::new();
    let mut k: usize = 0;
    while k < count as usize
        invariant
            k <= count,
            used + 32 * count + 4 <= total == bytes@.len(),
            rest == bytes@.skip(used as int),
            heads@.len() == k,
            forall|i: int| 0 <= i < k ==> heads@[i] == hash_at(rest, 32 * i),
        decreases count - k,
    {
        let hash = read_hash(bytes, used + 32 * k);
        assert(bytes@.subrange(used + 32 * k, used + 32 * k + 32) =~= rest.subrange(
            32 * k,
            32 * k + 32,
        ));
        heads.push(hash);
        k += 1;
    }
    assert(heads@ =~= parse_hashes(rest, count as nat));
    let finalized_number = read_le4(bytes, used + 32 * (count as usize));
    Ok(View { heads, finalized_number })
}

/// Decodes the wire message that `bytes` encode; the payload of a protocol
/// message is handed out in bytes.
///
/// Fails with `Truncated` where the bytes end too early, with
/// `UnknownVariant` where the first byte is neither 1 nor 2, and with
/// `LengthOutOfRange` where the number of heads of a view is not written
/// as the format demands.
pub fn decode(bytes: &[u8]) -> (decoded: Result<WireMessage<Vec<u8>>, DecodeError>)
    ensures
        match decoded {
            Ok(message) => decode_wire(bytes@) == Ok::<WireMessageModel<Seq<u8>>, DecodeError>(
                framed(message@),
            ),
            Err(error) => decode_wire(bytes@) == Err::<WireMessageModel<Seq<u8>>, DecodeError>(
                error,
            ),
        },
{
    if bytes.len() == 0 {
        return Err(DecodeError::Truncated);
    }
    if bytes[0] == 1 {
        let mut payload: Vec<u8> = Vec::new();
        let mut i: usize = 1;
        while i < bytes.len()
            invariant
                1 <= i <= bytes.len(),
                payload@ == bytes@.subrange(1, i as int),
            decreases bytes.len() - i,
        {
            payload.push(bytes[i]);
            assert(bytes@.subrange(1, i + 1) =~= bytes@.subrange(1, i as int).push(
                bytes@[i as int],
            ));
            i += 1;
        }
        assert(bytes@.subrange(1, bytes@.len() as int) =~= bytes@.skip(1));
        Ok(WireMessage::ProtocolMessage(payload))
    } else if bytes[0] == 2 {
        let rest = vstd::slice::slice_subrange(bytes, 1, bytes.len());
        assert(rest@ =~= bytes@.skip(1));
        match read_view(rest) {
            Ok(view) => Ok(WireMessage::ViewUpdate(view)),
            Err(error) => Err(error),
        }
    } else {
        Err(DecodeError::UnknownVariant)
    }
}

/// Four bytes, least significant first, stand for the number they were
/// made from.
pub proof fn lemma_le4_round_trip(value: u32, rest: Seq<u8>)
    ensures
        le4(value as int).len() == 4,
        from_le4(le4(value as int) + rest) == value,
{
    let bytes = le4(value as int) + rest;
    assert(bytes[0] == le4(value as int)[0]);
    assert(bytes[1] == le4(value as int)[1]);
    assert(bytes[2] == le4(value as int)[2]);
    assert(bytes[3] == le4(value as int)[3]);
}

/// A compact length is read back as it was written, whatever follows it.
pub proof fn lemma_compact_round_trip(value: u32, rest: Seq<u8>)
    ensures
        parse_compact(compact(value) + rest) == Ok::<(u32, nat), DecodeError>(
            (value, compact(value).len()),
        ),
{
    let bytes = compact(value) + rest;
    if value < 64 {
        assert(bytes[0] == compact(value)[0]);
    } else if value < 16384 {
        assert(bytes[0] == compact(value)[0]);
        assert(bytes[1] == compact(value)[1]);
    } else if value < 1073741824 {
        lemma_le4_round_trip((value * 4 + 2) as u32, rest);
        assert(bytes[0] == compact(value)[0]);
    } else {
        assert(bytes[0] == 3);
        assert(bytes.skip(1) =~= le4(value as int) + rest);
        lemma_le4_round_trip(value, rest);
    }
}

/// The bytes of a list of heads are 32 for each head, and the bytes of
/// the head at `k` stand at `32 * k`.
pub proof fn lemma_hashes_bytes(heads: Seq<BlockHash>, k: int)
    requires
        0 <= k < heads.len(),
    ensures
        hashes_bytes(heads).len() == 32 * heads.len(),
        hashes_bytes(heads).subrange(32 * k, 32 * k + 32) == heads[k].0@,
    decreases heads.len(),
{
    lemma_hashes_bytes_len(heads);
    lemma_hashes_bytes_len(heads.drop_last());
    if k == heads.len() - 1 {
        assert(hashes_bytes(heads).subrange(32 * k, 32 * k + 32) =~= heads[k].0@);
    } else {
        lemma_hashes_bytes(heads.drop_last(), k);
        assert(hashes_bytes(heads).subrange(32 * k, 32 * k + 32) =~= hashes_bytes(
            heads.drop_last(),
        ).subrange(32 * k, 32 * k + 32));
    }
}

/// The bytes of a list of heads are 32 for each head.
pub proof fn lemma_hashes_bytes_len(heads: Seq<BlockHash>)
    ensures
        hashes_bytes(heads).len() == 32 * heads.len(),
    decreases heads.len(),
{
    if heads.len() > 0 {
        lemma_hashes_bytes_len(heads.drop_last());
    }
}

/// Heads are read back as they were written, whatever follows them.
pub proof fn lemma_hashes_round_trip(heads: Seq<BlockHash>, rest: Seq<u8>)
    ensures
        parse_hashes(hashes_bytes(heads) + rest, heads.len()) == heads,
{
    let bytes = hashes_bytes(heads) + rest;
    assert forall|k: int| 0 <= k < heads.len() implies hash_at(bytes, 32 * k) == heads[k] by {
        lemma_hashes_bytes(heads, k);
        assert(bytes.subrange(32 * k, 32 * k + 32) =~= hashes_bytes(heads).subrange(
            32 * k,
            32 * k + 32,
        ));
        let chosen = hash_at(bytes, 32 * k);
        assert(heads[k].0@ == bytes.subrange(32 * k, 32 * k + 32));
        assert(chosen.0 =~= heads[k].0);
    }
    assert(parse_hashes(bytes, heads.len()) =~= heads);
}

/// A view is read back as it was written, whatever follows it.
pub proof fn view_round_trip(view: ViewModel, rest: Seq<u8>)
    requires
        view.heads.len() <= u32::MAX,
    ensures
        parse_view(encode_view(view) + rest) == Ok::<(ViewModel, nat), DecodeError>(
            (view, encode_view(view).len()),
        ),
{
    let count = view.heads.len() as u32;
    let prefix = compact(count);
    let body = hashes_bytes(view.heads);
    let tail = le4(view.finalized_number as int);
    let bytes = encode_view(view) + rest;
    assert(bytes =~= prefix + (body + tail + rest));
    lemma_compact_round_trip(count, body + tail + rest);
    lemma_hashes_bytes_len(view.heads);
    lemma_le4_round_trip(view.finalized_number, rest);
    let used = prefix.len();
    assert(bytes.skip(used as int) =~= body + (tail + rest));
    lemma_hashes_round_trip(view.heads, tail + rest);
    assert(bytes.skip(used + 32 * count) =~= tail + rest);
}

/// Decoding undoes encoding: the bytes of a wire message decode to that
/// message, and those of a view update also where further bytes follow.
pub proof fn wire_round_trip(message: WireMessageModel<Seq<u8>>, rest: Seq<u8>)
    requires
        message matches WireMessageModel::ViewUpdate(view) ==> view.heads.len() <= u32::MAX,
    ensures
        decode_wire(encode_wire(message)) == Ok::<WireMessageModel<Seq<u8>>, DecodeError>(message),
        message is ViewUpdate ==> decode_wire(encode_wire(message) + rest) == Ok::<
            WireMessageModel<Seq<u8>>,
            DecodeError,
        >(message),
{
    match message {
        WireMessageModel::ProtocolMessage(payload) => {
            assert(encode_wire(message).skip(1) =~= payload);
        },
        WireMessageModel::ViewUpdate(view) => {
            view_round_trip(view, Seq::empty());
            view_round_trip(view, rest);
            assert(encode_wire(message).skip(1) =~= encode_view(view) + Seq::<u8>::empty());
            assert((encode_wire(message) + rest).skip(1) =~= encode_view(view) + rest);
        },
    }
}

} // verus!
