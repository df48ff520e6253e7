//! The wire envelope, held against the codec that the wire format comes from.

use network_bridge::codec::{
    decode, encode, encode_protocol_message, encode_view_update, DecodeError,
};
use network_bridge::primitives::BlockHash;
use network_bridge::view::View;
use network_bridge::wire::WireMessage;
use tetsy_scale_codec::{Decode, Encode};

fn heads(n: usize) -> Vec<BlockHash> {
    (0..n)
        .map(|i| {
            let mut bytes = [0u8; 32];
            bytes[0] = (i % 256) as u8;
            bytes[1] = (i / 256 % 256) as u8;
            bytes[31] = 0xee;
            BlockHash(bytes)
        })
        .collect()
}

fn scale_view_update(heads: &[BlockHash], finalized_number: u32) -> Vec<u8> {
    let heads: Vec<[u8; 32]> = heads.iter().map(|hash| hash.0).collect();
    (2u8, heads, finalized_number).encode()
}

fn scale_decode_view_update(mut bytes: &[u8]) -> Option<View> {
    let (tag, heads, finalized_number) =
        <(u8, Vec<[u8; 32]>, u32)>::decode(&mut bytes).ok()?;
    assert_eq!(tag, 2);
    Some(View::new(heads.into_iter().map(BlockHash).collect(), finalized_number))
}

#[test]
fn view_update_bytes_are_exact() {
    let view = View::new(vec![BlockHash::repeat_byte(0xab)], 0x0102_0304);
    let mut expected = vec![2u8, 4u8];
    expected.extend([0xab; 32]);
    expected.extend([0x04, 0x03, 0x02, 0x01]);
    assert_eq!(encode_view_update(&view), expected);
}

#[test]
fn empty_view_update_bytes_are_exact() {
    assert_eq!(encode_view_update(&View::default()), vec![2u8, 0, 0, 0, 0, 0]);
}

#[test]
fn protocol_message_bytes_are_exact() {
    assert_eq!(encode_protocol_message(&[9, 8, 7]), vec![1u8, 9, 8, 7]);
    assert_eq!(encode_protocol_message(&[]), vec![1u8]);
    assert_eq!(encode(&WireMessage::ProtocolMessage(vec![5u8, 6])), vec![1u8, 5, 6]);
}

#[test]
fn encode_agrees_with_the_scale_codec_for_up_to_five_heads() {
    for n in 0..=5 {
        for finalized_number in [0u32, 1, 255, 256, 65_535, 65_536, 16_777_216, u32::MAX] {
            let view = View::new(heads(n), finalized_number);
            assert_eq!(encode_view_update(&view), scale_view_update(&heads(n), finalized_number));
            assert_eq!(
                encode(&WireMessage::ViewUpdate(View::new(heads(n), finalized_number))),
                scale_view_update(&heads(n), finalized_number)
            );
        }
    }
}

#[test]
fn encode_agrees_with_the_scale_codec_at_the_bounds_of_the_length_prefix() {
    for n in [6usize, 63, 64, 65, 255, 256, 16_383, 16_384, 16_385] {
        let view = View::new(heads(n), 7);
        let bytes = encode_view_update(&view);
        assert_eq!(bytes, scale_view_update(&heads(n), 7));
        assert_eq!(decode(&bytes), Ok(WireMessage::ViewUpdate(view)));
    }
}

#[test]
fn length_prefix_grows_with_the_number_of_heads() {
    assert_eq!(encode_view_update(&View::new(heads(63), 0))[1], 63 << 2);
    assert_eq!(encode_view_update(&View::new(heads(64), 0))[1..3], [0x01, 0x01]);
    assert_eq!(encode_view_update(&View::new(heads(16_383), 0))[1..3], [0xfd, 0xff]);
    assert_eq!(encode_view_update(&View::new(heads(16_384), 0))[1..5], [0x02, 0x00, 0x01, 0x00]);
}

#[test]
fn decode_undoes_encode() {
    for n in 0..=8 {
        let view = View::new(heads(n), 1_000_000 + n as u32);
        let bytes = encode_view_update(&view);
        assert_eq!(decode(&bytes), Ok(WireMessage::ViewUpdate(view)));
    }
    let payload = vec![2u8, 0, 255, 1];
    assert_eq!(
        decode(&encode_protocol_message(&payload)),
        Ok(WireMessage::ProtocolMessage(payload))
    );
    assert_eq!(decode(&[1]), Ok(WireMessage::ProtocolMessage(vec![])));
}

#[test]
fn decode_ignores_bytes_after_a_view_update() {
    let view = View::new(heads(2), 9);
    let mut bytes = encode_view_update(&view);
    bytes.extend([1, 2, 3]);
    assert_eq!(scale_decode_view_update(&bytes), Some(View::new(heads(2), 9)));
    assert_eq!(decode(&bytes), Ok(WireMessage::ViewUpdate(view)));
}

#[test]
fn decode_rejects_truncated_input() {
    assert_eq!(decode(&[]), Err(DecodeError::Truncated));
    assert_eq!(decode(&[2]), Err(DecodeError::Truncated));
    assert_eq!(decode(&[2, 0]), Err(DecodeError::Truncated));
    assert_eq!(decode(&[2, 0, 1, 2, 3]), Err(DecodeError::Truncated));
    assert_eq!(decode(&[2, 0x01]), Err(DecodeError::Truncated));
    assert_eq!(decode(&[2, 0x02, 0, 1]), Err(DecodeError::Truncated));
    assert_eq!(decode(&[2, 0x03, 0, 0, 0]), Err(DecodeError::Truncated));
    let full = encode_view_update(&View::new(heads(3), 5));
    for cut in 0..full.len() {
        assert_eq!(decode(&full[..cut]), Err(DecodeError::Truncated), "cut at {}", cut);
        if cut > 0 {
            assert_eq!(scale_decode_view_update(&full[..cut]), None);
        }
    }
    // A length of 2^30 heads is well written, but the heads are not there.
    assert_eq!(decode(&[2, 0x03, 0, 0, 0, 0x40, 1, 2, 3, 4]), Err(DecodeError::Truncated));
    assert_eq!(scale_decode_view_update(&[2, 0x03, 0, 0, 0, 0x40, 1, 2, 3, 4]), None);
}

#[test]
fn decode_rejects_unknown_variants() {
    assert_eq!(decode(&[0]), Err(DecodeError::UnknownVariant));
    assert_eq!(decode(&[3, 0, 0, 0, 0, 0]), Err(DecodeError::UnknownVariant));
    assert_eq!(decode(&[255, 1]), Err(DecodeError::UnknownVariant));
}

#[test]
fn decode_rejects_lengths_not_in_shortest_form() {
    let tail = [0u8; 40];
    let with_tail = |prefix: &[u8]| {
        let mut bytes = vec![2u8];
        bytes.extend_from_slice(prefix);
        bytes.extend_from_slice(&tail);
        bytes
    };
    // 0 and 63 in two bytes, 16383 in four bytes, 1 and 2^30 - 1 in five bytes.
    for prefix in [
        &[0x01u8, 0x00][..],
        &[0xfd, 0x00][..],
        &[0xfe, 0xff, 0x00, 0x00][..],
        &[0x03, 0x01, 0x00, 0x00, 0x00][..],
        &[0x03, 0xff, 0xff, 0xff, 0x3f][..],
        // More than four bytes of length.
        &[0x07, 0x00, 0x00, 0x00, 0x00, 0x01][..],
        &[0xff][..],
    ] {
        let bytes = with_tail(prefix);
        assert_eq!(decode(&bytes), Err(DecodeError::LengthOutOfRange), "{:?}", prefix);
        assert_eq!(scale_decode_view_update(&bytes), None, "{:?}", prefix);
    }
}

#[test]
fn decode_agrees_with_the_scale_codec_on_many_inputs() {
    // A fixed pseudo-random sequence of inputs that begin like view updates.
    let mut seed: u32 = 0x2545_f491;
    let mut next = move || {
        seed = seed.wrapping_mul(1_664_525).wrapping_add(1_013_904_223);
        (seed >> 24) as u8
    };
    for round in 0..4000 {
        let len = (next() as usize) % 200;
        let mut bytes = vec![2u8];
        // Keep the number of heads small in most rounds, so that many inputs are complete.
        bytes.push(if round % 3 == 0 { next() } else { (next() % 6) << 2 });
        for _ in 0..len {
            bytes.push(next());
        }
        let ours = decode(&bytes).ok();
        let theirs = scale_decode_view_update(&bytes).map(WireMessage::ViewUpdate);
        assert_eq!(ours, theirs, "{:?}", bytes);
    }
}
