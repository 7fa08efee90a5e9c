//! Tests for the little-endian word codec and the 16-byte color messages,
//! including a full round trip through the channel.

use bevy_embedded::channel::{BinaryChannel, HostChannel};
use bevy_embedded::codec::{decode_color, decode_words, encode_color, encode_words, ColorMessage};

#[test]
fn words_encode_to_little_endian_bytes() {
    let bytes = encode_words(&vec![0x0403_0201]);
    assert_eq!(bytes, vec![0x01, 0x02, 0x03, 0x04]);
    let bytes = encode_words(&vec![0xdead_beef, 0x0000_00ff]);
    assert_eq!(bytes, vec![0xef, 0xbe, 0xad, 0xde, 0xff, 0x00, 0x00, 0x00]);
}

#[test]
fn empty_word_sequence_encodes_to_no_bytes() {
    assert_eq!(encode_words(&Vec::new()), Vec::<u8>::new());
}

#[test]
fn bytes_decode_to_words() {
    let words = decode_words(&vec![0x01, 0x02, 0x03, 0x04]).unwrap();
    assert_eq!(words, vec![0x0403_0201]);
}

#[test]
fn ragged_byte_lengths_do_not_decode() {
    assert_eq!(decode_words(&vec![1, 2, 3]), None);
    assert_eq!(decode_words(&vec![1, 2, 3, 4, 5]), None);
    assert_eq!(decode_words(&vec![0; 15]), None);
}

#[test]
fn words_round_trip_through_the_codec() {
    let words = vec![0, 1, 0xffff_ffff, 0x1234_5678, 42];
    assert_eq!(decode_words(&encode_words(&words)), Some(words));
}

#[test]
fn color_message_round_trips_to_the_same_floats() {
    let sent = (1.0f32, 0.0f32, 0.0f32, 1.0f32);
    let message = ColorMessage {
        r_bits: sent.0.to_bits(),
        g_bits: sent.1.to_bits(),
        b_bits: sent.2.to_bits(),
        a_bits: sent.3.to_bits(),
    };
    let bytes = encode_color(&message);
    assert_eq!(bytes.len(), 16);
    let decoded = decode_color(&bytes).unwrap();
    let received = (
        f32::from_bits(decoded.r_bits),
        f32::from_bits(decoded.g_bits),
        f32::from_bits(decoded.b_bits),
        f32::from_bits(decoded.a_bits),
    );
    assert_eq!(received, sent);
}

#[test]
fn color_bytes_match_the_hosts_float_layout() {
    let message = ColorMessage {
        r_bits: 1.0f32.to_bits(),
        g_bits: 0.5f32.to_bits(),
        b_bits: 0.25f32.to_bits(),
        a_bits: 1.0f32.to_bits(),
    };
    let bytes = encode_color(&message);
    let mut expected = Vec::new();
    for value in [1.0f32, 0.5, 0.25, 1.0] {
        expected.extend_from_slice(&value.to_le_bytes());
    }
    assert_eq!(bytes, expected);
}

#[test]
fn sixteen_byte_message_through_channel_decodes_to_sent_tuple() {
    let sent = (1.0f32, 0.0f32, 0.0f32, 1.0f32);
    let message = ColorMessage {
        r_bits: sent.0.to_bits(),
        g_bits: sent.1.to_bits(),
        b_bits: sent.2.to_bits(),
        a_bits: sent.3.to_bits(),
    };
    let mut channel = HostChannel::default();
    channel.send(encode_color(&message));
    let bytes = channel.receive().unwrap();
    let decoded = decode_color(&bytes).unwrap();
    assert_eq!(f32::from_bits(decoded.r_bits), 1.0);
    assert_eq!(f32::from_bits(decoded.g_bits), 0.0);
    assert_eq!(f32::from_bits(decoded.b_bits), 0.0);
    assert_eq!(f32::from_bits(decoded.a_bits), 1.0);
}

#[test]
fn wrong_length_is_not_a_color_message() {
    assert_eq!(decode_color(&vec![0; 15]), None);
    assert_eq!(decode_color(&vec![0; 17]), None);
    assert_eq!(decode_color(&Vec::new()), None);
}

#[test]
fn matrix_sized_message_round_trips() {
    let matrix: Vec<f32> = (0..16).map(|i| i as f32 * 0.5).collect();
    let words: Vec<u32> = matrix.iter().map(|value| value.to_bits()).collect();
    let bytes = encode_words(&words);
    assert_eq!(bytes.len(), 64);
    let decoded = decode_words(&bytes).unwrap();
    let received: Vec<f32> = decoded.iter().map(|bits| f32::from_bits(*bits)).collect();
    assert_eq!(received, matrix);
}
