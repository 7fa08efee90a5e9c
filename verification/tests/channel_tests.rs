//! Tests for the host channel: FIFO order, one message per receive, empty
//! once drained, and buffer-fitting of received messages.

use bevy_embedded::channel::{truncate_message, BinaryChannel, HostChannel};

#[test]
fn receive_returns_messages_in_send_order() {
    let mut channel = HostChannel::default();
    channel.send(vec![1, 2, 3]);
    channel.send(vec![4, 5]);
    channel.send(vec![6]);
    assert_eq!(channel.receive(), Some(vec![1, 2, 3]));
    assert_eq!(channel.receive(), Some(vec![4, 5]));
    assert_eq!(channel.receive(), Some(vec![6]));
}

#[test]
fn receive_on_empty_channel_returns_none() {
    let mut channel = HostChannel::default();
    assert_eq!(channel.receive(), None);
}

#[test]
fn receive_returns_one_message_per_call_and_empty_once_drained() {
    let mut channel = HostChannel::default();
    channel.send(vec![9]);
    channel.send(vec![8]);
    assert_eq!(channel.receive(), Some(vec![9]));
    assert_eq!(channel.receive(), Some(vec![8]));
    assert_eq!(channel.receive(), None);
    assert_eq!(channel.receive(), None);
}

#[test]
fn draining_interleaves_with_sending() {
    let mut channel = HostChannel::default();
    channel.send(vec![1]);
    assert_eq!(channel.receive(), Some(vec![1]));
    channel.send(vec![2]);
    channel.send(vec![3]);
    assert_eq!(channel.receive(), Some(vec![2]));
    channel.send(vec![4]);
    assert_eq!(channel.receive(), Some(vec![3]));
    assert_eq!(channel.receive(), Some(vec![4]));
    assert_eq!(channel.receive(), None);
}

#[test]
fn empty_message_goes_through() {
    let mut channel = HostChannel::default();
    channel.send(Vec::new());
    assert_eq!(channel.receive(), Some(Vec::new()));
}

#[test]
fn truncate_message_keeps_whole_message_when_it_fits() {
    assert_eq!(truncate_message(vec![1, 2, 3], 3), vec![1, 2, 3]);
    assert_eq!(truncate_message(vec![1, 2, 3], 10), vec![1, 2, 3]);
}

#[test]
fn truncate_message_keeps_prefix_when_buffer_is_small() {
    assert_eq!(truncate_message(vec![1, 2, 3, 4], 2), vec![1, 2]);
    assert_eq!(truncate_message(vec![1, 2, 3, 4], 0), Vec::<u8>::new());
}
