use recorder::capture::{recording_of, Event, FlushError, Receiver};
use recorder::wave::{encode, EncodeError};
use std::io::Cursor;

fn decode(bytes: &[u8]) -> Vec<i32> {
    let mut reader = riff_wave::WaveReader::new(Cursor::new(bytes.to_vec())).unwrap();
    assert_eq!(reader.pcm_format.num_channels, 1);
    assert_eq!(reader.pcm_format.sample_rate, 48000);
    assert_eq!(reader.pcm_format.bits_per_sample, 32);
    let n = (bytes.len() - 44) / 4;
    (0..n).map(|_| reader.read_sample_i32().unwrap()).collect()
}

fn packet(ssrc: u32, samples: &[i16]) -> Event {
    Event::VoicePacket { ssrc, audio: Some(samples.to_vec()) }
}

#[test]
fn target_packets_and_flush_keep_only_target_stream() {
    let mut r = Receiver::new();
    r.set_user_id(1);
    r.act(&Event::ClientConnect { user_id: 1, ssrc: 42 });
    r.act(&packet(42, &[1, 2, 3]));
    r.act(&packet(99, &[9, 9]));
    let rec = r.flush("take").unwrap().unwrap();
    assert_eq!(rec.name, "take");
    assert_eq!(rec.path, "records/take.wav");
    assert_eq!(decode(&rec.bytes), vec![1, 2, 3]);
}

#[test]
fn flush_without_packets_gives_nothing() {
    let mut r = Receiver::new();
    r.set_user_id(1);
    r.act(&Event::ClientConnect { user_id: 1, ssrc: 42 });
    assert!(matches!(r.flush("none"), Ok(None)));
    assert_eq!(r.get_user_id(), None);
}

#[test]
fn empty_session_flush_gives_nothing() {
    let mut r = Receiver::new();
    assert!(matches!(r.flush("x"), Ok(None)));
}

#[test]
fn manual_stop_then_timer_gives_one_recording() {
    let mut r = Receiver::new();
    r.set_user_id(5);
    r.act(&Event::SpeakingStateUpdate { user_id: Some(5), ssrc: 7 });
    r.act(&packet(7, &[10, -10]));
    let first = r.stop().unwrap().unwrap();
    assert_eq!(first.name.len(), 32);
    assert!(first.name.chars().all(|c| c.is_ascii_digit() || ('a'..='f').contains(&c)));
    assert_eq!(first.path, format!("records/{}.wav", first.name));
    assert_eq!(decode(&first.bytes), vec![10, -10]);
    assert!(matches!(r.stop(), Ok(None)));
}

#[test]
fn latest_report_wins() {
    let mut r = Receiver::new();
    assert_eq!(r.get_ssrc(3), None);
    r.act(&Event::SpeakingStateUpdate { user_id: Some(3), ssrc: 10 });
    assert_eq!(r.get_ssrc(3), Some(10));
    r.act(&Event::ClientConnect { user_id: 3, ssrc: 11 });
    assert_eq!(r.get_ssrc(3), Some(11));
    r.act(&Event::SpeakingStateUpdate { user_id: Some(4), ssrc: 12 });
    r.act(&Event::SpeakingStateUpdate { user_id: None, ssrc: 13 });
    r.act(&Event::Other);
    assert_eq!(r.get_ssrc(3), Some(11));
    assert_eq!(r.get_ssrc(4), Some(12));
    r.set_ssrc(3, 20);
    assert_eq!(r.get_ssrc(3), Some(20));
}

#[test]
fn packets_dropped_unless_target_stream() {
    let mut r = Receiver::new();
    r.act(&Event::ClientConnect { user_id: 1, ssrc: 42 });
    // nobody recorded yet
    r.act(&packet(42, &[1]));
    r.set_user_id(2);
    // the target has no stream yet
    r.act(&packet(42, &[2]));
    r.set_user_id(1);
    // no decoded audio
    r.act(&Event::VoicePacket { ssrc: 42, audio: None });
    r.act(&packet(43, &[3]));
    r.act(&packet(42, &[4, 5]));
    r.act(&Event::ClientConnect { user_id: 1, ssrc: 50 });
    r.act(&packet(42, &[6]));
    r.act(&packet(50, &[7]));
    let rec = r.flush("mix").unwrap().unwrap();
    assert_eq!(decode(&rec.bytes), vec![4, 5, 7]);
}

#[test]
fn two_flushes_share_no_sample() {
    let mut r = Receiver::new();
    r.set_user_id(1);
    r.act(&Event::ClientConnect { user_id: 1, ssrc: 1 });
    r.act(&packet(1, &[1, 2]));
    let a = r.flush("a").unwrap().unwrap();
    // the flush cleared the target: nothing kept until it is set again
    r.act(&packet(1, &[3]));
    r.set_user_id(1);
    r.act(&packet(1, &[4, 5]));
    let b = r.flush("b").unwrap().unwrap();
    assert_eq!(decode(&a.bytes), vec![1, 2]);
    assert_eq!(decode(&b.bytes), vec![4, 5]);
}

#[test]
fn set_target_keeps_buffer() {
    let mut r = Receiver::new();
    r.set_user_id(1);
    r.act(&Event::ClientConnect { user_id: 1, ssrc: 1 });
    r.act(&Event::ClientConnect { user_id: 2, ssrc: 2 });
    r.act(&packet(1, &[1]));
    r.set_user_id(2);
    assert_eq!(r.get_user_id(), Some(2));
    r.act(&packet(2, &[2]));
    let rec = r.flush("both").unwrap().unwrap();
    assert_eq!(decode(&rec.bytes), vec![1, 2]);
}

#[test]
fn add_appends_in_order() {
    let mut r = Receiver::new();
    r.add(&vec![1, 2]);
    r.add(&vec![]);
    r.add(&vec![3]);
    let rec = r.flush("added").unwrap().unwrap();
    assert_eq!(decode(&rec.bytes), vec![1, 2, 3]);
}

#[test]
fn flush_error_variant_wraps_encoder_error() {
    let e = FlushError::Encode(EncodeError::TooLarge);
    assert_eq!(e, FlushError::Encode(EncodeError::TooLarge));
    assert_ne!(e, FlushError::Encode(EncodeError::Io));
}

#[test]
fn encode_writes_exact_layout() {
    let bytes = encode(&vec![1, -1, i16::MAX, i16::MIN]).unwrap();
    let mut expected: Vec<u8> = Vec::new();
    expected.extend_from_slice(b"RIFF");
    expected.extend_from_slice(&(36u32 + 16).to_le_bytes());
    expected.extend_from_slice(b"WAVEfmt ");
    expected.extend_from_slice(&16u32.to_le_bytes());
    expected.extend_from_slice(&1u16.to_le_bytes());
    expected.extend_from_slice(&1u16.to_le_bytes());
    expected.extend_from_slice(&48000u32.to_le_bytes());
    expected.extend_from_slice(&192000u32.to_le_bytes());
    expected.extend_from_slice(&4u16.to_le_bytes());
    expected.extend_from_slice(&32u16.to_le_bytes());
    expected.extend_from_slice(b"data");
    expected.extend_from_slice(&16u32.to_le_bytes());
    for s in [1i32, -1, 32767, -32768] {
        expected.extend_from_slice(&s.to_le_bytes());
    }
    assert_eq!(bytes, expected);
}

#[test]
fn encode_empty_is_header_only() {
    let bytes = encode(&vec![]).unwrap();
    assert_eq!(bytes.len(), 44);
    assert_eq!(&bytes[4..8], &36u32.to_le_bytes());
    assert_eq!(&bytes[40..44], &0u32.to_le_bytes());
}

#[test]
fn outcome_of_encoder_answer() {
    let rec = recording_of("n", Ok(vec![1, 2, 3])).unwrap().unwrap();
    assert_eq!(rec.name, "n");
    assert_eq!(rec.path, "records/n.wav");
    assert_eq!(rec.bytes, vec![1, 2, 3]);
    assert!(matches!(
        recording_of("n", Err(EncodeError::TooLarge)),
        Err(FlushError::Encode(EncodeError::TooLarge))
    ));
    assert!(matches!(
        recording_of("n", Err(EncodeError::Io)),
        Err(FlushError::Encode(EncodeError::Io))
    ));
}

#[test]
fn target_change_between_flushes() {
    let mut r = Receiver::new();
    r.act(&Event::ClientConnect { user_id: 1, ssrc: 10 });
    r.act(&Event::ClientConnect { user_id: 2, ssrc: 20 });
    r.set_user_id(1);
    r.act(&packet(10, &[1]));
    let a = r.flush("a").unwrap().unwrap();
    r.set_user_id(2);
    r.act(&packet(10, &[2]));
    r.act(&packet(20, &[3]));
    r.set_user_id(1);
    r.act(&packet(20, &[4]));
    r.act(&packet(10, &[5]));
    let b = r.flush("b").unwrap().unwrap();
    assert_eq!(decode(&a.bytes), vec![1]);
    assert_eq!(decode(&b.bytes), vec![3, 5]);
}
