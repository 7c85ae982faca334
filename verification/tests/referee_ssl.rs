//! Referee and secondary-vision facade behaviour: foul-code mapping,
//! defaults, datagram ingestion and lookups.
use vsss_rust_client::referee::{deserialize_ref, foul_of_code, Foul, Referee, VssRefCommand};
use vsss_rust_client::sslvision::{deserialize_ssl, SSLVision};

fn push_varint(buf: &mut Vec<u8>, mut v: u64) {
    while v >= 0x80 {
        buf.push(((v & 0x7f) | 0x80) as u8);
        v >>= 7;
    }
    buf.push(v as u8);
}

fn push_message(buf: &mut Vec<u8>, tag: u8, body: &[u8]) {
    buf.push(tag);
    push_varint(buf, body.len() as u64);
    buf.extend_from_slice(body);
}

fn push_float(buf: &mut Vec<u8>, tag: u8, v: f32) {
    buf.push(tag);
    buf.extend_from_slice(&v.to_bits().to_le_bytes());
}

#[test]
fn foul_codes_map_to_their_variants() {
    assert_eq!(foul_of_code(0), Foul::FreeKick);
    assert_eq!(foul_of_code(1), Foul::PenaltyKick);
    assert_eq!(foul_of_code(2), Foul::GoalKick);
    assert_eq!(foul_of_code(3), Foul::FreeBall);
    assert_eq!(foul_of_code(4), Foul::Kickoff);
    assert_eq!(foul_of_code(5), Foul::Stop);
    assert_eq!(foul_of_code(6), Foul::GameOn);
    assert_eq!(foul_of_code(7), Foul::Halt);
}

#[test]
fn out_of_range_foul_codes_default_to_free_kick() {
    assert_eq!(foul_of_code(42), Foul::FreeKick);
    assert_eq!(foul_of_code(8), Foul::FreeKick);
    assert_eq!(foul_of_code(-1), Foul::FreeKick);
    assert_eq!(foul_of_code(i32::MAX), Foul::FreeKick);
    assert_eq!(foul_of_code(i32::MIN), Foul::FreeKick);
}

#[test]
fn referee_facade_maps_current_foul() {
    let mut referee = Referee::new();
    referee.replace(VssRefCommand {
        foul: 6,
        teamcolor: 0,
        foul_quadrant: 0,
        timestamp: 0,
        game_half: 0,
    });
    assert_eq!(referee.foul(), Foul::GameOn);
    referee.replace(VssRefCommand {
        foul: 42,
        teamcolor: 0,
        foul_quadrant: 0,
        timestamp: 0,
        game_half: 0,
    });
    assert_eq!(referee.foul(), Foul::FreeKick);
}

#[test]
fn fresh_referee_reads_zero_record() {
    let referee = Referee::new();
    let record = referee.referee();
    assert_eq!(record.foul, 0);
    assert_eq!(record.teamcolor, 0);
    assert_eq!(record.foul_quadrant, 0);
    assert_eq!(record.timestamp, 0);
    assert_eq!(record.game_half, 0);
    assert_eq!(referee.foul(), Foul::FreeKick);
}

#[test]
fn referee_foul_is_idempotent_between_replaces() {
    let mut referee = Referee::new();
    referee.replace(VssRefCommand {
        foul: 4,
        teamcolor: 1,
        foul_quadrant: 2,
        timestamp: 0,
        game_half: 1,
    });
    assert_eq!(referee.foul(), referee.foul());
    assert_eq!(referee.referee(), referee.referee());
}

#[test]
fn deserialize_ref_reads_all_members() {
    let mut datagram = Vec::new();
    datagram.push(0x08);
    push_varint(&mut datagram, 2);
    datagram.push(0x10);
    push_varint(&mut datagram, 1);
    datagram.push(0x18);
    push_varint(&mut datagram, 3);
    datagram.push(0x21);
    datagram.extend_from_slice(&10.5f64.to_bits().to_le_bytes());
    datagram.push(0x28);
    push_varint(&mut datagram, 1);

    let record = deserialize_ref(&datagram).expect("well-formed datagram");
    assert_eq!(record.foul, 2);
    assert_eq!(record.teamcolor, 1);
    assert_eq!(record.foul_quadrant, 3);
    assert_eq!(f64::from_bits(record.timestamp), 10.5);
    assert_eq!(record.game_half, 1);
}

#[test]
fn referee_ingest_drops_malformed_datagram() {
    let mut referee = Referee::new();
    let mut valid = Vec::new();
    valid.push(0x08);
    push_varint(&mut valid, 5);
    assert!(referee.ingest(&valid));
    assert_eq!(referee.foul(), Foul::Stop);

    // A timestamp member cut short.
    let malformed = vec![0x21, 0x01, 0x02];
    assert!(!referee.ingest(&malformed));
    assert_eq!(referee.foul(), Foul::Stop);
    assert_eq!(referee.referee().foul, 5);
}

fn ssl_ball_body(confidence: f32, x: f32, y: f32) -> Vec<u8> {
    let mut b = Vec::new();
    push_float(&mut b, 0x0d, confidence);
    push_float(&mut b, 0x1d, x);
    push_float(&mut b, 0x25, y);
    b
}

fn ssl_robot_body(id: Option<u32>, confidence: f32, x: f32, y: f32) -> Vec<u8> {
    let mut b = Vec::new();
    push_float(&mut b, 0x0d, confidence);
    if let Some(id) = id {
        b.push(0x10);
        push_varint(&mut b, id as u64);
    }
    push_float(&mut b, 0x1d, x);
    push_float(&mut b, 0x25, y);
    b
}

fn ssl_datagram(
    frame_number: u32,
    balls: &[Vec<u8>],
    yellow: &[Vec<u8>],
    blue: &[Vec<u8>],
) -> Vec<u8> {
    let mut detection = Vec::new();
    detection.push(0x08);
    push_varint(&mut detection, frame_number as u64);
    detection.push(0x11);
    detection.extend_from_slice(&1.25f64.to_bits().to_le_bytes());
    detection.push(0x19);
    detection.extend_from_slice(&1.5f64.to_bits().to_le_bytes());
    detection.push(0x20);
    push_varint(&mut detection, 3);
    for b in balls {
        push_message(&mut detection, 0x2a, b);
    }
    for r in yellow {
        push_message(&mut detection, 0x32, r);
    }
    for r in blue {
        push_message(&mut detection, 0x3a, r);
    }
    let mut wrapper = Vec::new();
    push_message(&mut wrapper, 0x0a, &detection);
    // A geometry member: outside the library's scope, skipped by the decoder.
    push_message(&mut wrapper, 0x12, &[0x08, 0x01]);
    wrapper
}

#[test]
fn fresh_ssl_store_reads_defaults() {
    let vision = SSLVision::new();
    assert!(vision.wrapper().detection.is_none());
    let detection = vision.detection();
    assert_eq!(detection.frame_number, 0);
    assert_eq!(detection.camera_id, 0);
    assert!(detection.balls.is_empty());
    let ball = vision.ball();
    assert_eq!(ball.confidence, 0);
    assert_eq!(ball.area, None);
    assert!(vision.yellow_robots().is_empty());
    assert!(vision.blue_robots().is_empty());
    assert!(vision.yellow_robot(&0).is_none());
    assert!(vision.blue_robot(&0).is_none());
}

#[test]
fn ssl_ingest_reads_detection_and_skips_geometry() {
    let mut vision = SSLVision::new();
    let datagram = ssl_datagram(
        77,
        &[ssl_ball_body(0.9, 100.0, -50.0)],
        &[ssl_robot_body(Some(1), 0.8, 1.0, 2.0), ssl_robot_body(None, 0.5, 3.0, 4.0)],
        &[ssl_robot_body(Some(0), 0.7, -1.0, -2.0)],
    );
    assert!(vision.ingest(&datagram));

    let detection = vision.detection();
    assert_eq!(detection.frame_number, 77);
    assert_eq!(detection.camera_id, 3);
    assert_eq!(f64::from_bits(detection.t_capture), 1.25);
    assert_eq!(f64::from_bits(detection.t_sent), 1.5);

    let ball = vision.ball();
    assert_eq!(f32::from_bits(ball.confidence), 0.9);
    assert_eq!(f32::from_bits(ball.x), 100.0);
    assert_eq!(f32::from_bits(ball.y), -50.0);
    assert_eq!(ball.z, None);

    assert_eq!(vision.yellow_robots().len(), 2);
    let found = vision.yellow_robot(&1).expect("id 1 is present");
    assert_eq!(f32::from_bits(found.x), 1.0);
    assert!(vision.yellow_robot(&7).is_none());
    // A detection without an id never matches a lookup.
    assert_eq!(vision.yellow_robots()[1].robot_id, None);
    let blue = vision.blue_robot(&0).expect("id 0 is present");
    assert_eq!(f32::from_bits(blue.confidence), 0.7);
}

#[test]
fn ssl_ingest_drops_malformed_datagram() {
    let mut vision = SSLVision::new();
    let valid = ssl_datagram(5, &[ssl_ball_body(1.0, 0.0, 0.0)], &[], &[]);
    assert!(vision.ingest(&valid));
    assert_eq!(vision.detection().frame_number, 5);

    let malformed = vec![0x0a, 0x10, 0x08];
    assert!(!vision.ingest(&malformed));
    assert_eq!(vision.detection().frame_number, 5);
    assert_eq!(vision.detection().balls.len(), 1);
}

#[test]
fn deserialize_ssl_empty_datagram_has_no_detection() {
    let wrapper = deserialize_ssl(&[]).expect("empty datagram is the default message");
    assert!(wrapper.detection.is_none());
}
