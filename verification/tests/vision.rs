//! Simulator-vision facade behaviour: defaults, replace/read, lookups,
//! datagram ingestion and decode-failure resilience.
use vsss_rust_client::fira::{deserialize_env, Ball, Environment, Frame, Robot};
use vsss_rust_client::firasim::FIRASim;

fn push_varint(buf: &mut Vec<u8>, mut v: u64) {
    while v >= 0x80 {
        buf.push(((v & 0x7f) | 0x80) as u8);
        v >>= 7;
    }
    buf.push(v as u8);
}

fn push_double(buf: &mut Vec<u8>, tag: u8, v: f64) {
    buf.push(tag);
    buf.extend_from_slice(&v.to_bits().to_le_bytes());
}

fn ball_body(x: f64, y: f64, z: f64, vx: f64, vy: f64, vz: f64) -> Vec<u8> {
    let mut b = Vec::new();
    push_double(&mut b, 0x09, x);
    push_double(&mut b, 0x11, y);
    push_double(&mut b, 0x19, z);
    push_double(&mut b, 0x21, vx);
    push_double(&mut b, 0x29, vy);
    push_double(&mut b, 0x31, vz);
    b
}

fn robot_body(id: u32, x: f64, y: f64, orientation: f64) -> Vec<u8> {
    let mut b = Vec::new();
    b.push(0x08);
    push_varint(&mut b, id as u64);
    push_double(&mut b, 0x11, x);
    push_double(&mut b, 0x19, y);
    push_double(&mut b, 0x21, orientation);
    b
}

fn push_message(buf: &mut Vec<u8>, tag: u8, body: &[u8]) {
    buf.push(tag);
    push_varint(buf, body.len() as u64);
    buf.extend_from_slice(body);
}

/// An environment datagram with one ball, the given yellow robots, and the
/// given blue robots.
fn env_datagram(ball: &[u8], yellow: &[Vec<u8>], blue: &[Vec<u8>]) -> Vec<u8> {
    let mut frame = Vec::new();
    push_message(&mut frame, 0x0a, ball);
    for r in yellow {
        push_message(&mut frame, 0x12, r);
    }
    for r in blue {
        push_message(&mut frame, 0x1a, r);
    }
    let mut env = Vec::new();
    push_message(&mut env, 0x12, &frame);
    env
}

fn make_robot(id: u32, x: f64, y: f64, orientation: f64) -> Robot {
    Robot {
        robot_id: id,
        x: x.to_bits(),
        y: y.to_bits(),
        orientation: orientation.to_bits(),
        vx: 0f64.to_bits(),
        vy: 0f64.to_bits(),
        vorientation: 0f64.to_bits(),
    }
}

#[test]
fn fresh_store_reads_defaults() {
    let sim = FIRASim::new();
    assert!(sim.environment().frame.is_none());
    let ball = sim.ball();
    assert_eq!((ball.x, ball.y, ball.z), (0, 0, 0));
    assert_eq!((ball.vx, ball.vy, ball.vz), (0, 0, 0));
    assert!(sim.frame().ball.is_none());
    assert!(sim.yellow_robots().is_empty());
    assert!(sim.blue_robots().is_empty());
    assert!(sim.yellow_robot(&0).is_none());
    assert!(sim.blue_robot(&0).is_none());
}

#[test]
fn accessors_are_idempotent_between_replaces() {
    let mut sim = FIRASim::new();
    sim.replace(Environment {
        frame: Some(Frame {
            ball: Some(Ball {
                x: 3.25f64.to_bits(),
                y: (-1.0f64).to_bits(),
                z: 0,
                vx: 0,
                vy: 0,
                vz: 0,
            }),
            robots_yellow: vec![make_robot(4, 1.0, 2.0, 0.5)],
            robots_blue: Vec::new(),
        }),
    });
    assert_eq!(sim.ball(), sim.ball());
    assert_eq!(sim.yellow_robots(), sim.yellow_robots());
    assert_eq!(sim.yellow_robot(&4), sim.yellow_robot(&4));
}

#[test]
fn replace_then_read_end_to_end() {
    let mut sim = FIRASim::new();
    let blue = make_robot(0, 0.1, 0.2, 0.0);
    sim.replace(Environment {
        frame: Some(Frame {
            ball: Some(Ball {
                x: 1.5f64.to_bits(),
                y: (-2.0f64).to_bits(),
                z: 0f64.to_bits(),
                vx: 0f64.to_bits(),
                vy: 0f64.to_bits(),
                vz: 0f64.to_bits(),
            }),
            robots_yellow: Vec::new(),
            robots_blue: vec![blue],
        }),
    });
    let ball = sim.ball();
    assert_eq!(f64::from_bits(ball.x), 1.5);
    assert_eq!(f64::from_bits(ball.y), -2.0);
    assert_eq!(f64::from_bits(ball.z), 0.0);
    assert_eq!(f64::from_bits(ball.vx), 0.0);
    assert_eq!(f64::from_bits(ball.vy), 0.0);
    assert_eq!(f64::from_bits(ball.vz), 0.0);
    assert_eq!(sim.blue_robot(&0), Some(blue));
    assert!(sim.yellow_robot(&0).is_none());
}

#[test]
fn robot_lookup_finds_exact_id_or_reports_absent() {
    let mut sim = FIRASim::new();
    let r0 = make_robot(0, 1.0, 1.0, 0.0);
    let r2 = make_robot(2, -3.5, 0.25, 1.5);
    sim.replace(Environment {
        frame: Some(Frame {
            ball: None,
            robots_yellow: vec![r0, r2],
            robots_blue: Vec::new(),
        }),
    });
    assert!(sim.yellow_robot(&1).is_none());
    let found = sim.yellow_robot(&2).expect("id 2 is present");
    assert_eq!(found, r2);
    assert_eq!(sim.yellow_robot(&0), Some(r0));
}

#[test]
fn deserialize_env_reads_ball_and_robots() {
    let datagram = env_datagram(
        &ball_body(1.5, -2.0, 0.0, 0.0, 0.0, 0.0),
        &[robot_body(1, 0.5, 0.5, 0.0)],
        &[robot_body(0, 0.1, 0.2, 0.0), robot_body(2, 2.0, 2.0, 3.0)],
    );
    let env = deserialize_env(&datagram).expect("well-formed datagram");
    let frame = env.frame.expect("frame present");
    let ball = frame.ball.expect("ball present");
    assert_eq!(f64::from_bits(ball.x), 1.5);
    assert_eq!(f64::from_bits(ball.y), -2.0);
    assert_eq!(frame.robots_yellow.len(), 1);
    assert_eq!(frame.robots_yellow[0].robot_id, 1);
    assert_eq!(frame.robots_blue.len(), 2);
    assert_eq!(frame.robots_blue[1].robot_id, 2);
    assert_eq!(f64::from_bits(frame.robots_blue[1].orientation), 3.0);
}

#[test]
fn empty_env_datagram_has_no_frame() {
    let env = deserialize_env(&[]).expect("empty datagram is the default message");
    assert!(env.frame.is_none());
}

#[test]
fn ingest_updates_store_from_datagram() {
    let mut sim = FIRASim::new();
    let datagram = env_datagram(&ball_body(4.5, 0.5, 0.0, 1.0, 0.0, 0.0), &[], &[]);
    assert!(sim.ingest(&datagram));
    assert_eq!(f64::from_bits(sim.ball().x), 4.5);
    assert_eq!(f64::from_bits(sim.ball().vx), 1.0);
}

#[test]
fn malformed_datagram_leaves_store_unchanged_and_listener_continues() {
    let mut sim = FIRASim::new();
    let first = env_datagram(&ball_body(1.5, -2.0, 0.0, 0.0, 0.0, 0.0), &[], &[]);
    assert!(sim.ingest(&first));
    let before_env = sim.environment();
    let before_ball = sim.ball();

    // A frame member whose length runs past the datagram's end.
    let malformed = vec![0x12, 0x7f, 0x0a];
    assert!(!sim.ingest(&malformed));
    assert_eq!(sim.ball(), before_ball);
    let after_env = sim.environment();
    assert_eq!(after_env.frame.is_some(), before_env.frame.is_some());

    // The next valid datagram still lands.
    let second = env_datagram(&ball_body(7.0, 8.0, 0.0, 0.0, 0.0, 0.0), &[], &[]);
    assert!(sim.ingest(&second));
    assert_eq!(f64::from_bits(sim.ball().x), 7.0);
    assert_eq!(f64::from_bits(sim.ball().y), 8.0);
}
