//! The simulator vision schema: an environment wraps an optional frame; a
//! frame holds an optional ball and one robot list per team. All positions,
//! angles and velocities travel as IEEE-754 doubles and are held as their
//! bit patterns.
//!
//! Field numbers: a ball has `x`..`vz` (1..6, 64-bit); a robot has
//! `robot_id` (1, varint) and `x`, `y`, `orientation`, `vx`, `vy`,
//! `vorientation` (2..7, 64-bit); a frame has `ball` (1, bytes) and the
//! repeated `robots_yellow` (2, bytes) and `robots_blue` (3, bytes); an
//! environment carries `frame` (2, bytes) — its other members (step, field
//! geometry, goal counts) are outside this library's scope and are skipped.
//! The decoder accepts members in any order, lets the last occurrence of a
//! scalar or embedded message win, appends repeated members in order, and
//! skips unknown fields.
use vstd::prelude::*;

use crate::DecodeError;
use crate::wire::{varint_at, fixed64_at, skip_at, read_varint, read_fixed64, skip_field};

verus! {

/// Ball state: position and velocity, as double bit patterns.
#[derive(Clone, Copy, PartialEq, Eq, Structural, Debug)]
pub struct Ball {
    pub x: u64,
    pub y: u64,
    pub z: u64,
    pub vx: u64,
    pub vy: u64,
    pub vz: u64,
}

/// One robot's state: id, pose and velocities, as double bit patterns.
#[derive(Clone, Copy, PartialEq, Eq, Structural, Debug)]
pub struct Robot {
    pub robot_id: u32,
    pub x: u64,
    pub y: u64,
    pub orientation: u64,
    pub vx: u64,
    pub vy: u64,
    pub vorientation: u64,
}

/// One team-tagged frame: an optional ball and the two robot lists.
pub struct Frame {
    pub ball: Option<Ball>,
    pub robots_yellow: Vec<Robot>,
    pub robots_blue: Vec<Robot>,
}

/// Mathematical model of a frame.
#[verifier::ext_equal]
pub ghost struct FrameView {
    pub ball: Option<Ball>,
    pub robots_yellow: Seq<Robot>,
    pub robots_blue: Seq<Robot>,
}

impl View for Frame {
    type V = FrameView;

    open spec fn view(&self) -> FrameView {
        FrameView {
            ball: self.ball,
            robots_yellow: self.robots_yellow@,
            robots_blue: self.robots_blue@,
        }
    }
}

/// The whole vision snapshot: an optional frame.
pub struct Environment {
    pub frame: Option<Frame>,
}

/// Mathematical model of an environment.
#[verifier::ext_equal]
pub ghost struct EnvironmentView {
    pub frame: Option<FrameView>,
}

impl View for Environment {
    type V = EnvironmentView;

    open spec fn view(&self) -> EnvironmentView {
        EnvironmentView {
            frame: match self.frame {
                Some(f) => Some(f@),
                None => None,
            },
        }
    }
}

/// The zero ball: at the origin, at rest.
pub open spec fn default_ball() -> Ball {
    Ball { x: 0, y: 0, z: 0, vx: 0, vy: 0, vz: 0 }
}

/// The zero robot.
pub open spec fn default_robot() -> Robot {
    Robot { robot_id: 0, x: 0, y: 0, orientation: 0, vx: 0, vy: 0, vorientation: 0 }
}

/// The empty frame: no ball seen, no robots.
pub open spec fn default_frame_view() -> FrameView {
    FrameView { ball: None, robots_yellow: Seq::empty(), robots_blue: Seq::empty() }
}

/// The snapshot a vision store holds before the first datagram: no frame.
pub open spec fn default_environment_view() -> EnvironmentView {
    EnvironmentView { frame: None }
}

// ---------- decoding ----------

/// Field loop of the ball decoder.
pub open spec fn dec_ball_from(s: Seq<u8>, i: int, acc: Ball) -> Option<Ball>
    decreases s.len() - i,
{
    if i < 0 || i > s.len() {
        None
    } else if i == s.len() {
        Some(acc)
    } else {
        match varint_at(s, i) {
            None => None,
            Some((tag, j)) => {
                if !(i < j && j <= s.len()) {
                    None
                } else {
                    let field = tag >> 3;
                    let wire = tag & 7;
                    if wire == 1 && 1 <= field <= 6 {
                        match fixed64_at(s, j) {
                            None => None,
                            Some((v, k)) => if j < k && k <= s.len() {
                                dec_ball_from(s, k, ball_with(acc, field, v))
                            } else {
                                None
                            },
                        }
                    } else {
                        match skip_at(s, j, wire) {
                            None => None,
                            Some(k) => if i < k && k <= s.len() {
                                dec_ball_from(s, k, acc)
                            } else {
                                None
                            },
                        }
                    }
                }
            },
        }
    }
}

/// `acc` with the ball member numbered `field` set to `v`.
pub open spec fn ball_with(acc: Ball, field: u64, v: u64) -> Ball {
    if field == 1 {
        Ball { x: v, y: acc.y, z: acc.z, vx: acc.vx, vy: acc.vy, vz: acc.vz }
    } else if field == 2 {
        Ball { x: acc.x, y: v, z: acc.z, vx: acc.vx, vy: acc.vy, vz: acc.vz }
    } else if field == 3 {
        Ball { x: acc.x, y: acc.y, z: v, vx: acc.vx, vy: acc.vy, vz: acc.vz }
    } else if field == 4 {
        Ball { x: acc.x, y: acc.y, z: acc.z, vx: v, vy: acc.vy, vz: acc.vz }
    } else if field == 5 {
        Ball { x: acc.x, y: acc.y, z: acc.z, vx: acc.vx, vy: v, vz: acc.vz }
    } else {
        Ball { x: acc.x, y: acc.y, z: acc.z, vx: acc.vx, vy: acc.vy, vz: v }
    }
}

/// Decoding one ball's bytes.
pub open spec fn dec_ball(s: Seq<u8>) -> Option<Ball> {
    dec_ball_from(s, 0, default_ball())
}

/// Field loop of the robot decoder.
pub open spec fn dec_robot_from(s: Seq<u8>, i: int, acc: Robot) -> Option<Robot>
    decreases s.len() - i,
{
    if i < 0 || i > s.len() {
        None
    } else if i == s.len() {
        Some(acc)
    } else {
        match varint_at(s, i) {
            None => None,
            Some((tag, j)) => {
                if !(i < j && j <= s.len()) {
                    None
                } else {
                    let field = tag >> 3;
                    let wire = tag & 7;
                    if field == 1 && wire == 0 {
                        match varint_at(s, j) {
                            None => None,
                            Some((v, k)) => if j < k && k <= s.len() {
                                dec_robot_from(s, k, Robot {
                                    robot_id: v as u32,
                                    x: acc.x,
                                    y: acc.y,
                                    orientation: acc.orientation,
                                    vx: acc.vx,
                                    vy: acc.vy,
                                    vorientation: acc.vorientation,
                                })
                            } else {
                                None
                            },
                        }
                    } else if wire == 1 && 2 <= field <= 7 {
                        match fixed64_at(s, j) {
                            None => None,
                            Some((v, k)) => if j < k && k <= s.len() {
                                dec_robot_from(s, k, robot_with(acc, field, v))
                            } else {
                                None
                            },
                        }
                    } else {
                        match skip_at(s, j, wire) {
                            None => None,
                            Some(k) => if i < k && k <= s.len() {
                                dec_robot_from(s, k, acc)
                            } else {
                                None
                            },
                        }
                    }
                }
            },
        }
    }
}

/// `acc` with the robot member numbered `field` set to `v`.
pub open spec fn robot_with(acc: Robot, field: u64, v: u64) -> Robot {
    if field == 2 {
        Robot { robot_id: acc.robot_id, x: v, y: acc.y, orientation: acc.orientation,
            vx: acc.vx, vy: acc.vy, vorientation: acc.vorientation }
    } else if field == 3 {
        Robot { robot_id: acc.robot_id, x: acc.x, y: v, orientation: acc.orientation,
            vx: acc.vx, vy: acc.vy, vorientation: acc.vorientation }
    } else if field == 4 {
        Robot { robot_id: acc.robot_id, x: acc.x, y: acc.y, orientation: v,
            vx: acc.vx, vy: acc.vy, vorientation: acc.vorientation }
    } else if field == 5 {
        Robot { robot_id: acc.robot_id, x: acc.x, y: acc.y, orientation: acc.orientation,
            vx: v, vy: acc.vy, vorientation: acc.vorientation }
    } else if field == 6 {
        Robot { robot_id: acc.robot_id, x: acc.x, y: acc.y, orientation: acc.orientation,
            vx: acc.vx, vy: v, vorientation: acc.vorientation }
    } else {
        Robot { robot_id: acc.robot_id, x: acc.x, y: acc.y, orientation: acc.orientation,
            vx: acc.vx, vy: acc.vy, vorientation: v }
    }
}

/// Decoding one robot's bytes.
pub open spec fn dec_robot(s: Seq<u8>) -> Option<Robot> {
    dec_robot_from(s, 0, default_robot())
}

/// Field loop of the frame decoder.
pub open spec fn dec_frame_from(s: Seq<u8>, i: int, acc: FrameView) -> Option<FrameView>
    decreases s.len() - i,
{
    if i < 0 || i > s.len() {
        None
    } else if i == s.len() {
        Some(acc)
    } else {
        match varint_at(s, i) {
            None => None,
            Some((tag, j)) => {
                if !(i < j && j <= s.len()) {
                    None
                } else {
                    let field = tag >> 3;
                    let wire = tag & 7;
                    if wire == 2 && 1 <= field <= 3 {
                        match varint_at(s, j) {
                            None => None,
                            Some((l, k)) => if j < k && k + l <= s.len() {
                                let sub = s.subrange(k, k + l);
                                if field == 1 {
                                    match dec_ball(sub) {
                                        None => None,
                                        Some(b) => dec_frame_from(s, k + l, FrameView {
                                            ball: Some(b),
                                            robots_yellow: acc.robots_yellow,
                                            robots_blue: acc.robots_blue,
                                        }),
                                    }
                                } else if field == 2 {
                                    match dec_robot(sub) {
                                        None => None,
                                        Some(rb) => dec_frame_from(s, k + l, FrameView {
                                            ball: acc.ball,
                                            robots_yellow: acc.robots_yellow.push(rb),
                                            robots_blue: acc.robots_blue,
                                        }),
                                    }
                                } else {
                                    match dec_robot(sub) {
                                        None => None,
                                        Some(rb) => dec_frame_from(s, k + l, FrameView {
                                            ball: acc.ball,
                                            robots_yellow: acc.robots_yellow,
                                            robots_blue: acc.robots_blue.push(rb),
                                        }),
                                    }
                                }
                            } else {
                                None
                            },
                        }
                    } else {
                        match skip_at(s, j, wire) {
                            None => None,
                            Some(k) => if i < k && k <= s.len() {
                                dec_frame_from(s, k, acc)
                            } else {
                                None
                            },
                        }
                    }
                }
            },
        }
    }
}

/// Decoding one frame's bytes.
pub open spec fn dec_frame(s: Seq<u8>) -> Option<FrameView> {
    dec_frame_from(s, 0, default_frame_view())
}

/// Field loop of the environment decoder: only the frame member is kept.
pub open spec fn dec_env_from(s: Seq<u8>, i: int, acc: Option<FrameView>) -> Option<
    Option<FrameView>,
>
    decreases s.len() - i,
{
    if i < 0 || i > s.len() {
        None
    } else if i == s.len() {
        Some(acc)
    } else {
        match varint_at(s, i) {
            None => None,
            Some((tag, j)) => {
                if !(i < j && j <= s.len()) {
                    None
                } else {
                    let field = tag >> 3;
                    let wire = tag & 7;
                    if field == 2 && wire == 2 {
                        match varint_at(s, j) {
                            None => None,
                            Some((l, k)) => if j < k && k + l <= s.len() {
                                match dec_frame(s.subrange(k, k + l)) {
                                    None => None,
                                    Some(f) => dec_env_from(s, k + l, Some(f)),
                                }
                            } else {
                                None
                            },
                        }
                    } else {
                        match skip_at(s, j, wire) {
                            None => None,
                            Some(k) => if i < k && k <= s.len() {
                                dec_env_from(s, k, acc)
                            } else {
                                None
                            },
                        }
                    }
                }
            },
        }
    }
}

/// Decoding an environment datagram's bytes.
pub open spec fn dec_env(s: Seq<u8>) -> Option<EnvironmentView> {
    match dec_env_from(s, 0, None) {
        Some(f) => Some(EnvironmentView { frame: f }),
        None => None,
    }
}

/// Reads one field of a ball at `pos`, folding it into `acc`.
fn ball_step(data: &[u8], pos: usize, acc: Ball) -> (r: Option<(usize, Ball)>)
    requires
        pos < data@.len(),
    ensures
        match r {
            Some((k, acc2)) => pos < k <= data@.len()
                && dec_ball_from(data@, pos as int, acc) == dec_ball_from(data@, k as int, acc2),
            None => dec_ball_from(data@, pos as int, acc) is None,
        },
{
    match read_varint(data, pos) {
        None => None,
        Some((tag, j)) => {
            let field = tag >> 3;
            let wire = tag & 7;
            if wire == 1 && 1 <= field && field <= 6 {
                match read_fixed64(data, j) {
                    None => None,
                    Some((v, k)) => {
                        let acc2 = if field == 1 {
                            Ball { x: v, ..acc }
                        } else if field == 2 {
                            Ball { y: v, ..acc }
                        } else if field == 3 {
                            Ball { z: v, ..acc }
                        } else if field == 4 {
                            Ball { vx: v, ..acc }
                        } else if field == 5 {
                            Ball { vy: v, ..acc }
                        } else {
                            Ball { vz: v, ..acc }
                        };
                        assert(acc2 == ball_with(acc, field, v));
                        Some((k, acc2))
                    },
                }
            } else {
                match skip_field(data, j, wire) {
                    None => None,
                    Some(k) => Some((k, acc)),
                }
            }
        },
    }
}

/// Decodes one ball's bytes.
pub fn parse_ball(data: &[u8]) -> (r: Option<Ball>)
    ensures
        r == dec_ball(data@),
{
    let mut acc = Ball { x: 0, y: 0, z: 0, vx: 0, vy: 0, vz: 0 };
    let mut pos: usize = 0;
    loop
        invariant
            pos <= data@.len(),
            dec_ball_from(data@, pos as int, acc) == dec_ball(data@),
        decreases data@.len() - pos,
    {
        if pos == data.len() {
            return Some(acc);
        }
        match ball_step(data, pos, acc) {
            None => {
                return None;
            },
            Some((k, acc2)) => {
                pos = k;
                acc = acc2;
            },
        }
    }
}

/// Reads one field of a robot at `pos`, folding it into `acc`.
fn robot_step(data: &[u8], pos: usize, acc: Robot) -> (r: Option<(usize, Robot)>)
    requires
        pos < data@.len(),
    ensures
        match r {
            Some((k, acc2)) => pos < k <= data@.len()
                && dec_robot_from(data@, pos as int, acc) == dec_robot_from(data@, k as int, acc2),
            None => dec_robot_from(data@, pos as int, acc) is None,
        },
{
    match read_varint(data, pos) {
        None => None,
        Some((tag, j)) => {
            let field = tag >> 3;
            let wire = tag & 7;
            if field == 1 && wire == 0 {
                match read_varint(data, j) {
                    None => None,
                    Some((v, k)) => Some((k, Robot {
                        robot_id: #[verifier::truncate] (v as u32),
                        ..acc
                    })),
                }
            } else if wire == 1 && 2 <= field && field <= 7 {
                match read_fixed64(data, j) {
                    None => None,
                    Some((v, k)) => {
                        let acc2 = if field == 2 {
                            Robot { x: v, ..acc }
                        } else if field == 3 {
                            Robot { y: v, ..acc }
                        } else if field == 4 {
                            Robot { orientation: v, ..acc }
                        } else if field == 5 {
                            Robot { vx: v, ..acc }
                        } else if field == 6 {
                            Robot { vy: v, ..acc }
                        } else {
                            Robot { vorientation: v, ..acc }
                        };
                        assert(acc2 == robot_with(acc, field, v));
                        Some((k, acc2))
                    },
                }
            } else {
                match skip_field(data, j, wire) {
                    None => None,
                    Some(k) => Some((k, acc)),
                }
            }
        },
    }
}

/// Decodes one robot's bytes.
pub fn parse_robot(data: &[u8]) -> (r: Option<Robot>)
    ensures
        r == dec_robot(data@),
{
    let mut acc = Robot { robot_id: 0, x: 0, y: 0, orientation: 0, vx: 0, vy: 0, vorientation: 0 };
    let mut pos: usize = 0;
    loop
        invariant
            pos <= data@.len(),
            dec_robot_from(data@, pos as int, acc) == dec_robot(data@),
        decreases data@.len() - pos,
    {
        if pos == data.len() {
            return Some(acc);
        }
        match robot_step(data, pos, acc) {
            None => {
                return None;
            },
            Some((k, acc2)) => {
                pos = k;
                acc = acc2;
            },
        }
    }
}

/// Reads one field of a frame at `pos`, folding it into `frame`.
fn frame_step(data: &[u8], pos: usize, frame: &mut Frame) -> (r: Option<usize>)
    requires
        pos < data@.len(),
    ensures
        match r {
            Some(k) => pos < k <= data@.len()
                && dec_frame_from(data@, pos as int, old(frame)@)
                    == dec_frame_from(data@, k as int, final(frame)@),
            None => dec_frame_from(data@, pos as int, old(frame)@) is None,
        },
{
    match read_varint(data, pos) {
        None => None,
        Some((tag, j)) => {
            let field = tag >> 3;
            let wire = tag & 7;
            if wire == 2 && 1 <= field && field <= 3 {
                match read_varint(data, j) {
                    None => None,
                    Some((l, k)) => {
                        if l <= (data.len() - k) as u64 {
                            let end = k + (l as usize);
                            let sub = vstd::slice::slice_subrange(data, k, end);
                            if field == 1 {
                                match parse_ball(sub) {
                                    None => None,
                                    Some(b) => {
                                        frame.ball = Some(b);
                                        Some(end)
                                    },
                                }
                            } else if field == 2 {
                                match parse_robot(sub) {
                                    None => None,
                                    Some(rb) => {
                                        frame.robots_yellow.push(rb);
                                        Some(end)
                                    },
                                }
                            } else {
                                match parse_robot(sub) {
                                    None => None,
                                    Some(rb) => {
                                        frame.robots_blue.push(rb);
                                        Some(end)
                                    },
                                }
                            }
                        } else {
                            None
                        }
                    },
                }
            } else {
                match skip_field(data, j, wire) {
                    None => None,
                    Some(k) => Some(k),
                }
            }
        },
    }
}

/// Decodes one frame's bytes.
pub fn parse_frame(data: &[u8]) -> (r: Option<Frame>)
    ensures
        match r {
            Some(f) => dec_frame(data@) == Some(f@),
            None => dec_frame(data@) is None,
        },
{
    let mut frame = Frame { ball: None, robots_yellow: Vec::new(), robots_blue: Vec::new() };
    let mut pos: usize = 0;
    loop
        invariant
            pos <= data@.len(),
            dec_frame_from(data@, pos as int, frame@) == dec_frame(data@),
        decreases data@.len() - pos,
    {
        if pos == data.len() {
            return Some(frame);
        }
        match frame_step(data, pos, &mut frame) {
            None => {
                return None;
            },
            Some(k) => {
                pos = k;
            },
        }
    }
}

/// The frame an optional decoded frame value holds.
spec fn opt_frame_view(o: Option<Frame>) -> Option<FrameView> {
    match o {
        Some(f) => Some(f@),
        None => None,
    }
}

/// Reads one field of an environment at `pos`.
fn env_step(data: &[u8], pos: usize, acc: Option<Frame>) -> (r: Option<(usize, Option<Frame>)>)
    requires
        pos < data@.len(),
    ensures
        match r {
            Some((k, acc2)) => pos < k <= data@.len()
                && dec_env_from(data@, pos as int, opt_frame_view(acc))
                    == dec_env_from(data@, k as int, opt_frame_view(acc2)),
            None => dec_env_from(data@, pos as int, opt_frame_view(acc)) is None,
        },
{
    match read_varint(data, pos) {
        None => None,
        Some((tag, j)) => {
            let field = tag >> 3;
            let wire = tag & 7;
            if field == 2 && wire == 2 {
                match read_varint(data, j) {
                    None => None,
                    Some((l, k)) => {
                        if l <= (data.len() - k) as u64 {
                            let end = k + (l as usize);
                            let sub = vstd::slice::slice_subrange(data, k, end);
                            match parse_frame(sub) {
                                None => None,
                                Some(f) => Some((end, Some(f))),
                            }
                        } else {
                            None
                        }
                    },
                }
            } else {
                match skip_field(data, j, wire) {
                    None => None,
                    Some(k) => Some((k, acc)),
                }
            }
        },
    }
}

/// Decodes an environment datagram, or fails without a partial value.
pub fn deserialize_env(data: &[u8]) -> (r: Result<Environment, DecodeError>)
    ensures
        match r {
            Ok(e) => dec_env(data@) == Some(e@),
            Err(_) => dec_env(data@) is None,
        },
{
    let mut acc: Option<Frame> = None;
    let mut pos: usize = 0;
    loop
        invariant
            pos <= data@.len(),
            dec_env_from(data@, pos as int, opt_frame_view(acc)) == dec_env_from(data@, 0, None),
        decreases data@.len() - pos,
    {
        if pos == data.len() {
            return Ok(Environment { frame: acc });
        }
        match env_step(data, pos, acc) {
            None => {
                return Err(DecodeError);
            },
            Some((k, acc2)) => {
                pos = k;
                acc = acc2;
            },
        }
    }
}

} // verus!
