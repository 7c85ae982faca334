//! The secondary vision schema and facade: a wrapper packet carries an
//! optional detection frame; a frame holds ball and robot detections whose
//! scalars travel as IEEE-754 singles (held as `u32` bit patterns) and two
//! timestamps as doubles (held as `u64` bit patterns).
//!
//! Field numbers: a ball detection has `confidence` (1, 32-bit), `area`
//! (2, varint, optional), `x` (3), `y` (4), `z` (5, optional), `pixel_x`
//! (6) and `pixel_y` (7, all 32-bit); a robot detection has `confidence`
//! (1, 32-bit), `robot_id` (2, varint, optional), `x` (3), `y` (4),
//! `orientation` (5, optional), `pixel_x` (6), `pixel_y` (7) and `height`
//! (8, optional, all 32-bit); a detection frame has `frame_number`
//! (1, varint), `t_capture` (2, 64-bit), `t_sent` (3, 64-bit), `camera_id`
//! (4, varint), and the repeated `balls` (5, bytes), `robots_yellow`
//! (6, bytes) and `robots_blue` (7, bytes); a wrapper packet carries
//! `detection` (1, bytes) — its geometry member is outside this library's
//! scope and is skipped. The decoder accepts members in any order, lets the
//! last occurrence win, appends repeated members in order, and skips
//! unknown fields.
use vstd::prelude::*;

use crate::DecodeError;
use crate::wire::{
    varint_at, fixed32_at, fixed64_at, skip_at, read_varint, read_fixed32, read_fixed64,
    skip_field,
};

verus! {

/// One ball detection: scalars are single bit patterns.
#[derive(Clone, Copy, PartialEq, Eq, Debug)]
pub struct SslDetectionBall {
    pub confidence: u32,
    pub area: Option<u32>,
    pub x: u32,
    pub y: u32,
    pub z: Option<u32>,
    pub pixel_x: u32,
    pub pixel_y: u32,
}

/// One robot detection: scalars are single bit patterns.
#[derive(Clone, Copy, PartialEq, Eq, Debug)]
pub struct SslDetectionRobot {
    pub confidence: u32,
    pub robot_id: Option<u32>,
    pub x: u32,
    pub y: u32,
    pub orientation: Option<u32>,
    pub pixel_x: u32,
    pub pixel_y: u32,
    pub height: Option<u32>,
}

/// One camera's detections for one frame.
pub struct SslDetectionFrame {
    pub frame_number: u32,
    pub t_capture: u64,
    pub t_sent: u64,
    pub camera_id: u32,
    pub balls: Vec<SslDetectionBall>,
    pub robots_yellow: Vec<SslDetectionRobot>,
    pub robots_blue: Vec<SslDetectionRobot>,
}

/// Mathematical model of a detection frame.
#[verifier::ext_equal]
pub ghost struct SslDetectionFrameView {
    pub frame_number: u32,
    pub t_capture: u64,
    pub t_sent: u64,
    pub camera_id: u32,
    pub balls: Seq<SslDetectionBall>,
    pub robots_yellow: Seq<SslDetectionRobot>,
    pub robots_blue: Seq<SslDetectionRobot>,
}

impl View for SslDetectionFrame {
    type V = SslDetectionFrameView;

    open spec fn view(&self) -> SslDetectionFrameView {
        SslDetectionFrameView {
            frame_number: self.frame_number,
            t_capture: self.t_capture,
            t_sent: self.t_sent,
            camera_id: self.camera_id,
            balls: self.balls@,
            robots_yellow: self.robots_yellow@,
            robots_blue: self.robots_blue@,
        }
    }
}

/// The wrapper packet the feed delivers: an optional detection frame.
pub struct SslWrapperPacket {
    pub detection: Option<SslDetectionFrame>,
}

/// Mathematical model of a wrapper packet.
#[verifier::ext_equal]
pub ghost struct SslWrapperPacketView {
    pub detection: Option<SslDetectionFrameView>,
}

impl View for SslWrapperPacket {
    type V = SslWrapperPacketView;

    open spec fn view(&self) -> SslWrapperPacketView {
        SslWrapperPacketView {
            detection: match self.detection {
                Some(d) => Some(d@),
                None => None,
            },
        }
    }
}

/// The zero ball detection.
pub open spec fn default_ssl_ball() -> SslDetectionBall {
    SslDetectionBall { confidence: 0, area: None, x: 0, y: 0, z: None, pixel_x: 0, pixel_y: 0 }
}

/// The zero robot detection.
pub open spec fn default_ssl_robot() -> SslDetectionRobot {
    SslDetectionRobot {
        confidence: 0,
        robot_id: None,
        x: 0,
        y: 0,
        orientation: None,
        pixel_x: 0,
        pixel_y: 0,
        height: None,
    }
}

/// The empty detection frame.
pub open spec fn default_detection_view() -> SslDetectionFrameView {
    SslDetectionFrameView {
        frame_number: 0,
        t_capture: 0,
        t_sent: 0,
        camera_id: 0,
        balls: Seq::empty(),
        robots_yellow: Seq::empty(),
        robots_blue: Seq::empty(),
    }
}

/// The wrapper a store holds before the first datagram: no detection.
pub open spec fn default_wrapper_view() -> SslWrapperPacketView {
    SslWrapperPacketView { detection: None }
}

// ---------- decoding ----------

/// `acc` with the 32-bit ball member numbered `field` set to `v`.
pub open spec fn ssl_ball_with(acc: SslDetectionBall, field: u64, v: u32) -> SslDetectionBall {
    if field == 1 {
        SslDetectionBall { confidence: v, area: acc.area, x: acc.x, y: acc.y, z: acc.z,
            pixel_x: acc.pixel_x, pixel_y: acc.pixel_y }
    } else if field == 3 {
        SslDetectionBall { confidence: acc.confidence, area: acc.area, x: v, y: acc.y,
            z: acc.z, pixel_x: acc.pixel_x, pixel_y: acc.pixel_y }
    } else if field == 4 {
        SslDetectionBall { confidence: acc.confidence, area: acc.area, x: acc.x, y: v,
            z: acc.z, pixel_x: acc.pixel_x, pixel_y: acc.pixel_y }
    } else if field == 5 {
        SslDetectionBall { confidence: acc.confidence, area: acc.area, x: acc.x, y: acc.y,
            z: Some(v), pixel_x: acc.pixel_x, pixel_y: acc.pixel_y }
    } else if field == 6 {
        SslDetectionBall { confidence: acc.confidence, area: acc.area, x: acc.x, y: acc.y,
            z: acc.z, pixel_x: v, pixel_y: acc.pixel_y }
    } else {
        SslDetectionBall { confidence: acc.confidence, area: acc.area, x: acc.x, y: acc.y,
            z: acc.z, pixel_x: acc.pixel_x, pixel_y: v }
    }
}

/// Field loop of the ball-detection decoder.
pub open spec fn dec_ssl_ball_from(s: Seq<u8>, i: int, acc: SslDetectionBall) -> Option<
    SslDetectionBall,
>
    decreases s.len() - i,
{
    if i < 0 || i > s.len() {
        None
    } else if i == s.len() {
        Some(acc)
    } else {
        match varint_at(s, i) {
            None => None,
            Some((tag, j)) => {
                if !(i < j && j <= s.len()) {
                    None
                } else {
                    let field = tag >> 3;
                    let wire = tag & 7;
                    if wire == 5 && (field == 1 || 3 <= field <= 7) {
                        match fixed32_at(s, j) {
                            None => None,
                            Some((v, k)) => if j < k && k <= s.len() {
                                dec_ssl_ball_from(s, k, ssl_ball_with(acc, field, v))
                            } else {
                                None
                            },
                        }
                    } else if field == 2 && wire == 0 {
                        match varint_at(s, j) {
                            None => None,
                            Some((v, k)) => if j < k && k <= s.len() {
                                dec_ssl_ball_from(s, k, SslDetectionBall {
                                    confidence: acc.confidence,
                                    area: Some(v as u32),
                                    x: acc.x,
                                    y: acc.y,
                                    z: acc.z,
                                    pixel_x: acc.pixel_x,
                                    pixel_y: acc.pixel_y,
                                })
                            } else {
                                None
                            },
                        }
                    } else {
                        match skip_at(s, j, wire) {
                            None => None,
                            Some(k) => if i < k && k <= s.len() {
                                dec_ssl_ball_from(s, k, acc)
                            } else {
                                None
                            },
                        }
                    }
                }
            },
        }
    }
}

/// Decoding one ball detection's bytes.
pub open spec fn dec_ssl_ball(s: Seq<u8>) -> Option<SslDetectionBall> {
    dec_ssl_ball_from(s, 0, default_ssl_ball())
}

/// `acc` with the 32-bit robot member numbered `field` set to `v`.
pub open spec fn ssl_robot_with(acc: SslDetectionRobot, field: u64, v: u32) -> SslDetectionRobot {
    if field == 1 {
        SslDetectionRobot { confidence: v, robot_id: acc.robot_id, x: acc.x, y: acc.y,
            orientation: acc.orientation, pixel_x: acc.pixel_x, pixel_y: acc.pixel_y,
            height: acc.height }
    } else if field == 3 {
        SslDetectionRobot { confidence: acc.confidence, robot_id: acc.robot_id, x: v, y: acc.y,
            orientation: acc.orientation, pixel_x: acc.pixel_x, pixel_y: acc.pixel_y,
            height: acc.height }
    } else if field == 4 {
        SslDetectionRobot { confidence: acc.confidence, robot_id: acc.robot_id, x: acc.x, y: v,
            orientation: acc.orientation, pixel_x: acc.pixel_x, pixel_y: acc.pixel_y,
            height: acc.height }
    } else if field == 5 {
        SslDetectionRobot { confidence: acc.confidence, robot_id: acc.robot_id, x: acc.x,
            y: acc.y, orientation: Some(v), pixel_x: acc.pixel_x, pixel_y: acc.pixel_y,
            height: acc.height }
    } else if field == 6 {
        SslDetectionRobot { confidence: acc.confidence, robot_id: acc.robot_id, x: acc.x,
            y: acc.y, orientation: acc.orientation, pixel_x: v, pixel_y: acc.pixel_y,
            height: acc.height }
    } else if field == 7 {
        SslDetectionRobot { confidence: acc.confidence, robot_id: acc.robot_id, x: acc.x,
            y: acc.y, orientation: acc.orientation, pixel_x: acc.pixel_x, pixel_y: v,
            height: acc.height }
    } else {
        SslDetectionRobot { confidence: acc.confidence, robot_id: acc.robot_id, x: acc.x,
            y: acc.y, orientation: acc.orientation, pixel_x: acc.pixel_x, pixel_y: acc.pixel_y,
            height: Some(v) }
    }
}

/// Field loop of the robot-detection decoder.
pub open spec fn dec_ssl_robot_from(s: Seq<u8>, i: int, acc: SslDetectionRobot) -> Option<
    SslDetectionRobot,
>
    decreases s.len() - i,
{
    if i < 0 || i > s.len() {
        None
    } else if i == s.len() {
        Some(acc)
    } else {
        match varint_at(s, i) {
            None => None,
            Some((tag, j)) => {
                if !(i < j && j <= s.len()) {
                    None
                } else {
                    let field = tag >> 3;
                    let wire = tag & 7;
                    if wire == 5 && (field == 1 || 3 <= field <= 8) {
                        match fixed32_at(s, j) {
                            None => None,
                            Some((v, k)) => if j < k && k <= s.len() {
                                dec_ssl_robot_from(s, k, ssl_robot_with(acc, field, v))
                            } else {
                                None
                            },
                        }
                    } else if field == 2 && wire == 0 {
                        match varint_at(s, j) {
                            None => None,
                            Some((v, k)) => if j < k && k <= s.len() {
                                dec_ssl_robot_from(s, k, SslDetectionRobot {
                                    confidence: acc.confidence,
                                    robot_id: Some(v as u32),
                                    x: acc.x,
                                    y: acc.y,
                                    orientation: acc.orientation,
                                    pixel_x: acc.pixel_x,
                                    pixel_y: acc.pixel_y,
                                    height: acc.height,
                                })
                            } else {
                                None
                            },
                        }
                    } else {
                        match skip_at(s, j, wire) {
                            None => None,
                            Some(k) => if i < k && k <= s.len() {
                                dec_ssl_robot_from(s, k, acc)
                            } else {
                                None
                            },
                        }
                    }
                }
            },
        }
    }
}

/// Decoding one robot detection's bytes.
pub open spec fn dec_ssl_robot(s: Seq<u8>) -> Option<SslDetectionRobot> {
    dec_ssl_robot_from(s, 0, default_ssl_robot())
}

/// Field loop of the detection-frame decoder.
pub open spec fn dec_detection_from(s: Seq<u8>, i: int, acc: SslDetectionFrameView) -> Option<
    SslDetectionFrameView,
>
    decreases s.len() - i,
{
    if i < 0 || i > s.len() {
        None
    } else if i == s.len() {
        Some(acc)
    } else {
        match varint_at(s, i) {
            None => None,
            Some((tag, j)) => {
                if !(i < j && j <= s.len()) {
                    None
                } else {
                    let field = tag >> 3;
                    let wire = tag & 7;
                    if wire == 0 && (field == 1 || field == 4) {
                        match varint_at(s, j) {
                            None => None,
                            Some((v, k)) => if j < k && k <= s.len() {
                                dec_detection_from(s, k, if field == 1 {
                                    SslDetectionFrameView { frame_number: v as u32, ..acc }
                                } else {
                                    SslDetectionFrameView { camera_id: v as u32, ..acc }
                                })
                            } else {
                                None
                            },
                        }
                    } else if wire == 1 && (field == 2 || field == 3) {
                        match fixed64_at(s, j) {
                            None => None,
                            Some((v, k)) => if j < k && k <= s.len() {
                                dec_detection_from(s, k, if field == 2 {
                                    SslDetectionFrameView { t_capture: v, ..acc }
                                } else {
                                    SslDetectionFrameView { t_sent: v, ..acc }
                                })
                            } else {
                                None
                            },
                        }
                    } else if wire == 2 && 5 <= field <= 7 {
                        match varint_at(s, j) {
                            None => None,
                            Some((l, k)) => if j < k && k + l <= s.len() {
                                let sub = s.subrange(k, k + l);
                                if field == 5 {
                                    match dec_ssl_ball(sub) {
                                        None => None,
                                        Some(b) => dec_detection_from(s, k + l,
                                            SslDetectionFrameView {
                                                balls: acc.balls.push(b),
                                                ..acc
                                            }),
                                    }
                                } else if field == 6 {
                                    match dec_ssl_robot(sub) {
                                        None => None,
                                        Some(rb) => dec_detection_from(s, k + l,
                                            SslDetectionFrameView {
                                                robots_yellow: acc.robots_yellow.push(rb),
                                                ..acc
                                            }),
                                    }
                                } else {
                                    match dec_ssl_robot(sub) {
                                        None => None,
                                        Some(rb) => dec_detection_from(s, k + l,
                                            SslDetectionFrameView {
                                                robots_blue: acc.robots_blue.push(rb),
                                                ..acc
                                            }),
                                    }
                                }
                            } else {
                                None
                            },
                        }
                    } else {
                        match skip_at(s, j, wire) {
                            None => None,
                            Some(k) => if i < k && k <= s.len() {
                                dec_detection_from(s, k, acc)
                            } else {
                                None
                            },
                        }
                    }
                }
            },
        }
    }
}

/// Decoding one detection frame's bytes.
pub open spec fn dec_detection(s: Seq<u8>) -> Option<SslDetectionFrameView> {
    dec_detection_from(s, 0, default_detection_view())
}

/// Field loop of the wrapper decoder: only the detection member is kept.
pub open spec fn dec_ssl_from(s: Seq<u8>, i: int, acc: Option<SslDetectionFrameView>) -> Option<
    Option<SslDetectionFrameView>,
>
    decreases s.len() - i,
{
    if i < 0 || i > s.len() {
        None
    } else if i == s.len() {
        Some(acc)
    } else {
        match varint_at(s, i) {
            None => None,
            Some((tag, j)) => {
                if !(i < j && j <= s.len()) {
                    None
                } else {
                    let field = tag >> 3;
                    let wire = tag & 7;
                    if field == 1 && wire == 2 {
                        match varint_at(s, j) {
                            None => None,
                            Some((l, k)) => if j < k && k + l <= s.len() {
                                match dec_detection(s.subrange(k, k + l)) {
                                    None => None,
                                    Some(d) => dec_ssl_from(s, k + l, Some(d)),
                                }
                            } else {
                                None
                            },
                        }
                    } else {
                        match skip_at(s, j, wire) {
                            None => None,
                            Some(k) => if i < k && k <= s.len() {
                                dec_ssl_from(s, k, acc)
                            } else {
                                None
                            },
                        }
                    }
                }
            },
        }
    }
}

/// Decoding a wrapper datagram's bytes.
pub open spec fn dec_ssl(s: Seq<u8>) -> Option<SslWrapperPacketView> {
    match dec_ssl_from(s, 0, None) {
        Some(d) => Some(SslWrapperPacketView { detection: d }),
        None => None,
    }
}

/// Reads one field of a ball detection at `pos`, folding it into `acc`.
fn ssl_ball_step(data: &[u8], pos: usize, acc: SslDetectionBall) -> (r: Option<
    (usize, SslDetectionBall),
>)
    requires
        pos < data@.len(),
    ensures
        match r {
            Some((k, acc2)) => pos < k <= data@.len()
                && dec_ssl_ball_from(data@, pos as int, acc)
                    == dec_ssl_ball_from(data@, k as int, acc2),
            None => dec_ssl_ball_from(data@, pos as int, acc) is None,
        },
{
    match read_varint(data, pos) {
        None => None,
        Some((tag, j)) => {
            let field = tag >> 3;
            let wire = tag & 7;
            if wire == 5 && (field == 1 || (3 <= field && field <= 7)) {
                match read_fixed32(data, j) {
                    None => None,
                    Some((v, k)) => {
                        let acc2 = if field == 1 {
                            SslDetectionBall { confidence: v, ..acc }
                        } else if field == 3 {
                            SslDetectionBall { x: v, ..acc }
                        } else if field == 4 {
                            SslDetectionBall { y: v, ..acc }
                        } else if field == 5 {
                            SslDetectionBall { z: Some(v), ..acc }
                        } else if field == 6 {
                            SslDetectionBall { pixel_x: v, ..acc }
                        } else {
                            SslDetectionBall { pixel_y: v, ..acc }
                        };
                        assert(acc2 == ssl_ball_with(acc, field, v));
                        Some((k, acc2))
                    },
                }
            } else if field == 2 && wire == 0 {
                match read_varint(data, j) {
                    None => None,
                    Some((v, k)) => Some((k, SslDetectionBall {
                        area: Some(#[verifier::truncate] (v as u32)),
                        ..acc
                    })),
                }
            } else {
                match skip_field(data, j, wire) {
                    None => None,
                    Some(k) => Some((k, acc)),
                }
            }
        },
    }
}

/// Decodes one ball detection's bytes.
pub fn parse_ssl_ball(data: &[u8]) -> (r: Option<SslDetectionBall>)
    ensures
        r == dec_ssl_ball(data@),
{
    let mut acc = SslDetectionBall {
        confidence: 0,
        area: None,
        x: 0,
        y: 0,
        z: None,
        pixel_x: 0,
        pixel_y: 0,
    };
    let mut pos: usize = 0;
    loop
        invariant
            pos <= data@.len(),
            dec_ssl_ball_from(data@, pos as int, acc) == dec_ssl_ball(data@),
        decreases data@.len() - pos,
    {
        if pos == data.len() {
            return Some(acc);
        }
        match ssl_ball_step(data, pos, acc) {
            None => {
                return None;
            },
            Some((k, acc2)) => {
                pos = k;
                acc = acc2;
            },
        }
    }
}

/// Reads one field of a robot detection at `pos`, folding it into `acc`.
fn ssl_robot_step(data: &[u8], pos: usize, acc: SslDetectionRobot) -> (r: Option<
    (usize, SslDetectionRobot),
>)
    requires
        pos < data@.len(),
    ensures
        match r {
            Some((k, acc2)) => pos < k <= data@.len()
                && dec_ssl_robot_from(data@, pos as int, acc)
                    == dec_ssl_robot_from(data@, k as int, acc2),
            None => dec_ssl_robot_from(data@, pos as int, acc) is None,
        },
{
    match read_varint(data, pos) {
        None => None,
        Some((tag, j)) => {
            let field = tag >> 3;
            let wire = tag & 7;
            if wire == 5 && (field == 1 || (3 <= field && field <= 8)) {
                match read_fixed32(data, j) {
                    None => None,
                    Some((v, k)) => {
                        let acc2 = if field == 1 {
                            SslDetectionRobot { confidence: v, ..acc }
                        } else if field == 3 {
                            SslDetectionRobot { x: v, ..acc }
                        } else if field == 4 {
                            SslDetectionRobot { y: v, ..acc }
                        } else if field == 5 {
                            SslDetectionRobot { orientation: Some(v), ..acc }
                        } else if field == 6 {
                            SslDetectionRobot { pixel_x: v, ..acc }
                        } else if field == 7 {
                            SslDetectionRobot { pixel_y: v, ..acc }
                        } else {
                            SslDetectionRobot { height: Some(v), ..acc }
                        };
                        assert(acc2 == ssl_robot_with(acc, field, v));
                        Some((k, acc2))
                    },
                }
            } else if field == 2 && wire == 0 {
                match read_varint(data, j) {
                    None => None,
                    Some((v, k)) => Some((k, SslDetectionRobot {
                        robot_id: Some(#[verifier::truncate] (v as u32)),
                        ..acc
                    })),
                }
            } else {
                match skip_field(data, j, wire) {
                    None => None,
                    Some(k) => Some((k, acc)),
                }
            }
        },
    }
}

/// Decodes one robot detection's bytes.
pub fn parse_ssl_robot(data: &[u8]) -> (r: Option<SslDetectionRobot>)
    ensures
        r == dec_ssl_robot(data@),
{
    let mut acc = SslDetectionRobot {
        confidence: 0,
        robot_id: None,
        x: 0,
        y: 0,
        orientation: None,
        pixel_x: 0,
        pixel_y: 0,
        height: None,
    };
    let mut pos: usize = 0;
    loop
        invariant
            pos <= data@.len(),
            dec_ssl_robot_from(data@, pos as int, acc) == dec_ssl_robot(data@),
        decreases data@.len() - pos,
    {
        if pos == data.len() {
            return Some(acc);
        }
        match ssl_robot_step(data, pos, acc) {
            None => {
                return None;
            },
            Some((k, acc2)) => {
                pos = k;
                acc = acc2;
            },
        }
    }
}

/// Reads one field of a detection frame at `pos`, folding it into `frame`.
fn detection_step(data: &[u8], pos: usize, frame: &mut SslDetectionFrame) -> (r: Option<usize>)
    requires
        pos < data@.len(),
    ensures
        match r {
            Some(k) => pos < k <= data@.len()
                && dec_detection_from(data@, pos as int, old(frame)@)
                    == dec_detection_from(data@, k as int, final(frame)@),
            None => dec_detection_from(data@, pos as int, old(frame)@) is None,
        },
{
    match read_varint(data, pos) {
        None => None,
        Some((tag, j)) => {
            let field = tag >> 3;
            let wire = tag & 7;
            if wire == 0 && (field == 1 || field == 4) {
                match read_varint(data, j) {
                    None => None,
                    Some((v, k)) => {
                        if field == 1 {
                            frame.frame_number = #[verifier::truncate] (v as u32);
                        } else {
                            frame.camera_id = #[verifier::truncate] (v as u32);
                        }
                        Some(k)
                    },
                }
            } else if wire == 1 && (field == 2 || field == 3) {
                match read_fixed64(data, j) {
                    None => None,
                    Some((v, k)) => {
                        if field == 2 {
                            frame.t_capture = v;
                        } else {
                            frame.t_sent = v;
                        }
                        Some(k)
                    },
                }
            } else if wire == 2 && (5 <= field && field <= 7) {
                match read_varint(data, j) {
                    None => None,
                    Some((l, k)) => {
                        if l <= (data.len() - k) as u64 {
                            let end = k + (l as usize);
                            let sub = vstd::slice::slice_subrange(data, k, end);
                            if field == 5 {
                                match parse_ssl_ball(sub) {
                                    None => None,
                                    Some(b) => {
                                        frame.balls.push(b);
                                        Some(end)
                                    },
                                }
                            } else if field == 6 {
                                match parse_ssl_robot(sub) {
                                    None => None,
                                    Some(rb) => {
                                        frame.robots_yellow.push(rb);
                                        Some(end)
                                    },
                                }
                            } else {
                                match parse_ssl_robot(sub) {
                                    None => None,
                                    Some(rb) => {
                                        frame.robots_blue.push(rb);
                                        Some(end)
                                    },
                                }
                            }
                        } else {
                            None
                        }
                    },
                }
            } else {
                match skip_field(data, j, wire) {
                    None => None,
                    Some(k) => Some(k),
                }
            }
        },
    }
}

/// Decodes one detection frame's bytes.
pub fn parse_detection(data: &[u8]) -> (r: Option<SslDetectionFrame>)
    ensures
        match r {
            Some(f) => dec_detection(data@) == Some(f@),
            None => dec_detection(data@) is None,
        },
{
    let mut frame = SslDetectionFrame {
        frame_number: 0,
        t_capture: 0,
        t_sent: 0,
        camera_id: 0,
        balls: Vec::new(),
        robots_yellow: Vec::new(),
        robots_blue: Vec::new(),
    };
    let mut pos: usize = 0;
    loop
        invariant
            pos <= data@.len(),
            dec_detection_from(data@, pos as int, frame@) == dec_detection(data@),
        decreases data@.len() - pos,
    {
        if pos == data.len() {
            return Some(frame);
        }
        match detection_step(data, pos, &mut frame) {
            None => {
                return None;
            },
            Some(k) => {
                pos = k;
            },
        }
    }
}

/// The detection an optional decoded frame value holds.
spec fn opt_detection_view(o: Option<SslDetectionFrame>) -> Option<
    SslDetectionFrameView,
> {
    match o {
        Some(d) => Some(d@),
        None => None,
    }
}

/// Reads one field of a wrapper packet at `pos`.
fn ssl_step(data: &[u8], pos: usize, acc: Option<SslDetectionFrame>) -> (r: Option<
    (usize, Option<SslDetectionFrame>),
>)
    requires
        pos < data@.len(),
    ensures
        match r {
            Some((k, acc2)) => pos < k <= data@.len()
                && dec_ssl_from(data@, pos as int, opt_detection_view(acc))
                    == dec_ssl_from(data@, k as int, opt_detection_view(acc2)),
            None => dec_ssl_from(data@, pos as int, opt_detection_view(acc)) is None,
        },
{
    match read_varint(data, pos) {
        None => None,
        Some((tag, j)) => {
            let field = tag >> 3;
            let wire = tag & 7;
            if field == 1 && wire == 2 {
                match read_varint(data, j) {
                    None => None,
                    Some((l, k)) => {
                        if l <= (data.len() - k) as u64 {
                            let end = k + (l as usize);
                            let sub = vstd::slice::slice_subrange(data, k, end);
                            match parse_detection(sub) {
                                None => None,
                                Some(d) => Some((end, Some(d))),
                            }
                        } else {
                            None
                        }
                    },
                }
            } else {
                match skip_field(data, j, wire) {
                    None => None,
                    Some(k) => Some((k, acc)),
                }
            }
        },
    }
}

/// Decodes a wrapper datagram, or fails without a partial value.
pub fn deserialize_ssl(data: &[u8]) -> (r: Result<SslWrapperPacket, DecodeError>)
    ensures
        match r {
            Ok(w) => dec_ssl(data@) == Some(w@),
            Err(_) => dec_ssl(data@) is None,
        },
{
    let mut acc: Option<SslDetectionFrame> = None;
    let mut pos: usize = 0;
    loop
        invariant
            pos <= data@.len(),
            dec_ssl_from(data@, pos as int, opt_detection_view(acc)) == dec_ssl_from(data@, 0, None),
        decreases data@.len() - pos,
    {
        if pos == data.len() {
            return Ok(SslWrapperPacket { detection: acc });
        }
        match ssl_step(data, pos, acc) {
            None => {
                return Err(DecodeError);
            },
            Some((k, acc2)) => {
                pos = k;
                acc = acc2;
            },
        }
    }
}

/// The detection a snapshot exposes: the decoded one, or the empty frame.
pub open spec fn spec_detection(w: SslWrapperPacketView) -> SslDetectionFrameView {
    match w.detection {
        Some(d) => d,
        None => default_detection_view(),
    }
}

/// The ball a snapshot exposes: the first detection, or the zero ball.
pub open spec fn spec_ssl_ball(w: SslWrapperPacketView) -> SslDetectionBall {
    if spec_detection(w).balls.len() > 0 {
        spec_detection(w).balls[0]
    } else {
        default_ssl_ball()
    }
}

/// The first detection of `s` reported with id `id`, if any.
pub open spec fn find_ssl_robot(s: Seq<SslDetectionRobot>, id: u32) -> Option<SslDetectionRobot>
    decreases s.len(),
{
    if s.len() == 0 {
        None
    } else if s[0].robot_id == Some(id) {
        Some(s[0])
    } else {
        find_ssl_robot(s.skip(1), id)
    }
}

/// What one listener iteration does to the wrapper snapshot.
pub open spec fn ssl_vision_step(w: SslWrapperPacketView, data: Seq<u8>) -> SslWrapperPacketView {
    match dec_ssl(data) {
        Some(w2) => w2,
        None => w,
    }
}

/// Copies a ball-detection list.
fn copy_ssl_balls(v: &Vec<SslDetectionBall>) -> (r: Vec<SslDetectionBall>)
    ensures
        r@ == v@,
{
    let mut r: Vec<SslDetectionBall> = Vec::new();
    let mut i: usize = 0;
    while i < v.len()
        invariant
            i <= v@.len(),
            r@ == v@.subrange(0, i as int),
        decreases v@.len() - i,
    {
        r.push(v[i]);
        proof {
            assert(v@.subrange(0, i as int).push(v@[i as int]) =~= v@.subrange(0, i as int + 1));
        }
        i = i + 1;
    }
    proof {
        assert(v@.subrange(0, v@.len() as int) =~= v@);
    }
    r
}

/// Copies a robot-detection list.
fn copy_ssl_robots(v: &Vec<SslDetectionRobot>) -> (r: Vec<SslDetectionRobot>)
    ensures
        r@ == v@,
{
    let mut r: Vec<SslDetectionRobot> = Vec::new();
    let mut i: usize = 0;
    while i < v.len()
        invariant
            i <= v@.len(),
            r@ == v@.subrange(0, i as int),
        decreases v@.len() - i,
    {
        r.push(v[i]);
        proof {
            assert(v@.subrange(0, i as int).push(v@[i as int]) =~= v@.subrange(0, i as int + 1));
        }
        i = i + 1;
    }
    proof {
        assert(v@.subrange(0, v@.len() as int) =~= v@);
    }
    r
}

/// Copies a detection frame.
fn copy_detection(d: &SslDetectionFrame) -> (r: SslDetectionFrame)
    ensures
        r@ == d@,
{
    SslDetectionFrame {
        frame_number: d.frame_number,
        t_capture: d.t_capture,
        t_sent: d.t_sent,
        camera_id: d.camera_id,
        balls: copy_ssl_balls(&d.balls),
        robots_yellow: copy_ssl_robots(&d.robots_yellow),
        robots_blue: copy_ssl_robots(&d.robots_blue),
    }
}

/// Finds the first detection of `v` reported with id `id`.
fn find_ssl_in(v: &Vec<SslDetectionRobot>, id: u32) -> (r: Option<SslDetectionRobot>)
    ensures
        r == find_ssl_robot(v@, id),
{
    let mut i: usize = 0;
    proof {
        assert(v@.skip(0) =~= v@);
    }
    loop
        invariant
            i <= v@.len(),
            find_ssl_robot(v@, id) == find_ssl_robot(v@.skip(i as int), id),
        decreases v@.len() - i,
    {
        if i == v.len() {
            proof {
                assert(v@.skip(i as int) =~= Seq::<SslDetectionRobot>::empty());
            }
            return None;
        }
        let rb = v[i];
        proof {
            assert(v@.skip(i as int)[0] == v@[i as int]);
        }
        let matches_id = match rb.robot_id {
            Some(rid) => rid == id,
            None => false,
        };
        if matches_id {
            return Some(rb);
        }
        proof {
            assert(v@.skip(i as int).skip(1) =~= v@.skip(i as int + 1));
        }
        i = i + 1;
    }
}

/// The secondary-vision facade: holds the feed's snapshot store.
pub struct SSLVision {
    wrapper: SslWrapperPacket,
}

impl View for SSLVision {
    type V = SslWrapperPacketView;

    closed spec fn view(&self) -> SslWrapperPacketView {
        self.wrapper@
    }
}

impl SSLVision {
    /// A fresh store: the default snapshot, so reads never lack a value.
    pub fn new() -> (r: SSLVision)
        ensures
            r@ == default_wrapper_view(),
    {
        SSLVision { wrapper: SslWrapperPacket { detection: None } }
    }

    /// Snapshot store replace: the stored value is exchanged whole.
    pub fn replace(&mut self, wrapper: SslWrapperPacket)
        ensures
            final(self)@ == wrapper@,
    {
        self.wrapper = wrapper;
    }

    /// One listener iteration: decode and replace on success; on a decode
    /// failure the store keeps its exact value.
    pub fn ingest(&mut self, data: &[u8]) -> (updated: bool)
        ensures
            final(self)@ == ssl_vision_step(old(self)@, data@),
            updated == (dec_ssl(data@) is Some),
    {
        match deserialize_ssl(data) {
            Ok(w) => {
                self.wrapper = w;
                true
            },
            Err(_) => false,
        }
    }

    /// The current wrapper snapshot, as an independent copy.
    pub fn wrapper(&self) -> (r: SslWrapperPacket)
        ensures
            r@ == self@,
    {
        match &self.wrapper.detection {
            Some(d) => SslWrapperPacket { detection: Some(copy_detection(d)) },
            None => SslWrapperPacket { detection: None },
        }
    }

    /// The current detection frame, or the empty one while none has arrived.
    pub fn detection(&self) -> (r: SslDetectionFrame)
        ensures
            r@ == spec_detection(self@),
    {
        match &self.wrapper.detection {
            Some(d) => copy_detection(d),
            None => SslDetectionFrame {
                frame_number: 0,
                t_capture: 0,
                t_sent: 0,
                camera_id: 0,
                balls: Vec::new(),
                robots_yellow: Vec::new(),
                robots_blue: Vec::new(),
            },
        }
    }

    /// The first ball detection of the current frame, or the zero ball.
    pub fn ball(&self) -> (r: SslDetectionBall)
        ensures
            r == spec_ssl_ball(self@),
    {
        match &self.wrapper.detection {
            Some(d) => {
                if d.balls.len() > 0 {
                    d.balls[0]
                } else {
                    SslDetectionBall {
                        confidence: 0,
                        area: None,
                        x: 0,
                        y: 0,
                        z: None,
                        pixel_x: 0,
                        pixel_y: 0,
                    }
                }
            },
            None => SslDetectionBall {
                confidence: 0,
                area: None,
                x: 0,
                y: 0,
                z: None,
                pixel_x: 0,
                pixel_y: 0,
            },
        }
    }

    /// The yellow team's detections in the current frame.
    pub fn yellow_robots(&self) -> (r: Vec<SslDetectionRobot>)
        ensures
            r@ == spec_detection(self@).robots_yellow,
    {
        match &self.wrapper.detection {
            Some(d) => copy_ssl_robots(&d.robots_yellow),
            None => Vec::new(),
        }
    }

    /// The blue team's detections in the current frame.
    pub fn blue_robots(&self) -> (r: Vec<SslDetectionRobot>)
        ensures
            r@ == spec_detection(self@).robots_blue,
    {
        match &self.wrapper.detection {
            Some(d) => copy_ssl_robots(&d.robots_blue),
            None => Vec::new(),
        }
    }

    /// The first yellow detection with the given id, or an absent result.
    pub fn yellow_robot(&self, id: &u32) -> (r: Option<SslDetectionRobot>)
        ensures
            r == find_ssl_robot(spec_detection(self@).robots_yellow, *id),
    {
        match &self.wrapper.detection {
            Some(d) => find_ssl_in(&d.robots_yellow, *id),
            None => None,
        }
    }

    /// The first blue detection with the given id, or an absent result.
    pub fn blue_robot(&self, id: &u32) -> (r: Option<SslDetectionRobot>)
        ensures
            r == find_ssl_robot(spec_detection(self@).robots_blue, *id),
    {
        match &self.wrapper.detection {
            Some(d) => find_ssl_in(&d.robots_blue, *id),
            None => None,
        }
    }
}

} // verus!
