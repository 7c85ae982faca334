//! The simulator-vision facade: it owns the latest decoded environment (the
//! feed's snapshot store) and offers projections over it. The snapshot is
//! replaced only as a whole, and every read hands out an independent copy,
//! so no caller ever holds a reference into the store.
//!
//! The background receive loop lives with the transport: it hands each
//! datagram's bytes to [`FIRASim::ingest`], which decodes and either
//! replaces the snapshot or, on a malformed datagram, leaves it exactly as
//! it was.
use vstd::prelude::*;

use crate::fira::{
    Ball, Environment, EnvironmentView, Frame, FrameView, Robot, default_ball,
    default_environment_view, default_frame_view, dec_env, deserialize_env,
};

verus! {

/// The frame a snapshot exposes: the decoded one, or the empty frame while
/// none has arrived.
pub open spec fn spec_frame(e: EnvironmentView) -> FrameView {
    match e.frame {
        Some(f) => f,
        None => default_frame_view(),
    }
}

/// The ball a snapshot exposes: the frame's, or the zero ball.
pub open spec fn spec_ball(e: EnvironmentView) -> Ball {
    match spec_frame(e).ball {
        Some(b) => b,
        None => default_ball(),
    }
}

/// The first robot of `s` whose id is `id`, if any.
pub open spec fn find_robot(s: Seq<Robot>, id: u32) -> Option<Robot>
    decreases s.len(),
{
    if s.len() == 0 {
        None
    } else if s[0].robot_id == id {
        Some(s[0])
    } else {
        find_robot(s.skip(1), id)
    }
}

/// Law: what a lookup returns — the first robot bearing the id when one
/// exists, and an absent result exactly when none does.
pub proof fn lemma_find_robot_spec(s: Seq<Robot>, id: u32)
    ensures
        match find_robot(s, id) {
            Some(r) => exists|k: int|
                0 <= k < s.len() && s[k] == r && s[k].robot_id == id
                    && (forall|j: int| 0 <= j < k ==> s[j].robot_id != id),
            None => forall|k: int| 0 <= k < s.len() ==> s[k].robot_id != id,
        },
    decreases s.len(),
{
    if s.len() == 0 {
    } else if s[0].robot_id == id {
        let r = s[0];
        assert(0 <= 0 < s.len() && s[0] == r && s[0].robot_id == id
            && (forall|j: int| 0 <= j < 0 ==> s[j].robot_id != id));
        assert(exists|k: int|
            0 <= k < s.len() && s[k] == r && s[k].robot_id == id
                && (forall|j: int| 0 <= j < k ==> s[j].robot_id != id));
    } else {
        lemma_find_robot_spec(s.skip(1), id);
        match find_robot(s.skip(1), id) {
            None => {
                assert forall|k: int| 0 <= k < s.len() implies s[k].robot_id != id by {
                    if k >= 1 {
                        assert(s.skip(1)[k - 1] == s[k]);
                    }
                }
            },
            Some(r) => {
                let k = choose|k: int|
                    0 <= k < s.skip(1).len() && s.skip(1)[k] == r && s.skip(1)[k].robot_id == id
                        && (forall|j: int| 0 <= j < k ==> s.skip(1)[j].robot_id != id);
                assert(s.skip(1)[k] == s[k + 1]);
                assert forall|j: int| 0 <= j < k + 1 implies s[j].robot_id != id by {
                    if j >= 1 {
                        assert(s.skip(1)[j - 1] == s[j]);
                    }
                }
                assert(0 <= k + 1 < s.len() && s[k + 1] == r && s[k + 1].robot_id == id
                    && (forall|j: int| 0 <= j < k + 1 ==> s[j].robot_id != id));
                assert(exists|kk: int|
                    0 <= kk < s.len() && s[kk] == r && s[kk].robot_id == id
                        && (forall|j: int| 0 <= j < kk ==> s[j].robot_id != id));
            },
        }
    }
}

/// What one listener iteration does to a vision snapshot: a datagram that
/// decodes replaces it whole; one that does not leaves it untouched.
pub open spec fn vision_step(e: EnvironmentView, data: Seq<u8>) -> EnvironmentView {
    match dec_env(data) {
        Some(e2) => e2,
        None => e,
    }
}

/// Law: a malformed datagram leaves the snapshot unchanged, and a later
/// datagram lands exactly as if the malformed one had never arrived.
pub proof fn lemma_vision_step_resilient(e: EnvironmentView, bad: Seq<u8>, good: Seq<u8>)
    requires
        dec_env(bad) is None,
    ensures
        vision_step(e, bad) == e,
        vision_step(vision_step(e, bad), good) == vision_step(e, good),
{
}

/// Law: a freshly constructed store exposes the documented defaults — the
/// empty frame, the zero ball, and no robot under any id.
pub proof fn lemma_fresh_store_defaults()
    ensures
        spec_frame(default_environment_view()) == default_frame_view(),
        spec_ball(default_environment_view()) == default_ball(),
        forall|id: u32|
            find_robot(spec_frame(default_environment_view()).robots_yellow, id) is None,
        forall|id: u32|
            find_robot(spec_frame(default_environment_view()).robots_blue, id) is None,
{
}

/// Copies a robot list.
fn copy_robots(v: &Vec<Robot>) -> (r: Vec<Robot>)
    ensures
        r@ == v@,
{
    let mut r: Vec<Robot> = Vec::new();
    let mut i: usize = 0;
    while i < v.len()
        invariant
            i <= v@.len(),
            r@ == v@.subrange(0, i as int),
        decreases v@.len() - i,
    {
        r.push(v[i]);
        proof {
            assert(v@.subrange(0, i as int).push(v@[i as int]) =~= v@.subrange(0, i as int + 1));
        }
        i = i + 1;
    }
    proof {
        assert(v@.subrange(0, v@.len() as int) =~= v@);
    }
    r
}

/// Copies a frame.
fn copy_frame(f: &Frame) -> (r: Frame)
    ensures
        r@ == f@,
{
    Frame {
        ball: f.ball,
        robots_yellow: copy_robots(&f.robots_yellow),
        robots_blue: copy_robots(&f.robots_blue),
    }
}

/// Copies an environment.
fn copy_environment(e: &Environment) -> (r: Environment)
    ensures
        r@ == e@,
{
    match &e.frame {
        Some(f) => Environment { frame: Some(copy_frame(f)) },
        None => Environment { frame: None },
    }
}

/// Finds the first robot of `v` whose id is `id`.
fn find_in(v: &Vec<Robot>, id: u32) -> (r: Option<Robot>)
    ensures
        r == find_robot(v@, id),
{
    let mut i: usize = 0;
    proof {
        assert(v@.skip(0) =~= v@);
    }
    loop
        invariant
            i <= v@.len(),
            find_robot(v@, id) == find_robot(v@.skip(i as int), id),
        decreases v@.len() - i,
    {
        if i == v.len() {
            proof {
                assert(v@.skip(i as int) =~= Seq::<Robot>::empty());
            }
            return None;
        }
        let rb = v[i];
        proof {
            assert(v@.skip(i as int)[0] == v@[i as int]);
        }
        if rb.robot_id == id {
            return Some(rb);
        }
        proof {
            assert(v@.skip(i as int).skip(1) =~= v@.skip(i as int + 1));
        }
        i = i + 1;
    }
}

/// The simulator-vision facade: holds the feed's snapshot store.
pub struct FIRASim {
    env: Environment,
}

impl View for FIRASim {
    type V = EnvironmentView;

    closed spec fn view(&self) -> EnvironmentView {
        self.env@
    }
}

impl FIRASim {
    /// A fresh store: the default snapshot, so reads never lack a value.
    pub fn new() -> (r: FIRASim)
        ensures
            r@ == default_environment_view(),
    {
        FIRASim { env: Environment { frame: None } }
    }

    /// Snapshot store replace: the stored value is exchanged whole — no
    /// reader can ever observe a mixture of two snapshots.
    pub fn replace(&mut self, env: Environment)
        ensures
            final(self)@ == env@,
    {
        self.env = env;
    }

    /// One listener iteration: decode the datagram and replace the snapshot
    /// on success; on a decode failure the store keeps its exact value.
    pub fn ingest(&mut self, data: &[u8]) -> (updated: bool)
        ensures
            final(self)@ == vision_step(old(self)@, data@),
            updated == (dec_env(data@) is Some),
    {
        match deserialize_env(data) {
            Ok(e) => {
                self.env = e;
                true
            },
            Err(_) => false,
        }
    }

    /// The current snapshot, as an independent copy.
    pub fn environment(&self) -> (r: Environment)
        ensures
            r@ == self@,
    {
        copy_environment(&self.env)
    }

    /// The current frame, or the empty frame while none has arrived.
    pub fn frame(&self) -> (r: Frame)
        ensures
            r@ == spec_frame(self@),
    {
        match &self.env.frame {
            Some(f) => copy_frame(f),
            None => Frame { ball: None, robots_yellow: Vec::new(), robots_blue: Vec::new() },
        }
    }

    /// The current ball, or the zero ball while none has been seen.
    pub fn ball(&self) -> (r: Ball)
        ensures
            r == spec_ball(self@),
    {
        match &self.env.frame {
            Some(f) => match f.ball {
                Some(b) => b,
                None => Ball { x: 0, y: 0, z: 0, vx: 0, vy: 0, vz: 0 },
            },
            None => Ball { x: 0, y: 0, z: 0, vx: 0, vy: 0, vz: 0 },
        }
    }

    /// The yellow team's robots in the current frame.
    pub fn yellow_robots(&self) -> (r: Vec<Robot>)
        ensures
            r@ == spec_frame(self@).robots_yellow,
    {
        match &self.env.frame {
            Some(f) => copy_robots(&f.robots_yellow),
            None => Vec::new(),
        }
    }

    /// The blue team's robots in the current frame.
    pub fn blue_robots(&self) -> (r: Vec<Robot>)
        ensures
            r@ == spec_frame(self@).robots_blue,
    {
        match &self.env.frame {
            Some(f) => copy_robots(&f.robots_blue),
            None => Vec::new(),
        }
    }

    /// The first yellow robot with the given id, or an absent result when
    /// the current frame has none.
    pub fn yellow_robot(&self, id: &u32) -> (r: Option<Robot>)
        ensures
            r == find_robot(spec_frame(self@).robots_yellow, *id),
    {
        match &self.env.frame {
            Some(f) => find_in(&f.robots_yellow, *id),
            None => None,
        }
    }

    /// The first blue robot with the given id, or an absent result when the
    /// current frame has none.
    pub fn blue_robot(&self, id: &u32) -> (r: Option<Robot>)
        ensures
            r == find_robot(spec_frame(self@).robots_blue, *id),
    {
        match &self.env.frame {
            Some(f) => find_in(&f.robots_blue, *id),
            None => None,
        }
    }
}

} // verus!
