//! The referee schema and facade: a flat record of foul code, team colour,
//! foul quadrant, timestamp (a double's bit pattern) and game half, plus the
//! mapping from the raw foul code to its enumerated meaning.
//!
//! Field numbers: `foul` (1, varint), `teamcolor` (2, varint),
//! `foul_quadrant` (3, varint), `timestamp` (4, 64-bit), `game_half`
//! (5, varint). Enumerated members travel as varints and are kept as the raw
//! `i32` the schema defines; the decoder accepts members in any order, lets
//! the last occurrence win, and skips unknown fields.
use vstd::prelude::*;

use crate::DecodeError;
use crate::wire::{varint_at, fixed64_at, skip_at, read_varint, read_fixed64, skip_field};

verus! {

/// The referee's latest word, as the schema carries it.
#[derive(Clone, Copy, PartialEq, Eq, Structural, Debug)]
pub struct VssRefCommand {
    pub foul: i32,
    pub teamcolor: i32,
    pub foul_quadrant: i32,
    pub timestamp: u64,
    pub game_half: i32,
}

/// The referee record a store holds before the first datagram: all zero.
pub open spec fn default_vssref() -> VssRefCommand {
    VssRefCommand { foul: 0, teamcolor: 0, foul_quadrant: 0, timestamp: 0, game_half: 0 }
}

/// The enumerated meaning of a foul code.
#[derive(Clone, Copy, PartialEq, Eq, Structural, Debug)]
pub enum Foul {
    FreeKick,
    PenaltyKick,
    GoalKick,
    FreeBall,
    Kickoff,
    Stop,
    GameOn,
    Halt,
}

/// The documented meaning of each code: 0 through 7 name a variant, and any
/// other value falls back to a free kick.
pub open spec fn spec_foul_of_code(code: int) -> Foul {
    if code == 0 {
        Foul::FreeKick
    } else if code == 1 {
        Foul::PenaltyKick
    } else if code == 2 {
        Foul::GoalKick
    } else if code == 3 {
        Foul::FreeBall
    } else if code == 4 {
        Foul::Kickoff
    } else if code == 5 {
        Foul::Stop
    } else if code == 6 {
        Foul::GameOn
    } else if code == 7 {
        Foul::Halt
    } else {
        Foul::FreeKick
    }
}

/// Maps a raw foul code to its enumerated meaning.
pub fn foul_of_code(code: i32) -> (r: Foul)
    ensures
        r == spec_foul_of_code(code as int),
{
    if code == 0 {
        Foul::FreeKick
    } else if code == 1 {
        Foul::PenaltyKick
    } else if code == 2 {
        Foul::GoalKick
    } else if code == 3 {
        Foul::FreeBall
    } else if code == 4 {
        Foul::Kickoff
    } else if code == 5 {
        Foul::Stop
    } else if code == 6 {
        Foul::GameOn
    } else if code == 7 {
        Foul::Halt
    } else {
        Foul::FreeKick
    }
}

/// Law: the foul mapping is total — each code of the defined range names
/// its variant, and every code outside it falls back to the free kick.
pub proof fn lemma_foul_code_total(code: i32)
    ensures
        code == 0 ==> spec_foul_of_code(code as int) == Foul::FreeKick,
        code == 1 ==> spec_foul_of_code(code as int) == Foul::PenaltyKick,
        code == 2 ==> spec_foul_of_code(code as int) == Foul::GoalKick,
        code == 3 ==> spec_foul_of_code(code as int) == Foul::FreeBall,
        code == 4 ==> spec_foul_of_code(code as int) == Foul::Kickoff,
        code == 5 ==> spec_foul_of_code(code as int) == Foul::Stop,
        code == 6 ==> spec_foul_of_code(code as int) == Foul::GameOn,
        code == 7 ==> spec_foul_of_code(code as int) == Foul::Halt,
        code < 0 || code > 7 ==> spec_foul_of_code(code as int) == Foul::FreeKick,
{
}

// ---------- decoding ----------

/// `acc` with the varint member numbered `field` set to `v` (truncated to
/// the schema's 32-bit signed range).
pub open spec fn ref_with(acc: VssRefCommand, field: u64, v: u64) -> VssRefCommand {
    if field == 1 {
        VssRefCommand { foul: v as i32, teamcolor: acc.teamcolor,
            foul_quadrant: acc.foul_quadrant, timestamp: acc.timestamp,
            game_half: acc.game_half }
    } else if field == 2 {
        VssRefCommand { foul: acc.foul, teamcolor: v as i32,
            foul_quadrant: acc.foul_quadrant, timestamp: acc.timestamp,
            game_half: acc.game_half }
    } else if field == 3 {
        VssRefCommand { foul: acc.foul, teamcolor: acc.teamcolor,
            foul_quadrant: v as i32, timestamp: acc.timestamp,
            game_half: acc.game_half }
    } else {
        VssRefCommand { foul: acc.foul, teamcolor: acc.teamcolor,
            foul_quadrant: acc.foul_quadrant, timestamp: acc.timestamp,
            game_half: v as i32 }
    }
}

/// Field loop of the referee decoder.
pub open spec fn dec_ref_from(s: Seq<u8>, i: int, acc: VssRefCommand) -> Option<VssRefCommand>
    decreases s.len() - i,
{
    if i < 0 || i > s.len() {
        None
    } else if i == s.len() {
        Some(acc)
    } else {
        match varint_at(s, i) {
            None => None,
            Some((tag, j)) => {
                if !(i < j && j <= s.len()) {
                    None
                } else {
                    let field = tag >> 3;
                    let wire = tag & 7;
                    if wire == 0 && (field == 1 || field == 2 || field == 3 || field == 5) {
                        match varint_at(s, j) {
                            None => None,
                            Some((v, k)) => if j < k && k <= s.len() {
                                dec_ref_from(s, k, ref_with(acc, field, v))
                            } else {
                                None
                            },
                        }
                    } else if field == 4 && wire == 1 {
                        match fixed64_at(s, j) {
                            None => None,
                            Some((v, k)) => if j < k && k <= s.len() {
                                dec_ref_from(s, k, VssRefCommand {
                                    foul: acc.foul,
                                    teamcolor: acc.teamcolor,
                                    foul_quadrant: acc.foul_quadrant,
                                    timestamp: v,
                                    game_half: acc.game_half,
                                })
                            } else {
                                None
                            },
                        }
                    } else {
                        match skip_at(s, j, wire) {
                            None => None,
                            Some(k) => if i < k && k <= s.len() {
                                dec_ref_from(s, k, acc)
                            } else {
                                None
                            },
                        }
                    }
                }
            },
        }
    }
}

/// Decoding a referee datagram's bytes.
pub open spec fn dec_ref(s: Seq<u8>) -> Option<VssRefCommand> {
    dec_ref_from(s, 0, default_vssref())
}

/// Reads one field of a referee record at `pos`, folding it into `acc`.
fn ref_step(data: &[u8], pos: usize, acc: VssRefCommand) -> (r: Option<(usize, VssRefCommand)>)
    requires
        pos < data@.len(),
    ensures
        match r {
            Some((k, acc2)) => pos < k <= data@.len()
                && dec_ref_from(data@, pos as int, acc) == dec_ref_from(data@, k as int, acc2),
            None => dec_ref_from(data@, pos as int, acc) is None,
        },
{
    match read_varint(data, pos) {
        None => None,
        Some((tag, j)) => {
            let field = tag >> 3;
            let wire = tag & 7;
            if wire == 0 && (field == 1 || field == 2 || field == 3 || field == 5) {
                match read_varint(data, j) {
                    None => None,
                    Some((v, k)) => {
                        let value = #[verifier::truncate] (v as i32);
                        let acc2 = if field == 1 {
                            VssRefCommand { foul: value, ..acc }
                        } else if field == 2 {
                            VssRefCommand { teamcolor: value, ..acc }
                        } else if field == 3 {
                            VssRefCommand { foul_quadrant: value, ..acc }
                        } else {
                            VssRefCommand { game_half: value, ..acc }
                        };
                        assert(acc2 == ref_with(acc, field, v));
                        Some((k, acc2))
                    },
                }
            } else if field == 4 && wire == 1 {
                match read_fixed64(data, j) {
                    None => None,
                    Some((v, k)) => Some((k, VssRefCommand { timestamp: v, ..acc })),
                }
            } else {
                match skip_field(data, j, wire) {
                    None => None,
                    Some(k) => Some((k, acc)),
                }
            }
        },
    }
}

/// Decodes a referee datagram, or fails without a partial value.
pub fn deserialize_ref(data: &[u8]) -> (r: Result<VssRefCommand, DecodeError>)
    ensures
        match r {
            Ok(c) => dec_ref(data@) == Some(c),
            Err(_) => dec_ref(data@) is None,
        },
{
    let mut acc = VssRefCommand {
        foul: 0,
        teamcolor: 0,
        foul_quadrant: 0,
        timestamp: 0,
        game_half: 0,
    };
    let mut pos: usize = 0;
    loop
        invariant
            pos <= data@.len(),
            dec_ref_from(data@, pos as int, acc) == dec_ref(data@),
        decreases data@.len() - pos,
    {
        if pos == data.len() {
            return Ok(acc);
        }
        match ref_step(data, pos, acc) {
            None => {
                return Err(DecodeError);
            },
            Some((k, acc2)) => {
                pos = k;
                acc = acc2;
            },
        }
    }
}

/// What one listener iteration does to the referee snapshot.
pub open spec fn referee_step(c: VssRefCommand, data: Seq<u8>) -> VssRefCommand {
    match dec_ref(data) {
        Some(c2) => c2,
        None => c,
    }
}

/// The referee facade: holds the feed's snapshot store.
pub struct Referee {
    referee: VssRefCommand,
}

impl View for Referee {
    type V = VssRefCommand;

    closed spec fn view(&self) -> VssRefCommand {
        self.referee
    }
}

impl Referee {
    /// A fresh store: the all-zero record, so reads never lack a value.
    pub fn new() -> (r: Referee)
        ensures
            r@ == default_vssref(),
    {
        Referee {
            referee: VssRefCommand {
                foul: 0,
                teamcolor: 0,
                foul_quadrant: 0,
                timestamp: 0,
                game_half: 0,
            },
        }
    }

    /// Snapshot store replace: the stored record is exchanged whole.
    pub fn replace(&mut self, referee: VssRefCommand)
        ensures
            final(self)@ == referee,
    {
        self.referee = referee;
    }

    /// One listener iteration: decode and replace on success; on a decode
    /// failure the store keeps its exact value.
    pub fn ingest(&mut self, data: &[u8]) -> (updated: bool)
        ensures
            final(self)@ == referee_step(old(self)@, data@),
            updated == (dec_ref(data@) is Some),
    {
        match deserialize_ref(data) {
            Ok(c) => {
                self.referee = c;
                true
            },
            Err(_) => false,
        }
    }

    /// The current referee record, as a copy.
    pub fn referee(&self) -> (r: VssRefCommand)
        ensures
            r == self@,
    {
        self.referee
    }

    /// The enumerated meaning of the current foul code.
    pub fn foul(&self) -> (r: Foul)
        ensures
            r == spec_foul_of_code(self@.foul as int),
    {
        foul_of_code(self.referee.foul)
    }
}

} // verus!
