//! The outbound command schema and its codec: a packet wraps an optional
//! list of per-robot commands, each carrying a robot id, a team flag and two
//! wheel-speed setpoints (IEEE-754 double bit patterns).
//!
//! Field numbers of the schema: a command has `id` (1, varint),
//! `yellowteam` (2, varint), `wheel_left` (3, 64-bit) and `wheel_right`
//! (4, 64-bit); a command list repeats `robot_commands` (1, bytes); a packet
//! has `cmd` (1, bytes). The packet schema also defines a placement
//! directive as member 2, which this library never produces and skips when
//! decoding. The encoder writes every member of a command in field order;
//! the decoder accepts members in any order, lets the last occurrence of a
//! member win, and skips unknown fields.
use vstd::prelude::*;

use crate::DecodeError;
use crate::wire::{
    varint_enc, varint_at, u64_le_enc, fixed64_at, skip_at,
    read_varint, read_fixed64, skip_field, push_varint, push_fixed64,
    lemma_varint_at_enc, lemma_varint_enc_len_u32, lemma_fixed64_at_enc, lemma_subrange_within,
};

verus! {

/// One robot's instruction: wheel speeds are IEEE-754 double bit patterns.
#[derive(Clone, Copy, PartialEq, Eq, Structural, Debug)]
pub struct Command {
    pub id: u32,
    pub yellowteam: bool,
    pub wheel_left: u64,
    pub wheel_right: u64,
}

impl Command {
    pub fn new(id: u32, yellowteam: bool, wheel_left: u64, wheel_right: u64) -> (r: Command)
        ensures
            r == (Command { id, yellowteam, wheel_left, wheel_right }),
    {
        Command { id, yellowteam, wheel_left, wheel_right }
    }
}

/// The command value a decoder starts from: all members at their zero value.
pub open spec fn default_command() -> Command {
    Command { id: 0, yellowteam: false, wheel_left: 0, wheel_right: 0 }
}

/// A list of per-robot commands.
pub struct Commands {
    pub robot_commands: Vec<Command>,
}

impl View for Commands {
    type V = Seq<Command>;

    open spec fn view(&self) -> Seq<Command> {
        self.robot_commands@
    }
}

impl Commands {
    pub fn new(commands: Vec<Command>) -> (r: Commands)
        ensures
            r@ == commands@,
    {
        Commands { robot_commands: commands }
    }
}

/// The outbound packet: an optional command list. The schema's placement
/// member is out of this library's scope and always omitted.
pub struct Packet {
    pub cmd: Option<Commands>,
}

impl View for Packet {
    type V = Option<Seq<Command>>;

    open spec fn view(&self) -> Option<Seq<Command>> {
        match self.cmd {
            Some(c) => Some(c@),
            None => None,
        }
    }
}

// ---------- encoding ----------

/// Canonical encoding of one command: every member, in field order.
pub open spec fn enc_command(c: Command) -> Seq<u8> {
    seq![0x08u8] + varint_enc(c.id as u64)
    + seq![0x10u8] + varint_enc(if c.yellowteam { 1u64 } else { 0u64 })
    + seq![0x19u8] + u64_le_enc(c.wheel_left)
    + seq![0x21u8] + u64_le_enc(c.wheel_right)
}

/// One element of the repeated command member: tag, byte length, body.
pub open spec fn enc_command_frame(c: Command) -> Seq<u8> {
    seq![0x0au8] + varint_enc(enc_command(c).len() as u64) + enc_command(c)
}

/// Canonical encoding of a command list.
pub open spec fn enc_commands(cs: Seq<Command>) -> Seq<u8>
    decreases cs.len(),
{
    if cs.len() == 0 {
        Seq::<u8>::empty()
    } else {
        enc_command_frame(cs[0]) + enc_commands(cs.skip(1))
    }
}

/// Canonical encoding of a packet.
pub open spec fn enc_packet(cmd: Option<Seq<Command>>) -> Seq<u8> {
    match cmd {
        Some(cs) => seq![0x0au8] + varint_enc(enc_commands(cs).len() as u64) + enc_commands(cs),
        None => Seq::<u8>::empty(),
    }
}

/// Appends the encoding of one command to `buf`.
fn encode_command(c: Command, buf: &mut Vec<u8>)
    ensures
        final(buf)@ == old(buf)@ + enc_command(c),
{
    buf.push(0x08);
    push_varint(buf, c.id as u64);
    buf.push(0x10);
    push_varint(buf, if c.yellowteam { 1u64 } else { 0u64 });
    buf.push(0x19);
    push_fixed64(buf, c.wheel_left);
    buf.push(0x21);
    push_fixed64(buf, c.wheel_right);
    assert(buf@ =~= old(buf)@ + enc_command(c));
}

/// Appending one command to a list appends one frame to its encoding.
proof fn lemma_enc_commands_snoc(cs: Seq<Command>, c: Command)
    ensures
        enc_commands(cs.push(c)) == enc_commands(cs) + enc_command_frame(c),
    decreases cs.len(),
{
    if cs.len() == 0 {
        assert(cs.push(c)[0] == c);
        assert(cs.push(c).skip(1) =~= Seq::<Command>::empty());
        assert(enc_command_frame(c) + enc_commands(Seq::<Command>::empty())
            =~= enc_commands(cs) + enc_command_frame(c));
    } else {
        assert(cs.push(c)[0] == cs[0]);
        assert(cs.push(c).skip(1) =~= cs.skip(1).push(c));
        lemma_enc_commands_snoc(cs.skip(1), c);
        assert(enc_commands(cs.push(c)) =~= enc_commands(cs) + enc_command_frame(c));
    }
}

/// Encodes a command list.
fn encode_commands(cs: &Vec<Command>) -> (r: Vec<u8>)
    ensures
        r@ == enc_commands(cs@),
{
    let mut buf: Vec<u8> = Vec::new();
    let mut idx: usize = 0;
    while idx < cs.len()
        invariant
            idx <= cs@.len(),
            buf@ == enc_commands(cs@.subrange(0, idx as int)),
        decreases cs@.len() - idx,
    {
        let c = cs[idx];
        let mut body: Vec<u8> = Vec::new();
        encode_command(c, &mut body);
        buf.push(0x0a);
        push_varint(&mut buf, body.len() as u64);
        buf.append(&mut body);
        proof {
            lemma_enc_commands_snoc(cs@.subrange(0, idx as int), c);
            assert(cs@.subrange(0, idx as int).push(c) =~= cs@.subrange(0, idx as int + 1));
            assert(buf@ =~= enc_commands(cs@.subrange(0, idx as int + 1)));
        }
        idx = idx + 1;
    }
    proof {
        assert(cs@.subrange(0, cs@.len() as int) =~= cs@);
    }
    buf
}

/// Encodes a packet as one datagram's bytes.
pub fn serialize_packet(packet: Packet) -> (r: Vec<u8>)
    ensures
        r@ == enc_packet(packet@),
{
    match packet.cmd {
        Some(c) => {
            let mut body = encode_commands(&c.robot_commands);
            let mut buf: Vec<u8> = Vec::new();
            buf.push(0x0a);
            push_varint(&mut buf, body.len() as u64);
            buf.append(&mut body);
            proof {
                assert(buf@ =~= enc_packet(packet@));
            }
            buf
        },
        None => {
            let buf: Vec<u8> = Vec::new();
            proof {
                assert(buf@ =~= enc_packet(packet@));
            }
            buf
        },
    }
}

/// The single datagram that carries a command list: the compute half of the
/// outbound send path. The transport sends these bytes as one datagram to
/// the control endpoint; a transport failure never touches any snapshot.
pub fn command_datagram(commands: Vec<Command>) -> (r: Vec<u8>)
    ensures
        r@ == enc_packet(Some(commands@)),
{
    let cmds = Commands::new(commands);
    serialize_packet(Packet { cmd: Some(cmds) })
}

// ---------- decoding ----------

/// Field loop of the command decoder, from index `i` with the members read
/// so far in `acc`.
pub open spec fn dec_command_from(s: Seq<u8>, i: int, acc: Command) -> Option<Command>
    decreases s.len() - i,
{
    if i < 0 || i > s.len() {
        None
    } else if i == s.len() {
        Some(acc)
    } else {
        match varint_at(s, i) {
            None => None,
            Some((tag, j)) => {
                if !(i < j && j <= s.len()) {
                    None
                } else {
                    let field = tag >> 3;
                    let wire = tag & 7;
                    if field == 1 && wire == 0 {
                        match varint_at(s, j) {
                            None => None,
                            Some((v, k)) => if j < k && k <= s.len() {
                                dec_command_from(s, k, Command {
                                    id: v as u32,
                                    yellowteam: acc.yellowteam,
                                    wheel_left: acc.wheel_left,
                                    wheel_right: acc.wheel_right,
                                })
                            } else {
                                None
                            },
                        }
                    } else if field == 2 && wire == 0 {
                        match varint_at(s, j) {
                            None => None,
                            Some((v, k)) => if j < k && k <= s.len() {
                                dec_command_from(s, k, Command {
                                    id: acc.id,
                                    yellowteam: v != 0,
                                    wheel_left: acc.wheel_left,
                                    wheel_right: acc.wheel_right,
                                })
                            } else {
                                None
                            },
                        }
                    } else if field == 3 && wire == 1 {
                        match fixed64_at(s, j) {
                            None => None,
                            Some((v, k)) => if j < k && k <= s.len() {
                                dec_command_from(s, k, Command {
                                    id: acc.id,
                                    yellowteam: acc.yellowteam,
                                    wheel_left: v,
                                    wheel_right: acc.wheel_right,
                                })
                            } else {
                                None
                            },
                        }
                    } else if field == 4 && wire == 1 {
                        match fixed64_at(s, j) {
                            None => None,
                            Some((v, k)) => if j < k && k <= s.len() {
                                dec_command_from(s, k, Command {
                                    id: acc.id,
                                    yellowteam: acc.yellowteam,
                                    wheel_left: acc.wheel_left,
                                    wheel_right: v,
                                })
                            } else {
                                None
                            },
                        }
                    } else {
                        match skip_at(s, j, wire) {
                            None => None,
                            Some(k) => if i < k && k <= s.len() {
                                dec_command_from(s, k, acc)
                            } else {
                                None
                            },
                        }
                    }
                }
            },
        }
    }
}

/// Decoding one command's bytes.
pub open spec fn dec_command(s: Seq<u8>) -> Option<Command> {
    dec_command_from(s, 0, default_command())
}

/// Field loop of the command-list decoder.
pub open spec fn dec_commands_from(s: Seq<u8>, i: int, acc: Seq<Command>) -> Option<Seq<Command>>
    decreases s.len() - i,
{
    if i < 0 || i > s.len() {
        None
    } else if i == s.len() {
        Some(acc)
    } else {
        match varint_at(s, i) {
            None => None,
            Some((tag, j)) => {
                if !(i < j && j <= s.len()) {
                    None
                } else {
                    let field = tag >> 3;
                    let wire = tag & 7;
                    if field == 1 && wire == 2 {
                        match varint_at(s, j) {
                            None => None,
                            Some((l, k)) => if j < k && k + l <= s.len() {
                                match dec_command(s.subrange(k, k + l)) {
                                    None => None,
                                    Some(c) => dec_commands_from(s, k + l, acc.push(c)),
                                }
                            } else {
                                None
                            },
                        }
                    } else {
                        match skip_at(s, j, wire) {
                            None => None,
                            Some(k) => if i < k && k <= s.len() {
                                dec_commands_from(s, k, acc)
                            } else {
                                None
                            },
                        }
                    }
                }
            },
        }
    }
}

/// Decoding a command list's bytes.
pub open spec fn dec_commands(s: Seq<u8>) -> Option<Seq<Command>> {
    dec_commands_from(s, 0, Seq::<Command>::empty())
}

/// Field loop of the packet decoder.
pub open spec fn dec_packet_from(s: Seq<u8>, i: int, acc: Option<Seq<Command>>) -> Option<
    Option<Seq<Command>>,
>
    decreases s.len() - i,
{
    if i < 0 || i > s.len() {
        None
    } else if i == s.len() {
        Some(acc)
    } else {
        match varint_at(s, i) {
            None => None,
            Some((tag, j)) => {
                if !(i < j && j <= s.len()) {
                    None
                } else {
                    let field = tag >> 3;
                    let wire = tag & 7;
                    if field == 1 && wire == 2 {
                        match varint_at(s, j) {
                            None => None,
                            Some((l, k)) => if j < k && k + l <= s.len() {
                                match dec_commands(s.subrange(k, k + l)) {
                                    None => None,
                                    Some(cs) => dec_packet_from(s, k + l, Some(cs)),
                                }
                            } else {
                                None
                            },
                        }
                    } else {
                        match skip_at(s, j, wire) {
                            None => None,
                            Some(k) => if i < k && k <= s.len() {
                                dec_packet_from(s, k, acc)
                            } else {
                                None
                            },
                        }
                    }
                }
            },
        }
    }
}

/// Decoding a packet's bytes.
pub open spec fn dec_packet(s: Seq<u8>) -> Option<Option<Seq<Command>>> {
    dec_packet_from(s, 0, None)
}

// ---------- round trip ----------

/// Values of the tag bytes the command schema uses.
proof fn lemma_tag_values()
    ensures
        0x08u64 >> 3 == 1 && 0x08u64 & 7 == 0,
        0x10u64 >> 3 == 2 && 0x10u64 & 7 == 0,
        0x19u64 >> 3 == 3 && 0x19u64 & 7 == 1,
        0x21u64 >> 3 == 4 && 0x21u64 & 7 == 1,
        0x0au64 >> 3 == 1 && 0x0au64 & 7 == 2,
{
    assert((0x08u64 >> 3 == 1) && (0x08u64 & 7 == 0) && (0x10u64 >> 3 == 2) && (0x10u64 & 7 == 0)
        && (0x19u64 >> 3 == 3) && (0x19u64 & 7 == 1) && (0x21u64 >> 3 == 4) && (0x21u64 & 7 == 1)
        && (0x0au64 >> 3 == 1) && (0x0au64 & 7 == 2)) by (bit_vector);
}

/// One encoded command takes at most 26 bytes.
proof fn lemma_enc_command_len(c: Command)
    ensures
        enc_command(c).len() <= 26,
{
    lemma_varint_enc_len_u32(c.id as u64);
    assert(varint_enc(if c.yellowteam { 1u64 } else { 0u64 }).len() == 1);
}

/// Decoding one encoded command recovers it.
proof fn lemma_dec_command_enc(c: Command)
    ensures
        dec_command(enc_command(c)) == Some(c),
{
    let s = enc_command(c);
    let idv: u64 = c.id as u64;
    let bv: u64 = if c.yellowteam { 1u64 } else { 0u64 };
    let e1 = varint_enc(idv);
    let e2 = varint_enc(bv);
    let e3 = u64_le_enc(c.wheel_left);
    let e4 = u64_le_enc(c.wheel_right);
    lemma_varint_enc_len_u32(idv);
    assert(e2.len() == 1);
    lemma_tag_values();

    let p2: int = 1 + e1.len() as int;
    let p3: int = p2 + 1;
    let p4: int = p3 + 1;
    let p5: int = p4 + 1;
    let p6: int = p5 + 8;
    let p7: int = p6 + 1;
    let p8: int = p7 + 8;
    assert(s.len() == p8);

    assert(s[0] == 0x08);
    assert(s.subrange(1, p2) =~= e1);
    assert(s[p2] == 0x10);
    assert(s.subrange(p3, p4) =~= e2);
    assert(s[p4] == 0x19);
    assert(s.subrange(p5, p6) =~= e3);
    assert(s[p6] == 0x21);
    assert(s.subrange(p7, p8) =~= e4);

    let a0 = default_command();
    let a1 = Command {
        id: c.id,
        yellowteam: a0.yellowteam,
        wheel_left: a0.wheel_left,
        wheel_right: a0.wheel_right,
    };
    let a2 = Command {
        id: a1.id,
        yellowteam: c.yellowteam,
        wheel_left: a1.wheel_left,
        wheel_right: a1.wheel_right,
    };
    let a3 = Command {
        id: a2.id,
        yellowteam: a2.yellowteam,
        wheel_left: c.wheel_left,
        wheel_right: a2.wheel_right,
    };

    assert(varint_at(s, 0) == Some((0x08u64, 1int)));
    lemma_varint_at_enc(s, 1, idv);
    assert(dec_command_from(s, 0, a0) == dec_command_from(s, p2, a1));

    assert(varint_at(s, p2) == Some((0x10u64, p3)));
    lemma_varint_at_enc(s, p3, bv);
    assert((bv != 0) == c.yellowteam);
    assert(dec_command_from(s, p2, a1) == dec_command_from(s, p4, a2));

    assert(varint_at(s, p4) == Some((0x19u64, p5)));
    lemma_fixed64_at_enc(s, p5, c.wheel_left);
    assert(dec_command_from(s, p4, a2) == dec_command_from(s, p6, a3));

    assert(varint_at(s, p6) == Some((0x21u64, p7)));
    lemma_fixed64_at_enc(s, p7, c.wheel_right);
    assert(dec_command_from(s, p6, a3) == dec_command_from(s, p8, c));

    assert(dec_command_from(s, p8, c) == Some(c));
}

/// An encoded command list takes at most 28 bytes per command.
proof fn lemma_enc_commands_len(cs: Seq<Command>)
    ensures
        enc_commands(cs).len() <= 28 * cs.len(),
    decreases cs.len(),
{
    if cs.len() > 0 {
        lemma_enc_command_len(cs[0]);
        assert(varint_enc(enc_command(cs[0]).len() as u64).len() == 1);
        lemma_enc_commands_len(cs.skip(1));
    }
}

/// Decoding the remainder of a buffer that holds an encoded command list
/// appends exactly those commands.
proof fn lemma_dec_commands_from_enc(s: Seq<u8>, i: int, cs: Seq<Command>, acc: Seq<Command>)
    requires
        0 <= i <= s.len(),
        s.len() == i + enc_commands(cs).len(),
        s.subrange(i, s.len() as int) == enc_commands(cs),
    ensures
        dec_commands_from(s, i, acc) == Some(acc + cs),
    decreases cs.len(),
{
    if cs.len() == 0 {
        assert(i == s.len());
        assert(acc + cs =~= acc);
    } else {
        let c = cs[0];
        let body = enc_command(c);
        let lv = varint_enc(body.len() as u64);
        let frame = enc_command_frame(c);
        let rest = enc_commands(cs.skip(1));
        let t = enc_commands(cs);
        assert(t == frame + rest);
        lemma_enc_command_len(c);
        assert(lv.len() == 1);
        lemma_tag_values();

        assert(t[0] == 0x0a);
        assert(s[i] == t[0]);
        assert(varint_at(s, i) == Some((0x0au64, i + 1)));

        lemma_subrange_within(s, i, t, 1, 1 + lv.len() as int);
        assert(t.subrange(1, 1 + lv.len() as int) =~= lv);
        lemma_varint_at_enc(s, i + 1, body.len() as u64);
        let k: int = i + 1 + lv.len() as int;

        lemma_subrange_within(s, i, t, 1 + lv.len() as int, frame.len() as int);
        assert(t.subrange(1 + lv.len() as int, frame.len() as int) =~= body);
        lemma_dec_command_enc(c);
        assert(dec_command(s.subrange(k, k + body.len() as int)) == Some(c));

        let i2: int = k + body.len() as int;
        lemma_subrange_within(s, i, t, frame.len() as int, t.len() as int);
        assert(t.subrange(frame.len() as int, t.len() as int) =~= rest);
        assert(s.subrange(i2, s.len() as int) == rest);
        lemma_dec_commands_from_enc(s, i2, cs.skip(1), acc.push(c));
        assert(acc.push(c) + cs.skip(1) =~= acc + cs);
        assert(dec_commands_from(s, i, acc) == dec_commands_from(s, i2, acc.push(c)));
    }
}

/// Law: the codec round-trips a packet — decoding an encoded packet yields
/// exactly the command list that was encoded. The one bound keeps the
/// packet's byte-length prefix within its 64-bit range.
pub proof fn lemma_packet_round_trip(cmd: Option<Seq<Command>>)
    requires
        cmd matches Some(cs) ==> cs.len() <= 0xffff_ffff,
    ensures
        dec_packet(enc_packet(cmd)) == Some(cmd),
{
    match cmd {
        None => {
            assert(enc_packet(cmd).len() == 0);
        },
        Some(cs) => {
            let body = enc_commands(cs);
            lemma_enc_commands_len(cs);
            let blen: u64 = body.len() as u64;
            let lv = varint_enc(blen);
            let s = enc_packet(cmd);
            lemma_tag_values();

            assert(s[0] == 0x0a);
            assert(varint_at(s, 0) == Some((0x0au64, 1int)));
            assert(s.subrange(1, 1 + lv.len() as int) =~= lv);
            lemma_varint_at_enc(s, 1, blen);
            let k: int = 1 + lv.len() as int;
            assert(s.subrange(k, k + body.len() as int) =~= body);

            assert(body.subrange(0, body.len() as int) =~= body);
            lemma_dec_commands_from_enc(body, 0, cs, Seq::<Command>::empty());
            assert(Seq::<Command>::empty() + cs =~= cs);
            assert(dec_commands(s.subrange(k, k + body.len() as int)) == Some(cs));

            assert(dec_packet_from(s, 0, None) == dec_packet_from(s, k + blen, Some(cs)));
            assert(dec_packet_from(s, k + blen, Some(cs)) == Some(Some(cs)));
        },
    }
}

/// Reads one field of a command at `pos`, folding it into `acc`.
fn command_step(data: &[u8], pos: usize, acc: Command) -> (r: Option<(usize, Command)>)
    requires
        pos < data@.len(),
    ensures
        match r {
            Some((k, acc2)) => pos < k <= data@.len()
                && dec_command_from(data@, pos as int, acc)
                    == dec_command_from(data@, k as int, acc2),
            None => dec_command_from(data@, pos as int, acc) is None,
        },
{
    match read_varint(data, pos) {
        None => None,
        Some((tag, j)) => {
            let field = tag >> 3;
            let wire = tag & 7;
            if field == 1 && wire == 0 {
                match read_varint(data, j) {
                    None => None,
                    Some((v, k)) => Some((k, Command {
                        id: #[verifier::truncate] (v as u32),
                        yellowteam: acc.yellowteam,
                        wheel_left: acc.wheel_left,
                        wheel_right: acc.wheel_right,
                    })),
                }
            } else if field == 2 && wire == 0 {
                match read_varint(data, j) {
                    None => None,
                    Some((v, k)) => Some((k, Command {
                        id: acc.id,
                        yellowteam: v != 0,
                        wheel_left: acc.wheel_left,
                        wheel_right: acc.wheel_right,
                    })),
                }
            } else if field == 3 && wire == 1 {
                match read_fixed64(data, j) {
                    None => None,
                    Some((v, k)) => Some((k, Command {
                        id: acc.id,
                        yellowteam: acc.yellowteam,
                        wheel_left: v,
                        wheel_right: acc.wheel_right,
                    })),
                }
            } else if field == 4 && wire == 1 {
                match read_fixed64(data, j) {
                    None => None,
                    Some((v, k)) => Some((k, Command {
                        id: acc.id,
                        yellowteam: acc.yellowteam,
                        wheel_left: acc.wheel_left,
                        wheel_right: v,
                    })),
                }
            } else {
                match skip_field(data, j, wire) {
                    None => None,
                    Some(k) => Some((k, acc)),
                }
            }
        },
    }
}

/// Decodes one command's bytes.
pub fn parse_command(data: &[u8]) -> (r: Option<Command>)
    ensures
        r == dec_command(data@),
{
    let mut acc = Command { id: 0, yellowteam: false, wheel_left: 0, wheel_right: 0 };
    let mut pos: usize = 0;
    loop
        invariant
            pos <= data@.len(),
            dec_command_from(data@, pos as int, acc) == dec_command(data@),
        decreases data@.len() - pos,
    {
        if pos == data.len() {
            return Some(acc);
        }
        match command_step(data, pos, acc) {
            None => {
                return None;
            },
            Some((k, acc2)) => {
                pos = k;
                acc = acc2;
            },
        }
    }
}

/// Reads one field of a command list at `pos`, appending to `cmds`.
fn commands_step(data: &[u8], pos: usize, cmds: &mut Vec<Command>) -> (r: Option<usize>)
    requires
        pos < data@.len(),
    ensures
        match r {
            Some(k) => pos < k <= data@.len()
                && dec_commands_from(data@, pos as int, old(cmds)@)
                    == dec_commands_from(data@, k as int, final(cmds)@),
            None => dec_commands_from(data@, pos as int, old(cmds)@) is None
                && final(cmds)@ == old(cmds)@,
        },
{
    match read_varint(data, pos) {
        None => None,
        Some((tag, j)) => {
            let field = tag >> 3;
            let wire = tag & 7;
            if field == 1 && wire == 2 {
                match read_varint(data, j) {
                    None => None,
                    Some((l, k)) => {
                        if l <= (data.len() - k) as u64 {
                            let end = k + (l as usize);
                            let sub = vstd::slice::slice_subrange(data, k, end);
                            match parse_command(sub) {
                                None => None,
                                Some(c) => {
                                    cmds.push(c);
                                    Some(end)
                                },
                            }
                        } else {
                            None
                        }
                    },
                }
            } else {
                match skip_field(data, j, wire) {
                    None => None,
                    Some(k) => Some(k),
                }
            }
        },
    }
}

/// Decodes a command list's bytes.
pub fn parse_commands(data: &[u8]) -> (r: Option<Commands>)
    ensures
        match r {
            Some(c) => dec_commands(data@) == Some(c@),
            None => dec_commands(data@) is None,
        },
{
    let mut cmds: Vec<Command> = Vec::new();
    let mut pos: usize = 0;
    loop
        invariant
            pos <= data@.len(),
            dec_commands_from(data@, pos as int, cmds@) == dec_commands(data@),
        decreases data@.len() - pos,
    {
        if pos == data.len() {
            return Some(Commands { robot_commands: cmds });
        }
        match commands_step(data, pos, &mut cmds) {
            None => {
                return None;
            },
            Some(k) => {
                pos = k;
            },
        }
    }
}

/// Reads one field of a packet at `pos`.
fn packet_step(data: &[u8], pos: usize, acc: Option<Commands>) -> (r: Option<
    (usize, Option<Commands>),
>)
    requires
        pos < data@.len(),
    ensures
        match r {
            Some((k, acc2)) => pos < k <= data@.len()
                && dec_packet_from(data@, pos as int, opt_commands_view(acc))
                    == dec_packet_from(data@, k as int, opt_commands_view(acc2)),
            None => dec_packet_from(data@, pos as int, opt_commands_view(acc)) is None,
        },
{
    match read_varint(data, pos) {
        None => None,
        Some((tag, j)) => {
            let field = tag >> 3;
            let wire = tag & 7;
            if field == 1 && wire == 2 {
                match read_varint(data, j) {
                    None => None,
                    Some((l, k)) => {
                        if l <= (data.len() - k) as u64 {
                            let end = k + (l as usize);
                            let sub = vstd::slice::slice_subrange(data, k, end);
                            match parse_commands(sub) {
                                None => None,
                                Some(cs) => Some((end, Some(cs))),
                            }
                        } else {
                            None
                        }
                    },
                }
            } else {
                match skip_field(data, j, wire) {
                    None => None,
                    Some(k) => Some((k, acc)),
                }
            }
        },
    }
}

/// The command list an optional `Commands` value holds.
spec fn opt_commands_view(o: Option<Commands>) -> Option<Seq<Command>> {
    match o {
        Some(c) => Some(c@),
        None => None,
    }
}

/// Decodes a packet's bytes; a failure reports which datagram is malformed
/// by its contents, never by a partial value.
pub fn deserialize_packet(data: &[u8]) -> (r: Result<Packet, DecodeError>)
    ensures
        match r {
            Ok(p) => dec_packet(data@) == Some(p@),
            Err(_) => dec_packet(data@) is None,
        },
{
    let mut acc: Option<Commands> = None;
    let mut pos: usize = 0;
    loop
        invariant
            pos <= data@.len(),
            dec_packet_from(data@, pos as int, opt_commands_view(acc)) == dec_packet(data@),
        decreases data@.len() - pos,
    {
        if pos == data.len() {
            return Ok(Packet { cmd: acc });
        }
        match packet_step(data, pos, acc) {
            None => {
                return Err(DecodeError);
            },
            Some((k, acc2)) => {
                pos = k;
                acc = acc2;
            },
        }
    }
}

} // verus!
