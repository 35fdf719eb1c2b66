//! The command model: a binary-encodable representation of a single
//! MAC command and of an ordered sequence of commands (a command set).

use vstd::prelude::*;

use crate::error::Error;
use crate::version::{spec_version_of, Version};

verus! {

/// Opcode of the Reset exchange: `ResetInd` on the uplink,
/// `ResetConf` on the downlink.
pub const CID_RESET: u8 = 0x01;

/// Payload of `ResetInd`: the device announces the LoRaWAN protocol
/// version it operates at and requests a session reset to boot defaults.
#[derive(Clone, Copy, Debug, PartialEq, Eq, Structural)]
pub struct ResetIndPayload {
    pub dev_lorawan_version: Version,
}

/// Payload of `ResetConf`: the server acknowledges the reset with the
/// negotiated protocol version.
#[derive(Clone, Copy, Debug, PartialEq, Eq, Structural)]
pub struct ResetConfPayload {
    pub serv_lorawan_version: Version,
}

/// One MAC command: a tagged union with one variant per supported
/// opcode, each carrying that opcode's fixed-format payload.
#[derive(Clone, Copy, Debug, PartialEq, Eq, Structural)]
pub enum MACCommand {
    ResetInd(ResetIndPayload),
    ResetConf(ResetConfPayload),
}

impl MACCommand {
    /// Whether this command travels device-to-server. Commands sharing
    /// an opcode are told apart by the direction they travel in.
    pub open spec fn is_uplink(self) -> bool {
        self is ResetInd
    }

    /// Wire bytes of this command: the opcode byte followed by the
    /// opcode's fixed-length payload.
    pub fn encode(&self) -> (r: Vec<u8>)
        ensures
            r@ == spec_encode(*self),
    {
        let mut out: Vec<u8> = Vec::new();
        match self {
            MACCommand::ResetInd(p) => {
                out.push(CID_RESET);
                out.push(p.dev_lorawan_version.to_u8());
            },
            MACCommand::ResetConf(p) => {
                out.push(CID_RESET);
                out.push(p.serv_lorawan_version.to_u8());
            },
        }
        proof {
            assert(out@ =~= spec_encode(*self));
        }
        out
    }

    /// Decode one command from `bytes`, which must hold exactly one
    /// command: the opcode byte and its fixed-length payload.
    /// `uplink` tells commands sharing an opcode apart.
    pub fn decode(bytes: &Vec<u8>, uplink: bool) -> (r: Result<MACCommand, Error>)
        ensures
            r matches Ok(c) ==> spec_decode(bytes@, uplink) == Some(c),
            spec_decode(bytes@, uplink) matches Some(c) ==> r == Ok::<MACCommand, Error>(c),
            bytes@.len() == 0 ==> r == Err::<MACCommand, Error>(Error::MalformedInput),
            bytes@.len() > 0 && bytes@[0] != CID_RESET ==> r == Err::<MACCommand, Error>(
                Error::UnsupportedCommand,
            ),
            bytes@.len() > 0 && bytes@[0] == CID_RESET && spec_decode(bytes@, uplink) is None
                ==> r == Err::<MACCommand, Error>(Error::MalformedInput),
    {
        if bytes.len() == 0 {
            return Err(Error::MalformedInput);
        }
        if bytes[0] != CID_RESET {
            return Err(Error::UnsupportedCommand);
        }
        if bytes.len() != 2 {
            return Err(Error::MalformedInput);
        }
        match Version::from_u8(bytes[1]) {
            Some(v) => {
                if uplink {
                    Ok(MACCommand::ResetInd(ResetIndPayload { dev_lorawan_version: v }))
                } else {
                    Ok(MACCommand::ResetConf(ResetConfPayload { serv_lorawan_version: v }))
                }
            },
            None => Err(Error::MalformedInput),
        }
    }
}

/// An ordered sequence of MAC commands decoded from one contiguous
/// region of a frame. Order reflects wire order and is preserved on
/// output. An empty set is an input anomaly for handlers expecting
/// exactly one command; output sets may legitimately be empty.
#[derive(Debug)]
pub struct MACCommandSet {
    commands: Vec<MACCommand>,
}

impl View for MACCommandSet {
    type V = Seq<MACCommand>;

    closed spec fn view(&self) -> Seq<MACCommand> {
        self.commands@
    }
}

impl MACCommandSet {
    /// A command set holding `commands`, in order.
    pub fn new(commands: Vec<MACCommand>) -> (r: MACCommandSet)
        ensures
            r@ == commands@,
    {
        MACCommandSet { commands }
    }

    /// How many commands the set holds.
    pub fn len(&self) -> (r: usize)
        ensures
            r == self@.len(),
    {
        self.commands.len()
    }

    /// The first command of the set, if the set is not empty.
    pub fn first(&self) -> (r: Option<&MACCommand>)
        ensures
            self@.len() == 0 ==> r is None,
            self@.len() > 0 ==> (r matches Some(c) && *c == self@[0]),
    {
        if self.commands.len() == 0 {
            None
        } else {
            Some(&self.commands[0])
        }
    }

    /// The command at position `i` in wire order.
    pub fn get(&self, i: usize) -> (r: &MACCommand)
        requires
            i < self@.len(),
        ensures
            *r == self@[i as int],
    {
        &self.commands[i]
    }

    /// Append a command at the end, preserving the order of the rest.
    pub fn push(&mut self, cmd: MACCommand)
        ensures
            final(self)@ == old(self)@.push(cmd),
    {
        self.commands.push(cmd);
    }

    /// Wire bytes of the whole set: each command's opcode byte and
    /// fixed-length payload, concatenated in wire order.
    pub fn encode(&self) -> (r: Vec<u8>)
        ensures
            r@ == spec_encode_set(self@),
    {
        let mut out: Vec<u8> = Vec::new();
        let n = self.commands.len();
        let mut i: usize = 0;
        while i < n
            invariant
                i <= n,
                n == self@.len(),
                out@ == spec_encode_set(self@.take(i as int)),
            decreases n - i,
        {
            let mut piece = self.commands[i].encode();
            out.append(&mut piece);
            proof {
                lemma_encode_set_concat(self@.take(i as int), seq![self@[i as int]]);
                assert(seq![self@[i as int]].skip(1) =~= Seq::<MACCommand>::empty());
                assert(spec_encode_set(Seq::<MACCommand>::empty()) =~= Seq::<u8>::empty());
                assert(spec_encode_set(seq![self@[i as int]]) == spec_encode(
                    seq![self@[i as int]][0],
                ) + spec_encode_set(seq![self@[i as int]].skip(1)));
                assert(spec_encode_set(seq![self@[i as int]]) =~= spec_encode(self@[i as int]));
                assert(self@.take(i as int) + seq![self@[i as int]] =~= self@.take(i + 1 as int));
            }
            i += 1;
        }
        proof {
            assert(self@.take(n as int) =~= self@);
        }
        out
    }

    /// Decode a command set greedily from one contiguous byte region,
    /// `uplink` telling commands that share an opcode apart. Either the
    /// whole region decodes or a typed condition names the first
    /// command that fails.
    pub fn decode(bytes: &Vec<u8>, uplink: bool) -> (r: Result<MACCommandSet, Error>)
        ensures
            r matches Ok(set) ==> spec_decode_set(bytes@, uplink) == Some(set@),
            spec_decode_set(bytes@, uplink) matches Some(s) ==> (r matches Ok(set) && set@ == s),
            spec_decode_set(bytes@, uplink) is None ==> r == Err::<MACCommandSet, Error>(
                spec_set_decode_error(bytes@, uplink),
            ),
    {
        proof {
            assert(bytes@.skip(0) =~= bytes@);
        }
        match decode_suffix(bytes, 0, uplink) {
            Ok(cmds) => Ok(MACCommandSet { commands: cmds }),
            Err(e) => Err(e),
        }
    }
}

fn decode_suffix(bytes: &Vec<u8>, start: usize, uplink: bool) -> (r: Result<Vec<MACCommand>, Error>)
    requires
        start <= bytes@.len(),
    ensures
        r matches Ok(cmds) ==> spec_decode_set(bytes@.skip(start as int), uplink) == Some(cmds@),
        spec_decode_set(bytes@.skip(start as int), uplink) matches Some(s) ==> (r matches Ok(cmds)
            && cmds@ == s),
        spec_decode_set(bytes@.skip(start as int), uplink) is None ==> r == Err::<
            Vec<MACCommand>,
            Error,
        >(spec_set_decode_error(bytes@.skip(start as int), uplink)),
    decreases bytes@.len() - start,
{
    let ghost suffix = bytes@.skip(start as int);
    let n = bytes.len();
    if start == n {
        proof {
            assert(suffix =~= Seq::<u8>::empty());
        }
        return Ok(Vec::new());
    }
    proof {
        assert(suffix[0] == bytes@[start as int]);
    }
    if bytes[start] != CID_RESET {
        return Err(Error::UnsupportedCommand);
    }
    if start + 1 == n {
        return Err(Error::MalformedInput);
    }
    proof {
        assert(suffix[1] == bytes@[start as int + 1]);
    }
    match Version::from_u8(bytes[start + 1]) {
        None => Err(Error::MalformedInput),
        Some(v) => {
            let cmd = if uplink {
                MACCommand::ResetInd(ResetIndPayload { dev_lorawan_version: v })
            } else {
                MACCommand::ResetConf(ResetConfPayload { serv_lorawan_version: v })
            };
            proof {
                assert(suffix.skip(2) =~= bytes@.skip(start as int + 2));
            }
            match decode_suffix(bytes, start + 2, uplink) {
                Ok(mut rest) => {
                    rest.insert(0, cmd);
                    proof {
                        assert(rest@ =~= seq![cmd]
                            + spec_decode_set(bytes@.skip(start as int + 2), uplink)->Some_0);
                    }
                    Ok(rest)
                },
                Err(e) => Err(e),
            }
        },
    }
}

impl PartialEq for MACCommandSet {
    fn eq(&self, other: &MACCommandSet) -> (r: bool) {
        if self.commands.len() != other.commands.len() {
            return false;
        }
        let n = self.commands.len();
        let mut i: usize = 0;
        while i < n
            invariant
                i <= n,
                n == self@.len(),
                n == other@.len(),
                forall|j: int| 0 <= j < i ==> self@[j] == other@[j],
            decreases n - i,
        {
            if self.commands[i] != other.commands[i] {
                return false;
            }
            i += 1;
        }
        proof {
            assert(self@ =~= other@);
        }
        true
    }
}

impl vstd::std_specs::cmp::PartialEqSpecImpl for MACCommandSet {
    open spec fn obeys_eq_spec() -> bool {
        true
    }

    open spec fn eq_spec(&self, other: &MACCommandSet) -> bool {
        self@ == other@
    }
}

/// Wire bytes of one command.
pub open spec fn spec_encode(cmd: MACCommand) -> Seq<u8> {
    match cmd {
        MACCommand::ResetInd(p) => seq![CID_RESET, p.dev_lorawan_version.ordinal()],
        MACCommand::ResetConf(p) => seq![CID_RESET, p.serv_lorawan_version.ordinal()],
    }
}

/// The Reset-opcode command carrying version `v` in the given
/// direction: `ResetInd` on the uplink, `ResetConf` on the downlink.
pub open spec fn spec_reset_command(v: Version, uplink: bool) -> MACCommand {
    if uplink {
        MACCommand::ResetInd(ResetIndPayload { dev_lorawan_version: v })
    } else {
        MACCommand::ResetConf(ResetConfPayload { serv_lorawan_version: v })
    }
}

/// The command a byte sequence encodes in the given direction, if the
/// bytes are well-formed: exactly one opcode byte and its fixed-length
/// payload.
pub open spec fn spec_decode(bytes: Seq<u8>, uplink: bool) -> Option<MACCommand> {
    if bytes.len() == 2 && bytes[0] == CID_RESET {
        match spec_version_of(bytes[1]) {
            Some(v) => Some(spec_reset_command(v, uplink)),
            None => None,
        }
    } else {
        None
    }
}

/// Law: decoding the encoding of any command, in the direction that
/// command travels, yields the command itself.
pub proof fn lemma_decode_encode(cmd: MACCommand)
    ensures
        spec_decode(spec_encode(cmd), cmd.is_uplink()) == Some(cmd),
{
    match cmd {
        MACCommand::ResetInd(p) => {
            assert(spec_encode(cmd)[1] == p.dev_lorawan_version.ordinal());
            assert(spec_version_of(p.dev_lorawan_version.ordinal())
                == Some(p.dev_lorawan_version));
        },
        MACCommand::ResetConf(p) => {
            assert(spec_encode(cmd)[1] == p.serv_lorawan_version.ordinal());
            assert(spec_version_of(p.serv_lorawan_version.ordinal())
                == Some(p.serv_lorawan_version));
        },
    }
}

/// Law: encoding the command decoded from any well-formed byte
/// sequence gives back exactly those bytes.
pub proof fn lemma_encode_decode(bytes: Seq<u8>, uplink: bool)
    requires
        spec_decode(bytes, uplink) is Some,
    ensures
        spec_encode(spec_decode(bytes, uplink)->Some_0) == bytes,
{
    let c = spec_decode(bytes, uplink)->Some_0;
    assert(spec_encode(c) =~= bytes);
}

/// Wire bytes of a whole command set: the commands' bytes concatenated
/// in wire order, with no delimiter.
pub open spec fn spec_encode_set(cmds: Seq<MACCommand>) -> Seq<u8>
    decreases cmds.len(),
{
    if cmds.len() == 0 {
        Seq::empty()
    } else {
        spec_encode(cmds[0]) + spec_encode_set(cmds.skip(1))
    }
}

/// The command set a contiguous byte region encodes in the given
/// direction, if the whole region is well-formed: commands are decoded
/// greedily, opcode by opcode.
pub open spec fn spec_decode_set(bytes: Seq<u8>, uplink: bool) -> Option<Seq<MACCommand>>
    decreases bytes.len(),
{
    if bytes.len() == 0 {
        Some(Seq::empty())
    } else if bytes[0] == CID_RESET && bytes.len() >= 2 && spec_version_of(bytes[1]) is Some {
        match spec_decode_set(bytes.skip(2), uplink) {
            Some(rest) => Some(
                seq![spec_reset_command(spec_version_of(bytes[1])->Some_0, uplink)] + rest,
            ),
            None => None,
        }
    } else {
        None
    }
}

/// The condition reported for a byte region that does not decode: an
/// unknown opcode at the first command that fails, otherwise a
/// truncated or ill-formed payload.
pub open spec fn spec_set_decode_error(bytes: Seq<u8>, uplink: bool) -> Error
    recommends
        spec_decode_set(bytes, uplink) is None,
    decreases bytes.len(),
{
    if bytes.len() == 0 {
        Error::MalformedInput
    } else if bytes[0] != CID_RESET {
        Error::UnsupportedCommand
    } else if bytes.len() >= 2 && spec_version_of(bytes[1]) is Some {
        spec_set_decode_error(bytes.skip(2), uplink)
    } else {
        Error::MalformedInput
    }
}

/// Concatenating two command sequences concatenates their wire bytes.
pub proof fn lemma_encode_set_concat(a: Seq<MACCommand>, b: Seq<MACCommand>)
    ensures
        spec_encode_set(a + b) == spec_encode_set(a) + spec_encode_set(b),
    decreases a.len(),
{
    if a.len() == 0 {
        assert(a + b =~= b);
        assert(spec_encode_set(a) + spec_encode_set(b) =~= spec_encode_set(b));
    } else {
        assert((a + b)[0] == a[0]);
        assert((a + b).skip(1) =~= a.skip(1) + b);
        lemma_encode_set_concat(a.skip(1), b);
        assert(spec_encode(a[0]) + (spec_encode_set(a.skip(1)) + spec_encode_set(b)) =~= (
        spec_encode(a[0]) + spec_encode_set(a.skip(1))) + spec_encode_set(b));
    }
}

/// Law: decoding the encoding of a command set whose commands all
/// travel in the given direction yields the set itself.
pub proof fn lemma_set_decode_encode(cmds: Seq<MACCommand>, uplink: bool)
    requires
        forall|i: int| 0 <= i < cmds.len() ==> #[trigger] cmds[i].is_uplink() == uplink,
    ensures
        spec_decode_set(spec_encode_set(cmds), uplink) == Some(cmds),
    decreases cmds.len(),
{
    if cmds.len() == 0 {
        assert(spec_encode_set(cmds) =~= Seq::<u8>::empty());
    } else {
        let bytes = spec_encode_set(cmds);
        lemma_decode_encode(cmds[0]);
        assert(spec_encode(cmds[0]).len() == 2);
        assert(bytes[0] == spec_encode(cmds[0])[0]);
        assert(bytes[1] == spec_encode(cmds[0])[1]);
        assert(bytes[0] == CID_RESET);
        assert(spec_version_of(bytes[1]) is Some);
        assert(bytes.skip(2) =~= spec_encode_set(cmds.skip(1)));
        lemma_set_decode_encode(cmds.skip(1), uplink);
        assert(spec_reset_command(spec_version_of(bytes[1])->Some_0, uplink) == cmds[0]);
        assert(seq![cmds[0]] + cmds.skip(1) =~= cmds);
    }
}

/// Law: encoding the command set decoded from any well-formed byte
/// region gives back exactly those bytes.
pub proof fn lemma_set_encode_decode(bytes: Seq<u8>, uplink: bool)
    requires
        spec_decode_set(bytes, uplink) is Some,
    ensures
        spec_encode_set(spec_decode_set(bytes, uplink)->Some_0) == bytes,
    decreases bytes.len(),
{
    if bytes.len() == 0 {
        assert(spec_encode_set(spec_decode_set(bytes, uplink)->Some_0) =~= bytes);
    } else {
        let v = spec_version_of(bytes[1])->Some_0;
        let cmd = spec_reset_command(v, uplink);
        let rest = spec_decode_set(bytes.skip(2), uplink)->Some_0;
        let cmds = spec_decode_set(bytes, uplink)->Some_0;
        assert(cmds == seq![cmd] + rest);
        lemma_set_encode_decode(bytes.skip(2), uplink);
        lemma_encode_set_concat(seq![cmd], rest);
        assert(cmds[0] == cmd);
        assert(seq![cmd].skip(1) =~= Seq::<MACCommand>::empty());
        assert(spec_encode_set(Seq::<MACCommand>::empty()) =~= Seq::<u8>::empty());
        assert(spec_encode_set(seq![cmd]) == spec_encode(seq![cmd][0]) + spec_encode_set(
            seq![cmd].skip(1),
        ));
        assert(spec_encode_set(seq![cmd]) =~= spec_encode(cmd));
        assert(spec_encode(cmd) =~= bytes.take(2));
        assert(bytes.take(2) + bytes.skip(2) =~= bytes);
    }
}

} // verus!
