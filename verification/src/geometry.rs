//! The geometry decoder: command unpacking, zig-zag parameter decoding, and
//! the parser that turns a raw integer stream into an ordered operation list.

use vstd::prelude::*;

verus! {

/// A drawing command, identified on the wire by a small integer code:
/// MoveTo = 1, LineTo = 2, ClosePath = 7. Any other code is invalid.
#[derive(Debug, PartialEq, Eq, Hash, Clone, Copy, Structural)]
pub enum Command {
    MoveTo,
    LineTo,
    ClosePath,
}

/// The reason a decode failed. Every error aborts the whole parse: the
/// caller either gets a complete geometry or exactly one of these.
#[derive(Debug, PartialEq, Eq, Clone, Copy, Structural)]
pub enum GeometryError {
    /// The raw integer sequence produced no operation at all.
    EmptyInput,
    /// A command word's low-order bits named no known command.
    UnknownCommand,
    /// The first decoded command of a non-empty stream was not MoveTo.
    InvalidFirstCommand,
    /// Fewer raw integers remained than the current command required.
    TruncatedParameters,
    /// A repeat count exceeded the largest representable count.
    CommandCountOverflow,
    /// A pre-decoded signed value fell outside the accepted bound.
    ParameterOutOfRange,
}

impl GeometryError {
    /// A human-readable cause for the failure.
    pub fn message(&self) -> (r: &'static str)
        ensures
            *self == GeometryError::EmptyInput ==> r@ == "empty vector of geometry ints"@,
            *self == GeometryError::UnknownCommand ==> r@ == "wrong command ID"@,
            *self == GeometryError::InvalidFirstCommand ==> r@ == "first command is not MoveTo"@,
            *self == GeometryError::TruncatedParameters ==> r@ == "not enough params"@,
            *self == GeometryError::CommandCountOverflow ==> r@ == "command count too large"@,
            *self == GeometryError::ParameterOutOfRange ==> r@ == "parameter out of range"@,
    {
        match self {
            GeometryError::EmptyInput => "empty vector of geometry ints",
            GeometryError::UnknownCommand => "wrong command ID",
            GeometryError::InvalidFirstCommand => "first command is not MoveTo",
            GeometryError::TruncatedParameters => "not enough params",
            GeometryError::CommandCountOverflow => "command count too large",
            GeometryError::ParameterOutOfRange => "parameter out of range",
        }
    }
}

/// The command a wire identifier names, if any.
pub open spec fn spec_command_of_id(id: u8) -> Option<Command> {
    if id == 1 {
        Some(Command::MoveTo)
    } else if id == 2 {
        Some(Command::LineTo)
    } else if id == 7 {
        Some(Command::ClosePath)
    } else {
        None
    }
}

impl Command {
    /// Decode a wire identifier into a command.
    pub fn try_from(command_id: u8) -> (r: Result<Command, GeometryError>)
        ensures
            r == (match spec_command_of_id(command_id) {
                Some(c) => Ok::<Command, GeometryError>(c),
                None => Err::<Command, GeometryError>(GeometryError::UnknownCommand),
            }),
    {
        match command_id {
            1 => Ok(Command::MoveTo),
            2 => Ok(Command::LineTo),
            7 => Ok(Command::ClosePath),
            _ => Err(GeometryError::UnknownCommand),
        }
    }
}

/// Zig-zag decoding: even raw values p are +p/2, odd raw values are
/// -(p+1)/2. It covers the whole signed 32-bit range, both extremes
/// included.
pub open spec fn spec_zigzag_decode(raw: u32) -> int {
    if raw % 2 == 0 {
        (raw as int) / 2
    } else {
        -((raw as int) / 2) - 1
    }
}

/// Zig-zag encoding, the inverse of `spec_zigzag_decode`: v maps to 2v when
/// v is non-negative and to 2|v| - 1 when v is negative.
pub open spec fn spec_zigzag_encode(v: int) -> int {
    if v >= 0 {
        2 * v
    } else {
        2 * (-v) - 1
    }
}

/// A signed coordinate delta, the result of zig-zag-decoding one raw
/// unsigned integer.
#[derive(Debug, PartialEq, Eq, Structural)]
pub struct DecodedParameter {
    pub raw_value: i32,
}

impl View for DecodedParameter {
    type V = int;

    open spec fn view(&self) -> int {
        self.raw_value as int
    }
}

impl DecodedParameter {
    /// The primary decode path: total over the full 32-bit unsigned range.
    pub fn from(encoded: u32) -> (r: DecodedParameter)
        ensures
            r@ == spec_zigzag_decode(encoded),
    {
        proof {
            assert(encoded >> 1u32 == encoded / 2) by (bit_vector);
            assert(encoded & 1 == encoded % 2) by (bit_vector);
            assert(encoded / 2 < 0x8000_0000) by (bit_vector);
        }
        let half = (encoded >> 1) as i32;
        if encoded & 1 == 0 {
            DecodedParameter { raw_value: half }
        } else {
            DecodedParameter { raw_value: -half - 1 }
        }
    }
}

/// The bound the bounded parameter constructor compares against on the low
/// side. The pair of constants is kept exactly as published, comparison
/// direction included, even though together they admit no value.
pub const MIN_DECODED_PARAM: i32 = i32::MAX;

/// The bound the bounded parameter constructor compares against on the high
/// side; see `MIN_DECODED_PARAM`.
pub const MAX_DECODED_PARAM: i32 = i32::MIN + 1;

impl DecodedParameter {
    /// The bounded constructor: re-validates an already-decoded signed value
    /// against `MIN_DECODED_PARAM` and `MAX_DECODED_PARAM`. As those bounds
    /// stand, no value passes both comparisons, so every input is rejected;
    /// use `DecodedParameter::from` to decode raw wire values.
    pub fn try_from(value: i32) -> (r: Result<DecodedParameter, GeometryError>)
        ensures
            value > MAX_DECODED_PARAM ==> r == Err::<DecodedParameter, GeometryError>(
                GeometryError::ParameterOutOfRange,
            ),
            value <= MAX_DECODED_PARAM && value < MIN_DECODED_PARAM ==> r == Err::<
                DecodedParameter,
                GeometryError,
            >(GeometryError::ParameterOutOfRange),
            MIN_DECODED_PARAM <= value <= MAX_DECODED_PARAM ==> (r matches Ok(p) && p@ == value),
    {
        if value > MAX_DECODED_PARAM {
            return Err(GeometryError::ParameterOutOfRange);
        }
        if value < MIN_DECODED_PARAM {
            return Err(GeometryError::ParameterOutOfRange);
        }
        Ok(DecodedParameter { raw_value: value })
    }
}

/// The largest repeat count a command word can carry: 2^29 - 1.
pub const MAX_DECODED_COMMAND_COUNT: u32 = 0x1FFF_FFFF;

/// One unpacked command word: a drawing command and how many times it
/// repeats. Transient: it exists only while a stream is being parsed.
#[derive(Debug, Clone, Copy)]
pub struct DecodedCommand {
    command: Command,
    count: u32,
}

impl DecodedCommand {
    /// The drawing command this word names.
    pub closed spec fn spec_command(&self) -> Command {
        self.command
    }

    /// How many operations this word asks for.
    pub closed spec fn spec_count(&self) -> u32 {
        self.count
    }

    /// The drawing command this word names.
    pub fn command(&self) -> (r: Command)
        ensures
            r == self.spec_command(),
    {
        self.command
    }

    /// How many operations this word asks for.
    pub fn count(&self) -> (r: u32)
        ensures
            r == self.spec_count(),
    {
        self.count
    }

    /// Unpack one raw command word: the command identifier sits in the low
    /// three bits, the repeat count in the remaining high bits. A count
    /// sourced this way never exceeds the ceiling the alternate
    /// constructor enforces.
    pub fn try_from(encoded: u32) -> (r: Result<DecodedCommand, GeometryError>)
        ensures
            (match spec_command_of_id((encoded % 8) as u8) {
                Some(c) => r matches Ok(d) && d.spec_command() == c && d.spec_count() == encoded
                    / 8,
                None => r == Err::<DecodedCommand, GeometryError>(GeometryError::UnknownCommand),
            }),
            r matches Ok(d) ==> d.spec_count() <= MAX_DECODED_COMMAND_COUNT,
    {
        proof {
            assert(encoded & 0x07 == encoded % 8 && encoded % 8 < 8) by (bit_vector);
            assert(encoded >> 3u32 == encoded / 8) by (bit_vector);
            assert(encoded / 8 <= 0x1FFF_FFFF) by (bit_vector);
        }
        let command_id = (encoded & 0x07) as u8;
        let command = match Command::try_from(command_id) {
            Ok(c) => c,
            Err(e) => {
                return Err(e);
            },
        };
        Ok(DecodedCommand { command, count: encoded >> 3 })
    }

    /// Build a command word from an already-split identifier and count,
    /// enforcing the count ceiling the packed representation guarantees.
    pub fn try_from_parts(id: u8, count: u32) -> (r: Result<DecodedCommand, GeometryError>)
        ensures
            count > MAX_DECODED_COMMAND_COUNT ==> r == Err::<DecodedCommand, GeometryError>(
                GeometryError::CommandCountOverflow,
            ),
            count <= MAX_DECODED_COMMAND_COUNT ==> (match spec_command_of_id(id) {
                Some(c) => r matches Ok(d) && d.spec_command() == c && d.spec_count() == count,
                None => r == Err::<DecodedCommand, GeometryError>(GeometryError::UnknownCommand),
            }),
    {
        if count > MAX_DECODED_COMMAND_COUNT {
            return Err(GeometryError::CommandCountOverflow);
        }
        let command = match Command::try_from(id) {
            Ok(c) => c,
            Err(e) => {
                return Err(e);
            },
        };
        Ok(DecodedCommand { command, count })
    }
}

/// How many parameters one operation of a given command carries:
/// MoveTo and LineTo take an (x, y) delta pair, ClosePath takes nothing.
pub open spec fn spec_params_count(c: Command) -> nat {
    match c {
        Command::MoveTo => 2,
        Command::LineTo => 2,
        Command::ClosePath => 0,
    }
}

/// Executable counterpart of `spec_params_count`.
pub fn params_count(c: Command) -> (n: usize)
    ensures
        n == spec_params_count(c),
{
    match c {
        Command::MoveTo => 2,
        Command::LineTo => 2,
        Command::ClosePath => 0,
    }
}

/// The mathematical model of one decoded operation: a command and the
/// signed parameter deltas consumed for it.
#[verifier::ext_equal]
pub ghost struct OpModel {
    pub command: Command,
    pub params: Seq<int>,
}

/// One emitted unit of output: a drawing command together with the decoded
/// parameters consumed for it. MoveTo and LineTo carry exactly two
/// parameters, ClosePath carries none.
#[derive(Debug, PartialEq)]
pub struct Operation {
    pub command: Command,
    pub params: Vec<DecodedParameter>,
}

impl View for Operation {
    type V = OpModel;

    open spec fn view(&self) -> OpModel {
        OpModel {
            command: self.command,
            params: self.params@.map_values(|p: DecodedParameter| p@),
        }
    }
}

/// The models of a sequence of operations, element by element.
pub open spec fn spec_ops_view(ops: Seq<Operation>) -> Seq<OpModel> {
    ops.map_values(|op: Operation| op@)
}

/// The parse result: an ordered sequence of operations. Constructed
/// atomically: either the whole stream parses or an error is produced and
/// no partial geometry is exposed.
#[derive(Debug, PartialEq)]
pub struct Geometry {
    pub operations: Vec<Operation>,
}

impl View for Geometry {
    type V = Seq<OpModel>;

    open spec fn view(&self) -> Seq<OpModel> {
        spec_ops_view(self.operations@)
    }
}

/// The operations one command word emits: `count` repetitions of the
/// command, the i-th taking the i-th parameter tuple out of `params`
/// (which holds the raw, still-encoded integers of the whole block).
pub open spec fn spec_block_ops(c: Command, count: nat, params: Seq<u32>) -> Seq<OpModel> {
    Seq::new(
        count,
        |i: int|
            OpModel {
                command: c,
                params: params.subrange(
                    i * spec_params_count(c),
                    (i + 1) * spec_params_count(c),
                ).map_values(|p: u32| spec_zigzag_decode(p)),
            },
    )
}

/// The stream grammar. `produced` says whether an operation has already
/// been emitted for an earlier part of the stream; a fresh parse starts
/// with `false`. The parse is total over the stream: it succeeds exactly
/// when every integer is consumed, command word by command word.
pub open spec fn spec_parse_geometry(s: Seq<u32>, produced: bool) -> Result<
    Seq<OpModel>,
    GeometryError,
>
    decreases s.len(),
{
    if s.len() == 0 {
        if produced {
            Ok(Seq::empty())
        } else {
            Err(GeometryError::EmptyInput)
        }
    } else {
        let w = s[0];
        match spec_command_of_id((w % 8) as u8) {
            None => Err(GeometryError::UnknownCommand),
            Some(c) => {
                if !produced && c != Command::MoveTo {
                    Err(GeometryError::InvalidFirstCommand)
                } else {
                    let count = (w / 8) as nat;
                    let need = spec_params_count(c) * count;
                    if s.len() - 1 < need {
                        Err(GeometryError::TruncatedParameters)
                    } else {
                        match spec_parse_geometry(
                            s.skip(1 + need as int),
                            produced || count > 0,
                        ) {
                            Ok(rest) => Ok(
                                spec_block_ops(c, count, s.subrange(1, 1 + need as int)) + rest,
                            ),
                            Err(e) => Err(e),
                        }
                    }
                }
            },
        }
    }
}

impl Geometry {
    /// Parse a full raw integer stream into a geometry, or fail with the
    /// first structural violation in stream order. The contract pins the
    /// result, success and failure alike, to `spec_parse_geometry`.
    #[verifier::loop_isolation(false)]
    #[verifier::rlimit(60)]
    pub fn try_from(encoded: &Vec<u32>) -> (r: Result<Geometry, GeometryError>)
        ensures
            (match spec_parse_geometry(encoded@, false) {
                Ok(ops) => r matches Ok(g) && g@ == ops,
                Err(e) => r == Err::<Geometry, GeometryError>(e),
            }),
    {
        let n = encoded.len();
        let mut res: Vec<Operation> = Vec::new();
        let mut i: usize = 0;
        proof {
            assert(encoded@.skip(0) =~= encoded@);
            assert(spec_ops_view(res@) =~= Seq::<OpModel>::empty());
            if spec_parse_geometry(encoded@, false) is Ok {
                let whole = spec_parse_geometry(encoded@, false)->Ok_0;
                assert(spec_ops_view(res@) + whole =~= whole);
            }
        }
        while i < n
            invariant
                i <= n,
                (match spec_parse_geometry(encoded@.skip(i as int), res@.len() > 0) {
                    Ok(rest) => spec_parse_geometry(encoded@, false) == Ok::<
                        Seq<OpModel>,
                        GeometryError,
                    >(spec_ops_view(res@) + rest),
                    Err(e) => spec_parse_geometry(encoded@, false) == Err::<
                        Seq<OpModel>,
                        GeometryError,
                    >(e),
                }),
            decreases n - i,
        {
            let ghost ssi = encoded@.skip(i as int);
            let ghost p0 = res@.len() > 0;
            let ghost ops0 = spec_ops_view(res@);
            proof {
                assert(ssi[0] == encoded@[i as int]);
            }
            let command_int = encoded[i];
            let decoded = match DecodedCommand::try_from(command_int) {
                Ok(d) => d,
                Err(e) => {
                    return Err(e);
                },
            };
            let cmd = decoded.command;
            if res.len() == 0 && cmd != Command::MoveTo {
                return Err(GeometryError::InvalidFirstCommand);
            }
            let ghost c = decoded.spec_command();
            let pc = params_count(cmd);
            proof {
                assert(command_int / 8 < 0x2000_0000) by (bit_vector);
            }
            let count_us = decoded.count as usize;
            proof {
                assert(pc * count_us <= 2 * count_us) by (nonlinear_arith)
                    requires
                        pc <= 2,
                        0 <= count_us,
                ;
            }
            let need = pc * count_us;
            if n - i - 1 < need {
                return Err(GeometryError::TruncatedParameters);
            }
            let ghost pslice = encoded@.subrange(i as int + 1, i as int + 1 + need as int);
            let mut rep: usize = 0;
            while rep < count_us
                invariant
                    rep <= count_us,
                    spec_ops_view(res@) == ops0 + spec_block_ops(c, rep as nat, pslice),
                decreases count_us - rep,
            {
                let mut params: Vec<DecodedParameter> = Vec::new();
                let mut k: usize = 0;
                proof {
                    assert(rep * pc + pc <= count_us * pc) by (nonlinear_arith)
                        requires
                            rep < count_us,
                            0 <= pc,
                    ;
                    assert(count_us * pc == pc * count_us) by (nonlinear_arith);
                }
                while k < pc
                    invariant
                        k <= pc,
                        params@.len() == k,
                        forall|j: int|
                            0 <= j < k ==> params@[j]@ == spec_zigzag_decode(
                                pslice[rep * pc + j],
                            ),
                    decreases pc - k,
                {
                    proof {
                        assert(pslice[rep * pc + k] == encoded@[i as int + 1 + rep * pc + k]);
                    }
                    let p = DecodedParameter::from(encoded[i + 1 + rep * pc + k]);
                    params.push(p);
                    k += 1;
                }
                let op = Operation { command: cmd, params };
                proof {
                    let target = spec_block_ops(c, (rep + 1) as nat, pslice);
                    assert(op@.params =~= target[rep as int].params) by {
                        assert((rep + 1) * pc == rep * pc + pc) by (nonlinear_arith);
                    }
                    assert(op@ =~= target[rep as int]);
                    assert(spec_ops_view(res@.push(op)) =~= spec_ops_view(res@).push(op@));
                    assert(ops0 + spec_block_ops(c, rep as nat, pslice).push(op@) =~= ops0
                        + target);
                }
                res.push(op);
                rep += 1;
            }
            proof {
                let block = spec_block_ops(c, count_us as nat, pslice);
                assert(ssi.skip(1 + need as int) =~= encoded@.skip(i as int + 1 + need as int));
                assert(ssi.subrange(1, 1 + need as int) =~= pslice);
                assert(res@.len() == ops0.len() + count_us);
                if spec_parse_geometry(encoded@.skip(i as int + 1 + need as int), res@.len() > 0)
                    is Ok {
                    let rest = spec_parse_geometry(
                        encoded@.skip(i as int + 1 + need as int),
                        res@.len() > 0,
                    )->Ok_0;
                    assert(ops0 + (block + rest) =~= spec_ops_view(res@) + rest);
                }
            }
            i = i + 1 + need;
        }
        if res.len() == 0 {
            return Err(GeometryError::EmptyInput);
        }
        proof {
            assert(spec_ops_view(res@) + Seq::<OpModel>::empty() =~= spec_ops_view(res@));
        }
        Ok(Geometry { operations: res })
    }
}

/// How many raw integers a successful parse consumes: one for each command
/// word plus the parameters its repetitions pull. On a stream that does not
/// parse the value is meaningless (the error branches return zero).
pub open spec fn spec_consumed(s: Seq<u32>) -> nat
    decreases s.len(),
{
    if s.len() == 0 {
        0
    } else {
        let w = s[0];
        match spec_command_of_id((w % 8) as u8) {
            None => 0,
            Some(c) => {
                let count = (w / 8) as nat;
                let need = spec_params_count(c) * count;
                if s.len() - 1 < need {
                    0
                } else {
                    1 + need + spec_consumed(s.skip(1 + need as int))
                }
            },
        }
    }
}

/// Zig-zag round trip: every signed 32-bit value, the two extremes
/// included, survives encoding followed by decoding unchanged, and its
/// encoding fits in an unsigned 32-bit value.
pub proof fn lemma_zigzag_round_trip(v: int)
    requires
        i32::MIN <= v <= i32::MAX,
    ensures
        0 <= spec_zigzag_encode(v) <= u32::MAX,
        spec_zigzag_decode(spec_zigzag_encode(v) as u32) == v,
{
    if v >= 0 {
        assert(spec_zigzag_encode(v) == 2 * v);
        assert((2 * v) % 2 == 0);
        assert((2 * v) / 2 == v);
    } else {
        assert(spec_zigzag_encode(v) == 2 * (-v) - 1);
        assert((2 * (-v) - 1) % 2 == 1);
        assert((2 * (-v) - 1) / 2 == -v - 1);
    }
}

/// Grammar enforcement: an empty stream is rejected as empty; a stream
/// whose first word names no command is rejected as unknown; one whose
/// first command is not MoveTo is rejected as an invalid first command; and
/// one whose first command word asks for more parameters than the stream
/// still holds is rejected as truncated.
pub proof fn lemma_grammar_enforcement(s: Seq<u32>)
    ensures
        s.len() == 0 ==> spec_parse_geometry(s, false) == Err::<Seq<OpModel>, GeometryError>(
            GeometryError::EmptyInput,
        ),
        s.len() > 0 && spec_command_of_id((s[0] % 8) as u8) is None ==> spec_parse_geometry(
            s,
            false,
        ) == Err::<Seq<OpModel>, GeometryError>(GeometryError::UnknownCommand),
        s.len() > 0 ==> (spec_command_of_id((s[0] % 8) as u8) matches Some(c) && c
            != Command::MoveTo ==> spec_parse_geometry(s, false) == Err::<
            Seq<OpModel>,
            GeometryError,
        >(GeometryError::InvalidFirstCommand)),
        s.len() > 0 ==> (spec_command_of_id((s[0] % 8) as u8) matches Some(c) && c
            == Command::MoveTo && s.len() - 1 < spec_params_count(c) * ((s[0] / 8) as nat)
            ==> spec_parse_geometry(s, false) == Err::<Seq<OpModel>, GeometryError>(
            GeometryError::TruncatedParameters,
        )),
{
}

/// Well-formedness of every successful parse: each operation carries
/// exactly the parameter count its command prescribes, and a fresh parse
/// that produces anything at all starts with a MoveTo operation.
pub proof fn lemma_parse_well_formed(s: Seq<u32>, produced: bool)
    requires
        spec_parse_geometry(s, produced) is Ok,
    ensures
        forall|i: int|
            0 <= i < spec_parse_geometry(s, produced)->Ok_0.len()
                ==> #[trigger] spec_parse_geometry(s, produced)->Ok_0[i].params.len()
                == spec_params_count(spec_parse_geometry(s, produced)->Ok_0[i].command),
        !produced && spec_parse_geometry(s, produced)->Ok_0.len() > 0 ==> spec_parse_geometry(
            s,
            produced,
        )->Ok_0[0].command == Command::MoveTo,
    decreases s.len(),
{
    if s.len() == 0 {
    } else {
        let w = s[0];
        let c = spec_command_of_id((w % 8) as u8)->Some_0;
        let count = (w / 8) as nat;
        let pc = spec_params_count(c);
        let need = pc * count;
        let pslice = s.subrange(1, 1 + need as int);
        let block = spec_block_ops(c, count, pslice);
        let rest = spec_parse_geometry(s.skip(1 + need as int), produced || count > 0)->Ok_0;
        let ops = spec_parse_geometry(s, produced)->Ok_0;
        lemma_parse_well_formed(s.skip(1 + need as int), produced || count > 0);
        assert(ops == block + rest);
        assert forall|i: int| 0 <= i < block.len() implies #[trigger] block[i].params.len()
            == pc by {
            assert((i + 1) * pc - i * pc == pc && 0 <= i * pc && (i + 1) * pc <= count * pc)
                by (nonlinear_arith)
                requires
                    0 <= i < count,
                    0 <= pc,
            ;
        }
        if count == 0 {
            assert(ops =~= rest);
        }
    }
}

/// Determinism: two successful decodes of the same raw stream yield
/// structurally equal geometries.
pub proof fn lemma_decode_deterministic(s: Seq<u32>, g1: Geometry, g2: Geometry)
    requires
        spec_parse_geometry(s, false) == Ok::<Seq<OpModel>, GeometryError>(g1@),
        spec_parse_geometry(s, false) == Ok::<Seq<OpModel>, GeometryError>(g2@),
    ensures
        g1@ == g2@,
{
}

/// Full consumption: whenever a raw stream parses successfully, its
/// command words and their parameters account for exactly every integer of
/// the input; none is skipped and none is read twice.
pub proof fn lemma_full_consumption(s: Seq<u32>, produced: bool)
    requires
        spec_parse_geometry(s, produced) is Ok,
    ensures
        spec_consumed(s) == s.len(),
    decreases s.len(),
{
    if s.len() == 0 {
    } else {
        let w = s[0];
        let c = spec_command_of_id((w % 8) as u8)->Some_0;
        let count = (w / 8) as nat;
        let need = spec_params_count(c) * count;
        lemma_full_consumption(s.skip(1 + need as int), produced || count > 0);
    }
}

} // verus!
