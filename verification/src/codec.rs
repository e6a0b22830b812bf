//! Command codec: the wire form of board commands.
//!
//! A command travels as one JSON object with exactly three fields: the
//! opcode name, the target applet number, and an array of byte parameters:
//!
//! ```text
//! {"opcode":"UpdateGrid","app_num":1,"parameters":[0,17,255]}
//! ```
//!
//! The encoder below produces that byte sequence exactly, with no spaces,
//! the fields in that order, and each byte written in decimal without
//! leading zeros. A spec-level parser for the same format, together with
//! the round-trip lemma, lives in `wire`.

use vstd::prelude::*;

verus! {

/// The closed set of command opcodes the board understands.
#[derive(Clone, Copy, Debug, PartialEq, Eq, Structural)]
pub enum Opcode {
    CreateApplet,
    UpdateGrid,
    UpdateBar,
}

/// Ephemeral wire value: one command, constructed fresh per operation from
/// the session's mirror state, serialized, sent, and discarded.
pub struct Command {
    pub opcode: Opcode,
    pub app_num: u8,
    pub parameters: Vec<u8>,
}

// ASCII bytes the wire format is written in.
pub const QUOTE: u8 = 34;
pub const COMMA: u8 = 44;
pub const DIGIT_ZERO: u8 = 48;
pub const LBRACKET: u8 = 91;
pub const RBRACKET: u8 = 93;
pub const LBRACE: u8 = 123;
pub const RBRACE: u8 = 125;

/// Decimal ASCII rendering of one byte, without leading zeros.
pub open spec fn dec_u8(n: u8) -> Seq<u8> {
    if n < 10 {
        seq![(DIGIT_ZERO + n) as u8]
    } else if n < 100 {
        seq![(DIGIT_ZERO + n / 10) as u8, (DIGIT_ZERO + n % 10) as u8]
    } else {
        seq![
            (DIGIT_ZERO + n / 100) as u8,
            (DIGIT_ZERO + (n / 10) % 10) as u8,
            (DIGIT_ZERO + n % 10) as u8,
        ]
    }
}

/// The opcode's name as it appears on the wire.
pub open spec fn opcode_name(op: Opcode) -> Seq<u8> {
    match op {
        // "CreateApplet"
        Opcode::CreateApplet => seq![67u8, 114, 101, 97, 116, 101, 65, 112, 112, 108, 101, 116],
        // "UpdateGrid"
        Opcode::UpdateGrid => seq![85u8, 112, 100, 97, 116, 101, 71, 114, 105, 100],
        // "UpdateBar"
        Opcode::UpdateBar => seq![85u8, 112, 100, 97, 116, 101, 66, 97, 114],
    }
}

/// `{"opcode":"`
pub open spec fn seg_head() -> Seq<u8> {
    seq![LBRACE, QUOTE, 111u8, 112, 99, 111, 100, 101, QUOTE, 58, QUOTE]
}

/// `","app_num":`
pub open spec fn seg_app_num() -> Seq<u8> {
    seq![QUOTE, COMMA, QUOTE, 97u8, 112, 112, 95, 110, 117, 109, QUOTE, 58]
}

/// `,"parameters":[`
pub open spec fn seg_parameters() -> Seq<u8> {
    seq![COMMA, QUOTE, 112u8, 97, 114, 97, 109, 101, 116, 101, 114, 115, QUOTE, 58, LBRACKET]
}

/// `]}`
pub open spec fn seg_tail() -> Seq<u8> {
    seq![RBRACKET, RBRACE]
}

/// The decimal renderings of the parameter bytes, separated by commas.
pub open spec fn params_body(p: Seq<u8>) -> Seq<u8>
    decreases p.len(),
{
    if p.len() == 0 {
        Seq::empty()
    } else if p.len() == 1 {
        dec_u8(p[0])
    } else {
        dec_u8(p[0]) + seq![COMMA] + params_body(p.skip(1))
    }
}

/// The full wire message for one command. (The grouping is chosen so that
/// each field boundary is a definitional split, which the parsing proofs
/// in `wire` lean on.)
pub open spec fn command_json(op: Opcode, app_num: u8, params: Seq<u8>) -> Seq<u8> {
    seg_head() + (opcode_name(op) + (seg_app_num() + (dec_u8(app_num) + (seg_parameters()
        + (params_body(params) + seg_tail())))))
}

fn push_dec_u8(out: &mut Vec<u8>, n: u8)
    ensures
        final(out)@ == old(out)@ + dec_u8(n),
{
    if n < 10 {
        out.push(DIGIT_ZERO + n);
    } else if n < 100 {
        out.push(DIGIT_ZERO + n / 10);
        out.push(DIGIT_ZERO + n % 10);
    } else {
        out.push(DIGIT_ZERO + n / 100);
        out.push(DIGIT_ZERO + (n / 10) % 10);
        out.push(DIGIT_ZERO + n % 10);
    }
    assert(out@ =~= old(out)@ + dec_u8(n));
}

fn push_opcode_name(out: &mut Vec<u8>, op: Opcode)
    ensures
        final(out)@ == old(out)@ + opcode_name(op),
{
    match op {
        Opcode::CreateApplet => {
            out.push(67);
            out.push(114);
            out.push(101);
            out.push(97);
            out.push(116);
            out.push(101);
            out.push(65);
            out.push(112);
            out.push(112);
            out.push(108);
            out.push(101);
            out.push(116);
        },
        Opcode::UpdateGrid => {
            out.push(85);
            out.push(112);
            out.push(100);
            out.push(97);
            out.push(116);
            out.push(101);
            out.push(71);
            out.push(114);
            out.push(105);
            out.push(100);
        },
        Opcode::UpdateBar => {
            out.push(85);
            out.push(112);
            out.push(100);
            out.push(97);
            out.push(116);
            out.push(101);
            out.push(66);
            out.push(97);
            out.push(114);
        },
    }
    assert(out@ =~= old(out)@ + opcode_name(op));
}

fn push_params_body(out: &mut Vec<u8>, p: &Vec<u8>)
    ensures
        final(out)@ == old(out)@ + params_body(p@),
{
    let mut i: usize = 0;
    while i < p.len()
        invariant
            i <= p@.len(),
            out@ == old(out)@ + params_body(p@.take(i as int)),
        decreases p@.len() - i,
    {
        if i > 0 {
            out.push(COMMA);
        }
        push_dec_u8(out, p[i]);
        proof {
            lemma_params_body_push(p@.take(i as int), p@[i as int]);
            assert(p@.take(i as int).push(p@[i as int]) =~= p@.take(i + 1 as int));
        }
        i = i + 1;
    }
    assert(p@.take(p@.len() as int) =~= p@);
}

/// Appending one value to a parameter list appends its decimal form,
/// preceded by a comma when the list was not empty.
proof fn lemma_params_body_push(p: Seq<u8>, x: u8)
    ensures
        params_body(p.push(x)) == if p.len() == 0 {
            dec_u8(x)
        } else {
            (params_body(p) + seq![COMMA] + dec_u8(x))
        },
    decreases p.len(),
{
    if p.len() == 0 {
        assert(p.push(x) =~= seq![x]);
        assert(params_body(seq![x]) == dec_u8(x));
    } else if p.len() == 1 {
        assert(p.push(x).len() == 2);
        assert(p.push(x)[0] == p[0]);
        assert(p.push(x).skip(1) =~= seq![x]);
        assert(params_body(seq![x]) == dec_u8(x));
        assert(params_body(p.push(x)) == dec_u8(p[0]) + seq![COMMA] + dec_u8(x));
        assert(params_body(p) == dec_u8(p[0]));
    } else {
        lemma_params_body_push(p.skip(1), x);
        assert(p.push(x).skip(1) =~= p.skip(1).push(x));
        assert(params_body(p.push(x)) == dec_u8(p[0]) + seq![COMMA] + params_body(p.skip(1).push(x)));
        assert(params_body(p.push(x)) =~= params_body(p) + seq![COMMA] + dec_u8(x));
    }
}

/// Encode one command into its wire message, exactly as `command_json`
/// states it.
pub fn encode_command(c: &Command) -> (r: Vec<u8>)
    ensures
        r@ == command_json(c.opcode, c.app_num, c.parameters@),
{
    let mut out: Vec<u8> = Vec::new();
    // {"opcode":"
    out.push(LBRACE);
    out.push(QUOTE);
    out.push(111);
    out.push(112);
    out.push(99);
    out.push(111);
    out.push(100);
    out.push(101);
    out.push(QUOTE);
    out.push(58);
    out.push(QUOTE);
    assert(out@ =~= seg_head());
    push_opcode_name(&mut out, c.opcode);
    // ","app_num":
    out.push(QUOTE);
    out.push(COMMA);
    out.push(QUOTE);
    out.push(97);
    out.push(112);
    out.push(112);
    out.push(95);
    out.push(110);
    out.push(117);
    out.push(109);
    out.push(QUOTE);
    out.push(58);
    assert(out@ =~= seg_head() + opcode_name(c.opcode) + seg_app_num());
    push_dec_u8(&mut out, c.app_num);
    // ,"parameters":[
    out.push(COMMA);
    out.push(QUOTE);
    out.push(112);
    out.push(97);
    out.push(114);
    out.push(97);
    out.push(109);
    out.push(101);
    out.push(116);
    out.push(101);
    out.push(114);
    out.push(115);
    out.push(QUOTE);
    out.push(58);
    out.push(LBRACKET);
    assert(out@ =~= seg_head() + opcode_name(c.opcode) + seg_app_num() + dec_u8(c.app_num)
        + seg_parameters());
    push_params_body(&mut out, &c.parameters);
    // ]}
    out.push(RBRACKET);
    out.push(RBRACE);
    assert(out@ =~= command_json(c.opcode, c.app_num, c.parameters@));
    out
}

} // verus!
