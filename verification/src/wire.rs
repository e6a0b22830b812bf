//! A specification-level reading of the wire format, and the round-trip
//! law: parsing the bytes that `codec::encode_command` produces gives back
//! exactly the opcode, applet number and parameter bytes that went in.
//!
//! The parser models how the peer on the other end of the stream reads one
//! command message of this protocol (the parameter values of which are
//! always single bytes written in decimal). It exists to state and prove
//! `lemma_command_round_trip`; the client itself never parses commands.

use vstd::prelude::*;
use crate::codec::Opcode;
use crate::session::AppletInterface;
use crate::codec::dec_u8;
use crate::codec::opcode_name;
use crate::codec::params_body;
use crate::codec::command_json;
use crate::codec::seg_head;
use crate::codec::seg_app_num;
use crate::codec::seg_parameters;
use crate::codec::seg_tail;
use crate::codec::COMMA;
use crate::codec::DIGIT_ZERO;
use crate::codec::RBRACKET;
use crate::codec::RBRACE;

verus! {

/// An ASCII decimal digit.
pub open spec fn is_ascii_digit(b: u8) -> bool {
    DIGIT_ZERO <= b && b <= DIGIT_ZERO + 9
}

/// The value of an ASCII decimal digit.
pub open spec fn digit_val(b: u8) -> int {
    b - DIGIT_ZERO
}

/// Strip an expected literal prefix, yielding the remainder.
pub open spec fn strip_prefix(lit: Seq<u8>, s: Seq<u8>) -> Option<Seq<u8>> {
    if lit.is_prefix_of(s) {
        Some(s.skip(lit.len() as int))
    } else {
        None
    }
}

/// Read one opcode name. No name is a prefix of another, so first match
/// wins unambiguously.
pub open spec fn parse_opcode(s: Seq<u8>) -> Option<(Opcode, Seq<u8>)> {
    if opcode_name(Opcode::CreateApplet).is_prefix_of(s) {
        Some((Opcode::CreateApplet, s.skip(opcode_name(Opcode::CreateApplet).len() as int)))
    } else if opcode_name(Opcode::UpdateGrid).is_prefix_of(s) {
        Some((Opcode::UpdateGrid, s.skip(opcode_name(Opcode::UpdateGrid).len() as int)))
    } else if opcode_name(Opcode::UpdateBar).is_prefix_of(s) {
        Some((Opcode::UpdateBar, s.skip(opcode_name(Opcode::UpdateBar).len() as int)))
    } else {
        None
    }
}

/// Read a decimal number of one to three digits (a byte value never needs
/// more), greedily.
pub open spec fn parse_number(s: Seq<u8>) -> Option<(int, Seq<u8>)> {
    if s.len() >= 1 && is_ascii_digit(s[0]) {
        if s.len() >= 2 && is_ascii_digit(s[1]) {
            if s.len() >= 3 && is_ascii_digit(s[2]) {
                Some((100 * digit_val(s[0]) + 10 * digit_val(s[1]) + digit_val(s[2]), s.skip(3)))
            } else {
                Some((10 * digit_val(s[0]) + digit_val(s[1]), s.skip(2)))
            }
        } else {
            Some((digit_val(s[0]), s.skip(1)))
        }
    } else {
        None
    }
}

/// Read a nonempty comma-separated run of byte values and the closing
/// bracket (the opening bracket has already been consumed).
pub open spec fn parse_items(s: Seq<u8>) -> Option<(Seq<u8>, Seq<u8>)>
    decreases s.len(),
{
    match parse_number(s) {
        None => None,
        Some((v, r)) => if !(0 <= v < 256) {
            None
        } else if r.len() >= 1 && r[0] == COMMA && r.len() < s.len() {
            match parse_items(r.skip(1)) {
                None => None,
                Some((vs, r2)) => Some((seq![v as u8] + vs, r2)),
            }
        } else if r.len() >= 1 && r[0] == RBRACKET {
            Some((seq![v as u8], r.skip(1)))
        } else {
            None
        },
    }
}

/// Read a possibly empty byte-value list and the closing bracket.
pub open spec fn parse_list(s: Seq<u8>) -> Option<(Seq<u8>, Seq<u8>)> {
    if s.len() >= 1 && s[0] == RBRACKET {
        Some((Seq::empty(), s.skip(1)))
    } else {
        parse_items(s)
    }
}

/// Read one whole command message: the three fields in their fixed order,
/// with nothing left over.
pub open spec fn parse_command(s: Seq<u8>) -> Option<(Opcode, u8, Seq<u8>)> {
    match strip_prefix(seg_head(), s) {
        None => None,
        Some(s1) => match parse_opcode(s1) {
            None => None,
            Some((op, s2)) => match strip_prefix(seg_app_num(), s2) {
                None => None,
                Some(s3) => match parse_number(s3) {
                    None => None,
                    Some((app, s4)) => if !(0 <= app < 256) {
                        None
                    } else {
                        match strip_prefix(seg_parameters(), s4) {
                            None => None,
                            Some(s5) => match parse_list(s5) {
                                None => None,
                                Some((ps, s6)) => if s6.len() == 1 && s6[0] == RBRACE {
                                    Some((op, app as u8, ps))
                                } else {
                                    None
                                },
                            },
                        }
                    },
                },
            },
        },
    }
}

/// Stripping a literal off itself-plus-remainder yields the remainder.
proof fn lemma_strip_prefix(lit: Seq<u8>, rest: Seq<u8>)
    ensures
        strip_prefix(lit, lit + rest) == Some(rest),
{
    assert((lit + rest).subrange(0, lit.len() as int) =~= lit);
    assert((lit + rest).skip(lit.len() as int) =~= rest);
}

/// An encoded opcode name parses back to its opcode.
proof fn lemma_parse_opcode(op: Opcode, rest: Seq<u8>)
    ensures
        parse_opcode(opcode_name(op) + rest) == Some((op, rest)),
{
    let s = opcode_name(op) + rest;
    match op {
        Opcode::CreateApplet => {
            assert(opcode_name(Opcode::CreateApplet).is_prefix_of(s)) by {
                assert(s.subrange(0, 12) =~= opcode_name(Opcode::CreateApplet));
            }
            assert(s.skip(12) =~= rest);
        },
        Opcode::UpdateGrid => {
            assert(!opcode_name(Opcode::CreateApplet).is_prefix_of(s)) by {
                assert(s[0] == 85 && opcode_name(Opcode::CreateApplet)[0] == 67);
            }
            assert(opcode_name(Opcode::UpdateGrid).is_prefix_of(s)) by {
                assert(s.subrange(0, 10) =~= opcode_name(Opcode::UpdateGrid));
            }
            assert(s.skip(10) =~= rest);
        },
        Opcode::UpdateBar => {
            assert(!opcode_name(Opcode::CreateApplet).is_prefix_of(s)) by {
                assert(s[0] == 85 && opcode_name(Opcode::CreateApplet)[0] == 67);
            }
            assert(!opcode_name(Opcode::UpdateGrid).is_prefix_of(s)) by {
                assert(s[6] == 66 && opcode_name(Opcode::UpdateGrid)[6] == 71);
            }
            assert(opcode_name(Opcode::UpdateBar).is_prefix_of(s)) by {
                assert(s.subrange(0, 9) =~= opcode_name(Opcode::UpdateBar));
            }
            assert(s.skip(9) =~= rest);
        },
    }
}

/// A decimal rendering followed by a non-digit parses back to its value.
proof fn lemma_parse_number(n: u8, rest: Seq<u8>)
    requires
        rest.len() >= 1,
        !is_ascii_digit(rest[0]),
    ensures
        parse_number(dec_u8(n) + rest) == Some((n as int, rest)),
{
    let s = dec_u8(n) + rest;
    if n < 10 {
        assert(s[0] == DIGIT_ZERO + n);
        assert(s[1] == rest[0]);
        assert(s.skip(1) =~= rest);
    } else if n < 100 {
        assert(s[0] == DIGIT_ZERO + n / 10 && s[1] == DIGIT_ZERO + n % 10);
        assert(s[2] == rest[0]);
        assert(10 * ((n / 10) as int) + (n % 10) as int == n as int);
        assert(s.skip(2) =~= rest);
    } else {
        assert(s[0] == DIGIT_ZERO + n / 100 && s[1] == DIGIT_ZERO + (n / 10) % 10 && s[2]
            == DIGIT_ZERO + n % 10);
        assert(n / 100 == 1 || n / 100 == 2);
        assert(100 * ((n / 100) as int) + 10 * (((n / 10) % 10) as int) + (n % 10) as int
            == n as int) by (nonlinear_arith)
            requires n >= 100;
        assert(s.skip(3) =~= rest);
    }
}

/// A nonempty encoded parameter list, its closing bracket, and whatever
/// follows parse back to the parameter bytes and that remainder.
proof fn lemma_parse_items(p: Seq<u8>, rest: Seq<u8>)
    requires
        p.len() >= 1,
    ensures
        parse_items(params_body(p) + seq![RBRACKET] + rest) == Some((p, rest)),
    decreases p.len(),
{
    let s = params_body(p) + seq![RBRACKET] + rest;
    if p.len() == 1 {
        let tail = seq![RBRACKET] + rest;
        assert(s =~= dec_u8(p[0]) + tail);
        lemma_parse_number(p[0], tail);
        assert(tail[0] == RBRACKET && !is_ascii_digit(RBRACKET));
        assert(tail.skip(1) =~= rest);
        assert(seq![((p[0] as int) as u8)] =~= p);
    } else {
        let tail = seq![COMMA] + params_body(p.skip(1)) + seq![RBRACKET] + rest;
        assert(params_body(p) == dec_u8(p[0]) + seq![COMMA] + params_body(p.skip(1)));
        assert(s =~= dec_u8(p[0]) + tail);
        lemma_parse_number(p[0], tail);
        assert(tail[0] == COMMA && !is_ascii_digit(COMMA));
        assert(tail.skip(1) =~= params_body(p.skip(1)) + seq![RBRACKET] + rest);
        lemma_parse_items(p.skip(1), rest);
        assert(tail.len() < s.len());
        assert(seq![((p[0] as int) as u8)] + p.skip(1) =~= p);
    }
}

/// An encoded parameter list of any length parses back to its bytes.
proof fn lemma_parse_list(p: Seq<u8>, rest: Seq<u8>)
    ensures
        parse_list(params_body(p) + seq![RBRACKET] + rest) == Some((p, rest)),
{
    let s = params_body(p) + seq![RBRACKET] + rest;
    if p.len() == 0 {
        assert(s =~= seq![RBRACKET] + rest);
        assert(s[0] == RBRACKET);
        assert(s.skip(1) =~= rest);
        assert(parse_list(s) == Some((Seq::<u8>::empty(), rest)));
    } else {
        assert(s[0] == dec_u8(p[0])[0]) by {
            if p.len() == 1 {
            } else {
                assert(params_body(p) == dec_u8(p[0]) + seq![COMMA] + params_body(p.skip(1)));
            }
        }
        assert(is_ascii_digit(s[0]));
        assert(s[0] != RBRACKET);
        lemma_parse_items(p, rest);
    }
}

/// The round-trip law of the command codec: the wire message built from
/// any opcode, applet number and parameter bytes parses back to exactly
/// those three fields. For an UpdateGrid command this is the grid
/// round-trip: the peer recovers the row-major byte sequence unchanged.
#[verifier::rlimit(100)]
pub proof fn lemma_command_round_trip(op: Opcode, app_num: u8, params: Seq<u8>)
    ensures
        parse_command(command_json(op, app_num, params)) == Some((op, app_num, params)),
{
    let s = command_json(op, app_num, params);
    let after_params_seg = params_body(params) + seg_tail();
    let after_num = seg_parameters() + after_params_seg;
    let after_app_seg = dec_u8(app_num) + after_num;
    let after_op = seg_app_num() + after_app_seg;
    let after_head = opcode_name(op) + after_op;

    assert(strip_prefix(seg_head(), s) == Some(after_head)) by {
        lemma_strip_prefix(seg_head(), after_head);
    }
    assert(parse_opcode(after_head) == Some((op, after_op))) by {
        lemma_parse_opcode(op, after_op);
    }
    assert(strip_prefix(seg_app_num(), after_op) == Some(after_app_seg)) by {
        lemma_strip_prefix(seg_app_num(), after_app_seg);
    }
    assert(parse_number(after_app_seg) == Some((app_num as int, after_num))) by {
        assert(after_num[0] == COMMA && !is_ascii_digit(COMMA));
        lemma_parse_number(app_num, after_num);
    }
    assert(strip_prefix(seg_parameters(), after_num) == Some(after_params_seg)) by {
        lemma_strip_prefix(seg_parameters(), after_params_seg);
    }
    assert(parse_list(after_params_seg) == Some((params, seq![RBRACE]))) by {
        assert(after_params_seg =~= params_body(params) + seq![RBRACKET] + seq![RBRACE]);
        lemma_parse_list(params, seq![RBRACE]);
    }
    assert(seq![RBRACE].len() == 1 && seq![RBRACE][0] == RBRACE);
    assert(((app_num as int) as u8) == app_num);
}

/// The grid write round-trip: the peer's reading of the UpdateGrid message
/// built from any session's grid mirror recovers the applet number and the
/// full row-major byte sequence unchanged.
pub proof fn lemma_grid_round_trip(s: AppletInterface)
    ensures
        parse_command(command_json(Opcode::UpdateGrid, s.applet_number(), s.grid_row_major()))
            == Some((Opcode::UpdateGrid, s.applet_number(), s.grid_row_major())),
{
    lemma_command_round_trip(Opcode::UpdateGrid, s.applet_number(), s.grid_row_major());
}

} // verus!
