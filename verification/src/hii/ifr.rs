//! The IFR opcode-stream layer: splitting, validating and re-framing the
//! records of a forms package.
//!
//! Every record is one tag byte followed by one byte that packs a scope
//! bit over a 7-bit length counting the whole record, so no record is
//! longer than 127 bytes. A record whose scope bit is set opens a scope
//! that a later `END` record closes; `END` closes the most recently opened
//! scope whatever opened it. Inside a scope opened by one of the
//! condition opcodes (`SUPPRESS_IF`, `GRAY_OUT_IF`, `DISABLE_IF`,
//! `NO_SUBMIT_IF`, `INCONSISTENT_IF`, `WARNING_IF`) the expression
//! opcodes are checked for stack arity: each pops and pushes a fixed
//! number of values, the stack must never underflow, and exactly one
//! value must be left when the scope closes.
//!
//! [`lemma_ops_round_trip`] is the byte-conservation law of this layer and
//! [`lemma_scope_balance`] the scope-balance law.

use vstd::prelude::*;

use crate::bytes::Reader;
use crate::bytes::Writer;
use crate::error::Error;
use crate::hii::forms::OpCode;
use crate::hii::forms::OpHeader;

verus! {

/// The deepest scope nesting the decoder follows before it reports
/// `ResourceLimitExceeded`.
pub const MAX_SCOPE_DEPTH: usize = 64;

/// One decoded opcode record: the tag, the scope bit, and the payload
/// bytes after the 2-byte header. Unknown tags are carried like any
/// other, never rejected.
#[derive(Clone, Debug, PartialEq, Eq)]
pub struct IfrOp {
    pub op: u8,
    pub open_scope: bool,
    pub payload: Vec<u8>,
}

/// A record as plain values.
pub open spec fn op_view(o: IfrOp) -> (u8, bool, Seq<u8>) {
    (o.op, o.open_scope, o.payload@)
}

/// A record run as plain values.
pub open spec fn ops_view(v: Seq<IfrOp>) -> Seq<(u8, bool, Seq<u8>)> {
    v.map(|i: int, o: IfrOp| op_view(o))
}

/// The header byte: the scope bit over the 7-bit total length.
pub open spec fn op_header_byte(scope: bool, total: int) -> u8 {
    ((if scope {
        128int
    } else {
        0int
    }) + total) as u8
}

/// The wire bytes of one record.
pub open spec fn op_frame_bytes(op: u8, scope: bool, payload: Seq<u8>) -> Seq<u8> {
    seq![op, op_header_byte(scope, payload.len() as int + 2)] + payload
}

/// The wire bytes of a record run.
pub open spec fn ops_frames_bytes(v: Seq<(u8, bool, Seq<u8>)>) -> Seq<u8>
    decreases v.len(),
{
    if v.len() == 0 {
        Seq::empty()
    } else {
        op_frame_bytes(v[0].0, v[0].1, v[0].2) + ops_frames_bytes(v.drop_first())
    }
}

/// The reference splitter: cuts `s` into records front to back and says
/// exactly which error a malformed stream gives. A header length below 2
/// is impossible (the header itself is 2 bytes) and one past the end of
/// the data is a truncation.
pub open spec fn spec_split_ops(s: Seq<u8>) -> Result<Seq<(u8, bool, Seq<u8>)>, Error>
    decreases s.len(),
{
    if s.len() == 0 {
        Ok(Seq::empty())
    } else if s.len() < 2 {
        Err(Error::TruncatedBuffer)
    } else {
        let b = s[1];
        let scope = b >= 128;
        let len = if b >= 128 {
            (b - 128) as int
        } else {
            b as int
        };
        if len < 2 {
            Err(Error::InvalidLength)
        } else if len > s.len() {
            Err(Error::TruncatedBuffer)
        } else {
            match spec_split_ops(s.skip(len)) {
                Ok(rest) => Ok(seq![(s[0], scope, s.subrange(2, len))] + rest),
                Err(e) => Err(e),
            }
        }
    }
}

/// The stack signature of an expression opcode: how many values it pops
/// and pushes. `None` for every opcode outside the expression subset.
/// Literals and question/string reads push one value; unary conversions
/// replace one; binary arithmetic, comparison and boolean opcodes take
/// two; `MID`, `FIND`, `TOKEN`, `SPAN` and `CONDITIONAL` take three;
/// `DUP` doubles the top value.
pub open spec fn op_stack_sig(op: u8) -> Option<(int, int)> {
    if op == 0x15 || op == 0x16 || (0x2F <= op && op <= 0x3E) || op == 0x5E || op == 0x2A || op
        == 0x64 {
        Some((2int, 1int))
    } else if op == 0x17 || op == 0x37 || (0x48 <= op && op <= 0x4A) || op == 0x20 || op == 0x21
        || op == 0x56 || op == 0x41 || op == 0x4F || op == 0x51 || op == 0x22 {
        Some((1int, 1int))
    } else if (0x4B <= op && op <= 0x4D) || op == 0x50 || op == 0x59 {
        Some((3int, 1int))
    } else if op == 0x57 {
        Some((1int, 2int))
    } else if (0x42 <= op && op <= 0x47) || (0x52 <= op && op <= 0x55) || (0x12 <= op && op
        <= 0x14) || op == 0x3F || op == 0x40 || op == 0x4E || op == 0x58 || op == 0x2B || op
        == 0x28 || op == 0x60 {
        Some((0int, 1int))
    } else {
        None
    }
}

/// Whether `op` opens a condition scope, whose contents are an expression
/// that must leave exactly one value.
pub open spec fn is_condition_op(op: u8) -> bool {
    op == 0x0A || op == 0x19 || op == 0x1E || op == 0x10 || op == 0x11 || op == 0x63
}

/// The scope and arity check over a record run. The stack holds one entry
/// per open scope: whether it is a condition scope, and the number of
/// expression values its direct children have left so far.
pub open spec fn spec_check_ops(v: Seq<(u8, bool, Seq<u8>)>, stack: Seq<(bool, int)>) -> Result<
    (),
    Error,
>
    decreases v.len(),
{
    if v.len() == 0 {
        if stack.len() == 0 {
            Ok(())
        } else {
            Err(Error::UnbalancedScope)
        }
    } else {
        let op = v[0].0;
        let scope = v[0].1;
        if op == 0x29 {
            if stack.len() == 0 {
                Err(Error::ScopeUnderflow)
            } else if stack.last().0 && stack.last().1 != 1 {
                Err(Error::ExpressionImbalance)
            } else {
                spec_check_ops(v.drop_first(), stack.drop_last())
            }
        } else {
            let counting = op_stack_sig(op) is Some && stack.len() > 0 && stack.last().0;
            if counting && stack.last().1 < (op_stack_sig(op)->0).0 {
                Err(Error::ExpressionImbalance)
            } else {
                let stack1 = if counting {
                    stack.update(
                        stack.len() - 1,
                        (true, stack.last().1 - (op_stack_sig(op)->0).0 + (op_stack_sig(op)->0).1),
                    )
                } else {
                    stack
                };
                if scope {
                    if stack1.len() >= MAX_SCOPE_DEPTH {
                        Err(Error::ResourceLimitExceeded)
                    } else {
                        spec_check_ops(v.drop_first(), stack1.push((is_condition_op(op), 0)))
                    }
                } else {
                    spec_check_ops(v.drop_first(), stack1)
                }
            }
        }
    }
}

/// How one record changes the scope depth: `END` closes a scope, a set
/// scope bit opens one.
pub open spec fn op_depth_delta(f: (u8, bool, Seq<u8>)) -> int {
    if f.0 == 0x29 {
        -1
    } else if f.1 {
        1
    } else {
        0
    }
}

/// The net scope depth of a record run.
pub open spec fn net_depth(v: Seq<(u8, bool, Seq<u8>)>) -> int
    decreases v.len(),
{
    if v.len() == 0 {
        0
    } else {
        op_depth_delta(v[0]) + net_depth(v.drop_first())
    }
}

proof fn lemma_scope_balance_aux(v: Seq<(u8, bool, Seq<u8>)>, stack: Seq<(bool, int)>)
    requires
        spec_check_ops(v, stack) is Ok,
    ensures
        forall|n: int| 0 <= n <= v.len() ==> stack.len() + net_depth(#[trigger] v.take(n)) >= 0,
        stack.len() + net_depth(v) == 0,
    decreases v.len(),
{
    if v.len() == 0 {
        assert forall|n: int| 0 <= n <= v.len() implies stack.len() + net_depth(
            #[trigger] v.take(n),
        ) >= 0 by {
            assert(v.take(n) =~= v);
        }
    } else {
        let f = v[0];
        let rest = v.drop_first();
        let op = f.0;
        let scope = f.1;
        let stack1 = if op == 0x29 {
            stack.drop_last()
        } else {
            let counting = op_stack_sig(op) is Some && stack.len() > 0 && stack.last().0;
            let updated = if counting {
                stack.update(
                    stack.len() - 1,
                    (true, stack.last().1 - (op_stack_sig(op)->0).0 + (op_stack_sig(op)->0).1),
                )
            } else {
                stack
            };
            if scope {
                updated.push((is_condition_op(op), 0))
            } else {
                updated
            }
        };
        assert(spec_check_ops(rest, stack1) is Ok);
        assert(stack1.len() == stack.len() + op_depth_delta(f));
        lemma_scope_balance_aux(rest, stack1);
        assert(stack.len() + net_depth(v) == 0);
        assert forall|n: int| 0 <= n <= v.len() implies stack.len() + net_depth(
            #[trigger] v.take(n),
        ) >= 0 by {
            if n == 0 {
                assert(v.take(0) =~= Seq::<(u8, bool, Seq<u8>)>::empty());
            } else {
                assert(v.take(n).drop_first() =~= rest.take(n - 1));
                assert(v.take(n)[0] == f);
                assert(net_depth(v.take(n)) == op_depth_delta(f) + net_depth(rest.take(n - 1)));
                assert(stack1.len() + net_depth(rest.take(n - 1)) >= 0);
            }
        }
    }
}

/// Scope balance: in a record run that the checker accepts from an empty
/// stack, every prefix has nonnegative scope depth, and the depth is zero
/// exactly at the end of the run.
pub proof fn lemma_scope_balance(v: Seq<(u8, bool, Seq<u8>)>)
    requires
        spec_check_ops(v, Seq::<(bool, int)>::empty()) is Ok,
    ensures
        forall|n: int| 0 <= n <= v.len() ==> net_depth(#[trigger] v.take(n)) >= 0,
        net_depth(v) == 0,
{
    lemma_scope_balance_aux(v, Seq::<(bool, int)>::empty());
    assert forall|n: int| 0 <= n <= v.len() implies net_depth(#[trigger] v.take(n)) >= 0 by {
        assert(Seq::<(bool, int)>::empty().len() + net_depth(v.take(n)) >= 0);
    }
}

/// Byte conservation: whatever the splitter accepts re-frames to exactly
/// the input bytes, and every payload fits the 7-bit length field.
pub proof fn lemma_ops_round_trip(s: Seq<u8>)
    requires
        spec_split_ops(s) is Ok,
    ensures
        ops_frames_bytes(spec_split_ops(s)->Ok_0) == s,
        forall|i: int|
            0 <= i < spec_split_ops(s)->Ok_0.len() ==> (#[trigger] spec_split_ops(
                s,
            )->Ok_0[i]).2.len() <= 125,
    decreases s.len(),
{
    let v = spec_split_ops(s)->Ok_0;
    if s.len() == 0 {
        assert(ops_frames_bytes(v) =~= s);
    } else {
        let b = s[1];
        let scope = b >= 128;
        let len = if b >= 128 {
            (b - 128) as int
        } else {
            b as int
        };
        let payload = s.subrange(2, len);
        assert(op_header_byte(scope, payload.len() as int + 2) == b);
        assert(op_frame_bytes(s[0], scope, payload) =~= s.subrange(0, len));
        lemma_ops_round_trip(s.skip(len));
        let rest = spec_split_ops(s.skip(len))->Ok_0;
        assert(v.drop_first() =~= rest);
        assert(v[0] == (s[0], scope, payload));
        assert(ops_frames_bytes(v) =~= s.subrange(0, len) + s.skip(len));
        assert(s.subrange(0, len) + s.skip(len) =~= s);
    }
}

/// The scope bit and 7-bit length, read with shifts, agree with their
/// arithmetic reading.
proof fn lemma_header_byte(b: u8)
    ensures
        ((b >> 7) & 0x1 == 1) <==> b >= 128,
        (b & 0x7F) == (if b >= 128 {
            (b - 128) as u8
        } else {
            b
        }),
{
    assert((((b >> 7) & 0x1 == 1) <==> b >= 128) && ((b & 0x7F) == (if b >= 128 {
        (b - 128) as u8
    } else {
        b
    }))) by (bit_vector);
}

/// Splits a forms payload into opcode records; accepts exactly the
/// streams [`spec_split_ops`] accepts and returns exactly its records.
pub fn split_ops(data: &[u8]) -> (r: Result<Vec<IfrOp>, Error>)
    ensures
        r is Ok <==> spec_split_ops(data@) is Ok,
        r is Ok ==> ops_view(r->Ok_0@) == spec_split_ops(data@)->Ok_0,
        r is Err ==> spec_split_ops(data@) == Err::<Seq<(u8, bool, Seq<u8>)>, Error>(r->Err_0),
{
    let mut rd = Reader::new(data);
    let mut ops: Vec<IfrOp> = Vec::new();
    proof {
        assert(data@.skip(0) =~= data@);
        if spec_split_ops(data@) is Ok {
            assert(ops_view(ops@) + spec_split_ops(data@)->Ok_0 =~= spec_split_ops(data@)->Ok_0);
        }
    }
    while rd.remaining() > 0
        invariant
            rd.wf(),
            rd.bytes() == data@,
            spec_split_ops(data@) == (match spec_split_ops(data@.skip(rd.at())) {
                Ok(rest) => Ok::<_, Error>(ops_view(ops@) + rest),
                Err(e) => Err::<Seq<(u8, bool, Seq<u8>)>, _>(e),
            }),
        decreases rd.left(),
    {
        let ghost pos = rd.at();
        let ghost s = data@.skip(pos);
        let tag = match rd.read_u8() {
            Ok(v) => v,
            Err(e) => {
                return Err(Error::TruncatedBuffer);
            },
        };
        let b = match rd.read_u8() {
            Ok(v) => v,
            Err(e) => {
                proof {
                    assert(0 < s.len() < 2);
                    assert(spec_split_ops(s) == Err::<Seq<(u8, bool, Seq<u8>)>, Error>(
                        Error::TruncatedBuffer,
                    ));
                }
                return Err(Error::TruncatedBuffer);
            },
        };
        let header = OpHeader { OpCode: OpCode(tag), ScopeAndLength: b };
        let scope = header.scope() == 1;
        let len = header.length() as usize;
        proof {
            lemma_header_byte(b);
            assert(s[0] == tag && s[1] == b);
            assert(scope == (b >= 128));
            assert(len as int == (if b >= 128 {
                (b - 128) as int
            } else {
                b as int
            }));
        }
        if len < 2 {
            proof {
                assert(spec_split_ops(s) == Err::<Seq<(u8, bool, Seq<u8>)>, Error>(
                    Error::InvalidLength,
                ));
            }
            return Err(Error::InvalidLength);
        }
        if len - 2 > rd.remaining() {
            proof {
                assert(len > s.len());
                assert(spec_split_ops(s) == Err::<Seq<(u8, bool, Seq<u8>)>, Error>(
                    Error::TruncatedBuffer,
                ));
            }
            return Err(Error::TruncatedBuffer);
        }
        let payload = match rd.read_bytes(len - 2) {
            Ok(v) => v,
            Err(e) => {
                return Err(Error::TruncatedBuffer);
            },
        };
        let ghost view_old = ops_view(ops@);
        let ghost payload_v = payload@;
        ops.push(IfrOp { op: tag, open_scope: scope, payload });
        proof {
            assert(s.subrange(2, len as int) =~= data@.subrange(pos + 2, pos + len));
            assert(payload_v == s.subrange(2, len as int));
            assert(s.skip(len as int) =~= data@.skip(pos + len));
            assert(ops_view(ops@) =~= view_old + seq![(tag, scope, payload_v)]);
            assert(spec_split_ops(s) == (match spec_split_ops(s.skip(len as int)) {
                Ok(rest) => Ok::<_, Error>(seq![(tag, scope, payload_v)] + rest),
                Err(e) => Err::<Seq<(u8, bool, Seq<u8>)>, _>(e),
            }));
            let new_s = data@.skip(pos + len);
            if spec_split_ops(new_s) is Ok {
                let rest = spec_split_ops(new_s)->Ok_0;
                assert(view_old + (seq![(tag, scope, payload_v)] + rest) =~= ops_view(ops@) + rest);
                assert(spec_split_ops(data@) == Ok::<_, Error>(ops_view(ops@) + rest));
            }
        }
    }
    proof {
        assert(data@.skip(rd.at()) =~= Seq::<u8>::empty());
        assert(ops_view(ops@) + Seq::<(u8, bool, Seq<u8>)>::empty() =~= ops_view(ops@));
    }
    Ok(ops)
}

/// The stack of the checker as plain values.
pub open spec fn stack_view(v: Seq<(bool, usize)>) -> Seq<(bool, int)> {
    v.map(|i: int, e: (bool, usize)| (e.0, e.1 as int))
}

/// The executable stack signature table; agrees with [`op_stack_sig`].
fn op_arity(op: u8) -> (r: Option<(u8, u8)>)
    ensures
        r is Some <==> op_stack_sig(op) is Some,
        r is Some ==> op_stack_sig(op)->0 == ((r->0).0 as int, (r->0).1 as int),
{
    if op == 0x15 || op == 0x16 || (0x2F <= op && op <= 0x3E) || op == 0x5E || op == 0x2A || op
        == 0x64 {
        Some((2, 1))
    } else if op == 0x17 || op == 0x37 || (0x48 <= op && op <= 0x4A) || op == 0x20 || op == 0x21
        || op == 0x56 || op == 0x41 || op == 0x4F || op == 0x51 || op == 0x22 {
        Some((1, 1))
    } else if (0x4B <= op && op <= 0x4D) || op == 0x50 || op == 0x59 {
        Some((3, 1))
    } else if op == 0x57 {
        Some((1, 2))
    } else if (0x42 <= op && op <= 0x47) || (0x52 <= op && op <= 0x55) || (0x12 <= op && op
        <= 0x14) || op == 0x3F || op == 0x40 || op == 0x4E || op == 0x58 || op == 0x2B || op
        == 0x28 || op == 0x60 {
        Some((0, 1))
    } else {
        None
    }
}

/// Whether `op` opens a condition scope; agrees with [`is_condition_op`].
fn op_is_condition(op: u8) -> (r: bool)
    ensures
        r == is_condition_op(op),
{
    op == 0x0A || op == 0x19 || op == 0x1E || op == 0x10 || op == 0x11 || op == 0x63
}

/// Runs the scope and arity check over a record run; returns exactly what
/// [`spec_check_ops`] gives from an empty stack.
pub fn check_ops(ops: &Vec<IfrOp>) -> (r: Result<(), Error>)
    ensures
        r == spec_check_ops(ops_view(ops@), Seq::<(bool, int)>::empty()),
{
    let mut stack: Vec<(bool, usize)> = Vec::new();
    let mut i: usize = 0;
    proof {
        assert(ops@.skip(0) =~= ops@);
        assert(stack_view(stack@) =~= Seq::<(bool, int)>::empty());
    }
    while i < ops.len()
        invariant
            i <= ops@.len(),
            forall|k: int| 0 <= k < stack@.len() ==> (#[trigger] stack@[k]).1 <= i,
            spec_check_ops(ops_view(ops@), Seq::<(bool, int)>::empty()) == spec_check_ops(
                ops_view(ops@.skip(i as int)),
                stack_view(stack@),
            ),
        decreases ops@.len() - i,
    {
        let ghost v = ops_view(ops@.skip(i as int));
        let ghost st = stack_view(stack@);
        proof {
            assert(v[0] == op_view(ops@[i as int]));
            assert(v.drop_first() =~= ops_view(ops@.skip(i + 1)));
        }
        let op = ops[i].op;
        let scope = ops[i].open_scope;
        if op == 0x29 {
            if stack.len() == 0 {
                return Err(Error::ScopeUnderflow);
            }
            let top = stack[stack.len() - 1];
            if top.0 && top.1 != 1 {
                return Err(Error::ExpressionImbalance);
            }
            let _ = stack.pop();
            proof {
                assert(stack_view(stack@) =~= st.drop_last());
            }
        } else {
            let counting = match op_arity(op) {
                Some(_) => stack.len() > 0 && stack[stack.len() - 1].0,
                None => false,
            };
            if counting {
                let (p, q) = match op_arity(op) {
                    Some(pq) => pq,
                    None => (0, 0),
                };
                let top = stack[stack.len() - 1];
                if top.1 < p as usize {
                    return Err(Error::ExpressionImbalance);
                }
                let _ = stack.pop();
                stack.push((true, top.1 - p as usize + q as usize));
                proof {
                    assert(stack_view(stack@) =~= st.update(
                        st.len() - 1,
                        (true, st.last().1 - (op_stack_sig(op)->0).0 + (op_stack_sig(op)->0).1),
                    ));
                }
            }
            if scope {
                if stack.len() >= MAX_SCOPE_DEPTH {
                    return Err(Error::ResourceLimitExceeded);
                }
                stack.push((op_is_condition(op), 0));
                proof {
                    if counting {
                        assert(stack_view(stack@) =~= st.update(
                            st.len() - 1,
                            (true, st.last().1 - (op_stack_sig(op)->0).0 + (op_stack_sig(op)->0).1),
                        ).push((is_condition_op(op), 0)));
                    } else {
                        assert(stack_view(stack@) =~= st.push((is_condition_op(op), 0)));
                    }
                }
            } else {
                proof {
                    if counting {
                        assert(stack_view(stack@) =~= st.update(
                            st.len() - 1,
                            (true, st.last().1 - (op_stack_sig(op)->0).0 + (op_stack_sig(op)->0).1),
                        ));
                    }
                }
            }
        }
        i = i + 1;
    }
    proof {
        assert(ops_view(ops@.skip(i as int)) =~= Seq::<(u8, bool, Seq<u8>)>::empty());
    }
    if stack.len() == 0 {
        Ok(())
    } else {
        Err(Error::UnbalancedScope)
    }
}

/// Decodes a forms payload: splits it into records and validates scope
/// balance, nesting depth and expression arity. Accepts exactly the
/// streams that both [`spec_split_ops`] and [`spec_check_ops`] accept;
/// the records re-encode to the input bytes
/// ([`lemma_ops_round_trip`]).
pub fn decode_ops(data: &[u8]) -> (r: Result<Vec<IfrOp>, Error>)
    ensures
        r is Ok <==> spec_split_ops(data@) is Ok && spec_check_ops(
            spec_split_ops(data@)->Ok_0,
            Seq::<(bool, int)>::empty(),
        ) is Ok,
        r is Ok ==> ops_view(r->Ok_0@) == spec_split_ops(data@)->Ok_0,
        r is Err ==> (if spec_split_ops(data@) is Err {
            spec_split_ops(data@)->Err_0
        } else {
            spec_check_ops(spec_split_ops(data@)->Ok_0, Seq::<(bool, int)>::empty())->Err_0
        }) == r->Err_0,
{
    let ops = match split_ops(data) {
        Ok(v) => v,
        Err(e) => {
            return Err(e);
        },
    };
    match check_ops(&ops) {
        Ok(()) => Ok(ops),
        Err(e) => Err(e),
    }
}

/// Encodes a record run. Succeeds if and only if every payload fits the
/// 7-bit length field together with the 2-byte header, so 125 payload
/// bytes at most; the output is exactly [`ops_frames_bytes`] of the run.
pub fn encode_ops(ops: &Vec<IfrOp>) -> (r: Result<Vec<u8>, Error>)
    ensures
        r is Ok <==> forall|i: int|
            0 <= i < ops@.len() ==> (#[trigger] ops@[i]).payload@.len() <= 125,
        r is Ok ==> r->Ok_0@ == ops_frames_bytes(ops_view(ops@)),
        r is Err ==> r->Err_0 == Error::PayloadTooLarge,
{
    let mut w = Writer::new();
    let mut i: usize = 0;
    while i < ops.len()
        invariant
            i <= ops@.len(),
            forall|k: int| 0 <= k < i ==> (#[trigger] ops@[k]).payload@.len() <= 125,
            w.bytes() == ops_frames_bytes(ops_view(ops@.subrange(0, i as int))),
        decreases ops@.len() - i,
    {
        let o = &ops[i];
        if o.payload.len() > 125 {
            return Err(Error::PayloadTooLarge);
        }
        let total = (o.payload.len() + 2) as u8;
        let hb = if o.open_scope {
            128 + total
        } else {
            total
        };
        w.write_u8(o.op);
        w.write_u8(hb);
        w.write_bytes(o.payload.as_slice());
        i = i + 1;
        proof {
            lemma_ops_frames_snoc(ops_view(ops@.subrange(0, i as int)));
            assert(ops_view(ops@.subrange(0, i - 1)) =~= ops_view(
                ops@.subrange(0, i as int),
            ).drop_last());
            assert(hb == op_header_byte(o.open_scope, o.payload@.len() as int + 2));
            assert(w.bytes() =~= ops_frames_bytes(ops_view(ops@.subrange(0, i as int))));
        }
    }
    proof {
        assert(ops@.subrange(0, ops@.len() as int) =~= ops@);
    }
    Ok(w.into_vec())
}

/// Appending one record to a run appends its bytes.
proof fn lemma_ops_frames_snoc(v: Seq<(u8, bool, Seq<u8>)>)
    requires
        v.len() > 0,
    ensures
        ops_frames_bytes(v) == ops_frames_bytes(v.drop_last()) + op_frame_bytes(
            v.last().0,
            v.last().1,
            v.last().2,
        ),
    decreases v.len(),
{
    if v.len() == 1 {
        assert(v.drop_last() =~= Seq::<(u8, bool, Seq<u8>)>::empty());
        assert(v.drop_first() =~= Seq::<(u8, bool, Seq<u8>)>::empty());
        assert(ops_frames_bytes(Seq::<(u8, bool, Seq<u8>)>::empty()) == Seq::<u8>::empty());
        assert(ops_frames_bytes(v) =~= ops_frames_bytes(v.drop_last()) + op_frame_bytes(
            v.last().0,
            v.last().1,
            v.last().2,
        ));
    } else {
        lemma_ops_frames_snoc(v.drop_first());
        assert(v.drop_first().drop_last() =~= v.drop_last().drop_first());
        assert(v.drop_last()[0] == v[0]);
        assert(ops_frames_bytes(v) =~= ops_frames_bytes(v.drop_last()) + op_frame_bytes(
            v.last().0,
            v.last().1,
            v.last().2,
        ));
    }
}

} // verus!
