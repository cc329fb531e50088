//! The stable byte layout of the wire protocol, with verified encoders and
//! decoders.
//!
//! Layout rules (field order matches the declaration order of the protocol
//! types):
//!
//! * `u32` / `u64` — little endian, 4 / 8 bytes.
//! * `bool` — one byte, `0` or `1`.
//! * byte strings — a `u64` little-endian length, then the bytes.
//! * `option<T>` — one tag byte (`0` = none, `1` = some), then the payload.
//! * enums — one tag byte: the variant index in declaration order.
//!
//! Both peers must emit byte-identical encodings for identical logical
//! values; the decoders reject any unknown tag, and the engine treats that
//! as a framing error, fatal to the session.

use vstd::prelude::*;

use crate::protocol::req::{Call, CallV, Free, Req, ReqV, Ty, TyV};
use crate::protocol::res;
use crate::protocol::{Dir, Msg, MsgV};
use crate::value::{Lit, Value, ValueV};

verus! {

// ---------------------------------------------------------------------------
// Specification-level encoding
// ---------------------------------------------------------------------------

/// The little-endian bytes of a 64-bit integer.
pub open spec fn enc_u64(x: u64) -> Seq<u8> {
    seq![
        x as u8,
        (x >> 8u64) as u8,
        (x >> 16u64) as u8,
        (x >> 24u64) as u8,
        (x >> 32u64) as u8,
        (x >> 40u64) as u8,
        (x >> 48u64) as u8,
        (x >> 56u64) as u8,
    ]
}

/// The little-endian bytes of a 32-bit integer.
pub open spec fn enc_u32(x: u32) -> Seq<u8> {
    seq![x as u8, (x >> 8u32) as u8, (x >> 16u32) as u8, (x >> 24u32) as u8]
}

/// One byte for a boolean.
pub open spec fn enc_bool(b: bool) -> Seq<u8> {
    seq![if b { 1u8 } else { 0u8 }]
}

/// A length-prefixed byte string.
pub open spec fn enc_bytes(s: Seq<u8>) -> Seq<u8> {
    enc_u64(s.len() as u64) + s
}

/// An optional 64-bit integer: a tag byte, then the payload if present.
pub open spec fn enc_opt_u64(o: Option<u64>) -> Seq<u8> {
    match o {
        None => seq![0u8],
        Some(x) => seq![1u8] + enc_u64(x),
    }
}

/// A wire value: tag `0` for a byte payload, tag `1` for a reference.
pub open spec fn enc_value(v: ValueV) -> Seq<u8> {
    match v {
        ValueV::Lit { bytes } => seq![0u8] + enc_bytes(bytes),
        ValueV::Ref { owner, id } => seq![1u8] + enc_u32(owner) + enc_u64(id),
    }
}

/// An optional wire value: a tag byte, then the payload if present.
pub open spec fn enc_opt_value(o: Option<ValueV>) -> Seq<u8> {
    match o {
        None => seq![0u8],
        Some(v) => seq![1u8] + enc_value(v),
    }
}

/// The body of a call request, in field declaration order.
pub open spec fn enc_call(c: CallV) -> Seq<u8> {
    enc_bool(c.mutable) + enc_u64(c.object_id) + enc_u64(c.method_id) + enc_opt_value(c.argument)
        + enc_opt_u64(c.to_object_id)
}

/// A request envelope: the id, a payload tag, then the payload.
pub open spec fn enc_req(r: ReqV) -> Seq<u8> {
    enc_u64(r.id) + match r.ty {
        TyV::Call(c) => seq![0u8] + enc_call(c),
        TyV::Free(f) => seq![1u8] + enc_u64(f.object_id),
    }
}

/// A response envelope: the id, a payload tag, then the payload.
pub open spec fn enc_res(r: res::ResV) -> Seq<u8> {
    enc_u64(r.id) + match r.ty {
        res::TyV::Call(ret) => seq![0u8] + enc_opt_value(ret.value),
        res::TyV::Free => seq![1u8],
    }
}

/// A framed message: the direction tag, then the length-prefixed payload.
pub open spec fn enc_msg(m: MsgV) -> Seq<u8> {
    (match m.dir {
        Dir::Req => seq![0u8],
        Dir::Res => seq![1u8],
    }) + enc_bytes(m.data)
}

// ---------------------------------------------------------------------------
// Executable encoders
// ---------------------------------------------------------------------------

/// Appends the little-endian bytes of `x`.
pub fn write_u64(out: &mut Vec<u8>, x: u64)
    ensures
        final(out)@ == old(out)@ + enc_u64(x),
{
    out.push(x as u8);
    out.push((x >> 8u64) as u8);
    out.push((x >> 16u64) as u8);
    out.push((x >> 24u64) as u8);
    out.push((x >> 32u64) as u8);
    out.push((x >> 40u64) as u8);
    out.push((x >> 48u64) as u8);
    out.push((x >> 56u64) as u8);
    proof {
        assert(out@ =~= old(out)@ + enc_u64(x));
    }
}

/// Appends the little-endian bytes of `x`.
pub fn write_u32(out: &mut Vec<u8>, x: u32)
    ensures
        final(out)@ == old(out)@ + enc_u32(x),
{
    out.push(x as u8);
    out.push((x >> 8u32) as u8);
    out.push((x >> 16u32) as u8);
    out.push((x >> 24u32) as u8);
    proof {
        assert(out@ =~= old(out)@ + enc_u32(x));
    }
}

/// Appends the one-byte encoding of `b`.
pub fn write_bool(out: &mut Vec<u8>, b: bool)
    ensures
        final(out)@ == old(out)@ + enc_bool(b),
{
    out.push(if b { 1u8 } else { 0u8 });
    proof {
        assert(out@ =~= old(out)@ + enc_bool(b));
    }
}

/// Appends the length-prefixed bytes of `s`.
pub fn write_bytes(out: &mut Vec<u8>, s: &Vec<u8>)
    ensures
        final(out)@ == old(out)@ + enc_bytes(s@),
{
    write_u64(out, s.len() as u64);
    let ghost mid = out@;
    let mut i: usize = 0;
    while i < s.len()
        invariant
            i <= s@.len(),
            out@ == mid + s@.subrange(0, i as int),
        decreases s@.len() - i,
    {
        out.push(s[i]);
        i = i + 1;
        proof {
            assert(out@ =~= mid + s@.subrange(0, i as int));
        }
    }
    proof {
        assert(s@.subrange(0, s@.len() as int) =~= s@);
        assert(out@ =~= old(out)@ + enc_bytes(s@));
    }
}

/// Appends the encoding of an optional 64-bit integer.
pub fn write_opt_u64(out: &mut Vec<u8>, o: &Option<u64>)
    ensures
        final(out)@ == old(out)@ + enc_opt_u64(*o),
{
    match o {
        None => {
            out.push(0u8);
            proof {
                assert(out@ =~= old(out)@ + enc_opt_u64(*o));
            }
        },
        Some(x) => {
            out.push(1u8);
            write_u64(out, *x);
            proof {
                assert(out@ =~= old(out)@ + enc_opt_u64(*o));
            }
        },
    }
}

/// Appends the encoding of a wire value.
pub fn write_value(out: &mut Vec<u8>, v: &Value)
    ensures
        final(out)@ == old(out)@ + enc_value(v@),
{
    match v {
        Value::Lit(lit) => {
            out.push(0u8);
            write_bytes(out, &lit.0);
            proof {
                assert(out@ =~= old(out)@ + enc_value(v@));
            }
        },
        Value::Ref { owner, id } => {
            out.push(1u8);
            write_u32(out, *owner);
            write_u64(out, *id);
            proof {
                assert(out@ =~= old(out)@ + enc_value(v@));
            }
        },
    }
}

/// Appends the encoding of an optional wire value.
pub fn write_opt_value(out: &mut Vec<u8>, o: &Option<Value>)
    ensures
        final(out)@ == old(out)@ + enc_opt_value(match o {
            Some(v) => Some(v@),
            None => None,
        }),
{
    match o {
        None => {
            out.push(0u8);
            proof {
                assert(out@ =~= old(out)@ + enc_opt_value(None));
            }
        },
        Some(v) => {
            out.push(1u8);
            write_value(out, v);
            proof {
                assert(out@ =~= old(out)@ + enc_opt_value(Some(v@)));
            }
        },
    }
}

/// Encodes a request envelope.
pub fn encode_req(r: &Req) -> (out: Vec<u8>)
    ensures
        out@ == enc_req(r@),
{
    let mut out: Vec<u8> = Vec::new();
    write_u64(&mut out, r.id);
    match &r.ty {
        Ty::Call(c) => {
            out.push(0u8);
            write_bool(&mut out, c.mutable);
            write_u64(&mut out, c.object_id);
            write_u64(&mut out, c.method_id);
            write_opt_value(&mut out, &c.argument);
            write_opt_u64(&mut out, &c.to_object_id);
            proof {
                assert(out@ =~= enc_req(r@));
            }
        },
        Ty::Free(f) => {
            out.push(1u8);
            write_u64(&mut out, f.object_id);
            proof {
                assert(out@ =~= enc_req(r@));
            }
        },
    }
    out
}

/// Encodes a response envelope.
pub fn encode_res(r: &res::Res) -> (out: Vec<u8>)
    ensures
        out@ == enc_res(r@),
{
    let mut out: Vec<u8> = Vec::new();
    write_u64(&mut out, r.id);
    match &r.ty {
        res::Ty::Call(ret) => {
            out.push(0u8);
            write_opt_value(&mut out, &ret.value);
            proof {
                assert(out@ =~= enc_res(r@));
            }
        },
        res::Ty::Free => {
            out.push(1u8);
            proof {
                assert(out@ =~= enc_res(r@));
            }
        },
    }
    out
}

/// Encodes a framed message.
pub fn encode_msg(m: &Msg) -> (out: Vec<u8>)
    ensures
        out@ == enc_msg(m@),
{
    let mut out: Vec<u8> = Vec::new();
    match m.dir {
        Dir::Req => out.push(0u8),
        Dir::Res => out.push(1u8),
    }
    write_bytes(&mut out, &m.data);
    proof {
        assert(out@ =~= enc_msg(m@));
    }
    out
}

// ---------------------------------------------------------------------------
// Specification-level decoding
// ---------------------------------------------------------------------------

/// The 64-bit integer whose little-endian bytes are the given ones.
pub open spec fn u64_le(b0: u8, b1: u8, b2: u8, b3: u8, b4: u8, b5: u8, b6: u8, b7: u8) -> u64 {
    (b0 as u64) | ((b1 as u64) << 8u64) | ((b2 as u64) << 16u64) | ((b3 as u64) << 24u64) | ((
    b4 as u64) << 32u64) | ((b5 as u64) << 40u64) | ((b6 as u64) << 48u64) | ((b7 as u64) << 56u64)
}

/// The 32-bit integer whose little-endian bytes are the given ones.
pub open spec fn u32_le(b0: u8, b1: u8, b2: u8, b3: u8) -> u32 {
    (b0 as u32) | ((b1 as u32) << 8u32) | ((b2 as u32) << 16u32) | ((b3 as u32) << 24u32)
}

/// Reads a 64-bit little-endian integer; yields the value and the rest.
pub open spec fn dec_u64(s: Seq<u8>) -> Option<(u64, Seq<u8>)> {
    if s.len() >= 8 {
        Some((u64_le(s[0], s[1], s[2], s[3], s[4], s[5], s[6], s[7]), s.skip(8)))
    } else {
        None
    }
}

/// Reads a 32-bit little-endian integer; yields the value and the rest.
pub open spec fn dec_u32(s: Seq<u8>) -> Option<(u32, Seq<u8>)> {
    if s.len() >= 4 {
        Some((u32_le(s[0], s[1], s[2], s[3]), s.skip(4)))
    } else {
        None
    }
}

/// Reads one boolean byte; any byte other than `0` or `1` is rejected.
pub open spec fn dec_bool(s: Seq<u8>) -> Option<(bool, Seq<u8>)> {
    if s.len() >= 1 {
        if s[0] == 0u8 {
            Some((false, s.skip(1)))
        } else if s[0] == 1u8 {
            Some((true, s.skip(1)))
        } else {
            None
        }
    } else {
        None
    }
}

/// Reads a length-prefixed byte string.
pub open spec fn dec_bytes(s: Seq<u8>) -> Option<(Seq<u8>, Seq<u8>)> {
    match dec_u64(s) {
        Some((n, rest)) => if rest.len() >= n {
            Some((rest.take(n as int), rest.skip(n as int)))
        } else {
            None
        },
        None => None,
    }
}

/// Reads an optional 64-bit integer.
pub open spec fn dec_opt_u64(s: Seq<u8>) -> Option<(Option<u64>, Seq<u8>)> {
    if s.len() >= 1 {
        if s[0] == 0u8 {
            Some((None, s.skip(1)))
        } else if s[0] == 1u8 {
            match dec_u64(s.skip(1)) {
                Some((x, rest)) => Some((Some(x), rest)),
                None => None,
            }
        } else {
            None
        }
    } else {
        None
    }
}

/// Reads a wire value.
pub open spec fn dec_value(s: Seq<u8>) -> Option<(ValueV, Seq<u8>)> {
    if s.len() >= 1 {
        if s[0] == 0u8 {
            match dec_bytes(s.skip(1)) {
                Some((bytes, rest)) => Some((ValueV::Lit { bytes }, rest)),
                None => None,
            }
        } else if s[0] == 1u8 {
            match dec_u32(s.skip(1)) {
                Some((owner, rest)) => match dec_u64(rest) {
                    Some((id, rest2)) => Some((ValueV::Ref { owner, id }, rest2)),
                    None => None,
                },
                None => None,
            }
        } else {
            None
        }
    } else {
        None
    }
}

/// Reads an optional wire value.
pub open spec fn dec_opt_value(s: Seq<u8>) -> Option<(Option<ValueV>, Seq<u8>)> {
    if s.len() >= 1 {
        if s[0] == 0u8 {
            Some((None, s.skip(1)))
        } else if s[0] == 1u8 {
            match dec_value(s.skip(1)) {
                Some((v, rest)) => Some((Some(v), rest)),
                None => None,
            }
        } else {
            None
        }
    } else {
        None
    }
}

/// Reads the body of a call request.
pub open spec fn dec_call(s: Seq<u8>) -> Option<(CallV, Seq<u8>)> {
    match dec_bool(s) {
        Some((mutable, s1)) => match dec_u64(s1) {
            Some((object_id, s2)) => match dec_u64(s2) {
                Some((method_id, s3)) => match dec_opt_value(s3) {
                    Some((argument, s4)) => match dec_opt_u64(s4) {
                        Some((to_object_id, s5)) => Some(
                            (CallV { mutable, object_id, method_id, argument, to_object_id }, s5),
                        ),
                        None => None,
                    },
                    None => None,
                },
                None => None,
            },
            None => None,
        },
        None => None,
    }
}

/// Reads a request envelope.
pub open spec fn dec_req(s: Seq<u8>) -> Option<(ReqV, Seq<u8>)> {
    match dec_u64(s) {
        Some((id, s1)) => if s1.len() >= 1 {
            if s1[0] == 0u8 {
                match dec_call(s1.skip(1)) {
                    Some((c, rest)) => Some((ReqV { id, ty: TyV::Call(c) }, rest)),
                    None => None,
                }
            } else if s1[0] == 1u8 {
                match dec_u64(s1.skip(1)) {
                    Some((object_id, rest)) => Some(
                        (ReqV { id, ty: TyV::Free(Free { object_id }) }, rest),
                    ),
                    None => None,
                }
            } else {
                None
            }
        } else {
            None
        },
        None => None,
    }
}

/// Reads a response envelope.
pub open spec fn dec_res(s: Seq<u8>) -> Option<(res::ResV, Seq<u8>)> {
    match dec_u64(s) {
        Some((id, s1)) => if s1.len() >= 1 {
            if s1[0] == 0u8 {
                match dec_opt_value(s1.skip(1)) {
                    Some((value, rest)) => Some(
                        (res::ResV { id, ty: res::TyV::Call(res::ReturnV { value }) }, rest),
                    ),
                    None => None,
                }
            } else if s1[0] == 1u8 {
                Some((res::ResV { id, ty: res::TyV::Free }, s1.skip(1)))
            } else {
                None
            }
        } else {
            None
        },
        None => None,
    }
}

/// Reads a framed message.
pub open spec fn dec_msg(s: Seq<u8>) -> Option<(MsgV, Seq<u8>)> {
    if s.len() >= 1 {
        let dir = if s[0] == 0u8 {
            Some(Dir::Req)
        } else if s[0] == 1u8 {
            Some(Dir::Res)
        } else {
            None
        };
        match dir {
            Some(dir) => match dec_bytes(s.skip(1)) {
                Some((data, rest)) => Some((MsgV { dir, data }, rest)),
                None => None,
            },
            None => None,
        }
    } else {
        None
    }
}

/// Reads a request envelope that must fill the whole input.
pub open spec fn dec_req_exact(s: Seq<u8>) -> Option<ReqV> {
    match dec_req(s) {
        Some((r, rest)) => if rest.len() == 0 {
            Some(r)
        } else {
            None
        },
        None => None,
    }
}

/// Reads a response envelope that must fill the whole input.
pub open spec fn dec_res_exact(s: Seq<u8>) -> Option<res::ResV> {
    match dec_res(s) {
        Some((r, rest)) => if rest.len() == 0 {
            Some(r)
        } else {
            None
        },
        None => None,
    }
}

/// Reads a framed message that must fill the whole input.
pub open spec fn dec_msg_exact(s: Seq<u8>) -> Option<MsgV> {
    match dec_msg(s) {
        Some((m, rest)) => if rest.len() == 0 {
            Some(m)
        } else {
            None
        },
        None => None,
    }
}

// ---------------------------------------------------------------------------
// Executable decoders
// ---------------------------------------------------------------------------

/// Reads a 64-bit little-endian integer starting at `pos`.
fn read_u64(s: &Vec<u8>, pos: usize) -> (r: Option<(u64, usize)>)
    requires
        pos <= s@.len(),
    ensures
        match r {
            Some(p) => {
                &&& pos <= p.1 <= s@.len()
                &&& dec_u64(s@.skip(pos as int)) == Some((p.0, s@.skip(p.1 as int)))
            },
            None => dec_u64(s@.skip(pos as int)) is None,
        },
{
    if s.len() - pos >= 8 {
        let x = (s[pos] as u64) | ((s[pos + 1] as u64) << 8u64) | ((s[pos + 2] as u64) << 16u64)
            | ((s[pos + 3] as u64) << 24u64) | ((s[pos + 4] as u64) << 32u64) | ((s[pos
            + 5] as u64) << 40u64) | ((s[pos + 6] as u64) << 48u64) | ((s[pos + 7] as u64)
            << 56u64);
        proof {
            assert(s@.skip(pos as int).skip(8) =~= s@.skip(pos + 8));
        }
        Some((x, pos + 8))
    } else {
        None
    }
}

/// Reads a 32-bit little-endian integer starting at `pos`.
fn read_u32(s: &Vec<u8>, pos: usize) -> (r: Option<(u32, usize)>)
    requires
        pos <= s@.len(),
    ensures
        match r {
            Some(p) => {
                &&& pos <= p.1 <= s@.len()
                &&& dec_u32(s@.skip(pos as int)) == Some((p.0, s@.skip(p.1 as int)))
            },
            None => dec_u32(s@.skip(pos as int)) is None,
        },
{
    if s.len() - pos >= 4 {
        let x = (s[pos] as u32) | ((s[pos + 1] as u32) << 8u32) | ((s[pos + 2] as u32) << 16u32)
            | ((s[pos + 3] as u32) << 24u32);
        proof {
            assert(s@.skip(pos as int).skip(4) =~= s@.skip(pos + 4));
        }
        Some((x, pos + 4))
    } else {
        None
    }
}

/// Reads one boolean byte starting at `pos`.
fn read_bool(s: &Vec<u8>, pos: usize) -> (r: Option<(bool, usize)>)
    requires
        pos <= s@.len(),
    ensures
        match r {
            Some(p) => {
                &&& pos <= p.1 <= s@.len()
                &&& dec_bool(s@.skip(pos as int)) == Some((p.0, s@.skip(p.1 as int)))
            },
            None => dec_bool(s@.skip(pos as int)) is None,
        },
{
    if s.len() - pos >= 1 {
        let b = s[pos];
        proof {
            assert(s@.skip(pos as int).skip(1) =~= s@.skip(pos + 1));
        }
        if b == 0u8 {
            Some((false, pos + 1))
        } else if b == 1u8 {
            Some((true, pos + 1))
        } else {
            None
        }
    } else {
        None
    }
}

/// Reads a length-prefixed byte string starting at `pos`.
fn read_byte_string(s: &Vec<u8>, pos: usize) -> (r: Option<(Vec<u8>, usize)>)
    requires
        pos <= s@.len(),
    ensures
        match r {
            Some(p) => {
                &&& pos <= p.1 <= s@.len()
                &&& dec_bytes(s@.skip(pos as int)) == Some((p.0@, s@.skip(p.1 as int)))
            },
            None => dec_bytes(s@.skip(pos as int)) is None,
        },
{
    match read_u64(s, pos) {
        None => None,
        Some((n, p1)) => {
            if n <= (s.len() - p1) as u64 {
                let n_us = n as usize;
                let mut out: Vec<u8> = Vec::new();
                let mut i: usize = 0;
                while i < n_us
                    invariant
                        i <= n_us,
                        p1 + n_us <= s.len(),
                        out@ == s@.subrange(p1 as int, p1 + i),
                    decreases n_us - i,
                {
                    out.push(s[p1 + i]);
                    i = i + 1;
                    proof {
                        assert(out@ =~= s@.subrange(p1 as int, p1 + i));
                    }
                }
                proof {
                    assert(s@.skip(p1 as int).take(n as int) =~= s@.subrange(
                        p1 as int,
                        p1 + n_us,
                    ));
                    assert(s@.skip(p1 as int).skip(n as int) =~= s@.skip(p1 + n_us));
                }
                Some((out, p1 + n_us))
            } else {
                None
            }
        },
    }
}

/// Reads an optional 64-bit integer starting at `pos`.
fn read_opt_u64(s: &Vec<u8>, pos: usize) -> (r: Option<(Option<u64>, usize)>)
    requires
        pos <= s@.len(),
    ensures
        match r {
            Some(p) => {
                &&& pos <= p.1 <= s@.len()
                &&& dec_opt_u64(s@.skip(pos as int)) == Some((p.0, s@.skip(p.1 as int)))
            },
            None => dec_opt_u64(s@.skip(pos as int)) is None,
        },
{
    if s.len() - pos >= 1 {
        let tag = s[pos];
        proof {
            assert(s@.skip(pos as int).skip(1) =~= s@.skip(pos + 1));
            assert(s@.skip(pos as int)[0] == s@[pos as int]);
        }
        if tag == 0u8 {
            Some((None, pos + 1))
        } else if tag == 1u8 {
            match read_u64(s, pos + 1) {
                Some((x, p2)) => Some((Some(x), p2)),
                None => None,
            }
        } else {
            None
        }
    } else {
        None
    }
}

/// Reads a wire value starting at `pos`.
fn read_value(s: &Vec<u8>, pos: usize) -> (r: Option<(Value, usize)>)
    requires
        pos <= s@.len(),
    ensures
        match r {
            Some(p) => {
                &&& pos <= p.1 <= s@.len()
                &&& dec_value(s@.skip(pos as int)) == Some((p.0@, s@.skip(p.1 as int)))
            },
            None => dec_value(s@.skip(pos as int)) is None,
        },
{
    if s.len() - pos >= 1 {
        let tag = s[pos];
        proof {
            assert(s@.skip(pos as int).skip(1) =~= s@.skip(pos + 1));
            assert(s@.skip(pos as int)[0] == s@[pos as int]);
        }
        if tag == 0u8 {
            match read_byte_string(s, pos + 1) {
                Some((bytes, p2)) => Some((Value::Lit(Lit(bytes)), p2)),
                None => None,
            }
        } else if tag == 1u8 {
            match read_u32(s, pos + 1) {
                Some((owner, p2)) => match read_u64(s, p2) {
                    Some((id, p3)) => Some((Value::Ref { owner, id }, p3)),
                    None => None,
                },
                None => None,
            }
        } else {
            None
        }
    } else {
        None
    }
}

/// Reads an optional wire value starting at `pos`.
fn read_opt_value(s: &Vec<u8>, pos: usize) -> (r: Option<(Option<Value>, usize)>)
    requires
        pos <= s@.len(),
    ensures
        match r {
            Some(p) => {
                &&& pos <= p.1 <= s@.len()
                &&& dec_opt_value(s@.skip(pos as int)) == Some(
                    (
                        match p.0 {
                            Some(v) => Some(v@),
                            None => None,
                        },
                        s@.skip(p.1 as int),
                    ),
                )
            },
            None => dec_opt_value(s@.skip(pos as int)) is None,
        },
{
    if s.len() - pos >= 1 {
        let tag = s[pos];
        proof {
            assert(s@.skip(pos as int).skip(1) =~= s@.skip(pos + 1));
            assert(s@.skip(pos as int)[0] == s@[pos as int]);
        }
        if tag == 0u8 {
            Some((None, pos + 1))
        } else if tag == 1u8 {
            match read_value(s, pos + 1) {
                Some((v, p2)) => Some((Some(v), p2)),
                None => None,
            }
        } else {
            None
        }
    } else {
        None
    }
}

/// Decodes a request envelope; the input must hold exactly one request.
pub fn decode_req(s: &Vec<u8>) -> (r: Option<Req>)
    ensures
        match r {
            Some(req) => dec_req_exact(s@) == Some(req@),
            None => dec_req_exact(s@) is None,
        },
{
    proof {
        assert(s@.skip(0) =~= s@);
    }
    match read_u64(s, 0) {
        None => None,
        Some((id, p1)) => {
            if s.len() - p1 >= 1 {
                let tag = s[p1];
                proof {
                    assert(s@.skip(p1 as int).skip(1) =~= s@.skip(p1 + 1));
                    assert(s@.skip(p1 as int)[0] == s@[p1 as int]);
                }
                if tag == 0u8 {
                    match read_bool(s, p1 + 1) {
                        None => None,
                        Some((mutable, p2)) => match read_u64(s, p2) {
                            None => None,
                            Some((object_id, p3)) => match read_u64(s, p3) {
                                None => None,
                                Some((method_id, p4)) => match read_opt_value(s, p4) {
                                    None => None,
                                    Some((argument, p5)) => match read_opt_u64(s, p5) {
                                        None => None,
                                        Some((to_object_id, p6)) => {
                                            if p6 == s.len() {
                                                Some(
                                                    Req {
                                                        id,
                                                        ty: Ty::Call(
                                                            Call {
                                                                mutable,
                                                                object_id,
                                                                method_id,
                                                                argument,
                                                                to_object_id,
                                                            },
                                                        ),
                                                    },
                                                )
                                            } else {
                                                None
                                            }
                                        },
                                    },
                                },
                            },
                        },
                    }
                } else if tag == 1u8 {
                    match read_u64(s, p1 + 1) {
                        None => None,
                        Some((object_id, p2)) => {
                            if p2 == s.len() {
                                Some(Req { id, ty: Ty::Free(Free { object_id }) })
                            } else {
                                None
                            }
                        },
                    }
                } else {
                    None
                }
            } else {
                None
            }
        },
    }
}

/// Decodes a response envelope; the input must hold exactly one response.
pub fn decode_res(s: &Vec<u8>) -> (r: Option<res::Res>)
    ensures
        match r {
            Some(res) => dec_res_exact(s@) == Some(res@),
            None => dec_res_exact(s@) is None,
        },
{
    proof {
        assert(s@.skip(0) =~= s@);
    }
    match read_u64(s, 0) {
        None => None,
        Some((id, p1)) => {
            if s.len() - p1 >= 1 {
                let tag = s[p1];
                proof {
                    assert(s@.skip(p1 as int).skip(1) =~= s@.skip(p1 + 1));
                    assert(s@.skip(p1 as int)[0] == s@[p1 as int]);
                }
                if tag == 0u8 {
                    match read_opt_value(s, p1 + 1) {
                        None => None,
                        Some((value, p2)) => {
                            if p2 == s.len() {
                                Some(res::Res { id, ty: res::Ty::Call(res::Return { value }) })
                            } else {
                                None
                            }
                        },
                    }
                } else if tag == 1u8 {
                    if p1 + 1 == s.len() {
                        Some(res::Res { id, ty: res::Ty::Free })
                    } else {
                        None
                    }
                } else {
                    None
                }
            } else {
                None
            }
        },
    }
}

// ---------------------------------------------------------------------------
// Round trips: decoding an encoding yields the value that was encoded
// ---------------------------------------------------------------------------

/// A value can be encoded faithfully iff its payload length fits the length
/// prefix.
pub open spec fn value_wf(v: ValueV) -> bool {
    match v {
        ValueV::Lit { bytes } => bytes.len() <= u64::MAX,
        ValueV::Ref { .. } => true,
    }
}

/// Well-formedness of an optional wire value.
pub open spec fn opt_value_wf(o: Option<ValueV>) -> bool {
    match o {
        Some(v) => value_wf(v),
        None => true,
    }
}

/// Well-formedness of a request: any argument payload fits its length prefix.
pub open spec fn req_wf(r: ReqV) -> bool {
    match r.ty {
        TyV::Call(c) => opt_value_wf(c.argument),
        TyV::Free(_) => true,
    }
}

/// Well-formedness of a response: any returned payload fits its length prefix.
pub open spec fn res_wf(r: res::ResV) -> bool {
    match r.ty {
        res::TyV::Call(ret) => opt_value_wf(ret.value),
        res::TyV::Free => true,
    }
}

/// Well-formedness of a frame: the nested payload fits its length prefix.
pub open spec fn msg_wf(m: MsgV) -> bool {
    m.data.len() <= u64::MAX
}

/// Law: a 64-bit integer decodes back from its encoding, leaving the rest.
pub proof fn lemma_u64_round_trip(x: u64, rest: Seq<u8>)
    ensures
        dec_u64(enc_u64(x) + rest) == Some((x, rest)),
{
    let s = enc_u64(x) + rest;
    assert(u64_le(
        x as u8,
        (x >> 8u64) as u8,
        (x >> 16u64) as u8,
        (x >> 24u64) as u8,
        (x >> 32u64) as u8,
        (x >> 40u64) as u8,
        (x >> 48u64) as u8,
        (x >> 56u64) as u8,
    ) == x) by (bit_vector);
    assert(s.skip(8) =~= rest);
}

/// Law: a 32-bit integer decodes back from its encoding, leaving the rest.
pub proof fn lemma_u32_round_trip(x: u32, rest: Seq<u8>)
    ensures
        dec_u32(enc_u32(x) + rest) == Some((x, rest)),
{
    let s = enc_u32(x) + rest;
    assert(u32_le(x as u8, (x >> 8u32) as u8, (x >> 16u32) as u8, (x >> 24u32) as u8) == x)
        by (bit_vector);
    assert(s.skip(4) =~= rest);
}

/// Law: a boolean decodes back from its encoding, leaving the rest.
pub proof fn lemma_bool_round_trip(b: bool, rest: Seq<u8>)
    ensures
        dec_bool(enc_bool(b) + rest) == Some((b, rest)),
{
    let s = enc_bool(b) + rest;
    assert(s.skip(1) =~= rest);
}

/// Law: a byte string decodes back from its encoding, leaving the rest.
pub proof fn lemma_bytes_round_trip(b: Seq<u8>, rest: Seq<u8>)
    requires
        b.len() <= u64::MAX,
    ensures
        dec_bytes(enc_bytes(b) + rest) == Some((b, rest)),
{
    let n = b.len() as u64;
    let s = enc_bytes(b) + rest;
    assert(s =~= enc_u64(n) + (b + rest));
    lemma_u64_round_trip(n, b + rest);
    assert((b + rest).take(n as int) =~= b);
    assert((b + rest).skip(n as int) =~= rest);
}

/// Law: an optional integer decodes back from its encoding, leaving the rest.
pub proof fn lemma_opt_u64_round_trip(o: Option<u64>, rest: Seq<u8>)
    ensures
        dec_opt_u64(enc_opt_u64(o) + rest) == Some((o, rest)),
{
    let s = enc_opt_u64(o) + rest;
    match o {
        None => {
            assert(s.skip(1) =~= rest);
        },
        Some(x) => {
            assert(s.skip(1) =~= enc_u64(x) + rest);
            lemma_u64_round_trip(x, rest);
        },
    }
}

/// Law: a wire value decodes back from its encoding, leaving the rest.
pub proof fn lemma_value_round_trip(v: ValueV, rest: Seq<u8>)
    requires
        value_wf(v),
    ensures
        dec_value(enc_value(v) + rest) == Some((v, rest)),
{
    let s = enc_value(v) + rest;
    match v {
        ValueV::Lit { bytes } => {
            assert(s.skip(1) =~= enc_bytes(bytes) + rest);
            lemma_bytes_round_trip(bytes, rest);
        },
        ValueV::Ref { owner, id } => {
            assert(s.skip(1) =~= enc_u32(owner) + (enc_u64(id) + rest));
            lemma_u32_round_trip(owner, enc_u64(id) + rest);
            lemma_u64_round_trip(id, rest);
        },
    }
}

/// Law: an optional wire value decodes back from its encoding.
pub proof fn lemma_opt_value_round_trip(o: Option<ValueV>, rest: Seq<u8>)
    requires
        opt_value_wf(o),
    ensures
        dec_opt_value(enc_opt_value(o) + rest) == Some((o, rest)),
{
    let s = enc_opt_value(o) + rest;
    match o {
        None => {
            assert(s.skip(1) =~= rest);
        },
        Some(v) => {
            assert(s.skip(1) =~= enc_value(v) + rest);
            lemma_value_round_trip(v, rest);
        },
    }
}

/// Law: a call body decodes back from its encoding, leaving the rest.
pub proof fn lemma_call_round_trip(c: CallV, rest: Seq<u8>)
    requires
        opt_value_wf(c.argument),
    ensures
        dec_call(enc_call(c) + rest) == Some((c, rest)),
{
    let s = enc_call(c) + rest;
    let r4 = enc_opt_u64(c.to_object_id) + rest;
    let r3 = enc_opt_value(c.argument) + r4;
    let r2 = enc_u64(c.method_id) + r3;
    let r1 = enc_u64(c.object_id) + r2;
    assert(s =~= enc_bool(c.mutable) + r1);
    lemma_bool_round_trip(c.mutable, r1);
    lemma_u64_round_trip(c.object_id, r2);
    lemma_u64_round_trip(c.method_id, r3);
    lemma_opt_value_round_trip(c.argument, r4);
    lemma_opt_u64_round_trip(c.to_object_id, rest);
    assert(dec_call(s) == Some((c, rest)));
}

/// Law: a request decodes back from its encoding, leaving the rest.
pub proof fn lemma_req_round_trip_rest(r: ReqV, rest: Seq<u8>)
    requires
        req_wf(r),
    ensures
        dec_req(enc_req(r) + rest) == Some((r, rest)),
{
    let s = enc_req(r) + rest;
    match r.ty {
        TyV::Call(c) => {
            let r1 = seq![0u8] + (enc_call(c) + rest);
            assert(s =~= enc_u64(r.id) + r1);
            lemma_u64_round_trip(r.id, r1);
            assert(r1.skip(1) =~= enc_call(c) + rest);
            lemma_call_round_trip(c, rest);
            assert(dec_req(s) == Some((r, rest)));
        },
        TyV::Free(f) => {
            let r1 = seq![1u8] + (enc_u64(f.object_id) + rest);
            assert(s =~= enc_u64(r.id) + r1);
            lemma_u64_round_trip(r.id, r1);
            assert(r1.skip(1) =~= enc_u64(f.object_id) + rest);
            lemma_u64_round_trip(f.object_id, rest);
            assert(dec_req(s) == Some((r, rest)));
        },
    }
}

/// Law: a response decodes back from its encoding, leaving the rest.
pub proof fn lemma_res_round_trip_rest(r: res::ResV, rest: Seq<u8>)
    requires
        res_wf(r),
    ensures
        dec_res(enc_res(r) + rest) == Some((r, rest)),
{
    let s = enc_res(r) + rest;
    match r.ty {
        res::TyV::Call(ret) => {
            let r1 = seq![0u8] + (enc_opt_value(ret.value) + rest);
            assert(s =~= enc_u64(r.id) + r1);
            lemma_u64_round_trip(r.id, r1);
            assert(r1.skip(1) =~= enc_opt_value(ret.value) + rest);
            lemma_opt_value_round_trip(ret.value, rest);
            assert(dec_res(s) == Some((r, rest)));
        },
        res::TyV::Free => {
            let r1 = seq![1u8] + rest;
            assert(s =~= enc_u64(r.id) + r1);
            lemma_u64_round_trip(r.id, r1);
            assert(r1.skip(1) =~= rest);
            assert(dec_res(s) == Some((r, rest)));
        },
    }
}

/// Law: a frame decodes back from its encoding, leaving the rest.
pub proof fn lemma_msg_round_trip_rest(m: MsgV, rest: Seq<u8>)
    requires
        msg_wf(m),
    ensures
        dec_msg(enc_msg(m) + rest) == Some((m, rest)),
{
    let s = enc_msg(m) + rest;
    assert(s.skip(1) =~= enc_bytes(m.data) + rest);
    lemma_bytes_round_trip(m.data, rest);
    assert(dec_msg(s) == Some((m, rest)));
}

/// Law: both peers decode a request frame to exactly the request that was
/// encoded.
pub proof fn lemma_req_round_trip(r: ReqV)
    requires
        req_wf(r),
    ensures
        dec_req_exact(enc_req(r)) == Some(r),
{
    lemma_req_round_trip_rest(r, Seq::empty());
    assert(enc_req(r) + Seq::<u8>::empty() =~= enc_req(r));
}

/// Law: both peers decode a response frame to exactly the response that was
/// encoded.
pub proof fn lemma_res_round_trip(r: res::ResV)
    requires
        res_wf(r),
    ensures
        dec_res_exact(enc_res(r)) == Some(r),
{
    lemma_res_round_trip_rest(r, Seq::empty());
    assert(enc_res(r) + Seq::<u8>::empty() =~= enc_res(r));
}

/// Law: both peers decode a framed message to exactly the message that was
/// framed.
pub proof fn lemma_msg_round_trip(m: MsgV)
    requires
        msg_wf(m),
    ensures
        dec_msg_exact(enc_msg(m)) == Some(m),
{
    lemma_msg_round_trip_rest(m, Seq::empty());
    assert(enc_msg(m) + Seq::<u8>::empty() =~= enc_msg(m));
}

/// Decodes a framed message; the input must hold exactly one frame.
pub fn decode_msg(s: &Vec<u8>) -> (r: Option<Msg>)
    ensures
        match r {
            Some(msg) => dec_msg_exact(s@) == Some(msg@),
            None => dec_msg_exact(s@) is None,
        },
{
    proof {
        assert(s@.skip(0) =~= s@);
    }
    if s.len() >= 1 {
        let tag = s[0];
        if tag == 0u8 || tag == 1u8 {
            let dir = if tag == 0u8 {
                Dir::Req
            } else {
                Dir::Res
            };
            match read_byte_string(s, 1) {
                None => None,
                Some((data, p2)) => {
                    if p2 == s.len() {
                        Some(Msg { dir, data })
                    } else {
                        None
                    }
                },
            }
        } else {
            None
        }
    } else {
        None
    }
}

} // verus!

