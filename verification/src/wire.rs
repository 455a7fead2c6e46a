//! The wire protocol between the host and the guest script.  All
//! traffic crosses the boundary as a flat list of strings; this module
//! decodes capability-call arguments from that shape and encodes
//! replies back into it.
//!
//! An encoded argument is either a scalar — a kind tag (`n`il, `b`ool,
//! `i`nteger, `f`loat, `s`tring) and a payload string — or a flat
//! table: `t`, a pair count, and one (name, kind, payload) triple per
//! pair.  Replies are `z` (no value), `v` kind payload, `t` count
//! triples, or `r` message (raise an error inside the guest).

use vstd::prelude::*;

use crate::text::{dec_digits, dec_int, int_val, is_int_str, str_eq};

verus! {

/// One scalar guest value, as the host holds it.  Floats are carried
/// as their decimal spelling and never interpreted by the host.
#[derive(Debug, Clone, PartialEq, Eq)]
pub enum Scalar {
    Nil,
    Bool(bool),
    Int(i64),
    Float(String),
    Str(String),
    Other,
}

/// One decoded capability-call argument.
#[derive(Debug, Clone, PartialEq, Eq)]
pub enum WireArg {
    One(Scalar),
    Table(Vec<(String, Scalar)>),
}

/// Specification-level shape of a decoded argument.
pub enum ArgModel {
    One(Scalar),
    Table(Seq<(String, Scalar)>),
}

impl View for WireArg {
    type V = ArgModel;

    open spec fn view(&self) -> ArgModel {
        match self {
            WireArg::One(s) => ArgModel::One(*s),
            WireArg::Table(v) => ArgModel::Table(v@),
        }
    }
}

/// The scalar denoted by a kind tag and payload.
pub open spec fn spec_scalar(k: String, p: String) -> Scalar {
    if k@ == "n"@ {
        Scalar::Nil
    } else if k@ == "b"@ {
        Scalar::Bool(p@ == "1"@)
    } else if k@ == "i"@ {
        if is_int_str(p@) && i64::MIN <= int_val(p@) <= i64::MAX {
            Scalar::Int(int_val(p@) as i64)
        } else {
            Scalar::Other
        }
    } else if k@ == "f"@ {
        Scalar::Float(p)
    } else if k@ == "s"@ {
        Scalar::Str(p)
    } else {
        Scalar::Other
    }
}

/// Decode one scalar from its kind tag and payload.
pub fn parse_scalar(k: &String, p: &String) -> (r: Scalar)
    ensures
        r == spec_scalar(*k, *p),
{
    if str_eq(k.as_str(), "n") {
        Scalar::Nil
    } else if str_eq(k.as_str(), "b") {
        Scalar::Bool(str_eq(p.as_str(), "1"))
    } else if str_eq(k.as_str(), "i") {
        match crate::text::parse_i64(p.as_str()) {
            Some(n) => Scalar::Int(n),
            None => Scalar::Other,
        }
    } else if str_eq(k.as_str(), "f") {
        Scalar::Float(p.clone())
    } else if str_eq(k.as_str(), "s") {
        Scalar::Str(p.clone())
    } else {
        Scalar::Other
    }
}

/// The (name, scalar) pairs denoted by `n` consecutive triples of `a`
/// starting at `i`.
pub open spec fn spec_parse_pairs(a: Seq<String>, i: int, n: nat) -> Option<Seq<(String, Scalar)>>
    decreases n,
{
    if n == 0 {
        Some(Seq::empty())
    } else if i + 3 <= a.len() {
        match spec_parse_pairs(a, i + 3, (n - 1) as nat) {
            Some(rest) => Some(seq![(a[i], spec_scalar(a[i + 1], a[i + 2]))] + rest),
            None => None,
        }
    } else {
        None
    }
}

/// The argument list denoted by `a` from position `i` on.
pub open spec fn spec_parse_args(a: Seq<String>, i: int) -> Option<Seq<ArgModel>>
    decreases a.len() - i,
{
    if i < 0 || i > a.len() {
        None
    } else if i == a.len() {
        Some(Seq::empty())
    } else if a[i]@ == "v"@ && i + 3 <= a.len() {
        match spec_parse_args(a, i + 3) {
            Some(rest) => Some(seq![ArgModel::One(spec_scalar(a[i + 1], a[i + 2]))] + rest),
            None => None,
        }
    } else if a[i]@ == "t"@ && i + 2 <= a.len() && is_int_str(a[i + 1]@) && 0 <= int_val(a[i + 1]@)
        <= usize::MAX && i + 2 + 3 * int_val(a[i + 1]@) <= a.len() {
        let n = int_val(a[i + 1]@) as nat;
        match spec_parse_pairs(a, i + 2, n) {
            Some(pairs) => match spec_parse_args(a, i + 2 + 3 * n) {
                Some(rest) => Some(seq![ArgModel::Table(pairs)] + rest),
                None => None,
            },
            None => None,
        }
    } else {
        None
    }
}

/// Decode `n` consecutive (name, kind, payload) triples starting at `i`.
fn parse_pairs(a: &Vec<String>, i: usize, n: usize) -> (r: Option<Vec<(String, Scalar)>>)
    ensures
        r matches Some(v) ==> spec_parse_pairs(a@, i as int, n as nat) == Some(v@),
        r is None ==> spec_parse_pairs(a@, i as int, n as nat) is None,
    decreases n,
{
    if n == 0 {
        let v: Vec<(String, Scalar)> = Vec::new();
        proof {
            assert(v@ =~= Seq::<(String, Scalar)>::empty());
        }
        Some(v)
    } else if i <= a.len() && a.len() - i >= 3 {
        let s = parse_scalar(&a[i + 1], &a[i + 2]);
        match parse_pairs(a, i + 3, n - 1) {
            Some(mut rest) => {
                let mut v: Vec<(String, Scalar)> = Vec::new();
                v.push((a[i].clone(), s));
                v.append(&mut rest);
                proof {
                    let m = spec_parse_pairs(a@, i as int, n as nat);
                    assert(v@ =~= m.unwrap());
                }
                Some(v)
            },
            None => None,
        }
    } else {
        None
    }
}

/// Decode the argument list of `a` from position `i` on.
fn parse_args_from(a: &Vec<String>, i: usize) -> (r: Option<Vec<WireArg>>)
    ensures
        r matches Some(v) ==> spec_parse_args(a@, i as int) == Some(
            v@.map_values(|x: WireArg| x@),
        ),
        r is None ==> spec_parse_args(a@, i as int) is None,
    decreases a@.len() - i,
{
    if i > a.len() {
        None
    } else if i == a.len() {
        let v: Vec<WireArg> = Vec::new();
        proof {
            assert(v@.map_values(|x: WireArg| x@) =~= Seq::<ArgModel>::empty());
        }
        Some(v)
    } else if str_eq(a[i].as_str(), "v") && a.len() - i >= 3 {
        let s = parse_scalar(&a[i + 1], &a[i + 2]);
        match parse_args_from(a, i + 3) {
            Some(mut rest) => {
                let mut v: Vec<WireArg> = Vec::new();
                v.push(WireArg::One(s));
                v.append(&mut rest);
                proof {
                    let m = spec_parse_args(a@, i as int);
                    assert(v@.map_values(|x: WireArg| x@) =~= m.unwrap());
                }
                Some(v)
            },
            None => None,
        }
    } else if str_eq(a[i].as_str(), "t") && a.len() - i >= 2 {
        let n = match crate::text::parse_i64(a[i + 1].as_str()) {
            Some(n) => {
                if n < 0 {
                    return None;
                }
                n
            },
            None => {
                return None;
            },
        };
        let avail: usize = a.len() - i - 2;
        if (n as u64) > (avail / 3) as u64 {
            proof {
                assert(3 * ((avail as int) / 3) + 3 > avail as int) by (nonlinear_arith);
                assert(spec_parse_args(a@, i as int) is None);
            }
            return None;
        }
        let n = n as usize;
        proof {
            assert(3 * (n as int) <= 3 * ((avail as int) / 3)) by (nonlinear_arith)
                requires n as int <= (avail as int) / 3;
            assert(3 * ((avail as int) / 3) <= avail as int) by (nonlinear_arith);
        }
        match parse_pairs(a, i + 2, n) {
            Some(pairs) => {
                match parse_args_from(a, i + 2 + 3 * n) {
                    Some(mut rest) => {
                        let mut v: Vec<WireArg> = Vec::new();
                        v.push(WireArg::Table(pairs));
                        v.append(&mut rest);
                        proof {
                            let m = spec_parse_args(a@, i as int);
                            assert(v@.map_values(|x: WireArg| x@) =~= m.unwrap());
                        }
                        Some(v)
                    },
                    None => None,
                }
            },
            None => None,
        }
    } else {
        None
    }
}

/// Decode a full argument list.
pub fn parse_args(a: &Vec<String>) -> (r: Option<Vec<WireArg>>)
    ensures
        r matches Some(v) ==> spec_parse_args(a@, 0) == Some(v@.map_values(|x: WireArg| x@)),
        r is None ==> spec_parse_args(a@, 0) is None,
{
    parse_args_from(a, 0)
}

/// The kind tag under which a scalar is encoded.
pub open spec fn spec_scalar_kind(s: Scalar) -> Seq<char> {
    match s {
        Scalar::Nil => "n"@,
        Scalar::Bool(_) => "b"@,
        Scalar::Int(_) => "i"@,
        Scalar::Float(_) => "f"@,
        Scalar::Str(_) => "s"@,
        Scalar::Other => "n"@,
    }
}

/// The payload under which a scalar is encoded.
pub open spec fn spec_scalar_payload(s: Scalar) -> Seq<char> {
    match s {
        Scalar::Nil => ""@,
        Scalar::Bool(b) => if b { "1"@ } else { "0"@ },
        Scalar::Int(n) => dec_int(n as int),
        Scalar::Float(p) => p@,
        Scalar::Str(p) => p@,
        Scalar::Other => ""@,
    }
}

/// Append one encoded scalar (kind, payload) to `out`.
pub fn push_scalar(out: &mut Vec<String>, s: &Scalar)
    ensures
        final(out)@.len() == old(out)@.len() + 2,
        forall|j: int| 0 <= j < old(out)@.len() ==> final(out)@[j] == old(out)@[j],
        final(out)@[old(out)@.len() as int]@ == spec_scalar_kind(*s),
        final(out)@[old(out)@.len() as int + 1]@ == spec_scalar_payload(*s),
{
    match s {
        Scalar::Nil => {
            out.push(String::from_str("n"));
            out.push(String::from_str(""));
        },
        Scalar::Bool(b) => {
            out.push(String::from_str("b"));
            if *b {
                out.push(String::from_str("1"));
            } else {
                out.push(String::from_str("0"));
            }
        },
        Scalar::Int(n) => {
            out.push(String::from_str("i"));
            out.push(crate::text::fmt_i64(*n));
        },
        Scalar::Float(p) => {
            out.push(String::from_str("f"));
            out.push(p.clone());
        },
        Scalar::Str(p) => {
            out.push(String::from_str("s"));
            out.push(p.clone());
        },
        Scalar::Other => {
            out.push(String::from_str("n"));
            out.push(String::from_str(""));
        },
    }
}

/// A reply handed back to a waiting capability call in the guest.
#[derive(Debug, Clone, PartialEq, Eq)]
pub enum Reply {
    /// No value (`nil` in the guest).
    RNil,
    /// One scalar value.
    RScalar(Scalar),
    /// One flat table of named scalars.
    RTable(Vec<(String, Scalar)>),
    /// Raise an error inside the guest with this message.
    RRaise(String),
}

/// Encode a reply for the wire.
pub fn reply_wire(r: &Reply) -> (w: Vec<String>)
    ensures
        r matches Reply::RNil ==> w@.len() == 1 && w@[0]@ == "z"@,
        r matches Reply::RScalar(s) ==> w@.len() == 3 && w@[0]@ == "v"@ && w@[1]@
            == spec_scalar_kind(*s) && w@[2]@ == spec_scalar_payload(*s),
        r matches Reply::RTable(pairs) ==> w@.len() == 2 + 3 * pairs@.len() && w@[0]@ == "t"@
            && w@[1]@ == dec_digits(pairs@.len()) && forall|j: int|
            0 <= j < pairs@.len() ==> w@[2 + 3 * j]@ == (#[trigger] pairs@[j]).0@ && w@[3 + 3 * j]@
                == spec_scalar_kind(pairs@[j].1) && w@[4 + 3 * j]@ == spec_scalar_payload(
                pairs@[j].1,
            ),
        r matches Reply::RRaise(m) ==> w@.len() == 2 && w@[0]@ == "r"@ && w@[1] == m,
{
    let mut w: Vec<String> = Vec::new();
    match r {
        Reply::RNil => {
            w.push(String::from_str("z"));
        },
        Reply::RScalar(s) => {
            w.push(String::from_str("v"));
            push_scalar(&mut w, s);
        },
        Reply::RTable(pairs) => {
            w.push(String::from_str("t"));
            w.push(crate::text::fmt_u64(pairs.len() as u64));
            let mut j: usize = 0;
            while j < pairs.len()
                invariant
                    j <= pairs@.len(),
                    w@.len() == 2 + 3 * j,
                    w@[0]@ == "t"@,
                    w@[1]@ == dec_digits(pairs@.len()),
                    forall|q: int|
                        0 <= q < j ==> w@[2 + 3 * q]@ == (#[trigger] pairs@[q]).0@ && w@[3 + 3
                            * q]@ == spec_scalar_kind(pairs@[q].1) && w@[4 + 3 * q]@
                            == spec_scalar_payload(pairs@[q].1),
                decreases pairs@.len() - j,
            {
                w.push(pairs[j].0.clone());
                push_scalar(&mut w, &pairs[j].1);
                j = j + 1;
            }
        },
        Reply::RRaise(m) => {
            w.push(String::from_str("r"));
            w.push(m.clone());
        },
    }
    w
}

/// Copy the tail of `v` from position `start` on.
pub fn tail_from(v: &Vec<String>, start: usize) -> (r: Vec<String>)
    requires
        start <= v@.len(),
    ensures
        r@.len() == v@.len() - start,
        forall|j: int| 0 <= j < r@.len() ==> r@[j] == v@[start + j],
{
    let mut r: Vec<String> = Vec::new();
    let mut i: usize = start;
    while i < v.len()
        invariant
            start <= i <= v@.len(),
            r@.len() == i - start,
            forall|j: int| 0 <= j < r@.len() ==> r@[j] == v@[start + j],
        decreases v@.len() - i,
    {
        r.push(v[i].clone());
        i = i + 1;
    }
    r
}

} // verus!
