//! The exact bytes of a JSON document, as a request body goes onto the
//! wire: members and elements separated by commas, strings quoted with
//! the quote, the backslash and every control byte escaped, an integer in
//! decimal.  In UTF-8 every byte of a multi-byte character is at least
//! 0x80, so escaping decided byte by byte never breaks a character.  A
//! `Num` carries a numeric literal as text; one whose text is not a JSON
//! number (which only a hand-built value can hold) is written as `null`,
//! so the output is a well-formed document for every tree.

use vstd::prelude::*;
use vstd::string::StrSliceExecFns;
use vstd::utf8::encode_utf8;

use crate::json::Json;
use crate::json::JsonV;
use crate::json::arr_v;
use crate::json::kvs_v;
use crate::json::lemma_arr_v_props;
use crate::json::lemma_kvs_v_props;

verus! {

/// The byte for a hexadecimal digit, lower case.
pub open spec fn hex_digit(n: nat) -> u8 {
    if n < 10 {
        (48 + n) as u8
    } else {
        (87 + n) as u8
    }
}

/// How one byte of a string is written: quote and backslash behind a
/// backslash, a control byte as a six-byte escape, anything else as is.
pub open spec fn esc_byte(b: u8) -> Seq<u8> {
    if b == 34 {
        seq![92u8, 34u8]
    } else if b == 92 {
        seq![92u8, 92u8]
    } else if b < 32 {
        seq![92u8, 117u8, 48u8, 48u8, hex_digit((b / 16) as nat), hex_digit((b % 16) as nat)]
    } else {
        seq![b]
    }
}

pub open spec fn esc_bytes(bs: Seq<u8>) -> Seq<u8>
    decreases bs.len(),
{
    if bs.len() == 0 {
        Seq::empty()
    } else {
        esc_bytes(bs.drop_last()) + esc_byte(bs.last())
    }
}

pub broadcast proof fn lemma_esc_bytes_push(bs: Seq<u8>, b: u8)
    ensures
        #[trigger] esc_bytes(bs.push(b)) == esc_bytes(bs) + esc_byte(b),
{
    let s = bs.push(b);
    assert(s.drop_last() =~= bs);
    assert(s.last() == b);
}

/// The decimal digits of a number.
pub open spec fn dec_bytes(n: nat) -> Seq<u8>
    decreases n,
{
    if n < 10 {
        seq![(48 + n) as u8]
    } else {
        proof {
            assert(n / 10 < n) by (nonlinear_arith)
                requires
                    n >= 10,
            ;
        }
        dec_bytes(n / 10).push((48 + n % 10) as u8)
    }
}

/// A signed number in decimal.
pub open spec fn dec_int(n: int) -> Seq<u8> {
    if n < 0 {
        seq![45u8] + dec_bytes((-n) as nat)
    } else {
        dec_bytes(n as nat)
    }
}

pub open spec fn is_digit(c: char) -> bool {
    48 <= c as u32 <= 57
}

/// The index just past a run of digits starting at `i`.
pub open spec fn digits_end(s: Seq<char>, i: int) -> int
    decreases s.len() - i,
    when 0 <= i <= s.len()
{
    if i < s.len() && is_digit(s[i]) {
        digits_end(s, i + 1)
    } else {
        i
    }
}

/// Whether the text is a JSON number: an optional minus, an integer part
/// with no leading zero, an optional fraction, an optional exponent.
pub open spec fn num_text(s: Seq<char>) -> bool {
    let i = if s.len() > 0 && s[0] == '-' {
        1int
    } else {
        0int
    };
    int_part_ok(s, i)
}

pub open spec fn int_part_ok(s: Seq<char>, i: int) -> bool {
    if i < s.len() && s[i] == '0' {
        frac_ok(s, i + 1)
    } else if i < s.len() && is_digit(s[i]) {
        frac_ok(s, digits_end(s, i + 1))
    } else {
        false
    }
}

pub open spec fn frac_ok(s: Seq<char>, i: int) -> bool {
    if i == s.len() {
        true
    } else if s[i] == '.' {
        if i + 1 < s.len() && is_digit(s[i + 1]) {
            exp_ok(s, digits_end(s, i + 2))
        } else {
            false
        }
    } else {
        exp_ok(s, i)
    }
}

pub open spec fn exp_ok(s: Seq<char>, i: int) -> bool {
    if i == s.len() {
        true
    } else if s[i] == 'e' || s[i] == 'E' {
        let j = if i + 1 < s.len() && (s[i + 1] == '+' || s[i + 1] == '-') {
            i + 2
        } else {
            i + 1
        };
        j < s.len() && is_digit(s[j]) && digits_end(s, j + 1) == s.len()
    } else {
        false
    }
}

/// A quoted, escaped string.
pub open spec fn str_bytes(s: Seq<char>) -> Seq<u8> {
    seq![34u8] + esc_bytes(encode_utf8(s)) + seq![34u8]
}

/// The bytes of a whole document.
pub open spec fn json_bytes(v: JsonV) -> Seq<u8>
    decreases v,
{
    match v {
        JsonV::Null => seq![110u8, 117u8, 108u8, 108u8],
        JsonV::Bool(b) => if b {
            seq![116u8, 114u8, 117u8, 101u8]
        } else {
            seq![102u8, 97u8, 108u8, 115u8, 101u8]
        },
        JsonV::Int(n) => dec_int(n),
        JsonV::Num(s) => if num_text(s) {
            encode_utf8(s)
        } else {
            seq![110u8, 117u8, 108u8, 108u8]
        },
        JsonV::Str(s) => str_bytes(s),
        JsonV::Arr(_) => seq![91u8] + arr_bytes(v->Arr_0) + seq![93u8],
        JsonV::Obj(_) => seq![123u8] + obj_bytes(v->Obj_0) + seq![125u8],
    }
}

/// Array elements, separated by commas.
pub open spec fn arr_bytes(a: Seq<JsonV>) -> Seq<u8>
    decreases a,
{
    if a.len() == 0 {
        Seq::empty()
    } else if a.len() == 1 {
        json_bytes(a[0])
    } else {
        arr_bytes(a.subrange(0, a.len() - 1)) + seq![44u8] + json_bytes(a[a.len() - 1])
    }
}

/// One object member: the quoted key, a colon, the value.
pub open spec fn member_bytes(e: (Seq<char>, JsonV)) -> Seq<u8>
    decreases e,
{
    str_bytes(e.0) + seq![58u8] + json_bytes(e.1)
}

/// Object members, separated by commas.
pub open spec fn obj_bytes(es: Seq<(Seq<char>, JsonV)>) -> Seq<u8>
    decreases es,
{
    if es.len() == 0 {
        Seq::empty()
    } else if es.len() == 1 {
        member_bytes(es[0])
    } else {
        obj_bytes(es.subrange(0, es.len() - 1)) + seq![44u8] + member_bytes(es[es.len() - 1])
    }
}

proof fn lemma_arr_bytes_take(s: Seq<JsonV>, i: int)
    requires
        0 <= i < s.len(),
    ensures
        arr_bytes(s.take(i + 1)) == if i == 0 {
            json_bytes(s[0])
        } else {
            arr_bytes(s.take(i)) + seq![44u8] + json_bytes(s[i])
        },
{
    let t = s.take(i + 1);
    assert(t.len() == i + 1);
    if i > 0 {
        assert(t.subrange(0, t.len() - 1) =~= s.take(i));
    }
    assert(t[t.len() - 1] == s[i]);
}

proof fn lemma_obj_bytes_take(s: Seq<(Seq<char>, JsonV)>, i: int)
    requires
        0 <= i < s.len(),
    ensures
        obj_bytes(s.take(i + 1)) == if i == 0 {
            member_bytes(s[0])
        } else {
            obj_bytes(s.take(i)) + seq![44u8] + member_bytes(s[i])
        },
{
    let t = s.take(i + 1);
    assert(t.len() == i + 1);
    if i > 0 {
        assert(t.subrange(0, t.len() - 1) =~= s.take(i));
    }
    assert(t[t.len() - 1] == s[i]);
}

/// Appends a copy of the given bytes.
#[verifier::loop_isolation(false)]
fn push_slice(out: &mut Vec<u8>, bs: &[u8])
    ensures
        final(out)@ == old(out)@ + bs@,
{
    let n = bs.len();
    let mut i: usize = 0;
    proof {
        assert(out@ =~= old(out)@ + bs@.take(0));
    }
    while i < n
        invariant
            n == bs@.len(),
            i <= n,
            out@ == old(out)@ + bs@.take(i as int),
        decreases n - i,
    {
        out.push(bs[i]);
        proof {
            assert(bs@.take(i + 1) =~= bs@.take(i as int).push(bs@[i as int]));
            assert(out@ =~= old(out)@ + bs@.take(i + 1));
        }
        i = i + 1;
    }
    proof {
        assert(bs@.take(n as int) =~= bs@);
    }
}

/// Appends the decimal digits of a number.
fn write_dec(out: &mut Vec<u8>, n: u64)
    ensures
        final(out)@ == old(out)@ + dec_bytes(n as nat),
    decreases n,
{
    if n < 10 {
        out.push(48 + n as u8);
        proof {
            assert(out@ =~= old(out)@ + dec_bytes(n as nat));
        }
    } else {
        write_dec(out, n / 10);
        out.push(48 + (n % 10) as u8);
        proof {
            assert((48 + (n % 10) as u64) as u8 == (48 + (n as nat) % 10) as u8);
            assert(out@ =~= old(out)@ + dec_bytes(n as nat));
        }
    }
}

/// Appends a signed number in decimal.
fn write_int(out: &mut Vec<u8>, n: i64)
    ensures
        final(out)@ == old(out)@ + dec_int(n as int),
{
    if n < 0 {
        out.push(45);
        let m: u64 = ((-(n + 1)) as u64) + 1;
        proof {
            assert(m as nat == (-(n as int)) as nat);
        }
        write_dec(out, m);
        proof {
            assert(out@ =~= old(out)@ + dec_int(n as int));
        }
    } else {
        write_dec(out, n as u64);
    }
}

/// Skips a run of digits.
#[verifier::loop_isolation(false)]
fn scan_digits(s: &str, start: usize, n: usize) -> (r: usize)
    requires
        n == s@.len(),
        start <= n,
    ensures
        r == digits_end(s@, start as int),
        start <= r <= n,
{
    let mut i = start;
    while i < n
        invariant
            start <= i <= n,
            digits_end(s@, start as int) == digits_end(s@, i as int),
        decreases n - i,
    {
        let c = s.get_char(i);
        let u = c as u32;
        if !(48 <= u && u <= 57) {
            return i;
        }
        i = i + 1;
    }
    i
}

fn exec_is_digit(c: char) -> (r: bool)
    ensures
        r == is_digit(c),
{
    let u = c as u32;
    48 <= u && u <= 57
}

/// Whether this text is a JSON number.
fn check_num_text(s: &str) -> (r: bool)
    ensures
        r == num_text(s@),
{
    let n = s.unicode_len();
    let start: usize = if n > 0 && s.get_char(0) == '-' {
        1
    } else {
        0
    };
    if start >= n {
        return false;
    }
    let c0 = s.get_char(start);
    let after_int: usize = if c0 == '0' {
        start + 1
    } else if exec_is_digit(c0) {
        scan_digits(s, start + 1, n)
    } else {
        return false;
    };
    let after_frac: usize;
    if after_int == n {
        return true;
    }
    let cf = s.get_char(after_int);
    if cf == '.' {
        if after_int + 1 < n && exec_is_digit(s.get_char(after_int + 1)) {
            after_frac = scan_digits(s, after_int + 2, n);
        } else {
            return false;
        }
    } else {
        after_frac = after_int;
    }
    if after_frac == n {
        return true;
    }
    let ce = s.get_char(after_frac);
    if ce == 'e' || ce == 'E' {
        let j: usize = if after_frac + 1 < n {
            let cs = s.get_char(after_frac + 1);
            if cs == '+' || cs == '-' {
                after_frac + 2
            } else {
                after_frac + 1
            }
        } else {
            after_frac + 1
        };
        if j < n && exec_is_digit(s.get_char(j)) {
            scan_digits(s, j + 1, n) == n
        } else {
            false
        }
    } else {
        false
    }
}

/// Appends a quoted, escaped string.
#[verifier::loop_isolation(false)]
fn write_str(out: &mut Vec<u8>, s: &str)
    ensures
        final(out)@ == old(out)@ + str_bytes(s@),
{
    broadcast use lemma_esc_bytes_push;

    out.push(34);
    let bs = s.as_bytes();
    let ghost start = out@;
    let n = bs.len();
    let mut i: usize = 0;
    proof {
        assert(esc_bytes(bs@.take(0)) =~= Seq::<u8>::empty());
        assert(out@ =~= start + esc_bytes(bs@.take(0)));
    }
    while i < n
        invariant
            n == bs@.len(),
            i <= n,
            out@ == start + esc_bytes(bs@.take(i as int)),
        decreases n - i,
    {
        let b = bs[i];
        if b == 34 {
            out.push(92);
            out.push(34);
        } else if b == 92 {
            out.push(92);
            out.push(92);
        } else if b < 32 {
            out.push(92);
            out.push(117);
            out.push(48);
            out.push(48);
            let hi = b / 16;
            let lo = b % 16;
            out.push(if hi < 10 { 48 + hi } else { 87 + hi });
            out.push(if lo < 10 { 48 + lo } else { 87 + lo });
        } else {
            out.push(b);
        }
        proof {
            assert(bs@.take(i + 1) =~= bs@.take(i as int).push(bs@[i as int]));
            assert(out@ =~= start + esc_bytes(bs@.take(i + 1)));
        }
        i = i + 1;
    }
    proof {
        assert(bs@.take(n as int) =~= bs@);
    }
    out.push(34);
    proof {
        assert(out@ =~= old(out)@ + str_bytes(s@));
    }
}

/// Appends the bytes of a whole document.
#[verifier::loop_isolation(false)]
fn write_json(out: &mut Vec<u8>, j: &Json)
    ensures
        final(out)@ == old(out)@ + json_bytes(j@),
    decreases j,
{
    broadcast use lemma_arr_v_props;
    broadcast use lemma_kvs_v_props;

    match j {
        Json::Null => {
            out.push(110);
            out.push(117);
            out.push(108);
            out.push(108);
            proof {
                assert(out@ =~= old(out)@ + json_bytes(j@));
            }
        },
        Json::Bool(b) => {
            if *b {
                out.push(116);
                out.push(114);
                out.push(117);
                out.push(101);
            } else {
                out.push(102);
                out.push(97);
                out.push(108);
                out.push(115);
                out.push(101);
            }
            proof {
                assert(out@ =~= old(out)@ + json_bytes(j@));
            }
        },
        Json::Int(n) => {
            write_int(out, *n);
        },
        Json::Num(s) => {
            if check_num_text(s.as_str()) {
                push_slice(out, s.as_str().as_bytes());
            } else {
                out.push(110);
                out.push(117);
                out.push(108);
                out.push(108);
                proof {
                    assert(out@ =~= old(out)@ + json_bytes(j@));
                }
            }
        },
        Json::Str(s) => {
            write_str(out, s.as_str());
        },
        Json::Arr(a) => {
            out.push(91);
            let ghost start = out@;
            let n = a.len();
            let mut i: usize = 0;
            while i < n
                invariant
                    n == a@.len(),
                    i <= n,
                    out@ == start + arr_bytes(arr_v(a@).take(i as int)),
                decreases n - i,
            {
                if i > 0 {
                    out.push(44);
                }
                proof {
                    assert(decreases_to!(*j => a@[i as int]));
                }
                write_json(out, &a[i]);
                proof {
                    lemma_arr_bytes_take(arr_v(a@), i as int);
                    assert(out@ =~= start + arr_bytes(arr_v(a@).take(i + 1)));
                }
                i = i + 1;
            }
            proof {
                assert(arr_v(a@).take(n as int) =~= arr_v(a@));
            }
            out.push(93);
            proof {
                assert(out@ =~= old(out)@ + json_bytes(j@));
            }
        },
        Json::Obj(o) => {
            out.push(123);
            let ghost start = out@;
            let n = o.len();
            let mut i: usize = 0;
            while i < n
                invariant
                    n == o@.len(),
                    i <= n,
                    out@ == start + obj_bytes(kvs_v(o@).take(i as int)),
                decreases n - i,
            {
                if i > 0 {
                    out.push(44);
                }
                let e = &o[i];
                write_str(out, e.0.as_str());
                out.push(58);
                proof {
                    assert(decreases_to!(*j => o@[i as int].1));
                }
                write_json(out, &e.1);
                proof {
                    lemma_obj_bytes_take(kvs_v(o@), i as int);
                    assert(out@ =~= start + obj_bytes(kvs_v(o@).take(i + 1)));
                }
                i = i + 1;
            }
            proof {
                assert(kvs_v(o@).take(n as int) =~= kvs_v(o@));
            }
            out.push(125);
            proof {
                assert(out@ =~= old(out)@ + json_bytes(j@));
            }
        },
    }
}

impl Json {
    /// The exact bytes this document puts on the wire.
    pub fn encode(&self) -> (r: Vec<u8>)
        ensures
            r@ == json_bytes(self@),
    {
        let mut out: Vec<u8> = Vec::new();
        write_json(&mut out, self);
        proof {
            assert(out@ =~= json_bytes(self@));
        }
        out
    }
}

} // verus!
