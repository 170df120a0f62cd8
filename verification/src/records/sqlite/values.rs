//! JSON values as a query reads and compares them.

use crate::json::{json_views, number_view, Json, JsonNumber, JsonView};
use crate::text::same_text;
use vstd::arithmetic::mul::{lemma_mul_equality_converse, lemma_mul_is_associative};
use vstd::arithmetic::power2::{
    lemma2_to64, lemma_pow2_adds, lemma_pow2_pos, lemma_pow2_unfold, pow2,
};
use vstd::prelude::*;
use vstd::string::*;

verus! {

/// The smallest double-precision number is two to the power of minus this, and all others
/// are whole multiples of it.
pub const PLACES: u32 = 1074;

/// How far neighbouring double-precision numbers are apart above the signed 64-bit
/// integers: two to the power of eleven.
pub const GAP: u64 = 2048;

/// A value that a query reads. A number is given as a multiple of the smallest
/// double-precision one, whether it is an integer or not.
#[verifier::ext_equal]
pub enum QueryView {
    Null,
    Number(int),
    Text(Seq<char>),
}

/// The digits of a double-precision number before its exponent is applied.
pub open spec fn significand(bits: u64) -> nat {
    let fraction = bits as nat % 0x10_0000_0000_0000;
    if exponent(bits) == 0 {
        fraction
    } else {
        fraction + 0x10_0000_0000_0000
    }
}

/// The exponent of a double-precision number as it is stored.
pub open spec fn exponent(bits: u64) -> nat {
    bits as nat / 0x10_0000_0000_0000 % 2048
}

/// The place that the significand is moved up to.
pub open spec fn shift(bits: u64) -> nat {
    if exponent(bits) == 0 {
        0
    } else {
        (exponent(bits) - 1) as nat
    }
}

/// The integer in units of the gap, rounded to the nearest one, or to the even one of two
/// that are equally near.
pub open spec fn rounded(n: u64) -> nat {
    let kept = n as nat / GAP as nat;
    let rest = n as nat % GAP as nat;
    if rest > 1024 || (rest == 1024 && kept % 2 == 1) {
        kept + 1
    } else {
        kept
    }
}

/// A number as a multiple of the smallest double-precision one. An integer that is no
/// signed 64-bit one is read as the nearest double-precision number.
pub open spec fn multiple_of(n: JsonNumber) -> int {
    match n {
        JsonNumber::PosInt(v) => if v <= i64::MAX {
            v * pow2(PLACES as nat)
        } else {
            (rounded(v) * pow2((PLACES + 11) as nat)) as int
        },
        JsonNumber::NegInt(v) => v * pow2(PLACES as nat),
        JsonNumber::Float(bits) => if bits < 0x8000_0000_0000_0000 {
            (significand(bits) * pow2(shift(bits))) as int
        } else {
            -(significand(bits) * pow2(shift(bits)))
        },
    }
}

/// What a query reads of a JSON value: a truth value is the number one or zero, and an
/// array or an object is its JSON text, which is given.
pub open spec fn query_value(value: JsonView, text: Seq<char>) -> QueryView {
    match value {
        JsonView::Null => QueryView::Null,
        JsonView::Bool(true) => QueryView::Number(pow2(PLACES as nat) as int),
        JsonView::Bool(false) => QueryView::Number(0),
        JsonView::Number(n) => QueryView::Number(multiple_of(n)),
        JsonView::Text(s) => QueryView::Text(s),
        JsonView::Array(_) => QueryView::Text(text),
        JsonView::Object(_) => QueryView::Text(text),
    }
}

/// Two values are equal in a query. Nothing equals what is not there.
pub open spec fn query_equal(a: QueryView, b: QueryView) -> bool {
    a == b && !(a is Null)
}

/// The value is the number one.
pub open spec fn query_one(value: JsonView) -> bool {
    query_equal(query_value(value, Seq::empty()), QueryView::Number(pow2(PLACES as nat) as int))
}

/// A number by its sign, its odd part and the power of two beside it. Zero has no odd part.
struct Parts {
    negative: bool,
    odd: u64,
    place: u32,
}

impl Parts {
    spec fn value(self) -> int {
        if self.negative {
            -(self.odd * pow2(self.place as nat))
        } else {
            self.odd * pow2(self.place as nat)
        }
    }

    spec fn reduced(self) -> bool {
        if self.odd == 0 {
            !self.negative && self.place == 0
        } else {
            self.odd % 2 == 1
        }
    }
}

proof fn odd_parts_are_unique(a: nat, i: nat, b: nat, j: nat)
    requires
        a % 2 == 1,
        b % 2 == 1,
        i <= j,
        a * pow2(i) == b * pow2(j),
    ensures
        a == b,
        i == j,
{
    let d = (j - i) as nat;
    lemma_pow2_pos(i);
    lemma_pow2_adds(i, d);
    assert(pow2(i) * a == pow2(i) * (pow2(d) * b)) by {
        lemma_mul_is_associative(pow2(i) as int, pow2(d) as int, b as int);
        assert(pow2(i) * a == a * pow2(i)) by (nonlinear_arith);
        assert(b * pow2(j) == pow2(j) * b) by (nonlinear_arith);
    }
    lemma_mul_equality_converse(pow2(i) as int, a as int, (pow2(d) * b) as int);
    if d > 0 {
        lemma_pow2_unfold(d);
        let half = pow2((d - 1) as nat);
        assert(pow2(d) * b == 2 * (half * b)) by (nonlinear_arith)
            requires
                pow2(d) == 2 * half,
        ;
        assert(a % 2 == 0);
    } else {
        lemma2_to64();
        assert(pow2(d) * b == b) by (nonlinear_arith)
            requires
                pow2(d) == 1,
        ;
    }
}

proof fn reduced_parts_are_unique(a: Parts, b: Parts)
    requires
        a.reduced(),
        b.reduced(),
        a.value() == b.value(),
    ensures
        a.negative == b.negative,
        a.odd == b.odd,
        a.place == b.place,
{
    lemma_pow2_pos(a.place as nat);
    lemma_pow2_pos(b.place as nat);
    let x = a.odd * pow2(a.place as nat);
    let y = b.odd * pow2(b.place as nat);
    assert(a.odd > 0 ==> x > 0) by (nonlinear_arith)
        requires
            x == a.odd * pow2(a.place as nat),
            pow2(a.place as nat) > 0,
    ;
    assert(b.odd > 0 ==> y > 0) by (nonlinear_arith)
        requires
            y == b.odd * pow2(b.place as nat),
            pow2(b.place as nat) > 0,
    ;
    assert(a.odd == 0 ==> x == 0) by (nonlinear_arith)
        requires
            x == a.odd * pow2(a.place as nat),
    ;
    assert(b.odd == 0 ==> y == 0) by (nonlinear_arith)
        requires
            y == b.odd * pow2(b.place as nat),
    ;
    if a.odd != 0 && b.odd != 0 {
        assert(x == y);
        if a.place <= b.place {
            odd_parts_are_unique(a.odd as nat, a.place as nat, b.odd as nat, b.place as nat);
        } else {
            odd_parts_are_unique(b.odd as nat, b.place as nat, a.odd as nat, a.place as nat);
        }
    }
}

fn reduce(negative: bool, digits: u64, start: u32) -> (r: Parts)
    requires
        start <= 4096,
    ensures
        r.reduced(),
        r.value() == if negative {
            -(digits * pow2(start as nat))
        } else {
            digits * pow2(start as nat)
        },
{
    if digits == 0 {
        proof {
            assert(0 * pow2(start as nat) == 0) by (nonlinear_arith);
            assert(0 * pow2(0) == 0) by (nonlinear_arith);
        }
        return Parts { negative: false, odd: 0, place: 0 };
    }
    let mut odd: u64 = digits;
    let mut place: u32 = start;
    proof {
        lemma2_to64();
        assert(digits * 1 == digits) by (nonlinear_arith);
    }
    while odd % 2 == 0
        invariant
            odd > 0,
            place <= start + 64,
            start <= 4096,
            odd * pow2(place as nat) == digits * pow2(start as nat),
            odd * pow2((place - start) as nat) == digits,
            start <= place,
        decreases odd,
    {
        let ghost before = odd;
        let ghost k = (place - start) as nat;
        odd = odd / 2;
        place = place + 1;
        proof {
            lemma_pow2_unfold(place as nat);
            lemma_pow2_unfold(k + 1);
            let p = pow2((place - 1) as nat);
            assert(odd * (2 * p) == before * p) by (nonlinear_arith)
                requires
                    before == 2 * odd,
            ;
            let q = pow2(k);
            assert(odd * (2 * q) == before * q) by (nonlinear_arith)
                requires
                    before == 2 * odd,
            ;
            // A number of 64 digits is not a multiple of a larger power of two.
            if place > start + 64 {
                lemma2_to64();
                assert(k == 64);
                assert(odd * (2 * q) >= 0x1_0000_0000_0000_0000) by (nonlinear_arith)
                    requires
                        odd > 0,
                        q >= 0x1_0000_0000_0000_0000,
                ;
            }
        }
    }
    Parts { negative, odd, place }
}

fn parts_of(n: JsonNumber) -> (r: Parts)
    ensures
        r.reduced(),
        r.value() == multiple_of(n),
{
    match n {
        JsonNumber::PosInt(v) => {
            if v <= i64::MAX as u64 {
                reduce(false, v, PLACES)
            } else {
                let kept: u64 = v / GAP;
                let rest: u64 = v % GAP;
                let digits: u64 = if rest > 1024 || (rest == 1024 && kept % 2 == 1) {
                    kept + 1
                } else {
                    kept
                };
                reduce(false, digits, PLACES + 11)
            }
        },
        JsonNumber::NegInt(v) => {
            if v < 0 {
                let digits: u64 = (-(v as i128)) as u64;
                proof {
                    let p = pow2(PLACES as nat);
                    assert(-(digits * p) == v * p) by (nonlinear_arith)
                        requires
                            digits == -v,
                    ;
                }
                reduce(true, digits, PLACES)
            } else {
                reduce(false, v as u64, PLACES)
            }
        },
        JsonNumber::Float(bits) => {
            let fraction: u64 = bits % 0x10_0000_0000_0000;
            let exponent: u64 = bits / 0x10_0000_0000_0000 % 2048;
            let negative = bits >= 0x8000_0000_0000_0000;
            if exponent == 0 {
                reduce(negative, fraction, 0)
            } else {
                reduce(negative, fraction + 0x10_0000_0000_0000, exponent as u32 - 1)
            }
        },
    }
}

proof fn zeros_are_equal()
    ensures
        multiple_of(JsonNumber::Float(0x8000_0000_0000_0000)) == multiple_of(JsonNumber::Float(0)),
{
    assert(0 * pow2(0) == 0) by (nonlinear_arith);
}

fn equal_numbers(a: JsonNumber, b: JsonNumber) -> (r: bool)
    ensures
        r == (multiple_of(number_view(a)) == multiple_of(number_view(b))),
{
    let x = parts_of(a);
    let y = parts_of(b);
    proof {
        zeros_are_equal();
        if x.value() == y.value() {
            reduced_parts_are_unique(x, y);
        }
    }
    x.negative == y.negative && x.odd == y.odd && x.place == y.place
}

/// What a query reads of a value.
enum Read<'a> {
    Null,
    Number(JsonNumber),
    Text(&'a str),
}

impl<'a> Read<'a> {
    spec fn says(self) -> QueryView {
        match self {
            Read::Null => QueryView::Null,
            Read::Number(n) => QueryView::Number(multiple_of(number_view(n))),
            Read::Text(s) => QueryView::Text(s@),
        }
    }
}

fn read<'a>(value: &'a Json, text: &'a str) -> (r: Read<'a>)
    ensures
        r.says() == query_value(value.deep_view(), text@),
{
    broadcast use json_views;

    match value {
        Json::Null => Read::Null,
        Json::Bool(true) => {
            proof {
                ones_are_equal();
            }
            Read::Number(JsonNumber::PosInt(1))
        },
        Json::Bool(false) => {
            assert(0 * pow2(PLACES as nat) == 0) by (nonlinear_arith);
            Read::Number(JsonNumber::PosInt(0))
        },
        Json::Number(n) => Read::Number(*n),
        Json::Text(s) => Read::Text(s.as_str()),
        Json::Array(_) => Read::Text(text),
        Json::Object(_) => Read::Text(text),
    }
}

proof fn ones_are_equal()
    ensures
        multiple_of(JsonNumber::PosInt(1)) == pow2(PLACES as nat),
{
    assert(1 * pow2(PLACES as nat) == pow2(PLACES as nat)) by (nonlinear_arith);
}

fn equal_reads(a: &Read<'_>, b: &Read<'_>) -> (r: bool)
    ensures
        r == query_equal(a.says(), b.says()),
{
    match (a, b) {
        (Read::Number(a), Read::Number(b)) => equal_numbers(*a, *b),
        (Read::Text(a), Read::Text(b)) => same_text(a, b),
        _ => false,
    }
}

/// Whether two values are equal in a query, given the JSON texts that they have if they
/// are arrays or objects.
pub fn are_query_equal(a: &Json, a_text: &str, b: &Json, b_text: &str) -> (r: bool)
    ensures
        r == query_equal(
            query_value(a.deep_view(), a_text@),
            query_value(b.deep_view(), b_text@),
        ),
{
    equal_reads(&read(a, a_text), &read(b, b_text))
}

/// Whether a value is the number one in a query.
pub fn is_query_one(value: &Json) -> (r: bool)
    ensures
        r == query_one(value.deep_view()),
{
    proof {
        ones_are_equal();
    }
    let text = "";
    proof {
        reveal_strlit("");
        assert(text@ =~= Seq::<char>::empty());
    }
    equal_reads(&read(value, text), &Read::Number(JsonNumber::PosInt(1)))
}

} // verus!
