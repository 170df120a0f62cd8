//! Text rules shared by the whole crate: what counts as blank, how texts are
//! ordered, and how numbers are written into identifiers.

use vstd::prelude::*;
use vstd::string::*;
use vstd::utf8::{encode_utf8, valid_utf8};

verus! {

/// The Unicode `White_Space` property.
pub open spec fn white_space(c: char) -> bool {
    let u = c as u32;
    ||| 0x9 <= u <= 0xd
    ||| u == 0x20
    ||| u == 0x85
    ||| u == 0xa0
    ||| u == 0x1680
    ||| 0x2000 <= u <= 0x200a
    ||| u == 0x2028
    ||| u == 0x2029
    ||| u == 0x202f
    ||| u == 0x205f
    ||| u == 0x3000
}

/// A text without a single character outside `White_Space`.
pub open spec fn blank(s: Seq<char>) -> bool {
    forall|i: int| 0 <= i < s.len() ==> white_space(#[trigger] s[i])
}

/// `s` without its leading white space.
pub open spec fn trimmed_start(s: Seq<char>) -> Seq<char>
    decreases s.len(),
{
    if s.len() > 0 && white_space(s[0]) {
        trimmed_start(s.skip(1))
    } else {
        s
    }
}

/// `s` without its trailing white space.
pub open spec fn trimmed_end(s: Seq<char>) -> Seq<char>
    decreases s.len(),
{
    if s.len() > 0 && white_space(s.last()) {
        trimmed_end(s.drop_last())
    } else {
        s
    }
}

/// `s` without leading and trailing white space.
pub open spec fn trimmed(s: Seq<char>) -> Seq<char> {
    trimmed_end(trimmed_start(s))
}

/// `str::trim` removes leading and trailing characters that have the Unicode
/// `White_Space` property, and nothing else.
pub assume_specification[ str::trim ](s: &str) -> (r: &str)
    ensures
        r@ == trimmed(s@),
;

proof fn trimmed_start_blank(s: Seq<char>)
    ensures
        blank(s) ==> trimmed_start(s).len() == 0,
        !blank(s) ==> !blank(trimmed_start(s)),
    decreases s.len(),
{
    if s.len() > 0 && white_space(s[0]) {
        let t = s.skip(1);
        trimmed_start_blank(t);
        if blank(s) {
            assert forall|i: int| 0 <= i < t.len() implies white_space(#[trigger] t[i]) by {
                assert(t[i] == s[i + 1]);
            }
        } else {
            let i = choose|i: int| 0 <= i < s.len() && !white_space(#[trigger] s[i]);
            assert(t[i - 1] == s[i]);
        }
    }
}

proof fn trimmed_end_not_blank(s: Seq<char>)
    requires
        !blank(s),
    ensures
        trimmed_end(s).len() > 0,
    decreases s.len(),
{
    let i = choose|i: int| 0 <= i < s.len() && !white_space(#[trigger] s[i]);
    if white_space(s.last()) {
        let t = s.drop_last();
        assert(t[i] == s[i]);
        trimmed_end_not_blank(t);
    }
}

/// A text is blank exactly when nothing of it is left after trimming.
pub proof fn blank_is_trimmed_empty(s: Seq<char>)
    ensures
        blank(s) <==> trimmed(s).len() == 0,
{
    trimmed_start_blank(s);
    if !blank(s) {
        trimmed_end_not_blank(trimmed_start(s));
    }
}

/// Whether the text holds nothing but white space.
pub fn is_blank(s: &str) -> (r: bool)
    ensures
        r == blank(s@),
{
    proof {
        blank_is_trimmed_empty(s@);
    }
    s.trim().is_empty()
}

/// The number of bytes of the UTF-8 form of a text.
pub open spec fn bytes_of(s: Seq<char>) -> nat {
    encode_utf8(s).len()
}

/// The length of a text in bytes.
pub fn byte_len(s: &str) -> (r: usize)
    ensures
        r == bytes_of(s@),
{
    s.as_bytes().len()
}

/// Lexicographic order of byte sequences.
pub open spec fn bytes_before(a: Seq<u8>, b: Seq<u8>) -> bool
    decreases a.len(),
{
    if b.len() == 0 {
        false
    } else if a.len() == 0 {
        true
    } else if a[0] != b[0] {
        a[0] < b[0]
    } else {
        bytes_before(a.skip(1), b.skip(1))
    }
}

/// Texts are ordered by the bytes of their UTF-8 form.
pub open spec fn text_before(a: Seq<char>, b: Seq<char>) -> bool {
    bytes_before(encode_utf8(a), encode_utf8(b))
}

proof fn bytes_before_irreflexive(a: Seq<u8>)
    ensures
        !bytes_before(a, a),
    decreases a.len(),
{
    if a.len() > 0 {
        bytes_before_irreflexive(a.skip(1));
    }
}

proof fn bytes_before_transitive(a: Seq<u8>, b: Seq<u8>, c: Seq<u8>)
    requires
        bytes_before(a, b),
        bytes_before(b, c),
    ensures
        bytes_before(a, c),
    decreases a.len(),
{
    if a.len() > 0 && b.len() > 0 && c.len() > 0 && a[0] == b[0] && b[0] == c[0] {
        bytes_before_transitive(a.skip(1), b.skip(1), c.skip(1));
    }
}

proof fn bytes_before_total(a: Seq<u8>, b: Seq<u8>)
    ensures
        bytes_before(a, b) || bytes_before(b, a) || a == b,
    decreases a.len(),
{
    if a.len() == 0 || b.len() == 0 {
        if a.len() == b.len() {
            assert(a =~= b);
        }
    } else if a[0] == b[0] {
        bytes_before_total(a.skip(1), b.skip(1));
        if a.skip(1) == b.skip(1) {
            assert forall|i: int| 0 <= i < a.len() implies a[i] == b[i] by {
                if i > 0 {
                    assert(a.skip(1)[i - 1] == b.skip(1)[i - 1]);
                }
            }
            assert(a.len() == b.len()) by {
                assert(a.skip(1).len() == b.skip(1).len());
            }
            assert(a =~= b);
        }
    }
}

/// Equal UTF-8 forms belong to equal texts.
pub proof fn encoding_is_injective(a: Seq<char>, b: Seq<char>)
    requires
        encode_utf8(a) == encode_utf8(b),
    ensures
        a == b,
{
    vstd::utf8::encode_utf8_decode_utf8(a);
    vstd::utf8::encode_utf8_decode_utf8(b);
}

/// No text comes before itself.
pub proof fn text_before_irreflexive(a: Seq<char>)
    ensures
        !text_before(a, a),
{
    bytes_before_irreflexive(encode_utf8(a));
}

/// The order of texts is transitive.
pub proof fn text_before_transitive(a: Seq<char>, b: Seq<char>, c: Seq<char>)
    requires
        text_before(a, b),
        text_before(b, c),
    ensures
        text_before(a, c),
{
    bytes_before_transitive(encode_utf8(a), encode_utf8(b), encode_utf8(c));
}

/// Of two different texts one comes before the other.
pub proof fn text_before_total(a: Seq<char>, b: Seq<char>)
    ensures
        text_before(a, b) || text_before(b, a) || a == b,
{
    bytes_before_total(encode_utf8(a), encode_utf8(b));
    if encode_utf8(a) == encode_utf8(b) {
        encoding_is_injective(a, b);
    }
}

/// Whether `a` comes before `b`.
pub fn is_before(a: &str, b: &str) -> (r: bool)
    ensures
        r == text_before(a@, b@),
{
    let x = a.as_bytes();
    let y = b.as_bytes();
    let mut i: usize = 0;
    assert(x@.skip(0) =~= x@ && y@.skip(0) =~= y@);
    while i < x.len() && i < y.len()
        invariant
            x@ == encode_utf8(a@),
            y@ == encode_utf8(b@),
            i <= x.len(),
            i <= y.len(),
            text_before(a@, b@) == bytes_before(x@.skip(i as int), y@.skip(i as int)),
        decreases x.len() - i,
    {
        assert(x@.skip(i as int).skip(1) =~= x@.skip(i + 1));
        assert(y@.skip(i as int).skip(1) =~= y@.skip(i + 1));
        if x[i] != y[i] {
            return x[i] < y[i];
        }
        i = i + 1;
    }
    i < y.len()
}

/// Whether two texts are equal.
pub fn same_text(a: &str, b: &str) -> (r: bool)
    ensures
        r == (a@ == b@),
{
    let x = a.as_bytes();
    let y = b.as_bytes();
    if x.len() != y.len() {
        return false;
    }
    let mut i: usize = 0;
    while i < x.len()
        invariant
            x@ == encode_utf8(a@),
            y@ == encode_utf8(b@),
            x.len() == y.len(),
            i <= x.len(),
            forall|j: int| 0 <= j < i ==> x@[j] == y@[j],
        decreases x.len() - i,
    {
        if x[i] != y[i] {
            return false;
        }
        i = i + 1;
    }
    proof {
        assert(x@ =~= y@);
        encoding_is_injective(a@, b@);
    }
    true
}

/// Where a character first occurs, or the length of the text where it does not.
pub open spec fn first_index(s: Seq<char>, c: char) -> nat
    decreases s.len(),
{
    if s.len() == 0 || s[0] == c {
        0
    } else {
        1 + first_index(s.skip(1), c)
    }
}

/// The text before the first occurrence of a character.
pub open spec fn up_to(s: Seq<char>, c: char) -> Seq<char> {
    s.take(first_index(s, c) as int)
}

/// A first index lies within the text.
pub proof fn first_index_is_bounded(s: Seq<char>, c: char)
    ensures
        first_index(s, c) <= s.len(),
    decreases s.len(),
{
    if s.len() > 0 && s[0] != c {
        first_index_is_bounded(s.skip(1), c);
    }
}

/// The text before the first occurrence of a character.
pub fn text_up_to<'a>(s: &'a str, c: char) -> (r: &'a str)
    ensures
        r@ == up_to(s@, c),
{
    let n = s.unicode_len();
    let mut i: usize = 0;
    assert(s@.skip(0) =~= s@);
    while i < n
        invariant
            i <= n,
            n == s@.len(),
            first_index(s@, c) == i + first_index(s@.skip(i as int), c),
        decreases n - i,
    {
        assert(s@.skip(i as int).skip(1) =~= s@.skip(i + 1));
        if s.get_char(i) == c {
            assert(s@.subrange(0, i as int) =~= s@.take(i as int));
            return s.substring_char(0, i);
        }
        i = i + 1;
    }
    assert(s@.take(n as int) =~= s@);
    s
}

/// `std::str::from_utf8`: the text whose UTF-8 form the bytes are, if they are one.
#[verifier::external_body]
pub(crate) fn utf8_text(bytes: &Vec<u8>) -> (r: Option<String>)
    ensures
        r is Some <==> valid_utf8(bytes@),
        r matches Some(text) ==> encode_utf8(text@) == bytes@,
{
    match std::str::from_utf8(bytes) {
        Ok(text) => Some(text.to_owned()),
        Err(_) => None,
    }
}

/// The decimal digit of a number below ten.
pub open spec fn digit(n: nat) -> char {
    (n + 48) as char
}

/// The decimal form of a number, without leading zeros.
pub open spec fn decimal(n: nat) -> Seq<char>
    decreases n,
{
    if n < 10 {
        seq![digit(n)]
    } else {
        decimal(n / 10).push(digit(n % 10))
    }
}

/// What a decimal digit stands for.
pub fn digit_value(c: char) -> (r: Option<u64>)
    ensures
        r matches Some(n) ==> '0' <= c && c <= '9' && n == c as nat - 48,
        r is None ==> !('0' <= c && c <= '9'),
{
    match c {
        '0' => Some(0),
        '1' => Some(1),
        '2' => Some(2),
        '3' => Some(3),
        '4' => Some(4),
        '5' => Some(5),
        '6' => Some(6),
        '7' => Some(7),
        '8' => Some(8),
        '9' => Some(9),
        _ => None,
    }
}

fn digit_text(n: u64) -> (r: &'static str)
    requires
        n < 10,
    ensures
        r@ == seq![digit(n as nat)],
{
    proof {
        reveal_strlit("0");
        reveal_strlit("1");
        reveal_strlit("2");
        reveal_strlit("3");
        reveal_strlit("4");
        reveal_strlit("5");
        reveal_strlit("6");
        reveal_strlit("7");
        reveal_strlit("8");
        reveal_strlit("9");
    }
    match n {
        0 => "0",
        1 => "1",
        2 => "2",
        3 => "3",
        4 => "4",
        5 => "5",
        6 => "6",
        7 => "7",
        8 => "8",
        _ => "9",
    }
}

/// Writes a number in decimal.
pub fn decimal_text(n: u64) -> (r: String)
    ensures
        r@ == decimal(n as nat),
    decreases n,
{
    if n < 10 {
        digit_text(n).to_owned()
    } else {
        let mut s = decimal_text(n / 10);
        s.append(digit_text(n % 10));
        s
    }
}

/// The decimal form of a number that may be negative.
pub open spec fn signed_decimal(n: int) -> Seq<char> {
    if n < 0 {
        "-"@ + decimal((-n) as nat)
    } else {
        decimal(n as nat)
    }
}

/// Writes a number that may be negative in decimal.
pub fn signed_decimal_text(n: i64) -> (r: String)
    ensures
        r@ == signed_decimal(n as int),
{
    if n < 0 {
        let magnitude: u64 = (-(n as i128)) as u64;
        let mut r = "-".to_owned();
        r.append(decimal_text(magnitude).as_str());
        r
    } else {
        decimal_text(n as u64)
    }
}

/// A text as Rust writes it for diagnosis, in quotation marks.
pub uninterp spec fn debug_quoted(s: Seq<char>) -> Seq<char>;

/// The `Debug` form of a `str`. What it escapes is left to the standard library.
#[verifier::external_body]
pub(crate) fn quoted_for_debug(s: &str) -> (r: String)
    ensures
        r@ == debug_quoted(s@),
{
    format!("{:?}", s)
}

/// A hexadecimal digit.
pub open spec fn hex_digit(n: nat) -> char {
    if n < 10 {
        (n + 48) as char
    } else {
        (n + 87) as char
    }
}

/// A character within a JSON string. Quotation marks, backslashes and control characters
/// are escaped.
pub open spec fn json_escaped(c: char) -> Seq<char> {
    let u = c as nat;
    if c == '"' || c == '\\' {
        seq!['\\', c]
    } else if u == 8 {
        seq!['\\', 'b']
    } else if u == 9 {
        seq!['\\', 't']
    } else if u == 10 {
        seq!['\\', 'n']
    } else if u == 12 {
        seq!['\\', 'f']
    } else if u == 13 {
        seq!['\\', 'r']
    } else if u < 32 {
        seq!['\\', 'u', '0', '0', hex_digit(u / 16), hex_digit(u % 16)]
    } else {
        seq![c]
    }
}

/// What stands between the quotation marks of a JSON string.
pub open spec fn json_inner(s: Seq<char>) -> Seq<char>
    decreases s.len(),
{
    if s.len() == 0 {
        Seq::empty()
    } else {
        json_escaped(s[0]) + json_inner(s.skip(1))
    }
}

/// A text as a JSON string, with its quotation marks and escapes.
#[verifier::opaque]
pub open spec fn json_quoted(s: Seq<char>) -> Seq<char> {
    seq!['"'] + json_inner(s) + seq!['"']
}

/// `serde_json::to_string` of a `str`, which always succeeds: the text in quotation
/// marks, where quotation marks, backslashes and the characters below U+0020 are escaped,
/// by a letter where JSON has one and by two hexadecimal digits otherwise.
#[verifier::external_body]
pub(crate) fn quoted_for_json(s: &str) -> (r: String)
    ensures
        r@ == json_quoted(s@),
{
    match serde_json::to_string(s) {
        Ok(quoted) => quoted,
        Err(_) => String::new(),
    }
}

proof fn escapes_are_prefix_free(a: char, x: Seq<char>, b: char, y: Seq<char>)
    requires
        json_escaped(a) + x == json_escaped(b) + y,
    ensures
        a == b,
        x == y,
{
    let p = json_escaped(a) + x;
    let q = json_escaped(b) + y;
    assert(p[0] == json_escaped(a)[0]);
    assert(q[0] == json_escaped(b)[0]);
    if json_escaped(a).len() > 1 && json_escaped(b).len() > 1 {
        assert(p[1] == json_escaped(a)[1]);
        assert(q[1] == json_escaped(b)[1]);
        if json_escaped(a).len() == 6 && json_escaped(b).len() == 6 {
            assert(p[4] == json_escaped(a)[4]);
            assert(q[4] == json_escaped(b)[4]);
            assert(p[5] == json_escaped(a)[5]);
            assert(q[5] == json_escaped(b)[5]);
            assert(a as nat == b as nat);
        }
    }
    assert(a == b);
    assert(x =~= p.skip(json_escaped(a).len() as int));
    assert(y =~= q.skip(json_escaped(b).len() as int));
}

proof fn json_inner_can_be_read(a: Seq<char>, x: Seq<char>, b: Seq<char>, y: Seq<char>)
    requires
        json_inner(a) + seq!['"'] + x == json_inner(b) + seq!['"'] + y,
    ensures
        a == b,
        x == y,
    decreases a.len(),
{
    let quote = seq!['"'];
    let p = json_inner(a) + quote + x;
    let q = json_inner(b) + quote + y;
    if a.len() == 0 && b.len() == 0 {
        assert(a =~= b);
        assert(x =~= p.skip(1));
        assert(y =~= q.skip(1));
    } else if a.len() == 0 {
        assert(p[0] == '"');
        assert(q[0] == json_escaped(b[0])[0]);
    } else if b.len() == 0 {
        assert(q[0] == '"');
        assert(p[0] == json_escaped(a[0])[0]);
    } else {
        let rest_a = json_inner(a.skip(1)) + quote + x;
        let rest_b = json_inner(b.skip(1)) + quote + y;
        assert(p =~= json_escaped(a[0]) + rest_a);
        assert(q =~= json_escaped(b[0]) + rest_b);
        escapes_are_prefix_free(a[0], rest_a, b[0], rest_b);
        json_inner_can_be_read(a.skip(1), x, b.skip(1), y);
        assert(a =~= seq![a[0]] + a.skip(1));
        assert(b =~= seq![b[0]] + b.skip(1));
    }
}

/// A JSON string can be read back, whatever follows it: different texts are never
/// written alike.
pub proof fn json_strings_can_be_read(a: Seq<char>, x: Seq<char>, b: Seq<char>, y: Seq<char>)
    requires
        json_quoted(a) + x == json_quoted(b) + y,
    ensures
        a == b,
        x == y,
{
    reveal(json_quoted);
    let p = json_quoted(a) + x;
    let q = json_quoted(b) + y;
    assert(p.skip(1) =~= json_inner(a) + seq!['"'] + x);
    assert(q.skip(1) =~= json_inner(b) + seq!['"'] + y);
    json_inner_can_be_read(a, x, b, y);
}

/// A text between its length in bytes and whatever follows.
pub open spec fn counted(s: Seq<char>) -> Seq<char> {
    decimal(bytes_of(s)) + ":"@ + s
}

/// The decimal form of a number consists of digits.
pub proof fn decimal_is_digits(n: nat)
    ensures
        decimal(n).len() > 0,
        forall|i: int|
            0 <= i < decimal(n).len() ==> '0' <= #[trigger] decimal(n)[i] && decimal(n)[i] <= '9',
    decreases n,
{
    if n >= 10 {
        decimal_is_digits(n / 10);
    }
}

/// The decimal forms of different numbers differ.
pub proof fn decimal_is_injective(a: nat, b: nat)
    requires
        decimal(a) == decimal(b),
    ensures
        a == b,
    decreases a,
{
    decimal_is_digits(a / 10);
    decimal_is_digits(b / 10);
    assert(decimal(a).last() == decimal(b).last());
    if a < 10 && b < 10 {
        assert(decimal(a)[0] == digit(a) && decimal(b)[0] == digit(b));
    } else if a < 10 {
        assert(decimal(b).len() == decimal(b / 10).len() + 1);
    } else if b < 10 {
        assert(decimal(a).len() == decimal(a / 10).len() + 1);
    } else {
        assert(decimal(a / 10) =~= decimal(a).drop_last());
        assert(decimal(b / 10) =~= decimal(b).drop_last());
        decimal_is_injective(a / 10, b / 10);
        assert(decimal(a).last() == digit(a % 10) && decimal(b).last() == digit(b % 10));
    }
}

/// A longer text has more bytes.
pub proof fn prefixes_have_fewer_bytes(s: Seq<char>, n: int)
    requires
        0 <= n < s.len(),
    ensures
        bytes_of(s.take(n)) < bytes_of(s),
    decreases s.len(),
{
    assert(encode_utf8(s) == vstd::utf8::encode_scalar(s[0] as u32) + encode_utf8(s.drop_first()));
    vstd::utf8::char_is_scalar(s[0]);
    assert(vstd::utf8::encode_scalar(s[0] as u32).len() > 0);
    if n > 0 {
        let t = s.take(n);
        assert(t[0] == s[0]);
        assert(t.drop_first() =~= s.drop_first().take(n - 1));
        assert(encode_utf8(t) == vstd::utf8::encode_scalar(t[0] as u32) + encode_utf8(
            t.drop_first(),
        ));
        prefixes_have_fewer_bytes(s.drop_first(), n - 1);
    } else {
        assert(s.take(0) =~= Seq::empty());
    }
}

proof fn digits_end_at_the_colon(a: nat, x: Seq<char>, b: nat, y: Seq<char>)
    requires
        decimal(a) + ":"@ + x == decimal(b) + ":"@ + y,
    ensures
        a == b,
        x == y,
{
    reveal_strlit(":");
    decimal_is_digits(a);
    decimal_is_digits(b);
    let p = decimal(a);
    let q = decimal(b);
    let whole = p + ":"@ + x;
    assert(whole == q + ":"@ + y);
    assert(whole[p.len() as int] == ':');
    assert(whole[q.len() as int] == ':');
    if p.len() < q.len() {
        assert(whole[p.len() as int] == q[p.len() as int]);
    }
    if q.len() < p.len() {
        assert(whole[q.len() as int] == p[q.len() as int]);
    }
    assert(p =~= whole.take(p.len() as int));
    assert(q =~= whole.take(q.len() as int));
    decimal_is_injective(a, b);
    assert(x =~= whole.skip(p.len() as int + 1));
    assert(y =~= whole.skip(q.len() as int + 1));
}

/// Texts that are preceded by their lengths can be told from what follows them,
/// whatever separators they contain.
pub proof fn counted_texts_do_not_collide(
    a: Seq<char>,
    rest_a: Seq<char>,
    b: Seq<char>,
    rest_b: Seq<char>,
)
    requires
        counted(a) + rest_a == counted(b) + rest_b,
    ensures
        a == b,
        rest_a == rest_b,
{
    assert(counted(a) + rest_a =~= decimal(bytes_of(a)) + ":"@ + (a + rest_a));
    assert(counted(b) + rest_b =~= decimal(bytes_of(b)) + ":"@ + (b + rest_b));
    digits_end_at_the_colon(bytes_of(a), a + rest_a, bytes_of(b), b + rest_b);
    let whole = a + rest_a;
    assert(a =~= whole.take(a.len() as int));
    assert(b =~= whole.take(b.len() as int));
    if a.len() < b.len() {
        assert(a =~= b.take(a.len() as int));
        prefixes_have_fewer_bytes(b, a.len() as int);
    }
    if b.len() < a.len() {
        assert(b =~= a.take(b.len() as int));
        prefixes_have_fewer_bytes(a, b.len() as int);
    }
    assert(rest_a =~= whole.skip(a.len() as int));
    assert(rest_b =~= whole.skip(b.len() as int));
}

} // verus!
