//! Text utilities on `String` and `&str`, stated over their character
//! sequences: decimal formatting, Unicode white space trimming, substring
//! search and lexicographic ordering.

use vstd::prelude::*;
use vstd::string::*;

verus! {

/// `String::push`: the characters of the string after the call are those
/// before it, then `c`.
#[verifier::external_body]
pub(crate) fn push_char(s: &mut String, c: char)
    ensures
        final(s)@ == old(s)@.push(c),
{
    s.push(c)
}

/// The string of the characters `cs`.
pub fn string_from_chars(cs: &Vec<char>) -> (s: String)
    ensures
        s@ == cs@,
{
    let mut s = String::new();
    let mut i: usize = 0;
    while i < cs.len()
        invariant
            i <= cs@.len(),
            s@ == cs@.subrange(0, i as int),
        decreases cs@.len() - i,
    {
        push_char(&mut s, cs[i]);
        i = i + 1;
        assert(s@ =~= cs@.subrange(0, i as int));
    }
    assert(cs@.subrange(0, cs@.len() as int) =~= cs@);
    s
}

/// The characters of `s`.
pub fn chars_of(s: &str) -> (cs: Vec<char>)
    ensures
        cs@ == s@,
{
    let n = s.unicode_len();
    let mut cs: Vec<char> = Vec::new();
    let mut i: usize = 0;
    while i < n
        invariant
            n == s@.len(),
            i <= n,
            cs@ == s@.subrange(0, i as int),
        decreases n - i,
    {
        cs.push(s.get_char(i));
        i = i + 1;
        assert(cs@ =~= s@.subrange(0, i as int));
    }
    assert(s@.subrange(0, n as int) =~= s@);
    cs
}

/// The concatenation of two strings.
pub fn concat2(a: &str, b: &str) -> (s: String)
    ensures
        s@ == a@ + b@,
{
    let mut s = String::from_str(a);
    s.append(b);
    s
}

/// The concatenation of three strings.
pub fn concat3(a: &str, b: &str, c: &str) -> (s: String)
    ensures
        s@ == a@ + b@ + c@,
{
    let mut s = String::from_str(a);
    s.append(b);
    s.append(c);
    s
}

/// The character of a decimal digit.
pub open spec fn digit_char(d: nat) -> char {
    ((48 + d) as u32) as char
}

/// The decimal numeral of a natural number, without leading zeros.
pub open spec fn decimal_chars(n: nat) -> Seq<char>
    decreases n,
{
    if n < 10 {
        seq![digit_char(n)]
    } else {
        decimal_chars(n / 10).push(digit_char(n % 10))
    }
}

/// The decimal numeral of an integer, with a `-` when it is negative.
pub open spec fn int_decimal_chars(v: int) -> Seq<char> {
    if v < 0 {
        seq!['-'] + decimal_chars((-v) as nat)
    } else {
        decimal_chars(v as nat)
    }
}

/// The digits are written `0` to `9`, in that order.
pub proof fn lemma_digit_chars(d: nat)
    requires
        d < 10,
    ensures
        digit_char(d) == seq!['0', '1', '2', '3', '4', '5', '6', '7', '8', '9'][d as int],
{
    let t = seq!['0', '1', '2', '3', '4', '5', '6', '7', '8', '9'];
    assert(t[0] == '0');
    assert(t[1] == '1');
    assert(t[2] == '2');
    assert(t[3] == '3');
    assert(t[4] == '4');
    assert(t[5] == '5');
    assert(t[6] == '6');
    assert(t[7] == '7');
    assert(t[8] == '8');
    assert(t[9] == '9');
}

/// The hexadecimal digits are written `0` to `9`, then `a` to `f`, in that
/// order.
pub proof fn lemma_hex_digit_chars(d: nat)
    requires
        d < 16,
    ensures
        hex_digit_char(d) == seq!['0', '1', '2', '3', '4', '5', '6', '7', '8', '9', 'a', 'b', 'c', 'd', 'e', 'f'][d as int],
{
    let t = seq!['0', '1', '2', '3', '4', '5', '6', '7', '8', '9', 'a', 'b', 'c', 'd', 'e', 'f'];
    assert(t[0] == '0');
    assert(t[1] == '1');
    assert(t[2] == '2');
    assert(t[3] == '3');
    assert(t[4] == '4');
    assert(t[5] == '5');
    assert(t[6] == '6');
    assert(t[7] == '7');
    assert(t[8] == '8');
    assert(t[9] == '9');
    assert(t[10] == 'a');
    assert(t[11] == 'b');
    assert(t[12] == 'c');
    assert(t[13] == 'd');
    assert(t[14] == 'e');
    assert(t[15] == 'f');
}

/// A numeral has no leading zero, unless it is `0` itself.
pub proof fn lemma_no_leading_zero(n: nat)
    ensures
        decimal_chars(n).len() >= 1,
        n > 0 ==> decimal_chars(n)[0] != '0',
        hex_chars(n).len() >= 1,
        n > 0 ==> hex_chars(n)[0] != '0',
    decreases n,
{
    if n >= 10 {
        lemma_no_leading_zero(n / 10);
        assert(decimal_chars(n)[0] == decimal_chars(n / 10)[0]);
    } else if n > 0 {
        assert((digit_char(n) as u32) == 48 + n);
    }
    if n >= 16 {
        lemma_no_leading_zero(n / 16);
        assert(hex_chars(n)[0] == hex_chars(n / 16)[0]);
    } else if n > 0 {
        assert((hex_digit_char(n) as u32) != 48);
    }
}

/// The character of the digit `d`.
fn digit_to_char(d: u64) -> (c: char)
    requires
        d < 10,
    ensures
        c == digit_char(d as nat),
{
    let b: u8 = 48u8 + d as u8;
    b as char
}

/// The decimal numeral of `n`, as `n.to_string()` writes it.
pub fn u64_to_decimal(n: u64) -> (s: String)
    ensures
        s@ == decimal_chars(n as nat),
{
    let mut m = n;
    let mut acc: Vec<char> = Vec::new();
    while m >= 10
        invariant
            decimal_chars(n as nat) == decimal_chars(m as nat) + acc@,
        decreases m,
    {
        let d = m % 10;
        let c = digit_to_char(d);
        proof {
            assert(decimal_chars(m as nat) == decimal_chars((m / 10) as nat).push(c));
            assert(decimal_chars((m / 10) as nat).push(c) + acc@ =~= decimal_chars(
                (m / 10) as nat,
            ) + seq![c].add(acc@));
        }
        let ghost before = acc@;
        acc.insert(0, c);
        assert(acc@ =~= seq![c].add(before));
        m = m / 10;
    }
    let c = digit_to_char(m);
    let ghost before = acc@;
    acc.insert(0, c);
    assert(acc@ =~= seq![c] + before);
    string_from_chars(&acc)
}

/// The character of a hexadecimal digit, in lower case.
pub open spec fn hex_digit_char(d: nat) -> char {
    if d < 10 {
        ((48 + d) as u32) as char
    } else {
        ((87 + d) as u32) as char
    }
}

/// The lower-case hexadecimal numeral of a natural number, without leading
/// zeros.
pub open spec fn hex_chars(n: nat) -> Seq<char>
    decreases n,
{
    if n < 16 {
        seq![hex_digit_char(n)]
    } else {
        hex_chars(n / 16).push(hex_digit_char(n % 16))
    }
}

/// The character of the hexadecimal digit `d`.
fn hex_digit_to_char(d: u64) -> (c: char)
    requires
        d < 16,
    ensures
        c == hex_digit_char(d as nat),
{
    let b: u8 = if d < 10 {
        48u8 + d as u8
    } else {
        87u8 + d as u8
    };
    b as char
}

/// The lower-case hexadecimal numeral of `n`, without leading zeros.
pub fn u64_to_hex(n: u64) -> (s: String)
    ensures
        s@ == hex_chars(n as nat),
{
    let mut m = n;
    let mut acc: Vec<char> = Vec::new();
    while m >= 16
        invariant
            hex_chars(n as nat) == hex_chars(m as nat) + acc@,
        decreases m,
    {
        let d = m % 16;
        let c = hex_digit_to_char(d);
        proof {
            assert(hex_chars(m as nat) == hex_chars((m / 16) as nat).push(c));
            assert(hex_chars((m / 16) as nat).push(c) + acc@ =~= hex_chars((m / 16) as nat) + seq![
                c,
            ].add(acc@));
        }
        let ghost before = acc@;
        acc.insert(0, c);
        assert(acc@ =~= seq![c].add(before));
        m = m / 16;
    }
    let c = hex_digit_to_char(m);
    let ghost before = acc@;
    acc.insert(0, c);
    assert(acc@ =~= seq![c] + before);
    string_from_chars(&acc)
}

/// The decimal numeral of `n`, with a `-` when it is negative, as
/// `n.to_string()` writes it.
pub fn i64_to_decimal(n: i64) -> (s: String)
    ensures
        s@ == int_decimal_chars(n as int),
{
    if n < 0 {
        let m: u64 = (0i128 - n as i128) as u64;
        let digits = u64_to_decimal(m);
        proof {
            reveal_strlit("-");
        }
        concat2("-", digits.as_str())
    } else {
        u64_to_decimal(n as u64)
    }
}

/// A white space character in the sense of Unicode's `White_Space`
/// property, as `char::is_whitespace` defines it.
pub open spec fn is_white_space(c: char) -> bool {
    let u = c as u32;
    ||| 0x09 <= u <= 0x0D
    ||| u == 0x20
    ||| u == 0x85
    ||| u == 0xA0
    ||| u == 0x1680
    ||| 0x2000 <= u <= 0x200A
    ||| u == 0x2028
    ||| u == 0x2029
    ||| u == 0x202F
    ||| u == 0x205F
    ||| u == 0x3000
}

/// The Unicode `White_Space` characters, one by one.
pub open spec fn white_space_chars() -> Seq<char> {
    seq![
        '\u{9}', '\u{a}', '\u{b}', '\u{c}', '\u{d}', '\u{20}',
        '\u{85}', '\u{a0}', '\u{1680}', '\u{2000}', '\u{2001}', '\u{2002}',
        '\u{2003}', '\u{2004}', '\u{2005}', '\u{2006}', '\u{2007}', '\u{2008}',
        '\u{2009}', '\u{200a}', '\u{2028}', '\u{2029}', '\u{202f}', '\u{205f}',
        '\u{3000}',
    ]
}

/// White space is exactly the twenty-five characters of Unicode's
/// `White_Space` property: no other character, and in particular no
/// printable ASCII character, is trimmed.
pub proof fn lemma_white_space_chars(c: char)
    ensures
        is_white_space(c) <==> white_space_chars().contains(c),
{
    let w = white_space_chars();
    let u = c as u32;
    vstd::utf8::char_u32_cast(c, u);
    if white_space_chars().contains(c) {
        let i = choose|i: int| 0 <= i < w.len() && w[i] == c;
        assert(w[0] == '\u{9}');
        assert(w[1] == '\u{a}');
        assert(w[2] == '\u{b}');
        assert(w[3] == '\u{c}');
        assert(w[4] == '\u{d}');
        assert(w[5] == '\u{20}');
        assert(w[6] == '\u{85}');
        assert(w[7] == '\u{a0}');
        assert(w[8] == '\u{1680}');
        assert(w[9] == '\u{2000}');
        assert(w[10] == '\u{2001}');
        assert(w[11] == '\u{2002}');
        assert(w[12] == '\u{2003}');
        assert(w[13] == '\u{2004}');
        assert(w[14] == '\u{2005}');
        assert(w[15] == '\u{2006}');
        assert(w[16] == '\u{2007}');
        assert(w[17] == '\u{2008}');
        assert(w[18] == '\u{2009}');
        assert(w[19] == '\u{200a}');
        assert(w[20] == '\u{2028}');
        assert(w[21] == '\u{2029}');
        assert(w[22] == '\u{202f}');
        assert(w[23] == '\u{205f}');
        assert(w[24] == '\u{3000}');
    }
    if is_white_space(c) {
        if u == 0x9 {
            assert(w[0] == c);
        } else if u == 0xa {
            assert(w[1] == c);
        } else if u == 0xb {
            assert(w[2] == c);
        } else if u == 0xc {
            assert(w[3] == c);
        } else if u == 0xd {
            assert(w[4] == c);
        } else if u == 0x20 {
            assert(w[5] == c);
        } else if u == 0x85 {
            assert(w[6] == c);
        } else if u == 0xa0 {
            assert(w[7] == c);
        } else if u == 0x1680 {
            assert(w[8] == c);
        } else if u == 0x2000 {
            assert(w[9] == c);
        } else if u == 0x2001 {
            assert(w[10] == c);
        } else if u == 0x2002 {
            assert(w[11] == c);
        } else if u == 0x2003 {
            assert(w[12] == c);
        } else if u == 0x2004 {
            assert(w[13] == c);
        } else if u == 0x2005 {
            assert(w[14] == c);
        } else if u == 0x2006 {
            assert(w[15] == c);
        } else if u == 0x2007 {
            assert(w[16] == c);
        } else if u == 0x2008 {
            assert(w[17] == c);
        } else if u == 0x2009 {
            assert(w[18] == c);
        } else if u == 0x200a {
            assert(w[19] == c);
        } else if u == 0x2028 {
            assert(w[20] == c);
        } else if u == 0x2029 {
            assert(w[21] == c);
        } else if u == 0x202f {
            assert(w[22] == c);
        } else if u == 0x205f {
            assert(w[23] == c);
        } else if u == 0x3000 {
            assert(w[24] == c);
        }
    }
}

/// Whether `c` is white space.
pub fn is_whitespace(c: char) -> (b: bool)
    ensures
        b == is_white_space(c),
{
    let u = c as u32;
    (0x09 <= u && u <= 0x0D) || u == 0x20 || u == 0x85 || u == 0xA0 || u == 0x1680 || (0x2000
        <= u && u <= 0x200A) || u == 0x2028 || u == 0x2029 || u == 0x202F || u == 0x205F || u
        == 0x3000
}

/// The number of leading white space characters of `s`.
pub open spec fn leading_white_space(s: Seq<char>) -> int
    decreases s.len(),
{
    if s.len() > 0 && is_white_space(s[0]) {
        1 + leading_white_space(s.drop_first())
    } else {
        0
    }
}

/// The number of trailing white space characters of `s`.
pub open spec fn trailing_white_space(s: Seq<char>) -> int
    decreases s.len(),
{
    if s.len() > 0 && is_white_space(s.last()) {
        1 + trailing_white_space(s.drop_last())
    } else {
        0
    }
}

/// `s` without its leading white space.
pub open spec fn trim_start_chars(s: Seq<char>) -> Seq<char> {
    s.subrange(leading_white_space(s), s.len() as int)
}

/// `s` without its trailing white space.
pub open spec fn trim_end_chars(s: Seq<char>) -> Seq<char> {
    s.subrange(0, s.len() - trailing_white_space(s))
}

/// What `leading_white_space` counts: a prefix of white space, followed by
/// a character that is not white space, if any.
proof fn lemma_leading_white_space_facts(s: Seq<char>)
    ensures
        0 <= leading_white_space(s) <= s.len(),
        forall|j: int| 0 <= j < leading_white_space(s) ==> is_white_space(#[trigger] s[j]),
        leading_white_space(s) < s.len() ==> !is_white_space(s[leading_white_space(s)]),
    decreases s.len(),
{
    if s.len() > 0 && is_white_space(s[0]) {
        let t = s.drop_first();
        lemma_leading_white_space_facts(t);
        assert forall|j: int| 0 <= j < leading_white_space(s) implies is_white_space(
            #[trigger] s[j],
        ) by {
            if j > 0 {
                assert(s[j] == t[j - 1]);
            }
        }
        if leading_white_space(s) < s.len() {
            assert(s[leading_white_space(s)] == t[leading_white_space(t)]);
        }
    }
}

/// What `trailing_white_space` counts: a suffix of white space, preceded by
/// a character that is not white space, if any.
proof fn lemma_trailing_white_space_facts(s: Seq<char>)
    ensures
        0 <= trailing_white_space(s) <= s.len(),
        forall|j: int|
            s.len() - trailing_white_space(s) <= j < s.len() ==> is_white_space(#[trigger] s[j]),
        trailing_white_space(s) < s.len() ==> !is_white_space(
            s[s.len() - trailing_white_space(s) - 1],
        ),
    decreases s.len(),
{
    if s.len() > 0 && is_white_space(s.last()) {
        let t = s.drop_last();
        lemma_trailing_white_space_facts(t);
        assert forall|j: int|
            s.len() - trailing_white_space(s) <= j < s.len() implies is_white_space(
            #[trigger] s[j],
        ) by {
            if j < s.len() - 1 {
                assert(s[j] == t[j]);
            }
        }
        if trailing_white_space(s) < s.len() {
            assert(s[s.len() - trailing_white_space(s) - 1] == t[t.len() - trailing_white_space(t)
                - 1]);
        }
    }
}

/// Trimming the start removes white space only, and all of it: the result
/// is what follows a prefix of white space characters, and it does not
/// begin with white space.
pub proof fn lemma_trim_start(s: Seq<char>)
    ensures
        trim_start_chars(s).len() <= s.len(),
        trim_start_chars(s) == s.subrange(s.len() - trim_start_chars(s).len(), s.len() as int),
        forall|j: int|
            0 <= j < s.len() - trim_start_chars(s).len() ==> is_white_space(#[trigger] s[j]),
        trim_start_chars(s).len() > 0 ==> !is_white_space(trim_start_chars(s)[0]),
{
    lemma_leading_white_space_facts(s);
}

/// Trimming the end removes white space only, and all of it: the result is
/// what precedes a suffix of white space characters, and it does not end
/// with white space.
pub proof fn lemma_trim_end(s: Seq<char>)
    ensures
        trim_end_chars(s).len() <= s.len(),
        trim_end_chars(s) == s.subrange(0, trim_end_chars(s).len() as int),
        forall|j: int|
            trim_end_chars(s).len() <= j < s.len() ==> is_white_space(#[trigger] s[j]),
        trim_end_chars(s).len() > 0 ==> !is_white_space(trim_end_chars(s).last()),
{
    lemma_trailing_white_space_facts(s);
}

/// `leading_white_space` counts the white space before the first other
/// character.
proof fn lemma_leading_white_space(s: Seq<char>, k: int)
    requires
        0 <= k <= s.len(),
        forall|j: int| 0 <= j < k ==> is_white_space(#[trigger] s[j]),
        k == s.len() || !is_white_space(s[k]),
    ensures
        leading_white_space(s) == k,
    decreases s.len(),
{
    if k > 0 {
        assert forall|j: int| 0 <= j < k - 1 implies is_white_space(
            #[trigger] s.drop_first()[j],
        ) by {
            assert(s.drop_first()[j] == s[j + 1]);
        }
        if k - 1 < s.drop_first().len() {
            assert(s.drop_first()[k - 1] == s[k]);
        }
        lemma_leading_white_space(s.drop_first(), k - 1);
    }
}

/// `trailing_white_space` counts the white space after the last other
/// character.
proof fn lemma_trailing_white_space(s: Seq<char>, k: int)
    requires
        0 <= k <= s.len(),
        forall|j: int| k <= j < s.len() ==> is_white_space(#[trigger] s[j]),
        k == 0 || !is_white_space(s[k - 1]),
    ensures
        trailing_white_space(s) == s.len() - k,
    decreases s.len(),
{
    if k < s.len() {
        assert forall|j: int| k <= j < s.len() - 1 implies is_white_space(
            #[trigger] s.drop_last()[j],
        ) by {
            assert(s.drop_last()[j] == s[j]);
        }
        if k > 0 {
            assert(s.drop_last()[k - 1] == s[k - 1]);
        }
        lemma_trailing_white_space(s.drop_last(), k);
    }
}

/// `s` without its leading white space, as `str::trim_start` gives it.
pub fn trim_start(s: &str) -> (r: String)
    ensures
        r@ == trim_start_chars(s@),
{
    let n = s.unicode_len();
    let mut k: usize = 0;
    while k < n && is_whitespace(s.get_char(k))
        invariant
            n == s@.len(),
            k <= n,
            forall|j: int| 0 <= j < k ==> is_white_space(#[trigger] s@[j]),
        decreases n - k,
    {
        k = k + 1;
    }
    proof {
        lemma_leading_white_space(s@, k as int);
    }
    let sub = s.substring_char(k, n);
    String::from_str(sub)
}

/// `s` without its trailing white space, as `str::trim_end` gives it.
pub fn trim_end(s: &str) -> (r: String)
    ensures
        r@ == trim_end_chars(s@),
{
    let n = s.unicode_len();
    let mut k: usize = n;
    while k > 0 && is_whitespace(s.get_char(k - 1))
        invariant
            n == s@.len(),
            k <= n,
            forall|j: int| k <= j < n ==> is_white_space(#[trigger] s@[j]),
        decreases k,
    {
        k = k - 1;
    }
    proof {
        lemma_trailing_white_space(s@, k as int);
    }
    let sub = s.substring_char(0, k);
    String::from_str(sub)
}

/// `needle` occurs in `hay` at position `i`.
pub open spec fn occurs_at(hay: Seq<char>, needle: Seq<char>, i: int) -> bool {
    0 <= i && i + needle.len() <= hay.len() && hay.subrange(i, i + needle.len()) == needle
}

/// `needle` occurs somewhere in `hay`.
pub open spec fn contains_chars(hay: Seq<char>, needle: Seq<char>) -> bool {
    exists|i: int| occurs_at(hay, needle, i)
}

/// Whether `needle` occurs in `hay`, as `str::contains` tells it.
pub fn contains(hay: &str, needle: &str) -> (b: bool)
    ensures
        b == contains_chars(hay@, needle@),
{
    let h = chars_of(hay);
    let nd = chars_of(needle);
    if nd.len() > h.len() {
        proof {
            assert forall|i: int| !occurs_at(hay@, needle@, i) by {}
        }
        return false;
    }
    let last = h.len() - nd.len();
    let mut i: usize = 0;
    while i <= last
        invariant
            h@ == hay@,
            nd@ == needle@,
            last == h@.len() - nd@.len(),
            nd@.len() <= h@.len(),
            forall|k: int| 0 <= k < i ==> !occurs_at(hay@, needle@, k),
        decreases last + 1 - i,
    {
        let mut j: usize = 0;
        let mut same = true;
        while j < nd.len()
            invariant
                h@ == hay@,
                nd@ == needle@,
                i <= last,
                last == h@.len() - nd@.len(),
                nd@.len() <= h@.len(),
                j <= nd@.len(),
                same ==> forall|t: int| 0 <= t < j ==> h@[i + t] == nd@[t],
                !same ==> !occurs_at(hay@, needle@, i as int),
            decreases nd@.len() - j,
        {
            let hl = h.len();
            assert(i + j < hl);
            if same && h[i + j] != nd[j] {
                same = false;
                proof {
                    assert(hay@.subrange(i as int, i + needle@.len())[j as int] != needle@[j as int]);
                }
            }
            j = j + 1;
        }
        if same {
            assert(hay@.subrange(i as int, i + needle@.len()) =~= needle@);
            assert(occurs_at(hay@, needle@, i as int));
            return true;
        }
        if i == last {
            proof {
                assert forall|k: int| !occurs_at(hay@, needle@, k) by {
                    if k < i {
                    }
                }
            }
            return false;
        }
        i = i + 1;
    }
    false
}

/// Lexicographic order of character sequences by code point; for strings it
/// is the order of their UTF-8 bytes, the order of `String`'s `Ord`.
pub open spec fn lex_le(a: Seq<char>, b: Seq<char>) -> bool
    decreases a.len(),
{
    if a.len() == 0 {
        true
    } else if b.len() == 0 {
        false
    } else if (a[0] as u32) < (b[0] as u32) {
        true
    } else if a[0] == b[0] {
        lex_le(a.drop_first(), b.drop_first())
    } else {
        false
    }
}

/// A string sorts before every string that extends it.
pub proof fn lemma_lex_prefix_first(a: Seq<char>, b: Seq<char>)
    ensures
        lex_le(a, a + b),
    decreases a.len(),
{
    if a.len() > 0 {
        assert((a + b).drop_first() =~= a.drop_first() + b);
        lemma_lex_prefix_first(a.drop_first(), b);
    }
}

/// After a common prefix, the first differing characters decide the order,
/// by their code points, whatever follows them.
pub proof fn lemma_lex_first_difference(
    p: Seq<char>,
    c: char,
    d: char,
    s: Seq<char>,
    t: Seq<char>,
)
    requires
        c != d,
    ensures
        lex_le(p + seq![c] + s, p + seq![d] + t) <==> (c as u32) < (d as u32),
    decreases p.len(),
{
    let a = p + seq![c] + s;
    let b = p + seq![d] + t;
    if p.len() == 0 {
        assert(a[0] == c);
        assert(b[0] == d);
        vstd::utf8::char_u32_cast(c, c as u32);
        vstd::utf8::char_u32_cast(d, d as u32);
    } else {
        assert(a[0] == p[0]);
        assert(b[0] == p[0]);
        assert(a.drop_first() =~= p.drop_first() + seq![c] + s);
        assert(b.drop_first() =~= p.drop_first() + seq![d] + t);
        lemma_lex_first_difference(p.drop_first(), c, d, s, t);
    }
}

/// The order is total.
pub proof fn lemma_lex_total(a: Seq<char>, b: Seq<char>)
    ensures
        lex_le(a, b) || lex_le(b, a),
    decreases a.len(),
{
    if a.len() > 0 && b.len() > 0 {
        if a[0] == b[0] {
            lemma_lex_total(a.drop_first(), b.drop_first());
        } else {
            vstd::utf8::char_u32_cast(a[0], a[0] as u32);
            vstd::utf8::char_u32_cast(b[0], b[0] as u32);
        }
    }
}

/// The order is transitive.
pub proof fn lemma_lex_transitive(a: Seq<char>, b: Seq<char>, c: Seq<char>)
    requires
        lex_le(a, b),
        lex_le(b, c),
    ensures
        lex_le(a, c),
    decreases a.len(),
{
    if a.len() > 0 && b.len() > 0 && c.len() > 0 && a[0] == b[0] && b[0] == c[0] {
        lemma_lex_transitive(a.drop_first(), b.drop_first(), c.drop_first());
    }
}

/// The order is antisymmetric.
pub proof fn lemma_lex_antisymmetric(a: Seq<char>, b: Seq<char>)
    requires
        lex_le(a, b),
        lex_le(b, a),
    ensures
        a == b,
    decreases a.len(),
{
    if a.len() > 0 && b.len() > 0 {
        lemma_lex_antisymmetric(a.drop_first(), b.drop_first());
        assert(a =~= seq![a[0]] + a.drop_first());
        assert(b =~= seq![b[0]] + b.drop_first());
    } else {
        assert(a =~= b);
    }
}

/// Whether `a` sorts before `b` or equal to it.
pub fn str_le(a: &str, b: &str) -> (r: bool)
    ensures
        r == lex_le(a@, b@),
{
    let x = chars_of(a);
    let y = chars_of(b);
    let mut i: usize = 0;
    assert(a@.skip(0) =~= a@);
    assert(b@.skip(0) =~= b@);
    while i < x.len() && i < y.len() && x[i] == y[i]
        invariant
            x@ == a@,
            y@ == b@,
            i <= x@.len(),
            i <= y@.len(),
            lex_le(a@, b@) == lex_le(a@.skip(i as int), b@.skip(i as int)),
        decreases x@.len() - i,
    {
        assert(a@.skip(i as int).drop_first() =~= a@.skip(i + 1));
        assert(b@.skip(i as int).drop_first() =~= b@.skip(i + 1));
        i = i + 1;
    }
    if i == x.len() {
        true
    } else if i == y.len() {
        false
    } else {
        proof {
            assert(a@.skip(i as int)[0] == x@[i as int]);
            assert(b@.skip(i as int)[0] == y@[i as int]);
            vstd::utf8::char_u32_cast(x@[i as int], x@[i as int] as u32);
            vstd::utf8::char_u32_cast(y@[i as int], y@[i as int] as u32);
        }
        (x[i] as u32) < (y[i] as u32)
    }
}

/// The strings are in order.
pub open spec fn strings_sorted(v: Seq<String>) -> bool {
    forall|i: int, j: int| 0 <= i < j < v.len() ==> lex_le(#[trigger] v[i]@, #[trigger] v[j]@)
}

/// Inserting `x` after the strings that sort before it and before the rest
/// keeps the order.
proof fn lemma_insert_sorted(r: Seq<String>, p: int, x: String)
    requires
        strings_sorted(r),
        0 <= p <= r.len(),
        forall|t: int| 0 <= t < p ==> lex_le(#[trigger] r[t]@, x@),
        p < r.len() ==> !lex_le(r[p]@, x@),
    ensures
        strings_sorted(r.insert(p, x)),
{
    assert forall|t: int| p <= t < r.len() implies lex_le(x@, #[trigger] r[t]@) by {
        lemma_lex_total(r[p]@, x@);
        if t > p {
            lemma_lex_transitive(x@, r[p]@, r[t]@);
        }
    }
    let s = r.insert(p, x);
    assert forall|i: int, j: int| 0 <= i < j < s.len() implies lex_le(
        #[trigger] s[i]@,
        #[trigger] s[j]@,
    ) by {
        if i < p && j < p {
            assert(s[i] == r[i] && s[j] == r[j]);
        } else if i < p && j == p {
            assert(s[i] == r[i]);
        } else if i < p {
            assert(s[i] == r[i]);
            assert(s[j] == r[j - 1]);
            lemma_lex_transitive(r[i]@, x@, r[j - 1]@);
        } else if i == p {
            assert(s[j] == r[j - 1]);
        } else {
            assert(s[i] == r[i - 1] && s[j] == r[j - 1]);
        }
    }
}

/// Inserting the next item keeps the multiset of the items seen so far.
proof fn lemma_insert_multiset(r: Seq<String>, items: Seq<String>, k: int, p: int)
    requires
        0 <= k < items.len(),
        0 <= p <= r.len(),
        r.to_multiset() == items.subrange(0, k).to_multiset(),
    ensures
        r.insert(p, items[k]).to_multiset() == items.subrange(0, k + 1).to_multiset(),
{
    assert(items.subrange(0, k + 1) =~= items.subrange(0, k).push(items[k]));
    vstd::seq_lib::to_multiset_insert(r, p, items[k]);
    vstd::seq_lib::to_multiset_build(items.subrange(0, k), items[k]);
}

/// The strings of `items` in order, as `Vec::sort` orders them.
pub fn sort_strings(items: Vec<String>) -> (r: Vec<String>)
    ensures
        strings_sorted(r@),
        r@.to_multiset() == items@.to_multiset(),
{
    let mut r: Vec<String> = Vec::new();
    let mut k: usize = 0;
    assert(r@ =~= items@.subrange(0, 0));
    while k < items.len()
        invariant
            k <= items@.len(),
            strings_sorted(r@),
            r@.to_multiset() == items@.subrange(0, k as int).to_multiset(),
        decreases items@.len() - k,
    {
        let x = items[k].clone();
        let mut p: usize = 0;
        while p < r.len() && str_le(r[p].as_str(), x.as_str())
            invariant
                p <= r@.len(),
                forall|t: int| 0 <= t < p ==> lex_le(#[trigger] r@[t]@, x@),
            decreases r@.len() - p,
        {
            p = p + 1;
        }
        let ghost old_r = r@;
        proof {
            lemma_insert_sorted(old_r, p as int, x);
            lemma_insert_multiset(old_r, items@, k as int, p as int);
        }
        r.insert(p, x);
        k = k + 1;
    }
    assert(items@.subrange(0, items@.len() as int) =~= items@);
    r
}

/// Whether some string of `v` has the characters of `s`.
fn contains_string(v: &Vec<String>, s: &String) -> (b: bool)
    ensures
        b == (exists|i: int| 0 <= i < v@.len() && #[trigger] v@[i]@ == s@),
{
    let mut i: usize = 0;
    while i < v.len()
        invariant
            i <= v@.len(),
            forall|t: int| 0 <= t < i ==> #[trigger] v@[t]@ != s@,
        decreases v@.len() - i,
    {
        if v[i] == *s {
            return true;
        }
        i = i + 1;
    }
    false
}

/// No two strings of `r` have the same characters.
pub open spec fn strings_distinct(r: Seq<String>) -> bool {
    forall|i: int, j: int| 0 <= i < j < r.len() ==> (#[trigger] r[i])@ != (#[trigger] r[j])@
}

/// Some string of `r` has the characters `s`.
pub open spec fn has_string(r: Seq<String>, s: Seq<char>) -> bool {
    exists|j: int| 0 <= j < r.len() && (#[trigger] r[j])@ == s
}

/// The distinct strings of `items`, each once, in the order of their first
/// occurrence.
pub fn dedupe_strings(items: Vec<String>) -> (r: Vec<String>)
    ensures
        strings_distinct(r@),
        forall|i: int| 0 <= i < items@.len() ==> has_string(r@, (#[trigger] items@[i])@),
        forall|j: int| 0 <= j < r@.len() ==> has_string(items@, (#[trigger] r@[j])@),
{
    let mut r: Vec<String> = Vec::new();
    let mut k: usize = 0;
    while k < items.len()
        invariant
            k <= items@.len(),
            strings_distinct(r@),
            forall|i: int| 0 <= i < k ==> has_string(r@, (#[trigger] items@[i])@),
            forall|j: int| 0 <= j < r@.len() ==> has_string(items@, (#[trigger] r@[j])@),
        decreases items@.len() - k,
    {
        let x = items[k].clone();
        let ghost old_r = r@;
        if !contains_string(&r, &x) {
            r.push(x);
            proof {
                assert forall|i: int| 0 <= i < k + 1 implies has_string(r@, (#[trigger] items@[i])@) by {
                    if i < k {
                        assert(has_string(old_r, items@[i]@));
                        let j = choose|j: int| 0 <= j < old_r.len() && (#[trigger] old_r[j])@ == items@[i]@;
                        assert(r@[j] == old_r[j]);
                    } else {
                        assert(r@[old_r.len() as int]@ == items@[i]@);
                    }
                }
                assert forall|j: int| 0 <= j < r@.len() implies has_string(items@, (#[trigger] r@[j])@) by {
                    if j < old_r.len() {
                        assert(r@[j] == old_r[j]);
                    } else {
                        assert(r@[j]@ == items@[k as int]@);
                    }
                }
                assert forall|i: int, j: int| 0 <= i < j < r@.len() implies (#[trigger] r@[i])@ != (#[trigger] r@[j])@ by {
                    if j < old_r.len() {
                        assert(r@[i] == old_r[i] && r@[j] == old_r[j]);
                    } else {
                        assert(r@[i] == old_r[i]);
                    }
                }
            }
        } else {
            proof {
                assert forall|i: int| 0 <= i < k + 1 implies has_string(r@, (#[trigger] items@[i])@) by {
                    if i == k {
                        assert(items@[i]@ == x@);
                    }
                }
            }
        }
        k = k + 1;
    }
    r
}

/// Whether two strings have the same characters.
pub fn str_eq(a: &str, b: &str) -> (r: bool)
    ensures
        r == (a@ == b@),
{
    let x = chars_of(a);
    let y = chars_of(b);
    if x.len() != y.len() {
        return false;
    }
    let mut i: usize = 0;
    while i < x.len()
        invariant
            x@ == a@,
            y@ == b@,
            x@.len() == y@.len(),
            i <= x@.len(),
            forall|k: int| 0 <= k < i ==> x@[k] == y@[k],
        decreases x@.len() - i,
    {
        if x[i] != y[i] {
            return false;
        }
        i = i + 1;
    }
    assert(x@ =~= y@);
    true
}

} // verus!
