use vstd::prelude::*;
use vstd::string::*;

verus! {

/// Lower-case hexadecimal digit of a value below 16.
pub open spec fn hex_char(d: int) -> char {
    if d < 10 {
        (('0' as int) + d) as char
    } else {
        (('a' as int) + d - 10) as char
    }
}

/// Two lower-case hexadecimal digits of a byte, most significant first.
pub open spec fn hex2(b: u8) -> Seq<char> {
    seq![hex_char((b / 16) as int), hex_char((b % 16) as int)]
}

/// Decimal digit of a value below 10.
pub open spec fn dec_char(d: int) -> char {
    (('0' as int) + d) as char
}

/// Decimal representation of a byte without leading zeros.
pub open spec fn decimal(v: u8) -> Seq<char> {
    if v < 10 {
        seq![dec_char(v as int)]
    } else if v < 100 {
        seq![dec_char((v / 10) as int), dec_char((v % 10) as int)]
    } else {
        seq![dec_char((v / 100) as int), dec_char(((v / 10) % 10) as int), dec_char((v % 10) as int)]
    }
}

/// One hexadecimal digit as a string.
fn hex_digit_str(d: u8) -> (r: &'static str)
    requires
        d < 16,
    ensures
        r@ == seq![hex_char(d as int)],
{
    proof {
        reveal_strlit("0");
        reveal_strlit("1");
        reveal_strlit("2");
        reveal_strlit("3");
        reveal_strlit("4");
        reveal_strlit("5");
        reveal_strlit("6");
        reveal_strlit("7");
        reveal_strlit("8");
        reveal_strlit("9");
        reveal_strlit("a");
        reveal_strlit("b");
        reveal_strlit("c");
        reveal_strlit("d");
        reveal_strlit("e");
        reveal_strlit("f");
    }
    match d {
        0 => "0",
        1 => "1",
        2 => "2",
        3 => "3",
        4 => "4",
        5 => "5",
        6 => "6",
        7 => "7",
        8 => "8",
        9 => "9",
        10 => "a",
        11 => "b",
        12 => "c",
        13 => "d",
        14 => "e",
        _ => "f",
    }
}

/// Formats a byte as two lower-case hexadecimal digits.
pub fn byte_hex(b: u8) -> (r: String)
    ensures
        r@ == hex2(b),
{
    let mut s = String::new();
    s.append(hex_digit_str(b / 16));
    s.append(hex_digit_str(b % 16));
    s
}

/// Formats a byte in decimal, without leading zeros.
pub fn byte_decimal(v: u8) -> (r: String)
    ensures
        r@ == decimal(v),
{
    let mut s = String::new();
    if v >= 100 {
        s.append(hex_digit_str(v / 100));
    }
    if v >= 10 {
        s.append(hex_digit_str((v / 10) % 10));
    }
    s.append(hex_digit_str(v % 10));
    proof {
        if v < 10 {
            assert(s@ =~= decimal(v));
        } else if v < 100 {
            assert(s@ =~= decimal(v));
        } else {
            assert(s@ =~= decimal(v));
        }
    }
    s
}

/// A string holding the characters of `s`.
pub fn owned(s: &str) -> (r: String)
    ensures
        r@ == s@,
{
    String::from_str(s)
}

/// What `String::from_utf8_lossy` makes of a byte sequence.
pub uninterp spec fn utf8_lossy(bytes: Seq<u8>) -> Seq<char>;

/// Calls `String::from_utf8_lossy` and takes ownership of its result. The
/// contract names the result (`utf8_lossy`) as a function of the bytes; it
/// does not say how invalid sequences are replaced.
#[verifier::external_body]
pub(crate) fn lossy_utf8(bytes: &[u8]) -> (r: String)
    ensures
        r@ == utf8_lossy(bytes@),
{
    String::from_utf8_lossy(bytes).into_owned()
}

/// The characters of a string, as a vector.
pub fn chars_of(s: &str) -> (r: Vec<char>)
    ensures
        r@ == s@,
{
    let n = s.unicode_len();
    let mut out: Vec<char> = Vec::new();
    let mut i: usize = 0;
    while i < n
        invariant
            n == s@.len(),
            i <= n,
            out@ == s@.take(i as int),
        decreases n - i,
    {
        out.push(s.get_char(i));
        i = i + 1;
        proof {
            assert(out@ =~= s@.take(i as int));
        }
    }
    proof {
        assert(s@.take(n as int) =~= s@);
    }
    out
}

/// Whether two strings hold the same characters.
pub fn str_eq(a: &str, b: &str) -> (r: bool)
    ensures
        r == (a@ == b@),
{
    let x = chars_of(a);
    let y = chars_of(b);
    if x.len() != y.len() {
        return false;
    }
    let n = x.len();
    let mut i: usize = 0;
    while i < n
        invariant
            n == x@.len(),
            n == y@.len(),
            x@ == a@,
            y@ == b@,
            i <= n,
            forall|j: int| 0 <= j < i ==> x@[j] == y@[j],
        decreases n - i,
    {
        if x[i] != y[i] {
            return false;
        }
        i = i + 1;
    }
    proof {
        assert(x@ =~= y@);
    }
    true
}

/// Whether `needle` occurs in `hay` at index `i`.
pub open spec fn occurs_at(hay: Seq<char>, needle: Seq<char>, i: int) -> bool {
    0 <= i && i + needle.len() <= hay.len() && hay.subrange(i, i + needle.len()) == needle
}

/// Whether `needle` occurs somewhere in `hay` (the empty string occurs in
/// every string).
pub open spec fn contains_seq(hay: Seq<char>, needle: Seq<char>) -> bool {
    exists|i: int| occurs_at(hay, needle, i)
}

fn occurs_at_exec(hay: &Vec<char>, needle: &Vec<char>, i: usize) -> (r: bool)
    requires
        i + needle@.len() <= hay@.len(),
    ensures
        r == occurs_at(hay@, needle@, i as int),
{
    let m = needle.len();
    let hn = hay.len();
    let mut j: usize = 0;
    while j < m
        invariant
            m == needle@.len(),
            hn == hay@.len(),
            i + m <= hay@.len(),
            j <= m,
            forall|k: int| 0 <= k < j ==> hay@[i + k] == needle@[k],
        decreases m - j,
    {
        if hay[i + j] != needle[j] {
            proof {
                assert(hay@.subrange(i as int, i + m)[j as int] != needle@[j as int]);
            }
            return false;
        }
        j = j + 1;
    }
    proof {
        assert(hay@.subrange(i as int, i + m) =~= needle@);
    }
    true
}

/// Whether `needle` occurs in `hay`, as `str::contains` with a string pattern.
pub fn contains_str(hay: &str, needle: &str) -> (r: bool)
    ensures
        r == contains_seq(hay@, needle@),
{
    let h = chars_of(hay);
    let n = chars_of(needle);
    if n.len() > h.len() {
        proof {
            assert forall|i: int| !occurs_at(hay@, needle@, i) by {}
        }
        return false;
    }
    let last = h.len() - n.len();
    let mut i: usize = 0;
    loop
        invariant
            h@ == hay@,
            n@ == needle@,
            last + n@.len() == h@.len(),
            i <= last,
            forall|k: int| 0 <= k < i ==> !occurs_at(hay@, needle@, k),
        ensures
            forall|k: int| 0 <= k <= last ==> !occurs_at(hay@, needle@, k),
        decreases last - i,
    {
        if occurs_at_exec(&h, &n, i) {
            return true;
        }
        if i == last {
            break;
        }
        i = i + 1;
    }
    proof {
        assert forall|k: int| !occurs_at(hay@, needle@, k) by {
            if 0 <= k && k + needle@.len() <= hay@.len() {
                assert(k <= last);
            }
        }
    }
    false
}

/// What `str::to_lowercase` makes of a string.
pub uninterp spec fn lowercase(s: Seq<char>) -> Seq<char>;

/// Calls `str::to_lowercase`. The contract names the result (`lowercase`) as
/// a function of the characters; it does not say which characters change.
#[verifier::external_body]
pub(crate) fn to_lower(s: &str) -> (r: String)
    ensures
        r@ == lowercase(s@),
{
    s.to_lowercase()
}

/// Characters with the Unicode White_Space property: tab, line feed,
/// vertical tab, form feed, carriage return, space, next line, no-break
/// space, ogham space mark, the spaces from en quad to hair space, line and
/// paragraph separators, narrow no-break space, medium mathematical space
/// and ideographic space.
pub open spec fn is_white_space(c: char) -> bool {
    let v = c as u32;
    (0x9 <= v <= 0xd) || v == 0x20 || v == 0x85 || v == 0xa0 || v == 0x1680 || (0x2000 <= v
        <= 0x200a) || v == 0x2028 || v == 0x2029 || v == 0x202f || v == 0x205f || v == 0x3000
}

/// `s` without its leading white space.
pub open spec fn trim_start(s: Seq<char>) -> Seq<char>
    decreases s.len(),
{
    if s.len() > 0 && is_white_space(s[0]) {
        trim_start(s.drop_first())
    } else {
        s
    }
}

/// `s` without its trailing white space.
pub open spec fn trim_end(s: Seq<char>) -> Seq<char>
    decreases s.len(),
{
    if s.len() > 0 && is_white_space(s.last()) {
        trim_end(s.drop_last())
    } else {
        s
    }
}

/// `s` without its leading and trailing white space.
pub open spec fn trimmed(s: Seq<char>) -> Seq<char> {
    trim_end(trim_start(s))
}

/// Calls `str::trim`, which removes leading and trailing characters with the
/// Unicode White_Space property.
#[verifier::external_body]
pub(crate) fn trim_ws(s: &str) -> (r: &str)
    ensures
        r@ == trimmed(s@),
{
    s.trim()
}

/// Number of NUL characters at the start of `s`.
pub open spec fn leading_nuls(s: Seq<char>) -> int
    decreases s.len(),
{
    if s.len() > 0 && s[0] == '\0' {
        1 + leading_nuls(s.drop_first())
    } else {
        0
    }
}

/// Number of NUL characters at the end of `s`.
pub open spec fn trailing_nuls(s: Seq<char>) -> int
    decreases s.len(),
{
    if s.len() > 0 && s.last() == '\0' {
        1 + trailing_nuls(s.drop_last())
    } else {
        0
    }
}

/// `s` without NUL characters at either end.
pub open spec fn strip_nuls(s: Seq<char>) -> Seq<char> {
    let a = s.skip(leading_nuls(s));
    a.take(a.len() - trailing_nuls(a))
}

proof fn lemma_leading_nuls(s: Seq<char>, i: int)
    requires
        0 <= i <= s.len(),
        forall|k: int| 0 <= k < i ==> s[k] == '\0',
        i == s.len() || s[i] != '\0',
    ensures
        leading_nuls(s) == i,
    decreases i,
{
    if i > 0 {
        lemma_leading_nuls(s.drop_first(), i - 1);
    }
}

proof fn lemma_trailing_nuls(s: Seq<char>, i: int)
    requires
        0 <= i <= s.len(),
        forall|k: int| s.len() - i <= k < s.len() ==> s[k] == '\0',
        i == s.len() || s[s.len() - 1 - i] != '\0',
    ensures
        trailing_nuls(s) == i,
    decreases i,
{
    if i > 0 {
        lemma_trailing_nuls(s.drop_last(), i - 1);
    }
}

/// A string made of the given characters.
fn string_of(cs: &Vec<char>, from: usize, to: usize) -> (r: String)
    requires
        from <= to <= cs@.len(),
    ensures
        r@ == cs@.subrange(from as int, to as int),
{
    let mut s = String::new();
    let mut i = from;
    while i < to
        invariant
            from <= i <= to,
            to <= cs@.len(),
            s@ == cs@.subrange(from as int, i as int),
        decreases to - i,
    {
        let one = char_str(cs[i]);
        s.append(one.as_str());
        i = i + 1;
        proof {
            assert(s@ =~= cs@.subrange(from as int, i as int));
        }
    }
    s
}

/// Calls `char::to_string`: a string of one character.
#[verifier::external_body]
fn char_str(c: char) -> (r: String)
    ensures
        r@ == seq![c],
{
    c.to_string()
}

/// `s` without NUL characters at either end, as `str::trim_matches('\0')`.
pub fn trim_nul(s: &str) -> (r: String)
    ensures
        r@ == strip_nuls(s@),
{
    let cs = chars_of(s);
    let n = cs.len();
    let mut a: usize = 0;
    while a < n && cs[a] == '\0'
        invariant
            cs@ == s@,
            n == cs@.len(),
            a <= n,
            forall|k: int| 0 <= k < a ==> cs@[k] == '\0',
        decreases n - a,
    {
        a = a + 1;
    }
    proof {
        lemma_leading_nuls(s@, a as int);
    }
    let mut b: usize = n;
    while b > a && cs[b - 1] == '\0'
        invariant
            cs@ == s@,
            n == cs@.len(),
            a <= b <= n,
            forall|k: int| b <= k < n ==> cs@[k] == '\0',
        decreases b,
    {
        b = b - 1;
    }
    proof {
        let rest = s@.skip(a as int);
        assert forall|k: int| rest.len() - (n - b) <= k < rest.len() implies rest[k] == '\0' by {
            assert(rest[k] == cs@[a + k]);
        }
        if b > a {
            assert(rest[rest.len() - 1 - (n - b)] == cs@[b - 1]);
        }
        lemma_trailing_nuls(rest, (n - b) as int);
        assert(rest.take(rest.len() - (n - b)) =~= cs@.subrange(a as int, b as int));
    }
    string_of(&cs, a, b)
}

} // verus!
