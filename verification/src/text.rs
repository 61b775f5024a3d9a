//! Small verified text utilities shared by the codec, the router and the
//! dispatch surface: whitespace classification, blank-line detection, string
//! equality, trimming, decimal rendering and joining.

use vstd::prelude::*;
use vstd::string::*;

verus! {

/// Code points with the Unicode `White_Space` property, the set `str::trim`
/// and `char::is_whitespace` go by.
pub open spec fn is_ws_code(u: u32) -> bool {
    u == 0x20 || (0x09 <= u && u <= 0x0d) || u == 0x85 || u == 0xa0 || u == 0x1680 || (0x2000 <= u
        && u <= 0x200a) || u == 0x2028 || u == 0x2029 || u == 0x202f || u == 0x205f || u == 0x3000
}

/// Whether `c` is a whitespace character.
pub open spec fn is_ws_char(c: char) -> bool {
    is_ws_code(c as u32)
}

/// A line is blank when every character in it is whitespace (in particular,
/// an empty line is blank).
pub open spec fn blank(s: Seq<char>) -> bool {
    forall|i: int| 0 <= i < s.len() ==> is_ws_char(#[trigger] s[i])
}

/// Executable whitespace test.
pub fn ws_char(c: char) -> (r: bool)
    ensures
        r == is_ws_char(c),
{
    let u = c as u32;
    u == 0x20 || (0x09 <= u && u <= 0x0d) || u == 0x85 || u == 0xa0 || u == 0x1680 || (0x2000 <= u
        && u <= 0x200a) || u == 0x2028 || u == 0x2029 || u == 0x202f || u == 0x205f || u == 0x3000
}

/// Whether the line is empty or consists of whitespace only.
pub fn is_blank(s: &str) -> (r: bool)
    ensures
        r == blank(s@),
{
    let n = s.unicode_len();
    let mut i: usize = 0;
    while i < n
        invariant
            0 <= i <= n,
            n == s@.len(),
            forall|j: int| 0 <= j < i ==> is_ws_char(#[trigger] s@[j]),
        decreases n - i,
    {
        let c = s.get_char(i);
        if !ws_char(c) {
            return false;
        }
        i += 1;
    }
    true
}

/// String equality at the character level.
pub fn str_eq(a: &str, b: &str) -> (r: bool)
    ensures
        r == (a@ == b@),
{
    let x = a.to_owned();
    let y = b.to_owned();
    x == y
}

/// `t` is `s` with leading and trailing whitespace removed: a contiguous
/// piece of `s` bordered by whitespace on both sides, itself starting and
/// ending with non-whitespace (or empty, when `s` is blank).
pub open spec fn is_trimmed_of(t: Seq<char>, s: Seq<char>) -> bool {
    exists|lo: int, hi: int|
        {
            &&& 0 <= lo <= hi <= s.len()
            &&& t == s.subrange(lo, hi)
            &&& (forall|i: int| 0 <= i < lo ==> is_ws_char(#[trigger] s[i]))
            &&& (forall|i: int| hi <= i < s.len() ==> is_ws_char(#[trigger] s[i]))
            &&& (lo < hi ==> !is_ws_char(s[lo]) && !is_ws_char(s[hi - 1]))
            &&& (lo == hi ==> lo == 0)
        }
}

/// Remove leading and trailing whitespace.
pub fn trim_str(s: &str) -> (r: String)
    ensures
        is_trimmed_of(r@, s@),
        blank(s@) <==> r@.len() == 0,
{
    let n = s.unicode_len();
    let mut lo: usize = 0;
    while lo < n && ws_char(s.get_char(lo))
        invariant
            0 <= lo <= n,
            n == s@.len(),
            forall|j: int| 0 <= j < lo ==> is_ws_char(#[trigger] s@[j]),
        decreases n - lo,
    {
        lo += 1;
    }
    if lo == n {
        proof {
            assert(blank(s@));
            assert(Seq::<char>::empty() =~= s@.subrange(0, 0));
            assert(is_trimmed_of(Seq::<char>::empty(), s@)) by {
                assert({
                    &&& 0 <= 0 <= 0 <= s@.len()
                    &&& Seq::<char>::empty() == s@.subrange(0, 0)
                    &&& (forall|i: int| 0 <= i < 0 ==> is_ws_char(#[trigger] s@[i]))
                    &&& (forall|i: int| 0 <= i < s@.len() ==> is_ws_char(#[trigger] s@[i]))
                });
            }
        }
        return String::new();
    }
    let mut hi: usize = n;
    while hi > lo + 1 && ws_char(s.get_char(hi - 1))
        invariant
            lo < hi <= n,
            n == s@.len(),
            !is_ws_char(s@[lo as int]),
            forall|j: int| hi <= j < n ==> is_ws_char(#[trigger] s@[j]),
        decreases hi,
    {
        hi -= 1;
    }
    let piece = s.substring_char(lo, hi);
    let r = piece.to_owned();
    proof {
        if is_ws_char(s@[hi - 1]) {
            // only possible when hi == lo + 1, contradicting the non-whitespace
            // character at lo
            assert(hi == lo + 1);
            assert(false);
        }
        assert(r@ == s@.subrange(lo as int, hi as int));
        assert(!blank(s@));
        assert(r@.len() > 0);
    }
    r
}

/// The character for a decimal digit.
pub open spec fn dec_digit(d: nat) -> char {
    if d == 0 {
        '0'
    } else if d == 1 {
        '1'
    } else if d == 2 {
        '2'
    } else if d == 3 {
        '3'
    } else if d == 4 {
        '4'
    } else if d == 5 {
        '5'
    } else if d == 6 {
        '6'
    } else if d == 7 {
        '7'
    } else if d == 8 {
        '8'
    } else {
        '9'
    }
}

/// Decimal rendering of a natural number, most significant digit first.
pub open spec fn dec_str(n: nat) -> Seq<char>
    decreases n,
{
    if n < 10 {
        seq![dec_digit(n)]
    } else {
        dec_str(n / 10) + seq![dec_digit(n % 10)]
    }
}

/// One decimal digit as a string.
fn digit_str(d: u32) -> (r: String)
    requires
        d < 10,
    ensures
        r@ == seq![dec_digit(d as nat)],
{
    proof {
        reveal_strlit("0");
        reveal_strlit("1");
        reveal_strlit("2");
        reveal_strlit("3");
        reveal_strlit("4");
        reveal_strlit("5");
        reveal_strlit("6");
        reveal_strlit("7");
        reveal_strlit("8");
        reveal_strlit("9");
        assert("0"@ =~= seq!['0']);
        assert("1"@ =~= seq!['1']);
        assert("2"@ =~= seq!['2']);
        assert("3"@ =~= seq!['3']);
        assert("4"@ =~= seq!['4']);
        assert("5"@ =~= seq!['5']);
        assert("6"@ =~= seq!['6']);
        assert("7"@ =~= seq!['7']);
        assert("8"@ =~= seq!['8']);
        assert("9"@ =~= seq!['9']);
    }
    match d {
        0 => "0".to_owned(),
        1 => "1".to_owned(),
        2 => "2".to_owned(),
        3 => "3".to_owned(),
        4 => "4".to_owned(),
        5 => "5".to_owned(),
        6 => "6".to_owned(),
        7 => "7".to_owned(),
        8 => "8".to_owned(),
        _ => "9".to_owned(),
    }
}

/// Render an unsigned number in decimal.
pub fn u32_to_string(n: u32) -> (r: String)
    ensures
        r@ == dec_str(n as nat),
    decreases n,
{
    if n < 10 {
        digit_str(n)
    } else {
        let mut s = u32_to_string(n / 10);
        let d = digit_str(n % 10);
        s.append(d.as_str());
        s
    }
}

/// The character for a hexadecimal digit, lower case.
pub open spec fn hex_digit(d: nat) -> char {
    if d < 10 {
        dec_digit(d)
    } else if d == 10 {
        'a'
    } else if d == 11 {
        'b'
    } else if d == 12 {
        'c'
    } else if d == 13 {
        'd'
    } else if d == 14 {
        'e'
    } else {
        'f'
    }
}

/// One hexadecimal digit as a string.
pub fn hex_str(d: u32) -> (r: String)
    requires
        d < 16,
    ensures
        r@ == seq![hex_digit(d as nat)],
{
    if d < 10 {
        digit_str(d)
    } else {
        proof {
            reveal_strlit("a");
            reveal_strlit("b");
            reveal_strlit("c");
            reveal_strlit("d");
            reveal_strlit("e");
            reveal_strlit("f");
            assert("a"@ =~= seq!['a']);
            assert("b"@ =~= seq!['b']);
            assert("c"@ =~= seq!['c']);
            assert("d"@ =~= seq!['d']);
            assert("e"@ =~= seq!['e']);
            assert("f"@ =~= seq!['f']);
        }
        match d {
            10 => "a".to_owned(),
            11 => "b".to_owned(),
            12 => "c".to_owned(),
            13 => "d".to_owned(),
            14 => "e".to_owned(),
            _ => "f".to_owned(),
        }
    }
}

/// Join a sequence of strings with a separator between neighbours.
pub open spec fn joined(parts: Seq<Seq<char>>, sep: Seq<char>) -> Seq<char>
    decreases parts.len(),
{
    if parts.len() == 0 {
        Seq::empty()
    } else if parts.len() == 1 {
        parts[0]
    } else {
        parts[0] + sep + joined(parts.drop_first(), sep)
    }
}

/// Appending one more part extends the join by a separator and that part.
pub proof fn lemma_joined_push(parts: Seq<Seq<char>>, sep: Seq<char>, p: Seq<char>)
    ensures
        joined(parts.push(p), sep) == if parts.len() == 0 {
            p
        } else {
            joined(parts, sep) + sep + p
        },
    decreases parts.len(),
{
    if parts.len() == 0 {
        assert(parts.push(p).len() == 1);
        assert(parts.push(p)[0] == p);
    } else {
        assert(parts.push(p).drop_first() =~= parts.drop_first().push(p));
        lemma_joined_push(parts.drop_first(), sep, p);
        if parts.len() == 1 {
            assert(parts.push(p)[0] == parts[0]);
            assert(joined(parts.push(p), sep) == parts[0] + sep + p);
            assert(joined(parts, sep) == parts[0]);
        } else {
            assert(joined(parts.push(p), sep) == parts[0] + sep + joined(
                parts.drop_first().push(p),
                sep,
            ));
            assert(joined(parts.drop_first().push(p), sep) == joined(parts.drop_first(), sep) + sep
                + p);
            assert((parts[0] + sep + (joined(parts.drop_first(), sep) + sep + p)) =~= ((parts[0]
                + sep + joined(parts.drop_first(), sep)) + sep + p));
        }
    }
}

/// Join the views of a vector of strings.
pub fn join_strings(parts: &Vec<String>, sep: &str) -> (r: String)
    ensures
        r@ == joined(parts@.map_values(|p: String| p@), sep@),
{
    let ghost views = parts@.map_values(|p: String| p@);
    let mut r = String::new();
    let mut i: usize = 0;
    while i < parts.len()
        invariant
            0 <= i <= parts.len(),
            views == parts@.map_values(|p: String| p@),
            views.len() == parts@.len(),
            r@ == joined(views.take(i as int), sep@),
        decreases parts.len() - i,
    {
        proof {
            assert(views.take(i + 1) =~= views.take(i as int).push(views[i as int]));
            lemma_joined_push(views.take(i as int), sep@, views[i as int]);
            assert(views[i as int] == parts@[i as int]@);
        }
        if i > 0 {
            r.append(sep);
        } else {
            proof {
                assert(views.take(0) =~= Seq::<Seq<char>>::empty());
                assert(r@.len() == 0);
            }
        }
        r.append(parts[i].as_str());
        proof {
            if i == 0 {
                assert(r@ =~= views[0]);
            }
        }
        i += 1;
    }
    proof {
        assert(views.take(parts@.len() as int) =~= views);
    }
    r
}

} // verus!
