//! Deterministic barcode derivation.
//!
//! A location's barcode is `lw-<slug>-<id>`, where `<slug>` is the location's
//! name trimmed of surrounding whitespace, with every space replaced by a
//! hyphen, and ASCII letters lower-cased, and `<id>` is the store-assigned
//! identifier in decimal.

use crate::validation::is_space_char;
use crate::validation::is_space_char_exec;
use vstd::prelude::*;
use vstd::string::*;

verus! {

/// Lower-cases an ASCII letter; every other character is unchanged.
pub open spec fn lower_char(c: char) -> char {
    if 'A' <= c && c <= 'Z' {
        (((c as u8) + 32) as char)
    } else {
        c
    }
}

/// One character of the slug: a space becomes a hyphen, letters are
/// lower-cased.
pub open spec fn slug_char(c: char) -> char {
    if c == ' ' {
        '-'
    } else {
        lower_char(c)
    }
}

/// Drops leading whitespace.
pub open spec fn trim_start(s: Seq<char>) -> Seq<char>
    decreases s.len(),
{
    if s.len() > 0 && is_space_char(s[0]) {
        trim_start(s.drop_first())
    } else {
        s
    }
}

/// Drops trailing whitespace.
pub open spec fn trim_end(s: Seq<char>) -> Seq<char>
    decreases s.len(),
{
    if s.len() > 0 && is_space_char(s[s.len() - 1]) {
        trim_end(s.drop_last())
    } else {
        s
    }
}

/// Drops surrounding whitespace.
pub open spec fn trim(s: Seq<char>) -> Seq<char> {
    trim_end(trim_start(s))
}

/// Applies [`slug_char`] to every character.
pub open spec fn map_slug(s: Seq<char>) -> Seq<char> {
    Seq::new(s.len(), |i: int| slug_char(s[i]))
}

/// The slug of a name: trimmed, spaces to hyphens, lower-cased.
pub open spec fn slug(s: Seq<char>) -> Seq<char> {
    map_slug(trim(s))
}

/// The character for a single decimal digit.
pub open spec fn digit_char(d: int) -> char {
    if d == 0 {
        '0'
    } else if d == 1 {
        '1'
    } else if d == 2 {
        '2'
    } else if d == 3 {
        '3'
    } else if d == 4 {
        '4'
    } else if d == 5 {
        '5'
    } else if d == 6 {
        '6'
    } else if d == 7 {
        '7'
    } else if d == 8 {
        '8'
    } else {
        '9'
    }
}

/// The decimal digits of a non-negative number, most significant first.
pub open spec fn decimal_digits(n: int) -> Seq<char>
    decreases n,
{
    if n < 10 {
        seq![digit_char(n)]
    } else {
        decimal_digits(n / 10).push(digit_char(n % 10))
    }
}

/// The barcode derived from a name and a store-assigned identifier.
pub open spec fn barcode_chars(name: Seq<char>, id: int) -> Seq<char> {
    seq!['l', 'w', '-'] + slug(name) + seq!['-'] + decimal_digits(id)
}

/// Relies on `String::from_iter` over `char`: the resulting string holds
/// exactly the given characters, in order.
#[verifier::external_body]
fn chars_to_string(v: &Vec<char>) -> (r: String)
    ensures
        r@ == v@,
{
    v.iter().collect()
}

fn lower_char_exec(c: char) -> (r: char)
    ensures
        r == lower_char(c),
{
    if 'A' <= c && c <= 'Z' {
        ((c as u8) + 32) as char
    } else {
        c
    }
}

fn slug_char_exec(c: char) -> (r: char)
    ensures
        r == slug_char(c),
{
    if c == ' ' {
        '-'
    } else {
        lower_char_exec(c)
    }
}

fn digit_char_exec(d: u32) -> (r: char)
    requires
        d < 10,
    ensures
        r == digit_char(d as int),
{
    if d == 0 {
        '0'
    } else if d == 1 {
        '1'
    } else if d == 2 {
        '2'
    } else if d == 3 {
        '3'
    } else if d == 4 {
        '4'
    } else if d == 5 {
        '5'
    } else if d == 6 {
        '6'
    } else if d == 7 {
        '7'
    } else if d == 8 {
        '8'
    } else {
        '9'
    }
}

fn push_decimal_digits(n: u32, out: &mut Vec<char>)
    ensures
        final(out)@ == old(out)@ + decimal_digits(n as int),
    decreases n,
{
    if n < 10 {
        out.push(digit_char_exec(n));
        assert(out@ =~= old(out)@ + decimal_digits(n as int));
    } else {
        push_decimal_digits(n / 10, out);
        out.push(digit_char_exec(n % 10));
        assert(out@ =~= old(out)@ + decimal_digits(n as int));
    }
}

proof fn lemma_trim_start_subrange(s: Seq<char>, i: int)
    requires
        0 <= i <= s.len(),
        forall|k: int| 0 <= k < i ==> is_space_char(s[k]),
        i == s.len() || !is_space_char(s[i]),
    ensures
        trim_start(s) =~= s.subrange(i, s.len() as int),
    decreases i,
{
    if i == 0 {
        assert(trim_start(s) == s);
    } else {
        assert(is_space_char(s[0]));
        let t = s.drop_first();
        lemma_trim_start_subrange(t, i - 1);
        assert(t.subrange(i - 1, t.len() as int) =~= s.subrange(i, s.len() as int));
    }
}

proof fn lemma_trim_end_subrange(s: Seq<char>, j: int)
    requires
        0 <= j <= s.len(),
        forall|k: int| j <= k < s.len() ==> is_space_char(s[k]),
        j == 0 || !is_space_char(s[j - 1]),
    ensures
        trim_end(s) =~= s.subrange(0, j),
    decreases s.len() - j,
{
    if j == s.len() {
        assert(trim_end(s) == s);
    } else {
        assert(is_space_char(s[s.len() - 1]));
        let t = s.drop_last();
        lemma_trim_end_subrange(t, j);
        assert(t.subrange(0, j) =~= s.subrange(0, j));
    }
}

/// Derives the barcode `lw-<slug>-<id>` from a name and an identifier.
pub fn generate(name: &str, id: u32) -> (r: String)
    ensures
        r@ == barcode_chars(name@, id as int),
{
    let ghost s = name@;
    let n = name.unicode_len();
    let mut start: usize = 0;
    while start < n && is_space_char_exec(name.get_char(start))
        invariant
            s == name@,
            n == s.len(),
            0 <= start <= n,
            forall|k: int| 0 <= k < start ==> is_space_char(s[k]),
        decreases n - start,
    {
        start += 1;
    }
    let mut end: usize = n;
    while end > start && is_space_char_exec(name.get_char(end - 1))
        invariant
            s == name@,
            n == s.len(),
            0 <= start <= end <= n,
            forall|k: int| 0 <= k < start ==> is_space_char(s[k]),
            start == n || !is_space_char(s[start as int]),
            forall|k: int| end <= k < n ==> is_space_char(s[k]),
        decreases end,
    {
        end -= 1;
    }
    proof {
        lemma_trim_start_subrange(s, start as int);
        let t1 = s.subrange(start as int, s.len() as int);
        lemma_trim_end_subrange(t1, end - start);
        assert(trim(s) =~= s.subrange(start as int, end as int));
    }
    let mut out: Vec<char> = Vec::new();
    out.push('l');
    out.push('w');
    out.push('-');
    let mut i: usize = start;
    while i < end
        invariant
            s == name@,
            n == s.len(),
            0 <= start <= i <= end <= n,
            out@ =~= seq!['l', 'w', '-'] + map_slug(s.subrange(start as int, i as int)),
        decreases end - i,
    {
        let c = slug_char_exec(name.get_char(i));
        out.push(c);
        proof {
            assert(map_slug(s.subrange(start as int, i + 1)) =~= map_slug(
                s.subrange(start as int, i as int),
            ).push(slug_char(s[i as int])));
        }
        i += 1;
    }
    out.push('-');
    push_decimal_digits(id, &mut out);
    let r = chars_to_string(&out);
    proof {
        assert(r@ =~= barcode_chars(s, id as int));
    }
    r
}

} // verus!
