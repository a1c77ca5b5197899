//! Small text helpers shared by the components.

use vstd::prelude::*;

verus! {

/// An exact copy of a text that may be absent.
pub(crate) fn copy_text(t: &Option<String>) -> (r: Option<String>)
    ensures
        r == *t,
{
    match t {
        Some(s) => Some(s.clone()),
        None => None,
    }
}

/// Whether two texts are equal.
pub fn str_eq(a: &str, b: &str) -> (r: bool)
    ensures
        r == (a@ == b@),
{
    let x = a.to_owned();
    let y = b.to_owned();
    x == y
}

/// Calls `String::push`, which appends `c` to the text.
#[verifier::external_body]
pub fn push_char(s: &mut String, c: char)
    ensures
        final(s)@ == old(s)@.push(c),
{
    s.push(c);
}

/// Calls `String::pop`, which removes the last character of the text and
/// returns it, or returns `None` when the text is empty.
#[verifier::external_body]
pub fn pop_char(s: &mut String) -> (r: Option<char>)
    ensures
        old(s)@.len() == 0 ==> r is None && final(s)@ == old(s)@,
        old(s)@.len() > 0 ==> r == Some(old(s)@.last()) && final(s)@ == old(s)@.drop_last(),
{
    s.pop()
}

/// The characters of a text.
pub fn chars_of(s: &str) -> (r: Vec<char>)
    ensures
        r@ == s@,
{
    let n = s.unicode_len();
    let mut out: Vec<char> = Vec::new();
    let mut i: usize = 0;
    while i < n
        invariant
            n == s@.len(),
            i <= n,
            out@ == s@.take(i as int),
        decreases n - i,
    {
        out.push(s.get_char(i));
        assert(out@ =~= s@.take(i + 1));
        i += 1;
    }
    assert(out@ =~= s@);
    out
}

/// Whether `needle` occurs in `hay` at position `i`.
pub open spec fn occurs_at(hay: Seq<char>, needle: Seq<char>, i: int) -> bool {
    0 <= i && i + needle.len() <= hay.len() && hay.subrange(i, i + needle.len()) == needle
}

/// Whether `needle` occurs in `hay`.
pub open spec fn text_contains_spec(hay: Seq<char>, needle: Seq<char>) -> bool {
    exists|i: int| occurs_at(hay, needle, i)
}

/// Whether `needle` occurs in `hay`.
pub fn text_contains(hay: &str, needle: &str) -> (r: bool)
    ensures
        r == text_contains_spec(hay@, needle@),
{
    let h = chars_of(hay);
    let n = chars_of(needle);
    if n.len() > h.len() {
        assert forall|i: int| !occurs_at(hay@, needle@, i) by {}
        return false;
    }
    let hl = h.len();
    let last = hl - n.len();
    let mut i: usize = 0;
    while i <= last
        invariant
            h@ == hay@,
            n@ == needle@,
            hl == h@.len(),
            last == h@.len() - n@.len(),
            forall|k: int| 0 <= k < i ==> !occurs_at(hay@, needle@, k),
        decreases last + 1 - i,
    {
        let mut j: usize = 0;
        let mut same = true;
        while j < n.len()
            invariant
                h@ == hay@,
                n@ == needle@,
                i <= last,
                last == h@.len() - n@.len(),
                j <= n@.len(),
                hl == h@.len(),
                i + n@.len() <= h@.len(),
                same == (forall|k: int| 0 <= k < j ==> h@[i + k] == n@[k]),
            decreases n@.len() - j,
        {
            if h[i + j] != n[j] {
                same = false;
            }
            j += 1;
        }
        if same {
            assert(hay@.subrange(i as int, i + needle@.len()) =~= needle@);
            assert(occurs_at(hay@, needle@, i as int));
            return true;
        }
        proof {
            let k = choose|k: int| 0 <= k < n@.len() && h@[i + k] != n@[k];
            assert(hay@.subrange(i as int, i + needle@.len())[k] != needle@[k]);
        }
        if i == last {
            assert forall|k: int| !occurs_at(hay@, needle@, k) by {
                if 0 <= k <= last {
                    assert(k <= i);
                }
            }
            return false;
        }
        i += 1;
    }
    false
}

/// The decimal digit character of `d`, below ten.
pub open spec fn digit_char(d: nat) -> char {
    if d == 0 { '0' } else if d == 1 { '1' } else if d == 2 { '2' } else if d == 3 { '3' } else if d == 4 { '4' }
    else if d == 5 { '5' } else if d == 6 { '6' } else if d == 7 { '7' } else if d == 8 { '8' } else { '9' }
}

/// The decimal writing of `n`.
pub open spec fn decimal(n: nat) -> Seq<char>
    decreases n,
{
    if n < 10 {
        seq![digit_char(n)]
    } else {
        decimal(n / 10).push(digit_char(n % 10))
    }
}

fn digit(d: u64) -> (r: char)
    requires
        d < 10,
    ensures
        r == digit_char(d as nat),
{
    if d == 0 { '0' } else if d == 1 { '1' } else if d == 2 { '2' } else if d == 3 { '3' } else if d == 4 { '4' }
    else if d == 5 { '5' } else if d == 6 { '6' } else if d == 7 { '7' } else if d == 8 { '8' } else { '9' }
}

/// The decimal writing of `n`.
pub fn decimal_text(n: u64) -> (r: String)
    ensures
        r@ == decimal(n as nat),
    decreases n,
{
    if n < 10 {
        let mut s = String::new();
        push_char(&mut s, digit(n));
        assert(s@ =~= seq![digit_char(n as nat)]);
        s
    } else {
        let mut s = decimal_text(n / 10);
        push_char(&mut s, digit(n % 10));
        s
    }
}

/// Texts joined with `sep` between them.
pub open spec fn join_with(s: Seq<Seq<char>>, sep: Seq<char>) -> Seq<char>
    decreases s.len(),
{
    if s.len() == 0 {
        Seq::empty()
    } else if s.len() == 1 {
        s[0]
    } else {
        join_with(s.drop_last(), sep) + sep + s.last()
    }
}

/// The views of a sequence of strings.
pub open spec fn strings_view(s: Seq<String>) -> Seq<Seq<char>> {
    s.map_values(|x: String| x@)
}

/// The strings joined with `sep` between them.
pub fn join_strings(v: &Vec<String>, sep: &str) -> (r: String)
    ensures
        r@ == join_with(strings_view(v@), sep@),
{
    let ghost s = strings_view(v@);
    let mut out = String::new();
    let mut i: usize = 0;
    while i < v.len()
        invariant
            i <= v@.len(),
            s == strings_view(v@),
            out@ == join_with(s.take(i as int), sep@),
        decreases v@.len() - i,
    {
        assert(s.take(i + 1).drop_last() =~= s.take(i as int));
        if i > 0 {
            out.append(sep);
        }
        out.append(v[i].as_str());
        proof {
            if i == 0 {
                assert(out@ =~= join_with(s.take(1), sep@));
            } else {
                assert(out@ =~= join_with(s.take(i + 1), sep@));
            }
        }
        i += 1;
    }
    assert(s.take(i as int) =~= s);
    out
}

/// The lower-case form of a text, as `str::to_lowercase` gives it.
pub uninterp spec fn lowercase(s: Seq<char>) -> Seq<char>;

/// Calls `str::to_lowercase`, whose result depends on the text alone; it is
/// named `lowercase`.
#[verifier::external_body]
pub fn to_lowercase(s: &str) -> (r: String)
    ensures
        r@ == lowercase(s@),
{
    s.to_lowercase()
}

/// The number of bytes of a character in UTF-8.
pub open spec fn utf8_width(c: char) -> nat {
    if (c as u32) < 0x80 { 1 } else if (c as u32) < 0x800 { 2 } else if (c as u32) < 0x10000 { 3 } else { 4 }
}

/// The number of bytes of a text in UTF-8.
pub open spec fn utf8_length(s: Seq<char>) -> nat
    decreases s.len(),
{
    if s.len() == 0 {
        0
    } else {
        utf8_length(s.drop_last()) + utf8_width(s.last())
    }
}

/// The number of bytes of a text in UTF-8, which is what `str::len` counts.
pub fn utf8_len(s: &str) -> (r: u128)
    ensures
        r == utf8_length(s@),
{
    let cs = chars_of(s);
    let mut total: u128 = 0;
    let mut i: usize = 0;
    while i < cs.len()
        invariant
            cs@ == s@,
            i <= cs@.len(),
            total == utf8_length(s@.take(i as int)),
            total <= 4 * i,
        decreases cs@.len() - i,
    {
        assert(s@.take(i + 1).drop_last() =~= s@.take(i as int));
        let c = cs[i] as u32;
        let w: u128 = if c < 0x80 { 1 } else if c < 0x800 { 2 } else if c < 0x10000 { 3 } else { 4 };
        total = total + w;
        i += 1;
    }
    assert(s@.take(i as int) =~= s@);
    total
}

/// The number of bytes of a sequence of characters in UTF-8.
pub fn utf8_len_of(cs: &Vec<char>) -> (r: u128)
    ensures
        r == utf8_length(cs@),
{
    let mut total: u128 = 0;
    let mut i: usize = 0;
    while i < cs.len()
        invariant
            i <= cs@.len(),
            total == utf8_length(cs@.take(i as int)),
            total <= 4 * i,
        decreases cs@.len() - i,
    {
        assert(cs@.take(i + 1).drop_last() =~= cs@.take(i as int));
        let c = cs[i] as u32;
        let w: u128 = if c < 0x80 { 1 } else if c < 0x800 { 2 } else if c < 0x10000 { 3 } else { 4 };
        total = total + w;
        i += 1;
    }
    assert(cs@.take(i as int) =~= cs@);
    total
}

} // verus!
