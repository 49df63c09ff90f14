use vstd::prelude::*;
use vstd::string::StrSliceExecFns;

verus! {

/// The upper-case hexadecimal digit of `d` (0 to 15).
pub open spec fn hex_digit(d: nat) -> char {
    if d < 10 { (48 + d) as char } else { (55 + d) as char }
}

/// `n` in upper-case hexadecimal with leading zeros up to `width` digits: what the format
/// `{:0width$X}` prints for a width of at least one.
pub open spec fn hex(n: nat, width: nat) -> Seq<char>
    decreases n + width,
{
    if n == 0 && width == 0 {
        Seq::empty()
    } else {
        hex(n / 16, if width > 0 { (width - 1) as nat } else { 0 }).push(hex_digit(n % 16))
    }
}

/// `n` spaces.
pub open spec fn spaces(n: nat) -> Seq<char> {
    Seq::new(n, |i: int| ' ')
}

/// `s` left-aligned in a field of `width` characters: what the format `{:width}` prints
/// for a string.
pub open spec fn padded(s: Seq<char>, width: nat) -> Seq<char> {
    if s.len() < width { s + spaces((width - s.len()) as nat) } else { s }
}

/// `s` without its trailing spaces.
pub open spec fn trimmed_end(s: Seq<char>) -> Seq<char>
    decreases s.len(),
{
    if s.len() > 0 && s.last() == ' ' { trimmed_end(s.drop_last()) } else { s }
}

/// The character of hexadecimal digit `d`.
pub fn hex_digit_char(d: u8) -> (c: char)
    requires
        d < 16,
    ensures
        c == hex_digit(d as nat),
{
    if d < 10 {
        (48u8 + d) as char
    } else {
        (55u8 + d) as char
    }
}

/// Appends `n` in hexadecimal with at least `width` digits (see `hex`).
pub fn push_hex(out: &mut Vec<char>, n: u64, width: usize)
    ensures
        final(out)@ == old(out)@ + hex(n as nat, width as nat),
    decreases n + width,
{
    if n == 0 && width == 0 {
        assert(old(out)@ + hex(0, 0) =~= old(out)@);
        return;
    }
    let rest: usize = if width > 0 { width - 1 } else { 0 };
    push_hex(out, n / 16, rest);
    let c: char = hex_digit_char((n % 16) as u8);
    out.push(c);
    proof {
        let h: Seq<char> = hex((n / 16) as nat, rest as nat);
        assert(hex(n as nat, width as nat) == h.push(hex_digit((n % 16) as nat)));
        assert(old(out)@ + h.push(c) =~= (old(out)@ + h).push(c));
    }
}

/// Appends the characters of `s`.
pub fn push_str(out: &mut Vec<char>, s: &str)
    ensures
        final(out)@ == old(out)@ + s@,
{
    let n: usize = s.unicode_len();
    let mut i: usize = 0;
    while i < n
        invariant
            n == s@.len(),
            i <= n,
            out@ == old(out)@ + s@.subrange(0, i as int),
        decreases n - i,
    {
        let c: char = s.get_char(i);
        out.push(c);
        i = i + 1;
        assert(s@.subrange(0, i as int) =~= s@.subrange(0, i - 1).push(c));
    }
    assert(s@.subrange(0, n as int) =~= s@);
}

/// Appends the characters of `s`.
pub fn push_all(out: &mut Vec<char>, s: &Vec<char>)
    ensures
        final(out)@ == old(out)@ + s@,
{
    let mut i: usize = 0;
    while i < s.len()
        invariant
            i <= s.len(),
            out@ == old(out)@ + s@.subrange(0, i as int),
        decreases s.len() - i,
    {
        out.push(s[i]);
        i = i + 1;
        assert(s@.subrange(0, i as int) =~= s@.subrange(0, i - 1).push(s@[i - 1]));
    }
    assert(s@.subrange(0, s.len() as int) =~= s@);
}

/// Pads `s` with spaces to `width` characters (see `padded`).
pub fn pad(s: &mut Vec<char>, width: usize)
    ensures
        final(s)@ == padded(old(s)@, width as nat),
{
    while s.len() < width
        invariant
            old(s)@.len() <= s@.len(),
            s@ == old(s)@ + spaces((s@.len() - old(s)@.len()) as nat),
            old(s)@.len() < width ==> s@.len() <= width,
            old(s)@.len() >= width ==> s@.len() == old(s)@.len(),
        decreases width - s.len(),
    {
        s.push(' ');
        assert(old(s)@ + spaces((s@.len() - old(s)@.len()) as nat) =~= s@);
    }
    proof {
        if old(s)@.len() >= width {
            assert(s@ =~= old(s)@);
        }
    }
}

/// Removes the trailing spaces of `s` (see `trimmed_end`).
pub fn trim_end(s: &mut Vec<char>)
    ensures
        final(s)@ == trimmed_end(old(s)@),
{
    while s.len() > 0 && s[s.len() - 1] == ' '
        invariant
            trimmed_end(s@) == trimmed_end(old(s)@),
        decreases s.len(),
    {
        let ghost before: Seq<char> = s@;
        s.pop();
        assert(s@ =~= before.drop_last());
    }
}

/// `c` with an ASCII lower-case letter made upper case.
pub open spec fn ascii_upper_char(c: char) -> char {
    if 'a' <= c <= 'z' { ((c as u32) - 32) as char } else { c }
}

/// `s` with every ASCII lower-case letter made upper case.
pub open spec fn ascii_upper(s: Seq<char>) -> Seq<char> {
    s.map_values(|c: char| ascii_upper_char(c))
}

/// Makes every ASCII lower-case letter of `s` upper case (see `ascii_upper`).
pub fn make_ascii_upper(s: &mut Vec<char>)
    ensures
        final(s)@ == ascii_upper(old(s)@),
{
    let mut i: usize = 0;
    while i < s.len()
        invariant
            i <= s@.len(),
            s@.len() == old(s)@.len(),
            forall|k: int| 0 <= k < i ==> #[trigger] s@[k] == ascii_upper_char(old(s)@[k]),
            forall|k: int| i <= k < s@.len() ==> #[trigger] s@[k] == old(s)@[k],
        decreases s@.len() - i,
    {
        let c: char = s[i];
        if 'a' <= c && c <= 'z' {
            let upper: char = ((c as u8) - 32) as char;
            assert(upper == ascii_upper_char(c));
            s.set(i, upper);
        }
        i = i + 1;
    }
    assert(s@ =~= ascii_upper(old(s)@));
}

/// The text made of `chars`, in order. Trusted: std's `FromIterator<char>` for `String`
/// collects the characters of the iterator, in order, into a new string.
#[verifier::external_body]
pub fn to_text(chars: &Vec<char>) -> (text: String)
    ensures
        text@ == chars@,
{
    chars.iter().collect()
}

} // verus!
