//! Character-level pieces of the message text: quoted strings, decimal
//! numbers and single characters, each read back exactly as written.
use vstd::prelude::*;
use vstd::std_specs::iter::IteratorSpec;

verus! {

broadcast use vstd::string::axiom_spec_iter;

/// Relies on `String::push`: appends the character at the end of the string.
#[verifier::external_body]
pub(crate) fn push_char(s: &mut String, c: char)
    ensures
        final(s)@ == old(s)@.push(c),
{
    s.push(c)
}

/// The characters of `s`, in order.
pub fn chars_of(s: &str) -> (v: Vec<char>)
    ensures
        v@ == s@,
{
    let mut v: Vec<char> = Vec::new();
    for c in it: s.chars()
        invariant
            it.seq() == s@,
            v@ == s@.subrange(0, it.index() as int),
    {
        v.push(c);
    }
    assert(v@ =~= s@);
    v
}

} // verus!

verus! {

// ---------------------------------------------------------------------------
// Quoted strings
// ---------------------------------------------------------------------------
/// Lower-case hexadecimal digit of `n` (`n < 16`).
pub open spec fn hex_digit(n: int) -> char {
    if n < 10 {
        (n + 48) as char
    } else {
        (n + 87) as char
    }
}

/// The text that stands for one character inside a quoted string.
pub open spec fn escape_char(c: char) -> Seq<char> {
    if c == '"' {
        seq!['\\', '"']
    } else if c == '\\' {
        seq!['\\', '\\']
    } else if c == '\n' {
        seq!['\\', 'n']
    } else if c == '\r' {
        seq!['\\', 'r']
    } else if c == '\t' {
        seq!['\\', 't']
    } else if c == '\x08' {
        seq!['\\', 'b']
    } else if c == '\x0c' {
        seq!['\\', 'f']
    } else if (c as u32) < 32 {
        seq!['\\', 'u', '0', '0', hex_digit((c as u32) as int / 16), hex_digit((c as u32) as int % 16)]
    } else {
        seq![c]
    }
}

/// The escaped form of a whole character sequence.
pub open spec fn escape(s: Seq<char>) -> Seq<char>
    decreases s.len(),
{
    if s.len() == 0 {
        Seq::empty()
    } else {
        escape(s.drop_last()) + escape_char(s.last())
    }
}

/// A string as it stands in the text: quoted and escaped.
#[verifier::opaque]
pub open spec fn quoted(s: Seq<char>) -> Seq<char> {
    seq!['"'] + escape(s) + seq!['"']
}

/// Value of a hexadecimal digit, or -1 where `c` is none.
pub open spec fn hex_value(c: char) -> int {
    if '0' <= c && c <= '9' {
        c as u32 as int - 48
    } else if 'a' <= c && c <= 'f' {
        c as u32 as int - 87
    } else if 'A' <= c && c <= 'F' {
        c as u32 as int - 55
    } else {
        -1
    }
}

/// The character that a two-character escape `\x` stands for, if `x` names one.
pub open spec fn short_escape(x: char) -> Option<char> {
    if x == '"' {
        Some('"')
    } else if x == '\\' {
        Some('\\')
    } else if x == '/' {
        Some('/')
    } else if x == 'n' {
        Some('\n')
    } else if x == 'r' {
        Some('\r')
    } else if x == 't' {
        Some('\t')
    } else if x == 'b' {
        Some('\x08')
    } else if x == 'f' {
        Some('\x0c')
    } else {
        None
    }
}

/// Whether `t[p..p + 6]` is an escape `\u00XY`.
pub open spec fn is_byte_escape(t: Seq<char>, p: int) -> bool {
    &&& 0 <= p
    &&& p + 6 <= t.len()
    &&& t[p] == '\\'
    &&& t[p + 1] == 'u'
    &&& t[p + 2] == '0'
    &&& t[p + 3] == '0'
    &&& hex_value(t[p + 4]) >= 0
    &&& hex_value(t[p + 5]) >= 0
}

/// The character of the escape `\u00XY` at `p`.
pub open spec fn byte_escape_char(t: Seq<char>, p: int) -> char {
    ((16 * hex_value(t[p + 4]) + hex_value(t[p + 5])) as u32) as char
}

/// Reads the body of a quoted string that starts at `p` (just after the opening
/// quote): the characters it stands for, and the position after the closing quote.
pub open spec fn parse_chars(t: Seq<char>, p: int) -> Option<(Seq<char>, int)>
    decreases t.len() - p,
{
    if p < 0 || p >= t.len() {
        None
    } else if t[p] == '"' {
        Some((Seq::empty(), p + 1))
    } else if t[p] == '\\' {
        if p + 1 < t.len() && short_escape(t[p + 1]) is Some {
            match parse_chars(t, p + 2) {
                Some((s, q)) => Some((seq![short_escape(t[p + 1])->0] + s, q)),
                None => None,
            }
        } else if is_byte_escape(t, p) {
            match parse_chars(t, p + 6) {
                Some((s, q)) => Some((seq![byte_escape_char(t, p)] + s, q)),
                None => None,
            }
        } else {
            None
        }
    } else if (t[p] as u32) < 32 {
        None
    } else {
        match parse_chars(t, p + 1) {
            Some((s, q)) => Some((seq![t[p]] + s, q)),
            None => None,
        }
    }
}

/// Reads a quoted string at `p`, opening quote included.
#[verifier::opaque]
pub open spec fn parse_quoted(t: Seq<char>, p: int) -> Option<(Seq<char>, int)> {
    if 0 <= p < t.len() && t[p] == '"' {
        parse_chars(t, p + 1)
    } else {
        None
    }
}

proof fn lemma_escape_append(a: Seq<char>, b: Seq<char>)
    ensures
        escape(a + b) == escape(a) + escape(b),
    decreases b.len(),
{
    if b.len() == 0 {
        assert(a + b =~= a);
        assert(escape(b) =~= Seq::<char>::empty());
        assert(escape(a) + escape(b) =~= escape(a));
    } else {
        lemma_escape_append(a, b.drop_last());
        assert((a + b).drop_last() =~= a + b.drop_last());
        assert((a + b).last() == b.last());
        assert(escape(a) + escape(b) =~= escape(a) + escape(b.drop_last()) + escape_char(b.last()));
    }
}

proof fn lemma_escape_first(s: Seq<char>)
    requires
        s.len() > 0,
    ensures
        escape(s) == escape_char(s[0]) + escape(s.drop_first()),
{
    assert(s =~= seq![s[0]] + s.drop_first());
    lemma_escape_append(seq![s[0]], s.drop_first());
    assert(seq![s[0]].drop_last() =~= Seq::<char>::empty());
    assert(escape(Seq::<char>::empty()) =~= Seq::<char>::empty());
    assert(seq![s[0]].last() == s[0]);
    assert(escape(seq![s[0]]) =~= escape_char(s[0]));
}

proof fn lemma_char_u32(c: char)
    ensures
        ((c as u32) as char) == c,
{
}

proof fn lemma_hex_round(v: int)
    requires
        0 <= v < 32,
    ensures
        hex_value(hex_digit(v / 16)) == v / 16,
        hex_value(hex_digit(v % 16)) == v % 16,
        16 * (v / 16) + v % 16 == v,
{
}

/// Reading back the escaped form of `s`, followed by a closing quote, gives `s`.
pub proof fn lemma_parse_escaped(s: Seq<char>, t: Seq<char>, p: int)
    requires
        0 <= p,
        p + escape(s).len() + 1 <= t.len(),
        t.subrange(p, p + escape(s).len() + 1) == escape(s) + seq!['"'],
    ensures
        parse_chars(t, p) == Some((s, p + escape(s).len() + 1)),
    decreases s.len(),
{
    let e = escape(s);
    assert(t[p + e.len()] == (e + seq!['"'])[e.len() as int]);
    if s.len() == 0 {
        assert(e.len() == 0);
        assert(t[p] == '"');
    } else {
        lemma_escape_first(s);
        let c = s[0];
        let rest = s.drop_first();
        let ec = escape_char(c);
        let er = escape(rest);
        assert(e == ec + er);
        assert forall|i: int| 0 <= i < ec.len() implies t[p + i] == ec[i] by {
            assert(t.subrange(p, p + e.len() + 1)[i] == t[p + i]);
            assert((e + seq!['"'])[i] == e[i]);
        }
        let w = ec.len() as int;
        assert(t.subrange(p + w, p + w + er.len() + 1) =~= er + seq!['"']) by {
            assert forall|i: int| 0 <= i < er.len() + 1 implies t.subrange(
                p + w,
                p + w + er.len() + 1,
            )[i] == (er + seq!['"'])[i] by {
                assert(t.subrange(p, p + e.len() + 1)[w + i] == t[p + w + i]);
                assert((e + seq!['"'])[w + i] == (er + seq!['"'])[i]);
            }
        }
        lemma_parse_escaped(rest, t, p + w);
        if (c as u32) < 32 && c != '\n' && c != '\r' && c != '\t' && c != '\x08' && c != '\x0c' {
            lemma_hex_round(c as u32 as int);
            assert(t[p + 4] == hex_digit((c as u32) as int / 16));
            assert(is_byte_escape(t, p));
            let v = c as u32 as int;
            assert(t[p + 5] == hex_digit(v % 16));
            assert(16 * hex_value(t[p + 4]) + hex_value(t[p + 5]) == v);
            assert((v as u32) == c as u32);
            lemma_char_u32(c);
            assert(byte_escape_char(t, p) == c);
        }
        assert(seq![c] + rest =~= s);
    }
}

/// Reading back a quoted string gives the string, and the position after it.
pub proof fn lemma_parse_quoted(s: Seq<char>, t: Seq<char>, p: int)
    requires
        0 <= p,
        p + quoted(s).len() <= t.len(),
        t.subrange(p, p + quoted(s).len()) == quoted(s),
    ensures
        parse_quoted(t, p) == Some((s, p + quoted(s).len())),
{
    reveal(quoted);
    reveal(parse_quoted);
    let e = escape(s);
    assert(t[p] == t.subrange(p, p + quoted(s).len())[0]);
    assert(t.subrange(p + 1, p + 1 + e.len() + 1) =~= e + seq!['"']) by {
        assert forall|i: int| 0 <= i < e.len() + 1 implies t.subrange(p + 1, p + 1 + e.len() + 1)[i]
            == (e + seq!['"'])[i] by {
            assert(t.subrange(p, p + quoted(s).len())[1 + i] == t[p + 1 + i]);
            assert(quoted(s)[1 + i] == (e + seq!['"'])[i]);
        }
    }
    lemma_parse_escaped(s, t, p + 1);
}

} // verus!

verus! {

fn hex_digit_of(n: u32) -> (c: char)
    requires
        n < 16,
    ensures
        c == hex_digit(n as int),
{
    if n < 10 {
        ((n as u8) + 48) as char
    } else {
        ((n as u8) + 87) as char
    }
}

/// Appends the escaped form of `c`.
pub fn push_escaped_char(out: &mut String, c: char)
    ensures
        final(out)@ == old(out)@ + escape_char(c),
{
    let ghost start = out@;
    if c == '"' {
        push_char(out, '\\');
        push_char(out, '"');
    } else if c == '\\' {
        push_char(out, '\\');
        push_char(out, '\\');
    } else if c == '\n' {
        push_char(out, '\\');
        push_char(out, 'n');
    } else if c == '\r' {
        push_char(out, '\\');
        push_char(out, 'r');
    } else if c == '\t' {
        push_char(out, '\\');
        push_char(out, 't');
    } else if c == '\x08' {
        push_char(out, '\\');
        push_char(out, 'b');
    } else if c == '\x0c' {
        push_char(out, '\\');
        push_char(out, 'f');
    } else if (c as u32) < 32 {
        let v = c as u32;
        push_char(out, '\\');
        push_char(out, 'u');
        push_char(out, '0');
        push_char(out, '0');
        push_char(out, hex_digit_of(v / 16));
        push_char(out, hex_digit_of(v % 16));
    } else {
        push_char(out, c);
    }
    assert(out@ =~= start + escape_char(c));
}

/// Appends `s` quoted and escaped.
pub fn push_quoted(out: &mut String, s: &str)
    ensures
        final(out)@ == old(out)@ + quoted(s@),
{
    proof {
        reveal(quoted);
    }
    let ghost start = out@;
    let cs = chars_of(s);
    push_char(out, '"');
    let mut i: usize = 0;
    while i < cs.len()
        invariant
            i <= cs@.len(),
            cs@ == s@,
            out@ == start + seq!['"'] + escape(cs@.subrange(0, i as int)),
        decreases cs@.len() - i,
    {
        proof {
            let a = cs@.subrange(0, i as int + 1);
            assert(a.drop_last() =~= cs@.subrange(0, i as int));
            assert(a.last() == cs@[i as int]);
        }
        push_escaped_char(out, cs[i]);
        i = i + 1;
    }
    push_char(out, '"');
    assert(cs@.subrange(0, i as int) =~= s@);
    assert(out@ =~= start + quoted(s@));
}

fn short_escape_of(x: char) -> (r: Option<char>)
    ensures
        r == short_escape(x),
{
    if x == '"' {
        Some('"')
    } else if x == '\\' {
        Some('\\')
    } else if x == '/' {
        Some('/')
    } else if x == 'n' {
        Some('\n')
    } else if x == 'r' {
        Some('\r')
    } else if x == 't' {
        Some('\t')
    } else if x == 'b' {
        Some('\x08')
    } else if x == 'f' {
        Some('\x0c')
    } else {
        None
    }
}

fn hex_value_of(c: char) -> (r: i32)
    ensures
        r as int == hex_value(c),
{
    if '0' <= c && c <= '9' {
        (c as u32 - 48) as i32
    } else if 'a' <= c && c <= 'f' {
        (c as u32 - 87) as i32
    } else if 'A' <= c && c <= 'F' {
        (c as u32 - 55) as i32
    } else {
        -1
    }
}

/// Reads the body of a quoted string at `p` (after the opening quote).
pub fn read_chars(t: &Vec<char>, p: usize) -> (r: Option<(String, usize)>)
    ensures
        r matches Some((s, q)) ==> parse_chars(t@, p as int) == Some((s@, q as int)),
        r is None ==> parse_chars(t@, p as int) is None,
{
    let mut out = String::new();
    let mut i = p;
    loop
        invariant
            p <= i,
            parse_chars(t@, p as int) == match parse_chars(t@, i as int) {
                Some((s, q)) => Some((out@ + s, q)),
                None => None,
            },
        decreases t@.len() - i,
    {
        if i >= t.len() {
            return None;
        }
        let c = t[i];
        if c == '"' {
            assert(out@ + Seq::<char>::empty() =~= out@);
            return Some((out, i + 1));
        } else if c == '\\' {
            if i + 1 < t.len() {
                if let Some(d) = short_escape_of(t[i + 1]) {
                    proof {
                        assert forall|s: Seq<char>| out@ + (seq![d] + s) =~= out@.push(d) + s by {}
                    }
                    push_char(&mut out, d);
                    i = i + 2;
                    continue;
                }
            }
            if t.len() - i >= 6 && t[i + 1] == 'u' && t[i + 2] == '0' && t[i + 3] == '0' {
                let h1 = hex_value_of(t[i + 4]);
                let h2 = hex_value_of(t[i + 5]);
                if h1 >= 0 && h2 >= 0 {
                    let d = ((16 * h1 + h2) as u32 as u8) as char;
                    proof {
                        assert(d == byte_escape_char(t@, i as int));
                        assert forall|s: Seq<char>| out@ + (seq![d] + s) =~= out@.push(d) + s by {}
                    }
                    push_char(&mut out, d);
                    i = i + 6;
                    continue;
                }
            }
            return None;
        } else if (c as u32) < 32 {
            return None;
        } else {
            proof {
                assert forall|s: Seq<char>| out@ + (seq![c] + s) =~= out@.push(c) + s by {}
            }
            push_char(&mut out, c);
            i = i + 1;
        }
    }
}

/// Reads a quoted string at `p`, opening quote included.
pub fn read_quoted(t: &Vec<char>, p: usize) -> (r: Option<(String, usize)>)
    ensures
        r matches Some((s, q)) ==> parse_quoted(t@, p as int) == Some((s@, q as int)),
        r is None ==> parse_quoted(t@, p as int) is None,
{
    proof {
        reveal(parse_quoted);
    }
    if p < t.len() && t[p] == '"' {
        read_chars(t, p + 1)
    } else {
        None
    }
}

} // verus!

verus! {

// ---------------------------------------------------------------------------
// Decimal numbers and fixed text
// ---------------------------------------------------------------------------
pub open spec fn digit_char(d: int) -> char {
    (d + 48) as char
}

pub open spec fn is_digit(c: char) -> bool {
    '0' <= c && c <= '9'
}

/// Decimal text of `n`, without leading zeros.
#[verifier::opaque]
pub open spec fn digits(n: nat) -> Seq<char>
    decreases n,
{
    if n < 10 {
        seq![digit_char(n as int)]
    } else {
        digits(n / 10).push(digit_char((n % 10) as int))
    }
}

/// Value of a sequence of decimal digits.
pub open spec fn value_of(s: Seq<char>) -> int
    decreases s.len(),
{
    if s.len() == 0 {
        0
    } else {
        value_of(s.drop_last()) * 10 + (s.last() as u32 as int - 48)
    }
}

/// First position at or after `p` that holds no digit.
pub open spec fn digit_run_end(t: Seq<char>, p: int) -> int
    decreases t.len() - p,
{
    if 0 <= p < t.len() && is_digit(t[p]) {
        digit_run_end(t, p + 1)
    } else {
        p
    }
}

/// Reads a `u32` in canonical decimal form at `p`: the value and the position after it.
#[verifier::opaque]
pub open spec fn parse_u32(t: Seq<char>, p: int) -> Option<(u32, int)> {
    let q = digit_run_end(t, p);
    let s = t.subrange(p, q);
    if 0 <= p && q > p && (t[p] != '0' || q == p + 1) && value_of(s) <= u32::MAX {
        Some((value_of(s) as u32, q))
    } else {
        None
    }
}

/// Whether `lit` stands in `t` at `p`.
pub open spec fn has_at(t: Seq<char>, p: int, lit: Seq<char>) -> bool {
    0 <= p && p + lit.len() <= t.len() && t.subrange(p, p + lit.len()) == lit
}

proof fn lemma_digit_char(d: int)
    requires
        0 <= d < 10,
    ensures
        digit_char(d) as u32 as int == d + 48,
        is_digit(digit_char(d)),
        digit_char(d) == '0' <==> d == 0,
{
}

proof fn lemma_digits_facts(n: nat)
    ensures
        forall|i: int| 0 <= i < digits(n).len() ==> is_digit(#[trigger] digits(n)[i]),
        digits(n).len() >= 1,
        value_of(digits(n)) == n,
        digits(n)[0] == '0' ==> n == 0,
        n < 10 ==> digits(n).len() == 1,
    decreases n,
{
    reveal(digits);
    if n < 10 {
        lemma_digit_char(n as int);
        let d = digits(n);
        assert(d.drop_last() =~= Seq::<char>::empty());
        assert(d.last() == digit_char(n as int));
        assert(value_of(d) == value_of(d.drop_last()) * 10 + (d.last() as u32 as int - 48));
    } else {
        lemma_digit_char((n % 10) as int);
        lemma_digits_facts(n / 10);
        let d = digits(n);
        assert(d.drop_last() =~= digits(n / 10));
        assert(d[0] == digits(n / 10)[0]);
        assert((n / 10) * 10 + n % 10 == n);
        assert(d.last() == digit_char((n % 10) as int));
        assert(value_of(d) == value_of(d.drop_last()) * 10 + (d.last() as u32 as int - 48));
    }
}

proof fn lemma_run_end(t: Seq<char>, i: int, q: int)
    requires
        0 <= i <= q <= t.len(),
        forall|j: int| i <= j < q ==> is_digit(#[trigger] t[j]),
        q == t.len() || !is_digit(t[q]),
    ensures
        digit_run_end(t, i) == q,
    decreases q - i,
{
    if i < q {
        lemma_run_end(t, i + 1, q);
    }
}

/// Reading back the decimal text of `n` gives `n`.
pub proof fn lemma_parse_digits(n: nat, t: Seq<char>, p: int)
    requires
        n <= u32::MAX,
        has_at(t, p, digits(n)),
        p + digits(n).len() == t.len() || !is_digit(t[p + digits(n).len()]),
    ensures
        parse_u32(t, p) == Some((n as u32, p + digits(n).len())),
{
    reveal(parse_u32);
    let d = digits(n);
    lemma_digits_facts(n);
    assert forall|j: int| p <= j < p + d.len() implies is_digit(#[trigger] t[j]) by {
        assert(t.subrange(p, p + d.len())[j - p] == t[j]);
    }
    lemma_run_end(t, p, p + d.len());
    assert(t[p] == d[0]) by {
        assert(t.subrange(p, p + d.len())[0] == t[p]);
    }
}

proof fn lemma_value_prefix(s: Seq<char>, k: int)
    requires
        0 <= k <= s.len(),
        forall|j: int| 0 <= j < s.len() ==> is_digit(#[trigger] s[j]),
    ensures
        0 <= value_of(s.subrange(0, k)) <= value_of(s),
    decreases s.len(),
{
    if k < s.len() {
        let r = s.drop_last();
        assert(forall|j: int| 0 <= j < r.len() ==> is_digit(#[trigger] r[j]) <== (forall|j: int| 0 <= j < r.len() ==> r[j] == s[j]));
        lemma_value_prefix(r, k);
        assert(r.subrange(0, k) =~= s.subrange(0, k));
        assert(s.last() == s[s.len() - 1]);
    } else {
        assert(s.subrange(0, k) =~= s);
        if s.len() > 0 {
            let r = s.drop_last();
            assert(forall|j: int| 0 <= j < r.len() ==> is_digit(#[trigger] r[j]) <== (forall|j: int| 0 <= j < r.len() ==> r[j] == s[j]));
            lemma_value_prefix(r, 0);
            assert(s.last() == s[s.len() - 1]);
        }
    }
}

/// Appends the decimal text of `n`.
pub fn push_digits(out: &mut String, n: u32)
    ensures
        final(out)@ == old(out)@ + digits(n as nat),
    decreases n,
{
    proof {
        reveal(digits);
    }
    if n >= 10 {
        push_digits(out, n / 10);
    }
    let ghost mid = out@;
    push_char(out, ((n % 10) as u8 + 48) as char);
    proof {
        if n >= 10 {
            assert(out@ =~= old(out)@ + digits(n as nat));
        } else {
            assert(out@ =~= old(out)@ + digits(n as nat));
        }
    }
}

/// Reads a `u32` in canonical decimal form at `p`.
pub fn read_u32(t: &Vec<char>, p: usize) -> (r: Option<(u32, usize)>)
    ensures
        r matches Some((v, q)) ==> parse_u32(t@, p as int) == Some((v, q as int)),
        r is None ==> parse_u32(t@, p as int) is None,
{
    proof {
        reveal(parse_u32);
    }
    let mut q = p;
    while q < t.len() && '0' <= t[q] && t[q] <= '9'
        invariant
            p <= q,
            q <= t.len() || q == p,
            digit_run_end(t@, p as int) == digit_run_end(t@, q as int),
            forall|j: int| p <= j < q ==> is_digit(#[trigger] t@[j]),
        decreases t@.len() - q,
    {
        q = q + 1;
    }
    if q == p {
        return None;
    }
    if t[p] == '0' && q != p + 1 {
        return None;
    }
    assert(digit_run_end(t@, q as int) == q);
    let ghost s = t@.subrange(p as int, q as int);
    assert forall|j: int| 0 <= j < s.len() implies is_digit(#[trigger] s[j]) by {
        assert(s[j] == t@[p + j]);
    }
    let mut acc: u64 = 0;
    let mut i = p;
    while i < q
        invariant
            p <= i <= q <= t@.len(),
            s == t@.subrange(p as int, q as int),
            digit_run_end(t@, p as int) == q,
            t@[p as int] != '0' || q == p + 1,
            forall|j: int| 0 <= j < s.len() ==> is_digit(#[trigger] s[j]),
            acc as int == value_of(s.subrange(0, i - p)),
            acc <= u32::MAX,
        decreases q - i,
    {
        proof {
            let a = s.subrange(0, i - p + 1);
            assert(a.drop_last() =~= s.subrange(0, i - p));
            assert(a.last() == t@[i as int]);
            assert(is_digit(s[i - p]));
        }
        acc = acc * 10 + (t[i] as u32 - 48) as u64;
        i = i + 1;
        if acc > u32::MAX as u64 {
            proof {
                reveal(parse_u32);
                lemma_value_prefix(s, i - p);
                assert(value_of(s) > u32::MAX);
            }
            return None;
        }
    }
    assert(s.subrange(0, q - p) =~= s);
    Some((acc as u32, q))
}

} // verus!

verus! {

/// `a` and `b` hold the same characters.
pub fn same_text(a: &String, b: &str) -> (r: bool)
    ensures
        r == (a@ == b@),
{
    let x = chars_of(a.as_str());
    let y = chars_of(b);
    if x.len() != y.len() {
        return false;
    }
    let mut i: usize = 0;
    while i < x.len()
        invariant
            i <= x@.len(),
            x@.len() == y@.len(),
            x@ == a@,
            y@ == b@,
            forall|j: int| 0 <= j < i ==> x@[j] == y@[j],
        decreases x@.len() - i,
    {
        if x[i] != y[i] {
            return false;
        }
        i = i + 1;
    }
    assert(x@ =~= y@);
    true
}

/// Checks that `c` stands in `t` at `p`; gives the position after it.
pub fn read_char(t: &Vec<char>, p: usize, c: char) -> (r: Option<usize>)
    ensures
        r matches Some(q) ==> has_at(t@, p as int, seq![c]) && q == p + 1,
        r is None ==> !has_at(t@, p as int, seq![c]),
{
    if p < t.len() && t[p] == c {
        assert(t@.subrange(p as int, p + 1) =~= seq![c]);
        Some(p + 1)
    } else {
        proof {
            if has_at(t@, p as int, seq![c]) {
                assert(t@.subrange(p as int, p + 1)[0] == t@[p as int]);
            }
        }
        None
    }
}

/// `a + b` stands at `p` exactly when `a` does and `b` follows it.
pub proof fn lemma_has_at_concat(t: Seq<char>, p: int, a: Seq<char>, b: Seq<char>)
    ensures
        has_at(t, p, a + b) <==> (has_at(t, p, a) && has_at(t, p + a.len(), b)),
{
    if has_at(t, p, a + b) {
        assert(t.subrange(p, p + a.len()) =~= (a + b).subrange(0, a.len() as int)) by {
            assert forall|i: int| 0 <= i < a.len() implies t.subrange(p, p + a.len())[i] == (a
                + b).subrange(0, a.len() as int)[i] by {
                assert(t.subrange(p, p + (a + b).len())[i] == t[p + i]);
            }
        }
        assert((a + b).subrange(0, a.len() as int) =~= a);
        assert(t.subrange(p + a.len(), p + a.len() + b.len()) =~= b) by {
            assert forall|i: int| 0 <= i < b.len() implies t.subrange(
                p + a.len(),
                p + a.len() + b.len(),
            )[i] == b[i] by {
                assert(t.subrange(p, p + (a + b).len())[a.len() + i] == t[p + a.len() + i]);
            }
        }
    }
    if has_at(t, p, a) && has_at(t, p + a.len(), b) {
        assert(t.subrange(p, p + (a + b).len()) =~= a + b) by {
            assert forall|i: int| 0 <= i < (a + b).len() implies t.subrange(p, p + (a + b).len())[i]
                == (a + b)[i] by {
                if i < a.len() {
                    assert(t.subrange(p, p + a.len())[i] == t[p + i]);
                } else {
                    assert(t.subrange(p + a.len(), p + a.len() + b.len())[i - a.len()] == t[p
                        + i]);
                }
            }
        }
    }
}

} // verus!
