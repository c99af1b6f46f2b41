//! Character-level text helpers: everything the plugin needs to build and
//! inspect strings, each with a specification over `Seq<char>`.
use vstd::prelude::*;

verus! {

broadcast use vstd::string::group_string_axioms;

// ---------------------------------------------------------------------------
// Specifications
// ---------------------------------------------------------------------------

/// Characters with the Unicode `White_Space` property (what `char::is_whitespace`
/// accepts, and therefore what `str::trim` removes).
pub open spec fn is_white_space(c: char) -> bool {
    ||| c == ' '
    ||| ('\u{9}' <= c && c <= '\u{d}')
    ||| c == '\u{85}'
    ||| c == '\u{a0}'
    ||| c == '\u{1680}'
    ||| ('\u{2000}' <= c && c <= '\u{200a}')
    ||| c == '\u{2028}'
    ||| c == '\u{2029}'
    ||| c == '\u{202f}'
    ||| c == '\u{205f}'
    ||| c == '\u{3000}'
}

/// `s` without its leading white space.
pub open spec fn trim_start(s: Seq<char>) -> Seq<char>
    decreases s.len(),
{
    if s.len() > 0 && is_white_space(s[0]) {
        trim_start(s.drop_first())
    } else {
        s
    }
}

/// `s` without its trailing white space.
pub open spec fn trim_end(s: Seq<char>) -> Seq<char>
    decreases s.len(),
{
    if s.len() > 0 && is_white_space(s.last()) {
        trim_end(s.drop_last())
    } else {
        s
    }
}

/// `s` without leading and trailing white space.
pub open spec fn trim(s: Seq<char>) -> Seq<char> {
    trim_end(trim_start(s))
}

/// The decimal digit character for `d < 10`.
pub open spec fn digit_char(d: nat) -> char {
    ((d + 48) as u8) as char
}

/// The decimal representation of `n`, without leading zeros.
pub open spec fn decimal(n: nat) -> Seq<char>
    decreases n,
{
    if n < 10 {
        seq![digit_char(n)]
    } else {
        decimal(n / 10).push(digit_char(n % 10))
    }
}

/// `n` space characters.
pub open spec fn spaces(n: nat) -> Seq<char> {
    Seq::new(n, |i: int| ' ')
}

/// `s` left-aligned in a field of `width` characters, as `{:<width}` formats it.
pub open spec fn pad_right(s: Seq<char>, width: nat) -> Seq<char> {
    if s.len() < width {
        s + spaces((width - s.len()) as nat)
    } else {
        s
    }
}

/// The elements of `parts` with `sep` between consecutive ones.
pub open spec fn join(parts: Seq<Seq<char>>, sep: Seq<char>) -> Seq<char>
    decreases parts.len(),
{
    if parts.len() == 0 {
        Seq::empty()
    } else if parts.len() == 1 {
        parts[0]
    } else {
        join(parts.drop_last(), sep) + sep + parts.last()
    }
}

/// ASCII lower-casing of one character; every other character is kept.
pub open spec fn ascii_lower(c: char) -> char {
    if 'A' <= c && c <= 'Z' {
        (((c as u32) + 32) as u8) as char
    } else {
        c
    }
}

/// Equality up to ASCII case, as `str::eq_ignore_ascii_case` decides it.
pub open spec fn eq_ignore_ascii_case(a: Seq<char>, b: Seq<char>) -> bool {
    &&& a.len() == b.len()
    &&& forall|i: int| 0 <= i < a.len() ==> ascii_lower(#[trigger] a[i]) == ascii_lower(b[i])
}

/// Whether `s` begins with the character `-`.
pub open spec fn starts_with_dash(s: Seq<char>) -> bool {
    s.len() > 0 && s[0] == '-'
}

/// The shell escape used inside single quotes: every `'` becomes `'\''`.
pub open spec fn escape_single_quotes(s: Seq<char>) -> Seq<char>
    decreases s.len(),
{
    if s.len() == 0 {
        Seq::empty()
    } else {
        let head: Seq<char> = if s[0] == '\'' {
            seq!['\'', '\\', '\'', '\'']
        } else {
            seq![s[0]]
        };
        head + escape_single_quotes(s.drop_first())
    }
}

/// Number of bytes of the UTF-8 encoding of `c`.
pub open spec fn utf8_width(c: char) -> nat {
    if (c as u32) < 0x80 {
        1
    } else if (c as u32) < 0x800 {
        2
    } else if (c as u32) < 0x10000 {
        3
    } else {
        4
    }
}

/// Number of bytes of the UTF-8 encoding of `s`.
pub open spec fn utf8_len(s: Seq<char>) -> nat
    decreases s.len(),
{
    if s.len() == 0 {
        0
    } else {
        utf8_width(s[0]) + utf8_len(s.drop_first())
    }
}

/// The prefix of `s` whose encoding is exactly `n` bytes long, if byte `n`
/// falls on a character boundary.
pub open spec fn byte_prefix(s: Seq<char>, n: nat) -> Option<Seq<char>>
    decreases s.len(),
{
    if n == 0 {
        Some(Seq::empty())
    } else if s.len() == 0 || utf8_width(s[0]) > n {
        None
    } else {
        match byte_prefix(s.drop_first(), (n - utf8_width(s[0])) as nat) {
            Some(p) => Some(seq![s[0]] + p),
            None => None,
        }
    }
}

/// The longest prefix of `s` whose encoding is at most `n` bytes long
/// (`&s[..s.floor_char_boundary(n)]`).
pub open spec fn floor_prefix(s: Seq<char>, n: nat) -> Seq<char>
    decreases s.len(),
{
    if s.len() == 0 || utf8_width(s[0]) > n {
        Seq::empty()
    } else {
        seq![s[0]] + floor_prefix(s.drop_first(), (n - utf8_width(s[0])) as nat)
    }
}

/// The index of the character whose encoding holds byte `n`, and the byte
/// where that character starts.
pub open spec fn char_at_byte(s: Seq<char>, n: nat) -> (nat, nat)
    decreases s.len(),
{
    if s.len() == 0 || utf8_width(s[0]) > n {
        (0, 0)
    } else {
        let r = char_at_byte(s.drop_first(), (n - utf8_width(s[0])) as nat);
        (r.0 + 1, r.1 + utf8_width(s[0]))
    }
}

/// What `format!("{:?}", c)` writes for a character.
pub uninterp spec fn char_debug_text(c: char) -> Seq<char>;

// ---------------------------------------------------------------------------
// Executable helpers
// ---------------------------------------------------------------------------

/// Appends one character with `String::push`.
///
/// Trusted: the contract claims that the string afterwards is the old one
/// with `c` added at its end, as the standard library documents.
#[verifier::external_body]
pub(crate) fn push_char(s: &mut String, c: char)
    ensures
        final(s)@ == old(s)@.push(c),
{
    s.push(c);
}

/// The characters of `s`.
pub fn chars_of(s: &str) -> (v: Vec<char>)
    ensures
        v@ == s@,
{
    let mut v: Vec<char> = Vec::new();
    for c in it: s.chars()
        invariant
            v@ == it.history(),
    {
        v.push(c);
    }
    v
}

/// A string holding the characters `v[from..to]`.
pub fn string_of(v: &Vec<char>, from: usize, to: usize) -> (s: String)
    requires
        from <= to <= v.len(),
    ensures
        s@ == v@.subrange(from as int, to as int),
{
    let mut s = String::new();
    let mut i: usize = from;
    while i < to
        invariant
            from <= i <= to <= v.len(),
            s@ == v@.subrange(from as int, i as int),
        decreases to - i,
    {
        push_char(&mut s, v[i]);
        i = i + 1;
        assert(s@ =~= v@.subrange(from as int, i as int));
    }
    s
}

/// A copy of a string slice.
pub fn owned(s: &str) -> (r: String)
    ensures
        r@ == s@,
{
    String::from_str(s)
}

/// Whether a string equals a string slice.
pub fn same(a: &String, b: &str) -> (r: bool)
    ensures
        r == (a@ == b@),
{
    let t = String::from_str(b);
    *a == t
}

/// Whether `s` starts with `-`.
pub fn has_dash_prefix(s: &String) -> (r: bool)
    ensures
        r == starts_with_dash(s@),
{
    let v = chars_of(s.as_str());
    v.len() > 0 && v[0] == '-'
}

proof fn lemma_trim_start_suffix(s: Seq<char>, i: int)
    requires
        0 <= i <= s.len(),
        forall|j: int| 0 <= j < i ==> is_white_space(#[trigger] s[j]),
    ensures
        trim_start(s) == trim_start(s.subrange(i, s.len() as int)),
    decreases i,
{
    if i > 0 {
        assert(is_white_space(s[0]));
        let t = s.drop_first();
        assert forall|j: int| 0 <= j < i - 1 implies is_white_space(#[trigger] t[j]) by {
            assert(t[j] == s[j + 1]);
        }
        lemma_trim_start_suffix(t, i - 1);
        assert(t.subrange(i - 1, t.len() as int) =~= s.subrange(i, s.len() as int));
    } else {
        assert(s.subrange(0, s.len() as int) =~= s);
    }
}

proof fn lemma_trim_end_prefix(s: Seq<char>, k: int)
    requires
        0 <= k <= s.len(),
        forall|j: int| k <= j < s.len() ==> is_white_space(#[trigger] s[j]),
    ensures
        trim_end(s) == trim_end(s.subrange(0, k)),
    decreases s.len() - k,
{
    if k < s.len() {
        assert(is_white_space(s.last()));
        let t = s.drop_last();
        lemma_trim_end_prefix(t, k);
        assert(t.subrange(0, k) =~= s.subrange(0, k));
    } else {
        assert(s.subrange(0, k) =~= s);
    }
}

/// Whether `c` is white space (`char::is_whitespace`).
pub fn white_space(c: char) -> (r: bool)
    ensures
        r == is_white_space(c),
{
    c == ' ' || ('\u{9}' <= c && c <= '\u{d}') || c == '\u{85}' || c == '\u{a0}' || c
        == '\u{1680}' || ('\u{2000}' <= c && c <= '\u{200a}') || c == '\u{2028}' || c
        == '\u{2029}' || c == '\u{202f}' || c == '\u{205f}' || c == '\u{3000}'
}

/// `s` with leading and trailing white space removed (`str::trim`).
pub fn trimmed(s: &str) -> (r: String)
    ensures
        r@ == trim(s@),
{
    let v = chars_of(s);
    let n: usize = v.len();
    let mut start: usize = 0;
    while start < n && white_space(v[start])
        invariant
            n == v.len(),
            start <= n,
            forall|j: int| 0 <= j < start ==> is_white_space(#[trigger] v@[j]),
        decreases n - start,
    {
        start = start + 1;
    }
    proof {
        lemma_trim_start_suffix(v@, start as int);
    }
    let ghost rest = v@.subrange(start as int, n as int);
    assert(start == n || !is_white_space(rest[0]));
    assert(trim_start(rest) == rest);
    let mut end: usize = n;
    while end > start && white_space(v[end - 1])
        invariant
            n == v.len(),
            start <= end <= n,
            forall|j: int| end <= j < n ==> is_white_space(#[trigger] v@[j]),
        decreases end,
    {
        end = end - 1;
    }
    proof {
        let k: int = (end - start) as int;
        assert forall|j: int| k <= j < rest.len() implies is_white_space(#[trigger] rest[j]) by {
            assert(rest[j] == v@[j + start]);
        }
        lemma_trim_end_prefix(rest, k);
        let inner = rest.subrange(0, k);
        assert(inner =~= v@.subrange(start as int, end as int));
        if inner.len() > 0 {
            assert(inner.last() == v@[end - 1]);
        }
        assert(trim_end(inner) == inner);
    }
    string_of(&v, start, end)
}

/// The digit character for `d < 10`.
fn digit(d: u64) -> (c: char)
    requires
        d < 10,
    ensures
        c == digit_char(d as nat),
{
    let b: u8 = 48u8 + (d as u8);
    b as char
}

/// The decimal representation of `n` (what `u64::to_string` gives).
pub fn decimal_string(n: u64) -> (s: String)
    ensures
        s@ == decimal(n as nat),
    decreases n,
{
    if n < 10 {
        let mut s = String::new();
        push_char(&mut s, digit(n));
        assert(s@ =~= decimal(n as nat));
        s
    } else {
        let mut s = decimal_string(n / 10);
        push_char(&mut s, digit(n % 10));
        s
    }
}

/// The decimal representation of a `usize`.
pub fn decimal_usize(n: usize) -> (s: String)
    ensures
        s@ == decimal(n as nat),
{
    decimal_string(n as u64)
}

/// `s` followed by spaces up to `width` characters (`format!("{:<width$}", s)`).
pub fn padded(s: &String, width: usize) -> (r: String)
    ensures
        r@ == pad_right(s@, width as nat),
{
    let n: usize = chars_of(s.as_str()).len();
    let mut r = s.clone();
    if n < width {
        let mut i: usize = n;
        while i < width
            invariant
                n <= i <= width,
                n == s@.len(),
                r@ == s@ + spaces((i - n) as nat),
            decreases width - i,
        {
            push_char(&mut r, ' ');
            i = i + 1;
            assert(r@ =~= s@ + spaces((i - n) as nat));
        }
    }
    r
}

/// The strings of `parts` joined with `sep` between them (`<[String]>::join`).
pub fn joined(parts: &Vec<String>, sep: &str) -> (r: String)
    ensures
        r@ == join(parts@.map_values(|p: String| p@), sep@),
{
    let ghost views = parts@.map_values(|p: String| p@);
    let mut r = String::new();
    let mut i: usize = 0;
    while i < parts.len()
        invariant
            i <= parts.len(),
            views == parts@.map_values(|p: String| p@),
            r@ == join(views.take(i as int), sep@),
        decreases parts.len() - i,
    {
        if i > 0 {
            r.append(sep);
        }
        r.append(parts[i].as_str());
        assert(views.take(i + 1).drop_last() =~= views.take(i as int));
        i = i + 1;
    }
    assert(views.take(parts.len() as int) =~= views);
    r
}

/// ASCII lower-casing of one character.
pub fn lower_ascii(c: char) -> (r: char)
    ensures
        r == ascii_lower(c),
{
    if 'A' <= c && c <= 'Z' {
        let k: u32 = c as u32;
        let b: u8 = (k + 32) as u8;
        b as char
    } else {
        c
    }
}

/// Equality of two strings up to ASCII case (`str::eq_ignore_ascii_case`).
pub fn same_ignoring_ascii_case(a: &String, b: &String) -> (r: bool)
    ensures
        r == eq_ignore_ascii_case(a@, b@),
{
    let x = chars_of(a.as_str());
    let y = chars_of(b.as_str());
    if x.len() != y.len() {
        return false;
    }
    let mut i: usize = 0;
    while i < x.len()
        invariant
            x@ == a@,
            y@ == b@,
            x.len() == y.len(),
            i <= x.len(),
            forall|j: int| 0 <= j < i ==> ascii_lower(#[trigger] x@[j]) == ascii_lower(y@[j]),
        decreases x.len() - i,
    {
        if lower_ascii(x[i]) != lower_ascii(y[i]) {
            return false;
        }
        i = i + 1;
    }
    true
}

/// `s` with every `'` replaced by `'\''` (`str::replace('\'', "'\\''")`).
pub fn escaped_single_quotes(s: &str) -> (r: String)
    ensures
        r@ == escape_single_quotes(s@),
{
    let v = chars_of(s);
    let mut r = String::new();
    let mut i: usize = v.len();
    let mut parts: Vec<char> = Vec::new();
    // Build the result back to front, then copy it out in order.
    while i > 0
        invariant
            i <= v.len(),
            v@ == s@,
            parts@.reverse() == escape_single_quotes(v@.subrange(i as int, v.len() as int)),
        decreases i,
    {
        i = i - 1;
        let ghost before = parts@;
        let c = v[i];
        if c == '\'' {
            parts.push('\'');
            parts.push('\'');
            parts.push('\\');
            parts.push('\'');
        } else {
            parts.push(c);
        }
        proof {
            let tail = v@.subrange(i as int, v.len() as int);
            assert(tail.drop_first() =~= v@.subrange(i + 1, v.len() as int));
            assert(tail[0] == c);
            if c == '\'' {
                assert(parts@ =~= before + seq!['\'', '\'', '\\', '\'']);
                assert(parts@.reverse() =~= seq!['\'', '\\', '\'', '\''] + before.reverse());
            } else {
                assert(parts@ =~= before.push(c));
                assert(parts@.reverse() =~= seq![c] + before.reverse());
            }
        }
    }
    assert(v@.subrange(0, v.len() as int) =~= v@);
    let mut j: usize = parts.len();
    while j > 0
        invariant
            j <= parts.len(),
            r@ == parts@.reverse().subrange(0, (parts.len() - j) as int),
        decreases j,
    {
        j = j - 1;
        push_char(&mut r, parts[j]);
        assert(r@ =~= parts@.reverse().subrange(0, (parts.len() - j) as int));
    }
    assert(parts@.reverse().subrange(0, parts.len() as int) =~= parts@.reverse());
    r
}

/// Number of UTF-8 bytes of `c`.
pub fn char_width(c: char) -> (w: usize)
    ensures
        w == utf8_width(c),
{
    let k: u32 = c as u32;
    if k < 0x80 {
        1
    } else if k < 0x800 {
        2
    } else if k < 0x10000 {
        3
    } else {
        4
    }
}

proof fn lemma_byte_prefix_step(s: Seq<char>, i: int, n: nat, used: nat)
    requires
        0 <= i < s.len(),
        utf8_len(s.subrange(0, i)) == used,
        used + utf8_width(s[i]) <= n,
        byte_prefix(s, n) == (match byte_prefix(s.subrange(i, s.len() as int), (n - used) as nat) {
            Some(p) => Some(s.subrange(0, i) + p),
            None => None::<Seq<char>>,
        }),
    ensures
        utf8_len(s.subrange(0, i + 1)) == used + utf8_width(s[i]),
        byte_prefix(s, n) == (match byte_prefix(s.subrange(i + 1, s.len() as int), (n - used - utf8_width(s[i])) as nat) {
            Some(p) => Some(s.subrange(0, i + 1) + p),
            None => None::<Seq<char>>,
        }),
{
    let rest = s.subrange(i, s.len() as int);
    assert(rest[0] == s[i]);
    assert(rest.drop_first() =~= s.subrange(i + 1, s.len() as int));
    lemma_utf8_len_push(s.subrange(0, i), s[i]);
    assert(s.subrange(0, i).push(s[i]) =~= s.subrange(0, i + 1));
    let m: nat = (n - used) as nat;
    if m > 0 {
        match byte_prefix(s.subrange(i + 1, s.len() as int), (n - used - utf8_width(s[i])) as nat) {
            Some(p) => {
                assert(s.subrange(0, i) + (seq![s[i]] + p) =~= s.subrange(0, i + 1) + p);
            },
            None => {},
        }
    }
}

/// Byte length of a sequence grows by the width of an appended character.
pub proof fn lemma_utf8_len_push(s: Seq<char>, c: char)
    ensures
        utf8_len(s.push(c)) == utf8_len(s) + utf8_width(c),
    decreases s.len(),
{
    if s.len() > 0 {
        lemma_utf8_len_push(s.drop_first(), c);
        assert(s.push(c).drop_first() =~= s.drop_first().push(c));
        assert(s.push(c)[0] == s[0]);
    } else {
        assert(s.push(c).drop_first() =~= Seq::<char>::empty());
        assert(utf8_len(Seq::<char>::empty()) == 0);
        assert(s.push(c)[0] == c);
    }
}

/// Byte length of a concatenation.
pub proof fn lemma_utf8_len_append(a: Seq<char>, b: Seq<char>)
    ensures
        utf8_len(a + b) == utf8_len(a) + utf8_len(b),
    decreases a.len(),
{
    if a.len() > 0 {
        lemma_utf8_len_append(a.drop_first(), b);
        assert((a + b).drop_first() =~= a.drop_first() + b);
        assert((a + b)[0] == a[0]);
    } else {
        assert(a + b =~= b);
    }
}

/// Whether the UTF-8 encoding of `s` is longer than `limit` bytes
/// (`str::len(s) > limit`).
pub fn longer_than_bytes(s: &Vec<char>, limit: usize) -> (r: bool)
    requires
        limit <= usize::MAX - 4,
    ensures
        r == (utf8_len(s@) > limit),
{
    let mut used: usize = 0;
    let mut i: usize = 0;
    while i < s.len()
        invariant
            i <= s.len(),
            limit <= usize::MAX - 4,
            used <= limit,
            used == utf8_len(s@.subrange(0, i as int)),
        decreases s.len() - i,
    {
        proof {
            lemma_utf8_len_push(s@.subrange(0, i as int), s@[i as int]);
            assert(s@.subrange(0, i as int).push(s@[i as int]) =~= s@.subrange(0, i + 1));
        }
        used = used + char_width(s[i]);
        i = i + 1;
        if used > limit {
            proof {
                lemma_utf8_len_append(s@.subrange(0, i as int), s@.subrange(i as int, s@.len() as int));
                assert(s@.subrange(0, i as int) + s@.subrange(i as int, s@.len() as int) =~= s@);
            }
            return true;
        }
    }
    assert(s@.subrange(0, s.len() as int) =~= s@);
    false
}

/// The prefix of `s` that is exactly `n` bytes long (`&s[..n]`), or `None`
/// where byte `n` is not on a character boundary or lies past the end.
pub fn prefix_of_bytes(s: &Vec<char>, n: usize) -> (r: Option<String>)
    ensures
        match r {
            Some(p) => byte_prefix(s@, n as nat) == Some(p@),
            None => byte_prefix(s@, n as nat) is None,
        },
{
    let mut used: usize = 0;
    let mut i: usize = 0;
    assert(s@.subrange(0, 0) =~= Seq::<char>::empty());
    assert(s@.subrange(0, s@.len() as int) =~= s@);
    assert(Seq::<char>::empty() + s@ =~= s@);
    while used < n
        invariant
            i <= s.len(),
            used <= n,
            utf8_len(s@.subrange(0, i as int)) == used,
            byte_prefix(s@, n as nat) == (match byte_prefix(s@.subrange(i as int, s.len() as int), (n - used) as nat) {
                Some(p) => Some(s@.subrange(0, i as int) + p),
                None => None::<Seq<char>>,
            }),
        decreases n - used,
    {
        if i == s.len() {
            return None;
        }
        let w: usize = char_width(s[i]);
        if w > n - used {
            proof {
                let rest = s@.subrange(i as int, s.len() as int);
                assert(rest[0] == s@[i as int]);
            }
            return None;
        }
        proof {
            lemma_byte_prefix_step(s@, i as int, n as nat, used as nat);
        }
        used = used + w;
        i = i + 1;
    }
    proof {
        let p = s@.subrange(0, i as int);
        assert(p + Seq::<char>::empty() =~= p);
    }
    Some(string_of(s, 0, i))
}

/// Where byte `n` of `s` falls inside a character, that character's index
/// and its first byte.
pub proof fn lemma_char_at_byte(s: Seq<char>, n: nat)
    requires
        byte_prefix(s, n) is None,
        utf8_len(s) > n,
    ensures
        char_at_byte(s, n).0 < s.len(),
        char_at_byte(s, n).1 < n < char_at_byte(s, n).1 + utf8_width(s[char_at_byte(s, n).0 as int]),
    decreases s.len(),
{
    let w = utf8_width(s[0]);
    if w <= n {
        let t = s.drop_first();
        lemma_char_at_byte(t, (n - w) as nat);
        assert(s[char_at_byte(s, n).0 as int] == t[char_at_byte(t, (n - w) as nat).0 as int]);
    }
}

/// Writes a character as `{:?}` formats it (`<char as Debug>::fmt`).
///
/// Trusted: the contract claims only that the text is the one the named
/// function `char_debug_text` gives for the character; it depends on the
/// character alone.
#[verifier::external_body]
pub(crate) fn char_debug(c: char) -> (r: String)
    ensures
        r@ == char_debug_text(c),
{
    format!("{:?}", c)
}

/// The longest prefix of `s` whose encoding is at most `n` bytes long.
pub fn floor_prefix_of(s: &Vec<char>, n: usize) -> (r: String)
    ensures
        r@ == floor_prefix(s@, n as nat),
{
    let mut used: usize = 0;
    let mut i: usize = 0;
    assert(s@.skip(0) =~= s@);
    assert(Seq::<char>::empty() + floor_prefix(s@, n as nat) =~= floor_prefix(s@, n as nat));
    while i < s.len() && char_width(s[i]) <= n - used
        invariant
            i <= s.len(),
            used <= n,
            floor_prefix(s@, n as nat) == s@.subrange(0, i as int) + floor_prefix(s@.skip(i as int), (n - used) as nat),
        decreases s.len() - i,
    {
        proof {
            let t = s@.skip(i as int);
            assert(t[0] == s@[i as int]);
            assert(t.drop_first() =~= s@.skip(i + 1));
            assert(s@.subrange(0, i as int) + (seq![s@[i as int]] + floor_prefix(s@.skip(i + 1), (n - used - utf8_width(s@[i as int])) as nat))
                =~= s@.subrange(0, i + 1) + floor_prefix(s@.skip(i + 1), (n - used - utf8_width(s@[i as int])) as nat));
        }
        used = used + char_width(s[i]);
        i = i + 1;
    }
    proof {
        let t = s@.skip(i as int);
        if i < s.len() {
            assert(t[0] == s@[i as int]);
        }
        assert(floor_prefix(t, (n - used) as nat) =~= Seq::<char>::empty());
        assert(s@.subrange(0, i as int) + Seq::<char>::empty() =~= s@.subrange(0, i as int));
    }
    string_of(s, 0, i)
}

/// The index of the character whose encoding holds byte `n`, and its first byte.
pub fn char_at_byte_of(s: &Vec<char>, n: usize) -> (r: (usize, usize))
    ensures
        (r.0 as nat, r.1 as nat) == char_at_byte(s@, n as nat),
{
    let mut used: usize = 0;
    let mut i: usize = 0;
    assert(s@.skip(0) =~= s@);
    while i < s.len() && char_width(s[i]) <= n - used
        invariant
            i <= s.len(),
            used <= n,
            char_at_byte(s@, n as nat) == ({
                let r = char_at_byte(s@.skip(i as int), (n - used) as nat);
                ((r.0 + i) as nat, (r.1 + used) as nat)
            }),
        decreases s.len() - i,
    {
        proof {
            let t = s@.skip(i as int);
            assert(t[0] == s@[i as int]);
            assert(t.drop_first() =~= s@.skip(i + 1));
        }
        used = used + char_width(s[i]);
        i = i + 1;
    }
    proof {
        let t = s@.skip(i as int);
        if i < s.len() {
            assert(t[0] == s@[i as int]);
        }
    }
    (i, used)
}

} // verus!
