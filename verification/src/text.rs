//! Text utilities shared by every gate: blank checks, decimal and hex
//! rendering, content hashing and string assembly.

use vstd::prelude::*;
use vstd::string::*;
use sha2::Digest;

verus! {

// ── Whitespace ───────────────────────────────────────────────────────────

/// The Unicode `White_Space` property, which `str::trim` strips.
pub open spec fn is_ws(c: char) -> bool {
    let n = c as u32;
    (0x09 <= n && n <= 0x0d) || n == 0x20 || n == 0x85 || n == 0xa0 || n == 0x1680 || (0x2000
        <= n && n <= 0x200a) || n == 0x2028 || n == 0x2029 || n == 0x202f || n == 0x205f || n
        == 0x3000
}

/// A text is blank when it is empty after trimming, that is when every
/// character of it is whitespace.
pub open spec fn is_blank(s: Seq<char>) -> bool {
    forall|i: int| 0 <= i < s.len() ==> is_ws(#[trigger] s[i])
}

/// Whether `c` is a whitespace character.
pub fn char_is_ws(c: char) -> (b: bool)
    ensures
        b == is_ws(c),
{
    let n = c as u32;
    (0x09 <= n && n <= 0x0d) || n == 0x20 || n == 0x85 || n == 0xa0 || n == 0x1680 || (0x2000
        <= n && n <= 0x200a) || n == 0x2028 || n == 0x2029 || n == 0x202f || n == 0x205f || n
        == 0x3000
}

/// Calls `str::chars` and collects the characters; the contract claims
/// they are the characters of the string, in order.
#[verifier::external_body]
pub(crate) fn chars_of(s: &str) -> (v: Vec<char>)
    ensures
        v@ == s@,
{
    s.chars().collect()
}

/// Collects characters into a `String` (`FromIterator<&char>`); the
/// contract claims the string holds exactly those characters, in order.
#[verifier::external_body]
pub(crate) fn string_from_chars(v: &[char]) -> (s: String)
    ensures
        s@ == v@,
{
    v.iter().collect()
}

/// Whether every character of `v` is whitespace.
pub fn chars_are_blank(v: &[char]) -> (b: bool)
    ensures
        b == is_blank(v@),
{
    let mut i: usize = 0;
    while i < v.len()
        invariant
            i <= v.len(),
            forall|j: int| 0 <= j < i ==> is_ws(#[trigger] v@[j]),
        decreases v.len() - i,
    {
        if !char_is_ws(v[i]) {
            return false;
        }
        i = i + 1;
    }
    true
}

/// Whether `s.trim().is_empty()`.
pub fn str_is_blank(s: &str) -> (b: bool)
    ensures
        b == is_blank(s@),
{
    let v = chars_of(s);
    chars_are_blank(v.as_slice())
}

// ── String assembly ──────────────────────────────────────────────────────

/// `a` followed by `b`.
pub fn cat(a: &str, b: &str) -> (s: String)
    ensures
        s@ == a@ + b@,
{
    let s = String::from_str(a);
    s.concat(b)
}

/// `a`, `b` and `c` in order.
pub fn cat3(a: &str, b: &str, c: &str) -> (s: String)
    ensures
        s@ == a@ + b@ + c@,
{
    let s = String::from_str(a);
    let s = s.concat(b);
    s.concat(c)
}

/// An owned copy of a string slice.
pub fn owned(a: &str) -> (s: String)
    ensures
        s@ == a@,
{
    String::from_str(a)
}

// ── Decimal rendering ────────────────────────────────────────────────────

/// The ASCII digit for `d < 10`.
pub open spec fn digit(d: nat) -> char {
    (48 + d) as char
}

/// The decimal rendering of a natural number, most significant digit first.
pub open spec fn decimal(n: nat) -> Seq<char>
    decreases n,
{
    if n < 10 {
        seq![digit(n)]
    } else {
        decimal(n / 10) + seq![digit(n % 10)]
    }
}

fn digit_char(d: usize) -> (c: char)
    requires
        d < 10,
    ensures
        c == digit(d as nat),
{
    let b: u8 = 48u8 + (d as u8);
    b as char
}

fn decimal_chars(n: usize) -> (v: Vec<char>)
    ensures
        v@ == decimal(n as nat),
    decreases n,
{
    if n < 10 {
        let mut v: Vec<char> = Vec::new();
        v.push(digit_char(n));
        v
    } else {
        let mut v = decimal_chars(n / 10);
        v.push(digit_char(n % 10));
        v
    }
}

fn decimal_chars_u64(n: u64) -> (v: Vec<char>)
    ensures
        v@ == decimal(n as nat),
    decreases n,
{
    if n < 10 {
        let mut v: Vec<char> = Vec::new();
        v.push(digit_char(n as usize));
        v
    } else {
        let mut v = decimal_chars_u64(n / 10);
        v.push(digit_char((n % 10) as usize));
        v
    }
}

/// `n.to_string()`.
pub fn u64_to_string(n: u64) -> (s: String)
    ensures
        s@ == decimal(n as nat),
{
    let v = decimal_chars_u64(n);
    string_from_chars(v.as_slice())
}

/// `n.to_string()`.
pub fn usize_to_string(n: usize) -> (s: String)
    ensures
        s@ == decimal(n as nat),
{
    let v = decimal_chars(n);
    string_from_chars(v.as_slice())
}

// ── Hex rendering and hashing ────────────────────────────────────────────

/// The lowercase hex digit for `d < 16`.
pub open spec fn hex_digit(d: nat) -> char {
    if d < 10 {
        (48 + d) as char
    } else {
        (87 + d) as char
    }
}

/// Lowercase hex rendering of a byte string, two digits per byte.
pub open spec fn hex_of(bytes: Seq<u8>) -> Seq<char>
    decreases bytes.len(),
{
    if bytes.len() == 0 {
        Seq::empty()
    } else {
        hex_of(bytes.drop_last()) + seq![
            hex_digit((bytes.last() / 16) as nat),
            hex_digit((bytes.last() % 16) as nat),
        ]
    }
}

/// A hex rendering has two characters per byte.
pub proof fn lemma_hex_len(bytes: Seq<u8>)
    ensures
        hex_of(bytes).len() == 2 * bytes.len(),
    decreases bytes.len(),
{
    if bytes.len() > 0 {
        lemma_hex_len(bytes.drop_last());
    }
}

fn hex_char(d: u8) -> (c: char)
    requires
        d < 16,
    ensures
        c == hex_digit(d as nat),
{
    if d < 10 {
        (48u8 + d) as char
    } else {
        (87u8 + d) as char
    }
}

/// Lowercase hex encoding of `bytes`.
pub fn hex_encode(bytes: &[u8]) -> (s: String)
    ensures
        s@ == hex_of(bytes@),
{
    let mut out: Vec<char> = Vec::new();
    let mut i: usize = 0;
    while i < bytes.len()
        invariant
            i <= bytes.len(),
            out@ == hex_of(bytes@.take(i as int)),
        decreases bytes.len() - i,
    {
        let b = bytes[i];
        proof {
            assert(bytes@.take(i as int + 1).drop_last() =~= bytes@.take(i as int));
        }
        out.push(hex_char(b / 16));
        out.push(hex_char(b % 16));
        i = i + 1;
    }
    proof {
        assert(bytes@.take(bytes.len() as int) =~= bytes@);
    }
    string_from_chars(out.as_slice())
}

/// The SHA-256 digest of a byte string.
pub uninterp spec fn sha256_spec(data: Seq<u8>) -> Seq<u8>;

/// Calls `sha2::Sha256::digest`; the contract claims that the digest is a
/// function of the input bytes alone and is 32 bytes long.
#[verifier::external_body]
fn sha256_digest(data: &[u8]) -> (out: Vec<u8>)
    ensures
        out@ == sha256_spec(data@),
        out@.len() == 32,
{
    sha2::Sha256::digest(data).to_vec()
}

/// The UTF-8 encoding of a character sequence.
pub open spec fn utf8_of(s: Seq<char>) -> Seq<u8> {
    vstd::utf8::encode_utf8(s)
}

/// The UTF-8 bytes of a string slice.
pub fn utf8_bytes(s: &str) -> (b: Vec<u8>)
    ensures
        b@ == utf8_of(s@),
{
    s.as_bytes_vec()
}

/// Lowercase hex SHA-256 of the UTF-8 bytes of a text.
pub fn sha256_hex_of_text(s: &str) -> (h: String)
    ensures
        h@ == hex_of(sha256_spec(utf8_of(s@))),
        h@.len() == 64,
{
    let bytes = utf8_bytes(s);
    sha256_hex(bytes.as_slice())
}

/// The short content id of the UTF-8 bytes of a text.
pub fn text_short_id(s: &str) -> (h: String)
    ensures
        h@ == content_id(utf8_of(s@)),
        h@.len() == 16,
{
    let bytes = utf8_bytes(s);
    content_short_id(bytes.as_slice())
}

// ── Length-prefixed fields ───────────────────────────────────────────────

/// A self-delimiting field: the length, a colon, then the text.
pub open spec fn field(s: Seq<char>) -> Seq<char> {
    decimal(s.len()) + ":"@ + s
}

/// An optional field: `~` when absent.
pub open spec fn opt_field(o: Option<String>) -> Seq<char> {
    match o {
        None => "~"@,
        Some(s) => field(s@),
    }
}

/// Append `s` to `out`.
pub fn push_str(out: &mut String, s: &str)
    ensures
        final(out)@ == old(out)@ + s@,
{
    out.append(s);
}

/// Append the field of `s` to `out`.
pub fn push_field(out: &mut String, s: &str)
    ensures
        final(out)@ == old(out)@ + field(s@),
{
    let n = s.unicode_len();
    let len_text = usize_to_string(n);
    out.append(len_text.as_str());
    out.append(":");
    out.append(s);
    proof {
        assert(out@ =~= old(out)@ + field(s@));
    }
}

/// Append the optional field of `o` to `out`.
pub fn push_opt_field(out: &mut String, o: &Option<String>)
    ensures
        final(out)@ == old(out)@ + opt_field(*o),
{
    match o {
        None => out.append("~"),
        Some(s) => push_field(out, s.as_str()),
    }
}

/// Lowercase hex SHA-256 of `bytes`.
pub fn sha256_hex(bytes: &[u8]) -> (s: String)
    ensures
        s@ == hex_of(sha256_spec(bytes@)),
        s@.len() == 64,
{
    let digest = sha256_digest(bytes);
    proof {
        lemma_hex_len(digest@);
    }
    hex_encode(digest.as_slice())
}

/// The first sixteen characters of `value` (all of it when shorter).
pub open spec fn short_of(value: Seq<char>) -> Seq<char> {
    if value.len() <= 16 {
        value
    } else {
        value.take(16)
    }
}

/// `value.chars().take(16).collect()`.
pub fn short_hash(value: &str) -> (s: String)
    ensures
        s@ == short_of(value@),
{
    let v = chars_of(value);
    let mut out: Vec<char> = Vec::new();
    let mut i: usize = 0;
    while i < v.len() && i < 16
        invariant
            i <= v.len(),
            i <= 16,
            out@ == v@.take(i as int),
        decreases v.len() - i,
    {
        out.push(v[i]);
        proof {
            assert(v@.take(i as int + 1) =~= v@.take(i as int).push(v@[i as int]));
        }
        i = i + 1;
    }
    proof {
        if v@.len() <= 16 {
            assert(v@.take(v@.len() as int) =~= v@);
        }
    }
    string_from_chars(out.as_slice())
}

/// The short content id of a byte string: the first sixteen hex characters
/// of its SHA-256.
pub open spec fn content_id(bytes: Seq<u8>) -> Seq<char> {
    short_of(hex_of(sha256_spec(bytes)))
}

/// The short content id of `bytes`.
pub fn content_short_id(bytes: &[u8]) -> (s: String)
    ensures
        s@ == content_id(bytes@),
        s@.len() == 16,
{
    let full = sha256_hex(bytes);
    short_hash(full.as_str())
}

// ── Lexicographic order on strings ───────────────────────────────────────

/// Strict lexicographic order on character sequences (the order of `str`,
/// since UTF-8 preserves code point order).
pub open spec fn seq_lt(a: Seq<char>, b: Seq<char>) -> bool
    decreases a.len(),
{
    if a.len() == 0 {
        b.len() > 0
    } else if b.len() == 0 {
        false
    } else if a[0] != b[0] {
        (a[0] as int) < (b[0] as int)
    } else {
        seq_lt(a.drop_first(), b.drop_first())
    }
}

/// The order is irreflexive.
pub proof fn lemma_seq_lt_irreflexive(a: Seq<char>)
    ensures
        !seq_lt(a, a),
    decreases a.len(),
{
    if a.len() > 0 {
        lemma_seq_lt_irreflexive(a.drop_first());
    }
}

/// The order is total on distinct sequences.
pub proof fn lemma_seq_lt_total(a: Seq<char>, b: Seq<char>)
    ensures
        a == b || seq_lt(a, b) || seq_lt(b, a),
    decreases a.len(),
{
    if a.len() > 0 && b.len() > 0 && a[0] == b[0] {
        lemma_seq_lt_total(a.drop_first(), b.drop_first());
        if a.drop_first() == b.drop_first() {
            assert(a =~= seq![a[0]] + a.drop_first());
            assert(b =~= seq![b[0]] + b.drop_first());
        }
    } else if a.len() == 0 && b.len() == 0 {
        assert(a =~= b);
    } else if a.len() > 0 && b.len() > 0 {
        assert((a[0] as int) != (b[0] as int));
    }
}

/// The order is transitive.
pub proof fn lemma_seq_lt_trans(a: Seq<char>, b: Seq<char>, c: Seq<char>)
    requires
        seq_lt(a, b),
        seq_lt(b, c),
    ensures
        seq_lt(a, c),
    decreases a.len(),
{
    if a.len() > 0 && b.len() > 0 && c.len() > 0 {
        if a[0] == b[0] && b[0] == c[0] {
            lemma_seq_lt_trans(a.drop_first(), b.drop_first(), c.drop_first());
        }
    }
}

/// The order is asymmetric.
pub proof fn lemma_seq_lt_asym(a: Seq<char>, b: Seq<char>)
    requires
        seq_lt(a, b),
    ensures
        !seq_lt(b, a),
{
    if seq_lt(b, a) {
        lemma_seq_lt_trans(a, b, a);
        lemma_seq_lt_irreflexive(a);
    }
}

/// Whether `a < b` in lexicographic order.
pub fn chars_lt(a: &[char], b: &[char]) -> (r: bool)
    ensures
        r == seq_lt(a@, b@),
{
    let mut i: usize = 0;
    proof {
        assert(a@.skip(0) =~= a@);
        assert(b@.skip(0) =~= b@);
    }
    while i < a.len() && i < b.len() && a[i] == b[i]
        invariant
            i <= a@.len(),
            i <= b@.len(),
            seq_lt(a@, b@) == seq_lt(a@.skip(i as int), b@.skip(i as int)),
        decreases a@.len() - i,
    {
        proof {
            let sa = a@.skip(i as int);
            let sb = b@.skip(i as int);
            assert(sa.drop_first() =~= a@.skip(i as int + 1));
            assert(sb.drop_first() =~= b@.skip(i as int + 1));
        }
        i = i + 1;
    }
    if i == a.len() {
        i < b.len()
    } else if i == b.len() {
        false
    } else {
        proof {
            assert(a@.skip(i as int)[0] == a@[i as int]);
            assert(b@.skip(i as int)[0] == b@[i as int]);
        }
        a[i] < b[i]
    }
}

/// Whether `a < b` in lexicographic order.
pub fn str_lt(a: &str, b: &str) -> (r: bool)
    ensures
        r == seq_lt(a@, b@),
{
    let va = chars_of(a);
    let vb = chars_of(b);
    chars_lt(va.as_slice(), vb.as_slice())
}

/// The views of a list of strings.
pub open spec fn string_views(v: Seq<String>) -> Seq<Seq<char>> {
    v.map_values(|s: String| s@)
}

/// Strings strictly ascending (sorted, no duplicates).
pub open spec fn strictly_sorted(v: Seq<Seq<char>>) -> bool {
    forall|i: int, j: int| 0 <= i < j < v.len() ==> seq_lt(#[trigger] v[i], #[trigger] v[j])
}

/// Insert `s` into a strictly ascending list of strings, unless present.
pub fn insert_sorted_unique(v: &mut Vec<String>, s: String)
    requires
        strictly_sorted(string_views(old(v)@)),
    ensures
        strictly_sorted(string_views(final(v)@)),
        forall|x: Seq<char>| #[trigger] string_views(final(v)@).contains(x) <==> (string_views(
            old(v)@,
        ).contains(x) || x == s@),
{
    let ghost old_views = string_views(v@);
    let mut p: usize = 0;
    while p < v.len() && str_lt(v[p].as_str(), s.as_str())
        invariant
            p <= v@.len(),
            v@ == old(v)@,
            forall|i: int| 0 <= i < p ==> seq_lt(#[trigger] v@[i]@, s@),
        decreases v@.len() - p,
    {
        p = p + 1;
    }
    if p < v.len() && v[p] == s {
        proof {
            assert(old_views[p as int] == s@);
        }
        return;
    }
    proof {
        if p < v@.len() {
            lemma_seq_lt_total(v@[p as int]@, s@);
        }
    }
    v.insert(p, s);
    proof {
        let nv = string_views(v@);
        assert(nv =~= old_views.insert(p as int, s@));
        assert forall|i: int, j: int| 0 <= i < j < nv.len() implies seq_lt(
            #[trigger] nv[i],
            #[trigger] nv[j],
        ) by {
            if j < p {
                assert(nv[i] == old_views[i] && nv[j] == old_views[j]);
            } else if j == p {
                assert(nv[i] == old(v)@[i]@);
            } else if i == p {
                assert(nv[j] == old_views[j - 1]);
                if j - 1 > p {
                    assert(seq_lt(old_views[p as int], old_views[j - 1]));
                    lemma_seq_lt_trans(s@, old_views[p as int], old_views[j - 1]);
                }
            } else if i < p {
                assert(nv[i] == old_views[i]);
                assert(nv[j] == old_views[j - 1]);
            } else {
                assert(nv[i] == old_views[i - 1]);
                assert(nv[j] == old_views[j - 1]);
            }
        }
        assert forall|x: Seq<char>| #[trigger] nv.contains(x) <==> (old_views.contains(x) || x
            == s@) by {
            if nv.contains(x) {
                let k = choose|k: int| 0 <= k < nv.len() && nv[k] == x;
                if k < p {
                    assert(old_views[k] == x);
                } else if k > p {
                    assert(old_views[k - 1] == x);
                }
            }
            if old_views.contains(x) {
                let k = choose|k: int| 0 <= k < old_views.len() && old_views[k] == x;
                if k < p {
                    assert(nv[k] == x);
                } else {
                    assert(nv[k + 1] == x);
                }
            }
            if x == s@ {
                assert(nv[p as int] == x);
            }
        }
    }
}

/// The strictly ascending list whose elements are exactly those that
/// satisfy `p` (a finite such list, where there is one, is unique).
pub open spec fn sorted_set(p: spec_fn(Seq<char>) -> bool) -> Seq<Seq<char>> {
    choose|s: Seq<Seq<char>>| strictly_sorted(s) && forall|x: Seq<char>| #[trigger] s.contains(x) <==> p(x)
}

/// Two strictly ascending lists with the same elements are equal.
pub proof fn lemma_sorted_unique(a: Seq<Seq<char>>, b: Seq<Seq<char>>)
    requires
        strictly_sorted(a),
        strictly_sorted(b),
        forall|x: Seq<char>| #[trigger] a.contains(x) <==> b.contains(x),
    ensures
        a == b,
    decreases a.len(),
{
    if a.len() == 0 {
        if b.len() > 0 {
            assert(b.contains(b[0]));
            assert(a.contains(b[0]));
        }
        assert(a =~= b);
    } else {
        assert(a.contains(a[0]));
        assert(b.contains(a[0]));
        assert(b.contains(b[0]));
        assert(a.contains(b[0]));
        let i = choose|i: int| 0 <= i < b.len() && b[i] == a[0];
        let j = choose|j: int| 0 <= j < a.len() && a[j] == b[0];
        if i > 0 {
            assert(seq_lt(b[0], b[i]));
            if j > 0 {
                assert(seq_lt(a[0], a[j]));
                lemma_seq_lt_asym(b[0], a[0]);
            } else {
                lemma_seq_lt_irreflexive(a[0]);
            }
        }
        assert(a[0] == b[0]);
        let a1 = a.drop_first();
        let b1 = b.drop_first();
        assert forall|x: Seq<char>| #[trigger] a1.contains(x) <==> b1.contains(x) by {
            if a1.contains(x) {
                let k = choose|k: int| 0 <= k < a1.len() && a1[k] == x;
                assert(a[k + 1] == x);
                assert(seq_lt(a[0], x));
                assert(a.contains(x));
                assert(b.contains(x));
                let m = choose|m: int| 0 <= m < b.len() && b[m] == x;
                if m == 0 {
                    lemma_seq_lt_irreflexive(x);
                }
                assert(b1[m - 1] == x);
            }
            if b1.contains(x) {
                let k = choose|k: int| 0 <= k < b1.len() && b1[k] == x;
                assert(b[k + 1] == x);
                assert(seq_lt(b[0], x));
                assert(b.contains(x));
                assert(a.contains(x));
                let m = choose|m: int| 0 <= m < a.len() && a[m] == x;
                if m == 0 {
                    lemma_seq_lt_irreflexive(x);
                }
                assert(a1[m - 1] == x);
            }
        }
        assert forall|p: int, q: int| 0 <= p < q < a1.len() implies seq_lt(#[trigger] a1[p], #[trigger] a1[q]) by {
            assert(a1[p] == a[p + 1] && a1[q] == a[q + 1]);
        }
        assert forall|p: int, q: int| 0 <= p < q < b1.len() implies seq_lt(#[trigger] b1[p], #[trigger] b1[q]) by {
            assert(b1[p] == b[p + 1] && b1[q] == b[q + 1]);
        }
        lemma_sorted_unique(a1, b1);
        assert(a =~= seq![a[0]] + a1);
        assert(b =~= seq![b[0]] + b1);
    }
}

/// A strictly ascending list with exactly the elements satisfying `p` is
/// `sorted_set(p)`.
pub proof fn lemma_is_sorted_set(s: Seq<Seq<char>>, p: spec_fn(Seq<char>) -> bool)
    requires
        strictly_sorted(s),
        forall|x: Seq<char>| #[trigger] s.contains(x) <==> p(x),
    ensures
        sorted_set(p) == s,
{
    let t = sorted_set(p);
    assert(strictly_sorted(t) && forall|x: Seq<char>| #[trigger] t.contains(x) <==> p(x));
    lemma_sorted_unique(s, t);
}

/// A strictly ascending list holding the elements of `s` and `x`.
pub proof fn lemma_sorted_insert(s: Seq<Seq<char>>, x: Seq<char>) -> (t: Seq<Seq<char>>)
    requires
        strictly_sorted(s),
    ensures
        strictly_sorted(t),
        forall|y: Seq<char>| #[trigger] t.contains(y) <==> (s.contains(y) || y == x),
    decreases s.len(),
{
    if s.len() == 0 {
        let t = seq![x];
        assert forall|y: Seq<char>| #[trigger] t.contains(y) <==> (s.contains(y) || y == x) by {
            if y == x {
                assert(t[0] == y);
            }
        }
        t
    } else if s[0] == x {
        assert forall|y: Seq<char>| #[trigger] s.contains(y) <==> (s.contains(y) || y == x) by {
            if y == x {
                assert(s[0] == y);
            }
        }
        s
    } else if seq_lt(x, s[0]) {
        let t = seq![x] + s;
        assert forall|i: int, j: int| 0 <= i < j < t.len() implies seq_lt(#[trigger] t[i], #[trigger] t[j]) by {
            if i == 0 {
                if j > 1 {
                    assert(seq_lt(s[0], s[j - 1]));
                    lemma_seq_lt_trans(x, s[0], s[j - 1]);
                }
            } else {
                assert(t[i] == s[i - 1] && t[j] == s[j - 1]);
            }
        }
        assert forall|y: Seq<char>| #[trigger] t.contains(y) <==> (s.contains(y) || y == x) by {
            if t.contains(y) {
                let k = choose|k: int| 0 <= k < t.len() && t[k] == y;
                if k > 0 {
                    assert(s[k - 1] == y);
                }
            }
            if s.contains(y) {
                let k = choose|k: int| 0 <= k < s.len() && s[k] == y;
                assert(t[k + 1] == y);
            }
            if y == x {
                assert(t[0] == y);
            }
        }
        t
    } else {
        lemma_seq_lt_total(x, s[0]);
        let s1 = s.drop_first();
        assert forall|i: int, j: int| 0 <= i < j < s1.len() implies seq_lt(#[trigger] s1[i], #[trigger] s1[j]) by {
            assert(s1[i] == s[i + 1] && s1[j] == s[j + 1]);
        }
        let t1 = lemma_sorted_insert(s1, x);
        let t = seq![s[0]] + t1;
        assert forall|k: int| 0 <= k < t1.len() implies seq_lt(s[0], #[trigger] t1[k]) by {
            assert(t1.contains(t1[k]));
            if t1[k] != x {
                assert(s1.contains(t1[k]));
                let m = choose|m: int| 0 <= m < s1.len() && s1[m] == t1[k];
                assert(s[m + 1] == t1[k]);
            }
        }
        assert forall|i: int, j: int| 0 <= i < j < t.len() implies seq_lt(#[trigger] t[i], #[trigger] t[j]) by {
            if i == 0 {
                assert(t[j] == t1[j - 1]);
            } else {
                assert(t[i] == t1[i - 1] && t[j] == t1[j - 1]);
            }
        }
        assert forall|y: Seq<char>| #[trigger] t.contains(y) <==> (s.contains(y) || y == x) by {
            if t.contains(y) {
                let k = choose|k: int| 0 <= k < t.len() && t[k] == y;
                if k == 0 {
                    assert(s[0] == y);
                } else {
                    assert(t1[k - 1] == y);
                    assert(t1.contains(y));
                    if y != x {
                        let m = choose|m: int| 0 <= m < s1.len() && s1[m] == y;
                        assert(s[m + 1] == y);
                    }
                }
            }
            if s.contains(y) {
                let k = choose|k: int| 0 <= k < s.len() && s[k] == y;
                if k == 0 {
                    assert(t[0] == y);
                } else {
                    assert(s1[k - 1] == y);
                    assert(s1.contains(y));
                    assert(t1.contains(y));
                    let m = choose|m: int| 0 <= m < t1.len() && t1[m] == y;
                    assert(t[m + 1] == y);
                }
            }
            if y == x {
                assert(t1.contains(y));
                let m = choose|m: int| 0 <= m < t1.len() && t1[m] == y;
                assert(t[m + 1] == y);
            }
        }
        t
    }
}

/// A strictly ascending list of the first `n` elements of `a` that satisfy `p`.
proof fn lemma_sorted_filter(a: Seq<Seq<char>>, p: spec_fn(Seq<char>) -> bool, n: int) -> (s: Seq<Seq<char>>)
    requires
        0 <= n <= a.len(),
    ensures
        strictly_sorted(s),
        forall|x: Seq<char>| #[trigger] s.contains(x) <==> (a.take(n).contains(x) && p(x)),
    decreases n,
{
    if n == 0 {
        let s: Seq<Seq<char>> = Seq::empty();
        assert forall|x: Seq<char>| #[trigger] s.contains(x) <==> (a.take(n).contains(x) && p(x)) by {
            if a.take(n).contains(x) {
                let k = choose|k: int| 0 <= k < a.take(n).len() && a.take(n)[k] == x;
            }
        }
        s
    } else {
        let s0 = lemma_sorted_filter(a, p, n - 1);
        let pre = a.take(n - 1);
        let full = a.take(n);
        assert(full =~= pre.push(a[n - 1]));
        if p(a[n - 1]) {
            let s = lemma_sorted_insert(s0, a[n - 1]);
            assert forall|x: Seq<char>| #[trigger] s.contains(x) <==> (full.contains(x) && p(x)) by {
                if full.contains(x) {
                    let k = choose|k: int| 0 <= k < full.len() && full[k] == x;
                    if k < n - 1 {
                        assert(pre[k] == x);
                        assert(pre.contains(x));
                    }
                }
                if pre.contains(x) {
                    let k = choose|k: int| 0 <= k < pre.len() && pre[k] == x;
                    assert(full[k] == x);
                }
                if x == a[n - 1] {
                    assert(full[n - 1] == x);
                }
            }
            s
        } else {
            assert forall|x: Seq<char>| #[trigger] s0.contains(x) <==> (full.contains(x) && p(x)) by {
                if full.contains(x) {
                    let k = choose|k: int| 0 <= k < full.len() && full[k] == x;
                    if k < n - 1 {
                        assert(pre[k] == x);
                        assert(pre.contains(x));
                    }
                }
                if pre.contains(x) {
                    let k = choose|k: int| 0 <= k < pre.len() && pre[k] == x;
                    assert(full[k] == x);
                }
            }
            s0
        }
    }
}

/// When every element satisfying `p` occurs in `a`, `sorted_set(p)` is
/// strictly ascending and holds exactly those elements.
pub proof fn lemma_sorted_set_of_subset(a: Seq<Seq<char>>, p: spec_fn(Seq<char>) -> bool)
    requires
        forall|x: Seq<char>| #[trigger] p(x) ==> a.contains(x),
    ensures
        strictly_sorted(sorted_set(p)),
        forall|x: Seq<char>| #[trigger] sorted_set(p).contains(x) <==> p(x),
{
    let s = lemma_sorted_filter(a, p, a.len() as int);
    assert(a.take(a.len() as int) =~= a);
    assert forall|x: Seq<char>| #[trigger] s.contains(x) <==> p(x) by {
        if p(x) {
            assert(a.contains(x));
        }
    }
    lemma_is_sorted_set(s, p);
}

/// Whether `s` is one of the strings of `v`.
pub fn strings_contain(v: &Vec<String>, s: &String) -> (b: bool)
    ensures
        b == string_views(v@).contains(s@),
{
    let mut i: usize = 0;
    while i < v.len()
        invariant
            i <= v@.len(),
            forall|k: int| 0 <= k < i ==> (#[trigger] v@[k])@ != s@,
        decreases v@.len() - i,
    {
        if v[i] == *s {
            proof {
                assert(string_views(v@)[i as int] == s@);
            }
            return true;
        }
        i = i + 1;
    }
    proof {
        if string_views(v@).contains(s@) {
            let k = choose|k: int| 0 <= k < v@.len() && string_views(v@)[k] == s@;
            assert(v@[k]@ == s@);
        }
    }
    false
}

// ── Substrings, prefixes, suffixes ───────────────────────────────────────

/// Whether `needle` occurs in `hay` at position `i`.
pub open spec fn occurs_at(hay: Seq<char>, needle: Seq<char>, i: int) -> bool {
    0 <= i && i + needle.len() <= hay.len() && hay.subrange(i, i + needle.len()) == needle
}

/// Whether `needle` occurs somewhere in `hay` (`str::contains`).
pub open spec fn has_infix(hay: Seq<char>, needle: Seq<char>) -> bool {
    exists|i: int| occurs_at(hay, needle, i)
}

/// Whether `hay` starts with `p`.
pub open spec fn has_prefix(hay: Seq<char>, p: Seq<char>) -> bool {
    p.len() <= hay.len() && hay.take(p.len() as int) == p
}

/// Whether `hay` ends with `p`.
pub open spec fn has_suffix(hay: Seq<char>, p: Seq<char>) -> bool {
    p.len() <= hay.len() && hay.skip(hay.len() - p.len()) == p
}

fn occurs_at_exec(hay: &[char], needle: &[char], i: usize) -> (b: bool)
    requires
        i + needle@.len() <= hay@.len(),
    ensures
        b == occurs_at(hay@, needle@, i as int),
{
    let n = hay.len();
    let mut j: usize = 0;
    while j < needle.len()
        invariant
            j <= needle@.len(),
            n == hay@.len(),
            i + needle@.len() <= hay@.len(),
            forall|k: int| 0 <= k < j ==> hay@[i + k] == needle@[k],
        decreases needle@.len() - j,
    {
        if hay[i + j] != needle[j] {
            proof {
                assert(hay@.subrange(i as int, i + needle@.len())[j as int] != needle@[j as int]);
            }
            return false;
        }
        j = j + 1;
    }
    proof {
        assert(hay@.subrange(i as int, i + needle@.len()) =~= needle@);
    }
    true
}

/// Whether `needle` occurs in `hay`.
pub fn chars_contain(hay: &[char], needle: &[char]) -> (b: bool)
    ensures
        b == has_infix(hay@, needle@),
{
    if needle.len() > hay.len() {
        proof {
            assert forall|i: int| !occurs_at(hay@, needle@, i) by {
            }
        }
        return false;
    }
    if needle.len() == 0 {
        proof {
            assert(hay@.subrange(0, 0) =~= needle@);
            assert(occurs_at(hay@, needle@, 0));
        }
        return true;
    }
    let last = hay.len() - needle.len();
    let total = hay.len();
    let mut i: usize = 0;
    while i <= last
        invariant
            total == hay@.len(),
            last + needle@.len() == hay@.len(),
            needle@.len() > 0,
            i <= last + 1,
            forall|k: int| 0 <= k < i ==> !occurs_at(hay@, needle@, k),
        decreases last + 1 - i,
    {
        if occurs_at_exec(hay, needle, i) {
            return true;
        }
        i = i + 1;
    }
    proof {
        assert forall|k: int| !occurs_at(hay@, needle@, k) by {
            if 0 <= k < i {
            }
        }
    }
    false
}

/// `hay.contains(needle)`.
pub fn str_contains(hay: &str, needle: &str) -> (b: bool)
    ensures
        b == has_infix(hay@, needle@),
{
    let h = chars_of(hay);
    let n = chars_of(needle);
    chars_contain(h.as_slice(), n.as_slice())
}

/// Whether `hay` starts with `p`.
pub fn chars_start_with(hay: &[char], p: &[char]) -> (b: bool)
    ensures
        b == has_prefix(hay@, p@),
{
    if p.len() > hay.len() {
        return false;
    }
    let r = occurs_at_exec(hay, p, 0);
    proof {
        assert(hay@.subrange(0, p@.len() as int) =~= hay@.take(p@.len() as int));
    }
    r
}

/// Whether `hay` ends with `p`.
pub fn chars_end_with(hay: &[char], p: &[char]) -> (b: bool)
    ensures
        b == has_suffix(hay@, p@),
{
    if p.len() > hay.len() {
        return false;
    }
    let start = hay.len() - p.len();
    let r = occurs_at_exec(hay, p, start);
    proof {
        assert(hay@.subrange(start as int, hay@.len() as int) =~= hay@.skip(start as int));
    }
    r
}

/// `hay.starts_with(p)`.
pub fn str_starts_with(hay: &str, p: &str) -> (b: bool)
    ensures
        b == has_prefix(hay@, p@),
{
    let h = chars_of(hay);
    let n = chars_of(p);
    chars_start_with(h.as_slice(), n.as_slice())
}

/// `hay.ends_with(p)`.
pub fn str_ends_with(hay: &str, p: &str) -> (b: bool)
    ensures
        b == has_suffix(hay@, p@),
{
    let h = chars_of(hay);
    let n = chars_of(p);
    chars_end_with(h.as_slice(), n.as_slice())
}

// ── ASCII lowercase ──────────────────────────────────────────────────────

/// Whether every character is ASCII.
pub open spec fn is_ascii_seq(s: Seq<char>) -> bool {
    forall|i: int| 0 <= i < s.len() ==> (#[trigger] s[i] as u32) < 128
}

/// `char::to_ascii_lowercase`.
pub open spec fn ascii_lower(c: char) -> char {
    if 'A' <= c && c <= 'Z' {
        ((c as u32) + 32) as char
    } else {
        c
    }
}

/// `str::to_ascii_lowercase`.
pub open spec fn ascii_lower_seq(s: Seq<char>) -> Seq<char> {
    s.map_values(|c: char| ascii_lower(c))
}

/// `c.to_ascii_lowercase()`.
pub fn char_ascii_lower(c: char) -> (r: char)
    ensures
        r == ascii_lower(c),
{
    if 'A' <= c && c <= 'Z' {
        let n: u32 = (c as u32) + 32;
        let b: u8 = n as u8;
        b as char
    } else {
        c
    }
}

/// The ASCII-lowercased characters of `v`.
pub fn chars_ascii_lower(v: &[char]) -> (r: Vec<char>)
    ensures
        r@ == ascii_lower_seq(v@),
{
    let mut out: Vec<char> = Vec::new();
    let mut i: usize = 0;
    while i < v.len()
        invariant
            i <= v@.len(),
            out@ == ascii_lower_seq(v@.take(i as int)),
        decreases v@.len() - i,
    {
        out.push(char_ascii_lower(v[i]));
        proof {
            assert(ascii_lower_seq(v@.take(i as int + 1)) =~= ascii_lower_seq(v@.take(i as int)).push(
                ascii_lower(v@[i as int]),
            ));
        }
        i = i + 1;
    }
    proof {
        assert(v@.take(i as int) =~= v@);
    }
    out
}

/// `s.to_ascii_lowercase()`.
pub fn str_ascii_lower(s: &str) -> (r: String)
    ensures
        r@ == ascii_lower_seq(s@),
{
    let v = chars_of(s);
    let l = chars_ascii_lower(v.as_slice());
    string_from_chars(l.as_slice())
}

// ── Trimming ─────────────────────────────────────────────────────────────

/// `str::trim_start`.
pub open spec fn trim_start(s: Seq<char>) -> Seq<char>
    decreases s.len(),
{
    if s.len() > 0 && is_ws(s[0]) {
        trim_start(s.drop_first())
    } else {
        s
    }
}

/// `str::trim_end`.
pub open spec fn trim_end(s: Seq<char>) -> Seq<char>
    decreases s.len(),
{
    if s.len() > 0 && is_ws(s.last()) {
        trim_end(s.drop_last())
    } else {
        s
    }
}

/// `str::trim`.
pub open spec fn trim(s: Seq<char>) -> Seq<char> {
    trim_end(trim_start(s))
}

/// The characters of `v` with leading and trailing whitespace removed.
pub fn chars_trim(v: &[char]) -> (r: Vec<char>)
    ensures
        r@ == trim(v@),
{
    let mut i: usize = 0;
    proof {
        assert(v@.skip(0) =~= v@);
    }
    while i < v.len() && char_is_ws(v[i])
        invariant
            i <= v@.len(),
            trim_start(v@) == trim_start(v@.skip(i as int)),
        decreases v@.len() - i,
    {
        proof {
            assert(v@.skip(i as int).drop_first() =~= v@.skip(i as int + 1));
        }
        i = i + 1;
    }
    let ghost start = v@.skip(i as int);
    assert(trim_start(v@) == start);
    let mut j: usize = v.len();
    proof {
        assert(start.take(start.len() as int) =~= start);
    }
    while j > i && char_is_ws(v[j - 1])
        invariant
            i <= j <= v@.len(),
            start == v@.skip(i as int),
            trim_end(start) == trim_end(start.take(j - i)),
        decreases j,
    {
        proof {
            assert(start.take(j - i).drop_last() =~= start.take(j - i - 1));
            assert(start.take(j - i).last() == v@[j - 1]);
        }
        j = j - 1;
    }
    let mut out: Vec<char> = Vec::new();
    let mut k: usize = i;
    while k < j
        invariant
            i <= k <= j,
            j <= v@.len(),
            out@ == v@.subrange(i as int, k as int),
        decreases j - k,
    {
        out.push(v[k]);
        proof {
            assert(v@.subrange(i as int, k as int + 1) =~= v@.subrange(i as int, k as int).push(
                v@[k as int],
            ));
        }
        k = k + 1;
    }
    proof {
        assert(start.take(j - i) =~= v@.subrange(i as int, j as int));
        if j > i {
            assert(start.take(j - i).last() == v@[j - 1]);
        }
        assert(trim_end(start.take(j - i)) == start.take(j - i));
    }
    out
}

} // verus!
