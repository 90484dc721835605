use vstd::prelude::*;

use vstd::utf8::*;

verus! {

broadcast use vstd::utf8::char_is_scalar;

/// The number of bytes that the first `k` chars of `s` take in UTF-8.
pub open spec fn prefix_bytes(s: Seq<char>, k: int) -> nat {
    encode_utf8(s.take(k)).len()
}

/// The number of bytes that `c` takes in UTF-8.
pub open spec fn utf8_width(c: char) -> nat {
    encode_scalar(c as u32).len()
}

/// Encoding a concatenation encodes each part in turn.
pub proof fn lemma_encode_utf8_concat(a: Seq<char>, b: Seq<char>)
    ensures
        encode_utf8(a + b) == encode_utf8(a) + encode_utf8(b),
    decreases a.len(),
{
    if a.len() == 0 {
        assert(a + b =~= b);
        assert(encode_utf8(a) =~= Seq::<u8>::empty());
        assert(encode_utf8(a) + encode_utf8(b) =~= encode_utf8(b));
    } else {
        lemma_encode_utf8_concat(a.drop_first(), b);
        assert((a + b).drop_first() =~= a.drop_first() + b);
        assert((a + b)[0] == a[0]);
        assert(encode_utf8(a + b) =~= encode_utf8(a) + encode_utf8(b));
    }
}

/// Every char takes between one and four bytes.
pub proof fn lemma_utf8_width_bounds(c: char)
    ensures
        1 <= utf8_width(c) <= 4,
{
}

/// One more char adds its own width to the byte length of a prefix.
pub proof fn lemma_prefix_bytes_step(s: Seq<char>, k: int)
    requires
        0 <= k < s.len(),
    ensures
        prefix_bytes(s, k + 1) == prefix_bytes(s, k) + utf8_width(s[k]),
{
    assert(s.take(k + 1) =~= s.take(k) + seq![s[k]]);
    lemma_encode_utf8_concat(s.take(k), seq![s[k]]);
    let one = seq![s[k]];
    assert(one.drop_first() =~= Seq::<char>::empty());
    assert(encode_utf8(one.drop_first()) =~= Seq::<u8>::empty());
    assert(encode_utf8(one) =~= encode_scalar(one[0] as u32) + encode_utf8(one.drop_first()));
    assert(encode_utf8(one) =~= encode_scalar(s[k] as u32));
}

/// Byte lengths of prefixes grow strictly with the number of chars, and never fall
/// below it.
pub proof fn lemma_prefix_bytes_grow(s: Seq<char>, j: int, k: int)
    requires
        0 <= j <= k <= s.len(),
    ensures
        prefix_bytes(s, k) >= prefix_bytes(s, j) + (k - j),
    decreases k - j,
{
    if j < k {
        lemma_prefix_bytes_grow(s, j, k - 1);
        lemma_prefix_bytes_step(s, k - 1);
        lemma_utf8_width_bounds(s[k - 1]);
    }
}

/// The whole text takes at least as many bytes as it has chars.
pub proof fn lemma_bytes_at_least_chars(s: Seq<char>)
    ensures
        encode_utf8(s).len() >= s.len(),
{
    lemma_prefix_bytes_grow(s, 0, s.len() as int);
    assert(s.take(s.len() as int) =~= s);
    assert(s.take(0) =~= Seq::<char>::empty());
}

/// The width of a char in UTF-8, computed from its scalar value.
pub fn char_width(c: char) -> (w: usize)
    ensures
        w == utf8_width(c),
{
    let v = c as u32;
    if v <= 0x7f {
        1
    } else if v <= 0x7ff {
        2
    } else if v <= 0xffff {
        3
    } else {
        4
    }
}

/// `s` without the run of `/` at its end.
pub open spec fn trim_trailing_slashes(s: Seq<char>) -> Seq<char>
    decreases s.len(),
{
    if s.len() > 0 && s.last() == '/' {
        trim_trailing_slashes(s.drop_last())
    } else {
        s
    }
}

/// The pieces of `s` between the `/` in it; there is always at least one.
pub open spec fn split_on_slash(s: Seq<char>) -> Seq<Seq<char>>
    decreases s.len(),
{
    if s.len() == 0 {
        seq![Seq::<char>::empty()]
    } else {
        let before = split_on_slash(s.drop_last());
        if s.last() == '/' {
            before.push(Seq::<char>::empty())
        } else {
            before.update(before.len() - 1, before.last().push(s.last()))
        }
    }
}

/// Whether `s` begins with `prefix`.
pub open spec fn has_prefix(s: Seq<char>, prefix: Seq<char>) -> bool {
    prefix.len() <= s.len() && s.take(prefix.len() as int) == prefix
}

/// Whether `s` ends with `/`.
pub open spec fn ends_with_slash(s: Seq<char>) -> bool {
    s.len() > 0 && s.last() == '/'
}

/// Taking the trailing `/` off `s` leaves a prefix of `s` that is empty or does not end
/// in `/`, and what was taken off is all `/`.
pub proof fn lemma_trim_trailing_slashes(s: Seq<char>)
    ensures
        trim_trailing_slashes(s).len() <= s.len(),
        s.take(trim_trailing_slashes(s).len() as int) == trim_trailing_slashes(s),
        forall|k: int| trim_trailing_slashes(s).len() <= k < s.len() ==> s[k] == '/',
        trim_trailing_slashes(s).len() == 0 || trim_trailing_slashes(s).last() != '/',
    decreases s.len(),
{
    if s.len() > 0 && s.last() == '/' {
        lemma_trim_trailing_slashes(s.drop_last());
        let t = trim_trailing_slashes(s.drop_last());
        assert(s.take(t.len() as int) =~= s.drop_last().take(t.len() as int));
        assert forall|k: int| t.len() <= k < s.len() implies s[k] == '/' by {
            if k < s.len() - 1 {
                assert(s[k] == s.drop_last()[k]);
            }
        }
    } else {
        assert(s.take(s.len() as int) =~= s);
    }
}

/// The last piece of `split_on_slash(s)` holds no `/` and is the end of `s`, right after
/// its last `/` (or all of `s` when it has none).
pub proof fn lemma_split_last_piece(s: Seq<char>)
    ensures
        split_on_slash(s).len() >= 1,
        split_on_slash(s).last().len() <= s.len(),
        s.skip(s.len() - split_on_slash(s).last().len()) == split_on_slash(s).last(),
        !split_on_slash(s).last().contains('/'),
        split_on_slash(s).last().len() < s.len() ==> s[s.len() - split_on_slash(s).last().len()
            - 1] == '/',
    decreases s.len(),
{
    if s.len() == 0 {
        assert(s.skip(0) =~= Seq::<char>::empty());
    } else {
        lemma_split_last_piece(s.drop_last());
        let before = split_on_slash(s.drop_last());
        if s.last() == '/' {
            assert(s.skip(s.len() as int) =~= Seq::<char>::empty());
        } else {
            let piece = before.last().push(s.last());
            assert(split_on_slash(s).last() == piece);
            assert(s.skip(s.len() - piece.len()) =~= s.drop_last().skip(
                s.drop_last().len() - before.last().len(),
            ).push(s.last()));
            assert forall|k: int| 0 <= k < piece.len() implies piece[k] != '/' by {
                if k < before.last().len() {
                    assert(before.last()[k] == piece[k]);
                }
            }
            if piece.len() < s.len() {
                assert(s[s.len() - piece.len() - 1] == s.drop_last()[s.drop_last().len()
                    - before.last().len() - 1]);
            }
        }
    }
}

/// A text without `/` is a single piece.
pub proof fn lemma_split_without_slash(s: Seq<char>)
    requires
        !s.contains('/'),
    ensures
        split_on_slash(s) == seq![s],
    decreases s.len(),
{
    if s.len() > 0 {
        assert(!s.drop_last().contains('/')) by {
            if s.drop_last().contains('/') {
                let k = choose|k: int| 0 <= k < s.drop_last().len() && s.drop_last()[k] == '/';
                assert(s[k] == '/');
            }
        }
        lemma_split_without_slash(s.drop_last());
        assert(s.last() != '/') by {
            assert(s[s.len() - 1] == s.last());
        }
        assert(s.drop_last().push(s.last()) =~= s);
        assert(split_on_slash(s) =~= seq![s]);
    } else {
        assert(s =~= Seq::<char>::empty());
    }
}

/// Cutting `a`, a `/` and then a text `n` without `/` gives the pieces of `a` and then
/// `n`.
pub proof fn lemma_split_after_slash(a: Seq<char>, n: Seq<char>)
    requires
        !n.contains('/'),
    ensures
        split_on_slash(a + seq!['/'] + n) == split_on_slash(a).push(n),
    decreases n.len(),
{
    let s = a + seq!['/'] + n;
    if n.len() == 0 {
        assert(s.drop_last() =~= a);
        assert(s.last() == '/');
        assert(n =~= Seq::<char>::empty());
    } else {
        let m = n.drop_last();
        assert(!m.contains('/')) by {
            if m.contains('/') {
                let k = choose|k: int| 0 <= k < m.len() && m[k] == '/';
                assert(n[k] == '/');
            }
        }
        lemma_split_after_slash(a, m);
        assert(s.drop_last() =~= a + seq!['/'] + m);
        assert(s.last() == n.last());
        assert(n.last() != '/') by {
            assert(n[n.len() - 1] == n.last());
        }
        assert(m.push(n.last()) =~= n);
        let before = split_on_slash(s.drop_last());
        assert(before == split_on_slash(a).push(m));
        assert(before.last() == m);
        assert(split_on_slash(s) == before.update(before.len() - 1, before.last().push(s.last())));
        assert(split_on_slash(s) =~= split_on_slash(a).push(n));
    }
}

/// The chars of `s`, one by one.
pub fn chars_of(s: &str) -> (r: Vec<char>)
    ensures
        r@ == s@,
{
    let mut r: Vec<char> = Vec::new();
    for c in it: s.chars()
        invariant
            it.seq() == s@,
            r@ == s@.take(it.index() as int),
    {
        assert(s@.take(it.index() + 1) =~= r@.push(c));
        r.push(c);
    }
    assert(s@.take(s@.len() as int) =~= s@);
    r
}

/// Whether `s` begins with `prefix`.
pub fn starts_with(s: &str, prefix: &str) -> (r: bool)
    ensures
        r == has_prefix(s@, prefix@),
{
    let a = chars_of(s);
    let b = chars_of(prefix);
    if b.len() > a.len() {
        return false;
    }
    let n = b.len();
    for i in 0..n
        invariant
            n == b@.len(),
            n <= a@.len(),
            a@ == s@,
            b@ == prefix@,
            forall|j: int| 0 <= j < i ==> a@[j] == b@[j],
    {
        if a[i] != b[i] {
            assert(s@.take(n as int)[i as int] != prefix@[i as int]);
            return false;
        }
    }
    assert(s@.take(n as int) =~= prefix@);
    true
}

/// Whether `s` ends with `/`.
pub fn is_slash_terminated(s: &str) -> (r: bool)
    ensures
        r == ends_with_slash(s@),
{
    let cs = chars_of(s);
    cs.len() > 0 && cs[cs.len() - 1] == '/'
}

/// The number of chars left when the run of `/` at the end of `cs` is taken off.
pub fn trimmed_length(cs: &Vec<char>) -> (k: usize)
    ensures
        k <= cs@.len(),
        trim_trailing_slashes(cs@) == cs@.take(k as int),
{
    let mut k: usize = 0;
    let n = cs.len();
    for i in 0..n
        invariant
            n == cs@.len(),
            k <= i,
            trim_trailing_slashes(cs@.take(i as int)) == cs@.take(k as int),
    {
        let ghost before = cs@.take(i as int);
        let ghost after = cs@.take(i + 1);
        assert(after.drop_last() =~= before);
        if cs[i] != '/' {
            k = i + 1;
        }
        assert(cs@.take(k as int) =~= trim_trailing_slashes(after));
    }
    assert(cs@.take(n as int) =~= cs@);
    k
}

/// `s` without the run of `/` at its end.
pub fn trim_slashes(s: &str) -> (r: String)
    ensures
        r@ == trim_trailing_slashes(s@),
{
    let cs = chars_of(s);
    let k = trimmed_length(&cs);
    let mut r = String::new();
    for i in 0..k
        invariant
            k <= cs@.len(),
            r@ == cs@.take(i as int),
    {
        assert(cs@.take(i + 1) =~= r@.push(cs@[i as int]));
        crate::platform::string_push(&mut r, cs[i]);
    }
    r
}

} // verus!
