//! Request paths: trimming a base URL and appending `/block/{height}`.
use vstd::prelude::*;

verus! {

/// `s` with every trailing `/` removed.
pub open spec fn trim_end_slashes(s: Seq<char>) -> Seq<char>
    decreases s.len(),
{
    if s.len() > 0 && s.last() == '/' {
        trim_end_slashes(s.drop_last())
    } else {
        s
    }
}

/// The character of a decimal digit.
pub open spec fn digit_char(d: nat) -> char {
    if d == 0 { '0' }
    else if d == 1 { '1' }
    else if d == 2 { '2' }
    else if d == 3 { '3' }
    else if d == 4 { '4' }
    else if d == 5 { '5' }
    else if d == 6 { '6' }
    else if d == 7 { '7' }
    else if d == 8 { '8' }
    else { '9' }
}

/// The decimal notation of `n`, without sign or leading zeros.
pub open spec fn decimal(n: nat) -> Seq<char>
    decreases n,
{
    if n < 10 {
        seq![digit_char(n)]
    } else {
        decimal(n / 10).push(digit_char(n % 10))
    }
}

/// The path segment that comes between a base URL and a block height.
pub open spec fn block_segment() -> Seq<char> {
    seq!['/', 'b', 'l', 'o', 'c', 'k', '/']
}

/// The URL of the block at `height` under the (trimmed) base URL `base`.
pub open spec fn block_url_of(base: Seq<char>, height: nat) -> Seq<char> {
    base + block_segment() + decimal(height)
}

/// True when `s` holds two `/` in a row starting at some index `k` with `from <= k`.
pub open spec fn has_double_slash_from(s: Seq<char>, from: int) -> bool {
    exists|k: int| from <= k && 0 <= k && k + 1 < s.len() && #[trigger] s[k] == '/' && s[k + 1] == '/'
}

proof fn lemma_trim_end_slashes(s: Seq<char>)
    ensures
        trim_end_slashes(s).len() <= s.len(),
        trim_end_slashes(s) == s.subrange(0, trim_end_slashes(s).len() as int),
        trim_end_slashes(s).len() == 0 || trim_end_slashes(s).last() != '/',
        forall|i: int| trim_end_slashes(s).len() <= i < s.len() ==> s[i] == '/',
    decreases s.len(),
{
    if s.len() > 0 && s.last() == '/' {
        lemma_trim_end_slashes(s.drop_last());
        assert(s.drop_last() =~= s.subrange(0, s.len() - 1));
        assert(trim_end_slashes(s) =~= s.subrange(0, trim_end_slashes(s).len() as int));
        assert forall|i: int| trim_end_slashes(s).len() <= i < s.len() implies s[i] == '/' by {
            if i < s.len() - 1 {
                assert(s[i] == s.drop_last()[i]);
            }
        }
    } else {
        assert(s =~= s.subrange(0, s.len() as int));
    }
}

proof fn lemma_decimal_digits(n: nat)
    ensures
        decimal(n).len() >= 1,
        forall|i: int| 0 <= i < decimal(n).len() ==> #[trigger] decimal(n)[i] != '/',
    decreases n,
{
    if n >= 10 {
        lemma_decimal_digits(n / 10);
    }
}

/// Returns `s` without its trailing `/` characters.
pub fn trim_end_slashes_of(s: &str) -> (r: String)
    ensures
        r@ == trim_end_slashes(s@),
{
    proof {
        lemma_trim_end_slashes(s@);
    }
    let mut n: usize = s.unicode_len();
    while n > 0 && s.get_char(n - 1) == '/'
        invariant
            n <= s@.len(),
            trim_end_slashes(s@).len() <= n,
            trim_end_slashes(s@) == s@.subrange(0, trim_end_slashes(s@).len() as int),
            trim_end_slashes(s@).len() == 0 || trim_end_slashes(s@).last() != '/',
            forall|i: int| n <= i < s@.len() ==> s@[i] == '/',
            forall|i: int| trim_end_slashes(s@).len() <= i < s@.len() ==> s@[i] == '/',
        decreases n,
    {
        n = n - 1;
    }
    assert(n == trim_end_slashes(s@).len()) by {
        if n > trim_end_slashes(s@).len() {
            assert(s@[n - 1] == '/');
        }
    }
    String::from_str(s.substring_char(0, n))
}

/// The one-character text of the digit `d`.
fn digit_text(d: u32) -> (r: &'static str)
    requires
        d < 10,
    ensures
        r@ == seq![digit_char(d as nat)],
{
    let r = match d {
        0 => "0",
        1 => "1",
        2 => "2",
        3 => "3",
        4 => "4",
        5 => "5",
        6 => "6",
        7 => "7",
        8 => "8",
        _ => "9",
    };
    proof {
        reveal_strlit("0");
        reveal_strlit("1");
        reveal_strlit("2");
        reveal_strlit("3");
        reveal_strlit("4");
        reveal_strlit("5");
        reveal_strlit("6");
        reveal_strlit("7");
        reveal_strlit("8");
        reveal_strlit("9");
    }
    assert(r@ =~= seq![digit_char(d as nat)]);
    r
}

/// Appends the decimal notation of `n` to `out`.
pub fn push_decimal(out: &mut String, n: u32)
    ensures
        final(out)@ == old(out)@ + decimal(n as nat),
    decreases n,
{
    if n >= 10 {
        push_decimal(out, n / 10);
    }
    out.append(digit_text(n % 10));
    assert(decimal(n as nat) =~= if n < 10 {
        seq![digit_char(n as nat)]
    } else {
        decimal((n / 10) as nat).push(digit_char((n % 10) as nat))
    });
}

/// The decimal notation of `n`.
pub fn decimal_text(n: u32) -> (r: String)
    ensures
        r@ == decimal(n as nat),
{
    let mut r = String::new();
    push_decimal(&mut r, n);
    assert(r@ =~= decimal(n as nat));
    r
}

/// Returns `base` followed by `/block/` and the decimal notation of `height`.
pub fn block_url_text(base: &str, height: u32) -> (r: String)
    ensures
        r@ == block_url_of(base@, height as nat),
{
    let mut r = String::from_str(base);
    r.append("/block/");
    proof {
        reveal_strlit("/block/");
        assert("/block/"@ =~= block_segment());
    }
    push_decimal(&mut r, height);
    r
}

/// A base URL that does not end in `/` meets the block path without a double slash.
pub proof fn lemma_joins_cleanly(t: Seq<char>, height: nat)
    requires
        t.len() == 0 || t.last() != '/',
    ensures
        !has_double_slash_from(block_url_of(t, height), t.len() - 1),
{
    lemma_decimal_digits(height);
    let u = block_url_of(t, height);
    assert forall|k: int| t.len() - 1 <= k && 0 <= k && k + 1 < u.len() && #[trigger] u[k] == '/'
        implies u[k + 1] != '/' by {
        if k == t.len() - 1 {
            assert(u[k] == t.last());
        } else if k < t.len() + 6 {
            assert(u[k + 1] == block_segment()[k + 1 - t.len()]);
            assert(k + 1 - t.len() <= 6);
            if k + 1 - t.len() == 6 {
                assert(u[k] == 'k');
            }
        } else {
            assert(u[k + 1] == decimal(height)[k + 1 - t.len() - 7]);
        }
    }
}

/// Removing trailing slashes leaves none, and the URL of any block under the
/// trimmed base holds no `//` from the last character of the base onwards: the
/// base and the path never meet in a double slash.
pub proof fn trimmed_base_joins_cleanly(base: Seq<char>, height: nat)
    ensures
        trim_end_slashes(base).len() == 0 || trim_end_slashes(base).last() != '/',
        !has_double_slash_from(
            block_url_of(trim_end_slashes(base), height),
            trim_end_slashes(base).len() - 1,
        ),
{
    lemma_trim_end_slashes(base);
    lemma_joins_cleanly(trim_end_slashes(base), height);
}

} // verus!
