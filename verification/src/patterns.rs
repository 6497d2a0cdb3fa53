//! The fixed text patterns of the handshake: shop domains, the
//! admin-URL shop form, and base64 syntax, as specs with verified matchers.

use vstd::prelude::*;

verus! {

pub open spec fn is_alnum(c: char) -> bool {
    (97 <= c as u32 && c as u32 <= 122) || (65 <= c as u32 && c as u32 <= 90) || (48 <= c as u32
        && c as u32 <= 57)
}

pub open spec fn is_word_char(c: char) -> bool {
    is_alnum(c) || c == '-' || c == '_'
}

pub open spec fn is_b64_char(c: char) -> bool {
    is_alnum(c) || c == '+' || c == '/'
}

/// `lit` occurs in `s` at position `i`.
pub open spec fn matches_at(s: Seq<char>, i: int, lit: Seq<char>) -> bool {
    0 <= i && i + lit.len() <= s.len() && s.subrange(i, i + lit.len()) == lit
}

/// `lit` occurs somewhere in `s`.
pub open spec fn contains_seq(s: Seq<char>, lit: Seq<char>) -> bool {
    exists|i: int| matches_at(s, i, lit)
}

pub open spec fn all_slashes(t: Seq<char>) -> bool {
    forall|i: int| 0 <= i < t.len() ==> t[i] == '/'
}

/// A store handle: alphanumeric, `-` or `_`, not starting with `-` or `_`.
pub open spec fn valid_slug(s: Seq<char>) -> bool {
    s.len() >= 1 && is_alnum(s[0]) && (forall|i: int|
        1 <= i < s.len() ==> is_word_char(#[trigger] s[i]))
}

/// `s` splits at `i` into a slug and a domain tail.
pub open spec fn shop_split_at(s: Seq<char>, i: int) -> bool {
    1 <= i <= s.len() && is_alnum(s[0]) && (forall|j: int|
        1 <= j < i ==> is_word_char(#[trigger] s[j])) && domain_tail_ok(s.skip(i))
}

/// A shop domain: a slug, a dot, one of the three allowed domains, and
/// optional trailing slashes.
pub open spec fn shop_domain_ok(s: Seq<char>) -> bool {
    exists|i: int| shop_split_at(s, i)
}

/// The part after the slug: a dot, an allowed domain, trailing slashes.
pub open spec fn domain_tail_ok(t: Seq<char>) -> bool {
    (matches_at(t, 0, ".myshopify.com"@) && all_slashes(t.skip(14))) || (matches_at(
        t,
        0,
        ".shopify.com"@,
    ) && all_slashes(t.skip(12))) || (matches_at(t, 0, ".myshopify.io"@) && all_slashes(
        t.skip(13),
    ))
}

/// The admin form of a shop value: `admin.<domain>/store/<slug>`.
/// Yields the slug; the three prefixes are mutually exclusive.
pub open spec fn admin_slug(s: Seq<char>) -> Option<Seq<char>> {
    if matches_at(s, 0, "admin.myshopify.com/store/"@) && valid_slug(s.skip(26)) {
        Some(s.skip(26))
    } else if matches_at(s, 0, "admin.shopify.com/store/"@) && valid_slug(s.skip(24)) {
        Some(s.skip(24))
    } else if matches_at(s, 0, "admin.myshopify.io/store/"@) && valid_slug(s.skip(25)) {
        Some(s.skip(25))
    } else {
        None
    }
}

/// `s` splits at `n` into alphabet characters and `=` padding.
pub open spec fn b64_split_at(s: Seq<char>, n: int) -> bool {
    1 <= n <= s.len() && s.len() - n <= 2 && (forall|i: int|
        0 <= i < n ==> is_b64_char(#[trigger] s[i])) && (forall|i: int|
        n <= i < s.len() ==> s[i] == '=')
}

/// Standard base64 shape: at least one alphabet character, then up to two
/// `=` of padding.
pub open spec fn b64_syntax(s: Seq<char>) -> bool {
    exists|n: int| b64_split_at(s, n)
}

/// The decoded host must mention one of the three allowed domains.
pub open spec fn mentions_allowed_domain(t: Seq<char>) -> bool {
    contains_seq(t, "myshopify.com"@) || contains_seq(t, "shopify.com"@) || contains_seq(
        t,
        "myshopify.io"@,
    )
}

pub fn alnum_char(c: char) -> (r: bool)
    ensures
        r == is_alnum(c),
{
    let u = c as u32;
    (97 <= u && u <= 122) || (65 <= u && u <= 90) || (48 <= u && u <= 57)
}

pub fn word_char(c: char) -> (r: bool)
    ensures
        r == is_word_char(c),
{
    alnum_char(c) || c == '-' || c == '_'
}

pub fn b64_char(c: char) -> (r: bool)
    ensures
        r == is_b64_char(c),
{
    alnum_char(c) || c == '+' || c == '/'
}

/// Does `lit` occur in `s` at position `i`?
pub fn starts_with_at(s: &str, i: usize, lit: &str) -> (r: bool)
    ensures
        r == matches_at(s@, i as int, lit@),
{
    let n = s.unicode_len();
    let m = lit.unicode_len();
    if i > n || m > n - i {
        return false;
    }
    for j in 0..m
        invariant
            n == s@.len(),
            m == lit@.len(),
            i + m <= n,
            forall|k: int| 0 <= k < j ==> s@[i + k] == lit@[k],
    {
        if s.get_char(i + j) != lit.get_char(j) {
            proof {
                assert(s@.subrange(i as int, i + m) == lit@ ==> s@.subrange(i as int, i + m)[
                    j as int] == lit@[j as int]);
            }
            return false;
        }
    }
    proof {
        assert(s@.subrange(i as int, i + m) =~= lit@);
    }
    true
}

/// Does `lit` occur anywhere in `s`?
pub fn contains_lit(s: &str, lit: &str) -> (r: bool)
    ensures
        r == contains_seq(s@, lit@),
{
    let n = s.unicode_len();
    let m = lit.unicode_len();
    if m > n {
        proof {
            assert(forall|i: int| matches_at(s@, i, lit@) ==> i + lit@.len() <= s@.len());
        }
        return false;
    }
    if m == 0 {
        proof {
            assert(s@.subrange(0, 0) =~= lit@);
            assert(matches_at(s@, 0, lit@));
        }
        return true;
    }
    for i in 0..(n - m) + 1
        invariant
            n == s@.len(),
            m == lit@.len(),
            m <= n,
            forall|k: int| 0 <= k < i ==> !matches_at(s@, k, lit@),
    {
        if starts_with_at(s, i, lit) {
            return true;
        }
    }
    proof {
        assert(forall|k: int| matches_at(s@, k, lit@) ==> 0 <= k <= n - m);
    }
    false
}

/// Is `s` a valid slug?
pub fn is_valid_slug(s: &str) -> (r: bool)
    ensures
        r == valid_slug(s@),
{
    let n = s.unicode_len();
    if n == 0 {
        return false;
    }
    if !alnum_char(s.get_char(0)) {
        return false;
    }
    for i in 1..n
        invariant
            n == s@.len(),
            n >= 1,
            is_alnum(s@[0]),
            forall|k: int| 1 <= k < i ==> is_word_char(#[trigger] s@[k]),
    {
        if !word_char(s.get_char(i)) {
            return false;
        }
    }
    true
}

/// Are the characters of `s` from position `j` on all `/`?
pub fn all_slashes_from(s: &str, j: usize) -> (r: bool)
    requires
        j <= s@.len(),
    ensures
        r == all_slashes(s@.skip(j as int)),
{
    let n = s.unicode_len();
    for i in j..n
        invariant
            n == s@.len(),
            j <= n,
            forall|k: int| j <= k < i ==> s@[k] == '/',
    {
        if s.get_char(i) != '/' {
            proof {
                assert(s@.skip(j as int)[i - j] == s@[i as int]);
            }
            return false;
        }
    }
    proof {
        assert forall|k: int| 0 <= k < s@.skip(j as int).len() implies s@.skip(j as int)[k]
            == '/' by {
            assert(s@.skip(j as int)[k] == s@[j + k]);
        }
    }
    true
}

/// Does the part of `s` from position `m` on have the shape of a domain
/// tail: a dot, an allowed domain, trailing slashes?
pub fn domain_tail_at(s: &str, m: usize) -> (r: bool)
    requires
        m <= s@.len(),
    ensures
        r == domain_tail_ok(s@.skip(m as int)),
{
    let n = s.unicode_len();
    let tail = s.substring_char(m, n);
    proof {
        assert(tail@ =~= s@.skip(m as int));
    }
    domain_tail_check(tail)
}

/// Is `t` itself a domain tail?
fn domain_tail_check(t: &str) -> (r: bool)
    ensures
        r == domain_tail_ok(t@),
{
    proof {
        reveal_strlit(".myshopify.com");
        reveal_strlit(".shopify.com");
        reveal_strlit(".myshopify.io");
    }
    if starts_with_at(t, 0, ".myshopify.com") {
        let r = all_slashes_from(t, 14);
        proof {
            assert(t@.subrange(0, 14)[1] == t@[1]);
            if matches_at(t@, 0, ".shopify.com"@) {
                assert(t@.subrange(0, 12)[1] == t@[1]);
                assert(false);
            }
            if matches_at(t@, 0, ".myshopify.io"@) {
                assert(t@.subrange(0, 14)[11] == t@[11]);
                assert(t@.subrange(0, 13)[11] == t@[11]);
                assert(false);
            }
        }
        r
    } else if starts_with_at(t, 0, ".shopify.com") {
        let r = all_slashes_from(t, 12);
        proof {
            assert(t@.subrange(0, 12)[1] == t@[1]);
            if matches_at(t@, 0, ".myshopify.io"@) {
                assert(t@.subrange(0, 13)[1] == t@[1]);
                assert(false);
            }
        }
        r
    } else if starts_with_at(t, 0, ".myshopify.io") {
        all_slashes_from(t, 13)
    } else {
        false
    }
}

/// Is `s` a shop domain?
pub fn is_shop_domain(s: &str) -> (r: bool)
    ensures
        r == shop_domain_ok(s@),
{
    let n = s.unicode_len();
    if n == 0 {
        return false;
    }
    if !alnum_char(s.get_char(0)) {
        return false;
    }
    let mut m: usize = 1;
    while m < n && word_char(s.get_char(m))
        invariant
            n == s@.len(),
            1 <= m <= n,
            forall|k: int| 1 <= k < m ==> is_word_char(#[trigger] s@[k]),
        decreases n - m,
    {
        m = m + 1;
    }
    if domain_tail_at(s, m) {
        proof {
            assert(shop_split_at(s@, m as int));
        }
        true
    } else {
        proof {
            reveal_strlit(".myshopify.com");
            reveal_strlit(".shopify.com");
            reveal_strlit(".myshopify.io");
            if shop_domain_ok(s@) {
                let i = choose|i: int| shop_split_at(s@, i);
                let t = s@.skip(i);
                assert(t[0] == s@[i]);
                assert(t[0] == '.') by {
                    if matches_at(t, 0, ".myshopify.com"@) {
                        assert(t.subrange(0, 14)[0] == t[0]);
                    } else if matches_at(t, 0, ".shopify.com"@) {
                        assert(t.subrange(0, 12)[0] == t[0]);
                    } else {
                        assert(t.subrange(0, 13)[0] == t[0]);
                    }
                }
                assert(!is_word_char('.'));
                if i < m {
                    assert(is_word_char(s@[i]));
                    assert(false);
                } else if i > m {
                    assert(is_word_char(s@[m as int]));
                    assert(false);
                } else {
                    assert(false);
                }
            }
        }
        false
    }
}

/// Is `s` syntactically valid standard base64?
pub fn is_b64_syntax(s: &str) -> (r: bool)
    ensures
        r == b64_syntax(s@),
{
    let n = s.unicode_len();
    let mut m: usize = 0;
    while m < n && b64_char(s.get_char(m))
        invariant
            n == s@.len(),
            0 <= m <= n,
            forall|k: int| 0 <= k < m ==> is_b64_char(#[trigger] s@[k]),
        decreases n - m,
    {
        m = m + 1;
    }
    if m == 0 {
        proof {
            if b64_syntax(s@) {
                let n1 = choose|n1: int| b64_split_at(s@, n1);
                assert(is_b64_char(s@[0]));
            }
        }
        return false;
    }
    if n - m > 2 {
        proof {
            if b64_syntax(s@) {
                let n1 = choose|n1: int| b64_split_at(s@, n1);
                assert(n1 > m);
                assert(is_b64_char(s@[m as int]));
            }
        }
        return false;
    }
    for i in m..n
        invariant
            n == s@.len(),
            1 <= m <= n,
            n - m <= 2,
            m == n || !is_b64_char(s@[m as int]),
            forall|k: int| 0 <= k < m ==> is_b64_char(#[trigger] s@[k]),
            forall|k: int| m <= k < i ==> s@[k] == '=',
    {
        if s.get_char(i) != '=' {
            proof {
                if b64_syntax(s@) {
                    let n1 = choose|n1: int| b64_split_at(s@, n1);
                    if n1 <= m {
                        assert(s@[i as int] == '=');
                    } else {
                        assert(is_b64_char(s@[m as int]));
                    }
                }
            }
            return false;
        }
    }
    proof {
        assert(b64_split_at(s@, m as int));
    }
    true
}

/// The admin form of a shop value, with the slug extracted.
pub fn admin_shop_slug(s: &str) -> (r: Option<String>)
    ensures
        r is Some <==> admin_slug(s@) is Some,
        r is Some ==> r->0@ == admin_slug(s@)->0,
{
    let n = s.unicode_len();
    proof {
        reveal_strlit("admin.myshopify.com/store/");
        reveal_strlit("admin.shopify.com/store/");
        reveal_strlit("admin.myshopify.io/store/");
    }
    if starts_with_at(s, 0, "admin.myshopify.com/store/") {
        proof {
            lemma_admin_prefixes_exclusive(s@);
        }
        let rest = s.substring_char(26, n);
        proof {
            assert(rest@ =~= s@.skip(26));
        }
        if is_valid_slug(rest) {
            Some(rest.to_owned())
        } else {
            None
        }
    } else if starts_with_at(s, 0, "admin.shopify.com/store/") {
        proof {
            assert(s@.subrange(0, 24)[6] == s@[6]);
            if matches_at(s@, 0, "admin.myshopify.io/store/"@) {
                assert(s@.subrange(0, 25)[6] == s@[6]);
                assert(false);
            }
        }
        let rest = s.substring_char(24, n);
        proof {
            assert(rest@ =~= s@.skip(24));
        }
        if is_valid_slug(rest) {
            Some(rest.to_owned())
        } else {
            None
        }
    } else if starts_with_at(s, 0, "admin.myshopify.io/store/") {
        let rest = s.substring_char(25, n);
        proof {
            assert(rest@ =~= s@.skip(25));
        }
        if is_valid_slug(rest) {
            Some(rest.to_owned())
        } else {
            None
        }
    } else {
        None
    }
}

/// At most one of the three admin prefixes can occur at the start of `s`.
proof fn lemma_admin_prefixes_exclusive(s: Seq<char>)
    requires
        matches_at(s, 0, "admin.myshopify.com/store/"@),
    ensures
        !matches_at(s, 0, "admin.shopify.com/store/"@),
        !matches_at(s, 0, "admin.myshopify.io/store/"@),
{
    reveal_strlit("admin.myshopify.com/store/");
    reveal_strlit("admin.shopify.com/store/");
    reveal_strlit("admin.myshopify.io/store/");
    assert(s.subrange(0, 26)[6] == s[6]);
    assert(s[6] == 'm');
    assert(s.subrange(0, 26)[16] == s[16]);
    assert(s[16] == 'c');
    if matches_at(s, 0, "admin.shopify.com/store/"@) {
        assert(s.subrange(0, 24)[6] == s[6]);
        assert(false);
    }
    if matches_at(s, 0, "admin.myshopify.io/store/"@) {
        assert(s.subrange(0, 25)[16] == s[16]);
        assert(false);
    }
}

/// Does `s` mention one of the three allowed domains?
pub fn mentions_domain(s: &str) -> (r: bool)
    ensures
        r == mentions_allowed_domain(s@),
{
    contains_lit(s, "myshopify.com") || contains_lit(s, "shopify.com") || contains_lit(
        s,
        "myshopify.io",
    )
}

} // verus!
