//! Short tokens: 128 random bits written as 32 lowercase hexadecimal digits.

use vstd::prelude::*;
use vstd::string::*;

verus! {

/// Number of characters in a generated token.
pub const TOKEN_LEN: usize = 32;

/// Whether `c` is one of `0`..`9` or `a`..`f`.
pub open spec fn is_lower_hex(c: char) -> bool {
    ('0' <= c && c <= '9') || ('a' <= c && c <= 'f')
}

/// Whether position `i` of a hyphenated UUID holds a hyphen.
pub open spec fn is_hyphen_position(i: int) -> bool {
    i == 8 || i == 13 || i == 18 || i == 23
}

/// Whether `c` is a digit whose two high bits are `10`: the first digit of a
/// UUID's fourth group under the standard variant.
pub open spec fn is_variant_digit(c: char) -> bool {
    c == '8' || c == '9' || c == 'a' || c == 'b'
}

/// The text of a random (version 4) UUID in hyphenated lowercase form: 36
/// characters, a hyphen at positions 8, 13, 18 and 23, and a lowercase
/// hexadecimal digit elsewhere; the third group starts with the version, 4,
/// and the fourth with a variant digit.
pub open spec fn is_uuid_text(s: Seq<char>) -> bool {
    &&& s.len() == 36
    &&& s[14] == '4'
    &&& is_variant_digit(s[19])
    &&& forall|i: int|
        #![trigger s[i]]
        0 <= i < 36 ==> if is_hyphen_position(i) {
            s[i] == '-'
        } else {
            is_lower_hex(s[i])
        }
}

/// The shape of a generated token: 32 lowercase hexadecimal digits, of which
/// six bits are fixed, the version digit 4 and the variant digit; the other
/// 122 bits are random.
pub open spec fn is_generated_token(s: Seq<char>) -> bool {
    &&& s.len() == TOKEN_LEN
    &&& s[12] == '4'
    &&& is_variant_digit(s[16])
    &&& forall|i: int| 0 <= i < s.len() ==> is_lower_hex(#[trigger] s[i])
}

/// The predicate that keeps every character but the hyphen.
pub open spec fn not_hyphen() -> spec_fn(char) -> bool {
    |c: char| c != '-'
}

/// `s` with every hyphen removed and the other characters left in order.
pub open spec fn without_hyphens(s: Seq<char>) -> Seq<char> {
    s.filter(not_hyphen())
}

/// A sequence without hyphens is left as it is.
pub proof fn lemma_hyphen_free_unchanged(s: Seq<char>)
    requires
        forall|i: int| 0 <= i < s.len() ==> #[trigger] s[i] != '-',
    ensures
        without_hyphens(s) == s,
    decreases s.len(),
{
    reveal(Seq::filter);
    if s.len() > 0 {
        lemma_hyphen_free_unchanged(s.drop_last());
        assert(s.drop_last().push(s.last()) =~= s);
    }
}

/// Removing the hyphens of a UUID's text leaves its five groups of digits,
/// in order: a token of 32 hexadecimal digits.
pub proof fn lemma_uuid_text_without_hyphens(s: Seq<char>)
    requires
        is_uuid_text(s),
    ensures
        without_hyphens(s) == s.subrange(0, 8) + s.subrange(9, 13) + s.subrange(14, 18)
            + s.subrange(19, 23) + s.subrange(24, 36),
        is_generated_token(without_hyphens(s)),
{
    let p = not_hyphen();
    let h = seq!['-'];
    let a = s.subrange(0, 8);
    let b = s.subrange(9, 13);
    let c = s.subrange(14, 18);
    let d = s.subrange(19, 23);
    let e = s.subrange(24, 36);
    assert(h.filter(p) =~= Seq::<char>::empty()) by {
        reveal_with_fuel(Seq::filter, 2);
        assert(h.drop_last() =~= Seq::<char>::empty());
    }
    assert forall|i: int| 0 <= i < a.len() implies #[trigger] a[i] != '-' by {
        assert(a[i] == s[i]);
    }
    assert forall|i: int| 0 <= i < b.len() implies #[trigger] b[i] != '-' by {
        assert(b[i] == s[i + 9]);
    }
    assert forall|i: int| 0 <= i < c.len() implies #[trigger] c[i] != '-' by {
        assert(c[i] == s[i + 14]);
    }
    assert forall|i: int| 0 <= i < d.len() implies #[trigger] d[i] != '-' by {
        assert(d[i] == s[i + 19]);
    }
    assert forall|i: int| 0 <= i < e.len() implies #[trigger] e[i] != '-' by {
        assert(e[i] == s[i + 24]);
    }
    lemma_hyphen_free_unchanged(a);
    lemma_hyphen_free_unchanged(b);
    lemma_hyphen_free_unchanged(c);
    lemma_hyphen_free_unchanged(d);
    lemma_hyphen_free_unchanged(e);
    let s1 = a + h;
    let s2 = s1 + b;
    let s3 = s2 + h;
    let s4 = s3 + c;
    let s5 = s4 + h;
    let s6 = s5 + d;
    let s7 = s6 + h;
    let s8 = s7 + e;
    assert(s8 =~= s) by {
        assert(s8.len() == 36);
        assert forall|i: int| 0 <= i < 36 implies s8[i] == s[i] by {
            if is_hyphen_position(i) {
                assert(s[i] == '-');
            }
        }
    }
    Seq::filter_distributes_over_add(a, h, p);
    Seq::filter_distributes_over_add(s1, b, p);
    Seq::filter_distributes_over_add(s2, h, p);
    Seq::filter_distributes_over_add(s3, c, p);
    Seq::filter_distributes_over_add(s4, h, p);
    Seq::filter_distributes_over_add(s5, d, p);
    Seq::filter_distributes_over_add(s6, h, p);
    Seq::filter_distributes_over_add(s7, e, p);
    let t = a + b + c + d + e;
    assert(s.filter(p) =~= t);
    assert(t[12] == s[14]);
    assert(t[16] == s[19]);
    assert forall|i: int| 0 <= i < t.len() implies is_lower_hex(#[trigger] t[i]) by {
        if i < 8 {
            assert(t[i] == s[i]);
        } else if i < 12 {
            assert(t[i] == s[i + 1]);
        } else if i < 16 {
            assert(t[i] == s[i + 2]);
        } else if i < 20 {
            assert(t[i] == s[i + 3]);
        } else {
            assert(t[i] == s[i + 4]);
        }
    }
}

/// Calls `Uuid::new_v4` of the uuid crate and formats the value with its
/// `Display` impl. Which UUID comes back is left open: it is drawn from the
/// operating system's random source. Claimed of every outcome is the format,
/// the hyphenated lowercase form of 36 characters, and the version and
/// variant bits that `new_v4` sets.
#[verifier::external_body]
fn random_uuid_text() -> (text: String)
    ensures
        is_uuid_text(text@),
{
    uuid::Uuid::new_v4().to_string()
}

/// Copies `text` without its hyphens.
pub fn strip_hyphens(text: &str) -> (out: String)
    ensures
        out@ == without_hyphens(text@),
{
    let n: usize = text.unicode_len();
    let mut out = String::new();
    let mut i: usize = 0;
    proof {
        reveal(Seq::filter);
        assert(text@.take(0) =~= Seq::<char>::empty());
    }
    while i < n
        invariant
            i <= n,
            n == text@.len(),
            out@ == without_hyphens(text@.take(i as int)),
        decreases n - i,
    {
        let c = text.get_char(i);
        let ghost before = out@;
        if c != '-' {
            out.append(text.substring_char(i, i + 1));
        }
        proof {
            reveal(Seq::filter);
            let next = text@.take(i + 1);
            assert(next.drop_last() =~= text@.take(i as int));
            assert(next.last() == c);
            assert(text@.subrange(i as int, i + 1) =~= seq![c]);
            assert(before + seq![c] =~= before.push(c));
        }
        i = i + 1;
    }
    proof {
        assert(text@.take(n as int) =~= text@);
    }
    out
}

/// Produces a fresh token: a random UUID without its hyphens.
///
/// The token is random, so the contract fixes its shape and not its value.
/// Two calls may return the same token; only the store's uniqueness rule
/// decides whether a token is free.
pub fn generate_url_safe_id() -> (token: String)
    ensures
        is_generated_token(token@),
{
    let text = random_uuid_text();
    proof {
        lemma_uuid_text_without_hyphens(text@);
    }
    strip_hyphens(text.as_str())
}

} // verus!
