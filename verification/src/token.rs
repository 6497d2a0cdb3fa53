//! The verification stage: the three-part signed-token format, checked
//! against a recomputed HMAC-SHA256 tag.

use vstd::prelude::*;

use crate::model::{ClaimsSpec, JwtResult, JwtResultSpec, RespSpec, ResponseObject};
use crate::outside::{
    b64url_decode, b64url_decode_of, b64url_encode, b64url_of, claims_of, hmac_sha256,
    hmac_sha256_of, parse_claims,
};
use crate::respond::{make_plain, plain_resp};
use crate::text::str_eq;
use vstd::string::StrSliceExecFns;

verus! {

/// `s` holds no dot.
pub open spec fn dot_free(s: Seq<char>) -> bool {
    forall|k: int| 0 <= k < s.len() ==> s[k] != '.'
}

/// `i` and `j` are the positions of the only two dots of `t`.
pub open spec fn two_dots_at(t: Seq<char>, i: int, j: int) -> bool {
    0 <= i < j < t.len() && t[i] == '.' && t[j] == '.' && (forall|k: int|
        0 <= k < t.len() && t[k] == '.' ==> k == i || k == j)
}

/// `t` holds exactly two dots.
pub open spec fn has_two_dots(t: Seq<char>) -> bool {
    exists|i: int, j: int| two_dots_at(t, i, j)
}

/// The claims carried by a payload segment: its URL-safe base64 decoding
/// read as the claim set.
pub open spec fn payload_claims(p: Seq<char>) -> Option<ClaimsSpec> {
    match b64url_decode_of(p) {
        Some(b) => claims_of(b),
        None => None,
    }
}

/// The claims carried by `t` when `t` is a well-formed signed token whose
/// signature segment is the URL-safe base64 encoding of the HMAC-SHA256
/// tag over the first two segments, keyed by `key`; `None` otherwise.
pub open spec fn token_verified(t: Seq<char>, key: Seq<char>) -> Option<ClaimsSpec> {
    if has_two_dots(t) {
        let (i, j) = choose|i: int, j: int| two_dots_at(t, i, j);
        if t.skip(j + 1) == b64url_of(hmac_sha256_of(key, t.take(j))) {
            payload_claims(t.subrange(i + 1, j))
        } else {
            None
        }
    } else {
        None
    }
}

/// Outcome of the verification stage on the extracted token text.
pub open spec fn token_outcome(tok: Seq<char>, key: Seq<char>) -> Result<JwtResultSpec, RespSpec> {
    if tok.len() == 0 {
        Err(plain_resp(400, "Missing id_token"@))
    } else {
        match token_verified(tok, key) {
            Some(c) => Ok(JwtResultSpec { id_token: tok, payload: c }),
            None => Err(plain_resp(401, "Invalid id_token"@)),
        }
    }
}

/// The two dot positions of `t` are unique.
pub proof fn lemma_two_dots_unique(t: Seq<char>, i1: int, j1: int, i2: int, j2: int)
    requires
        two_dots_at(t, i1, j1),
        two_dots_at(t, i2, j2),
    ensures
        i1 == i2 && j1 == j2,
{
}

/// Verify the extracted identity token against the signing key and decode
/// its claims, or say why it is rejected.
pub fn verify_id_token(token: String, key: &str) -> (r: Result<JwtResult, ResponseObject>)
    ensures
        crate::model::outcome_view(r) == token_outcome(token@, key@),
{
    let s = token.as_str();
    let n = s.unicode_len();
    if n == 0 {
        return Err(make_plain(400, "Missing id_token"));
    }
    let mut count: usize = 0;
    let mut d1: usize = 0;
    let mut d2: usize = 0;
    for p in 0..n
        invariant
            n == s@.len(),
            s@ == token@,
            n >= 1,
            count <= 2,
            count == 0 ==> forall|k: int| 0 <= k < p ==> s@[k] != '.',
            count == 1 ==> 0 <= d1 < p && s@[d1 as int] == '.' && (forall|k: int|
                0 <= k < p && k != d1 ==> s@[k] != '.'),
            count == 2 ==> 0 <= d1 < d2 < p && s@[d1 as int] == '.' && s@[d2 as int] == '.'
                && (forall|k: int| 0 <= k < p && k != d1 && k != d2 ==> s@[k] != '.'),
    {
        if s.get_char(p) == '.' {
            if count == 0 {
                d1 = p;
                count = 1;
            } else if count == 1 {
                d2 = p;
                count = 2;
            } else {
                proof {
                    if has_two_dots(s@) {
                        let (i, j) = choose|i: int, j: int| two_dots_at(s@, i, j);
                        assert(d1 == i || d1 == j);
                        assert(d2 == i || d2 == j);
                        assert(p == i || p == j);
                        assert(false);
                    }
                }
                return Err(make_plain(401, "Invalid id_token"));
            }
        }
    }
    if count < 2 {
        proof {
            if has_two_dots(s@) {
                let (i, j) = choose|i: int, j: int| two_dots_at(s@, i, j);
                if count == 1 {
                    assert(i == d1 && j == d1);
                }
                assert(false);
            }
        }
        return Err(make_plain(401, "Invalid id_token"));
    }
    proof {
        assert(two_dots_at(s@, d1 as int, d2 as int));
        let (i, j) = choose|i: int, j: int| two_dots_at(s@, i, j);
        lemma_two_dots_unique(s@, d1 as int, d2 as int, i, j);
    }
    let signing_input = s.substring_char(0, d2);
    let payload_seg = s.substring_char(d1 + 1, d2);
    let sig_seg = s.substring_char(d2 + 1, n);
    proof {
        assert(signing_input@ =~= s@.take(d2 as int));
        assert(sig_seg@ =~= s@.skip(d2 + 1));
    }
    let tag = hmac_sha256(key, signing_input);
    let expected = b64url_encode(tag.as_slice());
    if !str_eq(sig_seg, expected.as_str()) {
        return Err(make_plain(401, "Invalid id_token"));
    }
    match b64url_decode(payload_seg) {
        None => Err(make_plain(401, "Invalid id_token")),
        Some(bytes) => match parse_claims(bytes.as_slice()) {
            None => Err(make_plain(401, "Invalid id_token")),
            Some(payload) => Ok(JwtResult { id_token: token, payload }),
        },
    }
}

} // verus!
