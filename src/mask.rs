//! Redaction of secrets for display.
use vstd::prelude::*;

verus! {

/// Characters kept visible at each edge of a long secret.
pub const VISIBLE_EDGE: usize = 4;

/// Secrets up to this many characters are masked as a whole. It equals the
/// length of a masked long secret, which is thus always shorter than the
/// secret it stands for.
pub const EDGE_THRESHOLD: usize = 12;

/// What stands between the two visible edges.
pub open spec fn middle_mask() -> Seq<char> {
    seq!['*', '*', '*', '*']
}

/// What a short secret is replaced with: sixteen stars, longer than any
/// short secret, so that it never equals the secret it hides.
pub open spec fn full_mask() -> Seq<char> {
    Seq::new(16, |i: int| '*')
}

/// The masked form of a secret: the first and last four characters around
/// a fixed placeholder, or a fixed mask when the secret is short.
pub open spec fn mask_of(s: Seq<char>) -> Seq<char> {
    if s.len() <= EDGE_THRESHOLD {
        full_mask()
    } else {
        s.subrange(0, VISIBLE_EDGE as int) + middle_mask() + s.subrange(
            s.len() - VISIBLE_EDGE,
            s.len() as int,
        )
    }
}

/// Masks a secret for display; the result never equals the secret, and a
/// long secret's length does not show in it.
pub fn mask_token(token: &str) -> (r: String)
    ensures
        r@ == mask_of(token@),
{
    let n = token.unicode_len();
    if n <= EDGE_THRESHOLD {
        let full = "****************";
        proof {
            reveal_strlit("****************");
        }
        let r = String::from_str(full);
        assert(r@ =~= full_mask());
        r
    } else {
        let middle = "****";
        proof {
            reveal_strlit("****");
        }
        assert(middle@ =~= middle_mask());
        let prefix = token.substring_char(0, VISIBLE_EDGE);
        let suffix = token.substring_char(n - VISIBLE_EDGE, n);
        let mut r = String::from_str(prefix);
        r.append(middle);
        r.append(suffix);
        r
    }
}

/// A masked secret is never the secret itself, and every secret longer
/// than the threshold masks to the same length.
pub proof fn lemma_mask_hides(s: Seq<char>)
    ensures
        mask_of(s) != s,
        s.len() > EDGE_THRESHOLD ==> mask_of(s).len() == 2 * VISIBLE_EDGE + middle_mask().len(),
{
    if s.len() <= EDGE_THRESHOLD {
        assert(mask_of(s).len() == 16);
    } else {
        assert(mask_of(s).len() == 12);
    }
}

} // verus!
