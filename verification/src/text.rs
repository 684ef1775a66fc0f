//! Small verified text helpers: character-exact string comparison, prefix
//! tests, and the fixed-width padding used by the terminal dashboard.

use vstd::prelude::*;
use vstd::string::*;

verus! {

/// Whether two string slices hold the same characters.
pub fn str_eq(a: &str, b: &str) -> (r: bool)
    ensures
        r == (a@ == b@),
{
    let alen = a.unicode_len();
    let blen = b.unicode_len();
    if alen != blen {
        return false;
    }
    let mut i: usize = 0;
    while i < alen
        invariant
            alen == a@.len(),
            alen == b@.len(),
            i <= alen,
            forall|j: int| 0 <= j < i ==> a@[j] == b@[j],
        decreases alen - i,
    {
        if a.get_char(i) != b.get_char(i) {
            return false;
        }
        i = i + 1;
    }
    proof {
        assert(a@ =~= b@);
    }
    true
}

/// Whether `s` begins with `prefix`.
pub open spec fn spec_starts_with(s: Seq<char>, prefix: Seq<char>) -> bool {
    s.len() >= prefix.len() && s.subrange(0, prefix.len() as int) == prefix
}

/// Whether `s` begins with the characters of `prefix`.
pub fn str_starts_with(s: &str, prefix: &str) -> (r: bool)
    ensures
        r == spec_starts_with(s@, prefix@),
{
    let slen = s.unicode_len();
    let plen = prefix.unicode_len();
    if slen < plen {
        return false;
    }
    let mut i: usize = 0;
    while i < plen
        invariant
            slen == s@.len(),
            plen == prefix@.len(),
            plen <= slen,
            i <= plen,
            forall|j: int| 0 <= j < i ==> s@[j] == prefix@[j],
        decreases plen - i,
    {
        if s.get_char(i) != prefix.get_char(i) {
            proof {
                assert(s@.subrange(0, plen as int)[i as int] == s@[i as int]);
            }
            return false;
        }
        i = i + 1;
    }
    proof {
        assert(s@.subrange(0, plen as int) =~= prefix@);
    }
    true
}

/// `n` spaces.
pub open spec fn spec_spaces(n: nat) -> Seq<char> {
    Seq::new(n, |i: int| ' ')
}

/// A string of `n` spaces.
pub fn spaces(n: usize) -> (r: String)
    ensures
        r@ == spec_spaces(n as nat),
{
    let mut r = String::new();
    let mut i: usize = 0;
    proof {
        reveal_strlit(" ");
        assert(r@ =~= spec_spaces(0));
    }
    while i < n
        invariant
            i <= n,
            r@ == spec_spaces(i as nat),
        decreases n - i,
    {
        r.append(" ");
        i = i + 1;
        proof {
            reveal_strlit(" ");
            assert(r@ =~= spec_spaces(i as nat));
        }
    }
    r
}

/// `s` fitted to exactly `w` characters: truncated if too long, otherwise
/// padded with spaces on the right, or on both sides when `center` is set
/// (with the extra space, if any, on the right).
pub open spec fn spec_pad(s: Seq<char>, w: nat, center: bool) -> Seq<char> {
    if s.len() >= w {
        s.subrange(0, w as int)
    } else if center {
        let left = ((w - s.len()) / 2) as nat;
        let right = (w - s.len() - left) as nat;
        spec_spaces(left) + s + spec_spaces(right)
    } else {
        s + spec_spaces((w - s.len()) as nat)
    }
}

/// Fit `s` to exactly `w` characters, as `spec_pad` describes.
pub fn pad(s: &str, w: usize, center: bool) -> (r: String)
    ensures
        r@ == spec_pad(s@, w as nat, center),
        r@.len() == w,
{
    let len = s.unicode_len();
    if len >= w {
        let t = s.substring_char(0, w);
        t.to_owned()
    } else if center {
        let left = (w - len) / 2;
        let right = w - len - left;
        let mut r = spaces(left);
        r.append(s);
        let sp = spaces(right);
        r.append(sp.as_str());
        proof {
            assert(r@ =~= spec_pad(s@, w as nat, center));
        }
        r
    } else {
        let mut r = s.to_owned();
        let sp = spaces(w - len);
        r.append(sp.as_str());
        proof {
            assert(r@ =~= spec_pad(s@, w as nat, center));
        }
        r
    }
}

} // verus!
