//! Normalisation of raw target strings before validation.

use vstd::prelude::*;

verus! {

/// The string with every occurrence of `pat` removed, scanning left to
/// right over non-overlapping occurrences.
pub open spec fn remove_all(s: Seq<char>, pat: Seq<char>) -> Seq<char>
    decreases s.len(),
{
    if pat.len() == 0 || s.len() < pat.len() {
        s
    } else if s.take(pat.len() as int) == pat {
        remove_all(s.skip(pat.len() as int), pat)
    } else {
        seq![s[0]] + remove_all(s.skip(1), pat)
    }
}

/// Whether `pat` occurs in `s` starting at position `at`.
fn matches_at(s: &str, pat: &str, at: usize) -> (r: bool)
    requires
        at + pat@.len() <= s@.len(),
    ensures
        r == (s@.subrange(at as int, at + pat@.len()) == pat@),
{
    let slen = s.unicode_len();
    let plen = pat.unicode_len();
    let mut j: usize = 0;
    while j < plen
        invariant
            slen == s@.len(),
            plen == pat@.len(),
            at + plen <= slen,
            0 <= j <= plen,
            forall|k: int| 0 <= k < j ==> s@[at + k] == pat@[k],
        decreases plen - j,
    {
        if s.get_char(at + j) != pat.get_char(j) {
            assert(s@.subrange(at as int, at + pat@.len())[j as int] != pat@[j as int]);
            return false;
        }
        j += 1;
    }
    assert(s@.subrange(at as int, at + pat@.len()) =~= pat@);
    true
}

/// Removes every occurrence of `pat` from `s`.
pub fn remove_pattern(s: &str, pat: &str) -> (r: String)
    requires
        pat@.len() >= 1,
    ensures
        r@ == remove_all(s@, pat@),
{
    let n = s.unicode_len();
    let plen = pat.unicode_len();
    let mut out = String::new();
    proof {
        assert(s@.skip(0) =~= s@);
        assert(Seq::<char>::empty() + remove_all(s@, pat@) =~= remove_all(s@, pat@));
    }
    let mut i: usize = 0;
    while i < n
        invariant
            n == s@.len(),
            plen == pat@.len(),
            plen >= 1,
            0 <= i <= n,
            out@ + remove_all(s@.skip(i as int), pat@) == remove_all(s@, pat@),
        decreases n - i,
    {
        if plen <= n - i && matches_at(s, pat, i) {
            proof {
                assert(s@.skip(i as int).take(plen as int) =~= s@.subrange(
                    i as int,
                    i + plen,
                ));
                assert(s@.skip(i as int).skip(plen as int) =~= s@.skip(i + plen));
            }
            i += plen;
        } else {
            proof {
                let rest = s@.skip(i as int);
                assert(rest[0] == s@[i as int]);
                assert(rest.skip(1) =~= s@.skip(i + 1));
                if i + plen <= n {
                    assert(rest.take(plen as int) =~= s@.subrange(i as int, i + plen));
                    assert(remove_all(rest, pat@) == seq![s@[i as int]] + remove_all(
                        s@.skip(i + 1),
                        pat@,
                    ));
                } else {
                    assert(rest =~= seq![s@[i as int]] + rest.skip(1));
                    assert(remove_all(rest, pat@) == rest);
                    assert(remove_all(s@.skip(i + 1), pat@) == s@.skip(i + 1));
                }
            }
            let c = s.substring_char(i, i + 1);
            out.append(c);
            proof {
                assert(c@ =~= seq![s@[i as int]]);
            }
            i += 1;
        }
    }
    assert(s@.skip(n as int) =~= Seq::<char>::empty());
    assert(remove_all(Seq::<char>::empty(), pat@) == Seq::<char>::empty());
    assert(out@ =~= out@ + Seq::<char>::empty());
    out
}

/// Strips a leading scheme, a `www.` alias prefix and any slashes from a
/// raw target, leaving the bare hostname.
pub fn sanitize_target_string(target: String) -> (r: String)
    ensures
        r@ == remove_all(
            remove_all(remove_all(remove_all(target@, "www."@), "https://"@), "http://"@),
            "/"@,
        ),
{
    proof {
        reveal_strlit("www.");
        reveal_strlit("https://");
        reveal_strlit("http://");
        reveal_strlit("/");
    }
    let a = remove_pattern(target.as_str(), "www.");
    let b = remove_pattern(a.as_str(), "https://");
    let c = remove_pattern(b.as_str(), "http://");
    remove_pattern(c.as_str(), "/")
}

} // verus!
