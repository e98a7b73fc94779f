//! Small decision functions on targets, addresses and port lists.

use vstd::prelude::*;

verus! {

/// Characters that may not appear anywhere in a hostname target.
pub open spec fn forbidden_char(c: char) -> bool {
    ||| c == '['
    ||| c == ']'
    ||| c == '{'
    ||| c == '}'
    ||| c == '('
    ||| c == ')'
    ||| c == '*'
    ||| c == '|'
    ||| c == ':'
    ||| c == '<'
    ||| c == '>'
    ||| c == '/'
    ||| c == '\\'
    ||| c == '%'
    ||| c == '&'
    ||| c == '?'
    ||| c == '!'
    ||| c == '#'
    ||| c == '\''
    ||| c == ' '
    ||| c == ','
}

/// A character a hostname target may hold: plain ASCII and not forbidden.
pub open spec fn allowed_char(c: char) -> bool {
    !forbidden_char(c) && (c as u32) < 128
}

/// A target is acceptable when it does not begin with a dot, contains at
/// least one dot, and every character is allowed.
pub open spec fn valid_target(s: Seq<char>) -> bool {
    &&& !(s.len() > 0 && s[0] == '.')
    &&& (exists|i: int| 0 <= i < s.len() && s[i] == '.')
    &&& (forall|i: int| 0 <= i < s.len() ==> allowed_char(#[trigger] s[i]))
}

/// Decides whether a sanitized target string may enter the pipeline.
pub fn validate_target(target: &str) -> (r: bool)
    ensures
        r == valid_target(target@),
{
    let n = target.unicode_len();
    if n == 0 {
        return false;
    }
    if target.get_char(0) == '.' {
        return false;
    }
    let mut has_dot = false;
    let mut i: usize = 0;
    while i < n
        invariant
            n == target@.len(),
            0 <= i <= n,
            has_dot == exists|k: int| 0 <= k < i && target@[k] == '.',
            forall|k: int| 0 <= k < i ==> allowed_char(#[trigger] target@[k]),
        decreases n - i,
    {
        let c = target.get_char(i);
        if c as u32 >= 128 {
            return false;
        }
        if c == '[' || c == ']' || c == '{' || c == '}' || c == '(' || c == ')' || c == '*'
            || c == '|' || c == ':' || c == '<' || c == '>' || c == '/' || c == '\\' || c == '%'
            || c == '&' || c == '?' || c == '!' || c == '#' || c == '\'' || c == ' ' || c == ',' {
            return false;
        }
        if c == '.' {
            has_dot = true;
        }
        i += 1;
    }
    has_dot
}

/// Replaces an empty address by the literal `NULL`, for presentation rows.
pub fn null_ip_checker(ip: &str) -> (r: String)
    ensures
        ip@.len() == 0 ==> r@ == "NULL"@,
        ip@.len() > 0 ==> r@ == ip@,
{
    if ip.is_empty() {
        String::from_str("NULL")
    } else {
        ip.to_owned()
    }
}

/// The items joined by one separator character between each two of them.
pub open spec fn join_with(items: Seq<Seq<char>>, sep: char) -> Seq<char>
    decreases items.len(),
{
    if items.len() == 0 {
        Seq::empty()
    } else if items.len() == 1 {
        items[0]
    } else {
        join_with(items.drop_last(), sep) + seq![sep] + items.last()
    }
}

/// Joins the port identifiers with `;`, or yields `NULL` when none is open.
pub fn return_ports_string(ports: &Vec<String>) -> (r: String)
    ensures
        ports@.len() == 0 ==> r@ == "NULL"@,
        ports@.len() > 0 ==> r@ == join_with(ports@.map_values(|s: String| s@), ';'),
{
    let ghost pviews = ports@.map_values(|s: String| s@);
    if ports.len() == 0 {
        String::from_str("NULL")
    } else {
        let mut out = ports[0].clone();
        assert(pviews.take(1) =~= seq![pviews[0]]);
        let mut i: usize = 1;
        while i < ports.len()
            invariant
                1 <= i <= ports@.len(),
                pviews == ports@.map_values(|s: String| s@),
                pviews.len() == ports@.len(),
                out@ == join_with(pviews.take(i as int), ';'),
            decreases ports@.len() - i,
        {
            out.append(";");
            out.append(ports[i].as_str());
            proof {
                reveal_strlit(";");
                assert(";"@ =~= seq![';']);
                assert(pviews.take(i + 1).drop_last() =~= pviews.take(i as int));
                assert(pviews.take(i + 1).last() == pviews[i as int]);
            }
            i += 1;
        }
        assert(pviews.take(ports@.len() as int) =~= pviews);
        out
    }
}

} // verus!
