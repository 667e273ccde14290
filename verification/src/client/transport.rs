//! Addressing of the broker connection.

use vstd::prelude::*;

use crate::text::{chars_of, string_of_chars};

verus! {

/// `i` is the first position of `c` in `s`.
pub open spec fn is_first_index(s: Seq<char>, c: char, i: int) -> bool {
    0 <= i < s.len() && s[i] == c && forall|j: int| 0 <= j < i ==> s[j] != c
}

/// `i` is the last position of `c` in `s`.
pub open spec fn is_last_index(s: Seq<char>, c: char, i: int) -> bool {
    0 <= i < s.len() && s[i] == c && forall|j: int| i < j < s.len() ==> s[j] != c
}

/// The TLS server name of a broker address: for a bracketed IPv6 address
/// `[host]:port`, the text between the brackets (up to the end when the
/// closing bracket is missing); otherwise the text before the last ':', or
/// the whole address when it has none.
pub open spec fn sni_host_spec(a: Seq<char>) -> Seq<char> {
    if a.len() > 0 && a[0] == '[' {
        let r = a.skip(1);
        if exists|i: int| is_first_index(r, ']', i) {
            r.take(choose|i: int| is_first_index(r, ']', i))
        } else {
            r
        }
    } else if exists|i: int| is_last_index(a, ':', i) {
        a.take(choose|i: int| is_last_index(a, ':', i))
    } else {
        a
    }
}

/// The TLS server name to present for a broker address.
pub fn sni_host(broker_addr: &str) -> (host: String)
    ensures
        host@ == sni_host_spec(broker_addr@),
{
    let a = chars_of(broker_addr);
    let n = a.len();
    let mut out: Vec<char> = Vec::new();
    if n > 0 && a[0] == '[' {
        let mut i: usize = 1;
        while i < n && a[i] != ']'
            invariant
                1 <= i <= n,
                n == a@.len(),
                out@ == a@.subrange(1, i as int),
                forall|j: int| 1 <= j < i ==> a@[j] != ']',
            decreases n - i,
        {
            out.push(a[i]);
            i += 1;
            assert(out@ =~= a@.subrange(1, i as int));
        }
        proof {
            let r = a@.skip(1);
            assert(out@ =~= r.take(i - 1));
            if i < n {
                assert(is_first_index(r, ']', i - 1));
                let k = choose|k: int| is_first_index(r, ']', k);
                assert(k == i - 1) by {
                    if k < i - 1 {
                        assert(r[k] == a@[k + 1]);
                    }
                    if k > i - 1 {
                        assert(r[i - 1] == ']');
                    }
                }
            } else {
                assert(out@ =~= r);
                assert forall|k: int| !is_first_index(r, ']', k) by {
                    if 0 <= k < r.len() {
                        assert(r[k] == a@[k + 1]);
                    }
                }
            }
        }
        return string_of_chars(&out);
    }
    let mut last: usize = n;
    let mut i: usize = 0;
    while i < n
        invariant
            i <= n,
            n == a@.len(),
            last == n || (last < i && a@[last as int] == ':'),
            forall|j: int| (if last == n { 0 } else { last + 1 }) <= j < i ==> a@[j] != ':',
        decreases n - i,
    {
        if a[i] == ':' {
            last = i;
        }
        i += 1;
    }
    let mut j: usize = 0;
    while j < last
        invariant
            j <= last <= n,
            n == a@.len(),
            out@ == a@.take(j as int),
        decreases last - j,
    {
        out.push(a[j]);
        j += 1;
        assert(out@ =~= a@.take(j as int));
    }
    proof {
        if last < n {
            assert(is_last_index(a@, ':', last as int));
            let k = choose|k: int| is_last_index(a@, ':', k);
            assert(k == last);
        } else {
            assert(out@ =~= a@);
            assert forall|k: int| !is_last_index(a@, ':', k) by {
                if 0 <= k < a@.len() && a@[k] == ':' {
                    assert(false);
                }
            }
        }
    }
    string_of_chars(&out)
}

} // verus!
