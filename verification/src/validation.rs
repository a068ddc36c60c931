//! Registration input validation: the username and email shape checks run
//! before an account is created.

use vstd::prelude::*;

verus! {

/// An ASCII letter or digit.
pub open spec fn alphanumeric(c: char) -> bool {
    (97 <= c as u32 && c as u32 <= 122) || (65 <= c as u32 && c as u32 <= 90) || (48 <= c as u32
        && c as u32 <= 57)
}

/// A username is non-empty and made of ASCII letters and digits only: no
/// spaces, no punctuation.
pub open spec fn valid_username(s: Seq<char>) -> bool {
    s.len() > 0 && forall|i: int| 0 <= i < s.len() ==> alphanumeric(#[trigger] s[i])
}

/// Position `i` carries the one and only `@` of the address, with at least
/// one character on each side.
pub open spec fn unique_at(s: Seq<char>, i: int) -> bool {
    &&& 0 < i < s.len() - 1
    &&& s[i] == '@'
    &&& forall|j: int| 0 <= j < s.len() && j != i ==> #[trigger] s[j] != '@'
}

/// The domain part after position `i` contains a dot that neither leads a
/// label at the very start of the domain nor ends the address.
pub open spec fn domain_dot(s: Seq<char>, i: int) -> bool {
    exists|k: int| i + 1 < k < s.len() - 1 && #[trigger] s[k] == '.'
}

/// An address is well-formed when it has exactly one `@` with a non-empty
/// local part and a domain that contains an inner dot.
pub open spec fn valid_email(s: Seq<char>) -> bool {
    exists|i: int| #[trigger] unique_at(s, i) && domain_dot(s, i)
}

/// Check a username against `valid_username`.
pub fn is_valid_username(username: &str) -> (r: bool)
    ensures
        r == valid_username(username@),
{
    let n = username.unicode_len();
    if n == 0 {
        return false;
    }
    let mut i: usize = 0;
    while i < n
        invariant
            n == username@.len(),
            i <= n,
            forall|j: int| 0 <= j < i ==> alphanumeric(#[trigger] username@[j]),
        decreases n - i,
    {
        let c = username.get_char(i);
        let v = c as u32;
        if !((97 <= v && v <= 122) || (65 <= v && v <= 90) || (48 <= v && v <= 57)) {
            proof {
                assert(!alphanumeric(username@[i as int]));
            }
            return false;
        }
        i += 1;
    }
    true
}

/// Check an address against `valid_email`.
pub fn is_valid_email(email: &str) -> (r: bool)
    ensures
        r == valid_email(email@),
{
    let n = email.unicode_len();
    let mut i: usize = 0;
    let mut at_pos: usize = 0;
    let mut seen_at: bool = false;
    while i < n
        invariant
            n == email@.len(),
            i <= n,
            !seen_at ==> forall|j: int| 0 <= j < i ==> email@[j] != '@',
            seen_at ==> at_pos < i && email@[at_pos as int] == '@' && forall|j: int|
                0 <= j < i && j != at_pos ==> email@[j] != '@',
        decreases n - i,
    {
        let c = email.get_char(i);
        if c == '@' {
            if seen_at {
                proof {
                    assert forall|w: int| !unique_at(email@, w) by {
                        if unique_at(email@, w) {
                            if w == at_pos as int {
                                assert(email@[i as int] != '@');
                            } else {
                                assert(email@[at_pos as int] != '@');
                            }
                        }
                    }
                }
                return false;
            }
            seen_at = true;
            at_pos = i;
        }
        i += 1;
    }
    if !seen_at {
        proof {
            assert forall|w: int| !unique_at(email@, w) by {
                if unique_at(email@, w) {
                    assert(email@[w] != '@');
                }
            }
        }
        return false;
    }
    if at_pos == 0 || at_pos + 1 >= n {
        proof {
            assert forall|w: int| !unique_at(email@, w) by {
                if unique_at(email@, w) && w != at_pos as int {
                    assert(email@[w] != '@');
                }
            }
        }
        return false;
    }
    let mut k: usize = at_pos + 2;
    while k < n - 1
        invariant
            n == email@.len(),
            0 < at_pos,
            at_pos + 1 < n,
            at_pos + 2 <= k,
            k <= n,
            email@[at_pos as int] == '@',
            forall|j: int| 0 <= j < n && j != at_pos ==> email@[j] != '@',
            forall|j: int| at_pos + 1 < j < k ==> #[trigger] email@[j] != '.',
        decreases n - k,
    {
        if email.get_char(k) == '.' {
            proof {
                assert(unique_at(email@, at_pos as int));
                assert(domain_dot(email@, at_pos as int));
            }
            return true;
        }
        k += 1;
    }
    proof {
        assert forall|w: int| !(unique_at(email@, w) && domain_dot(email@, w)) by {
            if unique_at(email@, w) {
                assert(w == at_pos as int) by {
                    if w != at_pos as int {
                        assert(email@[w] != '@');
                    }
                }
            }
        }
    }
    false
}

} // verus!
