//! A validatable email address field.

use vstd::prelude::*;
use crate::error::{Error, ValidationError};

verus! {

/// A lowercase letter `[a-z]`.
pub open spec fn is_lower(c: char) -> bool {
    'a' <= c && c <= 'z'
}

/// A decimal digit `[0-9]`.
pub open spec fn is_digit_char(c: char) -> bool {
    '0' <= c && c <= '9'
}

/// A character allowed at either end of the local part: `[a-z0-9_+]`.
pub open spec fn is_local_edge(c: char) -> bool {
    is_lower(c) || is_digit_char(c) || c == '_' || c == '+'
}

/// A character allowed anywhere in the local part: `[a-z0-9_+.]`.
pub open spec fn is_local_char(c: char) -> bool {
    is_local_edge(c) || c == '.'
}

/// The local part `[a-z0-9_+]([a-z0-9_+.]*[a-z0-9_+])?`: nonempty, first
/// and last characters from the edge class, dots only in between.
pub open spec fn is_local_part(s: Seq<char>) -> bool {
    &&& s.len() >= 1
    &&& is_local_edge(s[0])
    &&& is_local_edge(s[s.len() - 1])
    &&& forall|k: int| 0 <= k < s.len() ==> is_local_char(#[trigger] s[k])
}

/// A character of a domain label: `[a-z0-9]`.
pub open spec fn is_label_char(c: char) -> bool {
    is_lower(c) || is_digit_char(c)
}

/// A separator between domain labels: `[-.]`.
pub open spec fn is_label_sep(c: char) -> bool {
    c == '-' || c == '.'
}

/// The label run `[a-z0-9]+([-.][a-z0-9]+)*`: label characters and
/// separators, beginning and ending with a label character, no two
/// adjacent separators.
pub open spec fn is_label_run(s: Seq<char>) -> bool {
    &&& s.len() >= 1
    &&& is_label_char(s[0])
    &&& is_label_char(s[s.len() - 1])
    &&& forall|k: int| 0 <= k < s.len() ==> is_label_char(#[trigger] s[k]) || is_label_sep(s[k])
    &&& forall|k: int| 0 <= k < s.len() - 1 ==> !(is_label_sep(#[trigger] s[k]) && is_label_sep(
        s[k + 1],
    ))
}

/// The final segment `[a-z]{2,6}`: two to six lowercase letters.
pub open spec fn is_tld(s: Seq<char>) -> bool {
    &&& 2 <= s.len() <= 6
    &&& forall|k: int| 0 <= k < s.len() ==> is_lower(#[trigger] s[k])
}

/// The domain `[a-z0-9]+([-.][a-z0-9]+)*\.[a-z]{2,6}`, matched in full: a
/// label run, a dot, and a final segment of letters.
pub open spec fn is_domain(s: Seq<char>) -> bool {
    exists|p: int|
        #![auto]
        1 <= p < s.len() && is_label_run(s.subrange(0, p)) && s[p] == '.' && is_tld(
            s.subrange(p + 1, s.len() as int),
        )
}

/// The accepted email grammar, anchored at the start of the string only: a
/// local part, an `@`, and a domain; the domain match may end before the
/// end of the string.
pub open spec fn email_matches(s: Seq<char>) -> bool {
    exists|i: int, j: int|
        #![trigger s.subrange(0, i), s.subrange(i + 1, j)]
        1 <= i && i + 1 < j <= s.len() && is_local_part(s.subrange(0, i)) && s[i] == '@'
            && is_domain(s.subrange(i + 1, j))
}

fn is_lower_exec(c: char) -> (r: bool)
    ensures
        r == is_lower(c),
{
    'a' <= c && c <= 'z'
}

fn is_local_edge_exec(c: char) -> (r: bool)
    ensures
        r == is_local_edge(c),
{
    ('a' <= c && c <= 'z') || ('0' <= c && c <= '9') || c == '_' || c == '+'
}

fn is_local_char_exec(c: char) -> (r: bool)
    ensures
        r == is_local_char(c),
{
    is_local_edge_exec(c) || c == '.'
}

fn is_label_char_exec(c: char) -> (r: bool)
    ensures
        r == is_label_char(c),
{
    ('a' <= c && c <= 'z') || ('0' <= c && c <= '9')
}

/// `a` is the position of the first `@` of `s`.
spec fn first_at(s: Seq<char>, a: int) -> bool {
    &&& 0 <= a < s.len()
    &&& s[a] == '@'
    &&& forall|k: int| 0 <= k < a ==> s[k] != '@'
}

/// The characters before position `a` form a valid local part and `a`
/// holds the `@`.
spec fn local_ok_at(s: Seq<char>, a: int) -> bool {
    &&& 1 <= a < s.len()
    &&& s[a] == '@'
    &&& is_local_part(s.subrange(0, a))
}

/// Position `q` (after the `@` at `a`) carries the final dot of a domain
/// match: a label run fills `(a, q)`, and at least two lowercase letters
/// follow the dot.
spec fn dot_ok_at(s: Seq<char>, a: int, q: int) -> bool {
    &&& a + 2 <= q
    &&& q + 2 < s.len()
    &&& s[q] == '.'
    &&& is_label_run(s.subrange(a + 1, q))
    &&& is_lower(s[q + 1])
    &&& is_lower(s[q + 2])
}

/// The prefix `s[lo..q]` of a label run: characters from the label or
/// separator classes, starting with a label character, no two adjacent
/// separators; the last character is left open.
spec fn label_prefix_ok(s: Seq<char>, lo: int, q: int) -> bool {
    &&& (q > lo ==> is_label_char(s[lo]))
    &&& (forall|k: int| lo <= k < q ==> is_label_char(#[trigger] s[k]) || is_label_sep(s[k]))
    &&& (forall|k: int|
        lo <= k < q - 1 ==> !(is_label_sep(#[trigger] s[k]) && is_label_sep(s[k + 1])))
}

proof fn lemma_label_run_shift(s: Seq<char>, lo: int, q: int)
    requires
        0 <= lo < q <= s.len(),
    ensures
        is_label_run(s.subrange(lo, q)) <==> (label_prefix_ok(s, lo, q) && is_label_char(
            s[q - 1],
        )),
{
    let u = s.subrange(lo, q);
    assert(u.len() == q - lo);
    if is_label_run(u) {
        assert forall|k: int| lo <= k < q implies is_label_char(#[trigger] s[k]) || is_label_sep(
            s[k],
        ) by {
            assert(u[k - lo] == s[k]);
        }
        assert forall|k: int| lo <= k < q - 1 implies !(is_label_sep(#[trigger] s[k])
            && is_label_sep(s[k + 1])) by {
            assert(u[k - lo] == s[k]);
            assert(u[k - lo + 1] == s[k + 1]);
        }
        assert(u[0] == s[lo]);
        assert(u[u.len() - 1] == s[q - 1]);
    }
    if label_prefix_ok(s, lo, q) && is_label_char(s[q - 1]) {
        assert forall|k: int| 0 <= k < u.len() implies is_label_char(#[trigger] u[k])
            || is_label_sep(u[k]) by {
            assert(u[k] == s[lo + k]);
        }
        assert forall|k: int| 0 <= k < u.len() - 1 implies !(is_label_sep(#[trigger] u[k])
            && is_label_sep(u[k + 1])) by {
            assert(u[k] == s[lo + k]);
            assert(u[k + 1] == s[lo + k + 1]);
        }
        assert(u[0] == s[lo]);
        assert(u[u.len() - 1] == s[q - 1]);
    }
}

proof fn lemma_prefix_extend(s: Seq<char>, lo: int, q: int)
    requires
        0 <= lo <= q < s.len(),
    ensures
        q == lo ==> (label_prefix_ok(s, lo, q + 1) <==> is_label_char(s[lo])),
        q > lo ==> (label_prefix_ok(s, lo, q + 1) <==> (label_prefix_ok(s, lo, q) && (
        is_label_char(s[q]) || is_label_sep(s[q])) && !(is_label_sep(s[q - 1]) && is_label_sep(
            s[q],
        )))),
{
    if q == lo {
        if is_label_char(s[lo]) {
            assert forall|k: int| lo <= k < q + 1 implies is_label_char(#[trigger] s[k])
                || is_label_sep(s[k]) by {
                assert(k == lo);
            }
        }
    } else {
        if label_prefix_ok(s, lo, q) && (is_label_char(s[q]) || is_label_sep(s[q])) && !(
        is_label_sep(s[q - 1]) && is_label_sep(s[q])) {
            assert forall|k: int| lo <= k < q + 1 implies is_label_char(#[trigger] s[k])
                || is_label_sep(s[k]) by {
                if k < q {
                } else {
                    assert(k == q);
                }
            }
            assert forall|k: int| lo <= k < q implies !(is_label_sep(#[trigger] s[k])
                && is_label_sep(s[k + 1])) by {
                if k < q - 1 {
                } else {
                    assert(k == q - 1);
                }
            }
        }
    }
}

/// A found split assembles into a match of the whole grammar.
proof fn lemma_match_found(s: Seq<char>, a: int, q: int)
    requires
        local_ok_at(s, a),
        dot_ok_at(s, a, q),
    ensures
        email_matches(s),
{
    let t = s.subrange(a + 1, q + 3);
    let p = q - a - 1;
    assert(t.subrange(0, p) =~= s.subrange(a + 1, q));
    assert(t[p] == s[q]);
    let tld = t.subrange(p + 1, t.len() as int);
    assert(tld.len() == 2);
    assert forall|k: int| 0 <= k < tld.len() implies is_lower(#[trigger] tld[k]) by {
        assert(tld[k] == s[q + 1 + k]);
        if k == 0 {
            assert(tld[k] == s[q + 1]);
        } else {
            assert(k == 1);
            assert(tld[k] == s[q + 2]);
        }
    }
    assert(is_tld(tld));
    assert(is_domain(t));
    assert(s.subrange(0, a) == s.subrange(0, a));
    assert(email_matches(s));
}

/// A match of the grammar forces the split: the `@` is the first `@` of
/// the string, the local part precedes it, and some position after it
/// carries the final dot of a domain match.
proof fn lemma_match_positions(s: Seq<char>, a: int)
    requires
        email_matches(s),
        first_at(s, a),
    ensures
        local_ok_at(s, a),
        exists|q: int| #[trigger] dot_ok_at(s, a, q),
{
    let (i, j) = choose|i: int, j: int|
        #![trigger s.subrange(0, i), s.subrange(i + 1, j)]
        1 <= i && i + 1 < j <= s.len() && is_local_part(s.subrange(0, i)) && s[i] == '@'
            && is_domain(s.subrange(i + 1, j));
    let u = s.subrange(0, i);
    assert forall|k: int| 0 <= k < i implies s[k] != '@' by {
        assert(u[k] == s[k]);
        assert(is_local_char(u[k]));
    }
    assert(a == i) by {
        if a < i {
            assert(u[a] == s[a]);
            assert(is_local_char(u[a]));
        }
    }
    let t = s.subrange(i + 1, j);
    let p = choose|p: int|
        #![auto]
        1 <= p < t.len() && is_label_run(t.subrange(0, p)) && t[p] == '.' && is_tld(
            t.subrange(p + 1, t.len() as int),
        );
    let q = a + 1 + p;
    assert(t.subrange(0, p) =~= s.subrange(a + 1, q));
    assert(s[q] == t[p]);
    let tld = t.subrange(p + 1, t.len() as int);
    assert(q + 1 + tld.len() == j);
    assert(s[q + 1] == tld[0]);
    assert(s[q + 2] == tld[1]);
    assert(dot_ok_at(s, a, q));
}

/// Decides whether `s` matches the accepted email grammar.
fn email_check(s: &str) -> (b: bool)
    ensures
        b == email_matches(s@),
{
    let n = s.unicode_len();
    // Find the first `@`, checking the local part on the way.
    let mut i: usize = 0;
    let mut first_edge: bool = false;
    let mut all_local: bool = true;
    while i < n && s.get_char(i) != '@'
        invariant
            0 <= i <= n,
            n == s@.len(),
            forall|k: int| 0 <= k < i ==> s@[k] != '@',
            all_local <==> (forall|k: int| 0 <= k < i ==> is_local_char(#[trigger] s@[k])),
            i > 0 ==> (first_edge <==> is_local_edge(s@[0])),
        decreases n - i,
    {
        let c = s.get_char(i);
        if i == 0 {
            first_edge = is_local_edge_exec(c);
        }
        if !is_local_char_exec(c) {
            all_local = false;
        }
        i += 1;
    }
    if i == n {
        // No `@` at all, so nothing can match.
        proof {
            if email_matches(s@) {
                let (wi, wj) = choose|wi: int, wj: int|
                    #![trigger s@.subrange(0, wi), s@.subrange(wi + 1, wj)]
                    1 <= wi && wi + 1 < wj <= s@.len() && is_local_part(s@.subrange(0, wi))
                        && s@[wi] == '@' && is_domain(s@.subrange(wi + 1, wj));
                assert(s@[wi] != '@');
                assert(false);
            }
        }
        return false;
    }
    let a = i;
    proof {
        assert(first_at(s@, a as int));
    }
    let edge_last = if a >= 1 {
        is_local_edge_exec(s.get_char(a - 1))
    } else {
        false
    };
    if !(a >= 1 && first_edge && all_local && edge_last) {
        proof {
            if email_matches(s@) {
                lemma_match_positions(s@, a as int);
                let u = s@.subrange(0, a as int);
                assert(u[0] == s@[0]);
                assert(u[a as int - 1] == s@[a as int - 1]);
                assert forall|k: int| 0 <= k < a implies is_local_char(#[trigger] s@[k]) by {
                    assert(u[k] == s@[k]);
                }
                assert(false);
            }
        }
        return false;
    }
    proof {
        let u = s@.subrange(0, a as int);
        assert(u[0] == s@[0]);
        assert(u[a as int - 1] == s@[a as int - 1]);
        assert forall|k: int| 0 <= k < u.len() implies is_local_char(#[trigger] u[k]) by {
            assert(u[k] == s@[k]);
        }
        assert(local_ok_at(s@, a as int));
    }
    // Scan for the final dot of a domain match.
    let mut q = a + 1;
    let mut prefix_ok: bool = true;
    let mut prev_sep: bool = false;
    while q < n
        invariant
            a + 1 <= q <= n,
            n == s@.len(),
            (a as int) < s@.len(),
            local_ok_at(s@, a as int),
            prefix_ok <==> label_prefix_ok(s@, a as int + 1, q as int),
            q > a + 1 ==> (prev_sep <==> is_label_sep(s@[q as int - 1])),
            forall|qq: int| a + 2 <= qq < q ==> !#[trigger] dot_ok_at(s@, a as int, qq),
        decreases n - q,
    {
        let c = s.get_char(q);
        if prefix_ok && c == '.' && q - a >= 2 && n - q > 2 {
            let last = s.get_char(q - 1);
            if is_label_char_exec(last) {
                let c1 = s.get_char(q + 1);
                let c2 = s.get_char(q + 2);
                if is_lower_exec(c1) && is_lower_exec(c2) {
                    proof {
                        lemma_label_run_shift(s@, a as int + 1, q as int);
                        assert(dot_ok_at(s@, a as int, q as int));
                        lemma_match_found(s@, a as int, q as int);
                    }
                    return true;
                }
            }
        }
        proof {
            // This position does not carry the final dot of a match.
            if dot_ok_at(s@, a as int, q as int) {
                lemma_label_run_shift(s@, a as int + 1, q as int);
                assert(false);
            }
            lemma_prefix_extend(s@, a as int + 1, q as int);
        }
        let c_is_label = is_label_char_exec(c);
        let c_is_sep = c == '-' || c == '.';
        if q == a + 1 {
            prefix_ok = c_is_label;
        } else {
            prefix_ok = prefix_ok && (c_is_label || c_is_sep) && !(prev_sep && c_is_sep);
        }
        prev_sep = c_is_sep;
        q += 1;
    }
    proof {
        if email_matches(s@) {
            lemma_match_positions(s@, a as int);
            let wq = choose|wq: int| #[trigger] dot_ok_at(s@, a as int, wq);
            assert(false);
        }
    }
    false
}

/// A validated email address.
///
/// The wrapped string always matches the accepted email grammar;
/// construction through `new` is the only way to obtain a value.
#[derive(Debug, Eq, PartialEq)]
pub struct Email {
    value: String,
}

impl View for Email {
    type V = Seq<char>;

    closed spec fn view(&self) -> Seq<char> {
        self.value@
    }
}

impl Clone for Email {
    fn clone(&self) -> (r: Self)
        ensures
            r@ == self@,
    {
        proof {
            use_type_invariant(self);
        }
        Email { value: self.value.clone() }
    }
}

impl Email {
    /// The wrapped string matches the accepted email grammar.
    #[verifier::type_invariant]
    pub open spec fn wf(self) -> bool {
        email_matches(self@)
    }

    /// Initializes a new email instance.
    ///
    /// Succeeds exactly when the provided value matches the accepted email
    /// grammar, storing the value unchanged; fails with a validation error
    /// otherwise.
    pub fn new(value: &str) -> (r: Result<Email, Error>)
        ensures
            r is Ok <==> email_matches(value@),
            r matches Ok(e) ==> e@ == value@,
            r matches Err(err) ==> err == Error::Validation(ValidationError::Email),
    {
        if email_check(value) {
            Ok(Email { value: value.to_owned() })
        } else {
            Err(Error::Validation(ValidationError::Email))
        }
    }

    /// Renders the stored address verbatim.
    pub fn as_str(&self) -> (r: &str)
        ensures
            r@ == self@,
    {
        self.value.as_str()
    }
}

impl crate::traits::Validatable<Error> for Email {
    open spec fn valid(&self) -> bool {
        email_matches(self@)
    }

    /// Re-checks the wrapped string against the grammar; always succeeds,
    /// since only matching strings can be wrapped.
    fn validate(&self) -> (r: Result<(), Error>) {
        if email_check(self.value.as_str()) {
            Ok(())
        } else {
            Err(Error::Validation(ValidationError::Email))
        }
    }
}

} // verus!
