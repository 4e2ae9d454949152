//! A password field with built-in validation and hashing.

use vstd::prelude::*;
use core::marker::PhantomData;
use crate::email::{is_digit_char, is_lower};
use crate::error::{Error, ValidationError};
use crate::hasher;
use crate::hasher::PasswordHasher;

verus! {

/// An uppercase letter `[A-Z]`.
pub open spec fn is_upper(c: char) -> bool {
    'A' <= c && c <= 'Z'
}

/// A character of the fixed symbol set: `#$%/()=?*+-` and the inverted
/// question mark (U+00BF).
pub open spec fn is_symbol(c: char) -> bool {
    c == '#' || c == '$' || c == '%' || c == '/' || c == '(' || c == ')' || c == '=' || c == '?'
        || c == '*' || c == '+' || c == '-' || c == '\u{bf}'
}

pub open spec fn has_digit(s: Seq<char>) -> bool {
    exists|k: int| 0 <= k < s.len() && is_digit_char(#[trigger] s[k])
}

pub open spec fn has_lower(s: Seq<char>) -> bool {
    exists|k: int| 0 <= k < s.len() && is_lower(#[trigger] s[k])
}

pub open spec fn has_upper(s: Seq<char>) -> bool {
    exists|k: int| 0 <= k < s.len() && is_upper(#[trigger] s[k])
}

pub open spec fn has_symbol(s: Seq<char>) -> bool {
    exists|k: int| 0 <= k < s.len() && is_symbol(#[trigger] s[k])
}

/// Three identical characters in a row somewhere in `s`.
pub open spec fn has_triple_repeat(s: Seq<char>) -> bool {
    exists|k: int|
        #![trigger s[k]]
        0 <= k && k + 2 < s.len() && s[k] == s[k + 1] && s[k + 1] == s[k + 2]
}

/// `w` occurs in `s` as a contiguous substring.
pub open spec fn contains_seq(s: Seq<char>, w: Seq<char>) -> bool {
    exists|k: int|
        #![trigger s.subrange(k, k + w.len() as int)]
        0 <= k && k + w.len() <= s.len() && s.subrange(k, k + w.len() as int) == w
}

/// The password-strength grammar: length 8 to 20; at least one digit, one
/// lowercase letter, one uppercase letter and one symbol of the fixed set;
/// no three identical characters in a row; none of the forbidden words.
pub open spec fn password_ok(s: Seq<char>) -> bool {
    &&& 8 <= s.len() <= 20
    &&& has_digit(s)
    &&& has_lower(s)
    &&& has_upper(s)
    &&& has_symbol(s)
    &&& !has_triple_repeat(s)
    &&& !contains_seq(s, "palabra1"@)
    &&& !contains_seq(s, "palabra2"@)
    &&& !contains_seq(s, "palabraN"@)
}

fn is_digit_char_exec(c: char) -> (r: bool)
    ensures
        r == is_digit_char(c),
{
    '0' <= c && c <= '9'
}

fn is_lower_exec(c: char) -> (r: bool)
    ensures
        r == is_lower(c),
{
    'a' <= c && c <= 'z'
}

fn is_upper_exec(c: char) -> (r: bool)
    ensures
        r == is_upper(c),
{
    'A' <= c && c <= 'Z'
}

fn is_symbol_exec(c: char) -> (r: bool)
    ensures
        r == is_symbol(c),
{
    c == '#' || c == '$' || c == '%' || c == '/' || c == '(' || c == ')' || c == '=' || c == '?'
        || c == '*' || c == '+' || c == '-' || c == '\u{bf}'
}

/// Decides whether `w` occurs in `s` as a contiguous substring.
fn contains_sub(s: &str, w: &str) -> (b: bool)
    ensures
        b == contains_seq(s@, w@),
{
    let n = s.unicode_len();
    let m = w.unicode_len();
    if m == 0 {
        proof {
            assert(s@.subrange(0, 0 + w@.len() as int) =~= w@);
            assert(contains_seq(s@, w@));
        }
        return true;
    }
    if m > n {
        proof {
            if contains_seq(s@, w@) {
                let k = choose|k: int|
                    #![trigger s@.subrange(k, k + w@.len() as int)]
                    0 <= k && k + w@.len() <= s@.len() && s@.subrange(k, k + w@.len() as int)
                        == w@;
                assert(false);
            }
        }
        return false;
    }
    let mut k: usize = 0;
    while k <= n - m
        invariant
            1 <= m <= n,
            n == s@.len(),
            m == w@.len(),
            0 <= k <= n - m + 1,
            forall|kk: int|
                0 <= kk < k ==> #[trigger] s@.subrange(kk, kk + w@.len() as int) != w@,
        decreases n - m + 1 - k,
    {
        let mut j: usize = 0;
        while j < m && s.get_char(k + j) == w.get_char(j)
            invariant
                0 <= j <= m,
                k + m <= n,
                n == s@.len(),
                m == w@.len(),
                forall|jj: int| 0 <= jj < j ==> s@[k + jj] == w@[jj],
            decreases m - j,
        {
            j += 1;
        }
        if j == m {
            proof {
                assert(s@.subrange(k as int, k + m) =~= w@);
            }
            return true;
        }
        proof {
            assert(s@.subrange(k as int, k + m)[j as int] == s@[k + j]);
            assert(s@.subrange(k as int, k + m) != w@);
        }
        k += 1;
    }
    proof {
        if contains_seq(s@, w@) {
            let kk = choose|kk: int|
                #![trigger s@.subrange(kk, kk + w@.len() as int)]
                0 <= kk && kk + w@.len() <= s@.len() && s@.subrange(kk, kk + w@.len() as int)
                    == w@;
            assert(kk < k);
            assert(false);
        }
    }
    false
}

/// The string `h` is a hash under `T`: some plaintext verifies against it.
pub open spec fn hash_of_some_plaintext<T: PasswordHasher>(h: Seq<char>) -> bool {
    exists|p: Seq<char>| #[trigger] T::spec_verifies(p, h)
}

/// A password field that stores only the hash produced by the hashing
/// capability `T`; the plaintext is validated, hashed and discarded.
#[verifier::reject_recursive_types(T)]
#[derive(Debug, Eq, PartialEq)]
pub struct Password<T: PasswordHasher> {
    hash: String,
    hasher: PhantomData<T>,
}

impl<T: PasswordHasher> View for Password<T> {
    type V = Seq<char>;

    closed spec fn view(&self) -> Seq<char> {
        self.hash@
    }
}

impl<T: PasswordHasher> Clone for Password<T> {
    fn clone(&self) -> (r: Self)
        ensures
            r@ == self@,
    {
        proof {
            use_type_invariant(self);
        }
        Password { hash: self.hash.clone(), hasher: PhantomData }
    }
}

impl<T: PasswordHasher> Password<T> {
    /// The stored string is a hash under `T`: some plaintext verifies
    /// against it. It is never the plaintext itself.
    #[verifier::type_invariant]
    pub open spec fn wf(self) -> bool {
        hash_of_some_plaintext::<T>(self@)
    }

    /// Checks the provided plaintext against the password-strength
    /// grammar; succeeds exactly when the grammar accepts it.
    fn validate_value(value: &str) -> (r: Result<(), Error>)
        ensures
            r.is_ok() <==> password_ok(value@),
            r matches Err(e) ==> e == Error::Validation(ValidationError::Password),
    {
        let n = value.unicode_len();
        if n < 8 || n > 20 {
            return Err(Error::Validation(ValidationError::Password));
        }
        let mut found_digit: bool = false;
        let mut found_lower: bool = false;
        let mut found_upper: bool = false;
        let mut found_symbol: bool = false;
        let mut triple: bool = false;
        let mut k: usize = 0;
        while k < n
            invariant
                8 <= n <= 20,
                n == value@.len(),
                0 <= k <= n,
                found_digit <==> (exists|kk: int|
                    0 <= kk < k && is_digit_char(#[trigger] value@[kk])),
                found_lower <==> (exists|kk: int| 0 <= kk < k && is_lower(#[trigger] value@[kk])),
                found_upper <==> (exists|kk: int| 0 <= kk < k && is_upper(#[trigger] value@[kk])),
                found_symbol <==> (exists|kk: int|
                    0 <= kk < k && is_symbol(#[trigger] value@[kk])),
                triple <==> (exists|kk: int|
                    #![trigger value@[kk]]
                    0 <= kk < k && kk + 2 < n && value@[kk] == value@[kk + 1] && value@[kk + 1]
                        == value@[kk + 2]),
            decreases n - k,
        {
            let c = value.get_char(k);
            if is_digit_char_exec(c) {
                found_digit = true;
            }
            if is_lower_exec(c) {
                found_lower = true;
            }
            if is_upper_exec(c) {
                found_upper = true;
            }
            if is_symbol_exec(c) {
                found_symbol = true;
            }
            if k + 2 < n {
                if c == value.get_char(k + 1) && value.get_char(k + 1) == value.get_char(k + 2) {
                    triple = true;
                }
            }
            k += 1;
        }
        if !(found_digit && found_lower && found_upper && found_symbol) || triple {
            return Err(Error::Validation(ValidationError::Password));
        }
        if contains_sub(value, "palabra1") || contains_sub(value, "palabra2") || contains_sub(
            value,
            "palabraN",
        ) {
            return Err(Error::Validation(ValidationError::Password));
        }
        Ok(())
    }

    /// Initializes a new password instance: validates the plaintext
    /// against the strength grammar, then hashes it with `T` and stores
    /// only the hash.
    ///
    /// Fails with a validation error exactly when the grammar rejects the
    /// plaintext; a technical failure of the hasher is passed on.
    /// Verifying the same plaintext against a successfully constructed
    /// value succeeds.
    pub fn new(value: &'static str) -> (r: Result<Password<T>, Error>)
        ensures
            (r matches Err(e) && e == Error::Validation(ValidationError::Password)) <==> !password_ok(
                value@,
            ),
            r matches Ok(p) ==> password_ok(value@) && T::spec_verifies(value@, p@),
            r matches Err(e) ==> (!password_ok(value@) || e == Error::InvalidPassword
                || e matches Error::PasswordHashingError(_)),
    {
        if let Err(e) = Self::validate_value(value) {
            return Err(e);
        }
        match T::hash(value) {
            Ok(h) => {
                proof {
                    assert(hash_of_some_plaintext::<T>(h@)) by {
                        assert(T::spec_verifies(value@, h@));
                    }
                }
                Ok(Password { hash: h, hasher: PhantomData })
            },
            Err(hasher::Error::InvalidPassword) => Err(Error::InvalidPassword),
            Err(other) => Err(Error::PasswordHashingError(other)),
        }
    }

    /// Confirms whether the provided password matches the stored hash.
    ///
    /// Succeeds exactly when `T`'s verification accepts the pair, fails
    /// with `Error::InvalidPassword` exactly on a genuine mismatch, and
    /// passes a technical hasher failure on otherwise. The candidate is
    /// login input: it is not checked against the strength grammar.
    pub fn confirm(&self, password: &str) -> (r: Result<(), Error>)
        ensures
            r.is_ok() <==> T::spec_verifies(password@, self@),
            r matches Err(Error::InvalidPassword) <==> T::spec_rejects(password@, self@),
            !T::spec_verifies(password@, self@) && !T::spec_rejects(password@, self@)
                ==> r matches Err(Error::PasswordHashingError(_)),
    {
        match T::confirm_password(password, self.hash.as_str()) {
            Ok(()) => Ok(()),
            Err(hasher::Error::InvalidPassword) => Err(Error::InvalidPassword),
            Err(other) => Err(Error::PasswordHashingError(other)),
        }
    }

    /// The self-describing stored hash string (algorithm, parameters,
    /// salt and digest, textually encoded): this exact string, and only
    /// this string, is what a storage collaborator persists. The
    /// plaintext is unrecoverable from it.
    pub fn as_str(&self) -> (r: &str)
        ensures
            r@ == self@,
    {
        self.hash.as_str()
    }
}

} // verus!
