//! One-way hashing of passwords and the check of a password against a stored hash.
//!
//! No password policy lives here: any text is hashed, weak or strong.

use crate::errors::AuthError;
use crate::text::digit_value;
use crate::trusted::{bcrypt_hash, bcrypt_verdict, bcrypt_verify};
use vstd::prelude::*;

verus! {

/// The smallest work factor that can be configured.
pub const MIN_COST: u32 = 4;

/// The largest work factor that can be configured.
pub const MAX_COST: u32 = 31;

/// The work factor of a hasher that was configured with none.
pub const DEFAULT_COST: u32 = 12;

/// The password is the one that the stored hash was made from, as far as
/// the hash can tell. A hash that cannot be read matches no password.
pub open spec fn password_matches(plaintext: Seq<char>, hashed: Seq<char>) -> bool {
    bcrypt_verdict(plaintext, hashed) == Some(true)
}

/// The work factor that a hash states: the two digits between its second
/// and its third `$`. `None` where the text does not have that shape.
pub open spec fn hash_cost(hashed: Seq<char>) -> Option<nat> {
    if hashed.len() >= 7 && hashed[0] == '$' && hashed[3] == '$' && hashed[6] == '$' {
        match (digit_value(hashed[4]), digit_value(hashed[5])) {
            (Some(tens), Some(ones)) => Some(tens * 10 + ones),
            _ => None,
        }
    } else {
        None
    }
}

/// Hashes passwords with an adaptive, salted one-way function at a fixed
/// work factor, and checks passwords against such hashes.
pub struct CredentialHasher {
    cost: u32,
}

impl CredentialHasher {
    #[verifier::type_invariant]
    spec fn cost_in_range(self) -> bool {
        MIN_COST <= self.cost <= MAX_COST
    }

    /// The work factor.
    pub closed spec fn spec_cost(&self) -> u32 {
        self.cost
    }

    /// A hasher at [`DEFAULT_COST`].
    pub fn new() -> (hasher: CredentialHasher)
        ensures
            hasher.spec_cost() == DEFAULT_COST,
    {
        CredentialHasher { cost: DEFAULT_COST }
    }

    /// A hasher at the given work factor, where that lies between
    /// [`MIN_COST`] and [`MAX_COST`].
    pub fn with_cost(cost: u32) -> (hasher: Option<CredentialHasher>)
        ensures
            hasher is Some == (MIN_COST <= cost <= MAX_COST),
            hasher matches Some(h) ==> h.spec_cost() == cost,
    {
        if MIN_COST <= cost && cost <= MAX_COST {
            Some(CredentialHasher { cost })
        } else {
            None
        }
    }

    /// The work factor.
    #[verifier::when_used_as_spec(spec_cost)]
    pub fn cost(&self) -> (cost: u32)
        ensures
            cost == self.spec_cost(),
            MIN_COST <= cost <= MAX_COST,
    {
        proof {
            use_type_invariant(self);
        }
        self.cost
    }

    /// What hashing gives, given what the hashing crate returned: its hash,
    /// or a failure where it returned none.
    pub fn hash_given(hashed: Option<String>) -> (r: Result<String, AuthError>)
        ensures
            r == match hashed {
                Some(text) => Ok::<String, AuthError>(text),
                None => Err::<String, AuthError>(AuthError::HashingFailure),
            },
    {
        match hashed {
            Some(text) => Ok(text),
            None => Err(AuthError::HashingFailure),
        }
    }

    /// Whether a password matches, given what the hashing crate found: a
    /// match only where it could read the hash and found the password to
    /// match.
    pub fn verify_given(found: Option<bool>) -> (matches: bool)
        ensures
            matches == (found == Some(true)),
    {
        match found {
            Some(matched) => matched,
            None => false,
        }
    }

    /// Hashes a password under a fresh salt, at the hasher's work factor.
    /// Two calls on one password give different hashes; each of them
    /// matches the password and states the work factor.
    pub fn hash(&self, plaintext: &str) -> (r: Result<String, AuthError>)
        ensures
            r matches Ok(hashed) ==> password_matches(plaintext@, hashed@) && hash_cost(hashed@)
                == Some(self.spec_cost() as nat),
            r matches Err(e) ==> e == AuthError::HashingFailure,
    {
        let hashed = match bcrypt_hash(plaintext, self.cost) {
            Ok(text) => Some(text),
            Err(_) => None,
        };
        CredentialHasher::hash_given(hashed)
    }

    /// Whether the password matches the stored hash. A mismatch and an
    /// unreadable hash both give `false`; neither is an error.
    pub fn verify(&self, plaintext: &str, hashed: &str) -> (matches: bool)
        ensures
            matches == password_matches(plaintext@, hashed@),
    {
        let found = match bcrypt_verify(plaintext, hashed) {
            Ok(matched) => Some(matched),
            Err(_) => None,
        };
        CredentialHasher::verify_given(found)
    }
}

} // verus!
