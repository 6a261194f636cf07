use vstd::prelude::*;

verus! {

/// The PBKDF2-HMAC-SHA256 derived key of 32 bytes (RFC 2898, PRF HMAC-SHA256,
/// dkLen 32) for `iterations` rounds, `salt` and `secret`, as `ring` computes it.
pub uninterp spec fn pbkdf2_hmac_sha256(iterations: u32, salt: Seq<u8>, secret: Seq<u8>) -> Seq<u8>;

/// Inputs longer than this many bytes could overflow the bit counter of SHA-256,
/// on which `ring` panics; no real salt or password comes near it.
pub open spec fn hashable_len() -> nat {
    0x1000_0000_0000_0000
}

/// Derives a 32-byte key with `ring::pbkdf2::derive` and `PBKDF2_HMAC_SHA256`.
/// Trusted: the result is named, it depends on the three arguments alone.
/// `ring` panics on a zero-sized output (not the case here) and on inputs too long
/// for SHA-256, which `requires` leaves out; its `NonZeroU32` count is built
/// from `iterations`, which `requires` keeps above zero.
#[verifier::external_body]
fn pbkdf2_derive(iterations: u32, salt: &[u8], secret: &[u8]) -> (key: [u8; 32])
    requires
        iterations > 0,
        salt@.len() < hashable_len(),
        secret@.len() < hashable_len(),
    ensures
        key@ == pbkdf2_hmac_sha256(iterations, salt@, secret@),
{
    let mut key = [0u8; ring::digest::SHA256_OUTPUT_LEN];
    let rounds = std::num::NonZeroU32::new(iterations).unwrap();
    ring::pbkdf2::derive(ring::pbkdf2::PBKDF2_HMAC_SHA256, rounds, salt, secret, &mut key);
    key
}

/// Turns passwords into the hashes stored in the credentials table.
pub struct PasswordHasher {
    pub salt: String,
    /// Number of PBKDF2 rounds; never zero in a usable hasher.
    pub iterations: u32,
}

impl Clone for PasswordHasher {
    fn clone(&self) -> (copy: PasswordHasher)
        ensures
            copy == *self,
    {
        PasswordHasher { salt: self.salt.clone(), iterations: self.iterations }
    }
}

/// The number of PBKDF2 rounds the service is configured with.
pub open spec fn default_iterations() -> u32 {
    100_000
}

impl PasswordHasher {
    /// A hasher that can hash: at least one round and a salt SHA-256 can take.
    pub open spec fn well_formed(&self) -> bool {
        &&& self.iterations > 0
        &&& vstd::utf8::encode_utf8(self.salt@).len() < hashable_len()
    }

    /// The hash of `password` under this hasher.
    pub open spec fn spec_hash(&self, password: Seq<char>) -> Seq<u8> {
        pbkdf2_hmac_sha256(
            self.iterations,
            vstd::utf8::encode_utf8(self.salt@),
            vstd::utf8::encode_utf8(password),
        )
    }

    /// The hasher for the configured salt, with the service's 100 000 rounds.
    pub fn from_salt(salt: String) -> (hasher: PasswordHasher)
        ensures
            hasher.salt == salt,
            hasher.iterations == default_iterations(),
            vstd::utf8::encode_utf8(salt@).len() < hashable_len() ==> hasher.well_formed(),
    {
        PasswordHasher { salt, iterations: 100_000 }
    }

    /// PBKDF2-HMAC-SHA256 of the UTF-8 bytes of `password`, salted with the
    /// UTF-8 bytes of `self.salt`, 32 bytes long.
    pub fn get_hash(&self, password: &str) -> (hash: [u8; 32])
        requires
            self.well_formed(),
            vstd::utf8::encode_utf8(password@).len() < hashable_len(),
        ensures
            hash@ == self.spec_hash(password@),
            hash@ == pbkdf2_hmac_sha256(
                self.iterations,
                vstd::utf8::encode_utf8(self.salt@),
                vstd::utf8::encode_utf8(password@),
            ),
            hash@.len() == 32,
    {
        let salt = self.salt.as_str().as_bytes();
        let secret = password.as_bytes();
        pbkdf2_derive(self.iterations, salt, secret)
    }
}

/// A password hashes as the whole of it: the hash is PBKDF2-HMAC-SHA256 of the
/// salt's UTF-8 bytes and of bytes that decode back to exactly the password, so
/// two passwords are two different PBKDF2 inputs even when they share a prefix.
pub proof fn lemma_hash_covers_whole_password(hasher: PasswordHasher, password: Seq<char>, other: Seq<char>)
    ensures
        hasher.spec_hash(password) == pbkdf2_hmac_sha256(
            hasher.iterations,
            vstd::utf8::encode_utf8(hasher.salt@),
            vstd::utf8::encode_utf8(password),
        ),
        vstd::utf8::decode_utf8(vstd::utf8::encode_utf8(password)) == password,
        password != other ==> vstd::utf8::encode_utf8(password) != vstd::utf8::encode_utf8(other),
{
    vstd::utf8::encode_utf8_decode_utf8(password);
    vstd::utf8::encode_utf8_decode_utf8(other);
}

} // verus!
