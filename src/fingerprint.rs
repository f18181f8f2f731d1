//! The build fingerprint: a digest of the module's identity under the
//! compiler's output hash configuration.
use vstd::prelude::*;

verus! {

/// The hash function of the compiler's output options.
#[derive(Clone, Copy, Debug, PartialEq, Eq, Structural)]
pub enum HashFunction {
    Xxhash64,
    Md4,
    Sha256,
}

/// The compiler's output hash configuration; digests are written in hex.
pub struct HashConfig {
    pub function: HashFunction,
    pub salt: Option<String>,
}

/// The view of an optional string.
pub open spec fn opt_view(t: Option<String>) -> Option<Seq<char>> {
    match t {
        Some(s) => Some(s@),
        None => None,
    }
}

/// The hex digest that `function`, seeded with `salt`, gives for the two
/// strings `tag` and `identifier` written into it in this order.
pub uninterp spec fn module_digest(
    function: HashFunction,
    salt: Option<Seq<char>>,
    tag: Seq<char>,
    identifier: Seq<char>,
) -> Seq<char>;

/// Relies on rspack_hash: `RspackHash::with_salt` starts the hasher from the
/// function and the salt, `str`'s `Hash` writes each string into it, and
/// `digest` with `HashDigest::Hex` ends it; the result depends on these
/// values alone (for one pointer width, which the salt's `Hash` writes).
#[verifier::external_body]
pub(crate) fn digest_module(config: &HashConfig, tag: &str, identifier: &str) -> (r: String)
    ensures
        r@ == module_digest(config.function, opt_view(config.salt), tag@, identifier@),
{
    let function = match config.function {
        HashFunction::Xxhash64 => rspack_hash::HashFunction::Xxhash64,
        HashFunction::Md4 => rspack_hash::HashFunction::MD4,
        HashFunction::Sha256 => rspack_hash::HashFunction::SHA256,
    };
    let salt = rspack_hash::HashSalt::from(config.salt.clone());
    let mut hasher = rspack_hash::RspackHash::with_salt(&function, &salt);
    std::hash::Hash::hash(tag, &mut hasher);
    std::hash::Hash::hash(identifier, &mut hasher);
    hasher.digest(&rspack_hash::HashDigest::Hex).encoded().to_string()
}

} // verus!
