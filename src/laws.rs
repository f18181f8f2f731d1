//! Laws that relate the module's identity, equality and fingerprint.
use vstd::prelude::*;
use crate::consume_shared_module::{fingerprint_of, ConsumeSharedModule};
use crate::fingerprint::HashConfig;
use vstd::std_specs::cmp::PartialEqSpec;
use crate::options::identifier_of;

verus! {

/// Modules made from equal options have equal identifiers, readable
/// identifiers and logical import paths.
pub proof fn lemma_identity_deterministic(a: ConsumeSharedModule, b: ConsumeSharedModule)
    requires
        a.wf(),
        b.wf(),
        a.options == b.options,
    ensures
        a.identifier@ == b.identifier@,
        a.readable_identifier@ == b.readable_identifier@,
        a.lib_ident@ == b.lib_ident@,
{
}

/// Modules made from equal options fingerprint alike under equal hash
/// configurations.
pub proof fn lemma_fingerprint_stable(
    a: ConsumeSharedModule,
    b: ConsumeSharedModule,
    ca: HashConfig,
    cb: HashConfig,
)
    requires
        a.wf(),
        b.wf(),
        a.options == b.options,
        ca == cb,
    ensures
        fingerprint_of(ca, a.identifier@) == fingerprint_of(cb, b.identifier@),
{
}

/// Two modules are equal exactly when the identities derived from their
/// options are, and equal modules hash alike: their fingerprints under one
/// hash configuration agree.
pub proof fn lemma_equality_follows_identity(a: ConsumeSharedModule, b: ConsumeSharedModule, c: HashConfig)
    requires
        a.wf(),
        b.wf(),
    ensures
        a.eq_spec(&b) <==> identifier_of(a.options) == identifier_of(b.options),
        a.eq_spec(&b) ==> fingerprint_of(c, a.identifier@) == fingerprint_of(c, b.identifier@),
{
}

} // verus!
