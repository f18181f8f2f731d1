//! The sharing configuration of a consumed module, and the texts that
//! identify the module it gives rise to.
use vstd::prelude::*;

verus! {

/// How a module consumes a shared dependency.
pub struct ConsumeOptions {
    /// The fallback module request; `None` means there is no fallback.
    pub import: Option<String>,
    /// The resolved fallback path, shown in the identifier.
    pub import_resolved: Option<String>,
    /// The name of the entry in the shared registry.
    pub share_key: String,
    /// The namespace of the shared registry.
    pub share_scope: String,
    /// The accepted version range, as text; `None` accepts any version.
    pub required_version: Option<String>,
    pub strict_version: bool,
    pub singleton: bool,
    /// Whether the fallback is part of the synchronous module graph.
    pub eager: bool,
}

/// `text` where `flag` is set, nothing otherwise.
pub open spec fn marker(flag: bool, text: Seq<char>) -> Seq<char> {
    if flag {
        text
    } else {
        Seq::empty()
    }
}

/// The version shown in the identifier: the range, or `*` without one.
pub open spec fn version_text(o: ConsumeOptions) -> Seq<char> {
    match o.required_version {
        Some(v) => v@,
        None => "*"@,
    }
}

/// The fallback annotation of the identifier.
pub open spec fn fallback_marker(o: ConsumeOptions) -> Seq<char> {
    match o.import_resolved {
        Some(f) => " (fallback: "@ + f@ + ")"@,
        None => Seq::empty(),
    }
}

/// The canonical identifier of the module that `o` describes. The strict
/// and the singleton flags carry the same annotation.
pub open spec fn identifier_of(o: ConsumeOptions) -> Seq<char> {
    "consume shared module ("@ + o.share_scope@ + ") "@ + o.share_key@ + "@"@ + version_text(o)
        + marker(o.strict_version, " (strict)"@) + marker(o.singleton, " (strict)"@)
        + fallback_marker(o) + marker(o.eager, " (eager)"@)
}

/// The logical import path of the module that `o` describes.
pub open spec fn lib_ident_of(o: ConsumeOptions) -> Seq<char> {
    "sharing/consume/"@ + o.share_scope@ + "/"@ + o.share_key@ + match o.import {
        Some(r) => "/"@ + r@,
        None => Seq::empty(),
    }
}

/// A copy of an optional string.
pub(crate) fn clone_text(t: &Option<String>) -> (r: Option<String>)
    ensures
        r == *t,
{
    match t {
        Some(s) => Some(s.clone()),
        None => None,
    }
}

impl ConsumeOptions {
    /// The canonical identifier; also the readable one.
    pub fn identifier(&self) -> (r: String)
        ensures
            r@ == identifier_of(*self),
    {
        let mut s = String::from_str("consume shared module (");
        s.append(self.share_scope.as_str());
        s.append(") ");
        s.append(self.share_key.as_str());
        s.append("@");
        match &self.required_version {
            Some(v) => s.append(v.as_str()),
            None => s.append("*"),
        }
        let ghost base = s@;
        if self.strict_version {
            s.append(" (strict)");
        }
        assert(s@ =~= base + marker(self.strict_version, " (strict)"@));
        let ghost base = s@;
        if self.singleton {
            s.append(" (strict)");
        }
        assert(s@ =~= base + marker(self.singleton, " (strict)"@));
        let ghost base = s@;
        match &self.import_resolved {
            Some(f) => {
                s.append(" (fallback: ");
                s.append(f.as_str());
                s.append(")");
            },
            None => {},
        }
        assert(s@ =~= base + fallback_marker(*self));
        let ghost base = s@;
        if self.eager {
            s.append(" (eager)");
        }
        assert(s@ =~= base + marker(self.eager, " (eager)"@));
        s
    }

    /// The logical import path `sharing/consume/<scope>/<key>[/<import>]`.
    pub fn lib_ident(&self) -> (r: String)
        ensures
            r@ == lib_ident_of(*self),
    {
        let mut s = String::from_str("sharing/consume/");
        s.append(self.share_scope.as_str());
        s.append("/");
        s.append(self.share_key.as_str());
        let ghost base = s@;
        match &self.import {
            Some(r) => {
                s.append("/");
                s.append(r.as_str());
            },
            None => {},
        }
        assert(s@ =~= base + match self.import {
            Some(r) => "/"@ + r@,
            None => Seq::<char>::empty(),
        });
        s
    }
}

} // verus!
