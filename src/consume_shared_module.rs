//! The module that stands for a consumed shared dependency: identity,
//! build and code generation.
use vstd::prelude::*;
use crate::fingerprint::{digest_module, module_digest, opt_view, HashConfig};
use crate::json::{json_string, json_stringify};
use crate::options::{clone_text, identifier_of, lib_ident_of, marker, ConsumeOptions};
use crate::runtime_globals::{lemma_insert_into_empty, lemma_union_has, RuntimeGlobals, SHARE_SCOPE_MAP};

verus! {

/// A handle of a dependency in the compilation's arena.
#[derive(Clone, Copy, Debug, PartialEq, Eq, Structural)]
pub struct DependencyId {
    pub id: usize,
}

/// A handle of a deferred block of dependencies in the compilation's arena.
#[derive(Clone, Copy, Debug, PartialEq, Eq, Structural)]
pub struct AsyncDependenciesBlockId {
    pub id: usize,
}

/// The dependency on the local fallback module.
pub struct ConsumeSharedFallbackDependency {
    pub request: String,
}

/// A branch of the module graph that is resolved only when asked for at
/// run time.
pub struct AsyncDependenciesBlock {
    /// The identifier of the module that owns the block.
    pub parent: String,
    pub dependencies: Vec<ConsumeSharedFallbackDependency>,
}

/// What a build records of the module.
pub struct BuildInfo {
    /// The fingerprint of the module, in hex.
    pub hash: Option<String>,
}

/// What a build hands to the module graph: the fingerprint, the direct
/// edges and the deferred blocks.
pub struct BuildResult {
    pub build_info: BuildInfo,
    pub dependencies: Vec<ConsumeSharedFallbackDependency>,
    pub blocks: Vec<AsyncDependenciesBlock>,
}

/// What a build reads of the compilation: its output hash configuration.
pub struct BuildContext {
    pub output: HashConfig,
}

#[derive(Clone, Copy, Debug, PartialEq, Eq, Structural)]
pub enum ModuleType {
    ConsumeShared,
}

#[derive(Clone, Copy, Debug, PartialEq, Eq, Structural)]
pub enum SourceType {
    ConsumeShared,
}

/// A placeholder module for a dependency that is taken from the shared
/// registry at run time, with an optional local fallback.
pub struct ConsumeSharedModule {
    /// The deferred blocks that the module graph attached.
    pub blocks: Vec<AsyncDependenciesBlockId>,
    /// The direct dependencies that the module graph attached.
    pub dependencies: Vec<DependencyId>,
    pub identifier: String,
    pub lib_ident: String,
    pub readable_identifier: String,
    /// The directory that relative fallback requests resolve from.
    pub context: String,
    pub options: ConsumeOptions,
    pub build_info: Option<BuildInfo>,
}

/// The tag that sets this kind of module apart in hashes.
pub open spec fn module_tag() -> Seq<char> {
    "__rspack_internal__ConsumeSharedModule"@
}

/// The fingerprint of a module with identifier `identifier` under `config`.
pub open spec fn fingerprint_of(config: HashConfig, identifier: Seq<char>) -> Seq<char> {
    module_digest(config.function, opt_view(config.salt), module_tag(), identifier)
}

/// How the generated code obtains the fallback module: synchronously
/// through a direct dependency, or through a deferred block.
pub enum FactoryRequest {
    Sync { dependency: DependencyId, request: String },
    Async { block: AsyncDependenciesBlockId, request: String },
}

/// An expression that creates the fallback module at run time, and the
/// runtime capabilities it needs.
pub struct ModuleFactory {
    pub expression: String,
    pub runtime_requirements: RuntimeGlobals,
}

/// The loader invocation of the generated code: the function's name and
/// its arguments, as source text.
pub struct LoaderCall {
    pub function: String,
    pub args: Vec<String>,
}

/// The data that the stage writing the bootstrap code takes from this
/// module.
pub struct CodeGenerationDataConsumeShared {
    pub share_scope: String,
    pub share_key: String,
    pub import: Option<String>,
    pub required_version: Option<String>,
    pub strict_version: bool,
    pub singleton: bool,
    pub eager: bool,
    pub fallback: Option<String>,
}

pub struct CodeGenerationResult {
    pub runtime_requirements: RuntimeGlobals,
    pub loader: LoaderCall,
    pub data: CodeGenerationDataConsumeShared,
}

/// The name of the loader function for `o`: the strict and singleton
/// words count only with a required version, the singleton word also
/// without one.
pub open spec fn loader_function_of(o: ConsumeOptions) -> Seq<char> {
    match o.required_version {
        Some(_) => "loaders.load"@ + marker(o.strict_version, "Strict"@) + marker(o.singleton, "Singleton"@)
            + "VersionCheck"@,
        None => "loaders.load"@ + marker(o.singleton, "Singleton"@),
    }
}

/// The arguments of the loader function for `o`: scope and key as JSON
/// strings, then the parsed range where one is required.
pub open spec fn loader_args_of(o: ConsumeOptions) -> Seq<Seq<char>> {
    seq![json_string(o.share_scope@), json_string(o.share_key@)] + match o.required_version {
        Some(v) => seq!["loaders.parseRange("@ + json_string(json_string(v@)) + ")"@],
        None => Seq::empty(),
    }
}

/// The views of a list of strings.
pub open spec fn texts(v: Seq<String>) -> Seq<Seq<char>> {
    v.map_values(|s: String| s@)
}

/// The name of the loader function that the generated code calls for `options`.
pub fn loader_function(options: &ConsumeOptions) -> (r: String)
    ensures
        r@ == loader_function_of(*options),
{
    let mut function = String::from_str("loaders.load");
    match &options.required_version {
        Some(_) => {
            let ghost base = function@;
            if options.strict_version {
                function.append("Strict");
            }
            assert(function@ =~= base + marker(options.strict_version, "Strict"@));
            let ghost base = function@;
            if options.singleton {
                function.append("Singleton");
            }
            assert(function@ =~= base + marker(options.singleton, "Singleton"@));
            function.append("VersionCheck");
        },
        None => {
            let ghost base = function@;
            if options.singleton {
                function.append("Singleton");
            }
            assert(function@ =~= base + marker(options.singleton, "Singleton"@));
        },
    }
    function
}

/// The arguments of the loader function that the generated code calls for
/// `options`.
pub fn loader_args(options: &ConsumeOptions) -> (r: Vec<String>)
    ensures
        texts(r@) == loader_args_of(*options),
{
    let mut args: Vec<String> = Vec::new();
    args.push(json_stringify(options.share_scope.as_str()));
    args.push(json_stringify(options.share_key.as_str()));
    match &options.required_version {
        Some(version) => {
            let version = json_stringify(version.as_str());
            let mut arg = String::from_str("loaders.parseRange(");
            arg.append(json_stringify(version.as_str()).as_str());
            arg.append(")");
            args.push(arg);
        },
        None => {},
    }
    assert(texts(args@) =~= loader_args_of(*options));
    args
}

/// The loader invocation that the generated code makes for `options`.
pub fn loader_call(options: &ConsumeOptions) -> (r: LoaderCall)
    ensures
        r.function@ == loader_function_of(*options),
        texts(r.args@) == loader_args_of(*options),
{
    LoaderCall { function: loader_function(options), args: loader_args(options) }
}

impl ConsumeSharedModule {
    /// The module's identity texts are derived from `options` here, once.
    pub open spec fn wf(&self) -> bool {
        &&& self.identifier@ == identifier_of(self.options)
        &&& self.readable_identifier@ == identifier_of(self.options)
        &&& self.lib_ident@ == lib_ident_of(self.options)
    }

    pub fn new(context: String, options: ConsumeOptions) -> (r: Self)
        ensures
            r.wf(),
            r.context == context,
            r.options == options,
            r.blocks@.len() == 0,
            r.dependencies@.len() == 0,
            r.build_info is None,
    {
        let identifier = options.identifier();
        let lib_ident = options.lib_ident();
        ConsumeSharedModule {
            blocks: Vec::new(),
            dependencies: Vec::new(),
            identifier: identifier.clone(),
            lib_ident,
            readable_identifier: identifier,
            context,
            options,
            build_info: None,
        }
    }

    pub fn identifier(&self) -> (r: String)
        ensures
            r@ == self.identifier@,
    {
        self.identifier.clone()
    }

    pub fn add_block_id(&mut self, block: AsyncDependenciesBlockId)
        ensures
            *final(self) == (ConsumeSharedModule { blocks: final(self).blocks, ..*old(self) }),
            final(self).blocks@ == old(self).blocks@.push(block),
    {
        self.blocks.push(block);
    }

    pub fn get_blocks(&self) -> (r: &[AsyncDependenciesBlockId])
        ensures
            r@ == self.blocks@,
    {
        self.blocks.as_slice()
    }

    pub fn add_dependency_id(&mut self, dependency: DependencyId)
        ensures
            *final(self) == (ConsumeSharedModule { dependencies: final(self).dependencies, ..*old(self) }),
            final(self).dependencies@ == old(self).dependencies@.push(dependency),
    {
        self.dependencies.push(dependency);
    }

    pub fn get_dependencies(&self) -> (r: &[DependencyId])
        ensures
            r@ == self.dependencies@,
    {
        self.dependencies.as_slice()
    }

    pub fn module_type(&self) -> (r: ModuleType)
        ensures
            r == ModuleType::ConsumeShared,
    {
        ModuleType::ConsumeShared
    }

    pub fn source_types(&self) -> (r: Vec<SourceType>)
        ensures
            r@ == seq![SourceType::ConsumeShared],
    {
        vec![SourceType::ConsumeShared]
    }

    /// The identifier shown in diagnostics; the same for every context.
    pub fn readable_identifier(&self, _context: &String) -> (r: String)
        ensures
            r@ == self.readable_identifier@,
    {
        self.readable_identifier.clone()
    }

    pub fn lib_ident(&self) -> (r: Option<String>)
        ensures
            r matches Some(s) && s@ == self.lib_ident@,
    {
        Some(self.lib_ident.clone())
    }

    pub fn get_context(&self) -> (r: Option<String>)
        ensures
            r == Some(self.context),
    {
        Some(self.context.clone())
    }

    /// Fingerprints the module under the compiler's output hash
    /// configuration and creates its fallback edge: a direct dependency
    /// when eager, else one deferred block that holds it. Without a
    /// fallback there is no edge.
    pub fn build(&mut self, build_context: &BuildContext) -> (r: BuildResult)
        requires
            old(self).wf(),
        ensures
            *final(self) == (ConsumeSharedModule { build_info: final(self).build_info, ..*old(self) }),
            final(self).wf(),
            r.build_info.hash matches Some(h) && h@ == fingerprint_of(build_context.output, old(self).identifier@),
            final(self).build_info matches Some(i) && i.hash == r.build_info.hash,
            match old(self).options.import {
                None => r.dependencies@.len() == 0 && r.blocks@.len() == 0,
                Some(f) => if old(self).options.eager {
                    &&& r.dependencies@.len() == 1
                    &&& r.dependencies@[0].request == f
                    &&& r.blocks@.len() == 0
                } else {
                    &&& r.dependencies@.len() == 0
                    &&& r.blocks@.len() == 1
                    &&& r.blocks@[0].parent == old(self).identifier
                    &&& r.blocks@[0].dependencies@.len() == 1
                    &&& r.blocks@[0].dependencies@[0].request == f
                },
            },
    {
        let hash = digest_module(&build_context.output, "__rspack_internal__ConsumeSharedModule", self.identifier.as_str());
        let mut blocks: Vec<AsyncDependenciesBlock> = Vec::new();
        let mut dependencies: Vec<ConsumeSharedFallbackDependency> = Vec::new();
        match &self.options.import {
            Some(fallback) => {
                let dep = ConsumeSharedFallbackDependency { request: fallback.clone() };
                if self.options.eager {
                    dependencies.push(dep);
                } else {
                    let mut block = AsyncDependenciesBlock {
                        parent: self.identifier.clone(),
                        dependencies: Vec::new(),
                    };
                    block.dependencies.push(dep);
                    blocks.push(block);
                }
            },
            None => {},
        }
        self.build_info = Some(BuildInfo { hash: Some(hash.clone()) });
        BuildResult { build_info: BuildInfo { hash: Some(hash) }, dependencies, blocks }
    }

    /// Which fallback factory the generated code needs: none without a
    /// fallback, else one bound to the module's first direct dependency
    /// (eager) or to its first deferred block.
    pub fn fallback_factory_request(&self) -> (r: Option<FactoryRequest>)
        requires
            self.options.import is Some && self.options.eager ==> self.dependencies@.len() > 0,
            self.options.import is Some && !self.options.eager ==> self.blocks@.len() > 0,
        ensures
            match self.options.import {
                None => r is None,
                Some(f) => if self.options.eager {
                    r == Some(FactoryRequest::Sync { dependency: self.dependencies@[0], request: f })
                } else {
                    r == Some(FactoryRequest::Async { block: self.blocks@[0], request: f })
                },
            },
    {
        match &self.options.import {
            Some(fallback) => if self.options.eager {
                Some(FactoryRequest::Sync { dependency: self.dependencies[0], request: fallback.clone() })
            } else {
                Some(FactoryRequest::Async { block: self.blocks[0], request: fallback.clone() })
            },
            None => None,
        }
    }

    /// Generates the module's code from the fallback factory that
    /// `fallback_factory_request` asked for: the runtime capabilities (the
    /// share scope map, and what the factory needs), the loader call, and
    /// the data for the bootstrap code.
    pub fn code_generation(&self, fallback: Option<ModuleFactory>) -> (r: CodeGenerationResult)
        requires
            fallback is Some <==> self.options.import is Some,
        ensures
            r.runtime_requirements.bits == match fallback {
                Some(f) => SHARE_SCOPE_MAP | f.runtime_requirements.bits,
                None => SHARE_SCOPE_MAP,
            },
            r.runtime_requirements.has(SHARE_SCOPE_MAP),
            r.loader.function@ == loader_function_of(self.options),
            texts(r.loader.args@) == loader_args_of(self.options),
            r.data.share_scope == self.options.share_scope,
            r.data.share_key == self.options.share_key,
            r.data.import == self.options.import,
            r.data.required_version == self.options.required_version,
            r.data.strict_version == self.options.strict_version,
            r.data.singleton == self.options.singleton,
            r.data.eager == self.options.eager,
            r.data.fallback == match fallback {
                Some(f) => Some(f.expression),
                None => None,
            },
    {
        let mut runtime_requirements = RuntimeGlobals::empty();
        runtime_requirements.insert(SHARE_SCOPE_MAP);
        proof {
            lemma_insert_into_empty(SHARE_SCOPE_MAP);
        }
        let loader = loader_call(&self.options);
        let factory = match fallback {
            Some(f) => {
                runtime_requirements.insert(f.runtime_requirements.bits);
                proof {
                    lemma_union_has(SHARE_SCOPE_MAP, f.runtime_requirements.bits);
                }
                Some(f.expression)
            },
            None => None,
        };
        let data = CodeGenerationDataConsumeShared {
            share_scope: self.options.share_scope.clone(),
            share_key: self.options.share_key.clone(),
            import: clone_text(&self.options.import),
            required_version: clone_text(&self.options.required_version),
            strict_version: self.options.strict_version,
            singleton: self.options.singleton,
            eager: self.options.eager,
            fallback: factory,
        };
        CodeGenerationResult { runtime_requirements, loader, data }
    }
}

/// Two modules are the same module exactly when their identifiers are.
impl PartialEq for ConsumeSharedModule {
    fn eq(&self, other: &Self) -> (r: bool)
        ensures
            r == (self.identifier@ == other.identifier@),
    {
        self.identifier == other.identifier
    }
}

impl vstd::std_specs::cmp::PartialEqSpecImpl for ConsumeSharedModule {
    open spec fn obeys_eq_spec() -> bool {
        true
    }

    open spec fn eq_spec(&self, other: &Self) -> bool {
        self.identifier@ == other.identifier@
    }
}

impl Eq for ConsumeSharedModule {}

/// Relies on `str`'s `Hash`: it writes the string into the hasher; nothing
/// is claimed of what it writes.
pub assume_specification<H: core::hash::Hasher>[ <str as core::hash::Hash>::hash::<H> ](
    s: &str,
    state: &mut H,
);

/// The hash writes the module kind's tag, then the identifier, so that it
/// follows equality and differs from other kinds of modules.
impl core::hash::Hash for ConsumeSharedModule {
    fn hash<H: core::hash::Hasher>(&self, state: &mut H) {
        "__rspack_internal__ConsumeSharedModule".hash(state);
        self.identifier.as_str().hash(state);
    }
}

} // verus!
