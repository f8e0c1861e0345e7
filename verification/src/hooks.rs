//! The records exchanged between the pipeline and the host for each hook:
//! the pipeline's argument structures, the pipeline's outcome records, the
//! host-side result records, and the fixed-arity argument shape that the
//! host accepts. Each record has a spec-level view over sequences of
//! characters, which the contracts of the codec and the adapter speak of.

use vstd::prelude::*;

verus! {

/// Which extension point a call or a failure belongs to.
#[derive(Clone, Copy, Debug, PartialEq, Eq, Structural)]
pub enum HookKind {
    ResolveId,
    Load,
    Transform,
}

/// The pipeline's mutable context, opaque to this bridge: every hook method
/// takes it and hands it back untouched.
pub struct PluginContext {}

/// The spec-level image of an optional owned string.
pub open spec fn opt_text_view(o: Option<String>) -> Option<Seq<char>> {
    match o {
        Some(s) => Some(s@),
        None => None,
    }
}

/// Arguments of a module-resolution hook call: the requested specifier and,
/// when the request comes from inside a module, the importer's path.
#[derive(Debug)]
pub struct HookResolveIdArgs {
    pub source: String,
    pub importer: Option<String>,
}

pub struct HookResolveIdArgsView {
    pub source: Seq<char>,
    pub importer: Option<Seq<char>>,
}

impl View for HookResolveIdArgs {
    type V = HookResolveIdArgsView;

    open spec fn view(&self) -> HookResolveIdArgsView {
        HookResolveIdArgsView { source: self.source@, importer: opt_text_view(self.importer) }
    }
}

/// Arguments of a load hook call: the id of the module to load.
#[derive(Debug)]
pub struct HookLoadArgs {
    pub id: String,
}

impl View for HookLoadArgs {
    type V = Seq<char>;

    open spec fn view(&self) -> Seq<char> {
        self.id@
    }
}

/// Arguments of a transform hook call: the code to transform and the id of
/// the module it belongs to.
#[derive(Debug)]
pub struct HookTransformArgs {
    pub code: String,
    pub id: String,
}

pub struct HookTransformArgsView {
    pub code: Seq<char>,
    pub id: Seq<char>,
}

impl View for HookTransformArgs {
    type V = HookTransformArgsView;

    open spec fn view(&self) -> HookTransformArgsView {
        HookTransformArgsView { code: self.code@, id: self.id@ }
    }
}

/// The host-transmissible argument shape: a fixed arity of two slots, the
/// second of which may be absent. Resolution sends (source, importer?),
/// loading sends (id, absent), transformation sends (code, id).
#[derive(Debug)]
pub struct ArgTuple {
    pub first: String,
    pub second: Option<String>,
}

pub struct ArgTupleView {
    pub first: Seq<char>,
    pub second: Option<Seq<char>>,
}

impl View for ArgTuple {
    type V = ArgTupleView;

    open spec fn view(&self) -> ArgTupleView {
        ArgTupleView { first: self.first@, second: opt_text_view(self.second) }
    }
}

/// The host's result record for a resolution call: the resolved id and,
/// optionally, whether the module is external to the build.
#[derive(Debug)]
pub struct ResolveIdResult {
    pub id: String,
    pub external: Option<bool>,
}

pub struct ResolveIdResultView {
    pub id: Seq<char>,
    pub external: Option<bool>,
}

impl View for ResolveIdResult {
    type V = ResolveIdResultView;

    open spec fn view(&self) -> ResolveIdResultView {
        ResolveIdResultView { id: self.id@, external: self.external }
    }
}

/// The pipeline's outcome record for a resolution hook.
#[derive(Debug)]
pub struct ResolveIdOutcome {
    pub id: String,
    pub external: Option<bool>,
}

pub struct ResolveIdOutcomeView {
    pub id: Seq<char>,
    pub external: Option<bool>,
}

impl View for ResolveIdOutcome {
    type V = ResolveIdOutcomeView;

    open spec fn view(&self) -> ResolveIdOutcomeView {
        ResolveIdOutcomeView { id: self.id@, external: self.external }
    }
}

/// The host's result record for a load or transform call: the produced code
/// and, optionally, a source map.
#[derive(Debug)]
pub struct SourceResult {
    pub code: String,
    pub map: Option<String>,
}

pub struct SourceResultView {
    pub code: Seq<char>,
    pub map: Option<Seq<char>>,
}

impl View for SourceResult {
    type V = SourceResultView;

    open spec fn view(&self) -> SourceResultView {
        SourceResultView { code: self.code@, map: opt_text_view(self.map) }
    }
}

/// The pipeline's outcome record for a load or transform hook.
#[derive(Debug)]
pub struct SourceOutcome {
    pub code: String,
    pub map: Option<String>,
}

pub struct SourceOutcomeView {
    pub code: Seq<char>,
    pub map: Option<Seq<char>>,
}

impl View for SourceOutcome {
    type V = SourceOutcomeView;

    open spec fn view(&self) -> SourceOutcomeView {
        SourceOutcomeView { code: self.code@, map: opt_text_view(self.map) }
    }
}

} // verus!
