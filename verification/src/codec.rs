//! The argument/result codec: pure, total conversions between the
//! pipeline's hook argument and result records and the host-transmissible
//! shapes. Argument encoding keeps the host's arity fixed: a load call
//! fills the second slot with a canonical absent value. Result decoding is
//! a lossless field mapping, and encoding then decoding a result record
//! gives the record back unchanged.

use vstd::prelude::*;

use crate::hooks::ArgTuple;
use crate::hooks::ArgTupleView;
use crate::hooks::HookLoadArgs;
use crate::hooks::HookResolveIdArgs;
use crate::hooks::HookResolveIdArgsView;
use crate::hooks::HookTransformArgs;
use crate::hooks::HookTransformArgsView;
use crate::hooks::ResolveIdOutcome;
use crate::hooks::ResolveIdOutcomeView;
use crate::hooks::ResolveIdResult;
use crate::hooks::ResolveIdResultView;
use crate::hooks::SourceOutcome;
use crate::hooks::SourceOutcomeView;
use crate::hooks::SourceResult;
use crate::hooks::SourceResultView;

verus! {

/// What a resolution call sends to the host: (source, importer?).
pub open spec fn resolve_id_args_encoding(a: HookResolveIdArgsView) -> ArgTupleView {
    ArgTupleView { first: a.source, second: a.importer }
}

/// What a load call sends to the host: (id, absent). The second slot is
/// kept, absent, so that the host sees a fixed arity.
pub open spec fn load_args_encoding(id: Seq<char>) -> ArgTupleView {
    ArgTupleView { first: id, second: None }
}

/// What a transform call sends to the host: (code, id).
pub open spec fn transform_args_encoding(a: HookTransformArgsView) -> ArgTupleView {
    ArgTupleView { first: a.code, second: Some(a.id) }
}

/// The pipeline outcome a host resolution record decodes to.
pub open spec fn resolve_id_result_decoding(v: ResolveIdResultView) -> ResolveIdOutcomeView {
    ResolveIdOutcomeView { id: v.id, external: v.external }
}

/// The host record a pipeline resolution outcome encodes to.
pub open spec fn resolve_id_result_encoding(o: ResolveIdOutcomeView) -> ResolveIdResultView {
    ResolveIdResultView { id: o.id, external: o.external }
}

/// The pipeline outcome a host source record decodes to.
pub open spec fn source_result_decoding(v: SourceResultView) -> SourceOutcomeView {
    SourceOutcomeView { code: v.code, map: v.map }
}

/// The host record a pipeline source outcome encodes to.
pub open spec fn source_result_encoding(o: SourceOutcomeView) -> SourceResultView {
    SourceResultView { code: o.code, map: o.map }
}

/// Copies an optional string, preserving its spec-level image.
fn clone_opt_text(o: &Option<String>) -> (r: Option<String>)
    ensures
        crate::hooks::opt_text_view(r) == crate::hooks::opt_text_view(*o),
{
    match o {
        Some(s) => Some(s.clone()),
        None => None,
    }
}

/// Encodes resolution arguments into the host's argument shape.
pub fn encode_resolve_id_args(a: &HookResolveIdArgs) -> (r: ArgTuple)
    ensures
        r@ == resolve_id_args_encoding(a@),
{
    ArgTuple { first: a.source.clone(), second: clone_opt_text(&a.importer) }
}

/// Encodes load arguments into the host's argument shape, with the second
/// slot present but absent-valued.
pub fn encode_load_args(a: &HookLoadArgs) -> (r: ArgTuple)
    ensures
        r@ == load_args_encoding(a@),
{
    ArgTuple { first: a.id.clone(), second: None }
}

/// Encodes transform arguments into the host's argument shape.
pub fn encode_transform_args(a: &HookTransformArgs) -> (r: ArgTuple)
    ensures
        r@ == transform_args_encoding(a@),
{
    ArgTuple { first: a.code.clone(), second: Some(a.id.clone()) }
}

/// Decodes the host's resolution record into the pipeline's outcome record.
pub fn decode_resolve_id_result(v: ResolveIdResult) -> (r: ResolveIdOutcome)
    ensures
        r@ == resolve_id_result_decoding(v@),
{
    ResolveIdOutcome { id: v.id, external: v.external }
}

/// Encodes the pipeline's resolution outcome into the host's record shape.
pub fn encode_resolve_id_result(o: ResolveIdOutcome) -> (r: ResolveIdResult)
    ensures
        r@ == resolve_id_result_encoding(o@),
{
    ResolveIdResult { id: o.id, external: o.external }
}

/// Decodes the host's source record into the pipeline's outcome record.
pub fn decode_source_result(v: SourceResult) -> (r: SourceOutcome)
    ensures
        r@ == source_result_decoding(v@),
{
    SourceOutcome { code: v.code, map: v.map }
}

/// Encodes the pipeline's source outcome into the host's record shape.
pub fn encode_source_result(o: SourceOutcome) -> (r: SourceResult)
    ensures
        r@ == source_result_encoding(o@),
{
    SourceResult { code: o.code, map: o.map }
}

/// Law: encoding a resolution outcome for the host and decoding it again
/// preserves the record.
pub proof fn lemma_resolve_id_result_round_trip(o: ResolveIdOutcomeView)
    ensures
        resolve_id_result_decoding(resolve_id_result_encoding(o)) == o,
{
}

/// Law: encoding a source outcome for the host and decoding it again
/// preserves the record.
pub proof fn lemma_source_result_round_trip(o: SourceOutcomeView)
    ensures
        source_result_decoding(source_result_encoding(o)) == o,
{
}

} // verus!
