//! The report assembler: one pass over the accumulated record list, producing
//! the final aggregate report.

use vstd::prelude::*;
use crate::record::{APIMetadata, APIMetadataView, ApiKind};

verus! {

/// How many of the first `n` records are classified under kind `k`.
pub open spec fn count_kind_prefix(recs: Seq<APIMetadataView>, k: ApiKind, n: int) -> nat
    decreases n,
{
    if n <= 0 {
        0
    } else {
        count_kind_prefix(recs, k, n - 1) + (if recs[n - 1].api_type == k {
            1nat
        } else {
            0nat
        })
    }
}

/// How many records of the list are classified under kind `k`.
pub open spec fn count_kind(recs: Seq<APIMetadataView>, k: ApiKind) -> nat {
    count_kind_prefix(recs, k, recs.len() as int)
}

/// How many of the first `n` records are marked deprecated.
pub open spec fn count_deprecated_prefix(recs: Seq<APIMetadataView>, n: int) -> nat
    decreases n,
{
    if n <= 0 {
        0
    } else {
        count_deprecated_prefix(recs, n - 1) + (if recs[n - 1].is_deprecated {
            1nat
        } else {
            0nat
        })
    }
}

/// How many records of the list are marked deprecated.
pub open spec fn count_deprecated(recs: Seq<APIMetadataView>) -> nat {
    count_deprecated_prefix(recs, recs.len() as int)
}

/// The kind-to-count mapping of one report, over the closed set of kinds.
#[derive(Clone, Copy, Debug, PartialEq, Eq, Structural)]
pub struct KindCounts {
    pub function: usize,
    pub class: usize,
    pub method: usize,
}

/// The aggregate report of one introspection run: an immutable snapshot of the
/// record list of one traversal, with its numeric summary and the caller's
/// library tags.
pub struct IntrospectionOutput {
    pub library: String,
    pub version: String,
    pub language: String,
    pub total_apis: usize,
    pub apis: Vec<APIMetadata>,
    pub by_type: KindCounts,
    pub deprecated_count: usize,
}

/// Law: the per-kind counts of the first `n` records partition them — the
/// three counts sum to `n`.
proof fn lemma_kind_counts_partition_prefix(recs: Seq<APIMetadataView>, n: int)
    requires
        0 <= n,
    ensures
        count_kind_prefix(recs, ApiKind::Function, n) + count_kind_prefix(recs, ApiKind::Class, n)
            + count_kind_prefix(recs, ApiKind::Method, n) == n,
    decreases n,
{
    if n > 0 {
        lemma_kind_counts_partition_prefix(recs, n - 1);
    }
}

/// Law: every record is classified under exactly one kind, so the per-kind
/// counts of a record list sum to its length.
pub proof fn lemma_kind_counts_partition(recs: Seq<APIMetadataView>)
    ensures
        count_kind(recs, ApiKind::Function) + count_kind(recs, ApiKind::Class) + count_kind(
            recs,
            ApiKind::Method,
        ) == recs.len(),
{
    lemma_kind_counts_partition_prefix(recs, recs.len() as int);
}

/// Law: a kind's count is positive exactly when some record of the list is
/// classified under it — the keys of the kind-to-count mapping are exactly the
/// kinds present.
pub proof fn lemma_count_positive_iff_present(recs: Seq<APIMetadataView>, k: ApiKind)
    ensures
        count_kind(recs, k) > 0 <==> exists|i: int| 0 <= i < recs.len() && recs[i].api_type == k,
{
    lemma_count_positive_iff_present_prefix(recs, k, recs.len() as int);
}

proof fn lemma_count_positive_iff_present_prefix(recs: Seq<APIMetadataView>, k: ApiKind, n: int)
    requires
        0 <= n <= recs.len(),
    ensures
        count_kind_prefix(recs, k, n) > 0 <==> exists|i: int| 0 <= i < n && recs[i].api_type == k,
    decreases n,
{
    if n > 0 {
        lemma_count_positive_iff_present_prefix(recs, k, n - 1);
        if recs[n - 1].api_type == k {
            assert(0 <= n - 1 < n && recs[n - 1].api_type == k);
        }
    }
}

/// Assemble the final report from the record list accumulated across every
/// input file of one run: total, per-kind counts and deprecation count, with
/// no record re-ordered, filtered or deduplicated.
pub fn build_output(library: String, version: String, apis: Vec<APIMetadata>) -> (out:
    IntrospectionOutput)
    ensures
        out.library@ == library@,
        out.version@ == version@,
        out.language@ == "rust"@,
        out.apis.deep_view() == apis.deep_view(),
        out.total_apis == apis@.len(),
        out.by_type.function == count_kind(apis.deep_view(), ApiKind::Function),
        out.by_type.class == count_kind(apis.deep_view(), ApiKind::Class),
        out.by_type.method == count_kind(apis.deep_view(), ApiKind::Method),
        out.by_type.function + out.by_type.class + out.by_type.method == out.total_apis,
        out.deprecated_count == count_deprecated(apis.deep_view()),
{
    let ghost recs = apis.deep_view();
    let mut function_count: usize = 0;
    let mut class_count: usize = 0;
    let mut method_count: usize = 0;
    let mut deprecated_count: usize = 0;
    let mut i: usize = 0;
    while i < apis.len()
        invariant
            i <= apis@.len(),
            recs == apis.deep_view(),
            recs.len() == apis@.len(),
            function_count == count_kind_prefix(recs, ApiKind::Function, i as int),
            class_count == count_kind_prefix(recs, ApiKind::Class, i as int),
            method_count == count_kind_prefix(recs, ApiKind::Method, i as int),
            function_count + class_count + method_count == i,
            deprecated_count == count_deprecated_prefix(recs, i as int),
            deprecated_count <= i,
        decreases apis@.len() - i,
    {
        proof {
            assert(recs[i as int] == apis@[i as int]@);
        }
        match apis[i].api_type {
            ApiKind::Function => {
                function_count += 1;
            },
            ApiKind::Class => {
                class_count += 1;
            },
            ApiKind::Method => {
                method_count += 1;
            },
        }
        if apis[i].is_deprecated {
            deprecated_count += 1;
        }
        i += 1;
    }
    proof {
        lemma_kind_counts_partition(recs);
    }
    let total_apis = apis.len();
    IntrospectionOutput {
        library,
        version,
        language: "rust".to_owned(),
        total_apis,
        apis,
        by_type: KindCounts { function: function_count, class: class_count, method: method_count },
        deprecated_count,
    }
}

} // verus!
