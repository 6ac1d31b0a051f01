//! Diagnostics only grow: what a step keeps of the diagnostics before it.

use vstd::prelude::*;

use crate::analysis::{Analyzer, DiagView, diag_view, diags_view};

verus! {

/// Diagnostics that are the old ones followed by `s` grow the old ones by `s`.
pub proof fn lemma_reports_grow(a: Analyzer, b: Analyzer, s: Seq<DiagView>)
    requires
        diags_view(b.diagnostics@) == diags_view(a.diagnostics@) + s,
    ensures
        Analyzer::diags_grow(a, b),
        Analyzer::added(a, b) == s,
{
    let va = diags_view(a.diagnostics@);
    let vb = diags_view(b.diagnostics@);
    assert(vb.len() == b.diagnostics@.len());
    assert(va.len() == a.diagnostics@.len());
    assert forall|j: int| 0 <= j < a.diagnostics@.len() implies #[trigger] diag_view(b.diagnostics@[j])
        == diag_view(a.diagnostics@[j]) by {
        assert(vb[j] == diag_view(b.diagnostics@[j]));
        assert(va[j] == diag_view(a.diagnostics@[j]));
        assert(vb[j] == (va + s)[j]);
    }
    assert(Analyzer::added(a, b) =~= s);
}

/// Diagnostics that are the old ones followed by more have grown.
pub broadcast proof fn lemma_reports_grow_auto(a: Analyzer, b: Analyzer, s: Seq<DiagView>)
    requires
        #[trigger] diags_view(b.diagnostics@) == #[trigger] (diags_view(a.diagnostics@) + s),
    ensures
        Analyzer::diags_grow(a, b),
{
    lemma_reports_grow(a, b, s);
}

/// Growing is transitive.
pub proof fn lemma_grow_trans(a: Analyzer, b: Analyzer, c: Analyzer)
    requires
        Analyzer::diags_grow(a, b),
        Analyzer::diags_grow(b, c),
    ensures
        Analyzer::diags_grow(a, c),
{
}

} // verus!
