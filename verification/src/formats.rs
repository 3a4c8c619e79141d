//! The report formats of the supported tools.

pub mod codeql;
pub mod html;
pub mod inferroi;
pub mod iris;
pub mod llmdfa;
pub mod markdown;
pub mod repoaudit;
pub mod sarif;
pub mod spotbugs;

use vstd::prelude::*;

verus! {

/// Mapping a prefix one element longer appends the image of that element.
pub proof fn lemma_map_take_push<A, B>(s: Seq<A>, f: spec_fn(A) -> B, i: int)
    requires
        0 <= i < s.len(),
    ensures
        s.take(i + 1).map_values(f) == s.take(i).map_values(f).push(f(s[i])),
{
    assert(s.take(i + 1).map_values(f) =~= s.take(i).map_values(f).push(f(s[i])));
}

/// Concatenating one more piece appends it.
pub proof fn lemma_concat_push<A>(pieces: Seq<Seq<A>>, piece: Seq<A>)
    ensures
        crate::text::seq_concat(pieces.push(piece)) == crate::text::seq_concat(pieces) + piece,
{
    assert(pieces.push(piece).drop_last() =~= pieces);
}

} // verus!
