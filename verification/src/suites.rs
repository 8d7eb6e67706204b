//! Two facts about filtered sequences.

use vstd::prelude::*;

verus! {

/// Filtering by `p` and then by `q` keeps what satisfies both.
pub proof fn lemme_filtres_successifs<A>(s: Seq<A>, p: spec_fn(A) -> bool, q: spec_fn(A) -> bool)
    ensures
        s.filter(p).filter(q) == s.filter(|x: A| p(x) && q(x)),
    decreases s.len(),
{
    let les_deux = |x: A| p(x) && q(x);
    if s.len() == 0 {
        reveal(Seq::filter);
    } else {
        let debut = s.drop_last();
        let x = s.last();
        assert(s =~= debut.push(x));
        lemme_filtres_successifs(debut, p, q);
        Seq::lemma_filter_push(debut, x, p);
        Seq::lemma_filter_push(debut, x, les_deux);
        if p(x) {
            Seq::lemma_filter_push(debut.filter(p), x, q);
        }
    }
}

/// A filter that nothing passes leaves nothing, and one that everything
/// passes leaves everything.
pub proof fn lemme_filtre_uniforme<A>(s: Seq<A>, p: spec_fn(A) -> bool)
    ensures
        (forall|i: int| 0 <= i < s.len() ==> !p(#[trigger] s[i])) ==> s.filter(p) == Seq::<
            A,
        >::empty(),
        (forall|i: int| 0 <= i < s.len() ==> p(#[trigger] s[i])) ==> s.filter(p) == s,
    decreases s.len(),
{
    reveal(Seq::filter);
    if s.len() > 0 {
        let debut = s.drop_last();
        lemme_filtre_uniforme(debut, p);
        assert(s =~= debut.push(s.last()));
    }
}

} // verus!
