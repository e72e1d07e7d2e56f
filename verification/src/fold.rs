//! Joining converted fragments into one document.

use vstd::prelude::*;
use vstd::string::*;

verus! {

/// What stands between two neighbouring fragments of a folded document.
pub const SEPARATOR: &'static str = "\n\nNEW ARTICLE: ";

/// The fragments in their order, with the separator between each two
/// neighbours and nowhere else. No fragments give the empty text.
pub open spec fn folded(fragments: Seq<Seq<char>>) -> Seq<char>
    decreases fragments.len(),
{
    if fragments.len() == 0 {
        Seq::empty()
    } else if fragments.len() == 1 {
        fragments[0]
    } else {
        folded(fragments.drop_last()) + SEPARATOR@ + fragments.last()
    }
}

/// Folds `articles` into one document.
pub fn fold_articles(articles: &Vec<String>) -> (out: String)
    ensures
        out@ == folded(articles.deep_view()),
{
    let ghost texts = articles.deep_view();
    let mut out = String::new();
    let mut i: usize = 0;
    while i < articles.len()
        invariant
            i <= articles.len(),
            texts == articles.deep_view(),
            out@ == folded(texts.take(i as int)),
        decreases articles.len() - i,
    {
        proof {
            assert(texts.take(i + 1).drop_last() =~= texts.take(i as int));
            assert(texts.take(i + 1).last() == articles[i as int]@);
        }
        if i > 0 {
            out.append(SEPARATOR);
        }
        out.append(articles[i].as_str());
        proof {
            if i == 0 {
                assert(out@ =~= texts.take(1)[0]);
            }
        }
        i += 1;
    }
    proof {
        assert(texts.take(i as int) =~= texts);
    }
    out
}

/// Folding is joining: a document of two parts, neither of them empty, is
/// the first part folded, the separator, and the second part folded.
pub proof fn lemma_folded_concat(head: Seq<Seq<char>>, tail: Seq<Seq<char>>)
    requires
        head.len() > 0,
        tail.len() > 0,
    ensures
        folded(head + tail) == folded(head) + SEPARATOR@ + folded(tail),
    decreases tail.len(),
{
    let all = head + tail;
    assert(all.drop_last() =~= head + tail.drop_last());
    assert(all.last() == tail.last());
    if tail.len() == 1 {
        assert(head + tail.drop_last() =~= head);
    } else {
        lemma_folded_concat(head, tail.drop_last());
        assert(folded(all) =~= folded(head) + SEPARATOR@ + folded(tail));
    }
}

} // verus!
