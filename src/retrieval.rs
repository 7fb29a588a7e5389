use vstd::prelude::*;
use crate::error::RagError;
use crate::score::{exceeds_three_quarters, Score};

verus! {

/// The id of a point in the vector index.
#[derive(Debug, PartialEq, Eq)]
pub enum PointRef {
    Num(u64),
    Uuid(String),
}

impl PointRef {
    /// The numeric id that retrieval keys snippets by; a UUID counts as 0.
    pub open spec fn spec_number(&self) -> u64 {
        match self {
            PointRef::Num(i) => *i,
            PointRef::Uuid(_) => 0,
        }
    }

    pub fn number(&self) -> (r: u64)
        ensures
            r == self.spec_number(),
    {
        match self {
            PointRef::Num(i) => *i,
            PointRef::Uuid(_) => 0,
        }
    }
}

/// One point that a nearest-neighbour search returned: its id, the text of
/// its payload and its similarity score.
pub struct SearchHit {
    pub id: PointRef,
    pub text: String,
    pub score: Score,
}

/// Snippets keyed by point id, as plain sequences.
pub open spec fn snippets_view(v: Seq<(u64, String)>) -> Seq<(u64, Seq<char>)> {
    v.map_values(|p: (u64, String)| (p.0, p.1@))
}

/// The hits whose score exceeds the relevance threshold, as snippets, in
/// the order of the search.
pub open spec fn relevant_snippets(hits: Seq<SearchHit>) -> Seq<(u64, Seq<char>)>
    decreases hits.len(),
{
    if hits.len() == 0 {
        seq![]
    } else {
        let rest = relevant_snippets(hits.drop_last());
        let h = hits.last();
        if exceeds_three_quarters(h.score.bits) {
            rest.push((h.id.spec_number(), h.text@))
        } else {
            rest
        }
    }
}

/// The mapping from id to text that a list of snippets stands for: for an id
/// that occurs more than once, the later text wins.
pub open spec fn id_map(s: Seq<(u64, Seq<char>)>) -> Map<u64, Seq<char>>
    decreases s.len(),
{
    if s.len() == 0 {
        Map::empty()
    } else {
        id_map(s.drop_last()).insert(s.last().0, s.last().1)
    }
}

/// No id occurs twice.
pub open spec fn distinct_ids(s: Seq<(u64, Seq<char>)>) -> bool {
    forall|i: int, j: int| 0 <= i < j < s.len() ==> s[i].0 != s[j].0
}

/// The texts of the snippets, one after another, separated by newlines.
pub open spec fn joined(s: Seq<(u64, Seq<char>)>) -> Seq<char>
    decreases s.len(),
{
    if s.len() == 0 {
        seq![]
    } else if s.len() == 1 {
        s[0].1
    } else {
        joined(s.drop_last()) + seq!['\n'] + s.last().1
    }
}

/// Decides whether an embedding call gave a vector to search with: it must
/// have succeeded (`Some`) and returned at least one vector.
pub fn accept_embedding(vectors_returned: Option<usize>) -> (r: Result<(), RagError>)
    ensures
        r is Ok <==> (vectors_returned matches Some(n) && n >= 1),
        r is Err ==> r == Err::<(), RagError>(RagError::Embedding),
{
    match vectors_returned {
        Some(n) if n >= 1 => Ok(()),
        _ => Err(RagError::Embedding),
    }
}

/// Keeps the hits whose score is strictly above the relevance threshold, as
/// (id, text) snippets in the order of the search.
pub fn select_hits(hits: &Vec<SearchHit>) -> (r: Vec<(u64, String)>)
    ensures
        snippets_view(r@) == relevant_snippets(hits@),
{
    let mut out: Vec<(u64, String)> = Vec::new();
    let mut i: usize = 0;
    while i < hits.len()
        invariant
            0 <= i <= hits@.len(),
            snippets_view(out@) == relevant_snippets(hits@.take(i as int)),
        decreases hits@.len() - i,
    {
        let ghost before = out@;
        proof {
            assert(hits@.take(i + 1).drop_last() =~= hits@.take(i as int));
        }
        let h = &hits[i];
        if h.score.exceeds_threshold() {
            out.push((h.id.number(), h.text.clone()));
            proof {
                assert(snippets_view(out@) =~= snippets_view(before).push((h.id.spec_number(), h.text@)));
            }
        }
        i = i + 1;
    }
    proof {
        assert(hits@.take(hits@.len() as int) =~= hits@);
    }
    out
}

/// The snippets that one retrieval pass contributes: the relevant hits of
/// its search, or nothing when the search failed (`None`).
pub fn pass_snippets(hits: Option<&Vec<SearchHit>>) -> (r: Vec<(u64, String)>)
    ensures
        snippets_view(r@) == match hits {
            Some(h) => relevant_snippets(h@),
            None => Seq::empty(),
        },
{
    match hits {
        Some(h) => select_hits(h),
        None => {
            let out: Vec<(u64, String)> = Vec::new();
            proof {
                assert(snippets_view(out@) =~= Seq::empty());
            }
            out
        },
    }
}

/// Replacing the text of an id that occurs once changes only that id's entry.
proof fn lemma_id_map_update(s: Seq<(u64, Seq<char>)>, j: int, t: Seq<char>)
    requires
        distinct_ids(s),
        0 <= j < s.len(),
    ensures
        id_map(s.update(j, (s[j].0, t))) == id_map(s).insert(s[j].0, t),
    decreases s.len(),
{
    let u = s.update(j, (s[j].0, t));
    if j == s.len() - 1 {
        assert(u.drop_last() =~= s.drop_last());
        assert(id_map(u) =~= id_map(s).insert(s[j].0, t));
    } else {
        assert(u.drop_last() =~= s.drop_last().update(j, (s[j].0, t)));
        lemma_id_map_update(s.drop_last(), j, t);
        assert(id_map(u) =~= id_map(s).insert(s[j].0, t));
    }
}

/// Merging two retrieval passes by id: every id of either pass is kept, and
/// where both passes hold an id, the second pass's text wins, whatever the
/// scores were.
pub proof fn lemma_merge_second_wins(first: Seq<(u64, Seq<char>)>, second: Seq<(u64, Seq<char>)>)
    ensures
        id_map(first + second) == id_map(first).union_prefer_right(id_map(second)),
    decreases second.len(),
{
    if second.len() == 0 {
        assert(first + second =~= first);
        assert(id_map(first) =~= id_map(first).union_prefer_right(id_map(second)));
    } else {
        assert((first + second).drop_last() =~= first + second.drop_last());
        lemma_merge_second_wins(first, second.drop_last());
        assert(id_map(first + second) =~= id_map(first).union_prefer_right(id_map(second)));
    }
}

/// Adds `items` to `acc` in order: a new id is appended, a known id gets the
/// new text in place.
fn absorb(acc: &mut Vec<(u64, String)>, items: &Vec<(u64, String)>)
    requires
        distinct_ids(snippets_view(old(acc)@)),
    ensures
        distinct_ids(snippets_view(final(acc)@)),
        id_map(snippets_view(final(acc)@)) == id_map(snippets_view(old(acc)@) + snippets_view(items@)),
{
    let ghost start = snippets_view(acc@);
    let mut i: usize = 0;
    while i < items.len()
        invariant
            0 <= i <= items@.len(),
            distinct_ids(snippets_view(acc@)),
            id_map(snippets_view(acc@)) == id_map(start + snippets_view(items@).take(i as int)),
        decreases items@.len() - i,
    {
        let id = items[i].0;
        let ghost text = items@[i as int].1@;
        proof {
            assert((start + snippets_view(items@).take(i + 1)).drop_last() =~= start + snippets_view(items@).take(i as int));
        }
        let mut j: usize = 0;
        while j < acc.len() && acc[j].0 != id
            invariant
                0 <= j <= acc@.len(),
                forall|m: int| 0 <= m < j ==> acc@[m].0 != id,
            decreases acc@.len() - j,
        {
            j = j + 1;
        }
        let ghost before = snippets_view(acc@);
        if j < acc.len() {
            acc.set(j, (id, items[i].1.clone()));
            proof {
                assert(snippets_view(acc@) =~= before.update(j as int, (before[j as int].0, text)));
                lemma_id_map_update(before, j as int, text);
            }
        } else {
            acc.push((id, items[i].1.clone()));
            proof {
                assert(snippets_view(acc@) =~= before.push((id, text)));
                assert(snippets_view(acc@).drop_last() =~= before);
            }
        }
        i = i + 1;
    }
    proof {
        assert(snippets_view(items@).take(items@.len() as int) =~= snippets_view(items@));
    }
}

/// Merges the snippets of the question pass and of the answer pass by id:
/// each id once, and the answer pass's text where both passes hold an id.
pub fn merge_passes(first: &Vec<(u64, String)>, second: &Vec<(u64, String)>) -> (r: Vec<(u64, String)>)
    ensures
        distinct_ids(snippets_view(r@)),
        id_map(snippets_view(r@)) == id_map(snippets_view(first@)).union_prefer_right(id_map(snippets_view(second@))),
{
    let mut acc: Vec<(u64, String)> = Vec::new();
    proof {
        assert(snippets_view(acc@) =~= Seq::<(u64, Seq<char>)>::empty());
    }
    absorb(&mut acc, first);
    proof {
        assert(Seq::<(u64, Seq<char>)>::empty() + snippets_view(first@) =~= snippets_view(first@));
    }
    let ghost middle = snippets_view(acc@);
    absorb(&mut acc, second);
    proof {
        lemma_merge_second_wins(middle, snippets_view(second@));
    }
    acc
}

/// Joins the texts of the snippets with newlines, in their order.
pub fn join_snippets(snippets: &Vec<(u64, String)>) -> (r: String)
    ensures
        r@ == joined(snippets_view(snippets@)),
{
    let mut out = String::new();
    let mut i: usize = 0;
    while i < snippets.len()
        invariant
            0 <= i <= snippets@.len(),
            out@ == joined(snippets_view(snippets@).take(i as int)),
        decreases snippets@.len() - i,
    {
        proof {
            reveal_strlit("\n");
            assert(snippets_view(snippets@).take(i + 1).drop_last() =~= snippets_view(snippets@).take(i as int));
        }
        if i > 0 {
            out.append("\n");
        }
        out.append(snippets[i].1.as_str());
        proof {
            if i == 0 {
                assert(out@ =~= joined(snippets_view(snippets@).take(1)));
            } else {
                assert(out@ =~= joined(snippets_view(snippets@).take(i + 1)));
            }
        }
        i = i + 1;
    }
    proof {
        assert(snippets_view(snippets@).take(snippets@.len() as int) =~= snippets_view(snippets@));
    }
    out
}

/// The context text of a two-pass retrieval: the merged snippets of both
/// passes, each id once with the later pass's text, joined by newlines in
/// an order that callers must not rely on.
pub fn rag_context(first: &Vec<(u64, String)>, second: &Vec<(u64, String)>) -> (r: String)
    ensures
        exists|m: Seq<(u64, Seq<char>)>|
            distinct_ids(m) && id_map(m) == id_map(snippets_view(first@)).union_prefer_right(id_map(snippets_view(second@)))
                && r@ == joined(m),
{
    let merged = merge_passes(first, second);
    let r = join_snippets(&merged);
    proof {
        let m = snippets_view(merged@);
        assert(distinct_ids(m) && id_map(m) == id_map(snippets_view(first@)).union_prefer_right(id_map(snippets_view(second@))) && r@ == joined(m));
    }
    r
}

} // verus!
