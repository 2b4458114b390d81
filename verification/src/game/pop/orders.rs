use std::collections::HashMap;
use vstd::prelude::*;

verus! {

broadcast use vstd::std_specs::hash::group_hash_axioms;

/// The score of the first target in the desire walk; each later target scores
/// one less.
pub const TOP_IMPORTANCE: i32 = 536870911;

/// `i` is the first position of `good` in the walk.
pub open spec fn is_first_in_walk(walk: Seq<usize>, good: usize, i: int) -> bool {
    &&& 0 <= i < walk.len()
    &&& walk[i] == good
    &&& forall|j: int| 0 <= j < i ==> #[trigger] walk[j] != good
}

/// The importance table of a desire walk: each good that the walk targets,
/// scored by its first place in the walk (earlier is higher).
pub open spec fn importance_table(walk: Seq<usize>, m: Map<usize, i32>) -> bool {
    &&& forall|g: usize| #[trigger] m.contains_key(g) <==> walk.contains(g)
    &&& forall|g: usize, i: int| #[trigger] is_first_in_walk(walk, g, i) ==> m[g] == TOP_IMPORTANCE - i
}

/// # Desire Importance
///
/// Given the goods a pop's desires target, in the order the desires are walked
/// (tier by tier, desire by desire, target by target), scores each good: higher
/// is more important (earlier in the desire walk). A good's score comes from
/// its first place in the walk. Goods the walk does not target are left out
/// (they count as 0).
pub fn desire_importance(walk: &Vec<usize>) -> (m: HashMap<usize, i32>)
    requires
        walk@.len() <= 2684354559,
    ensures
        importance_table(walk@, m@),
{
    let mut m: HashMap<usize, i32> = HashMap::new();
    let mut score: i32 = TOP_IMPORTANCE;
    let mut i: usize = 0;
    while i < walk.len()
        invariant
            0 <= i <= walk@.len(),
            walk@.len() <= 2684354559,
            score == TOP_IMPORTANCE - i,
            importance_table(walk@.take(i as int), m@),
        decreases walk@.len() - i,
    {
        let ghost pre = walk@.take(i as int);
        let ghost post = walk@.take(i + 1);
        assert(post == pre.push(walk@[i as int]));
        let g = walk[i];
        if !m.contains_key(&g) {
            m.insert(g, score);
        }
        assert forall|g2: usize| #[trigger] m@.contains_key(g2) <==> post.contains(g2) by {
            if post.contains(g2) && g2 != g {
                let k = choose|k: int| 0 <= k < post.len() && post[k] == g2;
                assert(pre[k] == g2);
            }
            if g2 == g {
                assert(post[i as int] == g2);
            }
            if m@.contains_key(g2) && g2 != g {
                let k = choose|k: int| 0 <= k < pre.len() && pre[k] == g2;
                assert(post[k] == g2);
            }
        }
        assert forall|g2: usize, k: int| #[trigger] is_first_in_walk(post, g2, k) implies m@[g2] == TOP_IMPORTANCE - k by {
            if k < i {
                assert forall|j: int| 0 <= j < k implies #[trigger] pre[j] != g2 by {
                    assert(post[j] == pre[j]);
                }
                assert(is_first_in_walk(pre, g2, k));
                assert(pre.contains(g2));
            } else {
                assert(k == i);
                assert forall|j: int| 0 <= j < pre.len() implies #[trigger] pre[j] != g2 by {
                    assert(post[j] == pre[j]);
                }
                assert(!pre.contains(g2));
            }
        }
        score = score - 1;
        i = i + 1;
    }
    assert(walk@.take(walk@.len() as int) == walk@);
    m
}

/// The earlier a good first shows in the desire walk, the higher it scores.
pub proof fn earlier_in_walk_scores_higher(walk: Seq<usize>, m: Map<usize, i32>, a: usize, i: int, b: usize, j: int)
    requires
        importance_table(walk, m),
        is_first_in_walk(walk, a, i),
        is_first_in_walk(walk, b, j),
        i < j,
    ensures
        m[a] > m[b],
{
}

} // verus!
