//! The emoji picker: the table of emojis and the search over their names.

use vstd::prelude::*;

verus! {

/// An emoji item for display in the emoji picker grid.
#[derive(Clone, Debug)]
pub struct EmojiItem {
    /// The emoji character(s).
    pub emoji: String,
    /// The display name of the emoji.
    pub name: String,
}

impl EmojiItem {
    /// Create a new emoji item.
    pub fn new(emoji: String, name: String) -> (r: EmojiItem)
        ensures
            r.emoji == emoji,
            r.name == name,
    {
        EmojiItem { emoji, name }
    }
}

/// The score that the skim matcher gives to `choice` for `pattern`, or
/// `None` where the pattern does not match.
pub uninterp spec fn skim_score(choice: Seq<char>, pattern: Seq<char>) -> Option<i64>;

/// Trusted: `SkimMatcherV2::fuzzy_match` with the default settings scores a
/// choice against a pattern, and the score depends on the two texts alone.
#[verifier::external_body]
fn fuzzy_score(choice: &str, pattern: &str) -> (r: Option<i64>)
    ensures
        r == skim_score(choice@, pattern@),
{
    fuzzy_matcher::FuzzyMatcher::fuzzy_match(
        &fuzzy_matcher::skim::SkimMatcherV2::default(),
        choice,
        pattern,
    )
}

/// The entry at position `i` of the emoji table, in the order in which
/// `emojis::iter` walks it: the text of the emoji and its name, or `None`
/// where the table has no such position.
pub uninterp spec fn emoji_entry(i: int) -> Option<(Seq<char>, Seq<char>)>;

/// Get all emojis: the entries of the emoji table, in the table's order,
/// each with its text and its name; they are the same at every call.
/// The names of the result are [`emoji_names`].
pub fn all_emojis() -> (r: Vec<EmojiItem>)
    ensures
        is_emoji_table(r@), names_of(r@) == emoji_names(),
{
    let r = load_all_emojis();
    proof { lemma_table_names(r@); }
    r
}

/// The scores of the names of `names` for `query`.
pub open spec fn scores(names: Seq<Seq<char>>, query: Seq<char>) -> Seq<Option<i64>> {
    Seq::new(names.len(), |i: int| skim_score(names[i], query))
}

/// The names of a list of items, in order.
pub open spec fn names_of(items: Seq<EmojiItem>) -> Seq<Seq<char>> {
    Seq::new(items.len(), |i: int| items[i].name@)
}

/// Whether position `a` comes before position `b` in a ranking: by the higher
/// score, and among equal scores by the lower position.
pub open spec fn ranks_before(scores: Seq<Option<i64>>, a: int, b: int) -> bool {
    scores[a]->0 > scores[b]->0 || (scores[a]->0 == scores[b]->0 && a < b)
}

/// Whether `order` is the ranking of `scores`: it holds each position with a
/// score once, the best score first, equal scores in the order of their positions.
pub open spec fn is_ranking(scores: Seq<Option<i64>>, order: Seq<usize>) -> bool {
    &&& forall|k: int| 0 <= k < order.len() ==> (#[trigger] order[k]) < scores.len() && scores[order[k] as int] is Some
    &&& forall|i: int|
        0 <= i < scores.len() && (#[trigger] scores[i]) is Some ==> exists|k: int|
            0 <= k < order.len() && #[trigger] order[k] == i
    &&& forall|k: int, l: int|
        0 <= k < l < order.len() ==> ranks_before(scores, #[trigger] order[k] as int, #[trigger] order[l] as int)
}

/// Two rankings of the same scores agree on every position that both have.
proof fn lemma_rankings_agree(scores: Seq<Option<i64>>, a: Seq<usize>, b: Seq<usize>, n: int)
    requires
        is_ranking(scores, a),
        is_ranking(scores, b),
        0 <= n <= a.len(),
        n <= b.len(),
    ensures
        forall|j: int| 0 <= j < n ==> a[j] == b[j],
    decreases n,
{
    if n > 0 {
        lemma_rankings_agree(scores, a, b, n - 1);
        let k = n - 1;
        let x = a[k];
        let y = b[k];
        if x != y {
            assert(scores[x as int] is Some);
            assert(scores[y as int] is Some);
            let l = choose|l: int| 0 <= l < b.len() && #[trigger] b[l] == x as int;
            let m = choose|m: int| 0 <= m < a.len() && #[trigger] a[m] == y as int;
            if l < k {
                assert(a[l] == b[l]);
                assert(ranks_before(scores, a[l] as int, a[k] as int));
            } else if m < k {
                assert(a[m] == b[m]);
                assert(ranks_before(scores, b[m] as int, b[k] as int));
            } else {
                assert(ranks_before(scores, b[k] as int, b[l] as int));
                assert(ranks_before(scores, a[k] as int, a[m] as int));
            }
        }
    }
}

/// The scores decide the ranking: two rankings of the same scores are equal.
pub proof fn lemma_ranking_is_unique(scores: Seq<Option<i64>>, a: Seq<usize>, b: Seq<usize>)
    requires
        is_ranking(scores, a),
        is_ranking(scores, b),
    ensures
        a == b,
{
    let n = if a.len() <= b.len() { a.len() as int } else { b.len() as int };
    lemma_rankings_agree(scores, a, b, n);
    if a.len() < b.len() {
        let y = b[n];
        assert(scores[y as int] is Some);
        let m = choose|m: int| 0 <= m < a.len() && #[trigger] a[m] == y as int;
        assert(a[m] == b[m]);
        assert(ranks_before(scores, b[m] as int, b[n] as int));
    } else if b.len() < a.len() {
        let x = a[n];
        assert(scores[x as int] is Some);
        let l = choose|l: int| 0 <= l < b.len() && #[trigger] b[l] == x as int;
        assert(a[l] == b[l]);
        assert(ranks_before(scores, a[l] as int, a[n] as int));
    }
    assert(a =~= b);
}

/// Ranks the positions of `scores` that hold a score.
#[verifier::rlimit(60)]
pub fn rank(scores: &Vec<Option<i64>>) -> (order: Vec<usize>)
    ensures
        is_ranking(scores@, order@),
{
    let mut order: Vec<usize> = Vec::new();
    let mut i: usize = 0;
    while i < scores.len()
        invariant
            i <= scores.len(),
            is_ranking(scores@.take(i as int), order@),
        decreases scores.len() - i,
    {
        let ghost before = scores@.take(i as int);
        let ghost after = scores@.take(i + 1);
        let ghost old_order = order@;
        proof {
            assert(forall|j: int| 0 <= j < i ==> before[j] == after[j]);
        }
        match scores[i] {
            Some(s) => {
                let mut p: usize = 0;
                while p < order.len() && has_at_least(scores, order[p], s)
                    invariant
                        p <= order.len(),
                        i < scores.len(),
                        scores@[i as int] == Some(s),
                        order@ == old_order,
                        is_ranking(before, order@),
                        before == scores@.take(i as int),
                        forall|k: int| 0 <= k < p ==> scores@[(#[trigger] order@[k]) as int]->0 >= s,
                    decreases order.len() - p,
                {
                    p += 1;
                }
                order.insert(p, i);
                proof {
                    let new_order = order@;
                    assert forall|k: int| 0 <= k < new_order.len() implies (
                    #[trigger] new_order[k]) < after.len() && after[new_order[k] as int] is Some by {
                        if k < p {
                            assert(new_order[k] == old_order[k]);
                        } else if k > p {
                            assert(new_order[k] == old_order[k - 1]);
                        }
                    }
                    assert forall|j: int| 0 <= j < after.len() && (#[trigger] after[j]) is Some implies exists|
                        k: int,
                    |
                        0 <= k < new_order.len() && #[trigger] new_order[k] == j by {
                        if j < i {
                            assert(before[j] is Some);
                            let k0 = choose|k: int| 0 <= k < old_order.len() && #[trigger] old_order[k] == j;
                            if k0 < p {
                                assert(new_order[k0] == j);
                            } else {
                                assert(new_order[k0 + 1] == j);
                            }
                        } else {
                            assert(new_order[p as int] == j);
                        }
                    }
                    assert forall|k: int, l: int| 0 <= k < l < new_order.len() implies ranks_before(
                        after,
                        #[trigger] new_order[k] as int,
                        #[trigger] new_order[l] as int,
                    ) by {
                        let a = if k < p { k } else { k - 1 };
                        let b = if l < p { l } else { l - 1 };
                        if k != p && l != p {
                            assert(new_order[k] == old_order[a]);
                            assert(new_order[l] == old_order[b]);
                            assert(ranks_before(before, old_order[a] as int, old_order[b] as int));
                        } else if k == p {
                            assert(new_order[l] == old_order[b]);
                            assert(ranks_before(before, old_order[p as int] as int, old_order[b] as int) || b == p);
                            assert(before[old_order[p as int] as int]->0 < s);
                        } else {
                            assert(new_order[k] == old_order[a]);
                            assert(old_order[a] < i);
                        }
                    }
                }
            },
            None => {
                proof {
                    assert forall|j: int| 0 <= j < after.len() && (#[trigger] after[j]) is Some implies exists|
                        k: int,
                    |
                        0 <= k < old_order.len() && #[trigger] old_order[k] == j by {
                        assert(before[j] is Some);
                    }
                }
            },
        }
        i += 1;
    }
    proof {
        assert(scores@.take(scores.len() as int) =~= scores@);
    }
    order
}

fn has_at_least(scores: &Vec<Option<i64>>, at: usize, s: i64) -> (r: bool)
    requires
        at < scores.len(),
    ensures
        r == (scores@[at as int] is Some && scores@[at as int]->0 >= s),
{
    match scores[at] {
        Some(v) => v >= s,
        None => false,
    }
}

/// Whether `order` is what a search for `query` among `names` gives: every
/// position in order for the empty query, else the ranking of the names that
/// the query matches.
pub open spec fn is_search_result(names: Seq<Seq<char>>, query: Seq<char>, order: Seq<usize>) -> bool {
    if query.len() == 0 {
        order == Seq::new(names.len(), |i: int| i as usize)
    } else {
        is_ranking(scores(names, query), order)
    }
}

/// Search `items` by name using fuzzy matching.
/// Returns indices into `items`, sorted by match score, best first; items
/// with the same score keep their order.
pub fn search_in(items: &Vec<EmojiItem>, query: &str) -> (order: Vec<usize>)
    ensures
        is_search_result(names_of(items@), query@, order@),
{
    let everything = query.unicode_len() == 0;
    let mut found: Vec<Option<i64>> = Vec::new();
    let mut all: Vec<usize> = Vec::new();
    let mut i: usize = 0;
    while i < items.len()
        invariant
            i <= items.len(),
            found@ == scores(names_of(items@), query@).take(i as int),
            all@ == Seq::new(i as nat, |k: int| k as usize),
        decreases items.len() - i,
    {
        found.push(fuzzy_score(items[i].name.as_str(), query));
        all.push(i);
        i += 1;
        proof {
            assert(found@ =~= scores(names_of(items@), query@).take(i as int));
            assert(all@ =~= Seq::new(i as nat, |k: int| k as usize));
        }
    }
    proof {
        assert(found@ =~= scores(names_of(items@), query@));
        assert(all@ =~= Seq::new(names_of(items@).len(), |k: int| k as usize));
    }
    if everything { all } else { rank(&found) }
}

/// Search the emoji table by name using fuzzy matching: the positions in
/// the table, ranked as [`search_in`] ranks the table's names.
pub fn search_emojis(query: &str) -> (order: Vec<usize>)
    ensures
        is_search_result(emoji_names(), query@, order@),
{
    let items = all_emojis();
    search_in(&items, query)
}

/// Whether `items` is the emoji table: at each position the entry of the
/// table, and no position more.
pub open spec fn is_emoji_table(items: Seq<EmojiItem>) -> bool {
    forall|i: int| #[trigger]
        emoji_entry(i) == if 0 <= i < items.len() {
            Some((items[i].emoji@, items[i].name@))
        } else {
            None
        }
}

/// Whether the emoji table has exactly the positions below `n`.
pub open spec fn is_emoji_count(n: nat) -> bool {
    forall|i: int| (#[trigger] emoji_entry(i)) is Some <==> 0 <= i < n
}

/// The number of entries of the emoji table.
pub open spec fn emoji_count() -> nat {
    choose|n: nat| is_emoji_count(n)
}

/// The names of the entries of the emoji table, in the table's order.
pub open spec fn emoji_names() -> Seq<Seq<char>> {
    Seq::new(
        emoji_count(),
        |i: int|
            {
                let entry = emoji_entry(i)->0;
                entry.1
            },
    )
}

/// A list that is the emoji table has the table's length and names.
pub proof fn lemma_table_names(items: Seq<EmojiItem>)
    requires
        is_emoji_table(items),
    ensures
        emoji_count() == items.len(),
        names_of(items) == emoji_names(),
{
    let len = items.len();
    assert(is_emoji_count(len));
    let n = emoji_count();
    assert(is_emoji_count(n));
    if n < len {
        assert(emoji_entry(n as int) is Some);
    } else if len < n {
        assert(emoji_entry(len as int) is Some);
    }
    assert(names_of(items) =~= emoji_names());
}

/// Trusted: `emojis::iter` walks the emoji table, which is the same at every
/// call; each entry becomes an item with what `Emoji::as_str` and
/// `Emoji::name` give for it, and the list holds the entries in the table's
/// order and nothing else.
#[verifier::external_body]
fn load_all_emojis() -> (r: Vec<EmojiItem>)
    ensures
        forall|i: int| #[trigger]
            emoji_entry(i) == if 0 <= i < r@.len() {
                Some((r@[i].emoji@, r@[i].name@))
            } else {
                None
            },
{
    emojis::iter().map(|e| EmojiItem::new(e.as_str().to_string(), e.name().to_string())).collect()
}

} // verus!
