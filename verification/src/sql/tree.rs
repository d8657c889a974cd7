//! Trees of predicates under AND and OR, how they grow, and their SQL text.

use super::filter::SQLFilterTrait;
use super::text::join;
use super::text::join_strings;
use super::text::lemma_join_push;
use vstd::prelude::*;

verus! {

/// A tree of predicates: the shape of the tree is the grouping of the
/// conditions.
#[derive(Debug)]
pub enum FilterStmt<T> where T: SQLFilterTrait {
    And(Vec<FilterStmt<T>>),
    Or(Vec<FilterStmt<T>>),
    Filter(T),
}

/// What a `FilterStmt` stands for.
pub enum FilterTree<T> {
    And(Seq<FilterTree<T>>),
    Or(Seq<FilterTree<T>>),
    Filter(T),
}

impl<T: SQLFilterTrait> View for FilterStmt<T> {
    type V = FilterTree<T>;

    open spec fn view(&self) -> FilterTree<T>
        decreases self,
    {
        match self {
            FilterStmt::And(children) => FilterTree::And(tree_views(children@)),
            FilterStmt::Or(children) => FilterTree::Or(tree_views(children@)),
            FilterStmt::Filter(leaf) => FilterTree::Filter(*leaf),
        }
    }
}

/// What each of the trees stands for, in order.
pub open spec fn tree_views<T: SQLFilterTrait>(nodes: Seq<FilterStmt<T>>) -> Seq<FilterTree<T>>
    decreases nodes,
{
    Seq::new(
        nodes.len(),
        |i: int|
            if 0 <= i < nodes.len() {
                nodes[i]@
            } else {
                FilterTree::And(Seq::empty())
            },
    )
}

/// Each predicate as a leaf, in order.
pub open spec fn leaves<T>(filters: Seq<T>) -> Seq<FilterTree<T>> {
    Seq::new(filters.len(), |i: int| FilterTree::Filter(filters[i]))
}

/// The SQL text of each tree, in order.
pub open spec fn tree_texts<T: SQLFilterTrait>(nodes: Seq<FilterTree<T>>) -> Seq<Seq<char>>
    decreases nodes,
{
    Seq::new(
        nodes.len(),
        |i: int|
            if 0 <= i < nodes.len() {
                nodes[i].sql()
            } else {
                Seq::empty()
            },
    )
}

impl<T: SQLFilterTrait> FilterTree<T> {
    /// The tree as SQL text: a group stands in round brackets, a leaf stands bare.
    pub open spec fn sql(self) -> Seq<char>
        decreases self,
    {
        match self {
            FilterTree::And(children) => "("@ + join(tree_texts(children), " AND "@) + ")"@,
            FilterTree::Or(children) => "("@ + join(tree_texts(children), " OR "@) + ")"@,
            FilterTree::Filter(leaf) => leaf.filter().sql(),
        }
    }

    /// The tree with one more condition that must hold too: an AND group
    /// takes it as a further child, any other tree becomes the first child of
    /// a new AND group.
    pub open spec fn and(self, filter: T) -> Self {
        match self {
            FilterTree::And(children) => FilterTree::And(children.push(FilterTree::Filter(filter))),
            _ => FilterTree::And(seq![self, FilterTree::Filter(filter)]),
        }
    }

    /// The tree with one more condition that may hold instead: an OR group
    /// takes it as a further child, any other tree becomes the first child of
    /// a new OR group.
    pub open spec fn or(self, filter: T) -> Self {
        match self {
            FilterTree::Or(children) => FilterTree::Or(children.push(FilterTree::Filter(filter))),
            _ => FilterTree::Or(seq![self, FilterTree::Filter(filter)]),
        }
    }

    /// As `and`, with a whole batch of conditions at once.
    pub open spec fn and_all(self, filters: Seq<T>) -> Self {
        match self {
            FilterTree::And(children) => FilterTree::And(children + leaves(filters)),
            _ => FilterTree::And(seq![self] + leaves(filters)),
        }
    }

    /// As `or`, with a whole batch of conditions at once.
    pub open spec fn or_any(self, filters: Seq<T>) -> Self {
        match self {
            FilterTree::Or(children) => FilterTree::Or(children + leaves(filters)),
            _ => FilterTree::Or(seq![self] + leaves(filters)),
        }
    }
}

/// Appends each predicate to `children` as a leaf.
pub fn push_leaves<T: SQLFilterTrait>(children: &mut Vec<FilterStmt<T>>, filters: Vec<T>)
    ensures
        tree_views(final(children)@) == tree_views(old(children)@) + leaves(filters@),
{
    let ghost before = children@;
    for item in it: filters
        invariant
            it.seq() == filters@,
            tree_views(children@) == tree_views(before) + leaves(filters@.take(it.index() as int)),
    {
        let ghost grown = children@;
        children.push(FilterStmt::Filter(item));
        assert(tree_views(children@) =~= tree_views(grown).push(FilterTree::Filter(item)));
        assert(leaves(filters@.take(it.index() + 1)) =~= leaves(
            filters@.take(it.index() as int),
        ).push(FilterTree::Filter(item)));
        assert(tree_views(children@) =~= tree_views(before) + leaves(
            filters@.take(it.index() + 1),
        ));
    }
    assert(filters@.take(filters@.len() as int) =~= filters@);
}

impl<T: SQLFilterTrait> FilterStmt<T> {
    /// Adds a condition that must hold too.
    pub fn and(self, filter: T) -> (out: Self)
        ensures
            out@ == self@.and(filter),
    {
        match self {
            FilterStmt::And(mut f) => {
                let ghost before = f@;
                f.push(FilterStmt::Filter(filter));
                assert(tree_views(f@) =~= tree_views(before).push(FilterTree::Filter(filter)));
                FilterStmt::And(f)
            },
            FilterStmt::Or(f) => {
                let ghost whole = FilterStmt::Or(f)@;
                let children = vec![FilterStmt::Or(f), FilterStmt::Filter(filter)];
                assert(tree_views(children@) =~= seq![whole, FilterTree::Filter(filter)]);
                FilterStmt::And(children)
            },
            FilterStmt::Filter(f) => {
                let ghost whole = FilterStmt::Filter(f)@;
                let children = vec![FilterStmt::Filter(f), FilterStmt::Filter(filter)];
                assert(tree_views(children@) =~= seq![whole, FilterTree::Filter(filter)]);
                FilterStmt::And(children)
            },
        }
    }

    /// Adds a batch of conditions that must all hold too.
    pub fn and_all(self, filter: Vec<T>) -> (out: Self)
        ensures
            out@ == self@.and_all(filter@),
    {
        match self {
            FilterStmt::And(mut f) => {
                push_leaves(&mut f, filter);
                FilterStmt::And(f)
            },
            FilterStmt::Or(f) => {
                let ghost whole = FilterStmt::Or(f)@;
                let mut res = vec![FilterStmt::Or(f)];
                assert(tree_views(res@) =~= seq![whole]);
                push_leaves(&mut res, filter);
                FilterStmt::And(res)
            },
            FilterStmt::Filter(f) => {
                let ghost whole = FilterStmt::Filter(f)@;
                let mut res = vec![FilterStmt::Filter(f)];
                assert(tree_views(res@) =~= seq![whole]);
                push_leaves(&mut res, filter);
                FilterStmt::And(res)
            },
        }
    }

    /// Adds a condition that may hold instead.
    pub fn or(self, filter: T) -> (out: Self)
        ensures
            out@ == self@.or(filter),
    {
        match self {
            FilterStmt::Or(mut f) => {
                let ghost before = f@;
                f.push(FilterStmt::Filter(filter));
                assert(tree_views(f@) =~= tree_views(before).push(FilterTree::Filter(filter)));
                FilterStmt::Or(f)
            },
            FilterStmt::And(f) => {
                let ghost whole = FilterStmt::And(f)@;
                let children = vec![FilterStmt::And(f), FilterStmt::Filter(filter)];
                assert(tree_views(children@) =~= seq![whole, FilterTree::Filter(filter)]);
                FilterStmt::Or(children)
            },
            FilterStmt::Filter(f) => {
                let ghost whole = FilterStmt::Filter(f)@;
                let children = vec![FilterStmt::Filter(f), FilterStmt::Filter(filter)];
                assert(tree_views(children@) =~= seq![whole, FilterTree::Filter(filter)]);
                FilterStmt::Or(children)
            },
        }
    }

    /// Adds a batch of conditions of which any may hold instead.
    pub fn or_any(self, filter: Vec<T>) -> (out: Self)
        ensures
            out@ == self@.or_any(filter@),
    {
        match self {
            FilterStmt::Or(mut f) => {
                push_leaves(&mut f, filter);
                FilterStmt::Or(f)
            },
            FilterStmt::And(f) => {
                let ghost whole = FilterStmt::And(f)@;
                let mut res = vec![FilterStmt::And(f)];
                assert(tree_views(res@) =~= seq![whole]);
                push_leaves(&mut res, filter);
                FilterStmt::Or(res)
            },
            FilterStmt::Filter(f) => {
                let ghost whole = FilterStmt::Filter(f)@;
                let mut res = vec![FilterStmt::Filter(f)];
                assert(tree_views(res@) =~= seq![whole]);
                push_leaves(&mut res, filter);
                FilterStmt::Or(res)
            },
        }
    }

    /// Renders each tree of a list and joins the texts with `sep`.
    fn render_children(children: &Vec<FilterStmt<T>>, sep: &str) -> (out: String)
        ensures
            out@ == join(tree_texts(tree_views(children@)), sep@),
        decreases children,
    {
        let mut parts: Vec<String> = Vec::new();
        let mut i: usize = 0;
        while i < children.len()
            invariant
                i <= children.len(),
                parts.len() == i,
                forall|k: int| 0 <= k < i ==> parts[k]@ == (#[trigger] children[k])@.sql(),
            decreases children.len() - i,
        {
            parts.push(children[i].to_string());
            i = i + 1;
        }
        assert(parts.deep_view() =~= tree_texts(tree_views(children@)));
        join_strings(&parts, sep)
    }

    /// Renders the tree as SQL text.
    pub fn to_string(&self) -> (out: String)
        ensures
            out@ == self@.sql(),
        decreases self,
    {
        match self {
            FilterStmt::And(children) => {
                let inner = Self::render_children(children, " AND ");
                let mut out = String::from_str("(");
                out.append(inner.as_str());
                out.append(")");
                out
            },
            FilterStmt::Or(children) => {
                let inner = Self::render_children(children, " OR ");
                let mut out = String::from_str("(");
                out.append(inner.as_str());
                out.append(")");
                out
            },
            FilterStmt::Filter(leaf) => leaf.get_filter().to_string(),
        }
    }
}

/// The texts of a list with one more tree are the texts of the list and the
/// text of the tree.
pub proof fn lemma_tree_texts_push<T: SQLFilterTrait>(
    nodes: Seq<FilterTree<T>>,
    node: FilterTree<T>,
)
    ensures
        tree_texts(nodes.push(node)) == tree_texts(nodes).push(node.sql()),
{
    assert(tree_texts(nodes.push(node)) =~= tree_texts(nodes).push(node.sql()));
}

/// The joined texts of two trees are the two texts with the separator between them.
pub proof fn lemma_join_pair<T: SQLFilterTrait>(
    first: FilterTree<T>,
    second: FilterTree<T>,
    sep: Seq<char>,
)
    ensures
        join(tree_texts(seq![first, second]), sep) == first.sql() + sep + second.sql(),
{
    let none = Seq::<FilterTree<T>>::empty();
    assert(seq![first, second] =~= none.push(first).push(second));
    lemma_tree_texts_push(none, first);
    lemma_tree_texts_push(none.push(first), second);
    assert(tree_texts(none) =~= Seq::<Seq<char>>::empty());
    lemma_join_push(tree_texts(none), sep, first.sql());
    lemma_join_push(tree_texts(none.push(first)), sep, second.sql());
}

/// `and` extends the text of a tree by ` AND ` and the text of the condition.
/// In an AND group the addition stands inside the group's brackets, and the
/// first child of an empty group stands there alone. Any other tree keeps its
/// whole text, and the new brackets enclose it and the addition.
pub proof fn lemma_and_extends_text<T: SQLFilterTrait>(tree: FilterTree<T>, filter: T)
    ensures
        match tree {
            FilterTree::And(children) => {
                let inner = join(tree_texts(children), " AND "@);
                &&& tree.sql() == "("@ + inner + ")"@
                &&& tree.and(filter).sql() == if children.len() == 0 {
                    "("@ + filter.filter().sql() + ")"@
                } else {
                    "("@ + (inner + " AND "@ + filter.filter().sql()) + ")"@
                }
            },
            _ => tree.and(filter).sql() == "("@ + (tree.sql() + " AND "@ + filter.filter().sql())
                + ")"@,
        },
{
    let leaf = FilterTree::Filter(filter);
    match tree {
        FilterTree::And(children) => {
            lemma_tree_texts_push(children, leaf);
            lemma_join_push(tree_texts(children), " AND "@, leaf.sql());
        },
        _ => {
            lemma_join_pair(tree, leaf, " AND "@);
        },
    }
}

/// `or` extends the text of a tree by ` OR ` and the text of the condition.
/// In an OR group the addition stands inside the group's brackets, and the
/// first child of an empty group stands there alone. Any other tree keeps its
/// whole text, and the new brackets enclose it and the addition.
pub proof fn lemma_or_extends_text<T: SQLFilterTrait>(tree: FilterTree<T>, filter: T)
    ensures
        match tree {
            FilterTree::Or(children) => {
                let inner = join(tree_texts(children), " OR "@);
                &&& tree.sql() == "("@ + inner + ")"@
                &&& tree.or(filter).sql() == if children.len() == 0 {
                    "("@ + filter.filter().sql() + ")"@
                } else {
                    "("@ + (inner + " OR "@ + filter.filter().sql()) + ")"@
                }
            },
            _ => tree.or(filter).sql() == "("@ + (tree.sql() + " OR "@ + filter.filter().sql())
                + ")"@,
        },
{
    let leaf = FilterTree::Filter(filter);
    match tree {
        FilterTree::Or(children) => {
            lemma_tree_texts_push(children, leaf);
            lemma_join_push(tree_texts(children), " OR "@, leaf.sql());
        },
        _ => {
            lemma_join_pair(tree, leaf, " OR "@);
        },
    }
}

/// Conditions added one after another with `and` end up side by side in one
/// AND group: whatever the tree was, its second `and` adds a child and no level.
pub proof fn lemma_and_stays_flat<T: SQLFilterTrait>(tree: FilterTree<T>, first: T, second: T)
    ensures
        tree.and(first) is And,
        tree.and(first).and(second) == FilterTree::And(
            tree.and(first)->And_0.push(FilterTree::Filter(second)),
        ),
        tree.and(first).and(second) == tree.and_all(seq![first, second]),
        tree is Filter ==> tree.and(first).and(second) == FilterTree::And(
            seq![tree, FilterTree::Filter(first), FilterTree::Filter(second)],
        ),
{
    let batch = leaves(seq![first, second]);
    assert(batch =~= seq![FilterTree::Filter(first), FilterTree::Filter(second)]);
    match tree {
        FilterTree::And(children) => {
            assert(children.push(FilterTree::Filter(first)).push(FilterTree::Filter(second))
                =~= children + batch);
        },
        _ => {
            assert(seq![tree, FilterTree::Filter(first)].push(FilterTree::Filter(second))
                =~= seq![tree] + batch);
            assert(seq![tree, FilterTree::Filter(first)].push(FilterTree::Filter(second))
                =~= seq![tree, FilterTree::Filter(first), FilterTree::Filter(second)]);
        },
    }
}

/// Conditions added one after another with `or` end up side by side in one
/// OR group: whatever the tree was, its second `or` adds a child and no level.
pub proof fn lemma_or_stays_flat<T: SQLFilterTrait>(tree: FilterTree<T>, first: T, second: T)
    ensures
        tree.or(first) is Or,
        tree.or(first).or(second) == FilterTree::Or(
            tree.or(first)->Or_0.push(FilterTree::Filter(second)),
        ),
        tree.or(first).or(second) == tree.or_any(seq![first, second]),
        tree is Filter ==> tree.or(first).or(second) == FilterTree::Or(
            seq![tree, FilterTree::Filter(first), FilterTree::Filter(second)],
        ),
{
    let batch = leaves(seq![first, second]);
    assert(batch =~= seq![FilterTree::Filter(first), FilterTree::Filter(second)]);
    match tree {
        FilterTree::Or(children) => {
            assert(children.push(FilterTree::Filter(first)).push(FilterTree::Filter(second))
                =~= children + batch);
        },
        _ => {
            assert(seq![tree, FilterTree::Filter(first)].push(FilterTree::Filter(second))
                =~= seq![tree] + batch);
            assert(seq![tree, FilterTree::Filter(first)].push(FilterTree::Filter(second))
                =~= seq![tree, FilterTree::Filter(first), FilterTree::Filter(second)]);
        },
    }
}

/// `and` on an OR group of two trees puts the group, in its own brackets,
/// and the condition into one new AND group: one level more, and no other.
pub proof fn lemma_and_wraps_or<T: SQLFilterTrait>(a: FilterTree<T>, b: FilterTree<T>, c: T)
    ensures
        FilterTree::Or(seq![a, b]).and(c) == FilterTree::And(
            seq![FilterTree::Or(seq![a, b]), FilterTree::Filter(c)],
        ),
        FilterTree::Or(seq![a, b]).and(c).sql() == "(("@ + a.sql() + " OR "@ + b.sql() + ") AND "@
            + c.filter().sql() + ")"@,
{
    let group = FilterTree::Or(seq![a, b]);
    lemma_join_pair(a, b, " OR "@);
    lemma_join_pair(group, FilterTree::Filter(c), " AND "@);
    reveal_strlit("((");
    reveal_strlit("(");
    reveal_strlit(") AND ");
    reveal_strlit(")");
    reveal_strlit(" AND ");
    assert("(("@ =~= "("@ + "("@);
    assert(") AND "@ =~= ")"@ + " AND "@);
    assert(group.sql() == "("@ + (a.sql() + " OR "@ + b.sql()) + ")"@);
    assert(group.and(c).sql() == "("@ + (group.sql() + " AND "@ + c.filter().sql()) + ")"@);
    assert(group.and(c).sql() =~= "(("@ + a.sql() + " OR "@ + b.sql() + ") AND "@
        + c.filter().sql() + ")"@);
}

/// `or` on an AND group of two trees puts the group, in its own brackets,
/// and the condition into one new OR group: one level more, and no other.
pub proof fn lemma_or_wraps_and<T: SQLFilterTrait>(a: FilterTree<T>, b: FilterTree<T>, c: T)
    ensures
        FilterTree::And(seq![a, b]).or(c) == FilterTree::Or(
            seq![FilterTree::And(seq![a, b]), FilterTree::Filter(c)],
        ),
        FilterTree::And(seq![a, b]).or(c).sql() == "(("@ + a.sql() + " AND "@ + b.sql() + ") OR "@
            + c.filter().sql() + ")"@,
{
    let group = FilterTree::And(seq![a, b]);
    lemma_join_pair(a, b, " AND "@);
    lemma_join_pair(group, FilterTree::Filter(c), " OR "@);
    reveal_strlit("((");
    reveal_strlit("(");
    reveal_strlit(") OR ");
    reveal_strlit(")");
    reveal_strlit(" OR ");
    assert("(("@ =~= "("@ + "("@);
    assert(") OR "@ =~= ")"@ + " OR "@);
    assert(group.sql() == "("@ + (a.sql() + " AND "@ + b.sql()) + ")"@);
    assert(group.or(c).sql() == "("@ + (group.sql() + " OR "@ + c.filter().sql()) + ")"@);
    assert(group.or(c).sql() =~= "(("@ + a.sql() + " AND "@ + b.sql() + ") OR "@
        + c.filter().sql() + ")"@);
}

/// Whether `copy` has the shape of `tree`, with a clone of each leaf in the
/// place of the leaf.
pub open spec fn tree_cloned<T: Clone>(tree: FilterTree<T>, copy: FilterTree<T>) -> bool
    decreases tree,
{
    match (tree, copy) {
        (FilterTree::And(a), FilterTree::And(b)) => a.len() == b.len() && forall|i: int|
            0 <= i < a.len() ==> tree_cloned(a[i], #[trigger] b[i]),
        (FilterTree::Or(a), FilterTree::Or(b)) => a.len() == b.len() && forall|i: int|
            0 <= i < a.len() ==> tree_cloned(a[i], #[trigger] b[i]),
        (FilterTree::Filter(a), FilterTree::Filter(b)) => cloned::<T>(a, b),
        _ => false,
    }
}

impl<T: SQLFilterTrait + Clone> FilterStmt<T> {
    /// Copies each tree of a list.
    fn clone_children(children: &Vec<FilterStmt<T>>) -> (copies: Vec<FilterStmt<T>>)
        ensures
            copies.len() == children.len(),
            forall|i: int|
                0 <= i < children.len() ==> tree_cloned(children[i]@, (#[trigger] copies[i])@),
        decreases children,
    {
        let mut copies: Vec<FilterStmt<T>> = Vec::new();
        let mut i: usize = 0;
        while i < children.len()
            invariant
                i <= children.len(),
                copies.len() == i,
                forall|k: int| 0 <= k < i ==> tree_cloned(children[k]@, (#[trigger] copies[k])@),
            decreases children.len() - i,
        {
            copies.push(children[i].clone());
            i = i + 1;
        }
        copies
    }
}

impl<T: SQLFilterTrait + Clone> Clone for FilterStmt<T> {
    fn clone(&self) -> (copy: Self)
        ensures
            tree_cloned(self@, copy@),
        decreases self,
    {
        match self {
            FilterStmt::And(children) => {
                let copies = Self::clone_children(children);
                assert forall|i: int| 0 <= i < children.len() implies tree_cloned(
                    tree_views(children@)[i],
                    #[trigger] tree_views(copies@)[i],
                ) by {
                    assert(tree_cloned(children[i]@, copies[i]@));
                }
                FilterStmt::And(copies)
            },
            FilterStmt::Or(children) => {
                let copies = Self::clone_children(children);
                assert forall|i: int| 0 <= i < children.len() implies tree_cloned(
                    tree_views(children@)[i],
                    #[trigger] tree_views(copies@)[i],
                ) by {
                    assert(tree_cloned(children[i]@, copies[i]@));
                }
                FilterStmt::Or(copies)
            },
            FilterStmt::Filter(leaf) => FilterStmt::Filter(leaf.clone()),
        }
    }
}

} // verus!
