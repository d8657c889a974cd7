//! SELECT and UPDATE statements over a filter tree, and their SQL text.

use super::filter::SQLFilterTrait;
use super::text::join;
use super::text::join_strings;
use super::tree::leaves;
use super::tree::push_leaves;
use super::tree::tree_views;
use super::tree::FilterStmt;
use super::tree::FilterTree;
use super::value::entry_views;
use super::value::sql_render_value;
use super::value::Value;
use super::value::ValueView;
use vstd::prelude::*;

verus! {

/// What an optional string stands for.
pub open spec fn text_view(text: Option<String>) -> Option<Seq<char>> {
    match text {
        Some(s) => Some(s@),
        None => None,
    }
}

/// What an optional filter tree stands for.
pub open spec fn filter_view<T: SQLFilterTrait>(filter: Option<FilterStmt<T>>) -> Option<
    FilterTree<T>,
> {
    match filter {
        Some(tree) => Some(tree@),
        None => None,
    }
}

/// The WHERE clause of a filter, with the space that parts it from the text
/// before it; nothing where there is no filter.
pub open spec fn where_clause<T: SQLFilterTrait>(filter: Option<FilterTree<T>>) -> Seq<char> {
    match filter {
        Some(tree) => " WHERE "@ + tree.sql(),
        None => Seq::empty(),
    }
}

/// The filter with one more condition that must hold too; the first
/// condition stands alone.
pub open spec fn filter_and<T: SQLFilterTrait>(filter: Option<FilterTree<T>>, added: T) -> Option<
    FilterTree<T>,
> {
    match filter {
        Some(tree) => Some(tree.and(added)),
        None => Some(FilterTree::Filter(added)),
    }
}

/// The filter with one more condition that may hold instead; the first
/// condition stands alone.
pub open spec fn filter_or<T: SQLFilterTrait>(filter: Option<FilterTree<T>>, added: T) -> Option<
    FilterTree<T>,
> {
    match filter {
        Some(tree) => Some(tree.or(added)),
        None => Some(FilterTree::Filter(added)),
    }
}

/// The filter with a batch of conditions that must all hold too; a first
/// batch makes an AND group of its own.
pub open spec fn filter_and_all<T: SQLFilterTrait>(
    filter: Option<FilterTree<T>>,
    added: Seq<T>,
) -> Option<FilterTree<T>> {
    match filter {
        Some(tree) => Some(tree.and_all(added)),
        None => Some(FilterTree::And(leaves(added))),
    }
}

/// The filter with a batch of conditions of which any may hold instead; a
/// first batch makes an OR group of its own.
pub open spec fn filter_or_any<T: SQLFilterTrait>(
    filter: Option<FilterTree<T>>,
    added: Seq<T>,
) -> Option<FilterTree<T>> {
    match filter {
        Some(tree) => Some(tree.or_any(added)),
        None => Some(FilterTree::Or(leaves(added))),
    }
}

/// Renders the WHERE clause of an optional filter.
fn render_where<T: SQLFilterTrait>(filter: &Option<FilterStmt<T>>) -> (out: String)
    ensures
        out@ == where_clause(filter_view(*filter)),
{
    match filter {
        Some(tree) => {
            let mut out = String::from_str(" WHERE ");
            let text = tree.to_string();
            out.append(text.as_str());
            out
        },
        None => String::new(),
    }
}

/// A request to read columns of a table, from the rows that the filter admits.
#[derive(Debug, Clone)]
pub struct Select<T> where T: SQLFilterTrait {
    pub op: Option<String>,
    pub tbl: String,
    pub cols: Vec<String>,
    pub filter: Option<FilterStmt<T>>,
}

/// What a `Select` stands for.
pub struct SelectView<T> {
    pub op: Option<Seq<char>>,
    pub tbl: Seq<char>,
    pub cols: Seq<Seq<char>>,
    pub filter: Option<FilterTree<T>>,
}

impl<T: SQLFilterTrait> View for Select<T> {
    type V = SelectView<T>;

    open spec fn view(&self) -> SelectView<T> {
        SelectView {
            op: text_view(self.op),
            tbl: self.tbl@,
            cols: self.cols.deep_view(),
            filter: filter_view(self.filter),
        }
    }
}

impl<T: SQLFilterTrait> SelectView<T> {
    /// The statement as SQL text. Table and column names stand as they are.
    pub open spec fn sql(self) -> Seq<char> {
        "SELECT "@ + join(self.cols, ", "@) + " FROM "@ + self.tbl + where_clause(self.filter)
            + ";"@
    }

    /// The statement with another filter and nothing else changed.
    pub open spec fn with_filter(self, filter: Option<FilterTree<T>>) -> Self {
        SelectView { op: self.op, tbl: self.tbl, cols: self.cols, filter }
    }
}

impl<T: SQLFilterTrait> Select<T> {
    /// Adds a condition that must hold too.
    pub fn and(self, filter: T) -> (out: Self)
        ensures
            out@ == self@.with_filter(filter_and(self@.filter, filter)),
    {
        Select {
            op: self.op,
            tbl: self.tbl,
            cols: self.cols,
            filter: Some(
                match self.filter {
                    Some(ex_filter) => ex_filter.and(filter),
                    None => FilterStmt::Filter(filter),
                },
            ),
        }
    }

    /// Adds a batch of conditions that must all hold too.
    pub fn and_all(self, filter: Vec<T>) -> (out: Self)
        ensures
            out@ == self@.with_filter(filter_and_all(self@.filter, filter@)),
    {
        Select {
            op: self.op,
            tbl: self.tbl,
            cols: self.cols,
            filter: Some(
                match self.filter {
                    Some(ex_filter) => ex_filter.and_all(filter),
                    None => {
                        let mut children: Vec<FilterStmt<T>> = Vec::new();
                        assert(tree_views(children@) =~= Seq::empty());
                        push_leaves(&mut children, filter);
                        assert(tree_views(children@) =~= leaves(filter@));
                        FilterStmt::And(children)
                    },
                },
            ),
        }
    }

    /// Adds a condition that must hold too: `and` under the name of the clause.
    pub fn where_(self, filter: T) -> (out: Self)
        ensures
            out@ == self@.with_filter(filter_and(self@.filter, filter)),
    {
        self.and(filter)
    }

    /// Adds a condition that may hold instead.
    pub fn or(self, filter: T) -> (out: Self)
        ensures
            out@ == self@.with_filter(filter_or(self@.filter, filter)),
    {
        Select {
            op: self.op,
            tbl: self.tbl,
            cols: self.cols,
            filter: Some(
                match self.filter {
                    Some(ex_filter) => ex_filter.or(filter),
                    None => FilterStmt::Filter(filter),
                },
            ),
        }
    }

    /// Adds a batch of conditions of which any may hold instead.
    pub fn or_any(self, filter: Vec<T>) -> (out: Self)
        ensures
            out@ == self@.with_filter(filter_or_any(self@.filter, filter@)),
    {
        Select {
            op: self.op,
            tbl: self.tbl,
            cols: self.cols,
            filter: Some(
                match self.filter {
                    Some(ex_filter) => ex_filter.or_any(filter),
                    None => {
                        let mut children: Vec<FilterStmt<T>> = Vec::new();
                        assert(tree_views(children@) =~= Seq::empty());
                        push_leaves(&mut children, filter);
                        assert(tree_views(children@) =~= leaves(filter@));
                        FilterStmt::Or(children)
                    },
                },
            ),
        }
    }

    /// Renders the statement as SQL text.
    pub fn to_string(&self) -> (out: String)
        ensures
            out@ == self@.sql(),
    {
        let cols = join_strings(&self.cols, ", ");
        let filter = render_where(&self.filter);
        let mut out = String::from_str("SELECT ");
        out.append(cols.as_str());
        out.append(" FROM ");
        out.append(self.tbl.as_str());
        out.append(filter.as_str());
        out.append(";");
        out
    }
}

/// Each assignment as the column, ` = ` and the literal of its value, in order.
pub open spec fn assignments(values: Seq<(Seq<char>, ValueView)>) -> Seq<Seq<char>> {
    Seq::new(values.len(), |i: int| values[i].0 + " = "@ + values[i].1.sql())
}

/// A request to give columns of a table new values, in the rows that the
/// filter admits. The assignments are rendered in the order in which they stand.
#[derive(Debug, Clone)]
pub struct Update<T> where T: SQLFilterTrait {
    pub op: Option<String>,
    pub tbl: String,
    pub values: Vec<(String, Value)>,
    pub filter: Option<FilterStmt<T>>,
}

/// What an `Update` stands for.
pub struct UpdateView<T> {
    pub op: Option<Seq<char>>,
    pub tbl: Seq<char>,
    pub values: Seq<(Seq<char>, ValueView)>,
    pub filter: Option<FilterTree<T>>,
}

impl<T: SQLFilterTrait> View for Update<T> {
    type V = UpdateView<T>;

    open spec fn view(&self) -> UpdateView<T> {
        UpdateView {
            op: text_view(self.op),
            tbl: self.tbl@,
            values: entry_views(self.values@),
            filter: filter_view(self.filter),
        }
    }
}

impl<T: SQLFilterTrait> UpdateView<T> {
    /// The statement as SQL text. Table and column names stand as they are.
    pub open spec fn sql(self) -> Seq<char> {
        "UPDATE "@ + self.tbl + " SET "@ + join(assignments(self.values), ", "@) + where_clause(
            self.filter,
        ) + ";"@
    }
}

impl<T: SQLFilterTrait> UpdateView<T> {
    /// Whether no column is assigned twice, as in a mapping from columns to
    /// values.
    pub open spec fn columns_distinct(self) -> bool {
        forall|i: int, j: int|
            0 <= i < j < self.values.len() ==> self.values[i].0 != self.values[j].0
    }

    /// Whether `col` has no assignment before the place `at`.
    pub open spec fn unassigned_before(self, col: Seq<char>, at: int) -> bool {
        forall|k: int| 0 <= k < at && k < self.values.len() ==> (#[trigger] self.values[k]).0 != col
    }
}

impl<T: SQLFilterTrait> Update<T> {
    /// Gives `col` the new value `value`: in the place of its first
    /// assignment where it has one, as a new last assignment where it has none.
    #[verifier::loop_isolation(false)]
    pub fn set(self, col: String, value: Value) -> (out: Self)
        ensures
            out@.op == self@.op,
            out@.tbl == self@.tbl,
            out@.filter == self@.filter,
            forall|at: int|
                0 <= at < self@.values.len() && self@.values[at].0 == col@
                    && self@.unassigned_before(col@, at) ==> out@.values == self@.values.update(
                    at,
                    (col@, value@),
                ),
            self@.unassigned_before(col@, self@.values.len() as int) ==> out@.values
                == self@.values.push((col@, value@)),
            self@.columns_distinct() ==> out@.columns_distinct(),
    {
        let ghost before = self@;
        let ghost pair = (col@, value@);
        let mut values = self.values;
        let mut i: usize = 0;
        while i < values.len()
            invariant
                i <= values.len(),
                entry_views(values@) == before.values,
                before.unassigned_before(col@, i as int),
            decreases values.len() - i,
        {
            if values[i].0 == col {
                assert(before.values[i as int].0 == col@);
                values[i] = (col, value);
                assert(entry_views(values@) =~= before.values.update(i as int, pair));
                assert forall|at: int|
                    0 <= at < before.values.len() && before.values[at].0 == col@
                        && before.unassigned_before(col@, at) implies at == i by {
                    if at < i {
                        assert(before.values[at].0 != col@);
                    }
                    if i < at {
                        assert(before.values[i as int].0 != col@);
                    }
                }
                return Update { op: self.op, tbl: self.tbl, values, filter: self.filter };
            }
            i = i + 1;
        }
        values.push((col, value));
        assert(entry_views(values@) =~= before.values.push(pair));
        Update { op: self.op, tbl: self.tbl, values, filter: self.filter }
    }

    /// Renders the statement as SQL text.
    pub fn to_string(&self) -> (out: String)
        ensures
            out@ == self@.sql(),
    {
        let mut parts: Vec<String> = Vec::new();
        let mut i: usize = 0;
        while i < self.values.len()
            invariant
                i <= self.values.len(),
                parts.len() == i,
                forall|k: int|
                    0 <= k < i ==> parts[k]@ == (#[trigger] self.values[k]).0@ + " = "@
                        + self.values[k].1@.sql(),
            decreases self.values.len() - i,
        {
            let mut part = self.values[i].0.clone();
            part.append(" = ");
            let literal = sql_render_value(&self.values[i].1);
            part.append(literal.as_str());
            parts.push(part);
            i = i + 1;
        }
        assert(parts.deep_view() =~= assignments(self@.values));
        let values = join_strings(&parts, ", ");
        let filter = render_where(&self.filter);
        let mut out = String::from_str("UPDATE ");
        out.append(self.tbl.as_str());
        out.append(" SET ");
        out.append(values.as_str());
        out.append(filter.as_str());
        out.append(";");
        out
    }
}

/// A statement of either kind, as it is handed to the host.
#[derive(Debug, Clone)]
pub enum SQLRequest<T> where T: SQLFilterTrait {
    Select(Select<T>),
    Update(Update<T>),
}

/// What a `SQLRequest` stands for.
pub enum SQLRequestView<T> {
    Select(SelectView<T>),
    Update(UpdateView<T>),
}

impl<T: SQLFilterTrait> View for SQLRequest<T> {
    type V = SQLRequestView<T>;

    open spec fn view(&self) -> SQLRequestView<T> {
        match self {
            SQLRequest::Select(req) => SQLRequestView::Select(req@),
            SQLRequest::Update(req) => SQLRequestView::Update(req@),
        }
    }
}

impl<T: SQLFilterTrait> SQLRequestView<T> {
    /// The statement as SQL text.
    pub open spec fn sql(self) -> Seq<char> {
        match self {
            SQLRequestView::Select(req) => req.sql(),
            SQLRequestView::Update(req) => req.sql(),
        }
    }
}

impl<T: SQLFilterTrait> SQLRequest<T> {
    /// Renders the statement as SQL text.
    pub fn to_string(&self) -> (out: String)
        ensures
            out@ == self@.sql(),
    {
        match self {
            SQLRequest::Select(req) => req.to_string(),
            SQLRequest::Update(req) => req.to_string(),
        }
    }
}

} // verus!
