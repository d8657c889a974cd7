//! Predicates on one column and the SQL text of each.

use super::text::join;
use super::text::join_strings;
use super::value::clone_values;
use super::value::literals;
use super::value::sql_render_value;
use super::value::value_views;
use super::value::Value;
use super::value::ValueView;
use vstd::prelude::*;

verus! {

/// One condition on one column. Column names are taken as they are.
#[derive(Debug)]
pub enum FilterItem {
    Eq { col: String, value: Value },
    Ne { col: String, value: Value },
    In { col: String, values: Vec<Value> },
    Nin { col: String, values: Vec<Value> },
    Gt { col: String, value: Value },
    Gte { col: String, value: Value },
    Lt { col: String, value: Value },
    Lte { col: String, value: Value },
    Between { col: String, start: Value, end: Value },
    /// `expr` is the pattern as it will stand in the statement: it is not quoted here.
    Like { col: String, expr: String },
    IsNull { col: String },
    IsNotNull { col: String },
}

/// What a `FilterItem` stands for.
pub enum FilterItemView {
    Eq { col: Seq<char>, value: ValueView },
    Ne { col: Seq<char>, value: ValueView },
    In { col: Seq<char>, values: Seq<ValueView> },
    Nin { col: Seq<char>, values: Seq<ValueView> },
    Gt { col: Seq<char>, value: ValueView },
    Gte { col: Seq<char>, value: ValueView },
    Lt { col: Seq<char>, value: ValueView },
    Lte { col: Seq<char>, value: ValueView },
    Between { col: Seq<char>, start: ValueView, end: ValueView },
    Like { col: Seq<char>, expr: Seq<char> },
    IsNull { col: Seq<char> },
    IsNotNull { col: Seq<char> },
}

impl View for FilterItem {
    type V = FilterItemView;

    open spec fn view(&self) -> FilterItemView {
        match self {
            FilterItem::Eq { col, value } => FilterItemView::Eq { col: col@, value: value@ },
            FilterItem::Ne { col, value } => FilterItemView::Ne { col: col@, value: value@ },
            FilterItem::In { col, values } => FilterItemView::In {
                col: col@,
                values: value_views(values@),
            },
            FilterItem::Nin { col, values } => FilterItemView::Nin {
                col: col@,
                values: value_views(values@),
            },
            FilterItem::Gt { col, value } => FilterItemView::Gt { col: col@, value: value@ },
            FilterItem::Gte { col, value } => FilterItemView::Gte { col: col@, value: value@ },
            FilterItem::Lt { col, value } => FilterItemView::Lt { col: col@, value: value@ },
            FilterItem::Lte { col, value } => FilterItemView::Lte { col: col@, value: value@ },
            FilterItem::Between { col, start, end } => FilterItemView::Between {
                col: col@,
                start: start@,
                end: end@,
            },
            FilterItem::Like { col, expr } => FilterItemView::Like { col: col@, expr: expr@ },
            FilterItem::IsNull { col } => FilterItemView::IsNull { col: col@ },
            FilterItem::IsNotNull { col } => FilterItemView::IsNotNull { col: col@ },
        }
    }
}

/// A column, an operator and one literal.
pub open spec fn comparison(col: Seq<char>, operator: Seq<char>, value: ValueView) -> Seq<char> {
    col + operator + value.sql()
}

/// A column and a list of literals in round brackets.
pub open spec fn membership(col: Seq<char>, values: Seq<ValueView>) -> Seq<char> {
    col + " in ("@ + join(literals(values), ", "@) + ")"@
}

impl FilterItemView {
    /// The predicate as SQL text.
    ///
    /// `Nin` renders as `In` does, without a negation: consumers of the text
    /// have only ever seen this form.
    pub open spec fn sql(self) -> Seq<char> {
        match self {
            FilterItemView::Eq { col, value } => comparison(col, " = "@, value),
            FilterItemView::Ne { col, value } => comparison(col, " <> "@, value),
            FilterItemView::In { col, values } => membership(col, values),
            FilterItemView::Nin { col, values } => membership(col, values),
            FilterItemView::Gt { col, value } => comparison(col, " > "@, value),
            FilterItemView::Gte { col, value } => comparison(col, " >= "@, value),
            FilterItemView::Lt { col, value } => comparison(col, " < "@, value),
            FilterItemView::Lte { col, value } => comparison(col, " <= "@, value),
            FilterItemView::Between { col, start, end } => col + " between ("@ + start.sql() + ", "@
                + end.sql() + ")"@,
            FilterItemView::Like { col, expr } => col + " like "@ + expr,
            FilterItemView::IsNull { col } => col + " IS NULL"@,
            FilterItemView::IsNotNull { col } => col + " IS NOT NULL"@,
        }
    }
}

/// Renders a column, an operator and one literal.
fn render_comparison(col: &String, operator: &str, value: &Value) -> (out: String)
    ensures
        out@ == comparison(col@, operator@, value@),
{
    let mut out = col.clone();
    out.append(operator);
    let literal = sql_render_value(value);
    out.append(literal.as_str());
    out
}

/// Renders a column and a list of literals in round brackets.
fn render_membership(col: &String, values: &Vec<Value>) -> (out: String)
    ensures
        out@ == membership(col@, value_views(values@)),
{
    let mut parts: Vec<String> = Vec::new();
    let mut i: usize = 0;
    while i < values.len()
        invariant
            i <= values.len(),
            parts.len() == i,
            forall|k: int| 0 <= k < i ==> parts[k]@ == (#[trigger] values[k])@.sql(),
        decreases values.len() - i,
    {
        parts.push(sql_render_value(&values[i]));
        i = i + 1;
    }
    assert(parts.deep_view() =~= literals(value_views(values@)));
    let inner = join_strings(&parts, ", ");
    let mut out = col.clone();
    out.append(" in (");
    out.append(inner.as_str());
    out.append(")");
    out
}

impl FilterItem {
    /// Renders the predicate as SQL text.
    pub fn to_string(&self) -> (out: String)
        ensures
            out@ == self@.sql(),
    {
        match self {
            FilterItem::Eq { col, value } => render_comparison(col, " = ", value),
            FilterItem::Ne { col, value } => render_comparison(col, " <> ", value),
            FilterItem::In { col, values } => render_membership(col, values),
            FilterItem::Nin { col, values } => render_membership(col, values),
            FilterItem::Gt { col, value } => render_comparison(col, " > ", value),
            FilterItem::Gte { col, value } => render_comparison(col, " >= ", value),
            FilterItem::Lt { col, value } => render_comparison(col, " < ", value),
            FilterItem::Lte { col, value } => render_comparison(col, " <= ", value),
            FilterItem::Between { col, start, end } => {
                let mut out = col.clone();
                out.append(" between (");
                let low = sql_render_value(start);
                out.append(low.as_str());
                out.append(", ");
                let high = sql_render_value(end);
                out.append(high.as_str());
                out.append(")");
                out
            },
            FilterItem::Like { col, expr } => {
                let mut out = col.clone();
                out.append(" like ");
                out.append(expr.as_str());
                out
            },
            FilterItem::IsNull { col } => {
                let mut out = col.clone();
                out.append(" IS NULL");
                out
            },
            FilterItem::IsNotNull { col } => {
                let mut out = col.clone();
                out.append(" IS NOT NULL");
                out
            },
        }
    }
}

impl Clone for FilterItem {
    fn clone(&self) -> (copy: Self)
        ensures
            copy@ == self@,
    {
        match self {
            FilterItem::Eq { col, value } => FilterItem::Eq {
                col: col.clone(),
                value: value.clone(),
            },
            FilterItem::Ne { col, value } => FilterItem::Ne {
                col: col.clone(),
                value: value.clone(),
            },
            FilterItem::In { col, values } => FilterItem::In {
                col: col.clone(),
                values: clone_values(values),
            },
            FilterItem::Nin { col, values } => FilterItem::Nin {
                col: col.clone(),
                values: clone_values(values),
            },
            FilterItem::Gt { col, value } => FilterItem::Gt {
                col: col.clone(),
                value: value.clone(),
            },
            FilterItem::Gte { col, value } => FilterItem::Gte {
                col: col.clone(),
                value: value.clone(),
            },
            FilterItem::Lt { col, value } => FilterItem::Lt {
                col: col.clone(),
                value: value.clone(),
            },
            FilterItem::Lte { col, value } => FilterItem::Lte {
                col: col.clone(),
                value: value.clone(),
            },
            FilterItem::Between { col, start, end } => FilterItem::Between {
                col: col.clone(),
                start: start.clone(),
                end: end.clone(),
            },
            FilterItem::Like { col, expr } => FilterItem::Like {
                col: col.clone(),
                expr: expr.clone(),
            },
            FilterItem::IsNull { col } => FilterItem::IsNull { col: col.clone() },
            FilterItem::IsNotNull { col } => FilterItem::IsNotNull { col: col.clone() },
        }
    }
}

/// A value that stands for a predicate: a typed filter of some record, or a
/// `FilterItem` itself.
pub trait SQLFilterTrait {
    /// The predicate that the value stands for.
    spec fn filter(&self) -> FilterItemView;

    /// Gives the predicate.
    fn get_filter(&self) -> (item: FilterItem)
        ensures
            item@ == self.filter(),
    ;
}

impl SQLFilterTrait for FilterItem {
    open spec fn filter(&self) -> FilterItemView {
        self@
    }

    fn get_filter(&self) -> (item: FilterItem) {
        self.clone()
    }
}

} // verus!
