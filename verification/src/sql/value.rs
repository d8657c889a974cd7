//! Dynamically typed values and the SQL literal that each renders to.

use super::text::join;
use super::text::join_strings;
use vstd::prelude::*;

verus! {

/// A number: a whole number, or any other number as its decimal text.
#[derive(Debug)]
pub enum Number {
    /// A whole number that is not negative.
    PosInt(u64),
    /// A whole number of the signed range.
    NegInt(i64),
    /// A number with a fraction or an exponent, in its decimal text.
    Float(String),
}

/// What a `Number` stands for.
pub enum NumberView {
    Int(int),
    Float(Seq<char>),
}

impl View for Number {
    type V = NumberView;

    open spec fn view(&self) -> NumberView {
        match self {
            Number::PosInt(n) => NumberView::Int(*n as int),
            Number::NegInt(n) => NumberView::Int(*n as int),
            Number::Float(text) => NumberView::Float(text@),
        }
    }
}

/// The character of one decimal digit.
pub open spec fn digit(d: nat) -> char
    recommends
        d < 10,
{
    seq!['0', '1', '2', '3', '4', '5', '6', '7', '8', '9'][d as int]
}

/// The decimal digits of `n`, most significant first, with no leading zero.
pub open spec fn decimal(n: nat) -> Seq<char>
    decreases n,
{
    if n < 10 {
        seq![digit(n)]
    } else {
        decimal(n / 10).push(digit(n % 10))
    }
}

/// The decimal text of a whole number, with a minus sign where it is negative.
pub open spec fn integer_text(n: int) -> Seq<char> {
    if n < 0 {
        seq!['-'] + decimal((-n) as nat)
    } else {
        decimal(n as nat)
    }
}

impl NumberView {
    /// The number as SQL text.
    pub open spec fn sql(self) -> Seq<char> {
        match self {
            NumberView::Int(n) => integer_text(n),
            NumberView::Float(text) => text,
        }
    }
}

/// `serde_json::Number::from` on a `u64`, then its `Display`: the text is the
/// number's decimal digits, as `itoa` writes them.
#[verifier::external_body]
fn unsigned_text(n: u64) -> (text: String)
    ensures
        text@ == decimal(n as nat),
{
    serde_json::Number::from(n).to_string()
}

/// `serde_json::Number::from` on an `i64`, then its `Display`: the text is the
/// number's decimal digits, after a minus sign where it is negative.
#[verifier::external_body]
fn signed_text(n: i64) -> (text: String)
    ensures
        text@ == integer_text(n as int),
{
    serde_json::Number::from(n).to_string()
}

impl Number {
    /// The number as SQL text.
    pub fn to_string(&self) -> (text: String)
        ensures
            text@ == self@.sql(),
    {
        match self {
            Number::PosInt(n) => unsigned_text(*n),
            Number::NegInt(n) => signed_text(*n),
            Number::Float(text) => text.clone(),
        }
    }
}

/// What stands for one character inside a quoted literal.
pub open spec fn escape_char(c: char) -> Seq<char> {
    if c == '\\' {
        seq!['\\', '\\']
    } else if c == '\'' {
        seq!['\\', '\'']
    } else {
        seq![c]
    }
}

/// The text with each backslash and each single quote behind a backslash.
pub open spec fn escape(s: Seq<char>) -> Seq<char>
    decreases s.len(),
{
    if s.len() == 0 {
        Seq::empty()
    } else {
        escape_char(s[0]) + escape(s.skip(1))
    }
}

/// Escaping goes character by character, so it can be done from the left.
pub proof fn lemma_escape_push(s: Seq<char>, c: char)
    ensures
        escape(s.push(c)) == escape(s) + escape_char(c),
    decreases s.len(),
{
    if s.len() == 0 {
        assert(s.push(c).skip(1) =~= Seq::<char>::empty());
        assert(escape(s.push(c)) =~= escape_char(c) + escape(Seq::<char>::empty()));
        assert(escape(s.push(c)) =~= escape(s) + escape_char(c));
    } else {
        lemma_escape_push(s.skip(1), c);
        assert(s.push(c).skip(1) =~= s.skip(1).push(c));
        assert(escape(s.push(c)) =~= escape(s) + escape_char(c));
    }
}

/// What a lexer reads back from the inside of a quoted literal: a backslash
/// makes the character after it literal, and a bare quote ends the literal.
/// `None` where the text holds a bare quote or ends in a lone backslash.
pub open spec fn unescape(t: Seq<char>) -> Option<Seq<char>>
    decreases t.len(),
{
    if t.len() == 0 {
        Some(Seq::empty())
    } else if t[0] == '\'' {
        None
    } else if t[0] == '\\' {
        if t.len() == 1 {
            None
        } else {
            match unescape(t.skip(2)) {
                Some(rest) => Some(seq![t[1]] + rest),
                None => None,
            }
        }
    } else {
        match unescape(t.skip(1)) {
            Some(rest) => Some(seq![t[0]] + rest),
            None => None,
        }
    }
}

/// An escaped string holds no bare quote and no lone backslash at its end,
/// and a lexer reads the string itself back from it.
pub proof fn lemma_escape_round_trips(s: Seq<char>)
    ensures
        unescape(escape(s)) == Some(s),
    decreases s.len(),
{
    if s.len() == 0 {
        assert(escape(s) =~= Seq::<char>::empty());
        assert(s =~= Seq::<char>::empty());
    } else {
        let c = s[0];
        let rest = s.skip(1);
        let t = escape(s);
        lemma_escape_round_trips(rest);
        assert(t == escape_char(c) + escape(rest));
        if c == '\\' || c == '\'' {
            assert(t[0] == '\\');
            assert(t[1] == c);
            assert(t.skip(2) =~= escape(rest));
        } else {
            assert(t[0] == c);
            assert(t.skip(1) =~= escape(rest));
        }
        assert(seq![c] + rest =~= s);
    }
}

/// A string renders to a quoted literal whose inside reads back as the string.
pub proof fn lemma_string_literal_round_trips(s: Seq<char>)
    ensures
        ValueView::String(s).sql() == seq!['\''] + escape(s) + seq!['\''],
        unescape(escape(s)) == Some(s),
{
    lemma_escape_round_trips(s);
}

/// Appends the escaped form of `s` to `out`.
pub fn push_escaped(out: &mut String, s: &str)
    ensures
        final(out)@ == old(out)@ + escape(s@),
{
    let ghost before = out@;
    for c in it: s.chars()
        invariant
            it.seq() == s@,
            out@ == before + escape(s@.take(it.index() as int)),
    {
        proof {
            let done = s@.take(it.index() as int);
            lemma_escape_push(done, c);
            assert(s@.take(it.index() + 1) =~= done.push(c));
        }
        if c == '\\' {
            out.append("\\\\");
            proof {
                reveal_strlit("\\\\");
                assert("\\\\"@ =~= escape_char(c));
            }
        } else if c == '\'' {
            out.append("\\'");
            proof {
                reveal_strlit("\\'");
                assert("\\'"@ =~= escape_char(c));
            }
        } else {
            out.push(c);
            assert(out@ =~= before + escape(s@.take(it.index() + 1)));
        }
    }
    assert(s@.take(s@.len() as int) =~= s@);
}

/// A dynamically typed value: a scalar, a list of values, or an ordered list of
/// named values.
#[derive(Debug)]
pub enum Value {
    Null,
    Bool(bool),
    Number(Number),
    String(String),
    Array(Vec<Value>),
    /// Named values in the order in which they are rendered.
    Object(Vec<(String, Value)>),
}

/// What a `Value` stands for.
pub enum ValueView {
    Null,
    Bool(bool),
    Number(NumberView),
    String(Seq<char>),
    Array(Seq<ValueView>),
    Object(Seq<(Seq<char>, ValueView)>),
}

impl View for Value {
    type V = ValueView;

    open spec fn view(&self) -> ValueView
        decreases self,
    {
        match self {
            Value::Null => ValueView::Null,
            Value::Bool(b) => ValueView::Bool(*b),
            Value::Number(n) => ValueView::Number(n@),
            Value::String(s) => ValueView::String(s@),
            Value::Array(items) => ValueView::Array(value_views(items@)),
            Value::Object(entries) => ValueView::Object(entry_views(entries@)),
        }
    }
}

/// What each of the values stands for, in order.
pub open spec fn value_views(items: Seq<Value>) -> Seq<ValueView>
    decreases items,
{
    Seq::new(
        items.len(),
        |i: int|
            if 0 <= i < items.len() {
                items[i]@
            } else {
                ValueView::Null
            },
    )
}

/// What each of the named values stands for, in order.
pub open spec fn entry_views(entries: Seq<(String, Value)>) -> Seq<(Seq<char>, ValueView)>
    decreases entries,
{
    Seq::new(
        entries.len(),
        |i: int|
            if 0 <= i < entries.len() {
                (entries[i].0@, entries[i].1@)
            } else {
                (Seq::empty(), ValueView::Null)
            },
    )
}

impl Clone for Number {
    fn clone(&self) -> (copy: Self)
        ensures
            copy@ == self@,
    {
        match self {
            Number::PosInt(n) => Number::PosInt(*n),
            Number::NegInt(n) => Number::NegInt(*n),
            Number::Float(text) => Number::Float(text.clone()),
        }
    }
}

impl Clone for Value {
    #[verifier::loop_isolation(false)]
    fn clone(&self) -> (copy: Self)
        ensures
            copy@ == self@,
        decreases self,
    {
        match self {
            Value::Null => Value::Null,
            Value::Bool(b) => Value::Bool(*b),
            Value::Number(n) => Value::Number(n.clone()),
            Value::String(s) => Value::String(s.clone()),
            Value::Array(items) => {
                let mut copies: Vec<Value> = Vec::new();
                let mut i: usize = 0;
                while i < items.len()
                    invariant
                        i <= items.len(),
                        copies.len() == i,
                        forall|k: int| 0 <= k < i ==> (#[trigger] copies[k])@ == items[k]@,
                    decreases items.len() - i,
                {
                    copies.push(items[i].clone());
                    i = i + 1;
                }
                assert(value_views(copies@) =~= value_views(items@));
                Value::Array(copies)
            },
            Value::Object(entries) => {
                let mut copies: Vec<(String, Value)> = Vec::new();
                let mut i: usize = 0;
                while i < entries.len()
                    invariant
                        i <= entries.len(),
                        copies.len() == i,
                        forall|k: int|
                            0 <= k < i ==> (#[trigger] copies[k]).0@ == entries[k].0@
                                && copies[k].1@ == entries[k].1@,
                    decreases entries.len() - i,
                {
                    copies.push((entries[i].0.clone(), entries[i].1.clone()));
                    i = i + 1;
                }
                assert(entry_views(copies@) =~= entry_views(entries@));
                Value::Object(copies)
            },
        }
    }
}

/// Copies a list of values.
pub fn clone_values(items: &Vec<Value>) -> (copies: Vec<Value>)
    ensures
        value_views(copies@) == value_views(items@),
{
    let mut copies: Vec<Value> = Vec::new();
    let mut i: usize = 0;
    while i < items.len()
        invariant
            i <= items.len(),
            copies.len() == i,
            forall|k: int| 0 <= k < i ==> (#[trigger] copies[k])@ == items[k]@,
        decreases items.len() - i,
    {
        copies.push(items[i].clone());
        i = i + 1;
    }
    assert(value_views(copies@) =~= value_views(items@));
    copies
}

/// A string as a quoted SQL literal.
pub open spec fn quoted(s: Seq<char>) -> Seq<char> {
    seq!['\''] + escape(s) + seq!['\'']
}

impl ValueView {
    /// The value as a SQL literal.
    pub open spec fn sql(self) -> Seq<char>
        decreases self,
    {
        match self {
            ValueView::Null => "NULL"@,
            ValueView::Bool(b) => if b {
                "true"@
            } else {
                "false"@
            },
            ValueView::Number(n) => n.sql(),
            ValueView::String(s) => quoted(s),
            ValueView::Array(items) => "( "@ + join(literals(items), ", "@) + " )"@,
            ValueView::Object(entries) => "( "@ + join(aliased(entries), ", "@) + " )"@,
        }
    }
}

/// The literal of each value, in order.
pub open spec fn literals(items: Seq<ValueView>) -> Seq<Seq<char>>
    decreases items,
{
    Seq::new(
        items.len(),
        |i: int|
            if 0 <= i < items.len() {
                items[i].sql()
            } else {
                Seq::empty()
            },
    )
}

/// Each named value as its literal, ` AS ` and its name, in order.
pub open spec fn aliased(entries: Seq<(Seq<char>, ValueView)>) -> Seq<Seq<char>>
    decreases entries,
{
    Seq::new(
        entries.len(),
        |i: int|
            if 0 <= i < entries.len() {
                entries[i].1.sql() + " AS "@ + entries[i].0
            } else {
                Seq::empty()
            },
    )
}

/// Renders a value as a SQL literal.
#[verifier::loop_isolation(false)]
pub fn sql_render_value(value: &Value) -> (out: String)
    ensures
        out@ == value@.sql(),
    decreases value,
{
    match value {
        Value::Null => String::from_str("NULL"),
        Value::Bool(b) => if *b {
            String::from_str("true")
        } else {
            String::from_str("false")
        },
        Value::Number(n) => n.to_string(),
        Value::String(s) => {
            let mut out = String::new();
            out.push('\'');
            push_escaped(&mut out, s.as_str());
            out.push('\'');
            assert(out@ =~= quoted(s@));
            out
        },
        Value::Array(items) => {
            let mut parts: Vec<String> = Vec::new();
            let mut i: usize = 0;
            while i < items.len()
                invariant
                    i <= items.len(),
                    parts.len() == i,
                    forall|k: int| 0 <= k < i ==> parts[k]@ == (#[trigger] items[k])@.sql(),
                decreases items.len() - i,
            {
                parts.push(sql_render_value(&items[i]));
                i = i + 1;
            }
            let inner = join_strings(&parts, ", ");
            let mut out = String::from_str("( ");
            out.append(inner.as_str());
            out.append(" )");
            proof {
                assert(parts.deep_view() =~= literals(value@->Array_0));
            }
            out
        },
        Value::Object(entries) => {
            let mut parts: Vec<String> = Vec::new();
            let mut i: usize = 0;
            while i < entries.len()
                invariant
                    i <= entries.len(),
                    parts.len() == i,
                    forall|k: int|
                        0 <= k < i ==> parts[k]@ == (#[trigger] entries[k]).1@.sql() + " AS "@
                            + entries[k].0@,
                decreases entries.len() - i,
            {
                let mut part = sql_render_value(&entries[i].1);
                part.append(" AS ");
                part.append(entries[i].0.as_str());
                parts.push(part);
                i = i + 1;
            }
            let inner = join_strings(&parts, ", ");
            let mut out = String::from_str("( ");
            out.append(inner.as_str());
            out.append(" )");
            proof {
                assert(parts.deep_view() =~= aliased(value@->Object_0));
            }
            out
        },
    }
}

} // verus!
