use riwaq::sql::filter::FilterItemView;
use riwaq::sql::FilterItem;
use riwaq::sql::FilterStmt;
use riwaq::sql::Number;
use riwaq::sql::SQLFilterTrait;
use riwaq::sql::Value;

fn text(s: &str) -> Value {
    Value::String(s.to_string())
}

fn num(n: u64) -> Value {
    Value::Number(Number::PosInt(n))
}

fn eq(col: &str, value: Value) -> FilterItem {
    FilterItem::Eq { col: col.to_string(), value }
}

fn leaf(col: &str, n: u64) -> FilterStmt<FilterItem> {
    FilterStmt::Filter(eq(col, num(n)))
}

#[test]
fn eq_renders_with_one_equals_sign() {
    assert_eq!(eq("status", text("active")).to_string(), "status = 'active'");
}

#[test]
fn ne_renders_with_angle_brackets() {
    let item = FilterItem::Ne { col: "age".to_string(), value: num(3) };
    assert_eq!(item.to_string(), "age <> 3");
}

#[test]
fn comparisons_render_their_operator() {
    let gt = FilterItem::Gt { col: "age".to_string(), value: num(18) };
    let gte = FilterItem::Gte { col: "age".to_string(), value: num(18) };
    let lt = FilterItem::Lt { col: "age".to_string(), value: num(65) };
    let lte = FilterItem::Lte { col: "age".to_string(), value: num(65) };
    assert_eq!(gt.to_string(), "age > 18");
    assert_eq!(gte.to_string(), "age >= 18");
    assert_eq!(lt.to_string(), "age < 65");
    assert_eq!(lte.to_string(), "age <= 65");
}

#[test]
fn in_and_nin_render_alike() {
    let within = FilterItem::In { col: "id".to_string(), values: vec![num(1), num(2)] };
    let without = FilterItem::Nin { col: "id".to_string(), values: vec![num(1), num(2)] };
    assert_eq!(within.to_string(), "id in (1, 2)");
    assert_eq!(without.to_string(), "id in (1, 2)");
    assert_eq!(within.to_string(), without.to_string());
}

#[test]
fn in_with_no_value_renders_empty_brackets() {
    let item = FilterItem::In { col: "id".to_string(), values: vec![] };
    assert_eq!(item.to_string(), "id in ()");
}

#[test]
fn in_with_strings_quotes_each() {
    let item = FilterItem::In {
        col: "name".to_string(),
        values: vec![text("a"), text("b'c"), Value::Null],
    };
    assert_eq!(item.to_string(), "name in ('a', 'b\\'c', NULL)");
}

#[test]
fn between_renders_both_ends_in_brackets() {
    let item = FilterItem::Between {
        col: "age".to_string(),
        start: num(18),
        end: Value::Number(Number::NegInt(-1)),
    };
    assert_eq!(item.to_string(), "age between (18, -1)");
}

#[test]
fn like_takes_its_pattern_as_it_is() {
    let item = FilterItem::Like { col: "name".to_string(), expr: "'jo%'".to_string() };
    assert_eq!(item.to_string(), "name like 'jo%'");
    let bare = FilterItem::Like { col: "name".to_string(), expr: "jo'%\\".to_string() };
    assert_eq!(bare.to_string(), "name like jo'%\\");
}

#[test]
fn null_checks_render_in_capitals() {
    let null = FilterItem::IsNull { col: "deleted_at".to_string() };
    let not_null = FilterItem::IsNotNull { col: "deleted_at".to_string() };
    assert_eq!(null.to_string(), "deleted_at IS NULL");
    assert_eq!(not_null.to_string(), "deleted_at IS NOT NULL");
}

#[test]
fn column_names_are_not_quoted() {
    assert_eq!(eq("my col'", num(1)).to_string(), "my col' = 1");
}

#[test]
fn a_predicate_gives_itself_as_its_filter() {
    let item = FilterItem::Between { col: "n".to_string(), start: num(1), end: text("z") };
    assert_eq!(item.get_filter().to_string(), "n between (1, 'z')");
    let list = FilterItem::Nin { col: "n".to_string(), values: vec![num(1), text("z")] };
    assert_eq!(format!("{:?}", list.get_filter()), format!("{:?}", list));
}

#[test]
fn a_leaf_renders_bare() {
    assert_eq!(leaf("a", 1).to_string(), "a = 1");
}

#[test]
fn groups_render_in_brackets() {
    let all = FilterStmt::And(vec![leaf("a", 1), leaf("b", 2), leaf("c", 3)]);
    let any = FilterStmt::Or(vec![leaf("a", 1), leaf("b", 2)]);
    assert_eq!(all.to_string(), "(a = 1 AND b = 2 AND c = 3)");
    assert_eq!(any.to_string(), "(a = 1 OR b = 2)");
}

#[test]
fn an_empty_group_renders_empty_brackets() {
    let all: FilterStmt<FilterItem> = FilterStmt::And(vec![]);
    let any: FilterStmt<FilterItem> = FilterStmt::Or(vec![]);
    assert_eq!(all.to_string(), "()");
    assert_eq!(any.to_string(), "()");
}

#[test]
fn a_group_of_one_renders_without_a_joiner() {
    assert_eq!(FilterStmt::And(vec![leaf("a", 1)]).to_string(), "(a = 1)");
    assert_eq!(FilterStmt::Or(vec![leaf("a", 1)]).to_string(), "(a = 1)");
}

#[test]
fn and_on_a_leaf_makes_a_group_of_two() {
    let tree = leaf("a", 1).and(eq("b", num(2)));
    assert!(matches!(&tree, FilterStmt::And(children) if children.len() == 2));
    assert_eq!(tree.to_string(), "(a = 1 AND b = 2)");
}

#[test]
fn and_on_an_and_group_adds_a_child() {
    let tree = FilterStmt::And(vec![leaf("a", 1), leaf("b", 2)]).and(eq("c", num(3)));
    match &tree {
        FilterStmt::And(children) => {
            assert_eq!(children.len(), 3);
            assert!(children.iter().all(|child| matches!(child, FilterStmt::Filter(_))));
        }
        _ => panic!("an AND group was expected"),
    }
    assert_eq!(tree.to_string(), "(a = 1 AND b = 2 AND c = 3)");
}

#[test]
fn and_twice_on_a_leaf_stays_flat() {
    let tree = leaf("x", 0).and(eq("y", num(1))).and(eq("z", num(2)));
    match &tree {
        FilterStmt::And(children) => {
            assert_eq!(children.len(), 3);
            assert!(children.iter().all(|child| matches!(child, FilterStmt::Filter(_))));
        }
        _ => panic!("an AND group was expected"),
    }
    assert_eq!(tree.to_string(), "(x = 0 AND y = 1 AND z = 2)");
}

#[test]
fn and_on_an_or_group_wraps_it() {
    let tree = FilterStmt::Or(vec![leaf("a", 1), leaf("b", 2)]).and(eq("c", num(3)));
    match &tree {
        FilterStmt::And(children) => {
            assert_eq!(children.len(), 2);
            assert!(matches!(&children[0], FilterStmt::Or(inner) if inner.len() == 2));
            assert!(matches!(&children[1], FilterStmt::Filter(_)));
        }
        _ => panic!("an AND group was expected"),
    }
    assert_eq!(tree.to_string(), "((a = 1 OR b = 2) AND c = 3)");
}

#[test]
fn and_on_an_empty_and_group_gives_a_group_of_one() {
    let empty: FilterStmt<FilterItem> = FilterStmt::And(vec![]);
    assert_eq!(empty.and(eq("a", num(1))).to_string(), "(a = 1)");
}

#[test]
fn or_on_a_leaf_makes_a_group_of_two() {
    let tree = leaf("a", 1).or(eq("b", num(2)));
    assert!(matches!(&tree, FilterStmt::Or(children) if children.len() == 2));
    assert_eq!(tree.to_string(), "(a = 1 OR b = 2)");
}

#[test]
fn or_on_an_or_group_adds_a_child() {
    let tree = FilterStmt::Or(vec![leaf("a", 1), leaf("b", 2)]).or(eq("c", num(3)));
    assert!(matches!(&tree, FilterStmt::Or(children) if children.len() == 3));
    assert_eq!(tree.to_string(), "(a = 1 OR b = 2 OR c = 3)");
}

#[test]
fn or_twice_on_a_leaf_stays_flat() {
    let tree = leaf("x", 0).or(eq("y", num(1))).or(eq("z", num(2)));
    assert!(matches!(&tree, FilterStmt::Or(children) if children.len() == 3));
    assert_eq!(tree.to_string(), "(x = 0 OR y = 1 OR z = 2)");
}

#[test]
fn or_on_an_and_group_wraps_it() {
    let tree = FilterStmt::And(vec![leaf("a", 1), leaf("b", 2)]).or(eq("c", num(3)));
    match &tree {
        FilterStmt::Or(children) => {
            assert_eq!(children.len(), 2);
            assert!(matches!(&children[0], FilterStmt::And(inner) if inner.len() == 2));
            assert!(matches!(&children[1], FilterStmt::Filter(_)));
        }
        _ => panic!("an OR group was expected"),
    }
    assert_eq!(tree.to_string(), "((a = 1 AND b = 2) OR c = 3)");
}

#[test]
fn kinds_alternate_one_level_at_a_time() {
    let tree = leaf("a", 1)
        .and(eq("b", num(2)))
        .or(eq("c", num(3)))
        .and(eq("d", num(4)))
        .and(eq("e", num(5)));
    assert_eq!(tree.to_string(), "(((a = 1 AND b = 2) OR c = 3) AND d = 4 AND e = 5)");
}

#[test]
fn and_all_on_an_and_group_adds_the_batch() {
    let tree = FilterStmt::And(vec![leaf("a", 1)]).and_all(vec![eq("b", num(2)), eq("c", num(3))]);
    assert!(matches!(&tree, FilterStmt::And(children) if children.len() == 3));
    assert_eq!(tree.to_string(), "(a = 1 AND b = 2 AND c = 3)");
}

#[test]
fn and_all_on_an_or_group_wraps_it() {
    let tree = FilterStmt::Or(vec![leaf("a", 1), leaf("b", 2)])
        .and_all(vec![eq("c", num(3)), eq("d", num(4))]);
    assert!(matches!(&tree, FilterStmt::And(children) if children.len() == 3));
    assert_eq!(tree.to_string(), "((a = 1 OR b = 2) AND c = 3 AND d = 4)");
}

#[test]
fn and_all_on_a_leaf_puts_the_leaf_first() {
    let tree = leaf("a", 1).and_all(vec![eq("b", num(2)), eq("c", num(3))]);
    assert!(matches!(&tree, FilterStmt::And(children) if children.len() == 3));
    assert_eq!(tree.to_string(), "(a = 1 AND b = 2 AND c = 3)");
}

#[test]
fn and_all_with_an_empty_batch_still_groups() {
    let tree = leaf("a", 1).and_all(vec![]);
    assert!(matches!(&tree, FilterStmt::And(children) if children.len() == 1));
    assert_eq!(tree.to_string(), "(a = 1)");
}

#[test]
fn and_all_is_and_one_after_another() {
    let batch = leaf("a", 1).and_all(vec![eq("b", num(2)), eq("c", num(3))]);
    let steps = leaf("a", 1).and(eq("b", num(2))).and(eq("c", num(3)));
    assert_eq!(format!("{:?}", batch), format!("{:?}", steps));
}

#[test]
fn or_any_on_an_or_group_adds_the_batch() {
    let tree = FilterStmt::Or(vec![leaf("a", 1)]).or_any(vec![eq("b", num(2)), eq("c", num(3))]);
    assert!(matches!(&tree, FilterStmt::Or(children) if children.len() == 3));
    assert_eq!(tree.to_string(), "(a = 1 OR b = 2 OR c = 3)");
}

#[test]
fn or_any_on_an_and_group_wraps_it() {
    let tree = FilterStmt::And(vec![leaf("a", 1), leaf("b", 2)])
        .or_any(vec![eq("c", num(3)), eq("d", num(4))]);
    assert!(matches!(&tree, FilterStmt::Or(children) if children.len() == 3));
    assert_eq!(tree.to_string(), "((a = 1 AND b = 2) OR c = 3 OR d = 4)");
}

#[test]
fn or_any_on_a_leaf_puts_the_leaf_first() {
    let tree = leaf("a", 1).or_any(vec![eq("b", num(2))]);
    assert!(matches!(&tree, FilterStmt::Or(children) if children.len() == 2));
    assert_eq!(tree.to_string(), "(a = 1 OR b = 2)");
}

#[test]
fn or_any_is_or_one_after_another() {
    let batch = leaf("a", 1).or_any(vec![eq("b", num(2)), eq("c", num(3))]);
    let steps = leaf("a", 1).or(eq("b", num(2))).or(eq("c", num(3)));
    assert_eq!(format!("{:?}", batch), format!("{:?}", steps));
}

#[test]
fn and_extends_the_text_of_the_tree() {
    let added = eq("z", text("new"));
    let added_text = added.to_string();

    let group = FilterStmt::And(vec![leaf("a", 1), leaf("b", 2)]);
    let before = group.to_string();
    let after = group.and(added.clone()).to_string();
    let inside = &before[1..before.len() - 1];
    assert_eq!(after, format!("({} AND {})", inside, added_text));

    let other = FilterStmt::Or(vec![leaf("a", 1), leaf("b", 2)]);
    let before = other.to_string();
    let after = other.and(added.clone()).to_string();
    assert_eq!(after, format!("({} AND {})", before, added_text));

    let single = leaf("a", 1);
    let before = single.to_string();
    let after = single.and(added).to_string();
    assert_eq!(after, format!("({} AND {})", before, added_text));
}

#[test]
fn a_cloned_tree_renders_as_the_tree() {
    let tree = leaf("a", 1)
        .and(eq("b", text("x'y")))
        .or(FilterItem::In { col: "c".to_string(), values: vec![num(1), num(2)] });
    let copy = tree.clone();
    assert_eq!(copy.to_string(), tree.to_string());
    assert_eq!(copy.to_string(), "((a = 1 AND b = 'x\\'y') OR c in (1, 2))");
}

/// A typed filter of a record: people of at least an age.
#[derive(Debug, Clone)]
struct AtLeast(u64);

impl SQLFilterTrait for AtLeast {
    // Ghost: it names the predicate in contracts and is never run.
    fn filter(&self) -> FilterItemView {
        unreachable!()
    }

    fn get_filter(&self) -> FilterItem {
        FilterItem::Gte { col: "age".to_string(), value: num(self.0) }
    }
}

#[test]
fn a_typed_filter_renders_as_its_predicate() {
    let tree = FilterStmt::Filter(AtLeast(18)).and(AtLeast(21)).or(AtLeast(65));
    assert_eq!(tree.to_string(), "((age >= 18 AND age >= 21) OR age >= 65)");
    let batch = FilterStmt::Filter(AtLeast(1)).and_all(vec![AtLeast(2), AtLeast(3)]);
    assert_eq!(batch.to_string(), "(age >= 1 AND age >= 2 AND age >= 3)");
}
