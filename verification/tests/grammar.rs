use nix_parser::grammar::BinaryOperation;
use nix_parser::grammar::Binding;
use nix_parser::grammar::BindingKeyValue;
use nix_parser::grammar::Expression;
use nix_parser::grammar::ExpressionKind;
use nix_parser::grammar::FunctionHead;
use nix_parser::grammar::FunctionHeadDestructured;
use nix_parser::grammar::FunctionHeadDestructuredArgument;
use nix_parser::grammar::Function;
use nix_parser::grammar::Identifier;
use nix_parser::grammar::Integer;
use nix_parser::grammar::MapExpression;
use nix_parser::grammar::Operator;
use nix_parser::grammar::Part;
use nix_parser::grammar::PartRaw;
use nix_parser::grammar::Position;
use nix_parser::grammar::Span;

fn span_at(line: i64, from_column: i64, to_column: i64) -> Span {
    Span::new(
        Position::new(line, from_column),
        Position::new(line, to_column),
    )
}

#[test]
fn position_ordering_is_line_then_column() {
    let early = Position::new(1, 9);
    let late = Position::new(2, 1);
    assert!(early.le(&late));
    assert!(!late.le(&early));
    let same_line = Position::new(1, 12);
    assert!(early.le(&same_line));
    assert!(early.le(&early));
}

#[test]
fn constructed_spans_are_ordered() {
    let s = span_at(3, 5, 11);
    assert_eq!(s.start, Position::new(3, 5));
    assert_eq!(s.end, Position::new(3, 11));
    assert!(s.start.le(&s.end));
    let multi_line = Span::new(Position::new(1, 40), Position::new(4, 2));
    assert!(multi_line.start.le(&multi_line.end));
}

#[test]
fn leaves_store_their_fields() {
    let id = Identifier::new("name".to_string(), span_at(1, 1, 5));
    assert_eq!(id.id, "name");
    assert_eq!(id.span, span_at(1, 1, 5));
    let n = Integer::new("0xdeadbeef1234567890".to_string(), span_at(2, 1, 21));
    assert_eq!(n.value, "0xdeadbeef1234567890");
}

#[test]
fn binary_operation_holds_children() {
    let left = Expression::Integer(Integer::new("1".to_string(), span_at(1, 1, 2)));
    let right = Expression::Integer(Integer::new("2".to_string(), span_at(1, 5, 6)));
    let node = BinaryOperation::new(left, Operator::Addition, right, span_at(1, 1, 6));
    assert_eq!(node.operator, Operator::Addition);
    assert_eq!(node.span, span_at(1, 1, 6));
    let e = Expression::BinaryOperation(node);
    assert_eq!(e.kind(), ExpressionKind::BinaryOperation);
    assert_eq!(*e.span(), span_at(1, 1, 6));
}

#[test]
fn kind_discriminates_variants() {
    let map = Expression::MapExpression(MapExpression::new(true, vec![], span_at(1, 1, 8)));
    assert_eq!(map.kind(), ExpressionKind::MapExpression);
    let id = Expression::Identifier(Identifier::new("x".to_string(), span_at(1, 1, 2)));
    assert_eq!(id.kind(), ExpressionKind::Identifier);
    assert_ne!(map.kind(), id.kind());
}

#[test]
fn map_keeps_binding_declaration_order() {
    let binding = |name: &str, digits: &str, col: i64| {
        Binding::KeyValue(BindingKeyValue::new(
            vec![Part::Raw(PartRaw::new(name.to_string(), span_at(1, col, col + 1)))],
            Expression::Integer(Integer::new(digits.to_string(), span_at(1, col + 4, col + 5))),
        ))
    };
    let map = MapExpression::new(
        false,
        vec![binding("b", "1", 3), binding("a", "2", 10), binding("b", "3", 17)],
        span_at(1, 1, 24),
    );
    let names: Vec<String> = map
        .bindings
        .iter()
        .map(|b| match b {
            Binding::KeyValue(kv) => match &kv.from_[0] {
                Part::Raw(raw) => raw.content.clone(),
                _ => panic!("expected a raw part"),
            },
            _ => panic!("expected a key-value binding"),
        })
        .collect();
    assert_eq!(names, vec!["b".to_string(), "a".to_string(), "b".to_string()]);
}

#[test]
fn destructured_head_carries_arguments_and_ellipsis() {
    let default_expr = Expression::Integer(Integer::new("3".to_string(), span_at(1, 12, 13)));
    let args = vec![
        FunctionHeadDestructuredArgument::new("x".to_string(), None),
        FunctionHeadDestructuredArgument::new("y".to_string(), Some(default_expr)),
    ];
    let head = FunctionHeadDestructured::new(true, None, args, span_at(1, 1, 16));
    assert!(head.ellipsis);
    assert_eq!(head.identifier, None);
    assert_eq!(head.arguments.len(), 2);
    assert_eq!(head.arguments[0].identifier, "x");
    assert!(head.arguments[0].default.is_none());
    assert!(head.arguments[1].default.is_some());
    let body = Expression::Identifier(Identifier::new("x".to_string(), span_at(1, 18, 19)));
    let f = Function::new(FunctionHead::Destructured(head), body, span_at(1, 1, 19));
    let e = Expression::Function(f);
    assert_eq!(e.kind(), ExpressionKind::Function);
}

#[test]
fn operators_are_distinct_discriminants() {
    let all = [
        Operator::Addition,
        Operator::Subtraction,
        Operator::Multiplication,
        Operator::Division,
        Operator::Concatenation,
        Operator::Update,
        Operator::EqualTo,
        Operator::NotEqualTo,
        Operator::LessThan,
        Operator::LessThanOrEqualTo,
        Operator::GreaterThan,
        Operator::GreaterThanOrEqualTo,
        Operator::LogicalAnd,
        Operator::LogicalOr,
        Operator::Implication,
        Operator::Not,
        Operator::Negate,
    ];
    for (i, a) in all.iter().enumerate() {
        for (j, b) in all.iter().enumerate() {
            assert_eq!(a == b, i == j);
        }
    }
}
