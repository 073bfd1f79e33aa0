//! The typed node model of the expression language: source positions and
//! spans, scalar leaves, operators, function heads, string parts, bindings,
//! and the recursive expression sum type.
//!
//! Nodes are constructed bottom-up and are immutable afterwards; every node
//! owns exactly one span, set at construction, and owns its children
//! exclusively, so the tree is acyclic. Well-formedness of a node means that
//! every span in it is ordered (start precedes or equals end in
//! line-then-column order), positions are one-based, and identifiers are
//! non-empty. No lexical validation happens here: the digits of an `Integer`
//! or `Float` are stored as the original source text, never parsed to a
//! numeric type, so arbitrary-length literals lose no precision.

use vstd::prelude::*;

verus! {

/// A one-based line/column source position.
#[derive(Debug, Clone, Copy, PartialEq, Eq, Structural)]
pub struct Position {
    pub line: i64,
    pub column: i64,
}

impl Position {
    /// Line-then-column order: `self` is at or before `other`.
    pub open spec fn spec_le(self, other: Position) -> bool {
        self.line < other.line || (self.line == other.line && self.column <= other.column)
    }

    /// Positions are one-based.
    pub open spec fn wf(self) -> bool {
        1 <= self.line && 1 <= self.column
    }

    pub fn new(line: i64, column: i64) -> (r: Self)
        requires
            1 <= line,
            1 <= column,
        ensures
            r == (Position { line, column }),
            r.wf(),
    {
        Position { line, column }
    }

    /// Decides line-then-column order.
    pub fn le(&self, other: &Position) -> (r: bool)
        ensures
            r == self.spec_le(*other),
    {
        self.line < other.line || (self.line == other.line && self.column <= other.column)
    }
}

/// The start/end position pair delimiting a node's source text.
#[derive(Debug, Clone, Copy, PartialEq, Eq, Structural)]
pub struct Span {
    pub start: Position,
    pub end: Position,
}

impl Span {
    /// The start precedes or equals the end, and both positions are one-based.
    pub open spec fn wf(self) -> bool {
        self.start.wf() && self.end.wf() && self.start.spec_le(self.end)
    }

    pub fn new(start: Position, end: Position) -> (r: Self)
        requires
            start.wf(),
            end.wf(),
            start.spec_le(end),
        ensures
            r == (Span { start, end }),
            r.wf(),
    {
        Span { start, end }
    }
}

/// The operators of the language: pure discriminants without payload.
#[derive(Debug, Clone, Copy, PartialEq, Eq, Structural)]
pub enum Operator {
    Addition,
    Subtraction,
    Multiplication,
    Division,
    Concatenation,
    Update,
    EqualTo,
    NotEqualTo,
    LessThan,
    LessThanOrEqualTo,
    GreaterThan,
    GreaterThanOrEqualTo,
    LogicalAnd,
    LogicalOr,
    Implication,
    Not,
    Negate,
}

/// A name occurring in the source.
#[derive(Debug, Clone, PartialEq, Eq)]
pub struct Identifier {
    pub id: String,
    pub span: Span,
}

impl Identifier {
    /// The name is non-empty and the span is ordered.
    pub open spec fn wf(self) -> bool {
        self.id@.len() > 0 && self.span.wf()
    }

    pub fn new(id: String, span: Span) -> (r: Self)
        requires
            id@.len() > 0,
            span.wf(),
        ensures
            r == (Identifier { id, span }),
            r.wf(),
    {
        Identifier { id, span }
    }
}

/// A placeholder marking a malformed subtree; parsing continues around it,
/// so one tree may embed several.
#[derive(Debug, Clone, PartialEq, Eq)]
pub struct Error {
    pub message: String,
    pub span: Span,
}

impl Error {
    pub open spec fn wf(self) -> bool {
        self.span.wf()
    }

    pub fn new(message: String, span: Span) -> (r: Self)
        requires
            span.wf(),
        ensures
            r == (Error { message, span }),
            r.wf(),
    {
        Error { message, span }
    }
}

/// A float literal, stored as the original source digits.
#[derive(Debug, Clone, PartialEq, Eq)]
pub struct Float {
    pub value: String,
    pub span: Span,
}

impl Float {
    pub open spec fn wf(self) -> bool {
        self.span.wf()
    }

    pub fn new(value: String, span: Span) -> (r: Self)
        requires
            span.wf(),
        ensures
            r == (Float { value, span }),
            r.wf(),
    {
        Float { value, span }
    }
}

/// An integer literal, stored as the original source digits.
#[derive(Debug, Clone, PartialEq, Eq)]
pub struct Integer {
    pub value: String,
    pub span: Span,
}

impl Integer {
    pub open spec fn wf(self) -> bool {
        self.span.wf()
    }

    pub fn new(value: String, span: Span) -> (r: Self)
        requires
            span.wf(),
        ensures
            r == (Integer { value, span }),
            r.wf(),
    {
        Integer { value, span }
    }
}

/// A literal fragment of a string, path or URI.
#[derive(Debug, PartialEq, Eq)]
pub struct PartRaw {
    pub content: String,
    pub span: Span,
}

impl PartRaw {
    pub open spec fn wf(self) -> bool {
        self.span.wf()
    }

    pub fn new(content: String, span: Span) -> (r: Self)
        requires
            span.wf(),
        ensures
            r == (PartRaw { content, span }),
            r.wf(),
    {
        PartRaw { content, span }
    }
}

/// An interpolated fragment of a string, path or URI.
#[derive(Debug, PartialEq, Eq)]
pub struct PartInterpolation {
    pub expression: Box<Expression>,
    pub span: Span,
}

impl PartInterpolation {
    pub open spec fn wf(self) -> bool
        decreases self, 0int,
    {
        self.span.wf() && (*self.expression).wf()
    }

    pub fn new(expression: Expression, span: Span) -> (r: Self)
        requires
            expression.wf(),
            span.wf(),
        ensures
            *r.expression == expression,
            r.span == span,
            r.wf(),
    {
        PartInterpolation { expression: Box::new(expression), span }
    }
}

/// A fragment of a string, path or URI: raw text or an interpolation.
#[derive(Debug, PartialEq, Eq)]
pub enum Part {
    Raw(PartRaw),
    Interpolation(PartInterpolation),
}

impl Part {
    pub open spec fn wf(self) -> bool
        decreases self, 0int,
    {
        match self {
            Part::Raw(n) => n.wf(),
            Part::Interpolation(n) => n.wf(),
        }
    }
}

/// Every part of `s[i..]` is well-formed.
pub open spec fn parts_wf(s: Seq<Part>, i: int) -> bool
    decreases s, s.len() - i,
{
    if 0 <= i < s.len() {
        s[i].wf() && parts_wf(s, i + 1)
    } else {
        true
    }
}

/// One named argument of a destructured function head, with an optional
/// default expression.
#[derive(Debug, PartialEq, Eq)]
pub struct FunctionHeadDestructuredArgument {
    pub identifier: String,
    pub default: Option<Expression>,
}

impl FunctionHeadDestructuredArgument {
    pub open spec fn wf(self) -> bool
        decreases self, 0int,
    {
        match self.default {
            Some(e) => e.wf(),
            None => true,
        }
    }

    pub fn new(identifier: String, default: Option<Expression>) -> (r: Self)
        requires
            match default {
                Some(e) => e.wf(),
                None => true,
            },
        ensures
            r == (FunctionHeadDestructuredArgument { identifier, default }),
            r.wf(),
    {
        FunctionHeadDestructuredArgument { identifier, default }
    }
}

/// Every argument of `s[i..]` is well-formed.
pub open spec fn args_wf(s: Seq<FunctionHeadDestructuredArgument>, i: int) -> bool
    decreases s, s.len() - i,
{
    if 0 <= i < s.len() {
        s[i].wf() && args_wf(s, i + 1)
    } else {
        true
    }
}

/// A destructuring function head: named arguments with optional defaults, an
/// optional binding for the whole argument, and an ellipsis flag.
#[derive(Debug, PartialEq, Eq)]
pub struct FunctionHeadDestructured {
    pub ellipsis: bool,
    pub identifier: Option<Identifier>,
    pub arguments: Vec<FunctionHeadDestructuredArgument>,
    pub span: Span,
}

impl FunctionHeadDestructured {
    pub open spec fn wf(self) -> bool
        decreases self, 0int,
    {
        &&& self.span.wf()
        &&& match self.identifier {
            Some(id) => id.wf(),
            None => true,
        }
        &&& args_wf(self.arguments@, 0)
    }

    pub fn new(
        ellipsis: bool,
        identifier: Option<Identifier>,
        arguments: Vec<FunctionHeadDestructuredArgument>,
        span: Span,
    ) -> (r: Self)
        requires
            match identifier {
                Some(id) => id.wf(),
                None => true,
            },
            args_wf(arguments@, 0),
            span.wf(),
        ensures
            r == (FunctionHeadDestructured { ellipsis, identifier, arguments, span }),
            r.wf(),
    {
        FunctionHeadDestructured { ellipsis, identifier, arguments, span }
    }
}

/// A simple function head: a single identifier.
#[derive(Debug, Clone, PartialEq, Eq)]
pub struct FunctionHeadSimple {
    pub identifier: Identifier,
    pub span: Span,
}

impl FunctionHeadSimple {
    pub open spec fn wf(self) -> bool {
        self.identifier.wf() && self.span.wf()
    }

    pub fn new(identifier: Identifier, span: Span) -> (r: Self)
        requires
            identifier.wf(),
            span.wf(),
        ensures
            r == (FunctionHeadSimple { identifier, span }),
            r.wf(),
    {
        FunctionHeadSimple { identifier, span }
    }
}

/// A function head: simple or destructured.
#[derive(Debug, PartialEq, Eq)]
pub enum FunctionHead {
    Simple(FunctionHeadSimple),
    Destructured(FunctionHeadDestructured),
}

impl FunctionHead {
    pub open spec fn wf(self) -> bool
        decreases self, 0int,
    {
        match self {
            FunctionHead::Simple(n) => n.wf(),
            FunctionHead::Destructured(n) => n.wf(),
        }
    }
}

/// A function abstraction: a head and a body.
#[derive(Debug, PartialEq, Eq)]
pub struct Function {
    pub head: FunctionHead,
    pub body: Box<Expression>,
    pub span: Span,
}

impl Function {
    pub open spec fn wf(self) -> bool
        decreases self, 0int,
    {
        self.span.wf() && self.head.wf() && (*self.body).wf()
    }

    pub fn new(head: FunctionHead, body: Expression, span: Span) -> (r: Self)
        requires
            head.wf(),
            body.wf(),
            span.wf(),
        ensures
            r.head == head,
            *r.body == body,
            r.span == span,
            r.wf(),
    {
        Function { head, body: Box::new(body), span }
    }
}

/// An application of a function to an argument.
#[derive(Debug, PartialEq, Eq)]
pub struct FunctionApplication {
    pub function: Box<Expression>,
    pub arguments: Box<Expression>,
    pub span: Span,
}

impl FunctionApplication {
    pub open spec fn wf(self) -> bool
        decreases self, 0int,
    {
        self.span.wf() && (*self.function).wf() && (*self.arguments).wf()
    }

    pub fn new(function: Expression, arguments: Expression, span: Span) -> (r: Self)
        requires
            function.wf(),
            arguments.wf(),
            span.wf(),
        ensures
            *r.function == function,
            *r.arguments == arguments,
            r.span == span,
            r.wf(),
    {
        FunctionApplication { function: Box::new(function), arguments: Box::new(arguments), span }
    }
}

/// A binary operation on two subexpressions.
#[derive(Debug, PartialEq, Eq)]
pub struct BinaryOperation {
    pub left: Box<Expression>,
    pub operator: Operator,
    pub right: Box<Expression>,
    pub span: Span,
}

impl BinaryOperation {
    pub open spec fn wf(self) -> bool
        decreases self, 0int,
    {
        self.span.wf() && (*self.left).wf() && (*self.right).wf()
    }

    pub fn new(left: Expression, operator: Operator, right: Expression, span: Span) -> (r: Self)
        requires
            left.wf(),
            right.wf(),
            span.wf(),
        ensures
            *r.left == left,
            r.operator == operator,
            *r.right == right,
            r.span == span,
            r.wf(),
    {
        BinaryOperation { left: Box::new(left), operator, right: Box::new(right), span }
    }
}

/// A unary operation on one subexpression.
#[derive(Debug, PartialEq, Eq)]
pub struct UnaryOperation {
    pub operator: Operator,
    pub operand: Box<Expression>,
    pub span: Span,
}

impl UnaryOperation {
    pub open spec fn wf(self) -> bool
        decreases self, 0int,
    {
        self.span.wf() && (*self.operand).wf()
    }

    pub fn new(operator: Operator, operand: Expression, span: Span) -> (r: Self)
        requires
            operand.wf(),
            span.wf(),
        ensures
            r.operator == operator,
            *r.operand == operand,
            r.span == span,
            r.wf(),
    {
        UnaryOperation { operator, operand: Box::new(operand), span }
    }
}

/// An assertion guarding a target expression.
#[derive(Debug, PartialEq, Eq)]
pub struct Assert {
    pub expression: Box<Expression>,
    pub target: Box<Expression>,
    pub span: Span,
}

impl Assert {
    pub open spec fn wf(self) -> bool
        decreases self, 0int,
    {
        self.span.wf() && (*self.expression).wf() && (*self.target).wf()
    }

    pub fn new(expression: Expression, target: Expression, span: Span) -> (r: Self)
        requires
            expression.wf(),
            target.wf(),
            span.wf(),
        ensures
            *r.expression == expression,
            *r.target == target,
            r.span == span,
            r.wf(),
    {
        Assert { expression: Box::new(expression), target: Box::new(target), span }
    }
}

/// Every expression of `s[i..]` is well-formed.
pub open spec fn exprs_wf(s: Seq<Expression>, i: int) -> bool
    decreases s, s.len() - i,
{
    if 0 <= i < s.len() {
        s[i].wf() && exprs_wf(s, i + 1)
    } else {
        true
    }
}

/// A test whether an expression carries an attribute path.
#[derive(Debug, PartialEq, Eq)]
pub struct HasAttribute {
    pub expression: Box<Expression>,
    pub attribute_path: Vec<Expression>,
    pub span: Span,
}

impl HasAttribute {
    pub open spec fn wf(self) -> bool
        decreases self, 0int,
    {
        self.span.wf() && (*self.expression).wf() && exprs_wf(self.attribute_path@, 0)
    }

    pub fn new(expression: Expression, attribute_path: Vec<Expression>, span: Span) -> (r: Self)
        requires
            expression.wf(),
            exprs_wf(attribute_path@, 0),
            span.wf(),
        ensures
            *r.expression == expression,
            r.attribute_path == attribute_path,
            r.span == span,
            r.wf(),
    {
        HasAttribute { expression: Box::new(expression), attribute_path, span }
    }
}

/// A string with indentation stripped, made of parts.
#[derive(Debug, PartialEq, Eq)]
pub struct IndentedString {
    pub parts: Vec<Part>,
    pub span: Span,
}

impl IndentedString {
    pub open spec fn wf(self) -> bool
        decreases self, 0int,
    {
        self.span.wf() && parts_wf(self.parts@, 0)
    }

    pub fn new(parts: Vec<Part>, span: Span) -> (r: Self)
        requires
            parts_wf(parts@, 0),
            span.wf(),
        ensures
            r == (IndentedString { parts, span }),
            r.wf(),
    {
        IndentedString { parts, span }
    }
}

/// A conditional expression.
#[derive(Debug, PartialEq, Eq)]
pub struct IfThenElse {
    pub predicate: Box<Expression>,
    pub then_: Box<Expression>,
    pub else_: Box<Expression>,
    pub span: Span,
}

impl IfThenElse {
    pub open spec fn wf(self) -> bool
        decreases self, 0int,
    {
        self.span.wf() && (*self.predicate).wf() && (*self.then_).wf() && (*self.else_).wf()
    }

    pub fn new(predicate: Expression, then_: Expression, else_: Expression, span: Span) -> (r: Self)
        requires
            predicate.wf(),
            then_.wf(),
            else_.wf(),
            span.wf(),
        ensures
            *r.predicate == predicate,
            *r.then_ == then_,
            *r.else_ == else_,
            r.span == span,
            r.wf(),
    {
        IfThenElse {
            predicate: Box::new(predicate),
            then_: Box::new(then_),
            else_: Box::new(else_),
            span,
        }
    }
}

/// A binding of one key path to a value expression.
#[derive(Debug, PartialEq, Eq)]
pub struct BindingKeyValue {
    pub from_: Vec<Part>,
    pub to: Box<Expression>,
}

impl BindingKeyValue {
    pub open spec fn wf(self) -> bool
        decreases self, 0int,
    {
        parts_wf(self.from_@, 0) && (*self.to).wf()
    }

    pub fn new(from_: Vec<Part>, to: Expression) -> (r: Self)
        requires
            parts_wf(from_@, 0),
            to.wf(),
        ensures
            r.from_ == from_,
            *r.to == to,
            r.wf(),
    {
        BindingKeyValue { from_, to: Box::new(to) }
    }
}

/// A binding importing named attributes from the enclosing scope or from an
/// explicit expression.
#[derive(Debug, PartialEq, Eq)]
pub struct BindingInherit {
    pub from_: Option<Box<Expression>>,
    pub attributes: Box<Expression>,
    pub span: Span,
}

impl BindingInherit {
    pub open spec fn wf(self) -> bool
        decreases self, 0int,
    {
        &&& self.span.wf()
        &&& match self.from_ {
            Some(e) => (*e).wf(),
            None => true,
        }
        &&& (*self.attributes).wf()
    }

    pub fn new(from_: Option<Expression>, attributes: Expression, span: Span) -> (r: Self)
        requires
            match from_ {
                Some(e) => e.wf(),
                None => true,
            },
            attributes.wf(),
            span.wf(),
        ensures
            match (r.from_, from_) {
                (Some(b), Some(e)) => *b == e,
                (None, None) => true,
                _ => false,
            },
            *r.attributes == attributes,
            r.span == span,
            r.wf(),
    {
        let boxed_from = match from_ {
            Some(e) => Some(Box::new(e)),
            None => None,
        };
        BindingInherit { from_: boxed_from, attributes: Box::new(attributes), span }
    }
}

/// A binding inside a map or a let-construct.
#[derive(Debug, PartialEq, Eq)]
pub enum Binding {
    KeyValue(BindingKeyValue),
    Inherit(BindingInherit),
}

impl Binding {
    pub open spec fn wf(self) -> bool
        decreases self, 0int,
    {
        match self {
            Binding::KeyValue(n) => n.wf(),
            Binding::Inherit(n) => n.wf(),
        }
    }
}

/// Every binding of `s[i..]` is well-formed.
pub open spec fn bindings_wf(s: Seq<Binding>, i: int) -> bool
    decreases s, s.len() - i,
{
    if 0 <= i < s.len() {
        s[i].wf() && bindings_wf(s, i + 1)
    } else {
        true
    }
}

/// A let-construct: bindings in declaration order, then a target expression.
#[derive(Debug, PartialEq, Eq)]
pub struct LetIn {
    pub bindings: Vec<Binding>,
    pub target: Box<Expression>,
    pub span: Span,
}

impl LetIn {
    pub open spec fn wf(self) -> bool
        decreases self, 0int,
    {
        self.span.wf() && bindings_wf(self.bindings@, 0) && (*self.target).wf()
    }

    pub fn new(bindings: Vec<Binding>, target: Expression, span: Span) -> (r: Self)
        requires
            bindings_wf(bindings@, 0),
            target.wf(),
            span.wf(),
        ensures
            r.bindings == bindings,
            *r.target == target,
            r.span == span,
            r.wf(),
    {
        LetIn { bindings, target: Box::new(target), span }
    }
}

/// A list of expressions in element order.
#[derive(Debug, PartialEq, Eq)]
pub struct List {
    pub elements: Vec<Expression>,
    pub span: Span,
}

impl List {
    pub open spec fn wf(self) -> bool
        decreases self, 0int,
    {
        self.span.wf() && exprs_wf(self.elements@, 0)
    }

    pub fn new(elements: Vec<Expression>, span: Span) -> (r: Self)
        requires
            exprs_wf(elements@, 0),
            span.wf(),
        ensures
            r == (List { elements, span }),
            r.wf(),
    {
        List { elements, span }
    }
}

/// A map of bindings in declaration order, possibly recursive. Binding order
/// is preserved exactly as declared; no "last write wins" is ever applied
/// here.
#[derive(Debug, PartialEq, Eq)]
pub struct MapExpression {
    pub recursive: bool,
    pub bindings: Vec<Binding>,
    pub span: Span,
}

impl MapExpression {
    pub open spec fn wf(self) -> bool
        decreases self, 0int,
    {
        self.span.wf() && bindings_wf(self.bindings@, 0)
    }

    pub fn new(recursive: bool, bindings: Vec<Binding>, span: Span) -> (r: Self)
        requires
            bindings_wf(bindings@, 0),
            span.wf(),
        ensures
            r == (MapExpression { recursive, bindings, span }),
            r.wf(),
    {
        MapExpression { recursive, bindings, span }
    }
}

/// A filesystem path, made of parts.
#[derive(Debug, PartialEq, Eq)]
pub struct Path {
    pub parts: Vec<Part>,
    pub span: Span,
}

impl Path {
    pub open spec fn wf(self) -> bool
        decreases self, 0int,
    {
        self.span.wf() && parts_wf(self.parts@, 0)
    }

    pub fn new(parts: Vec<Part>, span: Span) -> (r: Self)
        requires
            parts_wf(parts@, 0),
            span.wf(),
        ensures
            r == (Path { parts, span }),
            r.wf(),
    {
        Path { parts, span }
    }
}

/// A URI literal.
#[derive(Debug, Clone, PartialEq, Eq)]
pub struct Uri {
    pub uri: String,
    pub span: Span,
}

impl Uri {
    pub open spec fn wf(self) -> bool {
        self.span.wf()
    }

    pub fn new(uri: String, span: Span) -> (r: Self)
        requires
            span.wf(),
        ensures
            r == (Uri { uri, span }),
            r.wf(),
    {
        Uri { uri, span }
    }
}

/// An attribute access, with an optional default expression.
#[derive(Debug, PartialEq, Eq)]
pub struct PropertyAccess {
    pub expression: Box<Expression>,
    pub attribute_path: Vec<Expression>,
    pub default: Option<Box<Expression>>,
    pub span: Span,
}

impl PropertyAccess {
    pub open spec fn wf(self) -> bool
        decreases self, 0int,
    {
        &&& self.span.wf()
        &&& (*self.expression).wf()
        &&& exprs_wf(self.attribute_path@, 0)
        &&& match self.default {
            Some(d) => (*d).wf(),
            None => true,
        }
    }

    pub fn new(
        expression: Expression,
        attribute_path: Vec<Expression>,
        default: Option<Expression>,
        span: Span,
    ) -> (r: Self)
        requires
            expression.wf(),
            exprs_wf(attribute_path@, 0),
            match default {
                Some(d) => d.wf(),
                None => true,
            },
            span.wf(),
        ensures
            *r.expression == expression,
            r.attribute_path == attribute_path,
            match (r.default, default) {
                (Some(b), Some(d)) => *b == d,
                (None, None) => true,
                _ => false,
            },
            r.span == span,
            r.wf(),
    {
        let boxed_default = match default {
            Some(d) => Some(Box::new(d)),
            None => None,
        };
        PropertyAccess {
            expression: Box::new(expression),
            attribute_path,
            default: boxed_default,
            span,
        }
    }
}

/// A lookup path literal resolved against the search path.
#[derive(Debug, Clone, PartialEq, Eq)]
pub struct SearchNixPath {
    pub path: String,
    pub span: Span,
}

impl SearchNixPath {
    pub open spec fn wf(self) -> bool {
        self.span.wf()
    }

    pub fn new(path: String, span: Span) -> (r: Self)
        requires
            span.wf(),
        ensures
            r == (SearchNixPath { path, span }),
            r.wf(),
    {
        SearchNixPath { path, span }
    }
}

/// An ordinary string, made of parts.
#[derive(Debug, PartialEq, Eq)]
pub struct NixString {
    pub parts: Vec<Part>,
    pub span: Span,
}

impl NixString {
    pub open spec fn wf(self) -> bool
        decreases self, 0int,
    {
        self.span.wf() && parts_wf(self.parts@, 0)
    }

    pub fn new(parts: Vec<Part>, span: Span) -> (r: Self)
        requires
            parts_wf(parts@, 0),
            span.wf(),
        ensures
            r == (NixString { parts, span }),
            r.wf(),
    {
        NixString { parts, span }
    }
}

/// A scope extension: evaluate the target with the expression's attributes
/// in scope.
#[derive(Debug, PartialEq, Eq)]
pub struct With {
    pub expression: Box<Expression>,
    pub target: Box<Expression>,
    pub span: Span,
}

impl With {
    pub open spec fn wf(self) -> bool
        decreases self, 0int,
    {
        self.span.wf() && (*self.expression).wf() && (*self.target).wf()
    }

    pub fn new(expression: Expression, target: Expression, span: Span) -> (r: Self)
        requires
            expression.wf(),
            target.wf(),
            span.wf(),
        ensures
            *r.expression == expression,
            *r.target == target,
            r.span == span,
            r.wf(),
    {
        With { expression: Box::new(expression), target: Box::new(target), span }
    }
}

/// The expression sum type: one variant per node kind.
#[derive(Debug, PartialEq, Eq)]
pub enum Expression {
    BinaryOperation(BinaryOperation),
    UnaryOperation(UnaryOperation),
    Assert(Assert),
    HasAttribute(HasAttribute),
    IfThenElse(IfThenElse),
    LetIn(LetIn),
    With(With),
    Function(Function),
    FunctionApplication(FunctionApplication),
    List(List),
    MapExpression(MapExpression),
    Path(Path),
    NixString(NixString),
    IndentedString(IndentedString),
    Uri(Uri),
    SearchNixPath(SearchNixPath),
    PropertyAccess(PropertyAccess),
    Identifier(Identifier),
    Integer(Integer),
    Float(Float),
    Error(Error),
}

/// The uniform variant discriminant of an [`Expression`], so that generic
/// consumers can exhaustively dispatch without prior knowledge of every
/// concrete shape.
#[derive(Debug, Clone, Copy, PartialEq, Eq, Structural)]
pub enum ExpressionKind {
    BinaryOperation,
    UnaryOperation,
    Assert,
    HasAttribute,
    IfThenElse,
    LetIn,
    With,
    Function,
    FunctionApplication,
    List,
    MapExpression,
    Path,
    NixString,
    IndentedString,
    Uri,
    SearchNixPath,
    PropertyAccess,
    Identifier,
    Integer,
    Float,
    Error,
}

impl Expression {
    /// Every node of the tree is well-formed.
    pub open spec fn wf(self) -> bool
        decreases self, 0int,
    {
        match self {
            Expression::BinaryOperation(n) => n.wf(),
            Expression::UnaryOperation(n) => n.wf(),
            Expression::Assert(n) => n.wf(),
            Expression::HasAttribute(n) => n.wf(),
            Expression::IfThenElse(n) => n.wf(),
            Expression::LetIn(n) => n.wf(),
            Expression::With(n) => n.wf(),
            Expression::Function(n) => n.wf(),
            Expression::FunctionApplication(n) => n.wf(),
            Expression::List(n) => n.wf(),
            Expression::MapExpression(n) => n.wf(),
            Expression::Path(n) => n.wf(),
            Expression::NixString(n) => n.wf(),
            Expression::IndentedString(n) => n.wf(),
            Expression::Uri(n) => n.wf(),
            Expression::SearchNixPath(n) => n.wf(),
            Expression::PropertyAccess(n) => n.wf(),
            Expression::Identifier(n) => n.wf(),
            Expression::Integer(n) => n.wf(),
            Expression::Float(n) => n.wf(),
            Expression::Error(n) => n.wf(),
        }
    }

    /// The discriminant of this node.
    pub open spec fn spec_kind(self) -> ExpressionKind {
        match self {
            Expression::BinaryOperation(_) => ExpressionKind::BinaryOperation,
            Expression::UnaryOperation(_) => ExpressionKind::UnaryOperation,
            Expression::Assert(_) => ExpressionKind::Assert,
            Expression::HasAttribute(_) => ExpressionKind::HasAttribute,
            Expression::IfThenElse(_) => ExpressionKind::IfThenElse,
            Expression::LetIn(_) => ExpressionKind::LetIn,
            Expression::With(_) => ExpressionKind::With,
            Expression::Function(_) => ExpressionKind::Function,
            Expression::FunctionApplication(_) => ExpressionKind::FunctionApplication,
            Expression::List(_) => ExpressionKind::List,
            Expression::MapExpression(_) => ExpressionKind::MapExpression,
            Expression::Path(_) => ExpressionKind::Path,
            Expression::NixString(_) => ExpressionKind::NixString,
            Expression::IndentedString(_) => ExpressionKind::IndentedString,
            Expression::Uri(_) => ExpressionKind::Uri,
            Expression::SearchNixPath(_) => ExpressionKind::SearchNixPath,
            Expression::PropertyAccess(_) => ExpressionKind::PropertyAccess,
            Expression::Identifier(_) => ExpressionKind::Identifier,
            Expression::Integer(_) => ExpressionKind::Integer,
            Expression::Float(_) => ExpressionKind::Float,
            Expression::Error(_) => ExpressionKind::Error,
        }
    }

    /// Hands out the discriminant of this node.
    pub fn kind(&self) -> (k: ExpressionKind)
        ensures
            k == self.spec_kind(),
    {
        match self {
            Expression::BinaryOperation(_) => ExpressionKind::BinaryOperation,
            Expression::UnaryOperation(_) => ExpressionKind::UnaryOperation,
            Expression::Assert(_) => ExpressionKind::Assert,
            Expression::HasAttribute(_) => ExpressionKind::HasAttribute,
            Expression::IfThenElse(_) => ExpressionKind::IfThenElse,
            Expression::LetIn(_) => ExpressionKind::LetIn,
            Expression::With(_) => ExpressionKind::With,
            Expression::Function(_) => ExpressionKind::Function,
            Expression::FunctionApplication(_) => ExpressionKind::FunctionApplication,
            Expression::List(_) => ExpressionKind::List,
            Expression::MapExpression(_) => ExpressionKind::MapExpression,
            Expression::Path(_) => ExpressionKind::Path,
            Expression::NixString(_) => ExpressionKind::NixString,
            Expression::IndentedString(_) => ExpressionKind::IndentedString,
            Expression::Uri(_) => ExpressionKind::Uri,
            Expression::SearchNixPath(_) => ExpressionKind::SearchNixPath,
            Expression::PropertyAccess(_) => ExpressionKind::PropertyAccess,
            Expression::Identifier(_) => ExpressionKind::Identifier,
            Expression::Integer(_) => ExpressionKind::Integer,
            Expression::Float(_) => ExpressionKind::Float,
            Expression::Error(_) => ExpressionKind::Error,
        }
    }

    /// The span this node owns.
    pub open spec fn spec_span(self) -> Span {
        match self {
            Expression::BinaryOperation(n) => n.span,
            Expression::UnaryOperation(n) => n.span,
            Expression::Assert(n) => n.span,
            Expression::HasAttribute(n) => n.span,
            Expression::IfThenElse(n) => n.span,
            Expression::LetIn(n) => n.span,
            Expression::With(n) => n.span,
            Expression::Function(n) => n.span,
            Expression::FunctionApplication(n) => n.span,
            Expression::List(n) => n.span,
            Expression::MapExpression(n) => n.span,
            Expression::Path(n) => n.span,
            Expression::NixString(n) => n.span,
            Expression::IndentedString(n) => n.span,
            Expression::Uri(n) => n.span,
            Expression::SearchNixPath(n) => n.span,
            Expression::PropertyAccess(n) => n.span,
            Expression::Identifier(n) => n.span,
            Expression::Integer(n) => n.span,
            Expression::Float(n) => n.span,
            Expression::Error(n) => n.span,
        }
    }

    /// Hands out the span this node owns.
    pub fn span(&self) -> (s: &Span)
        ensures
            *s == self.spec_span(),
    {
        match self {
            Expression::BinaryOperation(n) => &n.span,
            Expression::UnaryOperation(n) => &n.span,
            Expression::Assert(n) => &n.span,
            Expression::HasAttribute(n) => &n.span,
            Expression::IfThenElse(n) => &n.span,
            Expression::LetIn(n) => &n.span,
            Expression::With(n) => &n.span,
            Expression::Function(n) => &n.span,
            Expression::FunctionApplication(n) => &n.span,
            Expression::List(n) => &n.span,
            Expression::MapExpression(n) => &n.span,
            Expression::Path(n) => &n.span,
            Expression::NixString(n) => &n.span,
            Expression::IndentedString(n) => &n.span,
            Expression::Uri(n) => &n.span,
            Expression::SearchNixPath(n) => &n.span,
            Expression::PropertyAccess(n) => &n.span,
            Expression::Identifier(n) => &n.span,
            Expression::Integer(n) => &n.span,
            Expression::Float(n) => &n.span,
            Expression::Error(n) => &n.span,
        }
    }
}

/// Span ordering: every well-formed node's span has its start at or before
/// its end in line-then-column order, and constructors only build
/// well-formed nodes, so the invariant holds of every constructed node.
pub proof fn lemma_wf_span_ordered(e: Expression)
    requires
        e.wf(),
    ensures
        e.spec_span().wf(),
        e.spec_span().start.spec_le(e.spec_span().end),
{
}

} // verus!
