//! The abstract syntax tree of expressions: a closed set of node kinds
//! forming a tree, with no node knowing how to interpret itself.  External
//! consumers walk the tree through the visitor traits, one method per
//! variant, so new interpretations are added by writing a new visitor and
//! never by modifying a node definition.

use vstd::prelude::*;

use crate::token::{Token, TokenModel};

verus! {

/// The mathematical value of an [`Expression`].
pub enum ExpressionModel {
    Literal(TokenModel),
    Unary { operator: TokenModel, right: Box<ExpressionModel> },
    Binary { left: Box<ExpressionModel>, operator: TokenModel, right: Box<ExpressionModel> },
    TableConstructor(Seq<FieldModel>),
    Prefix(PrefixModel),
}

/// The mathematical value of a [`Prefix`].
pub enum PrefixModel {
    Variable(VariableModel),
    FunctionCall(FunctionCallModel),
    Group(Box<ExpressionModel>),
}

/// The mathematical value of a [`Variable`].
pub enum VariableModel {
    Identifier(TokenModel),
    MemberAccess { reference: Box<PrefixModel>, member: TokenModel },
    ExpressionMemberAccess { reference: Box<PrefixModel>, member: Box<ExpressionModel> },
}

/// The mathematical value of a [`FunctionCall`].
pub enum FunctionCallModel {
    FunctionCall { callee: Box<PrefixModel>, args: ArgsModel },
    MethodCall { callee: Box<PrefixModel>, method: TokenModel, args: ArgsModel },
}

/// The mathematical value of an [`Args`].
pub enum ArgsModel {
    ExpressionList(Seq<ExpressionModel>),
    TableConstructor(Seq<FieldModel>),
    LiteralString(TokenModel),
}

/// The mathematical value of a [`Field`].
pub enum FieldModel {
    Expression { key: Box<ExpressionModel>, value: Box<ExpressionModel> },
    Normal { key: TokenModel, value: Box<ExpressionModel> },
    Anonymous { value: Box<ExpressionModel> },
}

/// An identifier: wraps its defining token.
#[derive(Debug)]
pub struct Identifier {
    pub token: Token,
}

impl Identifier {
    /// Wraps the given token.
    pub fn new(token: Token) -> (identifier: Identifier)
        ensures
            identifier.token == token,
    {
        Identifier { token }
    }
}

/// An expression: a literal, a unary or binary operator application, a table
/// constructor, or a prefix expression.
#[derive(Debug)]
pub enum Expression {
    Literal(Token),
    Unary { operator: Token, right: Box<Expression> },
    Binary { left: Box<Expression>, operator: Token, right: Box<Expression> },
    TableConstructor(TableConstructor),
    Prefix(Prefix),
}

/// A prefix expression: a variable, a function call, or a parenthesized
/// expression; what can start a postfix access and call chain.
#[derive(Debug)]
pub enum Prefix {
    Variable(Variable),
    FunctionCall(FunctionCall),
    Group(Box<Expression>),
}

/// A variable access: a bare identifier, a `.name` member access, or a
/// `[expr]` member access.
#[derive(Debug)]
pub enum Variable {
    Identifier(Identifier),
    MemberAccess { reference: Box<Prefix>, member: Identifier },
    ExpressionMemberAccess { reference: Box<Prefix>, member: Box<Expression> },
}

/// A function or method call on a prefix expression.
#[derive(Debug)]
pub enum FunctionCall {
    FunctionCall { callee: Box<Prefix>, args: Args },
    MethodCall { callee: Box<Prefix>, method: Identifier, args: Args },
}

/// Call arguments: a parenthesized expression list, a table constructor used
/// directly, or a bare literal string.
#[derive(Debug)]
pub enum Args {
    ExpressionList(Vec<Expression>),
    TableConstructor(TableConstructor),
    LiteralString(Token),
}

/// A table constructor: its ordered field list.
#[derive(Debug)]
pub struct TableConstructor {
    pub fields: Vec<Field>,
}

/// One entry of a table constructor: keyed by a bracketed expression, by a
/// name, or implicitly (array style).
#[derive(Debug)]
pub enum Field {
    Expression { key: Expression, value: Expression },
    Normal { key: Identifier, value: Expression },
    Anonymous { value: Expression },
}

pub open spec fn expression_view(e: Expression) -> ExpressionModel
    decreases e,
{
    match e {
        Expression::Literal(token) => ExpressionModel::Literal(token@),
        Expression::Unary { operator, right } => ExpressionModel::Unary {
            operator: operator@,
            right: Box::new(expression_view(*right)),
        },
        Expression::Binary { left, operator, right } => ExpressionModel::Binary {
            left: Box::new(expression_view(*left)),
            operator: operator@,
            right: Box::new(expression_view(*right)),
        },
        Expression::TableConstructor(tc) => ExpressionModel::TableConstructor(
            fields_view(tc.fields@),
        ),
        Expression::Prefix(prefix) => ExpressionModel::Prefix(prefix_view(prefix)),
    }
}

pub open spec fn prefix_view(p: Prefix) -> PrefixModel
    decreases p,
{
    match p {
        Prefix::Variable(variable) => PrefixModel::Variable(variable_view(variable)),
        Prefix::FunctionCall(function_call) => PrefixModel::FunctionCall(
            function_call_view(function_call),
        ),
        Prefix::Group(e) => PrefixModel::Group(Box::new(expression_view(*e))),
    }
}

pub open spec fn variable_view(v: Variable) -> VariableModel
    decreases v,
{
    match v {
        Variable::Identifier(identifier) => VariableModel::Identifier(identifier.token@),
        Variable::MemberAccess { reference, member } => VariableModel::MemberAccess {
            reference: Box::new(prefix_view(*reference)),
            member: member.token@,
        },
        Variable::ExpressionMemberAccess { reference, member } => {
            VariableModel::ExpressionMemberAccess {
                reference: Box::new(prefix_view(*reference)),
                member: Box::new(expression_view(*member)),
            }
        },
    }
}

pub open spec fn function_call_view(f: FunctionCall) -> FunctionCallModel
    decreases f,
{
    match f {
        FunctionCall::FunctionCall { callee, args } => FunctionCallModel::FunctionCall {
            callee: Box::new(prefix_view(*callee)),
            args: args_view(args),
        },
        FunctionCall::MethodCall { callee, method, args } => FunctionCallModel::MethodCall {
            callee: Box::new(prefix_view(*callee)),
            method: method.token@,
            args: args_view(args),
        },
    }
}

pub open spec fn args_view(a: Args) -> ArgsModel
    decreases a,
{
    match a {
        Args::ExpressionList(expressions) => ArgsModel::ExpressionList(
            expressions_view(expressions@),
        ),
        Args::TableConstructor(tc) => ArgsModel::TableConstructor(fields_view(tc.fields@)),
        Args::LiteralString(token) => ArgsModel::LiteralString(token@),
    }
}

pub open spec fn expressions_view(s: Seq<Expression>) -> Seq<ExpressionModel>
    decreases s,
{
    if s.len() == 0 {
        Seq::empty()
    } else {
        expressions_view(s.drop_last()).push(expression_view(s.last()))
    }
}

pub open spec fn fields_view(s: Seq<Field>) -> Seq<FieldModel>
    decreases s,
{
    if s.len() == 0 {
        Seq::empty()
    } else {
        fields_view(s.drop_last()).push(field_view(s.last()))
    }
}

pub open spec fn field_view(f: Field) -> FieldModel
    decreases f,
{
    match f {
        Field::Expression { key, value } => FieldModel::Expression {
            key: Box::new(expression_view(key)),
            value: Box::new(expression_view(value)),
        },
        Field::Normal { key, value } => FieldModel::Normal {
            key: key.token@,
            value: Box::new(expression_view(value)),
        },
        Field::Anonymous { value } => FieldModel::Anonymous {
            value: Box::new(expression_view(value)),
        },
    }
}

pub proof fn lemma_expressions_view_push(s: Seq<Expression>, e: Expression)
    ensures
        expressions_view(s.push(e)) == expressions_view(s).push(expression_view(e)),
{
    assert(s.push(e).drop_last() =~= s);
    assert(s.push(e).last() == e);
}

pub proof fn lemma_fields_view_push(s: Seq<Field>, f: Field)
    ensures
        fields_view(s.push(f)) == fields_view(s).push(field_view(f)),
{
    assert(s.push(f).drop_last() =~= s);
    assert(s.push(f).last() == f);
}

impl View for Expression {
    type V = ExpressionModel;

    open spec fn view(&self) -> ExpressionModel {
        expression_view(*self)
    }
}

impl View for Prefix {
    type V = PrefixModel;

    open spec fn view(&self) -> PrefixModel {
        prefix_view(*self)
    }
}

impl View for Variable {
    type V = VariableModel;

    open spec fn view(&self) -> VariableModel {
        variable_view(*self)
    }
}

impl View for FunctionCall {
    type V = FunctionCallModel;

    open spec fn view(&self) -> FunctionCallModel {
        function_call_view(*self)
    }
}

impl View for Args {
    type V = ArgsModel;

    open spec fn view(&self) -> ArgsModel {
        args_view(*self)
    }
}

impl View for TableConstructor {
    type V = Seq<FieldModel>;

    open spec fn view(&self) -> Seq<FieldModel> {
        fields_view(self.fields@)
    }
}

impl View for Field {
    type V = FieldModel;

    open spec fn view(&self) -> FieldModel {
        field_view(*self)
    }
}

/// The visitor contract of [`Variable`]: one method per variant.
pub trait VariableVisitor<T> {
    fn visit_variable_identifier(&self, identifier: &Identifier) -> T;

    fn visit_variable_member_access(&self, reference: &Box<Prefix>, member: &Identifier) -> T;

    fn visit_variable_expression_member_access(
        &self,
        reference: &Box<Prefix>,
        member: &Box<Expression>,
    ) -> T;
}

/// The visitor contract of [`FunctionCall`]: one method per variant.
pub trait FunctionCallVisitor<T> {
    fn visit_function_call(&self, callee: &Box<Prefix>, args: &Args) -> T;

    fn visit_method_call(&self, callee: &Box<Prefix>, method: &Identifier, args: &Args) -> T;
}

/// The visitor contract of [`Args`]: one method per variant.
pub trait ArgsVisitor<T> {
    fn visit_args_expression_list(&self, expressions: &Vec<Expression>) -> T;

    fn visit_args_table_constructor(&self, table_constructor: &TableConstructor) -> T;

    fn visit_args_literal_string(&self, token: &Token) -> T;
}

/// The visitor contract of [`Field`]: one method per variant.
pub trait FieldVisitor<T> {
    fn visit_field_expression(&self, key: &Expression, value: &Expression) -> T;

    fn visit_field_normal(&self, key: &Identifier, value: &Expression) -> T;

    fn visit_field_anonymous(&self, value: &Expression) -> T;
}

/// The visitor contract of [`TableConstructor`].
pub trait TableConstructorVisitor<T>: FieldVisitor<T> {
    fn visit_fields(&self, fields: &Vec<Field>) -> T;
}

/// The visitor contract of [`Prefix`]: its composite parts are covered by
/// the supertraits, so one visitor object can handle a whole tree.
pub trait PrefixVisitor<T>: VariableVisitor<T> + FunctionCallVisitor<T> {
    fn visit_prefix_variable(&self, variable: &Variable) -> T;

    fn visit_prefix_group(&self, expression: &Box<Expression>) -> T;
}

/// The visitor contract of [`Expression`].
pub trait ExpressionVisitor<T>: PrefixVisitor<T> + TableConstructorVisitor<T> {
    fn visit_literal(&self, token: &Token) -> T;

    fn visit_unary(&self, operator: &Token, right: &Box<Expression>) -> T;

    fn visit_binary(&self, left: &Box<Expression>, operator: &Token, right: &Box<Expression>) -> T;

    fn visit_table_constructor(&self, table_constructor: &TableConstructor) -> T;

    fn visit_prefix(&self, prefix: &Prefix) -> T;
}

impl Expression {
    /// Dispatches on this node's variant to the matching visitor method.
    pub fn visit<T, V: ExpressionVisitor<T>>(&self, visitor: &V) -> T {
        match self {
            Expression::Literal(token) => visitor.visit_literal(token),
            Expression::Unary { operator, right } => visitor.visit_unary(operator, right),
            Expression::Binary { left, operator, right } => visitor.visit_binary(
                left,
                operator,
                right,
            ),
            Expression::TableConstructor(table_constructor) => visitor.visit_table_constructor(
                table_constructor,
            ),
            Expression::Prefix(prefix) => visitor.visit_prefix(prefix),
        }
    }
}

impl Prefix {
    /// Dispatches on this node's variant to the matching visitor method.
    pub fn visit<T, V: PrefixVisitor<T>>(&self, visitor: &V) -> T {
        match self {
            Prefix::Variable(variable) => visitor.visit_prefix_variable(variable),
            Prefix::Group(expression) => visitor.visit_prefix_group(expression),
            Prefix::FunctionCall(function_call) => function_call.visit(visitor),
        }
    }
}

impl Variable {
    /// Dispatches on this node's variant to the matching visitor method.
    pub fn visit<T, V: VariableVisitor<T>>(&self, visitor: &V) -> T {
        match self {
            Variable::Identifier(identifier) => visitor.visit_variable_identifier(identifier),
            Variable::MemberAccess { reference, member } => visitor.visit_variable_member_access(
                reference,
                member,
            ),
            Variable::ExpressionMemberAccess { reference, member } => visitor
                .visit_variable_expression_member_access(reference, member),
        }
    }
}

impl FunctionCall {
    /// Dispatches on this node's variant to the matching visitor method.
    pub fn visit<T, V: FunctionCallVisitor<T>>(&self, visitor: &V) -> T {
        match self {
            FunctionCall::FunctionCall { callee, args } => visitor.visit_function_call(
                callee,
                args,
            ),
            FunctionCall::MethodCall { callee, method, args } => visitor.visit_method_call(
                callee,
                method,
                args,
            ),
        }
    }
}

impl Args {
    /// Dispatches on this node's variant to the matching visitor method.
    pub fn visit<T, V: ArgsVisitor<T>>(&self, visitor: &V) -> T {
        match self {
            Args::ExpressionList(expressions) => visitor.visit_args_expression_list(expressions),
            Args::TableConstructor(table_constructor) => visitor.visit_args_table_constructor(
                table_constructor,
            ),
            Args::LiteralString(token) => visitor.visit_args_literal_string(token),
        }
    }
}

impl TableConstructor {
    /// Hands this constructor's field list to the visitor.
    pub fn visit<T, V: TableConstructorVisitor<T>>(&self, visitor: &V) -> T {
        visitor.visit_fields(&self.fields)
    }
}

impl Field {
    /// Dispatches on this node's variant to the matching visitor method.
    pub fn visit<T, V: FieldVisitor<T>>(&self, visitor: &V) -> T {
        match self {
            Field::Expression { key, value } => visitor.visit_field_expression(key, value),
            Field::Normal { key, value } => visitor.visit_field_normal(key, value),
            Field::Anonymous { value } => visitor.visit_field_anonymous(value),
        }
    }
}

} // verus!
