//! A visitor that renders an abstract syntax tree as a compact one-line
//! summary, for debugging: literals in backquotes, operator applications as
//! bracketed nodes, table constructors as `Tc[...]`.  A debugging consumer
//! of the tree, not part of the parsing pipeline itself.

use vstd::prelude::*;
use vstd::string::StrSliceExecFns;
use vstd::string::StringExecFns;

use crate::ast::Args;
use crate::ast::ArgsVisitor;
use crate::ast::Expression;
use crate::ast::ExpressionVisitor;
use crate::ast::Field;
use crate::ast::FieldVisitor;
use crate::ast::FunctionCall;
use crate::ast::FunctionCallVisitor;
use crate::ast::Identifier;
use crate::ast::Prefix;
use crate::ast::PrefixVisitor;
use crate::ast::TableConstructor;
use crate::ast::TableConstructorVisitor;
use crate::ast::Variable;
use crate::ast::VariableVisitor;
use crate::token::Token;

verus! {

fn debug_expression(expression: &Expression) -> String
    decreases *expression, 4int,
{
    match expression {
        Expression::Literal(token) => debug_literal(token),
        Expression::Unary { operator, right } => {
            let mut out = String::from_str("[");
            out.append(operator.lexeme.as_str());
            out.append(" r=");
            out.append(debug_expression(right).as_str());
            out.append("]");
            out
        },
        Expression::Binary { left, operator, right } => {
            let mut out = String::from_str("[");
            out.append(operator.lexeme.as_str());
            out.append(" l=");
            out.append(debug_expression(left).as_str());
            out.append(" r=");
            out.append(debug_expression(right).as_str());
            out.append("]");
            out
        },
        Expression::TableConstructor(table_constructor) => debug_fields(
            &table_constructor.fields,
        ),
        Expression::Prefix(prefix) => debug_prefix(prefix),
    }
}

fn debug_literal(token: &Token) -> String {
    let mut out = String::from_str("`");
    out.append(token.lexeme.as_str());
    out.append("`");
    out
}

fn debug_prefix(prefix: &Prefix) -> String
    decreases *prefix, 4int,
{
    match prefix {
        Prefix::Variable(variable) => debug_variable(variable),
        Prefix::Group(expression) => {
            let mut out = String::from_str("(");
            out.append(debug_expression(expression).as_str());
            out.append(")");
            out
        },
        Prefix::FunctionCall(function_call) => debug_function_call(function_call),
    }
}

fn debug_variable(variable: &Variable) -> String
    decreases *variable, 4int,
{
    match variable {
        Variable::Identifier(identifier) => {
            let mut out = String::new();
            out.append(identifier.token.lexeme.as_str());
            out
        },
        Variable::MemberAccess { reference, member } => {
            let mut out = debug_prefix(reference);
            out.append(".");
            out.append(member.token.lexeme.as_str());
            out
        },
        Variable::ExpressionMemberAccess { reference, member } => {
            let mut out = debug_prefix(reference);
            out.append("[");
            out.append(debug_expression(member).as_str());
            out.append("]");
            out
        },
    }
}

fn debug_function_call(function_call: &FunctionCall) -> String
    decreases *function_call, 4int,
{
    match function_call {
        FunctionCall::FunctionCall { callee, args } => {
            let mut out = String::from_str("[");
            out.append(debug_prefix(callee).as_str());
            out.append(" a:");
            out.append(debug_args(args).as_str());
            out.append("]");
            out
        },
        FunctionCall::MethodCall { callee, method, args } => {
            let mut out = String::from_str("[");
            out.append(debug_prefix(callee).as_str());
            out.append(":");
            out.append(method.token.lexeme.as_str());
            out.append(" a:");
            out.append(debug_args(args).as_str());
            out.append("]");
            out
        },
    }
}

fn debug_args(args: &Args) -> String
    decreases *args, 4int,
{
    match args {
        Args::ExpressionList(expressions) => debug_expression_list(expressions),
        Args::TableConstructor(table_constructor) => debug_fields(&table_constructor.fields),
        Args::LiteralString(token) => debug_literal(token),
    }
}

fn debug_expression_list(expressions: &Vec<Expression>) -> String
    decreases expressions@, 5int,
{
    let mut out = String::new();
    let mut i: usize = 0;
    while i < expressions.len()
        invariant
            i <= expressions@.len(),
        decreases expressions@.len() - i, 6int,
    {
        out.append(debug_expression(&expressions[i]).as_str());
        out.append(", ");
        i = i + 1;
    }
    out
}

fn debug_fields(fields: &Vec<Field>) -> String
    decreases fields@, 5int,
{
    let mut out = String::from_str("Tc[");
    let mut i: usize = 0;
    while i < fields.len()
        invariant
            i <= fields@.len(),
        decreases fields@.len() - i, 6int,
    {
        out.append(debug_field(&fields[i]).as_str());
        i = i + 1;
    }
    out.append("]");
    out
}

fn debug_field(field: &Field) -> String
    decreases *field, 4int,
{
    match field {
        Field::Expression { key, value } => {
            let mut out = debug_expression(key);
            out.append("=");
            out.append(debug_expression(value).as_str());
            out.append(" ");
            out
        },
        Field::Normal { key, value } => {
            let mut out = String::from_str("`");
            out.append(key.token.lexeme.as_str());
            out.append("`=");
            out.append(debug_expression(value).as_str());
            out.append(" ");
            out
        },
        Field::Anonymous { value } => {
            let mut out = String::from_str("?=");
            out.append(debug_expression(value).as_str());
            out.append(" ");
            out
        },
    }
}

/// Renders each node as a compact one-line summary.
pub struct DebugVisitor;

impl ExpressionVisitor<String> for DebugVisitor {
    fn visit_literal(&self, token: &Token) -> String {
        debug_literal(token)
    }

    fn visit_unary(&self, operator: &Token, right: &Box<Expression>) -> String {
        let mut out = String::from_str("[");
        out.append(operator.lexeme.as_str());
        out.append(" r=");
        out.append(debug_expression(right).as_str());
        out.append("]");
        out
    }

    fn visit_binary(
        &self,
        left: &Box<Expression>,
        operator: &Token,
        right: &Box<Expression>,
    ) -> String {
        let mut out = String::from_str("[");
        out.append(operator.lexeme.as_str());
        out.append(" l=");
        out.append(debug_expression(left).as_str());
        out.append(" r=");
        out.append(debug_expression(right).as_str());
        out.append("]");
        out
    }

    fn visit_table_constructor(&self, table_constructor: &TableConstructor) -> String {
        debug_fields(&table_constructor.fields)
    }

    fn visit_prefix(&self, prefix: &Prefix) -> String {
        debug_prefix(prefix)
    }
}

impl PrefixVisitor<String> for DebugVisitor {
    fn visit_prefix_variable(&self, variable: &Variable) -> String {
        debug_variable(variable)
    }

    fn visit_prefix_group(&self, expression: &Box<Expression>) -> String {
        let mut out = String::from_str("(");
        out.append(debug_expression(expression).as_str());
        out.append(")");
        out
    }
}

impl VariableVisitor<String> for DebugVisitor {
    fn visit_variable_identifier(&self, identifier: &Identifier) -> String {
        let mut out = String::new();
        out.append(identifier.token.lexeme.as_str());
        out
    }

    fn visit_variable_member_access(&self, reference: &Box<Prefix>, member: &Identifier) -> String {
        let mut out = debug_prefix(reference);
        out.append(".");
        out.append(member.token.lexeme.as_str());
        out
    }

    fn visit_variable_expression_member_access(
        &self,
        reference: &Box<Prefix>,
        member: &Box<Expression>,
    ) -> String {
        let mut out = debug_prefix(reference);
        out.append("[");
        out.append(debug_expression(member).as_str());
        out.append("]");
        out
    }
}

impl FunctionCallVisitor<String> for DebugVisitor {
    fn visit_function_call(&self, callee: &Box<Prefix>, args: &Args) -> String {
        let mut out = String::from_str("[");
        out.append(debug_prefix(callee).as_str());
        out.append(" a:");
        out.append(debug_args(args).as_str());
        out.append("]");
        out
    }

    fn visit_method_call(&self, callee: &Box<Prefix>, method: &Identifier, args: &Args) -> String {
        let mut out = String::from_str("[");
        out.append(debug_prefix(callee).as_str());
        out.append(":");
        out.append(method.token.lexeme.as_str());
        out.append(" a:");
        out.append(debug_args(args).as_str());
        out.append("]");
        out
    }
}

impl ArgsVisitor<String> for DebugVisitor {
    fn visit_args_expression_list(&self, expressions: &Vec<Expression>) -> String {
        debug_expression_list(expressions)
    }

    fn visit_args_table_constructor(&self, table_constructor: &TableConstructor) -> String {
        debug_fields(&table_constructor.fields)
    }

    fn visit_args_literal_string(&self, token: &Token) -> String {
        debug_literal(token)
    }
}

impl FieldVisitor<String> for DebugVisitor {
    fn visit_field_expression(&self, key: &Expression, value: &Expression) -> String {
        let mut out = debug_expression(key);
        out.append("=");
        out.append(debug_expression(value).as_str());
        out.append(" ");
        out
    }

    fn visit_field_normal(&self, key: &Identifier, value: &Expression) -> String {
        let mut out = String::from_str("`");
        out.append(key.token.lexeme.as_str());
        out.append("`=");
        out.append(debug_expression(value).as_str());
        out.append(" ");
        out
    }

    fn visit_field_anonymous(&self, value: &Expression) -> String {
        let mut out = String::from_str("?=");
        out.append(debug_expression(value).as_str());
        out.append(" ");
        out
    }
}

impl TableConstructorVisitor<String> for DebugVisitor {
    fn visit_fields(&self, fields: &Vec<Field>) -> String {
        debug_fields(fields)
    }
}

} // verus!
