//! Structured text: variables, expressions and statements.
use vstd::prelude::*;
use crate::common::{Constant, EnumeratedValue, SignedInteger, Subrange};
use crate::id::Id;

verus! {

/// A reference to a variable.
#[derive(Debug, PartialEq)]
pub enum Variable {
    AddressAssignment(AddressAssignment),
    SymbolicVariable(SymbolicVariable),
    MultiElementVariable(MultiElementVariable),
}

impl Variable {
    /// The variable with the name `name`.
    pub fn symbolic(name: &str) -> (var: Variable)
        ensures
            var matches Variable::SymbolicVariable(sv) && sv.name@ == name@,
    {
        Variable::SymbolicVariable(SymbolicVariable { name: Id::from(name) })
    }
}

/// Where a directly addressed variable lives.
#[derive(Debug, PartialEq)]
pub enum LocationPrefix {
    I,
    Q,
    M,
}

/// How wide a directly addressed variable is.
#[derive(Debug, PartialEq)]
pub enum SizePrefix {
    Nil,
    X,
    B,
    W,
    D,
    L,
}

/// A variable given by its hardware address.
#[derive(Debug, PartialEq)]
pub struct AddressAssignment {
    pub location: LocationPrefix,
    pub size: SizePrefix,
    pub address: Vec<u32>,
}

/// A variable given by its name.
#[derive(Debug, PartialEq)]
pub struct SymbolicVariable {
    pub name: Id,
}

/// An element of a structure or of an array, given by the path of names that
/// leads to it.
#[derive(Debug, PartialEq)]
pub struct MultiElementVariable {
    pub elements: Vec<Id>,
}

/// The invocation of a function block instance.
#[derive(Debug, PartialEq)]
pub struct FbCall {
    pub var_name: Id,
    pub params: Vec<ParamAssignmentKind>,
}

/// One argument of a call.
#[derive(Debug, PartialEq)]
pub enum ParamAssignmentKind {
    PositionalInput(PositionalInput),
    NamedInput(NamedInput),
    Output(Output),
}

impl ParamAssignmentKind {
    /// The argument `expr`, given by its position.
    pub fn positional(expr: ExprKind) -> (param: ParamAssignmentKind)
        ensures
            param == ParamAssignmentKind::PositionalInput(PositionalInput { expr }),
    {
        ParamAssignmentKind::PositionalInput(PositionalInput { expr })
    }
}

/// An input given by its position.
#[derive(Debug, PartialEq)]
pub struct PositionalInput {
    pub expr: ExprKind,
}

/// An input given by the name of the parameter.
#[derive(Debug, PartialEq)]
pub struct NamedInput {
    pub name: Id,
    pub expr: ExprKind,
}

/// An output: the parameter `src` goes to the variable `tgt`, negated where `not`
/// is set.
#[derive(Debug, PartialEq)]
pub struct Output {
    pub not: bool,
    pub src: Id,
    pub tgt: Variable,
}

/// One statement.
#[derive(Debug, PartialEq)]
pub enum StmtKind {
    Assignment(Assignment),
    FbCall(FbCall),
    If(If),
    Case(Case),
    For(For),
    While(While),
    Repeat(Repeat),
    Exit,
}

/// The statement `target := value`.
#[derive(Debug, PartialEq)]
pub struct Assignment {
    pub target: Variable,
    pub value: ExprKind,
}

/// An `IF` statement: the condition, the statements that run where it holds, and
/// those that run where it does not.
#[derive(Debug, PartialEq)]
pub struct If {
    pub expr: ExprKind,
    pub body: Vec<StmtKind>,
    pub else_body: Vec<StmtKind>,
}

/// A `CASE` statement: the selector, the groups of statements, and the
/// statements that run where no group is selected.
#[derive(Debug, PartialEq)]
pub struct Case {
    pub selector: ExprKind,
    pub statement_groups: Vec<CaseStatementGroup>,
    pub else_body: Vec<StmtKind>,
}

/// The statements of a `Case` that run for one set of selector values.
#[derive(Debug, PartialEq)]
pub struct CaseStatementGroup {
    pub selectors: Vec<CaseSelection>,
    pub statements: Vec<StmtKind>,
}

/// One value, or one range of values, that selects a group of a `Case`.
#[derive(Debug, PartialEq)]
pub enum CaseSelection {
    Subrange(Subrange),
    SignedInteger(SignedInteger),
    EnumeratedValue(EnumeratedValue),
}

/// A `FOR` loop over the values of `control` between `from` and `to`.
#[derive(Debug, PartialEq)]
pub struct For {
    pub control: Id,
    pub from: ExprKind,
    pub to: ExprKind,
    pub step: Option<ExprKind>,
    pub body: Vec<StmtKind>,
}

/// A `WHILE` loop.
#[derive(Debug, PartialEq)]
pub struct While {
    pub condition: ExprKind,
    pub body: Vec<StmtKind>,
}

/// A `REPEAT` loop: the body runs until the condition `until` holds.
#[derive(Debug, PartialEq)]
pub struct Repeat {
    pub until: ExprKind,
    pub body: Vec<StmtKind>,
}

/// The operator of a comparison.
#[derive(Debug, PartialEq)]
pub enum CompareOp {
    Or,
    Xor,
    And,
    Eq,
    Ne,
    Lt,
    Gt,
    LtEq,
    GtEq,
}

/// The operator of a binary operation.
#[derive(Debug, PartialEq)]
pub enum Operator {
    Add,
    Sub,
    Mul,
    Div,
    Mod,
    Pow,
}

/// The operator of a unary operation.
#[derive(Debug, PartialEq)]
pub enum UnaryOp {
    Neg,
    Not,
}

/// A comparison of two expressions.
#[derive(Debug, PartialEq)]
pub struct CompareExpr {
    pub op: CompareOp,
    pub left: ExprKind,
    pub right: ExprKind,
}

/// An arithmetic operation on two expressions.
#[derive(Debug, PartialEq)]
pub struct BinaryExpr {
    pub op: Operator,
    pub left: ExprKind,
    pub right: ExprKind,
}

/// An operation on one expression.
#[derive(Debug, PartialEq)]
pub struct UnaryExpr {
    pub op: UnaryOp,
    pub term: ExprKind,
}

/// The call of a function: its name and its arguments in source order.
#[derive(Debug, PartialEq)]
pub struct FunctionCall {
    pub name: Id,
    pub param_assignment: Vec<ParamAssignmentKind>,
}

/// One expression.
#[derive(Debug, PartialEq)]
pub enum ExprKind {
    Compare(Box<CompareExpr>),
    BinaryOp(Box<BinaryExpr>),
    UnaryOp(Box<UnaryExpr>),
    Const(Constant),
    /// An expression in parentheses.
    Expression(Box<ExprKind>),
    Variable(Variable),
    Function(FunctionCall),
}

impl ExprKind {
    /// The expression that reads the variable `name`.
    pub fn symbolic_variable(name: &str) -> (expr: ExprKind)
        ensures
            expr.names_variable(name@),
    {
        ExprKind::Variable(Variable::symbolic(name))
    }

    /// Whether this expression reads the variable with the characters `name`,
    /// and does nothing else.
    pub open spec fn names_variable(self, name: Seq<char>) -> bool {
        self matches ExprKind::Variable(Variable::SymbolicVariable(sv)) && sv.name@ == name
    }
}

impl StmtKind {
    /// The statement `target := value`.
    pub fn assignment(target: Variable, value: ExprKind) -> (stmt: StmtKind)
        ensures
            stmt == StmtKind::Assignment(Assignment { target, value }),
    {
        StmtKind::Assignment(Assignment { target, value })
    }

    /// The statement `output := fb_name(inputs...)`: the call of `fb_name` on
    /// the variables `inputs`, given by position, whose result goes to the
    /// variable `output`.
    pub fn fb_assign(fb_name: &str, inputs: Vec<&str>, output: &str) -> (stmt: StmtKind)
        ensures
            stmt matches StmtKind::Assignment(a) && (a.target matches Variable::SymbolicVariable(sv)
                && sv.name@ == output@) && (a.value matches ExprKind::Function(call)
                && call.name@ == fb_name@ && call.param_assignment@.len() == inputs@.len()
                && forall|i: int|
                    0 <= i < inputs@.len() ==> (#[trigger] call.param_assignment@[i]
                        matches ParamAssignmentKind::PositionalInput(p) && p.expr.names_variable(
                        inputs@[i]@,
                    ))),
    {
        let mut params: Vec<ParamAssignmentKind> = Vec::new();
        let mut i: usize = 0;
        while i < inputs.len()
            invariant
                i <= inputs.len(),
                params@.len() == i,
                forall|j: int|
                    0 <= j < i ==> (#[trigger] params@[j]
                        matches ParamAssignmentKind::PositionalInput(p) && p.expr.names_variable(
                        inputs@[j]@,
                    )),
            decreases inputs.len() - i,
        {
            params.push(ParamAssignmentKind::positional(ExprKind::symbolic_variable(inputs[i])));
            i = i + 1;
        }
        StmtKind::assignment(
            Variable::symbolic(output),
            ExprKind::Function(FunctionCall { name: Id::from(fb_name), param_assignment: params }),
        )
    }
}

} // verus!
