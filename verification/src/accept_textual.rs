//! The traversal of variables, expressions and statements.
//!
//! The `visit_*` functions descend into the children of a node. The engine
//! calls them after the callback of the node; a callback must not call them,
//! or the children are visited twice.
use vstd::prelude::*;
use crate::acceptor::{done, leaf, offered_by_all, Acceptor};
use crate::node::{lemma_expr_offers_a_node, Node};
use crate::textual::{
    Assignment, BinaryExpr, Case, CaseSelection, CaseStatementGroup, CompareExpr, ExprKind, For,
    FunctionCall, If, ParamAssignmentKind, Repeat, StmtKind, UnaryExpr, Variable, While,
};
use crate::traversal::{lemma_traversed_node, lemma_traversed_step, lemma_traversed_then};
use crate::visitor::{traversed, Visitor};

verus! {

/// A variable offers itself, to the callback of its kind, and hands back
/// what that callback returned.
impl Acceptor for Variable {
    open spec fn offered(&self) -> Seq<Node> {
        self.nodes()
    }

    open spec fn hands_back(&self) -> bool {
        self.yields()
    }

    fn accept<V: Visitor<E>, E>(&self, visitor: V) -> (out: (V, Result<V::Value, E>)) {
        assert(self.offered() == self.nodes() && self.hands_back() == self.yields());
        match self {
            Variable::AddressAssignment(var) => leaf(
                Ghost(Node::AddressAssignment(*var)),
                Ghost(visitor),
                visitor.visit_address_assignment(var),
            ),
            Variable::SymbolicVariable(var) => leaf(
                Ghost(Node::SymbolicVariable(*var)),
                Ghost(visitor),
                visitor.visit_symbolic_variable(var),
            ),
            Variable::MultiElementVariable(var) => leaf(
                Ghost(Node::MultiElementVariable(*var)),
                Ghost(visitor),
                visitor.visit_multi_element_variable(var),
            ),
        }
    }
}

/// A selector of a case offers itself, to the callback of its kind, and
/// hands back what that callback returned.
impl Acceptor for CaseSelection {
    open spec fn offered(&self) -> Seq<Node> {
        self.nodes()
    }

    open spec fn hands_back(&self) -> bool {
        self.yields()
    }

    fn accept<V: Visitor<E>, E>(&self, visitor: V) -> (out: (V, Result<V::Value, E>)) {
        assert(self.offered() == self.nodes() && self.hands_back() == self.yields());
        match self {
            CaseSelection::Subrange(range) => leaf(
                Ghost(Node::Subrange(*range)),
                Ghost(visitor),
                visitor.visit_subrange(range),
            ),
            CaseSelection::SignedInteger(value) => leaf(
                Ghost(Node::SignedInteger(*value)),
                Ghost(visitor),
                visitor.visit_signed_integer(value),
            ),
            CaseSelection::EnumeratedValue(value) => leaf(
                Ghost(Node::EnumeratedValue(*value)),
                Ghost(visitor),
                visitor.visit_enumerated_value(value),
            ),
        }
    }
}

/// Offers the nodes of an expression: the expression's own node, then those
/// of its operands or arguments.
fn accept_expr<V: Visitor<E>, E>(visitor: V, expr: &ExprKind) -> (out: (V, Result<V::Value, E>))
    ensures
        traversed(expr.nodes(), expr.yields(), visitor, out.0, out.1),
    decreases expr, 1int,
{
    match expr {
        ExprKind::Compare(compare) => {
            let called = visitor.visit_compare(compare);
            let ghost at = called;
            let out = match called {
                (v, Ok(_)) => visit_compare(v, compare),
                (v, Err(e)) => (v, Err(e)),
            };
            proof {
                lemma_expr_offers_a_node(compare.right);
                lemma_traversed_node(
                    Node::Compare(**compare),
                    compare.children(),
                    compare.children_yield(),
                    visitor,
                    at,
                    out,
                );
            }
            out
        },
        ExprKind::BinaryOp(binary) => {
            let called = visitor.visit_binary_op(binary);
            let ghost at = called;
            let out = match called {
                (v, Ok(_)) => visit_binary_op(v, binary),
                (v, Err(e)) => (v, Err(e)),
            };
            proof {
                lemma_expr_offers_a_node(binary.right);
                lemma_traversed_node(
                    Node::BinaryOp(**binary),
                    binary.children(),
                    binary.children_yield(),
                    visitor,
                    at,
                    out,
                );
            }
            out
        },
        ExprKind::UnaryOp(unary) => {
            let called = visitor.visit_unary_op(unary);
            let ghost at = called;
            let out = match called {
                (v, Ok(_)) => visit_unary_op(v, unary),
                (v, Err(e)) => (v, Err(e)),
            };
            proof {
                lemma_expr_offers_a_node(unary.term);
                lemma_traversed_node(
                    Node::UnaryOp(**unary),
                    unary.children(),
                    unary.children_yield(),
                    visitor,
                    at,
                    out,
                );
            }
            out
        },
        ExprKind::Const(constant) => leaf(
            Ghost(Node::Constant(*constant)),
            Ghost(visitor),
            visitor.visit_constant(constant),
        ),
        ExprKind::Expression(inner) => accept_expr(visitor, inner),
        ExprKind::Variable(variable) => variable.accept(visitor),
        ExprKind::Function(call) => {
            let called = visitor.visit_function_call(call);
            let ghost at = called;
            let out = match called {
                (v, Ok(_)) => visit_function_call(v, call),
                (v, Err(e)) => (v, Err(e)),
            };
            proof {
                lemma_traversed_node(
                    Node::FunctionCall(*call),
                    call.children(),
                    call.children_yield(),
                    visitor,
                    at,
                    out,
                );
            }
            out
        },
    }
}

/// An expression offers its own node, then those of its operands or arguments.
impl Acceptor for ExprKind {
    open spec fn offered(&self) -> Seq<Node> {
        self.nodes()
    }

    open spec fn hands_back(&self) -> bool {
        self.yields()
    }

    fn accept<V: Visitor<E>, E>(&self, visitor: V) -> (out: (V, Result<V::Value, E>)) {
        assert(self.offered() == self.nodes() && self.hands_back() == self.yields());
        accept_expr(visitor, self)
    }
}

/// Descends into a comparison: the left operand, then the right operand.
/// When nothing fails, returns what the last of these hands back.
pub fn visit_compare<V: Visitor<E>, E>(
    visitor: V,
    node: &CompareExpr,
) -> (out: (V, Result<V::Value, E>))
    ensures
        traversed(node.children(), node.children_yield(), visitor, out.0, out.1),
    decreases node, 0int,
{
    let out = accept_expr(visitor, &node.left);
    let ghost so_far = out;
    let out = match out {
        (v, Ok(_)) => accept_expr(v, &node.right),
        (v, Err(e)) => (v, Err(e)),
    };
    proof {
        lemma_expr_offers_a_node(node.right);
        lemma_traversed_then(
            node.left.nodes(),
            node.left.yields(),
            node.right.nodes(),
            node.right.yields(),
            visitor,
            so_far,
            out,
        );
    }
    out
}

/// Descends into a binary operation: the left operand, then the right operand.
/// When nothing fails, returns what the last of these hands back.
pub fn visit_binary_op<V: Visitor<E>, E>(
    visitor: V,
    node: &BinaryExpr,
) -> (out: (V, Result<V::Value, E>))
    ensures
        traversed(node.children(), node.children_yield(), visitor, out.0, out.1),
    decreases node, 0int,
{
    let out = accept_expr(visitor, &node.left);
    let ghost so_far = out;
    let out = match out {
        (v, Ok(_)) => accept_expr(v, &node.right),
        (v, Err(e)) => (v, Err(e)),
    };
    proof {
        lemma_expr_offers_a_node(node.right);
        lemma_traversed_then(
            node.left.nodes(),
            node.left.yields(),
            node.right.nodes(),
            node.right.yields(),
            visitor,
            so_far,
            out,
        );
    }
    out
}

/// Descends into a unary operation: its operand.
/// When nothing fails, returns what the last of these hands back.
pub fn visit_unary_op<V: Visitor<E>, E>(
    visitor: V,
    node: &UnaryExpr,
) -> (out: (V, Result<V::Value, E>))
    ensures
        traversed(node.children(), node.children_yield(), visitor, out.0, out.1),
    decreases node, 0int,
{
    accept_expr(visitor, &node.term)
}

/// Descends into the call of a function: its arguments, in order.
/// When nothing fails, returns the default value.
pub fn visit_function_call<V: Visitor<E>, E>(
    visitor: V,
    node: &FunctionCall,
) -> (out: (V, Result<V::Value, E>))
    ensures
        traversed(node.children(), node.children_yield(), visitor, out.0, out.1),
    decreases node, 0int,
{
    accept_params(visitor, &node.param_assignment)
}

/// Offers what one argument of a call offers: the expression of an input,
/// the target of an output.
fn accept_param<V: Visitor<E>, E>(
    visitor: V,
    param: &ParamAssignmentKind,
) -> (out: (V, Result<V::Value, E>))
    ensures
        traversed(param.nodes(), param.yields(), visitor, out.0, out.1),
    decreases param, 1int,
{
    match param {
        ParamAssignmentKind::PositionalInput(input) => accept_expr(visitor, &input.expr),
        ParamAssignmentKind::NamedInput(input) => accept_expr(visitor, &input.expr),
        ParamAssignmentKind::Output(output) => output.tgt.accept(visitor),
    }
}

/// Offers the arguments of a call, in order, until one fails.
/// When none fails, returns the default value.
fn accept_params<V: Visitor<E>, E>(
    visitor: V,
    items: &Vec<ParamAssignmentKind>,
) -> (out: (V, Result<V::Value, E>))
    ensures
        traversed(ParamAssignmentKind::nodes_of_all(items@), false, visitor, out.0, out.1),
    decreases items, 0int,
{
    let ghost all = ParamAssignmentKind::nodes_of_all(items@);
    let mut v = visitor;
    let mut i: usize = 0;
    assert(items@.skip(0) =~= items@);
    while i < items.len()
        invariant
            i <= items.len(),
            all == ParamAssignmentKind::nodes_of_all(items@),
            forall|post: V, res: Result<V::Value, E>| #[trigger]
                traversed(
                    ParamAssignmentKind::nodes_of_all(items@.skip(i as int)),
                    false,
                    v,
                    post,
                    res,
                ) ==> traversed(all, false, visitor, post, res),
        decreases items.len() - i,
    {
        let ghost before = v;
        let stepped = accept_param(v, &items[i]);
        proof {
            let first = items@[i as int].nodes();
            let rest = ParamAssignmentKind::nodes_of_all(items@.skip(i + 1));
            assert(items@.skip(i as int)[0] == items@[i as int]);
            assert(items@.skip(i as int).drop_first() =~= items@.skip(i + 1));
            assert(ParamAssignmentKind::nodes_of_all(items@.skip(i as int)) == first + rest);
            lemma_traversed_step(
                all,
                visitor,
                first,
                items@[i as int].yields(),
                rest,
                before,
                stepped,
            );
        }
        match stepped {
            (after, Err(e)) => {
                return (after, Err(e));
            },
            (after, Ok(_)) => {
                v = after;
            },
        }
        i = i + 1;
    }
    assert(ParamAssignmentKind::nodes_of_all(items@.skip(i as int)) =~= Seq::<Node>::empty());
    done(v)
}

/// Offers the nodes of a statement: the statement's own node, then those of
/// its parts.
fn accept_stmt<V: Visitor<E>, E>(visitor: V, stmt: &StmtKind) -> (out: (V, Result<V::Value, E>))
    ensures
        traversed(stmt.nodes(), stmt.yields(), visitor, out.0, out.1),
    decreases stmt, 1int,
{
    match stmt {
        StmtKind::Assignment(node) => {
            let called = visitor.visit_assignment(node);
            let ghost at = called;
            let out = match called {
                (v, Ok(_)) => visit_assignment(v, node),
                (v, Err(e)) => (v, Err(e)),
            };
            proof {
                lemma_traversed_node(
                    Node::Assignment(*node),
                    node.children(),
                    node.children_yield(),
                    visitor,
                    at,
                    out,
                );
            }
            out
        },
        StmtKind::FbCall(node) => leaf(
            Ghost(Node::FbCall(*node)),
            Ghost(visitor),
            visitor.visit_fb_call(node),
        ),
        StmtKind::If(node) => {
            let called = visitor.visit_if(node);
            let ghost at = called;
            let out = match called {
                (v, Ok(_)) => visit_if(v, node),
                (v, Err(e)) => (v, Err(e)),
            };
            proof {
                lemma_traversed_node(
                    Node::If(*node),
                    node.children(),
                    node.children_yield(),
                    visitor,
                    at,
                    out,
                );
            }
            out
        },
        StmtKind::Case(node) => {
            let called = visitor.visit_case(node);
            let ghost at = called;
            let out = match called {
                (v, Ok(_)) => visit_case(v, node),
                (v, Err(e)) => (v, Err(e)),
            };
            proof {
                lemma_traversed_node(
                    Node::Case(*node),
                    node.children(),
                    node.children_yield(),
                    visitor,
                    at,
                    out,
                );
            }
            out
        },
        StmtKind::For(node) => {
            let called = visitor.visit_for(node);
            let ghost at = called;
            let out = match called {
                (v, Ok(_)) => visit_for(v, node),
                (v, Err(e)) => (v, Err(e)),
            };
            proof {
                lemma_traversed_node(
                    Node::For(*node),
                    node.children(),
                    node.children_yield(),
                    visitor,
                    at,
                    out,
                );
            }
            out
        },
        StmtKind::While(node) => {
            let called = visitor.visit_while(node);
            let ghost at = called;
            let out = match called {
                (v, Ok(_)) => visit_while(v, node),
                (v, Err(e)) => (v, Err(e)),
            };
            proof {
                lemma_traversed_node(
                    Node::While(*node),
                    node.children(),
                    node.children_yield(),
                    visitor,
                    at,
                    out,
                );
            }
            out
        },
        StmtKind::Repeat(node) => {
            let called = visitor.visit_repeat(node);
            let ghost at = called;
            let out = match called {
                (v, Ok(_)) => visit_repeat(v, node),
                (v, Err(e)) => (v, Err(e)),
            };
            proof {
                lemma_expr_offers_a_node(node.until);
                lemma_traversed_node(
                    Node::Repeat(*node),
                    node.children(),
                    node.children_yield(),
                    visitor,
                    at,
                    out,
                );
            }
            out
        },
        StmtKind::Exit => leaf(Ghost(Node::Exit), Ghost(visitor), visitor.visit_exit()),
    }
}

/// A statement offers its own node, then those of its parts.
impl Acceptor for StmtKind {
    open spec fn offered(&self) -> Seq<Node> {
        self.nodes()
    }

    open spec fn hands_back(&self) -> bool {
        self.yields()
    }

    fn accept<V: Visitor<E>, E>(&self, visitor: V) -> (out: (V, Result<V::Value, E>)) {
        assert(self.offered() == self.nodes() && self.hands_back() == self.yields());
        accept_stmt(visitor, self)
    }
}

/// Offers statements, in order, until one fails.
/// When none fails, returns the default value.
pub(crate) fn accept_stmts<V: Visitor<E>, E>(
    visitor: V,
    items: &Vec<StmtKind>,
) -> (out: (V, Result<V::Value, E>))
    ensures
        traversed(StmtKind::nodes_of_all(items@), false, visitor, out.0, out.1),
    decreases items, 0int,
{
    let ghost all = StmtKind::nodes_of_all(items@);
    let mut v = visitor;
    let mut i: usize = 0;
    assert(items@.skip(0) =~= items@);
    while i < items.len()
        invariant
            i <= items.len(),
            all == StmtKind::nodes_of_all(items@),
            forall|post: V, res: Result<V::Value, E>| #[trigger]
                traversed(
                    StmtKind::nodes_of_all(items@.skip(i as int)),
                    false,
                    v,
                    post,
                    res,
                ) ==> traversed(all, false, visitor, post, res),
        decreases items.len() - i,
    {
        let ghost before = v;
        let stepped = accept_stmt(v, &items[i]);
        proof {
            let first = items@[i as int].nodes();
            let rest = StmtKind::nodes_of_all(items@.skip(i + 1));
            assert(items@.skip(i as int)[0] == items@[i as int]);
            assert(items@.skip(i as int).drop_first() =~= items@.skip(i + 1));
            assert(StmtKind::nodes_of_all(items@.skip(i as int)) == first + rest);
            lemma_traversed_step(
                all,
                visitor,
                first,
                items@[i as int].yields(),
                rest,
                before,
                stepped,
            );
        }
        match stepped {
            (after, Err(e)) => {
                return (after, Err(e));
            },
            (after, Ok(_)) => {
                v = after;
            },
        }
        i = i + 1;
    }
    assert(StmtKind::nodes_of_all(items@.skip(i as int)) =~= Seq::<Node>::empty());
    done(v)
}

/// Descends into an assignment: its target.
/// When nothing fails, returns what the last of these hands back.
pub fn visit_assignment<V: Visitor<E>, E>(
    visitor: V,
    node: &Assignment,
) -> (out: (V, Result<V::Value, E>))
    ensures
        traversed(node.children(), node.children_yield(), visitor, out.0, out.1),
{
    node.target.accept(visitor)
}

/// Descends into an `If`: the condition, the body, then the else body.
/// When nothing fails, returns the default value.
pub fn visit_if<V: Visitor<E>, E>(visitor: V, node: &If) -> (out: (V, Result<V::Value, E>))
    ensures
        traversed(node.children(), node.children_yield(), visitor, out.0, out.1),
    decreases node, 0int,
{
    let out = accept_expr(visitor, &node.expr);
    let ghost so_far = out;
    let out = match out {
        (v, Ok(_)) => accept_stmts(v, &node.body),
        (v, Err(e)) => (v, Err(e)),
    };
    proof {
        lemma_traversed_then(
            node.expr.nodes(),
            node.expr.yields(),
            StmtKind::nodes_of_all(node.body@),
            false,
            visitor,
            so_far,
            out,
        );
    }
    let ghost so_far = out;
    let out = match out {
        (v, Ok(_)) => accept_stmts(v, &node.else_body),
        (v, Err(e)) => (v, Err(e)),
    };
    proof {
        lemma_traversed_then(
            node.expr.nodes() + StmtKind::nodes_of_all(node.body@),
            false,
            StmtKind::nodes_of_all(node.else_body@),
            false,
            visitor,
            so_far,
            out,
        );
    }
    out
}

/// Descends into a `Case`: the selector, each statement group in order, then
/// the else body.
/// When nothing fails, returns the default value.
pub fn visit_case<V: Visitor<E>, E>(visitor: V, node: &Case) -> (out: (V, Result<V::Value, E>))
    ensures
        traversed(node.children(), node.children_yield(), visitor, out.0, out.1),
    decreases node, 0int,
{
    let out = accept_expr(visitor, &node.selector);
    let ghost so_far = out;
    let out = match out {
        (v, Ok(_)) => accept_groups(v, &node.statement_groups),
        (v, Err(e)) => (v, Err(e)),
    };
    proof {
        lemma_traversed_then(
            node.selector.nodes(),
            node.selector.yields(),
            CaseStatementGroup::nodes_of_all(node.statement_groups@),
            false,
            visitor,
            so_far,
            out,
        );
    }
    let ghost so_far = out;
    let out = match out {
        (v, Ok(_)) => accept_stmts(v, &node.else_body),
        (v, Err(e)) => (v, Err(e)),
    };
    proof {
        lemma_traversed_then(
            node.selector.nodes() + CaseStatementGroup::nodes_of_all(node.statement_groups@),
            false,
            StmtKind::nodes_of_all(node.else_body@),
            false,
            visitor,
            so_far,
            out,
        );
    }
    out
}

/// Offers one group of a case: the group's own node, then its selectors and
/// its statements.
fn accept_group<V: Visitor<E>, E>(
    visitor: V,
    node: &CaseStatementGroup,
) -> (out: (V, Result<V::Value, E>))
    ensures
        traversed(node.nodes(), node.yields(), visitor, out.0, out.1),
    decreases node, 1int,
{
    let called = visitor.visit_case_statement_group(node);
    let ghost at = called;
    let out = match called {
        (v, Ok(_)) => visit_case_statement_group(v, node),
        (v, Err(e)) => (v, Err(e)),
    };
    proof {
        lemma_traversed_node(
            Node::CaseStatementGroup(*node),
            node.children(),
            node.children_yield(),
            visitor,
            at,
            out,
        );
    }
    out
}

/// A group of a case offers its own node, then its selectors and its statements.
impl Acceptor for CaseStatementGroup {
    open spec fn offered(&self) -> Seq<Node> {
        self.nodes()
    }

    open spec fn hands_back(&self) -> bool {
        self.yields()
    }

    fn accept<V: Visitor<E>, E>(&self, visitor: V) -> (out: (V, Result<V::Value, E>)) {
        assert(self.offered() == self.nodes() && self.hands_back() == self.yields());
        accept_group(visitor, self)
    }
}

/// Offers the groups of a case, in order, until one fails.
/// When none fails, returns the default value.
fn accept_groups<V: Visitor<E>, E>(
    visitor: V,
    items: &Vec<CaseStatementGroup>,
) -> (out: (V, Result<V::Value, E>))
    ensures
        traversed(CaseStatementGroup::nodes_of_all(items@), false, visitor, out.0, out.1),
    decreases items, 0int,
{
    let ghost all = CaseStatementGroup::nodes_of_all(items@);
    let mut v = visitor;
    let mut i: usize = 0;
    assert(items@.skip(0) =~= items@);
    while i < items.len()
        invariant
            i <= items.len(),
            all == CaseStatementGroup::nodes_of_all(items@),
            forall|post: V, res: Result<V::Value, E>| #[trigger]
                traversed(
                    CaseStatementGroup::nodes_of_all(items@.skip(i as int)),
                    false,
                    v,
                    post,
                    res,
                ) ==> traversed(all, false, visitor, post, res),
        decreases items.len() - i,
    {
        let ghost before = v;
        let stepped = accept_group(v, &items[i]);
        proof {
            let first = items@[i as int].nodes();
            let rest = CaseStatementGroup::nodes_of_all(items@.skip(i + 1));
            assert(items@.skip(i as int)[0] == items@[i as int]);
            assert(items@.skip(i as int).drop_first() =~= items@.skip(i + 1));
            assert(CaseStatementGroup::nodes_of_all(items@.skip(i as int)) == first + rest);
            lemma_traversed_step(
                all,
                visitor,
                first,
                items@[i as int].yields(),
                rest,
                before,
                stepped,
            );
        }
        match stepped {
            (after, Err(e)) => {
                return (after, Err(e));
            },
            (after, Ok(_)) => {
                v = after;
            },
        }
        i = i + 1;
    }
    assert(CaseStatementGroup::nodes_of_all(items@.skip(i as int)) =~= Seq::<Node>::empty());
    done(v)
}

/// Descends into one group of a case: its selectors, then its statements.
/// When nothing fails, returns the default value.
pub fn visit_case_statement_group<V: Visitor<E>, E>(
    visitor: V,
    node: &CaseStatementGroup,
) -> (out: (V, Result<V::Value, E>))
    ensures
        traversed(node.children(), node.children_yield(), visitor, out.0, out.1),
    decreases node, 0int,
{
    let out = node.selectors.accept(visitor);
    let ghost so_far = out;
    let out = match out {
        (v, Ok(_)) => accept_stmts(v, &node.statements),
        (v, Err(e)) => (v, Err(e)),
    };
    proof {
        lemma_traversed_then(
            offered_by_all(node.selectors@),
            false,
            StmtKind::nodes_of_all(node.statements@),
            false,
            visitor,
            so_far,
            out,
        );
    }
    out
}

/// Descends into a `For` loop: the first value, the last value, the step
/// where there is one, then the body.
/// When nothing fails, returns the default value.
pub fn visit_for<V: Visitor<E>, E>(visitor: V, node: &For) -> (out: (V, Result<V::Value, E>))
    ensures
        traversed(node.children(), node.children_yield(), visitor, out.0, out.1),
    decreases node, 0int,
{
    let out = accept_expr(visitor, &node.from);
    let ghost so_far = out;
    let out = match out {
        (v, Ok(_)) => accept_expr(v, &node.to),
        (v, Err(e)) => (v, Err(e)),
    };
    proof {
        lemma_expr_offers_a_node(node.to);
        lemma_traversed_then(
            node.from.nodes(),
            node.from.yields(),
            node.to.nodes(),
            node.to.yields(),
            visitor,
            so_far,
            out,
        );
    }
    let ghost so_far = out;
    let out = match out {
        (v, Ok(_)) => accept_step(v, node),
        (v, Err(e)) => (v, Err(e)),
    };
    proof {
        node.lemma_step_offers_a_node();
        lemma_traversed_then(
            node.from.nodes() + node.to.nodes(),
            node.to.yields(),
            node.step_nodes(),
            node.step_yields(),
            visitor,
            so_far,
            out,
        );
    }
    let ghost so_far = out;
    let out = match out {
        (v, Ok(_)) => accept_stmts(v, &node.body),
        (v, Err(e)) => (v, Err(e)),
    };
    proof {
        lemma_traversed_then(
            node.from.nodes() + node.to.nodes() + node.step_nodes(),
            node.step_yields(),
            StmtKind::nodes_of_all(node.body@),
            false,
            visitor,
            so_far,
            out,
        );
    }
    out
}

/// Offers the step of a `For` loop, where there is one.
fn accept_step<V: Visitor<E>, E>(visitor: V, node: &For) -> (out: (V, Result<V::Value, E>))
    ensures
        traversed(node.step_nodes(), node.step_yields(), visitor, out.0, out.1),
{
    match &node.step {
        Some(expr) => accept_expr(visitor, expr),
        None => done(visitor),
    }
}

/// Descends into a `While` loop: the condition, then the body.
/// When nothing fails, returns the default value.
pub fn visit_while<V: Visitor<E>, E>(visitor: V, node: &While) -> (out: (V, Result<V::Value, E>))
    ensures
        traversed(node.children(), node.children_yield(), visitor, out.0, out.1),
    decreases node, 0int,
{
    let out = accept_expr(visitor, &node.condition);
    let ghost so_far = out;
    let out = match out {
        (v, Ok(_)) => accept_stmts(v, &node.body),
        (v, Err(e)) => (v, Err(e)),
    };
    proof {
        lemma_traversed_then(
            node.condition.nodes(),
            node.condition.yields(),
            StmtKind::nodes_of_all(node.body@),
            false,
            visitor,
            so_far,
            out,
        );
    }
    out
}

/// Descends into a `Repeat` loop: the body, then the condition that ends it.
/// When nothing fails, returns what the last of these hands back.
pub fn visit_repeat<V: Visitor<E>, E>(visitor: V, node: &Repeat) -> (out: (V, Result<V::Value, E>))
    ensures
        traversed(node.children(), node.children_yield(), visitor, out.0, out.1),
    decreases node, 0int,
{
    let out = accept_stmts(visitor, &node.body);
    let ghost so_far = out;
    let out = match out {
        (v, Ok(_)) => accept_expr(v, &node.until),
        (v, Err(e)) => (v, Err(e)),
    };
    proof {
        lemma_expr_offers_a_node(node.until);
        lemma_traversed_then(
            StmtKind::nodes_of_all(node.body@),
            false,
            node.until.nodes(),
            node.until.yields(),
            visitor,
            so_far,
            out,
        );
    }
    out
}

} // verus!
