//! The callbacks of a pass over the tree, and what a traversal is.
//!
//! A pass is a value that implements [`Visitor`]. The traversal engine hands
//! the pass to the callback of each node in turn and takes the pass back
//! together with the callback's result: a pass carries its state from one
//! callback to the next by value.
use vstd::prelude::*;
pub use crate::accept_common::{
    visit_array_declaration, visit_configuration_declaration, visit_enum_declaration,
    visit_function_block_declaration, visit_function_declaration, visit_late_bound_declaration,
    visit_program_declaration, visit_resource_declaration, visit_sfc, visit_simple_declaration,
    visit_statements, visit_string_declaration, visit_structure_declaration,
    visit_structure_element_init, visit_structure_initialization_declaration,
    visit_subrange_declaration, visit_subrange_specification, visit_variable_declaration,
};
pub use crate::accept_textual::{
    visit_assignment, visit_binary_op, visit_case, visit_case_statement_group, visit_compare,
    visit_for, visit_function_call, visit_if, visit_repeat, visit_unary_op, visit_while,
};
pub use crate::acceptor::Acceptor;
use crate::common::{
    ArrayDeclaration, ArrayInitialValueAssignment, ConfigurationDeclaration, Constant,
    EnumeratedInitialValueAssignment, EnumeratedSpecificationInit, EnumeratedValue,
    EnumeratedValuesInitializer, EnumerationDeclaration, FunctionBlockDeclaration,
    FunctionBlockInitialValueAssignment, FunctionDeclaration, LateBoundDeclaration, Library,
    ProgramDeclaration, ResourceDeclaration, Sfc, SignedInteger, SimpleDeclaration,
    SimpleInitializer, Statements, StringDeclaration, StringInitializer, StructureDeclaration,
    StructureElementInit, StructureInitializationDeclaration, Subrange, SubrangeDeclaration,
    SubrangeSpecification, VarDecl,
};
use crate::common_sfc::Network;
use crate::node::Node;
use crate::textual::{
    AddressAssignment, Assignment, BinaryExpr, Case, CaseStatementGroup, CompareExpr, FbCall,
    For, FunctionCall, If, MultiElementVariable, Repeat, SymbolicVariable, UnaryExpr, While,
};

verus! {

/// Whether `value` is what `T::default()` returns.
pub open spec fn is_default<T: Default>(value: T) -> bool {
    call_ensures(T::default, (), value)
}

/// The callbacks of one pass over the tree, one for each kind of node.
///
/// A traversal calls the callback of a node before it descends into the
/// node's children. While the callbacks return `Ok` the traversal goes on;
/// the first `Err` ends it and becomes its result.
///
/// Every callback has a default that leaves the pass as it is and returns
/// the default value, so that the traversal continues to descend. A pass
/// overrides the callbacks of the kinds it looks at, and says in the
/// `ensures` of each override what that callback does.
///
/// The descent is the engine's: a callback runs before the children of its
/// node are visited, and it keeps them from being visited only by failing.
/// A callback must not call the descent function of its kind (`visit_if` and
/// the like): the engine calls it after the callback, and the children would
/// be visited twice.
///
/// What a callback returns comes back from the dispatch of a node that has
/// no children. The dispatch of a node with children returns what its
/// descent returns: what the dispatch of its last child returns, and the
/// default value where the node ends in a sequence or in nothing.
#[allow(unused_variables)]
pub trait Visitor<E>: Sized {
    /// What the callbacks return when they do not fail. It says nothing about
    /// success or failure: a container or a leaf with nothing to report
    /// returns its default.
    type Value: Default;

    /// A signed integer that selects a case.
    fn visit_signed_integer(self, node: &SignedInteger) -> (out: (Self, Result<Self::Value, E>))
        default_ensures
            out.0 == self,
            out.1 matches Ok(value) && is_default(value),
    {
        (self, Ok(Self::Value::default()))
    }

    /// A use of a value of an enumeration.
    fn visit_enumerated_value(self, node: &EnumeratedValue) -> (out: (Self, Result<Self::Value, E>))
        default_ensures
            out.0 == self,
            out.1 matches Ok(value) && is_default(value),
    {
        (self, Ok(Self::Value::default()))
    }

    /// A literal.
    fn visit_constant(self, node: &Constant) -> (out: (Self, Result<Self::Value, E>))
        default_ensures
            out.0 == self,
            out.1 matches Ok(value) && is_default(value),
    {
        (self, Ok(Self::Value::default()))
    }

    /// A configuration, before its global variables and its resources.
    fn visit_configuration_declaration(
        self,
        node: &ConfigurationDeclaration,
    ) -> (out: (Self, Result<Self::Value, E>))
        default_ensures
            out.0 == self,
            out.1 matches Ok(value) && is_default(value),
    {
        (self, Ok(Self::Value::default()))
    }

    /// A resource, before its global variables.
    fn visit_resource_declaration(
        self,
        node: &ResourceDeclaration,
    ) -> (out: (Self, Result<Self::Value, E>))
        default_ensures
            out.0 == self,
            out.1 matches Ok(value) && is_default(value),
    {
        (self, Ok(Self::Value::default()))
    }

    /// The declaration of a variable, before its initial value.
    fn visit_variable_declaration(self, node: &VarDecl) -> (out: (Self, Result<Self::Value, E>))
        default_ensures
            out.0 == self,
            out.1 matches Ok(value) && is_default(value),
    {
        (self, Ok(Self::Value::default()))
    }

    /// The declaration of an enumeration, before its specification.
    fn visit_enum_declaration(
        self,
        node: &EnumerationDeclaration,
    ) -> (out: (Self, Result<Self::Value, E>))
        default_ensures
            out.0 == self,
            out.1 matches Ok(value) && is_default(value),
    {
        (self, Ok(Self::Value::default()))
    }

    /// The declaration of a subrange type, before its specification.
    fn visit_subrange_declaration(
        self,
        node: &SubrangeDeclaration,
    ) -> (out: (Self, Result<Self::Value, E>))
        default_ensures
            out.0 == self,
            out.1 matches Ok(value) && is_default(value),
    {
        (self, Ok(Self::Value::default()))
    }

    /// The declaration of a type as another type, before its initial value.
    fn visit_simple_declaration(
        self,
        node: &SimpleDeclaration,
    ) -> (out: (Self, Result<Self::Value, E>))
        default_ensures
            out.0 == self,
            out.1 matches Ok(value) && is_default(value),
    {
        (self, Ok(Self::Value::default()))
    }

    /// The declaration of an array type, before its specification and its initial values.
    fn visit_array_declaration(
        self,
        node: &ArrayDeclaration,
    ) -> (out: (Self, Result<Self::Value, E>))
        default_ensures
            out.0 == self,
            out.1 matches Ok(value) && is_default(value),
    {
        (self, Ok(Self::Value::default()))
    }

    /// The declaration of a structure type.
    fn visit_structure_declaration(
        self,
        node: &StructureDeclaration,
    ) -> (out: (Self, Result<Self::Value, E>))
        default_ensures
            out.0 == self,
            out.1 matches Ok(value) && is_default(value),
    {
        (self, Ok(Self::Value::default()))
    }

    /// A structure with initial values, before its initialized elements.
    fn visit_structure_initialization_declaration(
        self,
        node: &StructureInitializationDeclaration,
    ) -> (out: (Self, Result<Self::Value, E>))
        default_ensures
            out.0 == self,
            out.1 matches Ok(value) && is_default(value),
    {
        (self, Ok(Self::Value::default()))
    }

    /// The initial value of a structure element, before the value itself.
    fn visit_structure_element_init(
        self,
        node: &StructureElementInit,
    ) -> (out: (Self, Result<Self::Value, E>))
        default_ensures
            out.0 == self,
            out.1 matches Ok(value) && is_default(value),
    {
        (self, Ok(Self::Value::default()))
    }

    /// The declaration of a string type.
    fn visit_string_declaration(
        self,
        node: &StringDeclaration,
    ) -> (out: (Self, Result<Self::Value, E>))
        default_ensures
            out.0 == self,
            out.1 matches Ok(value) && is_default(value),
    {
        (self, Ok(Self::Value::default()))
    }

    /// The declaration of a type whose base type is not resolved yet.
    fn visit_late_bound_declaration(
        self,
        node: &LateBoundDeclaration,
    ) -> (out: (Self, Result<Self::Value, E>))
        default_ensures
            out.0 == self,
            out.1 matches Ok(value) && is_default(value),
    {
        (self, Ok(Self::Value::default()))
    }

    /// A function block, before its variables and its body.
    fn visit_function_block_declaration(
        self,
        node: &FunctionBlockDeclaration,
    ) -> (out: (Self, Result<Self::Value, E>))
        default_ensures
            out.0 == self,
            out.1 matches Ok(value) && is_default(value),
    {
        (self, Ok(Self::Value::default()))
    }

    /// A function, before its variables and its statements.
    fn visit_function_declaration(
        self,
        node: &FunctionDeclaration,
    ) -> (out: (Self, Result<Self::Value, E>))
        default_ensures
            out.0 == self,
            out.1 matches Ok(value) && is_default(value),
    {
        (self, Ok(Self::Value::default()))
    }

    /// A program, before its variables and its body.
    fn visit_program_declaration(
        self,
        node: &ProgramDeclaration,
    ) -> (out: (Self, Result<Self::Value, E>))
        default_ensures
            out.0 == self,
            out.1 matches Ok(value) && is_default(value),
    {
        (self, Ok(Self::Value::default()))
    }

    /// A sequential function chart, before its networks.
    fn visit_sfc(self, node: &Sfc) -> (out: (Self, Result<Self::Value, E>))
        default_ensures
            out.0 == self,
            out.1 matches Ok(value) && is_default(value),
    {
        (self, Ok(Self::Value::default()))
    }

    /// One network of a chart.
    fn visit_network(self, node: &Network) -> (out: (Self, Result<Self::Value, E>))
        default_ensures
            out.0 == self,
            out.1 matches Ok(value) && is_default(value),
    {
        (self, Ok(Self::Value::default()))
    }

    /// A body of statements, before the statements.
    fn visit_statements(self, node: &Statements) -> (out: (Self, Result<Self::Value, E>))
        default_ensures
            out.0 == self,
            out.1 matches Ok(value) && is_default(value),
    {
        (self, Ok(Self::Value::default()))
    }

    /// An assignment, before its target.
    fn visit_assignment(self, node: &Assignment) -> (out: (Self, Result<Self::Value, E>))
        default_ensures
            out.0 == self,
            out.1 matches Ok(value) && is_default(value),
    {
        (self, Ok(Self::Value::default()))
    }

    /// The invocation of a function block instance.
    fn visit_fb_call(self, node: &FbCall) -> (out: (Self, Result<Self::Value, E>))
        default_ensures
            out.0 == self,
            out.1 matches Ok(value) && is_default(value),
    {
        (self, Ok(Self::Value::default()))
    }

    /// An `If`, before its condition and its two bodies.
    fn visit_if(self, node: &If) -> (out: (Self, Result<Self::Value, E>))
        default_ensures
            out.0 == self,
            out.1 matches Ok(value) && is_default(value),
    {
        (self, Ok(Self::Value::default()))
    }

    /// A `Case`, before its selector, its groups and its else body.
    fn visit_case(self, node: &Case) -> (out: (Self, Result<Self::Value, E>))
        default_ensures
            out.0 == self,
            out.1 matches Ok(value) && is_default(value),
    {
        (self, Ok(Self::Value::default()))
    }

    /// One group of a `Case`, before its selectors and its statements.
    fn visit_case_statement_group(
        self,
        node: &CaseStatementGroup,
    ) -> (out: (Self, Result<Self::Value, E>))
        default_ensures
            out.0 == self,
            out.1 matches Ok(value) && is_default(value),
    {
        (self, Ok(Self::Value::default()))
    }

    /// A `For` loop, before its bounds and its body.
    fn visit_for(self, node: &For) -> (out: (Self, Result<Self::Value, E>))
        default_ensures
            out.0 == self,
            out.1 matches Ok(value) && is_default(value),
    {
        (self, Ok(Self::Value::default()))
    }

    /// A `While` loop, before its condition and its body.
    fn visit_while(self, node: &While) -> (out: (Self, Result<Self::Value, E>))
        default_ensures
            out.0 == self,
            out.1 matches Ok(value) && is_default(value),
    {
        (self, Ok(Self::Value::default()))
    }

    /// A `Repeat` loop, before its body and its condition.
    fn visit_repeat(self, node: &Repeat) -> (out: (Self, Result<Self::Value, E>))
        default_ensures
            out.0 == self,
            out.1 matches Ok(value) && is_default(value),
    {
        (self, Ok(Self::Value::default()))
    }

    /// An `Exit` statement.
    fn visit_exit(self) -> (out: (Self, Result<Self::Value, E>))
        default_ensures
            out.0 == self,
            out.1 matches Ok(value) && is_default(value),
    {
        (self, Ok(Self::Value::default()))
    }

    /// A comparison, before its operands.
    fn visit_compare(self, node: &CompareExpr) -> (out: (Self, Result<Self::Value, E>))
        default_ensures
            out.0 == self,
            out.1 matches Ok(value) && is_default(value),
    {
        (self, Ok(Self::Value::default()))
    }

    /// A binary operation, before its operands.
    fn visit_binary_op(self, node: &BinaryExpr) -> (out: (Self, Result<Self::Value, E>))
        default_ensures
            out.0 == self,
            out.1 matches Ok(value) && is_default(value),
    {
        (self, Ok(Self::Value::default()))
    }

    /// A unary operation, before its operand.
    fn visit_unary_op(self, node: &UnaryExpr) -> (out: (Self, Result<Self::Value, E>))
        default_ensures
            out.0 == self,
            out.1 matches Ok(value) && is_default(value),
    {
        (self, Ok(Self::Value::default()))
    }

    /// The call of a function, before its arguments.
    fn visit_function_call(self, node: &FunctionCall) -> (out: (Self, Result<Self::Value, E>))
        default_ensures
            out.0 == self,
            out.1 matches Ok(value) && is_default(value),
    {
        (self, Ok(Self::Value::default()))
    }

    /// A variable given by its hardware address.
    fn visit_address_assignment(
        self,
        node: &AddressAssignment,
    ) -> (out: (Self, Result<Self::Value, E>))
        default_ensures
            out.0 == self,
            out.1 matches Ok(value) && is_default(value),
    {
        (self, Ok(Self::Value::default()))
    }

    /// A variable given by its name.
    fn visit_symbolic_variable(
        self,
        node: &SymbolicVariable,
    ) -> (out: (Self, Result<Self::Value, E>))
        default_ensures
            out.0 == self,
            out.1 matches Ok(value) && is_default(value),
    {
        (self, Ok(Self::Value::default()))
    }

    /// An element of a structure or of an array.
    fn visit_multi_element_variable(
        self,
        node: &MultiElementVariable,
    ) -> (out: (Self, Result<Self::Value, E>))
        default_ensures
            out.0 == self,
            out.1 matches Ok(value) && is_default(value),
    {
        (self, Ok(Self::Value::default()))
    }

    /// The initial value of a variable of an elementary or a named type.
    fn visit_simple_initializer(
        self,
        node: &SimpleInitializer,
    ) -> (out: (Self, Result<Self::Value, E>))
        default_ensures
            out.0 == self,
            out.1 matches Ok(value) && is_default(value),
    {
        (self, Ok(Self::Value::default()))
    }

    /// The initial value of a string variable.
    fn visit_string_initializer(
        self,
        node: &StringInitializer,
    ) -> (out: (Self, Result<Self::Value, E>))
        default_ensures
            out.0 == self,
            out.1 matches Ok(value) && is_default(value),
    {
        (self, Ok(Self::Value::default()))
    }

    /// The initial value of a variable of a named enumeration.
    fn visit_enumerated_type_initializer(
        self,
        node: &EnumeratedInitialValueAssignment,
    ) -> (out: (Self, Result<Self::Value, E>))
        default_ensures
            out.0 == self,
            out.1 matches Ok(value) && is_default(value),
    {
        (self, Ok(Self::Value::default()))
    }

    /// The initial value of a variable whose values are listed in place.
    fn visit_enumerated_values_initializer(
        self,
        node: &EnumeratedValuesInitializer,
    ) -> (out: (Self, Result<Self::Value, E>))
        default_ensures
            out.0 == self,
            out.1 matches Ok(value) && is_default(value),
    {
        (self, Ok(Self::Value::default()))
    }

    /// A variable that is an instance of a function block.
    fn visit_function_block_type_initializer(
        self,
        node: &FunctionBlockInitialValueAssignment,
    ) -> (out: (Self, Result<Self::Value, E>))
        default_ensures
            out.0 == self,
            out.1 matches Ok(value) && is_default(value),
    {
        (self, Ok(Self::Value::default()))
    }

    /// The specification of an enumeration with its default.
    fn visit_enumerated_spec_init(
        self,
        node: &EnumeratedSpecificationInit,
    ) -> (out: (Self, Result<Self::Value, E>))
        default_ensures
            out.0 == self,
            out.1 matches Ok(value) && is_default(value),
    {
        (self, Ok(Self::Value::default()))
    }

    /// The specification of a subrange, before its range.
    fn visit_subrange_specification(
        self,
        node: &SubrangeSpecification,
    ) -> (out: (Self, Result<Self::Value, E>))
        default_ensures
            out.0 == self,
            out.1 matches Ok(value) && is_default(value),
    {
        (self, Ok(Self::Value::default()))
    }

    /// A range of integers.
    fn visit_subrange(self, node: &Subrange) -> (out: (Self, Result<Self::Value, E>))
        default_ensures
            out.0 == self,
            out.1 matches Ok(value) && is_default(value),
    {
        (self, Ok(Self::Value::default()))
    }

    /// The initial value of an array variable.
    fn visit_array_initializer(
        self,
        node: &ArrayInitialValueAssignment,
    ) -> (out: (Self, Result<Self::Value, E>))
        default_ensures
            out.0 == self,
            out.1 matches Ok(value) && is_default(value),
    {
        (self, Ok(Self::Value::default()))
    }
}

/// What the callback of `node` allows: called on the pass `pre`, it may hand
/// back the pass `post` with the result `res`.
///
/// For a pass that overrides the callback this is what the override ensures;
/// for one that does not, `post` is `pre` and `res` is the default value.
pub open spec fn visited<V: Visitor<E>, E>(
    node: Node,
    pre: V,
    post: V,
    res: Result<V::Value, E>,
) -> bool {
    match node {
        Node::SignedInteger(n) => call_ensures(V::visit_signed_integer, (pre, &n), (post, res)),
        Node::EnumeratedValue(n) => call_ensures(V::visit_enumerated_value, (pre, &n), (post, res)),
        Node::Constant(n) => call_ensures(V::visit_constant, (pre, &n), (post, res)),
        Node::ConfigurationDeclaration(n) => call_ensures(
            V::visit_configuration_declaration,
            (pre, &n),
            (post, res),
        ),
        Node::ResourceDeclaration(n) => call_ensures(
            V::visit_resource_declaration,
            (pre, &n),
            (post, res),
        ),
        Node::VariableDeclaration(n) => call_ensures(
            V::visit_variable_declaration,
            (pre, &n),
            (post, res),
        ),
        Node::EnumDeclaration(n) => call_ensures(V::visit_enum_declaration, (pre, &n), (post, res)),
        Node::SubrangeDeclaration(n) => call_ensures(
            V::visit_subrange_declaration,
            (pre, &n),
            (post, res),
        ),
        Node::SimpleDeclaration(n) => call_ensures(
            V::visit_simple_declaration,
            (pre, &n),
            (post, res),
        ),
        Node::ArrayDeclaration(n) => call_ensures(
            V::visit_array_declaration,
            (pre, &n),
            (post, res),
        ),
        Node::StructureDeclaration(n) => call_ensures(
            V::visit_structure_declaration,
            (pre, &n),
            (post, res),
        ),
        Node::StructureInitializationDeclaration(n) => call_ensures(
            V::visit_structure_initialization_declaration,
            (pre, &n),
            (post, res),
        ),
        Node::StructureElementInit(n) => call_ensures(
            V::visit_structure_element_init,
            (pre, &n),
            (post, res),
        ),
        Node::StringDeclaration(n) => call_ensures(
            V::visit_string_declaration,
            (pre, &n),
            (post, res),
        ),
        Node::LateBoundDeclaration(n) => call_ensures(
            V::visit_late_bound_declaration,
            (pre, &n),
            (post, res),
        ),
        Node::FunctionBlockDeclaration(n) => call_ensures(
            V::visit_function_block_declaration,
            (pre, &n),
            (post, res),
        ),
        Node::FunctionDeclaration(n) => call_ensures(
            V::visit_function_declaration,
            (pre, &n),
            (post, res),
        ),
        Node::ProgramDeclaration(n) => call_ensures(
            V::visit_program_declaration,
            (pre, &n),
            (post, res),
        ),
        Node::Sfc(n) => call_ensures(V::visit_sfc, (pre, &n), (post, res)),
        Node::Network(n) => call_ensures(V::visit_network, (pre, &n), (post, res)),
        Node::Statements(n) => call_ensures(V::visit_statements, (pre, &n), (post, res)),
        Node::Assignment(n) => call_ensures(V::visit_assignment, (pre, &n), (post, res)),
        Node::FbCall(n) => call_ensures(V::visit_fb_call, (pre, &n), (post, res)),
        Node::If(n) => call_ensures(V::visit_if, (pre, &n), (post, res)),
        Node::Case(n) => call_ensures(V::visit_case, (pre, &n), (post, res)),
        Node::CaseStatementGroup(n) => call_ensures(
            V::visit_case_statement_group,
            (pre, &n),
            (post, res),
        ),
        Node::For(n) => call_ensures(V::visit_for, (pre, &n), (post, res)),
        Node::While(n) => call_ensures(V::visit_while, (pre, &n), (post, res)),
        Node::Repeat(n) => call_ensures(V::visit_repeat, (pre, &n), (post, res)),
        Node::Exit => call_ensures(V::visit_exit, (pre,), (post, res)),
        Node::Compare(n) => call_ensures(V::visit_compare, (pre, &n), (post, res)),
        Node::BinaryOp(n) => call_ensures(V::visit_binary_op, (pre, &n), (post, res)),
        Node::UnaryOp(n) => call_ensures(V::visit_unary_op, (pre, &n), (post, res)),
        Node::FunctionCall(n) => call_ensures(V::visit_function_call, (pre, &n), (post, res)),
        Node::AddressAssignment(n) => call_ensures(
            V::visit_address_assignment,
            (pre, &n),
            (post, res),
        ),
        Node::SymbolicVariable(n) => call_ensures(
            V::visit_symbolic_variable,
            (pre, &n),
            (post, res),
        ),
        Node::MultiElementVariable(n) => call_ensures(
            V::visit_multi_element_variable,
            (pre, &n),
            (post, res),
        ),
        Node::SimpleInitializer(n) => call_ensures(
            V::visit_simple_initializer,
            (pre, &n),
            (post, res),
        ),
        Node::StringInitializer(n) => call_ensures(
            V::visit_string_initializer,
            (pre, &n),
            (post, res),
        ),
        Node::EnumeratedTypeInitializer(n) => call_ensures(
            V::visit_enumerated_type_initializer,
            (pre, &n),
            (post, res),
        ),
        Node::EnumeratedValuesInitializer(n) => call_ensures(
            V::visit_enumerated_values_initializer,
            (pre, &n),
            (post, res),
        ),
        Node::FunctionBlockTypeInitializer(n) => call_ensures(
            V::visit_function_block_type_initializer,
            (pre, &n),
            (post, res),
        ),
        Node::EnumeratedSpecInit(n) => call_ensures(
            V::visit_enumerated_spec_init,
            (pre, &n),
            (post, res),
        ),
        Node::SubrangeSpecification(n) => call_ensures(
            V::visit_subrange_specification,
            (pre, &n),
            (post, res),
        ),
        Node::Subrange(n) => call_ensures(V::visit_subrange, (pre, &n), (post, res)),
        Node::ArrayInitializer(n) => call_ensures(
            V::visit_array_initializer,
            (pre, &n),
            (post, res),
        ),
    }
}

/// What a traversal of `nodes` allows: started with the pass `pre`, it may
/// end with the pass `post` and the result `res`.
///
/// The callbacks are called in the order of `nodes`, each on the pass that
/// the one before handed back. The first callback that fails ends the
/// traversal: its error is the result, and the pass is as that callback left
/// it. When none fails, the result is what the last callback returned where
/// `hands_back` is set, and the default value where it is not, or where
/// there are no nodes.
pub open spec fn traversed<V: Visitor<E>, E>(
    nodes: Seq<Node>,
    hands_back: bool,
    pre: V,
    post: V,
    res: Result<V::Value, E>,
) -> bool
    decreases nodes.len(),
{
    if nodes.len() == 0 {
        post == pre && (res matches Ok(value) && is_default(value))
    } else {
        exists|mid: V, first: Result<V::Value, E>| #[trigger]
            visited(nodes[0], pre, mid, first) && match first {
                Err(e) => post == mid && res == Err::<V::Value, E>(e),
                Ok(value) => if hands_back && nodes.len() == 1 {
                    post == mid && res == Ok::<V::Value, E>(value)
                } else {
                    traversed(nodes.drop_first(), hands_back, mid, post, res)
                },
            }
    }
}

/// Runs the pass `visitor` over `library`: over every node of every element,
/// in source order, until a callback fails. Returns the pass with that
/// failure, or with the default value when none failed.
pub fn walk<V: Visitor<E>, E>(visitor: V, library: &Library) -> (out: (V, Result<V::Value, E>))
    ensures
        traversed(library.nodes(), false, visitor, out.0, out.1),
{
    library.elements.accept(visitor)
}

} // verus!
