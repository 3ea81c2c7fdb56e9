//! The traversal of declarations and of initial values.
//!
//! The `visit_*` functions descend into the children of a node. The engine
//! calls them after the callback of the node; a callback must not call them,
//! or the children are visited twice.
use vstd::prelude::*;
use crate::accept_textual::accept_stmts;
use crate::acceptor::{done, leaf, offered_by_all, Acceptor};
use crate::common::{
    ArrayDeclaration, ArrayInitialElementKind, ArrayInitialValueAssignment,
    ArraySpecificationKind, ConfigurationDeclaration, Constant, DataTypeDeclarationKind,
    EnumeratedInitialValueAssignment, EnumeratedSpecificationInit, EnumeratedSpecificationKind,
    EnumeratedValue, EnumeratedValuesInitializer, EnumerationDeclaration, FunctionBlockBody,
    FunctionBlockDeclaration, FunctionBlockInitialValueAssignment, FunctionDeclaration,
    InitialValueAssignmentKind, LateBoundDeclaration, LibraryElement, ProgramDeclaration,
    ResourceDeclaration, Sfc, SignedInteger, SimpleDeclaration, SimpleInitializer, Statements,
    StringDeclaration, StringInitializer, StructInitialValueAssignmentKind,
    StructureDeclaration, StructureElementInit, StructureInitializationDeclaration, Subrange,
    SubrangeDeclaration, SubrangeSpecification, VarDecl,
};
use crate::common_sfc::Network;
use crate::node::Node;
use crate::textual::StmtKind;
use crate::traversal::{lemma_traversed_node, lemma_traversed_step, lemma_traversed_then};
use crate::visitor::{traversed, Visitor};

verus! {

/// A top-level declaration offers what the declaration it holds offers.
impl Acceptor for LibraryElement {
    open spec fn offered(&self) -> Seq<Node> {
        self.nodes()
    }

    open spec fn hands_back(&self) -> bool {
        self.yields()
    }

    fn accept<V: Visitor<E>, E>(&self, visitor: V) -> (out: (V, Result<V::Value, E>)) {
        assert(self.offered() == self.nodes() && self.hands_back() == self.yields());
        match self {
            LibraryElement::ConfigurationDeclaration(config) => config.accept(visitor),
            LibraryElement::DataTypeDeclaration(data_type) => data_type.accept(visitor),
            LibraryElement::FunctionBlockDeclaration(function_block) => {
                function_block.accept(visitor)
            },
            LibraryElement::FunctionDeclaration(function) => function.accept(visitor),
            LibraryElement::ProgramDeclaration(program) => program.accept(visitor),
        }
    }
}

/// Offers the node itself, then its children, and hands back what the descent
/// returns.
impl Acceptor for ConfigurationDeclaration {
    open spec fn offered(&self) -> Seq<Node> {
        self.nodes()
    }

    open spec fn hands_back(&self) -> bool {
        self.yields()
    }

    fn accept<V: Visitor<E>, E>(&self, visitor: V) -> (out: (V, Result<V::Value, E>)) {
        assert(self.offered() == self.nodes() && self.hands_back() == self.yields());
        let called = visitor.visit_configuration_declaration(self);
        let ghost at = called;
        let out = match called {
            (v, Ok(_)) => visit_configuration_declaration(v, self),
            (v, Err(e)) => (v, Err(e)),
        };
        proof {
            lemma_traversed_node(
                Node::ConfigurationDeclaration(*self),
                self.children(),
                self.children_yield(),
                visitor,
                at,
                out,
            );
        }
        out
    }
}

/// Descends into a configuration: the global variables, then the resources.
/// When nothing fails, returns the default value.
pub fn visit_configuration_declaration<V: Visitor<E>, E>(
    visitor: V,
    node: &ConfigurationDeclaration,
) -> (out: (V, Result<V::Value, E>))
    ensures
        traversed(node.children(), node.children_yield(), visitor, out.0, out.1),
{
    let out = node.global_var.accept(visitor);
    let ghost so_far = out;
    let out = match out {
        (v, Ok(_)) => node.resource_decl.accept(v),
        (v, Err(e)) => (v, Err(e)),
    };
    proof {
        lemma_traversed_then(
            offered_by_all(node.global_var@),
            false,
            offered_by_all(node.resource_decl@),
            false,
            visitor,
            so_far,
            out,
        );
    }
    out
}

/// Offers the node itself, then its children, and hands back what the descent
/// returns.
impl Acceptor for ResourceDeclaration {
    open spec fn offered(&self) -> Seq<Node> {
        self.nodes()
    }

    open spec fn hands_back(&self) -> bool {
        self.yields()
    }

    fn accept<V: Visitor<E>, E>(&self, visitor: V) -> (out: (V, Result<V::Value, E>)) {
        assert(self.offered() == self.nodes() && self.hands_back() == self.yields());
        let called = visitor.visit_resource_declaration(self);
        let ghost at = called;
        let out = match called {
            (v, Ok(_)) => visit_resource_declaration(v, self),
            (v, Err(e)) => (v, Err(e)),
        };
        proof {
            lemma_traversed_node(
                Node::ResourceDeclaration(*self),
                self.children(),
                self.children_yield(),
                visitor,
                at,
                out,
            );
        }
        out
    }
}

/// Descends into a resource: its global variables.
/// When nothing fails, returns the default value.
pub fn visit_resource_declaration<V: Visitor<E>, E>(
    visitor: V,
    node: &ResourceDeclaration,
) -> (out: (V, Result<V::Value, E>))
    ensures
        traversed(node.children(), node.children_yield(), visitor, out.0, out.1),
{
    node.global_vars.accept(visitor)
}

/// Offers the node itself, then its children, and hands back what the descent
/// returns.
impl Acceptor for VarDecl {
    open spec fn offered(&self) -> Seq<Node> {
        self.nodes()
    }

    open spec fn hands_back(&self) -> bool {
        self.yields()
    }

    fn accept<V: Visitor<E>, E>(&self, visitor: V) -> (out: (V, Result<V::Value, E>)) {
        assert(self.offered() == self.nodes() && self.hands_back() == self.yields());
        let called = visitor.visit_variable_declaration(self);
        let ghost at = called;
        let out = match called {
            (v, Ok(_)) => visit_variable_declaration(v, self),
            (v, Err(e)) => (v, Err(e)),
        };
        proof {
            lemma_traversed_node(
                Node::VariableDeclaration(*self),
                self.children(),
                self.children_yield(),
                visitor,
                at,
                out,
            );
        }
        out
    }
}

/// Descends into the declaration of a variable: its initial value.
/// When nothing fails, returns what the last of these hands back.
pub fn visit_variable_declaration<V: Visitor<E>, E>(
    visitor: V,
    node: &VarDecl,
) -> (out: (V, Result<V::Value, E>))
    ensures
        traversed(node.children(), node.children_yield(), visitor, out.0, out.1),
{
    node.initializer.accept(visitor)
}

/// An initial value offers what its kind offers. A value that is absent, or
/// whose type is resolved later, offers nothing.
impl Acceptor for InitialValueAssignmentKind {
    open spec fn offered(&self) -> Seq<Node> {
        self.nodes()
    }

    open spec fn hands_back(&self) -> bool {
        self.yields()
    }

    fn accept<V: Visitor<E>, E>(&self, visitor: V) -> (out: (V, Result<V::Value, E>)) {
        assert(self.offered() == self.nodes() && self.hands_back() == self.yields());
        match self {
            InitialValueAssignmentKind::Absent => done(visitor),
            InitialValueAssignmentKind::Simple(init) => init.accept(visitor),
            InitialValueAssignmentKind::String(init) => init.accept(visitor),
            InitialValueAssignmentKind::EnumeratedValues(init) => init.accept(visitor),
            InitialValueAssignmentKind::EnumeratedType(init) => init.accept(visitor),
            InitialValueAssignmentKind::FunctionBlock(init) => init.accept(visitor),
            InitialValueAssignmentKind::Subrange(spec) => spec.accept(visitor),
            InitialValueAssignmentKind::Structure(init) => init.accept(visitor),
            InitialValueAssignmentKind::Array(init) => init.accept(visitor),
            InitialValueAssignmentKind::LateResolvedType(_) => done(visitor),
        }
    }
}

/// Offers the node itself, and hands back what its callback returned.
impl Acceptor for SimpleInitializer {
    open spec fn offered(&self) -> Seq<Node> {
        self.nodes()
    }

    open spec fn hands_back(&self) -> bool {
        self.yields()
    }

    fn accept<V: Visitor<E>, E>(&self, visitor: V) -> (out: (V, Result<V::Value, E>)) {
        assert(self.offered() == self.nodes() && self.hands_back() == self.yields());
        leaf(
            Ghost(Node::SimpleInitializer(*self)),
            Ghost(visitor),
            visitor.visit_simple_initializer(self),
        )
    }
}

/// Offers the node itself, and hands back what its callback returned.
impl Acceptor for StringInitializer {
    open spec fn offered(&self) -> Seq<Node> {
        self.nodes()
    }

    open spec fn hands_back(&self) -> bool {
        self.yields()
    }

    fn accept<V: Visitor<E>, E>(&self, visitor: V) -> (out: (V, Result<V::Value, E>)) {
        assert(self.offered() == self.nodes() && self.hands_back() == self.yields());
        leaf(
            Ghost(Node::StringInitializer(*self)),
            Ghost(visitor),
            visitor.visit_string_initializer(self),
        )
    }
}

/// Offers the node itself, and hands back what its callback returned.
impl Acceptor for EnumeratedValuesInitializer {
    open spec fn offered(&self) -> Seq<Node> {
        self.nodes()
    }

    open spec fn hands_back(&self) -> bool {
        self.yields()
    }

    fn accept<V: Visitor<E>, E>(&self, visitor: V) -> (out: (V, Result<V::Value, E>)) {
        assert(self.offered() == self.nodes() && self.hands_back() == self.yields());
        leaf(
            Ghost(Node::EnumeratedValuesInitializer(*self)),
            Ghost(visitor),
            visitor.visit_enumerated_values_initializer(self),
        )
    }
}

/// Offers the node itself, and hands back what its callback returned.
impl Acceptor for EnumeratedInitialValueAssignment {
    open spec fn offered(&self) -> Seq<Node> {
        self.nodes()
    }

    open spec fn hands_back(&self) -> bool {
        self.yields()
    }

    fn accept<V: Visitor<E>, E>(&self, visitor: V) -> (out: (V, Result<V::Value, E>)) {
        assert(self.offered() == self.nodes() && self.hands_back() == self.yields());
        leaf(
            Ghost(Node::EnumeratedTypeInitializer(*self)),
            Ghost(visitor),
            visitor.visit_enumerated_type_initializer(self),
        )
    }
}

/// Offers the node itself, and hands back what its callback returned.
impl Acceptor for FunctionBlockInitialValueAssignment {
    open spec fn offered(&self) -> Seq<Node> {
        self.nodes()
    }

    open spec fn hands_back(&self) -> bool {
        self.yields()
    }

    fn accept<V: Visitor<E>, E>(&self, visitor: V) -> (out: (V, Result<V::Value, E>)) {
        assert(self.offered() == self.nodes() && self.hands_back() == self.yields());
        leaf(
            Ghost(Node::FunctionBlockTypeInitializer(*self)),
            Ghost(visitor),
            visitor.visit_function_block_type_initializer(self),
        )
    }
}

/// Offers the node itself, and hands back what its callback returned.
impl Acceptor for ArrayInitialValueAssignment {
    open spec fn offered(&self) -> Seq<Node> {
        self.nodes()
    }

    open spec fn hands_back(&self) -> bool {
        self.yields()
    }

    fn accept<V: Visitor<E>, E>(&self, visitor: V) -> (out: (V, Result<V::Value, E>)) {
        assert(self.offered() == self.nodes() && self.hands_back() == self.yields());
        leaf(
            Ghost(Node::ArrayInitializer(*self)),
            Ghost(visitor),
            visitor.visit_array_initializer(self),
        )
    }
}

/// Offers the node itself, and hands back what its callback returned.
impl Acceptor for Constant {
    open spec fn offered(&self) -> Seq<Node> {
        self.nodes()
    }

    open spec fn hands_back(&self) -> bool {
        self.yields()
    }

    fn accept<V: Visitor<E>, E>(&self, visitor: V) -> (out: (V, Result<V::Value, E>)) {
        assert(self.offered() == self.nodes() && self.hands_back() == self.yields());
        leaf(Ghost(Node::Constant(*self)), Ghost(visitor), visitor.visit_constant(self))
    }
}

/// Offers the node itself, and hands back what its callback returned.
impl Acceptor for EnumeratedValue {
    open spec fn offered(&self) -> Seq<Node> {
        self.nodes()
    }

    open spec fn hands_back(&self) -> bool {
        self.yields()
    }

    fn accept<V: Visitor<E>, E>(&self, visitor: V) -> (out: (V, Result<V::Value, E>)) {
        assert(self.offered() == self.nodes() && self.hands_back() == self.yields());
        leaf(
            Ghost(Node::EnumeratedValue(*self)),
            Ghost(visitor),
            visitor.visit_enumerated_value(self),
        )
    }
}

/// Offers the node itself, and hands back what its callback returned.
impl Acceptor for SignedInteger {
    open spec fn offered(&self) -> Seq<Node> {
        self.nodes()
    }

    open spec fn hands_back(&self) -> bool {
        self.yields()
    }

    fn accept<V: Visitor<E>, E>(&self, visitor: V) -> (out: (V, Result<V::Value, E>)) {
        assert(self.offered() == self.nodes() && self.hands_back() == self.yields());
        leaf(Ghost(Node::SignedInteger(*self)), Ghost(visitor), visitor.visit_signed_integer(self))
    }
}

/// The declaration of a data type offers what the declaration it holds
/// offers.
impl Acceptor for DataTypeDeclarationKind {
    open spec fn offered(&self) -> Seq<Node> {
        self.nodes()
    }

    open spec fn hands_back(&self) -> bool {
        self.yields()
    }

    fn accept<V: Visitor<E>, E>(&self, visitor: V) -> (out: (V, Result<V::Value, E>)) {
        assert(self.offered() == self.nodes() && self.hands_back() == self.yields());
        match self {
            DataTypeDeclarationKind::Enumeration(decl) => decl.accept(visitor),
            DataTypeDeclarationKind::Subrange(decl) => decl.accept(visitor),
            DataTypeDeclarationKind::Simple(decl) => decl.accept(visitor),
            DataTypeDeclarationKind::Array(decl) => decl.accept(visitor),
            DataTypeDeclarationKind::Structure(decl) => decl.accept(visitor),
            DataTypeDeclarationKind::StructureInitialization(decl) => decl.accept(visitor),
            DataTypeDeclarationKind::String(decl) => decl.accept(visitor),
            DataTypeDeclarationKind::LateBound(decl) => decl.accept(visitor),
        }
    }
}

/// Offers the node itself, then its children, and hands back what the descent
/// returns.
impl Acceptor for EnumerationDeclaration {
    open spec fn offered(&self) -> Seq<Node> {
        self.nodes()
    }

    open spec fn hands_back(&self) -> bool {
        self.yields()
    }

    fn accept<V: Visitor<E>, E>(&self, visitor: V) -> (out: (V, Result<V::Value, E>)) {
        assert(self.offered() == self.nodes() && self.hands_back() == self.yields());
        let called = visitor.visit_enum_declaration(self);
        let ghost at = called;
        let out = match called {
            (v, Ok(_)) => visit_enum_declaration(v, self),
            (v, Err(e)) => (v, Err(e)),
        };
        proof {
            lemma_traversed_node(
                Node::EnumDeclaration(*self),
                self.children(),
                self.children_yield(),
                visitor,
                at,
                out,
            );
        }
        out
    }
}

/// Descends into the declaration of an enumeration: its specification.
/// When nothing fails, returns what the last of these hands back.
pub fn visit_enum_declaration<V: Visitor<E>, E>(
    visitor: V,
    node: &EnumerationDeclaration,
) -> (out: (V, Result<V::Value, E>))
    ensures
        traversed(node.children(), node.children_yield(), visitor, out.0, out.1),
{
    node.spec_init.accept(visitor)
}

/// Offers the node itself, and hands back what its callback returned.
impl Acceptor for EnumeratedSpecificationInit {
    open spec fn offered(&self) -> Seq<Node> {
        self.nodes()
    }

    open spec fn hands_back(&self) -> bool {
        self.yields()
    }

    fn accept<V: Visitor<E>, E>(&self, visitor: V) -> (out: (V, Result<V::Value, E>)) {
        assert(self.offered() == self.nodes() && self.hands_back() == self.yields());
        leaf(
            Ghost(Node::EnumeratedSpecInit(*self)),
            Ghost(visitor),
            visitor.visit_enumerated_spec_init(self),
        )
    }
}

/// The values of an enumeration, or the name it stands for, offer nothing.
impl Acceptor for EnumeratedSpecificationKind {
    open spec fn offered(&self) -> Seq<Node> {
        Seq::empty()
    }

    open spec fn hands_back(&self) -> bool {
        false
    }

    fn accept<V: Visitor<E>, E>(&self, visitor: V) -> (out: (V, Result<V::Value, E>)) {
        assert(self.offered() == Seq::<Node>::empty() && !self.hands_back());
        done(visitor)
    }
}

/// Offers the node itself, then its children, and hands back what the descent
/// returns.
impl Acceptor for SubrangeDeclaration {
    open spec fn offered(&self) -> Seq<Node> {
        self.nodes()
    }

    open spec fn hands_back(&self) -> bool {
        self.yields()
    }

    fn accept<V: Visitor<E>, E>(&self, visitor: V) -> (out: (V, Result<V::Value, E>)) {
        assert(self.offered() == self.nodes() && self.hands_back() == self.yields());
        let called = visitor.visit_subrange_declaration(self);
        let ghost at = called;
        let out = match called {
            (v, Ok(_)) => visit_subrange_declaration(v, self),
            (v, Err(e)) => (v, Err(e)),
        };
        proof {
            lemma_traversed_node(
                Node::SubrangeDeclaration(*self),
                self.children(),
                self.children_yield(),
                visitor,
                at,
                out,
            );
        }
        out
    }
}

/// Descends into the declaration of a subrange type: its specification.
/// When nothing fails, returns what the last of these hands back.
pub fn visit_subrange_declaration<V: Visitor<E>, E>(
    visitor: V,
    node: &SubrangeDeclaration,
) -> (out: (V, Result<V::Value, E>))
    ensures
        traversed(node.children(), node.children_yield(), visitor, out.0, out.1),
{
    node.spec.accept(visitor)
}

/// Offers the node itself, then its children, and hands back what the descent
/// returns.
impl Acceptor for SubrangeSpecification {
    open spec fn offered(&self) -> Seq<Node> {
        self.nodes()
    }

    open spec fn hands_back(&self) -> bool {
        self.yields()
    }

    fn accept<V: Visitor<E>, E>(&self, visitor: V) -> (out: (V, Result<V::Value, E>)) {
        assert(self.offered() == self.nodes() && self.hands_back() == self.yields());
        let called = visitor.visit_subrange_specification(self);
        let ghost at = called;
        let out = match called {
            (v, Ok(_)) => visit_subrange_specification(v, self),
            (v, Err(e)) => (v, Err(e)),
        };
        proof {
            lemma_traversed_node(
                Node::SubrangeSpecification(*self),
                self.children(),
                self.children_yield(),
                visitor,
                at,
                out,
            );
        }
        out
    }
}

/// Descends into the specification of a subrange: its range.
/// When nothing fails, returns what the last of these hands back.
pub fn visit_subrange_specification<V: Visitor<E>, E>(
    visitor: V,
    node: &SubrangeSpecification,
) -> (out: (V, Result<V::Value, E>))
    ensures
        traversed(node.children(), node.children_yield(), visitor, out.0, out.1),
{
    node.subrange.accept(visitor)
}

/// Offers the node itself, and hands back what its callback returned.
impl Acceptor for Subrange {
    open spec fn offered(&self) -> Seq<Node> {
        self.nodes()
    }

    open spec fn hands_back(&self) -> bool {
        self.yields()
    }

    fn accept<V: Visitor<E>, E>(&self, visitor: V) -> (out: (V, Result<V::Value, E>)) {
        assert(self.offered() == self.nodes() && self.hands_back() == self.yields());
        leaf(Ghost(Node::Subrange(*self)), Ghost(visitor), visitor.visit_subrange(self))
    }
}

/// Offers the node itself, then its children, and hands back what the descent
/// returns.
impl Acceptor for SimpleDeclaration {
    open spec fn offered(&self) -> Seq<Node> {
        self.nodes()
    }

    open spec fn hands_back(&self) -> bool {
        self.yields()
    }

    fn accept<V: Visitor<E>, E>(&self, visitor: V) -> (out: (V, Result<V::Value, E>)) {
        assert(self.offered() == self.nodes() && self.hands_back() == self.yields());
        let called = visitor.visit_simple_declaration(self);
        let ghost at = called;
        let out = match called {
            (v, Ok(_)) => visit_simple_declaration(v, self),
            (v, Err(e)) => (v, Err(e)),
        };
        proof {
            lemma_traversed_node(
                Node::SimpleDeclaration(*self),
                self.children(),
                self.children_yield(),
                visitor,
                at,
                out,
            );
        }
        out
    }
}

/// Descends into the declaration of a type as another type: its initial value.
/// When nothing fails, returns what the last of these hands back.
pub fn visit_simple_declaration<V: Visitor<E>, E>(
    visitor: V,
    node: &SimpleDeclaration,
) -> (out: (V, Result<V::Value, E>))
    ensures
        traversed(node.children(), node.children_yield(), visitor, out.0, out.1),
{
    node.spec_and_init.accept(visitor)
}

/// Offers the node itself, then its children, and hands back what the descent
/// returns.
impl Acceptor for ArrayDeclaration {
    open spec fn offered(&self) -> Seq<Node> {
        self.nodes()
    }

    open spec fn hands_back(&self) -> bool {
        self.yields()
    }

    fn accept<V: Visitor<E>, E>(&self, visitor: V) -> (out: (V, Result<V::Value, E>)) {
        assert(self.offered() == self.nodes() && self.hands_back() == self.yields());
        let called = visitor.visit_array_declaration(self);
        let ghost at = called;
        let out = match called {
            (v, Ok(_)) => visit_array_declaration(v, self),
            (v, Err(e)) => (v, Err(e)),
        };
        proof {
            lemma_traversed_node(
                Node::ArrayDeclaration(*self),
                self.children(),
                self.children_yield(),
                visitor,
                at,
                out,
            );
        }
        out
    }
}

/// Descends into the declaration of an array type: the specification, then
/// the initial values.
/// When nothing fails, returns the default value.
pub fn visit_array_declaration<V: Visitor<E>, E>(
    visitor: V,
    node: &ArrayDeclaration,
) -> (out: (V, Result<V::Value, E>))
    ensures
        traversed(node.children(), node.children_yield(), visitor, out.0, out.1),
{
    let out = node.spec.accept(visitor);
    let ghost so_far = out;
    let out = match out {
        (v, Ok(_)) => node.init.accept(v),
        (v, Err(e)) => (v, Err(e)),
    };
    proof {
        lemma_traversed_then(
            node.spec.nodes(),
            node.spec.yields(),
            offered_by_all(node.init@),
            false,
            visitor,
            so_far,
            out,
        );
    }
    out
}

/// The specification of an array offers its index ranges, where it lists
/// them.
impl Acceptor for ArraySpecificationKind {
    open spec fn offered(&self) -> Seq<Node> {
        self.nodes()
    }

    open spec fn hands_back(&self) -> bool {
        self.yields()
    }

    fn accept<V: Visitor<E>, E>(&self, visitor: V) -> (out: (V, Result<V::Value, E>)) {
        assert(self.offered() == self.nodes() && self.hands_back() == self.yields());
        match self {
            ArraySpecificationKind::Type(_) => done(visitor),
            ArraySpecificationKind::Subranges(ranges, _) => ranges.accept(visitor),
        }
    }
}

/// Offers one entry of the initial values of an array.
fn accept_array_entry<V: Visitor<E>, E>(
    visitor: V,
    entry: &ArrayInitialElementKind,
) -> (out: (V, Result<V::Value, E>))
    ensures
        traversed(entry.nodes(), entry.yields(), visitor, out.0, out.1),
    decreases entry,
{
    match entry {
        ArrayInitialElementKind::Constant(constant) => constant.accept(visitor),
        ArrayInitialElementKind::EnumValue(value) => value.accept(visitor),
        ArrayInitialElementKind::Repeated(_, repeated) => match &**repeated {
            Some(inner) => accept_array_entry(visitor, inner),
            None => done(visitor),
        },
    }
}

/// An entry of the initial values of an array offers its constant or its
/// enumerated value; a repetition offers the entry that it repeats.
impl Acceptor for ArrayInitialElementKind {
    open spec fn offered(&self) -> Seq<Node> {
        self.nodes()
    }

    open spec fn hands_back(&self) -> bool {
        self.yields()
    }

    fn accept<V: Visitor<E>, E>(&self, visitor: V) -> (out: (V, Result<V::Value, E>)) {
        assert(self.offered() == self.nodes() && self.hands_back() == self.yields());
        accept_array_entry(visitor, self)
    }
}

/// Offers the node itself, and hands back what its callback returned.
impl Acceptor for StructureDeclaration {
    open spec fn offered(&self) -> Seq<Node> {
        self.nodes()
    }

    open spec fn hands_back(&self) -> bool {
        self.yields()
    }

    fn accept<V: Visitor<E>, E>(&self, visitor: V) -> (out: (V, Result<V::Value, E>)) {
        assert(self.offered() == self.nodes() && self.hands_back() == self.yields());
        leaf(
            Ghost(Node::StructureDeclaration(*self)),
            Ghost(visitor),
            visitor.visit_structure_declaration(self),
        )
    }
}

/// Descends into the declaration of a structure type: it offers nothing
/// below itself, so this visits nothing and returns the default value.
pub fn visit_structure_declaration<V: Visitor<E>, E>(
    visitor: V,
    node: &StructureDeclaration,
) -> (out: (V, Result<V::Value, E>))
    ensures
        traversed(node.children(), node.children_yield(), visitor, out.0, out.1),
{
    done(visitor)
}

/// Offers a structure with initial values: its own node, then its
/// initialized elements.
fn accept_struct_init<V: Visitor<E>, E>(
    visitor: V,
    node: &StructureInitializationDeclaration,
) -> (out: (V, Result<V::Value, E>))
    ensures
        traversed(node.nodes(), node.yields(), visitor, out.0, out.1),
{
    let called = visitor.visit_structure_initialization_declaration(node);
    let ghost at = called;
    let out = match called {
        (v, Ok(_)) => visit_structure_initialization_declaration(v, node),
        (v, Err(e)) => (v, Err(e)),
    };
    proof {
        lemma_traversed_node(
            Node::StructureInitializationDeclaration(*node),
            node.children(),
            node.children_yield(),
            visitor,
            at,
            out,
        );
    }
    out
}

/// A structure with initial values offers its own node, then its initialized
/// elements.
impl Acceptor for StructureInitializationDeclaration {
    open spec fn offered(&self) -> Seq<Node> {
        self.nodes()
    }

    open spec fn hands_back(&self) -> bool {
        self.yields()
    }

    fn accept<V: Visitor<E>, E>(&self, visitor: V) -> (out: (V, Result<V::Value, E>)) {
        assert(self.offered() == self.nodes() && self.hands_back() == self.yields());
        accept_struct_init(visitor, self)
    }
}

/// Descends into a structure with initial values: its initialized elements,
/// in order.
/// When nothing fails, returns the default value.
pub fn visit_structure_initialization_declaration<V: Visitor<E>, E>(
    visitor: V,
    node: &StructureInitializationDeclaration,
) -> (out: (V, Result<V::Value, E>))
    ensures
        traversed(node.children(), node.children_yield(), visitor, out.0, out.1),
{
    accept_struct_elements(visitor, &node.elements_init)
}

/// Offers the initial value of one structure element: its own node, then
/// the value.
fn accept_struct_element<V: Visitor<E>, E>(
    visitor: V,
    node: &StructureElementInit,
) -> (out: (V, Result<V::Value, E>))
    ensures
        traversed(node.nodes(), node.yields(), visitor, out.0, out.1),
    decreases node, 1int,
{
    let called = visitor.visit_structure_element_init(node);
    let ghost at = called;
    let out = match called {
        (v, Ok(_)) => visit_structure_element_init(v, node),
        (v, Err(e)) => (v, Err(e)),
    };
    proof {
        lemma_traversed_node(
            Node::StructureElementInit(*node),
            node.children(),
            node.children_yield(),
            visitor,
            at,
            out,
        );
    }
    out
}

/// The initial value of a structure element offers its own node, then the
/// value.
impl Acceptor for StructureElementInit {
    open spec fn offered(&self) -> Seq<Node> {
        self.nodes()
    }

    open spec fn hands_back(&self) -> bool {
        self.yields()
    }

    fn accept<V: Visitor<E>, E>(&self, visitor: V) -> (out: (V, Result<V::Value, E>)) {
        assert(self.offered() == self.nodes() && self.hands_back() == self.yields());
        accept_struct_element(visitor, self)
    }
}

/// Offers the initialized elements of a structure, in order, until one fails.
/// When none fails, returns the default value.
fn accept_struct_elements<V: Visitor<E>, E>(
    visitor: V,
    items: &Vec<StructureElementInit>,
) -> (out: (V, Result<V::Value, E>))
    ensures
        traversed(StructureElementInit::nodes_of_all(items@), false, visitor, out.0, out.1),
    decreases items, 0int,
{
    let ghost all = StructureElementInit::nodes_of_all(items@);
    let mut v = visitor;
    let mut i: usize = 0;
    assert(items@.skip(0) =~= items@);
    while i < items.len()
        invariant
            i <= items.len(),
            all == StructureElementInit::nodes_of_all(items@),
            forall|post: V, res: Result<V::Value, E>| #[trigger]
                traversed(
                    StructureElementInit::nodes_of_all(items@.skip(i as int)),
                    false,
                    v,
                    post,
                    res,
                ) ==> traversed(all, false, visitor, post, res),
        decreases items.len() - i,
    {
        let ghost before = v;
        let stepped = accept_struct_element(v, &items[i]);
        proof {
            let first = items@[i as int].nodes();
            let rest = StructureElementInit::nodes_of_all(items@.skip(i + 1));
            assert(items@.skip(i as int)[0] == items@[i as int]);
            assert(items@.skip(i as int).drop_first() =~= items@.skip(i + 1));
            assert(StructureElementInit::nodes_of_all(items@.skip(i as int)) == first + rest);
            lemma_traversed_step(
                all,
                visitor,
                first,
                items@[i as int].yields(),
                rest,
                before,
                stepped,
            );
        }
        match stepped {
            (after, Err(e)) => {
                return (after, Err(e));
            },
            (after, Ok(_)) => {
                v = after;
            },
        }
        i = i + 1;
    }
    assert(StructureElementInit::nodes_of_all(items@.skip(i as int)) =~= Seq::<Node>::empty());
    done(v)
}

/// Descends into the initial value of a structure element: the value.
/// When nothing fails, returns what the last of these hands back.
pub fn visit_structure_element_init<V: Visitor<E>, E>(
    visitor: V,
    node: &StructureElementInit,
) -> (out: (V, Result<V::Value, E>))
    ensures
        traversed(node.children(), node.children_yield(), visitor, out.0, out.1),
    decreases node, 0int,
{
    accept_struct_value(visitor, &node.init)
}

/// Offers what a structure element starts with.
fn accept_struct_value<V: Visitor<E>, E>(
    visitor: V,
    value: &StructInitialValueAssignmentKind,
) -> (out: (V, Result<V::Value, E>))
    ensures
        traversed(value.nodes(), value.yields(), visitor, out.0, out.1),
    decreases value, 1int,
{
    match value {
        StructInitialValueAssignmentKind::Constant(constant) => constant.accept(visitor),
        StructInitialValueAssignmentKind::EnumeratedValue(value) => value.accept(visitor),
        StructInitialValueAssignmentKind::Array(entries) => entries.accept(visitor),
        StructInitialValueAssignmentKind::Structure(elements) => accept_struct_elements(
            visitor,
            elements,
        ),
    }
}

/// What a structure element starts with offers its constant, its enumerated
/// value, its array entries or its nested elements.
impl Acceptor for StructInitialValueAssignmentKind {
    open spec fn offered(&self) -> Seq<Node> {
        self.nodes()
    }

    open spec fn hands_back(&self) -> bool {
        self.yields()
    }

    fn accept<V: Visitor<E>, E>(&self, visitor: V) -> (out: (V, Result<V::Value, E>)) {
        assert(self.offered() == self.nodes() && self.hands_back() == self.yields());
        accept_struct_value(visitor, self)
    }
}

/// Offers the node itself, and hands back what its callback returned.
impl Acceptor for StringDeclaration {
    open spec fn offered(&self) -> Seq<Node> {
        self.nodes()
    }

    open spec fn hands_back(&self) -> bool {
        self.yields()
    }

    fn accept<V: Visitor<E>, E>(&self, visitor: V) -> (out: (V, Result<V::Value, E>)) {
        assert(self.offered() == self.nodes() && self.hands_back() == self.yields());
        leaf(
            Ghost(Node::StringDeclaration(*self)),
            Ghost(visitor),
            visitor.visit_string_declaration(self),
        )
    }
}

/// Descends into the declaration of a string type: it offers nothing
/// below itself, so this visits nothing and returns the default value.
pub fn visit_string_declaration<V: Visitor<E>, E>(
    visitor: V,
    node: &StringDeclaration,
) -> (out: (V, Result<V::Value, E>))
    ensures
        traversed(node.children(), node.children_yield(), visitor, out.0, out.1),
{
    done(visitor)
}

/// Offers the node itself, and hands back what its callback returned.
impl Acceptor for LateBoundDeclaration {
    open spec fn offered(&self) -> Seq<Node> {
        self.nodes()
    }

    open spec fn hands_back(&self) -> bool {
        self.yields()
    }

    fn accept<V: Visitor<E>, E>(&self, visitor: V) -> (out: (V, Result<V::Value, E>)) {
        assert(self.offered() == self.nodes() && self.hands_back() == self.yields());
        leaf(
            Ghost(Node::LateBoundDeclaration(*self)),
            Ghost(visitor),
            visitor.visit_late_bound_declaration(self),
        )
    }
}

/// Descends into a late-bound declaration: it offers nothing below
/// itself, so this visits nothing and returns the default value.
pub fn visit_late_bound_declaration<V: Visitor<E>, E>(
    visitor: V,
    node: &LateBoundDeclaration,
) -> (out: (V, Result<V::Value, E>))
    ensures
        traversed(node.children(), node.children_yield(), visitor, out.0, out.1),
{
    done(visitor)
}

/// Offers the node itself, then its children, and hands back what the descent
/// returns.
impl Acceptor for FunctionBlockDeclaration {
    open spec fn offered(&self) -> Seq<Node> {
        self.nodes()
    }

    open spec fn hands_back(&self) -> bool {
        self.yields()
    }

    fn accept<V: Visitor<E>, E>(&self, visitor: V) -> (out: (V, Result<V::Value, E>)) {
        assert(self.offered() == self.nodes() && self.hands_back() == self.yields());
        let called = visitor.visit_function_block_declaration(self);
        let ghost at = called;
        let out = match called {
            (v, Ok(_)) => visit_function_block_declaration(v, self),
            (v, Err(e)) => (v, Err(e)),
        };
        proof {
            lemma_traversed_node(
                Node::FunctionBlockDeclaration(*self),
                self.children(),
                self.children_yield(),
                visitor,
                at,
                out,
            );
        }
        out
    }
}

/// Descends into a function block: the variables, then the body.
/// When nothing fails, returns what the last of these hands back.
pub fn visit_function_block_declaration<V: Visitor<E>, E>(
    visitor: V,
    node: &FunctionBlockDeclaration,
) -> (out: (V, Result<V::Value, E>))
    ensures
        traversed(node.children(), node.children_yield(), visitor, out.0, out.1),
{
    let out = node.variables.accept(visitor);
    let ghost so_far = out;
    let out = match out {
        (v, Ok(_)) => node.body.accept(v),
        (v, Err(e)) => (v, Err(e)),
    };
    proof {
        lemma_traversed_then(
            offered_by_all(node.variables@),
            false,
            node.body.nodes(),
            node.body.yields(),
            visitor,
            so_far,
            out,
        );
    }
    out
}

/// Offers the node itself, then its children, and hands back what the descent
/// returns.
impl Acceptor for ProgramDeclaration {
    open spec fn offered(&self) -> Seq<Node> {
        self.nodes()
    }

    open spec fn hands_back(&self) -> bool {
        self.yields()
    }

    fn accept<V: Visitor<E>, E>(&self, visitor: V) -> (out: (V, Result<V::Value, E>)) {
        assert(self.offered() == self.nodes() && self.hands_back() == self.yields());
        let called = visitor.visit_program_declaration(self);
        let ghost at = called;
        let out = match called {
            (v, Ok(_)) => visit_program_declaration(v, self),
            (v, Err(e)) => (v, Err(e)),
        };
        proof {
            lemma_traversed_node(
                Node::ProgramDeclaration(*self),
                self.children(),
                self.children_yield(),
                visitor,
                at,
                out,
            );
        }
        out
    }
}

/// Descends into a program: the variables, then the body.
/// When nothing fails, returns what the last of these hands back.
pub fn visit_program_declaration<V: Visitor<E>, E>(
    visitor: V,
    node: &ProgramDeclaration,
) -> (out: (V, Result<V::Value, E>))
    ensures
        traversed(node.children(), node.children_yield(), visitor, out.0, out.1),
{
    let out = node.variables.accept(visitor);
    let ghost so_far = out;
    let out = match out {
        (v, Ok(_)) => node.body.accept(v),
        (v, Err(e)) => (v, Err(e)),
    };
    proof {
        lemma_traversed_then(
            offered_by_all(node.variables@),
            false,
            node.body.nodes(),
            node.body.yields(),
            visitor,
            so_far,
            out,
        );
    }
    out
}

/// Offers the node itself, then its children, and hands back what the descent
/// returns.
impl Acceptor for FunctionDeclaration {
    open spec fn offered(&self) -> Seq<Node> {
        self.nodes()
    }

    open spec fn hands_back(&self) -> bool {
        self.yields()
    }

    fn accept<V: Visitor<E>, E>(&self, visitor: V) -> (out: (V, Result<V::Value, E>)) {
        assert(self.offered() == self.nodes() && self.hands_back() == self.yields());
        let called = visitor.visit_function_declaration(self);
        let ghost at = called;
        let out = match called {
            (v, Ok(_)) => visit_function_declaration(v, self),
            (v, Err(e)) => (v, Err(e)),
        };
        proof {
            lemma_traversed_node(
                Node::FunctionDeclaration(*self),
                self.children(),
                self.children_yield(),
                visitor,
                at,
                out,
            );
        }
        out
    }
}

/// Descends into a function: the variables, then the statements.
/// When nothing fails, returns the default value.
pub fn visit_function_declaration<V: Visitor<E>, E>(
    visitor: V,
    node: &FunctionDeclaration,
) -> (out: (V, Result<V::Value, E>))
    ensures
        traversed(node.children(), node.children_yield(), visitor, out.0, out.1),
{
    let out = node.variables.accept(visitor);
    let ghost so_far = out;
    let out = match out {
        (v, Ok(_)) => accept_stmts(v, &node.body),
        (v, Err(e)) => (v, Err(e)),
    };
    proof {
        lemma_traversed_then(
            offered_by_all(node.variables@),
            false,
            StmtKind::nodes_of_all(node.body@),
            false,
            visitor,
            so_far,
            out,
        );
    }
    out
}

/// A body offers its chart or its statements. An empty body offers nothing.
impl Acceptor for FunctionBlockBody {
    open spec fn offered(&self) -> Seq<Node> {
        self.nodes()
    }

    open spec fn hands_back(&self) -> bool {
        self.yields()
    }

    fn accept<V: Visitor<E>, E>(&self, visitor: V) -> (out: (V, Result<V::Value, E>)) {
        assert(self.offered() == self.nodes() && self.hands_back() == self.yields());
        match self {
            FunctionBlockBody::Sfc(sfc) => sfc.accept(visitor),
            FunctionBlockBody::Statements(statements) => statements.accept(visitor),
            FunctionBlockBody::Empty => done(visitor),
        }
    }
}

/// Offers the node itself, then its children, and hands back what the descent
/// returns.
impl Acceptor for Sfc {
    open spec fn offered(&self) -> Seq<Node> {
        self.nodes()
    }

    open spec fn hands_back(&self) -> bool {
        self.yields()
    }

    fn accept<V: Visitor<E>, E>(&self, visitor: V) -> (out: (V, Result<V::Value, E>)) {
        assert(self.offered() == self.nodes() && self.hands_back() == self.yields());
        let called = visitor.visit_sfc(self);
        let ghost at = called;
        let out = match called {
            (v, Ok(_)) => visit_sfc(v, self),
            (v, Err(e)) => (v, Err(e)),
        };
        proof {
            lemma_traversed_node(
                Node::Sfc(*self),
                self.children(),
                self.children_yield(),
                visitor,
                at,
                out,
            );
        }
        out
    }
}

/// Descends into a chart: its networks, in order.
/// When nothing fails, returns the default value.
pub fn visit_sfc<V: Visitor<E>, E>(visitor: V, node: &Sfc) -> (out: (V, Result<V::Value, E>))
    ensures
        traversed(node.children(), node.children_yield(), visitor, out.0, out.1),
{
    node.networks.accept(visitor)
}

/// Offers the node itself, and hands back what its callback returned.
impl Acceptor for Network {
    open spec fn offered(&self) -> Seq<Node> {
        self.nodes()
    }

    open spec fn hands_back(&self) -> bool {
        self.yields()
    }

    fn accept<V: Visitor<E>, E>(&self, visitor: V) -> (out: (V, Result<V::Value, E>)) {
        assert(self.offered() == self.nodes() && self.hands_back() == self.yields());
        leaf(Ghost(Node::Network(*self)), Ghost(visitor), visitor.visit_network(self))
    }
}

/// Offers the node itself, then its children, and hands back what the descent
/// returns.
impl Acceptor for Statements {
    open spec fn offered(&self) -> Seq<Node> {
        self.nodes()
    }

    open spec fn hands_back(&self) -> bool {
        self.yields()
    }

    fn accept<V: Visitor<E>, E>(&self, visitor: V) -> (out: (V, Result<V::Value, E>)) {
        assert(self.offered() == self.nodes() && self.hands_back() == self.yields());
        let called = visitor.visit_statements(self);
        let ghost at = called;
        let out = match called {
            (v, Ok(_)) => visit_statements(v, self),
            (v, Err(e)) => (v, Err(e)),
        };
        proof {
            lemma_traversed_node(
                Node::Statements(*self),
                self.children(),
                self.children_yield(),
                visitor,
                at,
                out,
            );
        }
        out
    }
}

/// Descends into a body of statements: the statements, in order.
/// When nothing fails, returns the default value.
pub fn visit_statements<V: Visitor<E>, E>(
    visitor: V,
    node: &Statements,
) -> (out: (V, Result<V::Value, E>))
    ensures
        traversed(node.children(), node.children_yield(), visitor, out.0, out.1),
{
    accept_stmts(visitor, &node.body)
}

} // verus!
