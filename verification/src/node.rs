//! The nodes of a tree, and the order in which a tree offers them.
//!
//! `nodes` of a value is the value's own node, where its kind has a callback,
//! followed by its `children`: the nodes of its parts, in source order.
//!
//! `yields` of a value says whose result its dispatch returns when nothing
//! fails: where it holds, what the callback of the last of `nodes` returned;
//! where it does not, the default value. `children_yield` says the same of
//! the descent into a node's children.
use vstd::prelude::*;
use crate::acceptor::offered_by_all;
use crate::common::{
    ArrayDeclaration, ArrayInitialElementKind, ArrayInitialValueAssignment,
    ArraySpecificationKind, ConfigurationDeclaration, Constant, DataTypeDeclarationKind,
    EnumeratedInitialValueAssignment, EnumeratedSpecificationInit, EnumeratedValue,
    EnumeratedValuesInitializer, EnumerationDeclaration, FunctionBlockBody,
    FunctionBlockDeclaration, FunctionBlockInitialValueAssignment, FunctionDeclaration,
    InitialValueAssignmentKind, LateBoundDeclaration, Library, LibraryElement,
    ProgramDeclaration, ResourceDeclaration, Sfc, SignedInteger, SimpleDeclaration,
    SimpleInitializer, Statements, StringDeclaration, StringInitializer,
    StructInitialValueAssignmentKind, StructureDeclaration, StructureElementInit,
    StructureInitializationDeclaration, Subrange, SubrangeDeclaration, SubrangeSpecification,
    VarDecl,
};
use crate::common_sfc::Network;
use crate::textual::{
    AddressAssignment, Assignment, BinaryExpr, Case, CaseSelection, CaseStatementGroup,
    CompareExpr, ExprKind, FbCall, For, FunctionCall, If, MultiElementVariable,
    ParamAssignmentKind, Repeat, StmtKind, SymbolicVariable, UnaryExpr, Variable, While,
};

verus! {

/// One node of a tree, by kind. Each kind has its own callback in a visitor.
pub enum Node {
    SignedInteger(SignedInteger),
    EnumeratedValue(EnumeratedValue),
    Constant(Constant),
    ConfigurationDeclaration(ConfigurationDeclaration),
    ResourceDeclaration(ResourceDeclaration),
    VariableDeclaration(VarDecl),
    EnumDeclaration(EnumerationDeclaration),
    SubrangeDeclaration(SubrangeDeclaration),
    SimpleDeclaration(SimpleDeclaration),
    ArrayDeclaration(ArrayDeclaration),
    StructureDeclaration(StructureDeclaration),
    StructureInitializationDeclaration(StructureInitializationDeclaration),
    StructureElementInit(StructureElementInit),
    StringDeclaration(StringDeclaration),
    LateBoundDeclaration(LateBoundDeclaration),
    FunctionBlockDeclaration(FunctionBlockDeclaration),
    FunctionDeclaration(FunctionDeclaration),
    ProgramDeclaration(ProgramDeclaration),
    Sfc(Sfc),
    Network(Network),
    Statements(Statements),
    Assignment(Assignment),
    FbCall(FbCall),
    If(If),
    Case(Case),
    CaseStatementGroup(CaseStatementGroup),
    For(For),
    While(While),
    Repeat(Repeat),
    Exit,
    Compare(CompareExpr),
    BinaryOp(BinaryExpr),
    UnaryOp(UnaryExpr),
    FunctionCall(FunctionCall),
    AddressAssignment(AddressAssignment),
    SymbolicVariable(SymbolicVariable),
    MultiElementVariable(MultiElementVariable),
    SimpleInitializer(SimpleInitializer),
    StringInitializer(StringInitializer),
    EnumeratedTypeInitializer(EnumeratedInitialValueAssignment),
    EnumeratedValuesInitializer(EnumeratedValuesInitializer),
    FunctionBlockTypeInitializer(FunctionBlockInitialValueAssignment),
    EnumeratedSpecInit(EnumeratedSpecificationInit),
    SubrangeSpecification(SubrangeSpecification),
    Subrange(Subrange),
    ArrayInitializer(ArrayInitialValueAssignment),
}

impl SignedInteger {
    pub open spec fn nodes(self) -> Seq<Node> {
        seq![Node::SignedInteger(self)]
    }
}

impl EnumeratedValue {
    pub open spec fn nodes(self) -> Seq<Node> {
        seq![Node::EnumeratedValue(self)]
    }
}

impl Constant {
    pub open spec fn nodes(self) -> Seq<Node> {
        seq![Node::Constant(self)]
    }
}

impl SimpleInitializer {
    pub open spec fn nodes(self) -> Seq<Node> {
        seq![Node::SimpleInitializer(self)]
    }
}

impl StringInitializer {
    pub open spec fn nodes(self) -> Seq<Node> {
        seq![Node::StringInitializer(self)]
    }
}

impl EnumeratedValuesInitializer {
    pub open spec fn nodes(self) -> Seq<Node> {
        seq![Node::EnumeratedValuesInitializer(self)]
    }
}

impl EnumeratedInitialValueAssignment {
    pub open spec fn nodes(self) -> Seq<Node> {
        seq![Node::EnumeratedTypeInitializer(self)]
    }
}

impl FunctionBlockInitialValueAssignment {
    pub open spec fn nodes(self) -> Seq<Node> {
        seq![Node::FunctionBlockTypeInitializer(self)]
    }
}

impl ArrayInitialValueAssignment {
    pub open spec fn nodes(self) -> Seq<Node> {
        seq![Node::ArrayInitializer(self)]
    }
}

impl EnumeratedSpecificationInit {
    pub open spec fn nodes(self) -> Seq<Node> {
        seq![Node::EnumeratedSpecInit(self)]
    }
}

impl Library {
    /// Every node of the library: those of its elements, in source order.
    pub open spec fn nodes(self) -> Seq<Node> {
        offered_by_all(self.elements@)
    }
}

impl LibraryElement {
    pub open spec fn nodes(self) -> Seq<Node> {
        match self {
            LibraryElement::ConfigurationDeclaration(config) => config.nodes(),
            LibraryElement::DataTypeDeclaration(data_type) => data_type.nodes(),
            LibraryElement::FunctionBlockDeclaration(function_block) => function_block.nodes(),
            LibraryElement::FunctionDeclaration(function) => function.nodes(),
            LibraryElement::ProgramDeclaration(program) => program.nodes(),
        }
    }
}

impl ConfigurationDeclaration {
    /// The global variables, then the resources.
    pub open spec fn children(self) -> Seq<Node> {
        offered_by_all(self.global_var@) + offered_by_all(self.resource_decl@)
    }

    pub open spec fn nodes(self) -> Seq<Node> {
        seq![Node::ConfigurationDeclaration(self)] + self.children()
    }
}

impl ResourceDeclaration {
    /// The global variables.
    pub open spec fn children(self) -> Seq<Node> {
        offered_by_all(self.global_vars@)
    }

    pub open spec fn nodes(self) -> Seq<Node> {
        seq![Node::ResourceDeclaration(self)] + self.children()
    }
}

impl VarDecl {
    /// The initial value.
    pub open spec fn children(self) -> Seq<Node> {
        self.initializer.nodes()
    }

    pub open spec fn nodes(self) -> Seq<Node> {
        seq![Node::VariableDeclaration(self)] + self.children()
    }
}

impl InitialValueAssignmentKind {
    pub open spec fn nodes(self) -> Seq<Node> {
        match self {
            InitialValueAssignmentKind::Absent => Seq::empty(),
            InitialValueAssignmentKind::Simple(init) => seq![Node::SimpleInitializer(init)],
            InitialValueAssignmentKind::String(init) => seq![Node::StringInitializer(init)],
            InitialValueAssignmentKind::EnumeratedValues(init) => seq![
                Node::EnumeratedValuesInitializer(init),
            ],
            InitialValueAssignmentKind::EnumeratedType(init) => seq![
                Node::EnumeratedTypeInitializer(init),
            ],
            InitialValueAssignmentKind::FunctionBlock(init) => seq![
                Node::FunctionBlockTypeInitializer(init),
            ],
            InitialValueAssignmentKind::Subrange(spec) => spec.nodes(),
            InitialValueAssignmentKind::Structure(init) => init.nodes(),
            InitialValueAssignmentKind::Array(init) => seq![Node::ArrayInitializer(init)],
            InitialValueAssignmentKind::LateResolvedType(_) => Seq::empty(),
        }
    }
}

impl DataTypeDeclarationKind {
    pub open spec fn nodes(self) -> Seq<Node> {
        match self {
            DataTypeDeclarationKind::Enumeration(decl) => decl.nodes(),
            DataTypeDeclarationKind::Subrange(decl) => decl.nodes(),
            DataTypeDeclarationKind::Simple(decl) => decl.nodes(),
            DataTypeDeclarationKind::Array(decl) => decl.nodes(),
            DataTypeDeclarationKind::Structure(decl) => decl.nodes(),
            DataTypeDeclarationKind::StructureInitialization(decl) => decl.nodes(),
            DataTypeDeclarationKind::String(decl) => decl.nodes(),
            DataTypeDeclarationKind::LateBound(decl) => decl.nodes(),
        }
    }
}

impl EnumerationDeclaration {
    /// The specification with its default.
    pub open spec fn children(self) -> Seq<Node> {
        seq![Node::EnumeratedSpecInit(self.spec_init)]
    }

    pub open spec fn nodes(self) -> Seq<Node> {
        seq![Node::EnumDeclaration(self)] + self.children()
    }
}

impl SubrangeDeclaration {
    /// The specification, then its range.
    pub open spec fn children(self) -> Seq<Node> {
        self.spec.nodes()
    }

    pub open spec fn nodes(self) -> Seq<Node> {
        seq![Node::SubrangeDeclaration(self)] + self.children()
    }
}

impl SubrangeSpecification {
    /// The range.
    pub open spec fn children(self) -> Seq<Node> {
        seq![Node::Subrange(self.subrange)]
    }

    pub open spec fn nodes(self) -> Seq<Node> {
        seq![Node::SubrangeSpecification(self)] + self.children()
    }
}

impl Subrange {
    pub open spec fn nodes(self) -> Seq<Node> {
        seq![Node::Subrange(self)]
    }
}

impl SimpleDeclaration {
    /// The type with its initial value.
    pub open spec fn children(self) -> Seq<Node> {
        self.spec_and_init.nodes()
    }

    pub open spec fn nodes(self) -> Seq<Node> {
        seq![Node::SimpleDeclaration(self)] + self.children()
    }
}

impl ArraySpecificationKind {
    /// The index ranges, where the specification lists them.
    pub open spec fn nodes(self) -> Seq<Node> {
        match self {
            ArraySpecificationKind::Type(_) => Seq::empty(),
            ArraySpecificationKind::Subranges(ranges, _) => offered_by_all(ranges@),
        }
    }
}

impl ArrayInitialElementKind {
    /// A constant or an enumerated value is one node. A repetition offers
    /// the entry that it repeats, once.
    pub open spec fn nodes(self) -> Seq<Node>
        decreases self,
    {
        match self {
            ArrayInitialElementKind::Constant(constant) => seq![Node::Constant(constant)],
            ArrayInitialElementKind::EnumValue(value) => seq![Node::EnumeratedValue(value)],
            ArrayInitialElementKind::Repeated(_, repeated) => match *repeated {
                Some(entry) => entry.nodes(),
                None => Seq::empty(),
            },
        }
    }

}

impl ArrayDeclaration {
    /// The specification, then the initial values.
    pub open spec fn children(self) -> Seq<Node> {
        self.spec.nodes() + offered_by_all(self.init@)
    }

    pub open spec fn nodes(self) -> Seq<Node> {
        seq![Node::ArrayDeclaration(self)] + self.children()
    }
}

impl StructureDeclaration {
    /// Nothing: the elements of a structure type are not descended into.
    pub open spec fn children(self) -> Seq<Node> {
        Seq::empty()
    }

    pub open spec fn nodes(self) -> Seq<Node> {
        seq![Node::StructureDeclaration(self)]
    }
}

impl StructureInitializationDeclaration {
    /// The initialized elements.
    pub open spec fn children(self) -> Seq<Node>
    {
        StructureElementInit::nodes_of_all(self.elements_init@)
    }

    pub open spec fn nodes(self) -> Seq<Node> {
        seq![Node::StructureInitializationDeclaration(self)] + self.children()
    }
}

impl StructureElementInit {
    /// The value that the element starts with.
    pub open spec fn children(self) -> Seq<Node>
        decreases self, 0int,
    {
        self.init.nodes()
    }

    pub open spec fn nodes(self) -> Seq<Node>
        decreases self, 1int,
    {
        seq![Node::StructureElementInit(self)] + self.children()
    }

    /// The nodes of each of `elements`, in order.
    pub open spec fn nodes_of_all(elements: Seq<StructureElementInit>) -> Seq<Node>
        decreases elements, 0int,
    {
        if elements.len() == 0 {
            Seq::empty()
        } else {
            elements[0].nodes() + Self::nodes_of_all(elements.drop_first())
        }
    }
}

impl StructInitialValueAssignmentKind {
    pub open spec fn nodes(self) -> Seq<Node>
        decreases self, 1int,
    {
        match self {
            StructInitialValueAssignmentKind::Constant(constant) => seq![Node::Constant(constant)],
            StructInitialValueAssignmentKind::EnumeratedValue(value) => seq![
                Node::EnumeratedValue(value),
            ],
            StructInitialValueAssignmentKind::Array(entries) => offered_by_all(entries@),
            StructInitialValueAssignmentKind::Structure(elements) => {
                StructureElementInit::nodes_of_all(elements@)
            },
        }
    }
}

impl StringDeclaration {
    /// Nothing.
    pub open spec fn children(self) -> Seq<Node> {
        Seq::empty()
    }

    pub open spec fn nodes(self) -> Seq<Node> {
        seq![Node::StringDeclaration(self)]
    }
}

impl LateBoundDeclaration {
    /// Nothing.
    pub open spec fn children(self) -> Seq<Node> {
        Seq::empty()
    }

    pub open spec fn nodes(self) -> Seq<Node> {
        seq![Node::LateBoundDeclaration(self)]
    }
}

impl FunctionBlockDeclaration {
    /// The variables, then the body.
    pub open spec fn children(self) -> Seq<Node> {
        offered_by_all(self.variables@) + self.body.nodes()
    }

    pub open spec fn nodes(self) -> Seq<Node> {
        seq![Node::FunctionBlockDeclaration(self)] + self.children()
    }
}

impl ProgramDeclaration {
    /// The variables, then the body.
    pub open spec fn children(self) -> Seq<Node> {
        offered_by_all(self.variables@) + self.body.nodes()
    }

    pub open spec fn nodes(self) -> Seq<Node> {
        seq![Node::ProgramDeclaration(self)] + self.children()
    }
}

impl FunctionDeclaration {
    /// The variables, then the statements.
    pub open spec fn children(self) -> Seq<Node> {
        offered_by_all(self.variables@) + StmtKind::nodes_of_all(self.body@)
    }

    pub open spec fn nodes(self) -> Seq<Node> {
        seq![Node::FunctionDeclaration(self)] + self.children()
    }
}

impl FunctionBlockBody {
    pub open spec fn nodes(self) -> Seq<Node> {
        match self {
            FunctionBlockBody::Sfc(sfc) => sfc.nodes(),
            FunctionBlockBody::Statements(statements) => statements.nodes(),
            FunctionBlockBody::Empty => Seq::empty(),
        }
    }
}

impl Sfc {
    /// The networks.
    pub open spec fn children(self) -> Seq<Node> {
        offered_by_all(self.networks@)
    }

    pub open spec fn nodes(self) -> Seq<Node> {
        seq![Node::Sfc(self)] + self.children()
    }
}

impl Network {
    pub open spec fn nodes(self) -> Seq<Node> {
        seq![Node::Network(self)]
    }
}

impl Statements {
    /// The statements.
    pub open spec fn children(self) -> Seq<Node> {
        StmtKind::nodes_of_all(self.body@)
    }

    pub open spec fn nodes(self) -> Seq<Node> {
        seq![Node::Statements(self)] + self.children()
    }
}

impl Variable {
    pub open spec fn nodes(self) -> Seq<Node> {
        match self {
            Variable::AddressAssignment(var) => seq![Node::AddressAssignment(var)],
            Variable::SymbolicVariable(var) => seq![Node::SymbolicVariable(var)],
            Variable::MultiElementVariable(var) => seq![Node::MultiElementVariable(var)],
        }
    }
}

impl ExprKind {
    /// An expression in parentheses offers what the expression inside offers.
    pub open spec fn nodes(self) -> Seq<Node>
        decreases self, 1int,
    {
        match self {
            ExprKind::Compare(compare) => seq![Node::Compare(*compare)] + compare.children(),
            ExprKind::BinaryOp(binary) => seq![Node::BinaryOp(*binary)] + binary.children(),
            ExprKind::UnaryOp(unary) => seq![Node::UnaryOp(*unary)] + unary.children(),
            ExprKind::Const(constant) => seq![Node::Constant(constant)],
            ExprKind::Expression(inner) => inner.nodes(),
            ExprKind::Variable(variable) => variable.nodes(),
            ExprKind::Function(call) => seq![Node::FunctionCall(call)] + call.children(),
        }
    }
}

impl CompareExpr {
    /// The left operand, then the right operand.
    pub open spec fn children(self) -> Seq<Node>
        decreases self, 0int,
    {
        self.left.nodes() + self.right.nodes()
    }
}

impl BinaryExpr {
    /// The left operand, then the right operand.
    pub open spec fn children(self) -> Seq<Node>
        decreases self, 0int,
    {
        self.left.nodes() + self.right.nodes()
    }
}

impl UnaryExpr {
    /// The operand.
    pub open spec fn children(self) -> Seq<Node>
        decreases self, 0int,
    {
        self.term.nodes()
    }
}

impl FunctionCall {
    /// The arguments.
    pub open spec fn children(self) -> Seq<Node>
        decreases self, 0int,
    {
        ParamAssignmentKind::nodes_of_all(self.param_assignment@)
    }
}

impl ParamAssignmentKind {
    /// An input offers its expression, an output its target.
    pub open spec fn nodes(self) -> Seq<Node>
        decreases self, 1int,
    {
        match self {
            ParamAssignmentKind::PositionalInput(input) => input.expr.nodes(),
            ParamAssignmentKind::NamedInput(input) => input.expr.nodes(),
            ParamAssignmentKind::Output(output) => output.tgt.nodes(),
        }
    }

    /// The nodes of each of `params`, in order.
    pub open spec fn nodes_of_all(params: Seq<ParamAssignmentKind>) -> Seq<Node>
        decreases params, 0int,
    {
        if params.len() == 0 {
            Seq::empty()
        } else {
            params[0].nodes() + Self::nodes_of_all(params.drop_first())
        }
    }
}

impl StmtKind {
    pub open spec fn nodes(self) -> Seq<Node>
        decreases self, 1int,
    {
        match self {
            StmtKind::Assignment(assignment) => seq![Node::Assignment(assignment)]
                + assignment.children(),
            StmtKind::FbCall(call) => seq![Node::FbCall(call)],
            StmtKind::If(node) => seq![Node::If(node)] + node.children(),
            StmtKind::Case(node) => seq![Node::Case(node)] + node.children(),
            StmtKind::For(node) => seq![Node::For(node)] + node.children(),
            StmtKind::While(node) => seq![Node::While(node)] + node.children(),
            StmtKind::Repeat(node) => seq![Node::Repeat(node)] + node.children(),
            StmtKind::Exit => seq![Node::Exit],
        }
    }

    /// The nodes of each of `stmts`, in order.
    pub open spec fn nodes_of_all(stmts: Seq<StmtKind>) -> Seq<Node>
        decreases stmts, 0int,
    {
        if stmts.len() == 0 {
            Seq::empty()
        } else {
            stmts[0].nodes() + Self::nodes_of_all(stmts.drop_first())
        }
    }
}

impl Assignment {
    /// The target. The assigned expression is not descended into.
    pub open spec fn children(self) -> Seq<Node> {
        self.target.nodes()
    }
}

impl If {
    /// The condition, the body, then the else body.
    pub open spec fn children(self) -> Seq<Node>
        decreases self, 0int,
    {
        self.expr.nodes() + StmtKind::nodes_of_all(self.body@) + StmtKind::nodes_of_all(
            self.else_body@,
        )
    }
}

impl Case {
    /// The selector, each statement group in order, then the else body.
    pub open spec fn children(self) -> Seq<Node>
        decreases self, 0int,
    {
        self.selector.nodes() + CaseStatementGroup::nodes_of_all(self.statement_groups@)
            + StmtKind::nodes_of_all(self.else_body@)
    }
}

impl CaseStatementGroup {
    /// The selectors of the group, then its statements.
    pub open spec fn children(self) -> Seq<Node>
        decreases self, 0int,
    {
        offered_by_all(self.selectors@) + StmtKind::nodes_of_all(self.statements@)
    }

    pub open spec fn nodes(self) -> Seq<Node>
        decreases self, 1int,
    {
        seq![Node::CaseStatementGroup(self)] + self.children()
    }

    /// The nodes of each of `groups`, in order.
    pub open spec fn nodes_of_all(groups: Seq<CaseStatementGroup>) -> Seq<Node>
        decreases groups, 0int,
    {
        if groups.len() == 0 {
            Seq::empty()
        } else {
            groups[0].nodes() + Self::nodes_of_all(groups.drop_first())
        }
    }
}

impl CaseSelection {
    pub open spec fn nodes(self) -> Seq<Node> {
        match self {
            CaseSelection::Subrange(range) => seq![Node::Subrange(range)],
            CaseSelection::SignedInteger(value) => seq![Node::SignedInteger(value)],
            CaseSelection::EnumeratedValue(value) => seq![Node::EnumeratedValue(value)],
        }
    }
}

impl For {
    /// What the step offers: its expression, where there is one.
    pub open spec fn step_nodes(self) -> Seq<Node>
    {
        match self.step {
            Some(step) => step.nodes(),
            None => Seq::empty(),
        }
    }

    /// The first value, the last value, the step where there is one, then
    /// the body.
    pub open spec fn children(self) -> Seq<Node>
        decreases self, 0int,
    {
        self.from.nodes() + self.to.nodes() + self.step_nodes() + StmtKind::nodes_of_all(
            self.body@,
        )
    }
}

impl While {
    /// The condition, then the body.
    pub open spec fn children(self) -> Seq<Node>
        decreases self, 0int,
    {
        self.condition.nodes() + StmtKind::nodes_of_all(self.body@)
    }
}

impl Repeat {
    /// The body, then the condition that ends the loop.
    pub open spec fn children(self) -> Seq<Node>
        decreases self, 0int,
    {
        StmtKind::nodes_of_all(self.body@) + self.until.nodes()
    }
}

impl SignedInteger {
    /// What the callback returned.
    pub open spec fn yields(self) -> bool {
        true
    }
}

impl EnumeratedValue {
    /// What the callback returned.
    pub open spec fn yields(self) -> bool {
        true
    }
}

impl Constant {
    /// What the callback returned.
    pub open spec fn yields(self) -> bool {
        true
    }
}

impl SimpleInitializer {
    /// What the callback returned.
    pub open spec fn yields(self) -> bool {
        true
    }
}

impl StringInitializer {
    /// What the callback returned.
    pub open spec fn yields(self) -> bool {
        true
    }
}

impl EnumeratedValuesInitializer {
    /// What the callback returned.
    pub open spec fn yields(self) -> bool {
        true
    }
}

impl EnumeratedInitialValueAssignment {
    /// What the callback returned.
    pub open spec fn yields(self) -> bool {
        true
    }
}

impl FunctionBlockInitialValueAssignment {
    /// What the callback returned.
    pub open spec fn yields(self) -> bool {
        true
    }
}

impl ArrayInitialValueAssignment {
    /// What the callback returned.
    pub open spec fn yields(self) -> bool {
        true
    }
}

impl EnumeratedSpecificationInit {
    /// What the callback returned.
    pub open spec fn yields(self) -> bool {
        true
    }
}

impl Subrange {
    /// What the callback returned.
    pub open spec fn yields(self) -> bool {
        true
    }
}

impl Network {
    /// What the callback returned.
    pub open spec fn yields(self) -> bool {
        true
    }
}

impl Library {
    /// The default value: a library is a sequence of elements.
    pub open spec fn yields(self) -> bool {
        false
    }
}

impl LibraryElement {
    /// What the declaration it holds yields.
    pub open spec fn yields(self) -> bool {
        match self {
            LibraryElement::ConfigurationDeclaration(config) => config.yields(),
            LibraryElement::DataTypeDeclaration(data_type) => data_type.yields(),
            LibraryElement::FunctionBlockDeclaration(function_block) => function_block.yields(),
            LibraryElement::FunctionDeclaration(function) => function.yields(),
            LibraryElement::ProgramDeclaration(program) => program.yields(),
        }
    }
}

impl ConfigurationDeclaration {
    /// The default value: the resources are a sequence.
    pub open spec fn children_yield(self) -> bool {
        false
    }

    /// What the descent returns.
    pub open spec fn yields(self) -> bool {
        self.children_yield()
    }
}

impl ResourceDeclaration {
    /// The default value: the variables are a sequence.
    pub open spec fn children_yield(self) -> bool {
        false
    }

    /// What the descent returns.
    pub open spec fn yields(self) -> bool {
        self.children_yield()
    }
}

impl VarDecl {
    /// What the initial value yields.
    pub open spec fn children_yield(self) -> bool {
        self.initializer.yields()
    }

    /// What the descent returns.
    pub open spec fn yields(self) -> bool {
        self.children_yield()
    }
}

impl InitialValueAssignmentKind {
    /// What its kind yields; the default value where it offers nothing.
    pub open spec fn yields(self) -> bool {
        match self {
            InitialValueAssignmentKind::Absent => false,
            InitialValueAssignmentKind::Simple(init) => init.yields(),
            InitialValueAssignmentKind::String(init) => init.yields(),
            InitialValueAssignmentKind::EnumeratedValues(init) => init.yields(),
            InitialValueAssignmentKind::EnumeratedType(init) => init.yields(),
            InitialValueAssignmentKind::FunctionBlock(init) => init.yields(),
            InitialValueAssignmentKind::Subrange(spec) => spec.yields(),
            InitialValueAssignmentKind::Structure(init) => init.yields(),
            InitialValueAssignmentKind::Array(init) => init.yields(),
            InitialValueAssignmentKind::LateResolvedType(_) => false,
        }
    }
}

impl DataTypeDeclarationKind {
    /// What the declaration it holds yields.
    pub open spec fn yields(self) -> bool {
        match self {
            DataTypeDeclarationKind::Enumeration(decl) => decl.yields(),
            DataTypeDeclarationKind::Subrange(decl) => decl.yields(),
            DataTypeDeclarationKind::Simple(decl) => decl.yields(),
            DataTypeDeclarationKind::Array(decl) => decl.yields(),
            DataTypeDeclarationKind::Structure(decl) => decl.yields(),
            DataTypeDeclarationKind::StructureInitialization(decl) => decl.yields(),
            DataTypeDeclarationKind::String(decl) => decl.yields(),
            DataTypeDeclarationKind::LateBound(decl) => decl.yields(),
        }
    }
}

impl EnumerationDeclaration {
    /// What the callback of the specification returned.
    pub open spec fn children_yield(self) -> bool {
        true
    }

    /// What the descent returns.
    pub open spec fn yields(self) -> bool {
        self.children_yield()
    }
}

impl SubrangeDeclaration {
    /// What the specification yields.
    pub open spec fn children_yield(self) -> bool {
        self.spec.yields()
    }

    /// What the descent returns.
    pub open spec fn yields(self) -> bool {
        self.children_yield()
    }
}

impl SubrangeSpecification {
    /// What the callback of the range returned.
    pub open spec fn children_yield(self) -> bool {
        true
    }

    /// What the descent returns.
    pub open spec fn yields(self) -> bool {
        self.children_yield()
    }
}

impl SimpleDeclaration {
    /// What the initial value yields.
    pub open spec fn children_yield(self) -> bool {
        self.spec_and_init.yields()
    }

    /// What the descent returns.
    pub open spec fn yields(self) -> bool {
        self.children_yield()
    }
}

impl ArraySpecificationKind {
    /// The default value: the index ranges are a sequence.
    pub open spec fn yields(self) -> bool {
        false
    }
}

impl ArrayInitialElementKind {
    /// What the callback of the constant or of the enumerated value
    /// returned; for a repetition, what the entry that it repeats yields.
    pub open spec fn yields(self) -> bool
        decreases self,
    {
        match self {
            ArrayInitialElementKind::Constant(_) => true,
            ArrayInitialElementKind::EnumValue(_) => true,
            ArrayInitialElementKind::Repeated(_, repeated) => match *repeated {
                Some(entry) => entry.yields(),
                None => false,
            },
        }
    }
}

impl ArrayDeclaration {
    /// The default value: the initial values are a sequence.
    pub open spec fn children_yield(self) -> bool {
        false
    }

    /// What the descent returns.
    pub open spec fn yields(self) -> bool {
        self.children_yield()
    }
}

impl StructureDeclaration {
    /// The default value: nothing is descended into.
    pub open spec fn children_yield(self) -> bool {
        false
    }

    /// What the callback returned.
    pub open spec fn yields(self) -> bool {
        true
    }
}

impl StructureInitializationDeclaration {
    /// The default value: the initialized elements are a sequence.
    pub open spec fn children_yield(self) -> bool {
        false
    }

    /// What the descent returns.
    pub open spec fn yields(self) -> bool {
        self.children_yield()
    }
}

impl StructureElementInit {
    /// What the value yields.
    pub open spec fn children_yield(self) -> bool {
        self.init.yields()
    }

    /// What the descent returns.
    pub open spec fn yields(self) -> bool {
        self.children_yield()
    }
}

impl StructInitialValueAssignmentKind {
    /// What the callback of a constant or of an enumerated value returned; the
    /// default value for a sequence of entries or of elements.
    pub open spec fn yields(self) -> bool {
        match self {
            StructInitialValueAssignmentKind::Constant(_) => true,
            StructInitialValueAssignmentKind::EnumeratedValue(_) => true,
            StructInitialValueAssignmentKind::Array(_) => false,
            StructInitialValueAssignmentKind::Structure(_) => false,
        }
    }
}

impl StringDeclaration {
    /// The default value: nothing is descended into.
    pub open spec fn children_yield(self) -> bool {
        false
    }

    /// What the callback returned.
    pub open spec fn yields(self) -> bool {
        true
    }
}

impl LateBoundDeclaration {
    /// The default value: nothing is descended into.
    pub open spec fn children_yield(self) -> bool {
        false
    }

    /// What the callback returned.
    pub open spec fn yields(self) -> bool {
        true
    }
}

impl FunctionBlockDeclaration {
    /// What the body yields.
    pub open spec fn children_yield(self) -> bool {
        self.body.yields()
    }

    /// What the descent returns.
    pub open spec fn yields(self) -> bool {
        self.children_yield()
    }
}

impl ProgramDeclaration {
    /// What the body yields.
    pub open spec fn children_yield(self) -> bool {
        self.body.yields()
    }

    /// What the descent returns.
    pub open spec fn yields(self) -> bool {
        self.children_yield()
    }
}

impl FunctionDeclaration {
    /// The default value: the statements are a sequence.
    pub open spec fn children_yield(self) -> bool {
        false
    }

    /// What the descent returns.
    pub open spec fn yields(self) -> bool {
        self.children_yield()
    }
}

impl FunctionBlockBody {
    /// What the chart or the statements yield; the default value where the
    /// body is empty.
    pub open spec fn yields(self) -> bool {
        match self {
            FunctionBlockBody::Sfc(sfc) => sfc.yields(),
            FunctionBlockBody::Statements(statements) => statements.yields(),
            FunctionBlockBody::Empty => false,
        }
    }
}

impl Sfc {
    /// The default value: the networks are a sequence.
    pub open spec fn children_yield(self) -> bool {
        false
    }

    /// What the descent returns.
    pub open spec fn yields(self) -> bool {
        self.children_yield()
    }
}

impl Statements {
    /// The default value: the statements are a sequence.
    pub open spec fn children_yield(self) -> bool {
        false
    }

    /// What the descent returns.
    pub open spec fn yields(self) -> bool {
        self.children_yield()
    }
}

impl Variable {
    /// What the callback of its kind returned.
    pub open spec fn yields(self) -> bool {
        true
    }
}

impl CaseSelection {
    /// What the callback of its kind returned.
    pub open spec fn yields(self) -> bool {
        true
    }
}

impl ExprKind {
    /// What the last operand yields; what the callback of a constant or of a
    /// variable returned; the default value for a call, whose arguments are
    /// a sequence.
    pub open spec fn yields(self) -> bool
        decreases self, 1int,
    {
        match self {
            ExprKind::Compare(compare) => compare.children_yield(),
            ExprKind::BinaryOp(binary) => binary.children_yield(),
            ExprKind::UnaryOp(unary) => unary.children_yield(),
            ExprKind::Const(constant) => constant.yields(),
            ExprKind::Expression(inner) => inner.yields(),
            ExprKind::Variable(variable) => variable.yields(),
            ExprKind::Function(call) => call.children_yield(),
        }
    }
}

/// Every expression offers a node.
pub proof fn lemma_expr_offers_a_node(expr: ExprKind)
    ensures
        expr.nodes().len() > 0,
    decreases expr,
{
    match expr {
        ExprKind::Expression(inner) => {
            lemma_expr_offers_a_node(*inner);
        },
        _ => {},
    }
}

impl CompareExpr {
    /// What the right operand yields.
    pub open spec fn children_yield(self) -> bool
        decreases self, 0int,
    {
        self.right.yields()
    }
}

impl BinaryExpr {
    /// What the right operand yields.
    pub open spec fn children_yield(self) -> bool
        decreases self, 0int,
    {
        self.right.yields()
    }
}

impl UnaryExpr {
    /// What the operand yields.
    pub open spec fn children_yield(self) -> bool
        decreases self, 0int,
    {
        self.term.yields()
    }
}

impl FunctionCall {
    /// The default value: the arguments are a sequence.
    pub open spec fn children_yield(self) -> bool {
        false
    }
}

impl ParamAssignmentKind {
    /// What the expression of an input, or the target of an output, yields.
    pub open spec fn yields(self) -> bool {
        match self {
            ParamAssignmentKind::PositionalInput(input) => input.expr.yields(),
            ParamAssignmentKind::NamedInput(input) => input.expr.yields(),
            ParamAssignmentKind::Output(output) => output.tgt.yields(),
        }
    }
}

impl StmtKind {
    /// What the descent of the statement returns; what the callback returned
    /// for a statement without children.
    pub open spec fn yields(self) -> bool {
        match self {
            StmtKind::Assignment(node) => node.children_yield(),
            StmtKind::FbCall(_) => true,
            StmtKind::If(node) => node.children_yield(),
            StmtKind::Case(node) => node.children_yield(),
            StmtKind::For(node) => node.children_yield(),
            StmtKind::While(node) => node.children_yield(),
            StmtKind::Repeat(node) => node.children_yield(),
            StmtKind::Exit => true,
        }
    }
}

impl Assignment {
    /// What the callback of the target returned.
    pub open spec fn children_yield(self) -> bool {
        self.target.yields()
    }
}

impl If {
    /// The default value: the else body is a sequence.
    pub open spec fn children_yield(self) -> bool {
        false
    }
}

impl Case {
    /// The default value: the else body is a sequence.
    pub open spec fn children_yield(self) -> bool {
        false
    }
}

impl CaseStatementGroup {
    /// The default value: the statements are a sequence.
    pub open spec fn children_yield(self) -> bool {
        false
    }

    /// What the descent returns.
    pub open spec fn yields(self) -> bool {
        self.children_yield()
    }
}

impl For {
    /// What the step yields: what its expression yields, where there is one.
    pub open spec fn step_yields(self) -> bool {
        match self.step {
            Some(step) => step.yields(),
            None => false,
        }
    }

    /// A step that yields offers a node.
    pub proof fn lemma_step_offers_a_node(self)
        ensures
            self.step_yields() ==> self.step_nodes().len() > 0,
    {
        match self.step {
            Some(step) => {
                lemma_expr_offers_a_node(step);
            },
            None => {},
        }
    }

    /// The default value: the body is a sequence.
    pub open spec fn children_yield(self) -> bool {
        false
    }
}

impl While {
    /// The default value: the body is a sequence.
    pub open spec fn children_yield(self) -> bool {
        false
    }
}

impl Repeat {
    /// What the condition that ends the loop yields.
    pub open spec fn children_yield(self) -> bool {
        self.until.yields()
    }
}

} // verus!
