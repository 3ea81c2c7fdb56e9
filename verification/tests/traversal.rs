use plc_dsl::acceptor::Acceptor;
use plc_dsl::common::{
    ArrayDeclaration, ArrayInitialElementKind, ArrayInitialValueAssignment,
    ArraySpecificationKind, ConfigurationDeclaration, Constant, DataTypeDeclarationKind,
    DeclarationQualifier, EnumeratedInitialValueAssignment, EnumeratedSpecificationInit,
    EnumeratedSpecificationKind, EnumeratedValue, EnumeratedValuesInitializer,
    EnumerationDeclaration, FunctionBlockBody, FunctionBlockDeclaration,
    FunctionBlockInitialValueAssignment, FunctionDeclaration, InitialValueAssignmentKind,
    Integer, LateBoundDeclaration, Library, LibraryElement, ProgramDeclaration,
    ResourceDeclaration, Sfc, SignedInteger, SimpleDeclaration, SimpleInitializer, Statements,
    StringDeclaration, StringInitializer, StringKind, StructInitialValueAssignmentKind,
    StructureDeclaration, StructureElementDeclaration, StructureElementInit,
    StructureInitializationDeclaration, Subrange, SubrangeDeclaration, SubrangeSpecification,
    VarDecl, VariableType,
};
use plc_dsl::common_sfc::{ElementKind, Network, Step, Transition};
use plc_dsl::id::Id;
use plc_dsl::textual::{
    AddressAssignment, Assignment, BinaryExpr, Case, CaseSelection, CaseStatementGroup,
    CompareExpr, CompareOp, ExprKind, FbCall, For, FunctionCall, If, LocationPrefix,
    MultiElementVariable, NamedInput, Operator, Output, ParamAssignmentKind, Repeat, SizePrefix,
    StmtKind, SymbolicVariable, UnaryExpr, UnaryOp, Variable, While,
};
use plc_dsl::visitor::{
    visit_array_declaration, visit_assignment, visit_binary_op, visit_case,
    visit_case_statement_group, visit_compare, visit_configuration_declaration,
    visit_enum_declaration, visit_for, visit_function_block_declaration, visit_function_call,
    visit_function_declaration, visit_if, visit_late_bound_declaration,
    visit_program_declaration, visit_repeat, visit_resource_declaration, visit_sfc,
    visit_simple_declaration, visit_statements, visit_string_declaration,
    visit_structure_declaration, visit_structure_element_init,
    visit_structure_initialization_declaration, visit_subrange_declaration,
    visit_subrange_specification, visit_unary_op, visit_variable_declaration, visit_while, walk,
    Visitor,
};

/// Writes down every callback, in the order of the calls. Fails at the
/// callback whose entry is `fail_at`, after writing it down. Every other
/// callback returns its position among the calls, counted from one: a
/// result `Ok(3)` is what the third callback returned, and `Ok(0)` is the
/// default value.
struct Recorder {
    log: Vec<String>,
    fail_at: Option<String>,
}

impl Recorder {
    fn new() -> Recorder {
        Recorder { log: Vec::new(), fail_at: None }
    }

    fn failing_at(entry: &str) -> Recorder {
        Recorder { log: Vec::new(), fail_at: Some(String::from(entry)) }
    }

    fn record(mut self, entry: String) -> (Recorder, Result<u32, String>) {
        self.log.push(entry.clone());
        if self.fail_at.as_ref() == Some(&entry) {
            (self, Err(entry))
        } else {
            let position = self.log.len() as u32;
            (self, Ok(position))
        }
    }
}

impl Visitor<String> for Recorder {
    type Value = u32;

    fn visit_signed_integer(self, _node: &SignedInteger) -> (Recorder, Result<u32, String>) {
        self.record(String::from("signed_integer"))
    }

    fn visit_enumerated_value(self, node: &EnumeratedValue) -> (Recorder, Result<u32, String>) {
        let entry = format!("enumerated_value:{}", node.value.to_string());
        self.record(entry)
    }

    fn visit_constant(self, _node: &Constant) -> (Recorder, Result<u32, String>) {
        self.record(String::from("constant"))
    }

    fn visit_configuration_declaration(
        self,
        _node: &ConfigurationDeclaration,
    ) -> (Recorder, Result<u32, String>) {
        self.record(String::from("configuration_declaration"))
    }

    fn visit_resource_declaration(
        self,
        node: &ResourceDeclaration,
    ) -> (Recorder, Result<u32, String>) {
        let entry = format!("resource_declaration:{}", node.name.to_string());
        self.record(entry)
    }

    fn visit_variable_declaration(self, node: &VarDecl) -> (Recorder, Result<u32, String>) {
        let entry = format!("variable_declaration:{}", node.name.to_string());
        self.record(entry)
    }

    fn visit_enum_declaration(
        self,
        _node: &EnumerationDeclaration,
    ) -> (Recorder, Result<u32, String>) {
        self.record(String::from("enum_declaration"))
    }

    fn visit_subrange_declaration(
        self,
        _node: &SubrangeDeclaration,
    ) -> (Recorder, Result<u32, String>) {
        self.record(String::from("subrange_declaration"))
    }

    fn visit_simple_declaration(
        self,
        _node: &SimpleDeclaration,
    ) -> (Recorder, Result<u32, String>) {
        self.record(String::from("simple_declaration"))
    }

    fn visit_array_declaration(self, _node: &ArrayDeclaration) -> (Recorder, Result<u32, String>) {
        self.record(String::from("array_declaration"))
    }

    fn visit_structure_declaration(
        self,
        _node: &StructureDeclaration,
    ) -> (Recorder, Result<u32, String>) {
        self.record(String::from("structure_declaration"))
    }

    fn visit_structure_initialization_declaration(
        self,
        _node: &StructureInitializationDeclaration,
    ) -> (Recorder, Result<u32, String>) {
        self.record(String::from("structure_initialization_declaration"))
    }

    fn visit_structure_element_init(
        self,
        node: &StructureElementInit,
    ) -> (Recorder, Result<u32, String>) {
        let entry = format!("structure_element_init:{}", node.name.to_string());
        self.record(entry)
    }

    fn visit_string_declaration(
        self,
        _node: &StringDeclaration,
    ) -> (Recorder, Result<u32, String>) {
        self.record(String::from("string_declaration"))
    }

    fn visit_late_bound_declaration(
        self,
        _node: &LateBoundDeclaration,
    ) -> (Recorder, Result<u32, String>) {
        self.record(String::from("late_bound_declaration"))
    }

    fn visit_function_block_declaration(
        self,
        _node: &FunctionBlockDeclaration,
    ) -> (Recorder, Result<u32, String>) {
        self.record(String::from("function_block_declaration"))
    }

    fn visit_function_declaration(
        self,
        _node: &FunctionDeclaration,
    ) -> (Recorder, Result<u32, String>) {
        self.record(String::from("function_declaration"))
    }

    fn visit_program_declaration(
        self,
        _node: &ProgramDeclaration,
    ) -> (Recorder, Result<u32, String>) {
        self.record(String::from("program_declaration"))
    }

    fn visit_sfc(self, _node: &Sfc) -> (Recorder, Result<u32, String>) {
        self.record(String::from("sfc"))
    }

    fn visit_network(self, _node: &Network) -> (Recorder, Result<u32, String>) {
        self.record(String::from("network"))
    }

    fn visit_statements(self, _node: &Statements) -> (Recorder, Result<u32, String>) {
        self.record(String::from("statements"))
    }

    fn visit_assignment(self, _node: &Assignment) -> (Recorder, Result<u32, String>) {
        self.record(String::from("assignment"))
    }

    fn visit_fb_call(self, node: &FbCall) -> (Recorder, Result<u32, String>) {
        let entry = format!("fb_call:{}", node.var_name.to_string());
        self.record(entry)
    }

    fn visit_if(self, _node: &If) -> (Recorder, Result<u32, String>) {
        self.record(String::from("if"))
    }

    fn visit_case(self, _node: &Case) -> (Recorder, Result<u32, String>) {
        self.record(String::from("case"))
    }

    fn visit_case_statement_group(
        self,
        _node: &CaseStatementGroup,
    ) -> (Recorder, Result<u32, String>) {
        self.record(String::from("case_statement_group"))
    }

    fn visit_for(self, _node: &For) -> (Recorder, Result<u32, String>) {
        self.record(String::from("for"))
    }

    fn visit_while(self, _node: &While) -> (Recorder, Result<u32, String>) {
        self.record(String::from("while"))
    }

    fn visit_repeat(self, _node: &Repeat) -> (Recorder, Result<u32, String>) {
        self.record(String::from("repeat"))
    }

    fn visit_exit(self) -> (Recorder, Result<u32, String>) {
        self.record(String::from("exit"))
    }

    fn visit_compare(self, _node: &CompareExpr) -> (Recorder, Result<u32, String>) {
        self.record(String::from("compare"))
    }

    fn visit_binary_op(self, _node: &BinaryExpr) -> (Recorder, Result<u32, String>) {
        self.record(String::from("binary_op"))
    }

    fn visit_unary_op(self, _node: &UnaryExpr) -> (Recorder, Result<u32, String>) {
        self.record(String::from("unary_op"))
    }

    fn visit_function_call(self, node: &FunctionCall) -> (Recorder, Result<u32, String>) {
        let entry = format!("function_call:{}", node.name.to_string());
        self.record(entry)
    }

    fn visit_address_assignment(
        self,
        _node: &AddressAssignment,
    ) -> (Recorder, Result<u32, String>) {
        self.record(String::from("address_assignment"))
    }

    fn visit_symbolic_variable(self, node: &SymbolicVariable) -> (Recorder, Result<u32, String>) {
        let entry = format!("symbolic_variable:{}", node.name.to_string());
        self.record(entry)
    }

    fn visit_multi_element_variable(
        self,
        _node: &MultiElementVariable,
    ) -> (Recorder, Result<u32, String>) {
        self.record(String::from("multi_element_variable"))
    }

    fn visit_simple_initializer(
        self,
        _node: &SimpleInitializer,
    ) -> (Recorder, Result<u32, String>) {
        self.record(String::from("simple_initializer"))
    }

    fn visit_string_initializer(
        self,
        _node: &StringInitializer,
    ) -> (Recorder, Result<u32, String>) {
        self.record(String::from("string_initializer"))
    }

    fn visit_enumerated_type_initializer(
        self,
        _node: &EnumeratedInitialValueAssignment,
    ) -> (Recorder, Result<u32, String>) {
        self.record(String::from("enumerated_type_initializer"))
    }

    fn visit_enumerated_values_initializer(
        self,
        _node: &EnumeratedValuesInitializer,
    ) -> (Recorder, Result<u32, String>) {
        self.record(String::from("enumerated_values_initializer"))
    }

    fn visit_function_block_type_initializer(
        self,
        _node: &FunctionBlockInitialValueAssignment,
    ) -> (Recorder, Result<u32, String>) {
        self.record(String::from("function_block_type_initializer"))
    }

    fn visit_enumerated_spec_init(
        self,
        _node: &EnumeratedSpecificationInit,
    ) -> (Recorder, Result<u32, String>) {
        self.record(String::from("enumerated_spec_init"))
    }

    fn visit_subrange_specification(
        self,
        _node: &SubrangeSpecification,
    ) -> (Recorder, Result<u32, String>) {
        self.record(String::from("subrange_specification"))
    }

    fn visit_subrange(self, _node: &Subrange) -> (Recorder, Result<u32, String>) {
        self.record(String::from("subrange"))
    }

    fn visit_array_initializer(
        self,
        _node: &ArrayInitialValueAssignment,
    ) -> (Recorder, Result<u32, String>) {
        self.record(String::from("array_initializer"))
    }
}

fn entries(list: &[&str]) -> Vec<String> {
    list.iter().map(|entry| String::from(*entry)).collect()
}

fn var(name: &str) -> ExprKind {
    ExprKind::symbolic_variable(name)
}

fn integer(value: u128) -> SignedInteger {
    SignedInteger { value: Integer { value }, is_neg: false }
}

fn constant(value: u128) -> ExprKind {
    ExprKind::Const(Constant::IntegerLiteral(integer(value)))
}

fn range(start: u128, end: u128) -> Subrange {
    Subrange { start: integer(start), end: integer(end) }
}

fn value_of(name: &str) -> EnumeratedValue {
    EnumeratedValue { type_id: None, value: Id::from(name) }
}

fn assign(target: &str) -> StmtKind {
    StmtKind::assignment(Variable::symbolic(target), constant(0))
}

fn fb_call(name: &str) -> StmtKind {
    StmtKind::FbCall(FbCall { var_name: Id::from(name), params: vec![] })
}

fn declared(name: &str, initializer: InitialValueAssignmentKind) -> VarDecl {
    VarDecl {
        name: Id::from(name),
        var_type: VariableType::Var,
        qualifier: DeclarationQualifier::Unspecified,
        initializer,
    }
}

fn network(name: &str) -> Network {
    Network {
        initial_step: Step { name: Id::from(name), actions: vec![] },
        elements: vec![
            ElementKind::Step(Step { name: Id::from("next"), actions: vec![Id::from("act")] }),
            ElementKind::Transition(Transition {
                name: None,
                priority: Some(1),
                from: vec![Id::from(name)],
                to: vec![Id::from("next")],
            }),
        ],
    }
}

fn sample_if() -> If {
    If {
        expr: ExprKind::Compare(Box::new(CompareExpr {
            op: CompareOp::Eq,
            left: var("a"),
            right: constant(1),
        })),
        body: vec![assign("x")],
        else_body: vec![StmtKind::Exit],
    }
}

fn sample_case() -> Case {
    Case {
        selector: var("s"),
        statement_groups: vec![
            CaseStatementGroup {
                selectors: vec![
                    CaseSelection::SignedInteger(integer(1)),
                    CaseSelection::Subrange(range(2, 5)),
                ],
                statements: vec![fb_call("f1")],
            },
            CaseStatementGroup {
                selectors: vec![CaseSelection::EnumeratedValue(value_of("RED"))],
                statements: vec![StmtKind::Exit],
            },
        ],
        else_body: vec![fb_call("f2")],
    }
}

#[test]
fn accept_when_if_then_offers_condition_then_body_then_else_body() {
    let stmt = StmtKind::If(sample_if());

    let (recorder, result) = stmt.accept(Recorder::new());

    assert_eq!(Ok(0), result);
    assert_eq!(
        entries(&[
            "if",
            "compare",
            "symbolic_variable:a",
            "constant",
            "assignment",
            "symbolic_variable:x",
            "exit",
        ]),
        recorder.log
    );
}

#[test]
fn visit_if_when_called_then_offers_the_children_only() {
    let (recorder, result) = visit_if(Recorder::new(), &sample_if());

    assert_eq!(Ok(0), result);
    assert_eq!(
        entries(&[
            "compare",
            "symbolic_variable:a",
            "constant",
            "assignment",
            "symbolic_variable:x",
            "exit",
        ]),
        recorder.log
    );
}

#[test]
fn accept_when_case_then_offers_selector_then_groups_then_else_body() {
    let stmt = StmtKind::Case(sample_case());

    let (recorder, result) = stmt.accept(Recorder::new());

    assert_eq!(Ok(0), result);
    assert_eq!(
        entries(&[
            "case",
            "symbolic_variable:s",
            "case_statement_group",
            "signed_integer",
            "subrange",
            "fb_call:f1",
            "case_statement_group",
            "enumerated_value:RED",
            "exit",
            "fb_call:f2",
        ]),
        recorder.log
    );
}

#[test]
fn visit_case_when_called_then_offers_the_children_only() {
    let (recorder, _) = visit_case(Recorder::new(), &sample_case());

    assert_eq!(
        entries(&[
            "symbolic_variable:s",
            "case_statement_group",
            "signed_integer",
            "subrange",
            "fb_call:f1",
            "case_statement_group",
            "enumerated_value:RED",
            "exit",
            "fb_call:f2",
        ]),
        recorder.log
    );
}

#[test]
fn visit_case_statement_group_when_called_then_offers_selectors_then_statements() {
    let group = CaseStatementGroup {
        selectors: vec![CaseSelection::EnumeratedValue(value_of("GREEN"))],
        statements: vec![fb_call("f"), StmtKind::Exit],
    };

    let (recorder, _) = visit_case_statement_group(Recorder::new(), &group);
    assert_eq!(entries(&["enumerated_value:GREEN", "fb_call:f", "exit"]), recorder.log);

    let (recorder, _) = group.accept(Recorder::new());
    assert_eq!(
        entries(&["case_statement_group", "enumerated_value:GREEN", "fb_call:f", "exit"]),
        recorder.log
    );
}

#[test]
fn accept_when_for_then_offers_bounds_then_step_then_body() {
    let with_step = For {
        control: Id::from("i"),
        from: constant(1),
        to: var("n"),
        step: Some(var("step")),
        body: vec![fb_call("f")],
    };
    let (recorder, result) = StmtKind::For(with_step).accept(Recorder::new());
    assert_eq!(Ok(0), result);
    assert_eq!(
        entries(&["for", "constant", "symbolic_variable:n", "symbolic_variable:step", "fb_call:f"]),
        recorder.log
    );

    let without_step = For {
        control: Id::from("i"),
        from: constant(1),
        to: var("n"),
        step: None,
        body: vec![fb_call("f")],
    };
    let (recorder, _) = visit_for(Recorder::new(), &without_step);
    assert_eq!(entries(&["constant", "symbolic_variable:n", "fb_call:f"]), recorder.log);
}

#[test]
fn accept_when_while_then_offers_condition_then_body() {
    let node = While { condition: var("go"), body: vec![StmtKind::Exit, fb_call("f")] };

    let (recorder, _) = visit_while(Recorder::new(), &node);
    assert_eq!(entries(&["symbolic_variable:go", "exit", "fb_call:f"]), recorder.log);

    let (recorder, result) = StmtKind::While(node).accept(Recorder::new());
    assert_eq!(Ok(0), result);
    assert_eq!(entries(&["while", "symbolic_variable:go", "exit", "fb_call:f"]), recorder.log);
}

#[test]
fn accept_when_repeat_then_offers_body_then_condition() {
    let node = Repeat { until: var("stop"), body: vec![fb_call("f")] };

    let (recorder, result) = visit_repeat(Recorder::new(), &node);
    assert_eq!(Ok(2), result);
    assert_eq!(entries(&["fb_call:f", "symbolic_variable:stop"]), recorder.log);

    let (recorder, result) = StmtKind::Repeat(node).accept(Recorder::new());
    assert_eq!(Ok(3), result);
    assert_eq!(entries(&["repeat", "fb_call:f", "symbolic_variable:stop"]), recorder.log);
}

#[test]
fn accept_when_exit_then_calls_its_callback() {
    let (recorder, result) = StmtKind::Exit.accept(Recorder::new());

    assert_eq!(Ok(1), result);
    assert_eq!(entries(&["exit"]), recorder.log);
}

#[test]
fn accept_when_assignment_then_offers_the_target_only() {
    let stmt = StmtKind::assignment(
        Variable::MultiElementVariable(MultiElementVariable {
            elements: vec![Id::from("point"), Id::from("x")],
        }),
        var("not_visited"),
    );
    let (recorder, result) = stmt.accept(Recorder::new());
    assert_eq!(Ok(2), result);
    assert_eq!(entries(&["assignment", "multi_element_variable"]), recorder.log);

    let node = Assignment { target: Variable::symbolic("t"), value: var("not_visited") };
    let (recorder, result) = visit_assignment(Recorder::new(), &node);
    assert_eq!(Ok(1), result);
    assert_eq!(entries(&["symbolic_variable:t"]), recorder.log);
}

#[test]
fn accept_when_fb_call_then_its_arguments_are_not_offered() {
    let stmt = StmtKind::FbCall(FbCall {
        var_name: Id::from("timer"),
        params: vec![ParamAssignmentKind::positional(var("not_visited"))],
    });

    let (recorder, result) = stmt.accept(Recorder::new());

    assert_eq!(Ok(1), result);
    assert_eq!(entries(&["fb_call:timer"]), recorder.log);
}

#[test]
fn accept_when_expression_then_offers_operands_in_order() {
    let call = FunctionCall {
        name: Id::from("f"),
        param_assignment: vec![
            ParamAssignmentKind::positional(var("p")),
            ParamAssignmentKind::NamedInput(NamedInput { name: Id::from("n"), expr: constant(3) }),
            ParamAssignmentKind::Output(Output {
                not: false,
                src: Id::from("out"),
                tgt: Variable::AddressAssignment(AddressAssignment {
                    location: LocationPrefix::Q,
                    size: SizePrefix::X,
                    address: vec![0, 1],
                }),
            }),
        ],
    };
    let expr = ExprKind::BinaryOp(Box::new(BinaryExpr {
        op: Operator::Add,
        left: ExprKind::UnaryOp(Box::new(UnaryExpr { op: UnaryOp::Neg, term: var("a") })),
        right: ExprKind::Expression(Box::new(ExprKind::Function(call))),
    }));

    let (recorder, result) = expr.accept(Recorder::new());

    assert_eq!(Ok(0), result);
    assert_eq!(
        entries(&[
            "binary_op",
            "unary_op",
            "symbolic_variable:a",
            "function_call:f",
            "symbolic_variable:p",
            "constant",
            "address_assignment",
        ]),
        recorder.log
    );
}

#[test]
fn visit_compare_when_called_then_offers_left_then_right() {
    let node = CompareExpr { op: CompareOp::Lt, left: var("l"), right: var("r") };

    let (recorder, result) = visit_compare(Recorder::new(), &node);

    assert_eq!(Ok(2), result);
    assert_eq!(entries(&["symbolic_variable:l", "symbolic_variable:r"]), recorder.log);
}

#[test]
fn visit_binary_op_when_called_then_offers_left_then_right() {
    let node = BinaryExpr { op: Operator::Mul, left: var("l"), right: constant(2) };

    let (recorder, result) = visit_binary_op(Recorder::new(), &node);

    assert_eq!(Ok(2), result);
    assert_eq!(entries(&["symbolic_variable:l", "constant"]), recorder.log);
}

#[test]
fn visit_unary_op_when_called_then_offers_the_operand() {
    let node = UnaryExpr { op: UnaryOp::Not, term: var("t") };

    let (recorder, result) = visit_unary_op(Recorder::new(), &node);

    assert_eq!(Ok(1), result);
    assert_eq!(entries(&["symbolic_variable:t"]), recorder.log);
}

#[test]
fn visit_function_call_when_called_then_offers_the_arguments() {
    let node = FunctionCall {
        name: Id::from("f"),
        param_assignment: vec![
            ParamAssignmentKind::positional(var("first")),
            ParamAssignmentKind::positional(var("second")),
        ],
    };

    let (recorder, result) = visit_function_call(Recorder::new(), &node);

    assert_eq!(Ok(0), result);
    assert_eq!(entries(&["symbolic_variable:first", "symbolic_variable:second"]), recorder.log);
}

#[test]
fn accept_when_variable_then_calls_the_callback_of_its_kind() {
    let (recorder, result) = Variable::symbolic("v").accept(Recorder::new());
    assert_eq!(Ok(1), result);
    assert_eq!(entries(&["symbolic_variable:v"]), recorder.log);

    let address = Variable::AddressAssignment(AddressAssignment {
        location: LocationPrefix::I,
        size: SizePrefix::Nil,
        address: vec![3],
    });
    let (recorder, result) = address.accept(Recorder::new());
    assert_eq!(Ok(1), result);
    assert_eq!(entries(&["address_assignment"]), recorder.log);
}

#[test]
fn accept_when_configuration_then_offers_variables_then_resources() {
    let config = ConfigurationDeclaration {
        name: Id::from("config"),
        global_var: vec![VarDecl::simple("g1", "BOOL")],
        resource_decl: vec![
            ResourceDeclaration {
                name: Id::from("r1"),
                resource: Id::from("cpu"),
                global_vars: vec![VarDecl::enumerated("g2", "LEVEL", "LOW")],
            },
            ResourceDeclaration {
                name: Id::from("r2"),
                resource: Id::from("cpu"),
                global_vars: vec![],
            },
        ],
    };

    let (recorder, _) = visit_configuration_declaration(Recorder::new(), &config);
    assert_eq!(
        entries(&[
            "variable_declaration:g1",
            "simple_initializer",
            "resource_declaration:r1",
            "variable_declaration:g2",
            "enumerated_type_initializer",
            "resource_declaration:r2",
        ]),
        recorder.log
    );

    let (recorder, _) = visit_resource_declaration(Recorder::new(), &config.resource_decl[0]);
    assert_eq!(
        entries(&["variable_declaration:g2", "enumerated_type_initializer"]),
        recorder.log
    );

    let (recorder, result) =
        LibraryElement::ConfigurationDeclaration(config).accept(Recorder::new());
    assert_eq!(Ok(0), result);
    assert_eq!(
        entries(&[
            "configuration_declaration",
            "variable_declaration:g1",
            "simple_initializer",
            "resource_declaration:r1",
            "variable_declaration:g2",
            "enumerated_type_initializer",
            "resource_declaration:r2",
        ]),
        recorder.log
    );
}

#[test]
fn accept_when_variable_declaration_then_offers_what_its_initial_value_offers() {
    // the initial value, what it offers, and whether the result of the last
    // callback comes back
    let cases: Vec<(InitialValueAssignmentKind, Vec<String>, bool)> = vec![
        (InitialValueAssignmentKind::Absent, entries(&[]), false),
        (
            InitialValueAssignmentKind::Simple(SimpleInitializer {
                type_id: Id::from("INT"),
                initial_value: Some(Constant::Boolean(true)),
            }),
            entries(&["simple_initializer"]),
            true,
        ),
        (
            InitialValueAssignmentKind::String(StringInitializer {
                length: Some(Integer { value: 10 }),
                width: StringKind::WString,
                initial_value: Some(String::from("text")),
            }),
            entries(&["string_initializer"]),
            true,
        ),
        (
            InitialValueAssignmentKind::EnumeratedValues(EnumeratedValuesInitializer {
                values: vec![Id::from("A"), Id::from("B")],
                initial_value: Some(value_of("A")),
            }),
            entries(&["enumerated_values_initializer"]),
            true,
        ),
        (
            InitialValueAssignmentKind::EnumeratedType(EnumeratedInitialValueAssignment {
                type_id: Id::from("LEVEL"),
                initial_value: None,
            }),
            entries(&["enumerated_type_initializer"]),
            true,
        ),
        (
            InitialValueAssignmentKind::FunctionBlock(FunctionBlockInitialValueAssignment {
                type_id: Id::from("TON"),
            }),
            entries(&["function_block_type_initializer"]),
            true,
        ),
        (
            InitialValueAssignmentKind::Subrange(SubrangeSpecification {
                type_id: Id::from("INT"),
                subrange: range(0, 9),
            }),
            entries(&["subrange_specification", "subrange"]),
            true,
        ),
        (
            InitialValueAssignmentKind::Structure(StructureInitializationDeclaration {
                type_id: Id::from("POINT"),
                elements_init: vec![StructureElementInit {
                    name: Id::from("x"),
                    init: StructInitialValueAssignmentKind::Constant(Constant::Boolean(false)),
                }],
            }),
            entries(&[
                "structure_initialization_declaration",
                "structure_element_init:x",
                "constant",
            ]),
            false,
        ),
        (
            InitialValueAssignmentKind::Array(ArrayInitialValueAssignment {
                spec: ArraySpecificationKind::Type(Id::from("VALUES")),
                initial_values: vec![ArrayInitialElementKind::Constant(Constant::Boolean(true))],
            }),
            entries(&["array_initializer"]),
            true,
        ),
        (InitialValueAssignmentKind::LateResolvedType(Id::from("LATER")), entries(&[]), false),
    ];

    for (initializer, offered, hands_back) in cases {
        let decl = declared("v", initializer);
        let last = offered.len() as u32;

        let (recorder, result) = decl.initializer.accept(Recorder::new());
        assert_eq!(Ok(if hands_back { last } else { 0 }), result);
        assert_eq!(offered, recorder.log);

        let (recorder, result) = visit_variable_declaration(Recorder::new(), &decl);
        assert_eq!(Ok(if hands_back { last } else { 0 }), result);
        assert_eq!(offered, recorder.log);

        let (recorder, result) = decl.accept(Recorder::new());
        assert_eq!(Ok(if hands_back { last + 1 } else { 0 }), result);
        let mut with_declaration = entries(&["variable_declaration:v"]);
        with_declaration.extend(offered);
        assert_eq!(with_declaration, recorder.log);
    }
}

#[test]
fn accept_when_enumeration_declaration_then_offers_its_specification() {
    let decl = EnumerationDeclaration {
        type_id: Id::from("LEVEL"),
        spec_init: EnumeratedSpecificationInit {
            spec: EnumeratedSpecificationKind::Values(vec![Id::from("LOW"), Id::from("HIGH")]),
            default: Some(value_of("LOW")),
        },
    };

    let (recorder, result) = visit_enum_declaration(Recorder::new(), &decl);
    assert_eq!(Ok(1), result);
    assert_eq!(entries(&["enumerated_spec_init"]), recorder.log);

    let (recorder, result) = decl.spec_init.spec.accept(Recorder::new());
    assert_eq!(Ok(0), result);
    assert_eq!(entries(&[]), recorder.log);

    let (recorder, result) = DataTypeDeclarationKind::Enumeration(decl).accept(Recorder::new());
    assert_eq!(Ok(2), result);
    assert_eq!(entries(&["enum_declaration", "enumerated_spec_init"]), recorder.log);
}

#[test]
fn accept_when_subrange_declaration_then_offers_specification_then_range() {
    let decl = SubrangeDeclaration {
        type_id: Id::from("DIGIT"),
        spec: SubrangeSpecification { type_id: Id::from("INT"), subrange: range(0, 9) },
        default: Some(integer(0)),
    };

    let (recorder, result) = visit_subrange_declaration(Recorder::new(), &decl);
    assert_eq!(Ok(2), result);
    assert_eq!(entries(&["subrange_specification", "subrange"]), recorder.log);

    let (recorder, result) = visit_subrange_specification(Recorder::new(), &decl.spec);
    assert_eq!(Ok(1), result);
    assert_eq!(entries(&["subrange"]), recorder.log);

    let (recorder, result) = DataTypeDeclarationKind::Subrange(decl).accept(Recorder::new());
    assert_eq!(Ok(3), result);
    assert_eq!(
        entries(&["subrange_declaration", "subrange_specification", "subrange"]),
        recorder.log
    );
}

#[test]
fn accept_when_simple_declaration_then_offers_its_initial_value() {
    let decl = SimpleDeclaration {
        type_id: Id::from("SPEED"),
        spec_and_init: InitialValueAssignmentKind::Simple(SimpleInitializer {
            type_id: Id::from("INT"),
            initial_value: None,
        }),
    };

    let (recorder, result) = visit_simple_declaration(Recorder::new(), &decl);
    assert_eq!(Ok(1), result);
    assert_eq!(entries(&["simple_initializer"]), recorder.log);

    let (recorder, result) = DataTypeDeclarationKind::Simple(decl).accept(Recorder::new());
    assert_eq!(Ok(2), result);
    assert_eq!(entries(&["simple_declaration", "simple_initializer"]), recorder.log);
}

#[test]
fn accept_when_array_declaration_then_offers_ranges_then_initial_values() {
    let decl = ArrayDeclaration {
        type_id: Id::from("TABLE"),
        spec: ArraySpecificationKind::Subranges(vec![range(1, 2), range(1, 3)], Id::from("INT")),
        init: vec![
            ArrayInitialElementKind::Constant(Constant::IntegerLiteral(integer(1))),
            ArrayInitialElementKind::EnumValue(value_of("E1")),
            ArrayInitialElementKind::Repeated(
                Integer { value: 2 },
                Box::new(Some(ArrayInitialElementKind::EnumValue(value_of("E2")))),
            ),
            ArrayInitialElementKind::Repeated(Integer { value: 3 }, Box::new(None)),
            ArrayInitialElementKind::Constant(Constant::Boolean(true)),
        ],
    };

    let (recorder, _) = visit_array_declaration(Recorder::new(), &decl);
    assert_eq!(
        entries(&[
            "subrange",
            "subrange",
            "constant",
            "enumerated_value:E1",
            "enumerated_value:E2",
            "constant",
        ]),
        recorder.log
    );

    let (recorder, result) = DataTypeDeclarationKind::Array(decl).accept(Recorder::new());
    assert_eq!(Ok(0), result);
    assert_eq!(
        entries(&[
            "array_declaration",
            "subrange",
            "subrange",
            "constant",
            "enumerated_value:E1",
            "enumerated_value:E2",
            "constant",
        ]),
        recorder.log
    );

    let named = ArrayDeclaration {
        type_id: Id::from("TABLE"),
        spec: ArraySpecificationKind::Type(Id::from("OTHER")),
        init: vec![],
    };
    let (recorder, _) = named.accept(Recorder::new());
    assert_eq!(entries(&["array_declaration"]), recorder.log);
}

#[test]
fn accept_when_structure_declaration_then_offers_itself_only() {
    let decl = StructureDeclaration {
        type_id: Id::from("POINT"),
        elements: vec![StructureElementDeclaration {
            name: Id::from("x"),
            init: InitialValueAssignmentKind::EnumeratedType(EnumeratedInitialValueAssignment {
                type_id: Id::from("LEVEL"),
                initial_value: None,
            }),
        }],
    };

    let (recorder, result) = visit_structure_declaration(Recorder::new(), &decl);
    assert_eq!(Ok(0), result);
    assert_eq!(entries(&[]), recorder.log);

    let (recorder, result) = DataTypeDeclarationKind::Structure(decl).accept(Recorder::new());
    assert_eq!(Ok(1), result);
    assert_eq!(entries(&["structure_declaration"]), recorder.log);
}

#[test]
fn accept_when_structure_initialization_then_offers_elements_in_order() {
    let decl = StructureInitializationDeclaration {
        type_id: Id::from("SHAPE"),
        elements_init: vec![
            StructureElementInit {
                name: Id::from("a"),
                init: StructInitialValueAssignmentKind::Constant(Constant::Boolean(true)),
            },
            StructureElementInit {
                name: Id::from("b"),
                init: StructInitialValueAssignmentKind::Structure(vec![StructureElementInit {
                    name: Id::from("c"),
                    init: StructInitialValueAssignmentKind::EnumeratedValue(value_of("V")),
                }]),
            },
            StructureElementInit {
                name: Id::from("d"),
                init: StructInitialValueAssignmentKind::Array(vec![
                    ArrayInitialElementKind::Constant(Constant::CharacterString(String::from(
                        "s",
                    ))),
                ]),
            },
        ],
    };

    let (recorder, _) = visit_structure_initialization_declaration(Recorder::new(), &decl);
    assert_eq!(
        entries(&[
            "structure_element_init:a",
            "constant",
            "structure_element_init:b",
            "structure_element_init:c",
            "enumerated_value:V",
            "structure_element_init:d",
            "constant",
        ]),
        recorder.log
    );

    let (recorder, result) = visit_structure_element_init(Recorder::new(), &decl.elements_init[1]);
    assert_eq!(Ok(0), result);
    assert_eq!(entries(&["structure_element_init:c", "enumerated_value:V"]), recorder.log);

    let (recorder, result) = decl.elements_init[0].accept(Recorder::new());
    assert_eq!(Ok(2), result);
    assert_eq!(entries(&["structure_element_init:a", "constant"]), recorder.log);

    let (recorder, _) = decl.elements_init[1].accept(Recorder::new());
    assert_eq!(
        entries(&["structure_element_init:b", "structure_element_init:c", "enumerated_value:V"]),
        recorder.log
    );

    let (recorder, result) =
        DataTypeDeclarationKind::StructureInitialization(decl).accept(Recorder::new());
    assert_eq!(Ok(0), result);
    assert_eq!(
        entries(&[
            "structure_initialization_declaration",
            "structure_element_init:a",
            "constant",
            "structure_element_init:b",
            "structure_element_init:c",
            "enumerated_value:V",
            "structure_element_init:d",
            "constant",
        ]),
        recorder.log
    );
}

#[test]
fn accept_when_string_or_late_bound_declaration_then_offers_itself_only() {
    let string = StringDeclaration {
        type_id: Id::from("NAME"),
        length: Integer { value: 20 },
        width: StringKind::String,
        init: None,
    };
    let (recorder, result) = visit_string_declaration(Recorder::new(), &string);
    assert_eq!(Ok(0), result);
    assert_eq!(entries(&[]), recorder.log);
    let (recorder, result) = DataTypeDeclarationKind::String(string).accept(Recorder::new());
    assert_eq!(Ok(1), result);
    assert_eq!(entries(&["string_declaration"]), recorder.log);

    let late = LateBoundDeclaration {
        data_type_id: Id::from("ALIAS"),
        base_type_id: Id::from("BASE"),
    };
    let (recorder, result) = visit_late_bound_declaration(Recorder::new(), &late);
    assert_eq!(Ok(0), result);
    assert_eq!(entries(&[]), recorder.log);
    let (recorder, result) = DataTypeDeclarationKind::LateBound(late).accept(Recorder::new());
    assert_eq!(Ok(1), result);
    assert_eq!(entries(&["late_bound_declaration"]), recorder.log);
}

#[test]
fn accept_when_function_block_then_offers_variables_then_body() {
    let with_chart = FunctionBlockDeclaration {
        name: Id::from("fb"),
        variables: vec![VarDecl::simple("a", "INT"), VarDecl::simple("b", "INT")],
        body: FunctionBlockBody::sfc(vec![network("start"), network("other")]),
    };
    let (recorder, _) = visit_function_block_declaration(Recorder::new(), &with_chart);
    assert_eq!(
        entries(&[
            "variable_declaration:a",
            "simple_initializer",
            "variable_declaration:b",
            "simple_initializer",
            "sfc",
            "network",
            "network",
        ]),
        recorder.log
    );
    let (recorder, result) =
        LibraryElement::FunctionBlockDeclaration(with_chart).accept(Recorder::new());
    assert_eq!(Ok(0), result);
    assert_eq!(
        entries(&[
            "function_block_declaration",
            "variable_declaration:a",
            "simple_initializer",
            "variable_declaration:b",
            "simple_initializer",
            "sfc",
            "network",
            "network",
        ]),
        recorder.log
    );

    let empty = FunctionBlockDeclaration {
        name: Id::from("fb"),
        variables: vec![],
        body: FunctionBlockBody::empty(),
    };
    let (recorder, result) = empty.accept(Recorder::new());
    assert_eq!(Ok(0), result);
    assert_eq!(entries(&["function_block_declaration"]), recorder.log);
}

#[test]
fn visit_sfc_when_called_then_offers_the_networks() {
    let sfc = Sfc { networks: vec![network("start")] };

    let (recorder, result) = visit_sfc(Recorder::new(), &sfc);

    assert_eq!(Ok(0), result);
    assert_eq!(entries(&["network"]), recorder.log);
}

#[test]
fn accept_when_program_then_offers_variables_then_body() {
    let program = ProgramDeclaration {
        type_id: Id::from("main"),
        variables: vec![VarDecl::simple("a", "INT")],
        body: FunctionBlockBody::stmts(vec![assign("x"), fb_call("f")]),
    };

    let (recorder, _) = visit_program_declaration(Recorder::new(), &program);
    assert_eq!(
        entries(&[
            "variable_declaration:a",
            "simple_initializer",
            "statements",
            "assignment",
            "symbolic_variable:x",
            "fb_call:f",
        ]),
        recorder.log
    );

    let (recorder, result) = LibraryElement::ProgramDeclaration(program).accept(Recorder::new());
    assert_eq!(Ok(0), result);
    assert_eq!(
        entries(&[
            "program_declaration",
            "variable_declaration:a",
            "simple_initializer",
            "statements",
            "assignment",
            "symbolic_variable:x",
            "fb_call:f",
        ]),
        recorder.log
    );
}

#[test]
fn visit_statements_when_called_then_offers_the_statements() {
    let statements = Statements { body: vec![fb_call("first"), fb_call("second")] };

    let (recorder, result) = visit_statements(Recorder::new(), &statements);

    assert_eq!(Ok(0), result);
    assert_eq!(entries(&["fb_call:first", "fb_call:second"]), recorder.log);
}

#[test]
fn accept_when_function_then_offers_variables_then_statements() {
    let function = FunctionDeclaration {
        name: Id::from("f"),
        return_type: Id::from("INT"),
        variables: vec![VarDecl::simple("a", "INT")],
        body: vec![assign("f"), StmtKind::Exit],
    };

    let (recorder, _) = visit_function_declaration(Recorder::new(), &function);
    assert_eq!(
        entries(&[
            "variable_declaration:a",
            "simple_initializer",
            "assignment",
            "symbolic_variable:f",
            "exit",
        ]),
        recorder.log
    );

    let (recorder, result) = LibraryElement::FunctionDeclaration(function).accept(Recorder::new());
    assert_eq!(Ok(0), result);
    assert_eq!(
        entries(&[
            "function_declaration",
            "variable_declaration:a",
            "simple_initializer",
            "assignment",
            "symbolic_variable:f",
            "exit",
        ]),
        recorder.log
    );
}

#[test]
fn walk_when_library_has_several_elements_then_visits_them_in_source_order() {
    let library = Library {
        elements: vec![
            LibraryElement::DataTypeDeclaration(DataTypeDeclarationKind::String(
                StringDeclaration {
                    type_id: Id::from("NAME"),
                    length: Integer { value: 8 },
                    width: StringKind::String,
                    init: None,
                },
            )),
            LibraryElement::FunctionDeclaration(FunctionDeclaration {
                name: Id::from("f"),
                return_type: Id::from("INT"),
                variables: vec![],
                body: vec![fb_call("inner")],
            }),
            LibraryElement::ProgramDeclaration(ProgramDeclaration {
                type_id: Id::from("main"),
                variables: vec![],
                body: FunctionBlockBody::empty(),
            }),
        ],
    };

    let (recorder, result) = walk(Recorder::new(), &library);

    assert_eq!(Ok(0), result);
    assert_eq!(
        entries(&[
            "string_declaration",
            "function_declaration",
            "fb_call:inner",
            "program_declaration",
        ]),
        recorder.log
    );
}

#[test]
fn walk_when_library_is_empty_then_returns_the_default_value() {
    let (recorder, result) = walk(Recorder::new(), &Library { elements: vec![] });

    assert_eq!(Ok(0), result);
    assert_eq!(entries(&[]), recorder.log);
}

#[test]
fn accept_when_optional_value_then_offers_it_only_where_present() {
    let present = Some(Variable::symbolic("v"));
    let (recorder, result) = present.accept(Recorder::new());
    assert_eq!(Ok(1), result);
    assert_eq!(entries(&["symbolic_variable:v"]), recorder.log);

    let absent: Option<Variable> = None;
    let (recorder, result) = absent.accept(Recorder::new());
    assert_eq!(Ok(0), result);
    assert_eq!(entries(&[]), recorder.log);

    let (recorder, result) = present.accept(Recorder::failing_at("symbolic_variable:v"));
    assert_eq!(Err(String::from("symbolic_variable:v")), result);
    assert_eq!(entries(&["symbolic_variable:v"]), recorder.log);
}

#[test]
fn accept_when_elements_return_values_then_sequence_returns_the_default_value() {
    let stmts = vec![fb_call("a"), fb_call("b")];

    let (_, result) = stmts.accept(Recorder::new());

    assert_eq!(Ok(0), result);
}

#[test]
fn accept_when_element_fails_then_later_elements_are_not_visited() {
    let stmts = vec![assign("a"), assign("b"), assign("c"), assign("d")];

    let (recorder, result) = stmts.accept(Recorder::failing_at("symbolic_variable:b"));

    assert_eq!(Err(String::from("symbolic_variable:b")), result);
    assert_eq!(
        entries(&["assignment", "symbolic_variable:a", "assignment", "symbolic_variable:b"]),
        recorder.log
    );
}

#[test]
fn accept_when_first_or_last_element_fails_then_result_is_that_failure() {
    let stmts = vec![fb_call("a"), fb_call("b"), fb_call("c")];

    let (recorder, result) = stmts.accept(Recorder::failing_at("fb_call:a"));
    assert_eq!(Err(String::from("fb_call:a")), result);
    assert_eq!(entries(&["fb_call:a"]), recorder.log);

    let (recorder, result) = stmts.accept(Recorder::failing_at("fb_call:c"));
    assert_eq!(Err(String::from("fb_call:c")), result);
    assert_eq!(entries(&["fb_call:a", "fb_call:b", "fb_call:c"]), recorder.log);
}

#[test]
fn accept_when_node_callback_fails_then_children_are_not_visited() {
    let stmts = vec![StmtKind::If(sample_if()), fb_call("after")];

    let (recorder, result) = stmts.accept(Recorder::failing_at("if"));

    assert_eq!(Err(String::from("if")), result);
    assert_eq!(entries(&["if"]), recorder.log);
}

#[test]
fn accept_when_nested_node_fails_then_nothing_after_it_is_visited() {
    let stmts = vec![fb_call("before"), StmtKind::If(sample_if()), fb_call("after")];

    let (recorder, result) = stmts.accept(Recorder::failing_at("symbolic_variable:x"));

    assert_eq!(Err(String::from("symbolic_variable:x")), result);
    assert_eq!(
        entries(&[
            "fb_call:before",
            "if",
            "compare",
            "symbolic_variable:a",
            "constant",
            "assignment",
            "symbolic_variable:x",
        ]),
        recorder.log
    );
}

#[test]
fn visit_case_when_group_fails_then_else_body_is_not_visited() {
    let (recorder, result) = visit_case(Recorder::failing_at("subrange"), &sample_case());

    assert_eq!(Err(String::from("subrange")), result);
    assert_eq!(
        entries(&["symbolic_variable:s", "case_statement_group", "signed_integer", "subrange"]),
        recorder.log
    );
}

#[test]
fn walk_when_declaration_fails_then_later_declarations_are_not_visited() {
    let library = Library {
        elements: vec![
            LibraryElement::ProgramDeclaration(ProgramDeclaration {
                type_id: Id::from("first"),
                variables: vec![VarDecl::simple("a", "INT"), VarDecl::simple("b", "INT")],
                body: FunctionBlockBody::stmts(vec![fb_call("f")]),
            }),
            LibraryElement::ProgramDeclaration(ProgramDeclaration {
                type_id: Id::from("second"),
                variables: vec![],
                body: FunctionBlockBody::empty(),
            }),
        ],
    };

    let (recorder, result) = walk(Recorder::failing_at("variable_declaration:b"), &library);

    assert_eq!(Err(String::from("variable_declaration:b")), result);
    assert_eq!(
        entries(&[
            "program_declaration",
            "variable_declaration:a",
            "simple_initializer",
            "variable_declaration:b",
        ]),
        recorder.log
    );
}

/// Counts the nodes without children: each of their callbacks adds one.
struct LeafCounter {
    count: usize,
}

impl LeafCounter {
    fn one_more(self) -> (LeafCounter, Result<(), String>) {
        (LeafCounter { count: self.count + 1 }, Ok(()))
    }
}

impl Visitor<String> for LeafCounter {
    type Value = ();

    fn visit_signed_integer(self, _node: &SignedInteger) -> (LeafCounter, Result<(), String>) {
        self.one_more()
    }

    fn visit_enumerated_value(self, _node: &EnumeratedValue) -> (LeafCounter, Result<(), String>) {
        self.one_more()
    }

    fn visit_constant(self, _node: &Constant) -> (LeafCounter, Result<(), String>) {
        self.one_more()
    }

    fn visit_subrange(self, _node: &Subrange) -> (LeafCounter, Result<(), String>) {
        self.one_more()
    }

    fn visit_fb_call(self, _node: &FbCall) -> (LeafCounter, Result<(), String>) {
        self.one_more()
    }

    fn visit_exit(self) -> (LeafCounter, Result<(), String>) {
        self.one_more()
    }

    fn visit_address_assignment(
        self,
        _node: &AddressAssignment,
    ) -> (LeafCounter, Result<(), String>) {
        self.one_more()
    }

    fn visit_symbolic_variable(
        self,
        _node: &SymbolicVariable,
    ) -> (LeafCounter, Result<(), String>) {
        self.one_more()
    }

    fn visit_multi_element_variable(
        self,
        _node: &MultiElementVariable,
    ) -> (LeafCounter, Result<(), String>) {
        self.one_more()
    }

    fn visit_simple_initializer(
        self,
        _node: &SimpleInitializer,
    ) -> (LeafCounter, Result<(), String>) {
        self.one_more()
    }
}

fn nested_ifs(depth: usize) -> StmtKind {
    let mut stmt = assign("innermost");
    for _ in 0..depth {
        stmt = StmtKind::If(If { expr: var("c"), body: vec![stmt], else_body: vec![fb_call("f")] });
    }
    stmt
}

#[test]
fn walk_when_counting_leaves_then_counts_each_leaf_once() {
    let library = Library {
        elements: vec![
            LibraryElement::FunctionDeclaration(FunctionDeclaration {
                name: Id::from("f"),
                return_type: Id::from("INT"),
                variables: vec![VarDecl::simple("a", "INT"), VarDecl::simple("b", "INT")],
                body: vec![StmtKind::If(sample_if()), StmtKind::Case(sample_case())],
            }),
        ],
    };

    let (counter, result) = walk(LeafCounter { count: 0 }, &library);

    // two initial values; in the `If`: a, the constant, x, exit; in the
    // `Case`: s, two selectors, f1, one selector, exit, f2
    assert_eq!(Ok(()), result);
    assert_eq!(2 + 4 + 7, counter.count);
}

#[test]
fn accept_when_leaves_are_nested_deep_then_counts_each_leaf_once() {
    for depth in [0usize, 1, 2, 10, 200] {
        let stmt = nested_ifs(depth);

        let (counter, result) = stmt.accept(LeafCounter { count: 5 });

        // the innermost target, and a condition and a call for each level
        assert_eq!(Ok(()), result);
        assert_eq!(5 + 1 + 2 * depth, counter.count);
    }
}

#[test]
fn walk_when_recording_then_every_node_is_visited_once() {
    let library = Library {
        elements: vec![LibraryElement::FunctionDeclaration(FunctionDeclaration {
            name: Id::from("f"),
            return_type: Id::from("INT"),
            variables: vec![],
            body: vec![nested_ifs(3)],
        })],
    };

    let (recorder, _) = walk(Recorder::new(), &library);

    // the function; three levels of if, condition, call; the assignment and
    // its target
    assert_eq!(1 + 3 * 3 + 2, recorder.log.len());
}

/// A pass that overrides no callback.
struct Idle {
    marker: u8,
}

impl Visitor<String> for Idle {
    type Value = Vec<u8>;
}

#[test]
fn walk_when_nothing_is_overridden_then_succeeds_with_the_default_value() {
    let library = Library {
        elements: vec![LibraryElement::FunctionDeclaration(FunctionDeclaration {
            name: Id::from("f"),
            return_type: Id::from("INT"),
            variables: vec![VarDecl::enumerated("v", "LEVEL", "LOW")],
            body: vec![StmtKind::If(sample_if()), StmtKind::Case(sample_case())],
        })],
    };

    let (idle, result) = walk(Idle { marker: 9 }, &library);

    assert_eq!(Ok(Vec::new()), result);
    assert_eq!(9, idle.marker);
}

#[test]
fn accept_when_node_has_no_children_then_returns_what_its_callback_returned() {
    let stmts = vec![fb_call("a"), fb_call("b"), fb_call("c")];

    // each statement alone returns what its callback returned
    let (recorder, result) = stmts[2].accept(Recorder::new());
    assert_eq!(Ok(1), result);
    assert_eq!(entries(&["fb_call:c"]), recorder.log);

    // the sequence of them returns the default value
    let (recorder, result) = stmts.accept(Recorder::new());
    assert_eq!(Ok(0), result);
    assert_eq!(entries(&["fb_call:a", "fb_call:b", "fb_call:c"]), recorder.log);
}

#[test]
fn accept_when_compare_then_returns_what_the_right_operand_returned() {
    let expr = ExprKind::Compare(Box::new(CompareExpr {
        op: CompareOp::Ne,
        left: ExprKind::BinaryOp(Box::new(BinaryExpr {
            op: Operator::Sub,
            left: var("a"),
            right: var("b"),
        })),
        right: ExprKind::UnaryOp(Box::new(UnaryExpr {
            op: UnaryOp::Not,
            term: ExprKind::Expression(Box::new(var("c"))),
        })),
    }));

    let (recorder, result) = expr.accept(Recorder::new());

    assert_eq!(Ok(6), result);
    assert_eq!(
        entries(&[
            "compare",
            "binary_op",
            "symbolic_variable:a",
            "symbolic_variable:b",
            "unary_op",
            "symbolic_variable:c",
        ]),
        recorder.log
    );
}

#[test]
fn accept_when_array_entry_then_returns_what_its_callback_returned() {
    let constant = ArrayInitialElementKind::Constant(Constant::Boolean(true));
    let (_, result) = constant.accept(Recorder::new());
    assert_eq!(Ok(1), result);

    let repeated = ArrayInitialElementKind::Repeated(
        Integer { value: 4 },
        Box::new(Some(ArrayInitialElementKind::EnumValue(value_of("E")))),
    );
    let (recorder, result) = repeated.accept(Recorder::new());
    assert_eq!(Ok(1), result);
    assert_eq!(entries(&["enumerated_value:E"]), recorder.log);

    let nothing = ArrayInitialElementKind::Repeated(Integer { value: 4 }, Box::new(None));
    let (recorder, result) = nothing.accept(Recorder::new());
    assert_eq!(Ok(0), result);
    assert_eq!(entries(&[]), recorder.log);
}

#[test]
fn accept_when_case_selection_then_returns_what_its_callback_returned() {
    for selection in [
        CaseSelection::SignedInteger(integer(1)),
        CaseSelection::Subrange(range(1, 2)),
        CaseSelection::EnumeratedValue(value_of("RED")),
    ] {
        let (_, result) = selection.accept(Recorder::new());

        assert_eq!(Ok(1), result);
    }
}

/// A pass whose callback of a symbolic variable returns a value of its own.
struct Five;

impl Visitor<String> for Five {
    type Value = u32;

    fn visit_symbolic_variable(self, _node: &SymbolicVariable) -> (Five, Result<u32, String>) {
        (self, Ok(5))
    }
}

#[test]
fn accept_when_callback_returns_a_value_then_the_dispatch_returns_it() {
    let (_, result) = Variable::symbolic("v").accept(Five);
    assert_eq!(Ok(5), result);

    let (_, result) = assign("v").accept(Five);
    assert_eq!(Ok(5), result);

    let (_, result) = var("v").accept(Five);
    assert_eq!(Ok(5), result);

    // a callback that is not overridden returns the default value
    let (_, result) = fb_call("f").accept(Five);
    assert_eq!(Ok(0), result);
}
