use plc_dsl::common::{
    FunctionBlockBody, Library, LibraryElement, ProgramDeclaration, VarDecl, VariableType,
};
use plc_dsl::id::Id;
use plc_dsl::textual::{AddressAssignment, FbCall, StmtKind, SymbolicVariable};
use plc_dsl::visitor::{walk, Visitor};
use std::collections::LinkedList;
use std::fmt::Error;

struct Descender {
    names: LinkedList<String>,
}

impl Descender {
    fn new() -> Descender {
        Descender { names: LinkedList::new() }
    }
}

impl Visitor<Error> for Descender {
    type Value = ();

    fn visit_address_assignment(
        mut self,
        variable: &AddressAssignment,
    ) -> (Self, Result<(), Error>) {
        self.names.push_back(format!("{:?}", variable));
        (self, Ok(()))
    }

    fn visit_symbolic_variable(mut self, var: &SymbolicVariable) -> (Self, Result<(), Error>) {
        self.names.push_back(var.name.to_string());
        (self, Ok(()))
    }

    fn visit_fb_call(mut self, fb_call: &FbCall) -> (Self, Result<(), Error>) {
        self.names.push_back(fb_call.var_name.to_string());
        (self, Ok(()))
    }
}

#[test]
fn walk_when_has_symbolic_variable_then_visits_variable() {
    let library = Library {
        elements: vec![LibraryElement::ProgramDeclaration(ProgramDeclaration {
            type_id: Id::from("plc_prg"),
            variables: vec![VarDecl::simple("Reset", "BOOL").with_type(VariableType::Input)],
            body: FunctionBlockBody::stmts(vec![StmtKind::fb_assign(
                "AverageVal",
                vec!["Cnt1", "Cnt2"],
                "_TMP_AverageVal17_OUT",
            )]),
        })],
    };

    let descender = Descender::new();

    let (descender, _) = walk(descender, &library);

    assert_eq!(1, descender.names.len())
}
