//! Declarations: the library, its elements, data types, variables and
//! their initial values.
use vstd::prelude::*;
use crate::common_sfc::Network;
use crate::id::Id;
use crate::textual::StmtKind;

verus! {

/// An unsigned integer literal.
#[derive(Debug, PartialEq)]
pub struct Integer {
    pub value: u128,
}

/// An integer literal with its sign.
#[derive(Debug, PartialEq)]
pub struct SignedInteger {
    pub value: Integer,
    pub is_neg: bool,
}

/// A literal value. A real literal keeps the digits as they were written.
#[derive(Debug, PartialEq)]
pub enum Constant {
    IntegerLiteral(SignedInteger),
    RealLiteral(String),
    Boolean(bool),
    CharacterString(String),
    BitStringLiteral(Integer),
}

/// A use of one value of an enumeration, with the enumeration's name where
/// the source gave it.
#[derive(Debug, PartialEq)]
pub struct EnumeratedValue {
    pub type_id: Option<Id>,
    pub value: Id,
}

/// The root of the tree: the top-level declarations in source order.
#[derive(Debug, PartialEq)]
pub struct Library {
    pub elements: Vec<LibraryElement>,
}

/// One top-level declaration.
#[derive(Debug, PartialEq)]
pub enum LibraryElement {
    ConfigurationDeclaration(ConfigurationDeclaration),
    DataTypeDeclaration(DataTypeDeclarationKind),
    FunctionBlockDeclaration(FunctionBlockDeclaration),
    FunctionDeclaration(FunctionDeclaration),
    ProgramDeclaration(ProgramDeclaration),
}

/// The declaration of one data type.
#[derive(Debug, PartialEq)]
pub enum DataTypeDeclarationKind {
    Enumeration(EnumerationDeclaration),
    Subrange(SubrangeDeclaration),
    Simple(SimpleDeclaration),
    Array(ArrayDeclaration),
    Structure(StructureDeclaration),
    StructureInitialization(StructureInitializationDeclaration),
    String(StringDeclaration),
    LateBound(LateBoundDeclaration),
}

/// A type declared by the name of another type that is not resolved yet.
#[derive(Debug, PartialEq)]
pub struct LateBoundDeclaration {
    pub data_type_id: Id,
    pub base_type_id: Id,
}

/// The declaration of an enumeration.
#[derive(Debug, PartialEq)]
pub struct EnumerationDeclaration {
    pub type_id: Id,
    pub spec_init: EnumeratedSpecificationInit,
}

/// What an enumeration is, and the value it starts with.
#[derive(Debug, PartialEq)]
pub struct EnumeratedSpecificationInit {
    pub spec: EnumeratedSpecificationKind,
    pub default: Option<EnumeratedValue>,
}

/// An enumeration is either its own list of values, or another name for the
/// enumeration `TypeName` names.
#[derive(Debug, PartialEq)]
pub enum EnumeratedSpecificationKind {
    TypeName(Id),
    Values(Vec<Id>),
}

/// The declaration of a subrange type.
#[derive(Debug, PartialEq)]
pub struct SubrangeDeclaration {
    pub type_id: Id,
    pub spec: SubrangeSpecification,
    pub default: Option<SignedInteger>,
}

/// A range of values of an integer type.
#[derive(Debug, PartialEq)]
pub struct SubrangeSpecification {
    pub type_id: Id,
    pub subrange: Subrange,
}

/// The bounds of a range, both included.
#[derive(Debug, PartialEq)]
pub struct Subrange {
    pub start: SignedInteger,
    pub end: SignedInteger,
}

/// The declaration of a type as another type with an initial value.
#[derive(Debug, PartialEq)]
pub struct SimpleDeclaration {
    pub type_id: Id,
    pub spec_and_init: InitialValueAssignmentKind,
}

/// The declaration of an array type.
#[derive(Debug, PartialEq)]
pub struct ArrayDeclaration {
    pub type_id: Id,
    pub spec: ArraySpecificationKind,
    pub init: Vec<ArrayInitialElementKind>,
}

/// An array is another name for an array type, or index ranges with the type
/// of the elements.
#[derive(Debug, PartialEq)]
pub enum ArraySpecificationKind {
    Type(Id),
    Subranges(Vec<Subrange>, Id),
}

/// One entry of the initial values of an array.
#[derive(Debug, PartialEq)]
pub enum ArrayInitialElementKind {
    Constant(Constant),
    EnumValue(EnumeratedValue),
    Repeated(Integer, Box<Option<ArrayInitialElementKind>>),
}

/// The declaration of a structure type.
#[derive(Debug, PartialEq)]
pub struct StructureDeclaration {
    pub type_id: Id,
    pub elements: Vec<StructureElementDeclaration>,
}

/// One element of a structure type.
#[derive(Debug, PartialEq)]
pub struct StructureElementDeclaration {
    pub name: Id,
    pub init: InitialValueAssignmentKind,
}

/// A structure type with initial values for some of its elements.
#[derive(Debug, PartialEq)]
pub struct StructureInitializationDeclaration {
    pub type_id: Id,
    pub elements_init: Vec<StructureElementInit>,
}

/// The initial value of one element of a structure.
#[derive(Debug, PartialEq)]
pub struct StructureElementInit {
    pub name: Id,
    pub init: StructInitialValueAssignmentKind,
}

/// What a structure element starts with.
#[derive(Debug, PartialEq)]
pub enum StructInitialValueAssignmentKind {
    Constant(Constant),
    EnumeratedValue(EnumeratedValue),
    Array(Vec<ArrayInitialElementKind>),
    Structure(Vec<StructureElementInit>),
}

/// Whether a string holds single-byte or wide characters.
#[derive(Debug, PartialEq)]
pub enum StringKind {
    String,
    WString,
}

/// The declaration of a string type.
#[derive(Debug, PartialEq)]
pub struct StringDeclaration {
    pub type_id: Id,
    pub length: Integer,
    pub width: StringKind,
    pub init: Option<String>,
}

/// The type of a variable together with the value it starts with.
#[derive(Debug, PartialEq)]
pub enum InitialValueAssignmentKind {
    /// No type and no value were given.
    Absent,
    Simple(SimpleInitializer),
    String(StringInitializer),
    EnumeratedValues(EnumeratedValuesInitializer),
    EnumeratedType(EnumeratedInitialValueAssignment),
    FunctionBlock(FunctionBlockInitialValueAssignment),
    Subrange(SubrangeSpecification),
    Structure(StructureInitializationDeclaration),
    Array(ArrayInitialValueAssignment),
    LateResolvedType(Id),
}

/// A variable of an elementary or a named type, with the constant it starts with.
#[derive(Debug, PartialEq)]
pub struct SimpleInitializer {
    pub type_id: Id,
    pub initial_value: Option<Constant>,
}

/// A string variable, with its length and the text it starts with.
#[derive(Debug, PartialEq)]
pub struct StringInitializer {
    pub length: Option<Integer>,
    pub width: StringKind,
    pub initial_value: Option<String>,
}

/// A variable whose type is a list of values written in place.
#[derive(Debug, PartialEq)]
pub struct EnumeratedValuesInitializer {
    pub values: Vec<Id>,
    pub initial_value: Option<EnumeratedValue>,
}

/// A variable of a named enumeration, with the value it starts with.
#[derive(Debug, PartialEq)]
pub struct EnumeratedInitialValueAssignment {
    pub type_id: Id,
    pub initial_value: Option<EnumeratedValue>,
}

/// A variable that is an instance of the function block `type_id`.
#[derive(Debug, PartialEq)]
pub struct FunctionBlockInitialValueAssignment {
    pub type_id: Id,
}

/// An array variable, with the values it starts with.
#[derive(Debug, PartialEq)]
pub struct ArrayInitialValueAssignment {
    pub spec: ArraySpecificationKind,
    pub initial_values: Vec<ArrayInitialElementKind>,
}

/// The storage class of a variable.
#[derive(Debug, PartialEq)]
pub enum VariableType {
    Var,
    VarTemp,
    Input,
    Output,
    InOut,
    External,
    Global,
    Access,
}

/// How a variable keeps its value.
#[derive(Debug, PartialEq)]
pub enum DeclarationQualifier {
    Unspecified,
    Constant,
    Retain,
    NonRetain,
}

/// The declaration of one variable.
#[derive(Debug, PartialEq)]
pub struct VarDecl {
    pub name: Id,
    pub var_type: VariableType,
    pub qualifier: DeclarationQualifier,
    pub initializer: InitialValueAssignmentKind,
}

impl VarDecl {
    /// A local variable `name` of the type `type_id`, with no initial value.
    pub fn simple(name: &str, type_id: &str) -> (decl: VarDecl)
        ensures
            decl.name@ == name@,
            decl.var_type == VariableType::Var,
            decl.qualifier == DeclarationQualifier::Unspecified,
            decl.initializer matches InitialValueAssignmentKind::Simple(init)
                && init.type_id@ == type_id@ && init.initial_value is None,
    {
        VarDecl {
            name: Id::from(name),
            var_type: VariableType::Var,
            qualifier: DeclarationQualifier::Unspecified,
            initializer: InitialValueAssignmentKind::Simple(
                SimpleInitializer { type_id: Id::from(type_id), initial_value: None },
            ),
        }
    }

    /// A local variable `name` of the enumeration `type_id` that starts
    /// with the value `initial_value`.
    pub fn enumerated(name: &str, type_id: &str, initial_value: &str) -> (decl: VarDecl)
        ensures
            decl.name@ == name@,
            decl.var_type == VariableType::Var,
            decl.qualifier == DeclarationQualifier::Unspecified,
            decl.initializer matches InitialValueAssignmentKind::EnumeratedType(init)
                && init.type_id@ == type_id@
                && (init.initial_value matches Some(value)
                    && value.type_id is None && value.value@ == initial_value@),
    {
        VarDecl {
            name: Id::from(name),
            var_type: VariableType::Var,
            qualifier: DeclarationQualifier::Unspecified,
            initializer: InitialValueAssignmentKind::EnumeratedType(
                EnumeratedInitialValueAssignment {
                    type_id: Id::from(type_id),
                    initial_value: Some(
                        EnumeratedValue { type_id: None, value: Id::from(initial_value) },
                    ),
                },
            ),
        }
    }

    /// The same declaration with the storage class `var_type`.
    pub fn with_type(self, var_type: VariableType) -> (decl: VarDecl)
        ensures
            decl == (VarDecl { var_type, ..self }),
    {
        VarDecl {
            name: self.name,
            var_type,
            qualifier: self.qualifier,
            initializer: self.initializer,
        }
    }
}

/// The declaration of a function.
#[derive(Debug, PartialEq)]
pub struct FunctionDeclaration {
    pub name: Id,
    pub return_type: Id,
    pub variables: Vec<VarDecl>,
    pub body: Vec<StmtKind>,
}

/// The declaration of a function block.
#[derive(Debug, PartialEq)]
pub struct FunctionBlockDeclaration {
    pub name: Id,
    pub variables: Vec<VarDecl>,
    pub body: FunctionBlockBody,
}

/// The declaration of a program.
#[derive(Debug, PartialEq)]
pub struct ProgramDeclaration {
    pub type_id: Id,
    pub variables: Vec<VarDecl>,
    pub body: FunctionBlockBody,
}

/// The body of a function block or a program: a chart, statements, or
/// nothing.
#[derive(Debug, PartialEq)]
pub enum FunctionBlockBody {
    Sfc(Sfc),
    Statements(Statements),
    Empty,
}

impl FunctionBlockBody {
    /// A body made of the statements `stmts`.
    pub fn stmts(stmts: Vec<StmtKind>) -> (body: FunctionBlockBody)
        ensures
            body == FunctionBlockBody::Statements(Statements { body: stmts }),
    {
        FunctionBlockBody::Statements(Statements { body: stmts })
    }

    /// A body made of the chart networks `networks`.
    pub fn sfc(networks: Vec<Network>) -> (body: FunctionBlockBody)
        ensures
            body == FunctionBlockBody::Sfc(Sfc { networks }),
    {
        FunctionBlockBody::Sfc(Sfc { networks })
    }

    /// A body that holds nothing.
    pub fn empty() -> (body: FunctionBlockBody)
        ensures
            body == FunctionBlockBody::Empty,
    {
        FunctionBlockBody::Empty
    }
}

/// A sequential function chart.
#[derive(Debug, PartialEq)]
pub struct Sfc {
    pub networks: Vec<Network>,
}

/// A sequence of statements.
#[derive(Debug, PartialEq)]
pub struct Statements {
    pub body: Vec<StmtKind>,
}

/// The declaration of a configuration: global variables and resources.
#[derive(Debug, PartialEq)]
pub struct ConfigurationDeclaration {
    pub name: Id,
    pub global_var: Vec<VarDecl>,
    pub resource_decl: Vec<ResourceDeclaration>,
}

/// A resource of a configuration.
#[derive(Debug, PartialEq)]
pub struct ResourceDeclaration {
    pub name: Id,
    pub resource: Id,
    pub global_vars: Vec<VarDecl>,
}

} // verus!
