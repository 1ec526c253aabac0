//! Abstract syntax of a hardware description language, reduced to the shape
//! that the search engine walks: every node kind carries exactly the children
//! that a search visits, plus the identifier spans that act as declaration
//! sites.  The tree is produced upstream (parsing and name resolution) and is
//! read-only during a search.

use vstd::prelude::*;

verus! {

/// A position inside one source document, interpreted as the gap between two
/// characters; positions within a document are totally ordered by `off`.
#[derive(Clone, Copy, Debug, PartialEq, Eq, Structural)]
pub struct Position {
    pub off: u64,
}

/// A contiguous span of one document, both boundaries inclusive for cursor
/// containment.
#[derive(Clone, Copy, Debug, PartialEq, Eq, Structural)]
pub struct Range {
    pub start: Position,
    pub end: Position,
}

/// Identity of a source document; a design unit and all of its descendants
/// belong to a single source.
#[derive(Clone, Copy, Debug, PartialEq, Eq, Structural)]
pub struct Source {
    pub id: u64,
}

/// A span together with the document it belongs to.
#[derive(Clone, Copy, Debug, PartialEq, Eq, Structural)]
pub struct SrcPos {
    pub source: Source,
    pub range: Range,
}

/// An identifier occurrence: a symbol with the span it occupies.  The span of
/// a declaration's identifier is that declaration's canonical site.
#[derive(Clone, Copy, Debug, PartialEq, Eq, Structural)]
pub struct Ident {
    pub name: u64,
    pub pos: SrcPos,
}

/// A name designator as it occurs in the text; the symbol itself is opaque to
/// the search.
#[derive(Clone, Copy, Debug, PartialEq, Eq, Structural)]
pub struct Designator {
    pub name: u64,
}

/// A value paired with the optional back-pointer that name resolution filled
/// in: the span of the declaration this occurrence denotes, absent when the
/// name could not be resolved.
pub struct WithRef<T> {
    pub item: T,
    pub reference: Option<SrcPos>,
}

/// A value paired with the span it occupies in the source.
pub struct WithPos<T> {
    pub item: T,
    pub pos: SrcPos,
}

/// A possibly selected name, `prefix.suffix` chains ending in a designator.
pub enum SelectedName {
    Designator(WithRef<Designator>),
    Selected(Box<WithPos<SelectedName>>, WithPos<WithRef<Designator>>),
}

/// A subtype indication; the search descends into the type mark name.
pub struct SubtypeIndication {
    pub type_mark: WithPos<SelectedName>,
}

/// One element of a record type definition.
pub struct ElementDeclaration {
    pub ident: Ident,
    pub subtype: SubtypeIndication,
}

/// Body of a protected type, with its declarative part.
pub struct ProtectedTypeBody {
    pub decl: Vec<Declaration>,
}

/// A declarative item of a protected type declaration.
pub enum ProtectedTypeDeclarativeItem {
    Subprogram(SubprogramDeclaration),
}

/// Declaration of a protected type, a list of subprogram items.
pub struct ProtectedTypeDeclaration {
    pub items: Vec<ProtectedTypeDeclarativeItem>,
}

/// The definition part of a type declaration.  Only the variants listed here
/// are descended into; scalar definitions contribute nothing beyond the type
/// declaration hook.
pub enum TypeDefinition {
    ProtectedBody(ProtectedTypeBody),
    Protected(ProtectedTypeDeclaration),
    Record(Vec<ElementDeclaration>),
    Access(SubtypeIndication),
    Array(SubtypeIndication),
    Subtype(SubtypeIndication),
    Integer,
}

/// A type declaration: its identifier span is its declaration site.
pub struct TypeDeclaration {
    pub ident: Ident,
    pub def: TypeDefinition,
}

/// An object (signal, variable, constant) declaration.
pub struct ObjectDeclaration {
    pub ident: Ident,
    pub subtype_indication: SubtypeIndication,
}

/// An attribute declaration with its type mark.
pub struct AttributeDeclaration {
    pub ident: Ident,
    pub type_mark: WithPos<SelectedName>,
}

/// An attribute item; only declarations are descended into.
pub enum Attribute {
    Declaration(AttributeDeclaration),
    Specification,
}

/// An alias declaration with its optional subtype indication.
pub struct AliasDeclaration {
    pub designator: Ident,
    pub subtype_indication: Option<SubtypeIndication>,
}

/// A procedure specification with its parameter list.
pub struct ProcedureSpecification {
    pub ident: Ident,
    pub parameter_list: Vec<InterfaceDeclaration>,
}

/// A function specification with its parameter list and return type name.
pub struct FunctionSpecification {
    pub ident: Ident,
    pub parameter_list: Vec<InterfaceDeclaration>,
    pub return_type: WithPos<SelectedName>,
}

/// A subprogram declaration, either a procedure or a function.
pub enum SubprogramDeclaration {
    Procedure(ProcedureSpecification),
    Function(FunctionSpecification),
}

/// A subprogram body: its specification and its local declarative part.
pub struct SubprogramBody {
    pub specification: SubprogramDeclaration,
    pub declarations: Vec<Declaration>,
}

/// A declarative item.  Variants without listed children contribute nothing
/// beyond the declaration hook.
pub enum Declaration {
    Object(ObjectDeclaration),
    Type(TypeDeclaration),
    SubprogramBody(SubprogramBody),
    SubprogramDeclaration(SubprogramDeclaration),
    Attribute(Attribute),
    Alias(AliasDeclaration),
    Use,
}

/// An interface object (generic, port or parameter) declaration.
pub struct InterfaceObjectDeclaration {
    pub ident: Ident,
    pub subtype_indication: SubtypeIndication,
}

/// An interface declaration of a generic, port or parameter list.
pub enum InterfaceDeclaration {
    Object(InterfaceObjectDeclaration),
    Subprogram(SubprogramDeclaration),
    File,
}

/// A sequential statement with its optional label; the statement itself is
/// not descended into by the search.
pub struct LabeledSequentialStatement {
    pub label: Option<Ident>,
}

/// The body of a generate alternative: declarations, then statements.
pub struct GenerateBody {
    pub decl: Vec<Declaration>,
    pub statements: Vec<LabeledConcurrentStatement>,
}

/// A block statement with its declarative part and statement part.
pub struct BlockStatement {
    pub decl: Vec<Declaration>,
    pub statements: Vec<LabeledConcurrentStatement>,
}

/// A process statement with its declarative part and sequential body.
pub struct ProcessStatement {
    pub decl: Vec<Declaration>,
    pub statements: Vec<LabeledSequentialStatement>,
}

/// A for-generate statement with its single body.
pub struct ForGenerateStatement {
    pub body: GenerateBody,
}

/// One conditional branch of an if-generate statement.
pub struct Conditional {
    pub item: GenerateBody,
}

/// An if-generate statement: conditional branches in source order, then an
/// optional else branch.
pub struct IfGenerateStatement {
    pub conditionals: Vec<Conditional>,
    pub else_item: Option<GenerateBody>,
}

/// One alternative of a case-generate statement.
pub struct Alternative {
    pub item: GenerateBody,
}

/// A case-generate statement with its alternatives in source order.
pub struct CaseGenerateStatement {
    pub alternatives: Vec<Alternative>,
}

/// A concurrent statement.  Instantiations are not descended into by the
/// search as given.
pub enum ConcurrentStatement {
    Block(BlockStatement),
    Process(ProcessStatement),
    ForGenerate(ForGenerateStatement),
    IfGenerate(IfGenerateStatement),
    CaseGenerate(CaseGenerateStatement),
    Instance,
}

/// A concurrent statement with its optional label.
pub struct LabeledConcurrentStatement {
    pub label: Option<Ident>,
    pub statement: ConcurrentStatement,
}

/// An entity design unit: its identifier span is its declaration site.
pub struct EntityUnit {
    pub source: Source,
    pub ident: Ident,
    pub generic_clause: Option<Vec<InterfaceDeclaration>>,
    pub port_clause: Option<Vec<InterfaceDeclaration>>,
    pub decl: Vec<Declaration>,
    pub statements: Vec<LabeledConcurrentStatement>,
}

/// An architecture body design unit.
pub struct ArchitectureUnit {
    pub source: Source,
    pub ident: Ident,
    pub decl: Vec<Declaration>,
    pub statements: Vec<LabeledConcurrentStatement>,
}

/// A package declaration design unit.
pub struct PackageUnit {
    pub source: Source,
    pub ident: Ident,
    pub generic_clause: Option<Vec<InterfaceDeclaration>>,
    pub decl: Vec<Declaration>,
}

/// A package body design unit.
pub struct PackageBodyUnit {
    pub source: Source,
    pub ident: Ident,
    pub decl: Vec<Declaration>,
}

/// A package instantiation design unit, naming the instantiated package.
pub struct PackageInstanceUnit {
    pub source: Source,
    pub ident: Ident,
    pub package_name: WithPos<SelectedName>,
}

/// A configuration design unit, naming the configured entity.
pub struct ConfigurationUnit {
    pub source: Source,
    pub ident: Ident,
    pub entity_name: WithPos<SelectedName>,
}

} // verus!
