//! The cursor-lookup query: find the declaration referenced or declared at a
//! text position.
//!
//! The searcher prunes every design unit of a foreign source and every span
//! that does not contain the cursor, and reports the first declaration span
//! reachable under the cursor: the declaration's own identifier span when the
//! cursor sits on its name, or the resolved reference of a name occurrence
//! when the cursor sits on a use.

use vstd::prelude::*;

use crate::ast::Alternative;
use crate::ast::ArchitectureUnit;
use crate::ast::Attribute;
use crate::ast::ConcurrentStatement;
use crate::ast::Conditional;
use crate::ast::Declaration;
use crate::ast::Designator;
use crate::ast::ElementDeclaration;
use crate::ast::EntityUnit;
use crate::ast::FunctionSpecification;
use crate::ast::GenerateBody;
use crate::ast::InterfaceDeclaration;
use crate::ast::LabeledConcurrentStatement;
use crate::ast::LabeledSequentialStatement;
use crate::ast::PackageUnit;
use crate::ast::Position;
use crate::ast::ProcedureSpecification;
use crate::ast::ProtectedTypeDeclarativeItem;
use crate::ast::SelectedName;
use crate::ast::Source;
use crate::ast::SrcPos;
use crate::ast::SubprogramDeclaration;
use crate::ast::SubtypeIndication;
use crate::ast::TypeDeclaration;
use crate::ast::WithPos;
use crate::ast::WithRef;
use crate::search::SearchResult;
use crate::search::SearchState;
use crate::search::Searcher;
use crate::walk::spec_search_alternatives;
use crate::walk::spec_search_architecture;
use crate::walk::spec_search_concurrent;
use crate::walk::spec_search_concurrent_list;
use crate::walk::spec_search_conditionals;
use crate::walk::spec_search_declaration;
use crate::walk::spec_search_decls;
use crate::walk::spec_search_designator;
use crate::walk::spec_search_entity;
use crate::walk::spec_search_generate_body;
use crate::walk::spec_search_interface_clause;
use crate::walk::spec_search_interface_declaration;
use crate::walk::spec_search_interface_list;
use crate::walk::spec_search_package;
use crate::walk::spec_search_protected_items;
use crate::walk::spec_search_record_elements;
use crate::walk::spec_search_selected_name;
use crate::walk::spec_search_sequential_list;
use crate::walk::spec_search_subprogram;
use crate::walk::spec_search_subtype_indication;
use crate::walk::spec_search_subtype_opt;
use crate::walk::spec_search_type_declaration;

verus! {

/// Search for the declaration referenced or declared at a cursor position
/// within one source document.
pub struct ItemAtCursor {
    pub source: Source,
    pub cursor: Position,
}

impl View for ItemAtCursor {
    type V = ItemAtCursor;

    open spec fn view(&self) -> ItemAtCursor {
        *self
    }
}

impl ItemAtCursor {
    /// A fresh query for the given document and cursor position.
    pub fn new(source: &Source, cursor: Position) -> (s: ItemAtCursor)
        ensures
            s == (ItemAtCursor { source: *source, cursor }),
    {
        ItemAtCursor { source: *source, cursor }
    }

    /// Whether a span contains the cursor.  The cursor is the gap between
    /// character `cursor` and character `cursor + 1`, so it is inside exactly
    /// when `start <= cursor <= end`, both boundaries included.
    pub open spec fn spec_is_inside(self, pos: SrcPos) -> bool {
        pos.range.start.off <= self.cursor.off <= pos.range.end.off
    }

    /// Containment test; holds exactly when `start <= cursor <= end`.
    pub fn is_inside(&self, pos: &SrcPos) -> (r: bool)
        ensures
            r == self.spec_is_inside(*pos),
    {
        pos.range.start.off <= self.cursor.off && self.cursor.off <= pos.range.end.off
    }
}

impl Searcher<SrcPos> for ItemAtCursor {
    open spec fn on_concurrent_statement(s: ItemAtCursor, stmt: LabeledConcurrentStatement) -> (
        ItemAtCursor,
        SearchState<SrcPos>,
    ) {
        (s, SearchState::NotFinished)
    }

    open spec fn on_sequential_statement(s: ItemAtCursor, stmt: LabeledSequentialStatement) -> (
        ItemAtCursor,
        SearchState<SrcPos>,
    ) {
        (s, SearchState::NotFinished)
    }

    open spec fn on_declaration(s: ItemAtCursor, decl: Declaration) -> (
        ItemAtCursor,
        SearchState<SrcPos>,
    ) {
        (s, SearchState::NotFinished)
    }

    open spec fn on_type_declaration(s: ItemAtCursor, decl: TypeDeclaration) -> (
        ItemAtCursor,
        SearchState<SrcPos>,
    ) {
        if s.spec_is_inside(decl.ident.pos) {
            (s, SearchState::Finished(SearchResult::Found(decl.ident.pos)))
        } else {
            (s, SearchState::Finished(SearchResult::NotFound))
        }
    }

    open spec fn on_interface_declaration(s: ItemAtCursor, decl: InterfaceDeclaration) -> (
        ItemAtCursor,
        SearchState<SrcPos>,
    ) {
        (s, SearchState::NotFinished)
    }

    open spec fn on_subtype_indication(s: ItemAtCursor, decl: SubtypeIndication) -> (
        ItemAtCursor,
        SearchState<SrcPos>,
    ) {
        (s, SearchState::NotFinished)
    }

    open spec fn on_entity(s: ItemAtCursor, ent: EntityUnit) -> (
        ItemAtCursor,
        SearchState<SrcPos>,
    ) {
        if s.spec_is_inside(ent.ident.pos) {
            (s, SearchState::Finished(SearchResult::Found(ent.ident.pos)))
        } else {
            (s, SearchState::NotFinished)
        }
    }

    open spec fn on_designator_ref(s: ItemAtCursor, pos: SrcPos, designator: WithRef<
        Designator,
    >) -> (ItemAtCursor, SearchState<SrcPos>) {
        if !s.spec_is_inside(pos) {
            (s, SearchState::Finished(SearchResult::NotFound))
        } else {
            match designator.reference {
                Some(reference) => (s, SearchState::Finished(SearchResult::Found(reference))),
                None => (s, SearchState::Finished(SearchResult::NotFound)),
            }
        }
    }

    open spec fn on_with_pos(s: ItemAtCursor, pos: SrcPos) -> (ItemAtCursor, SearchState<SrcPos>) {
        if s.spec_is_inside(pos) {
            (s, SearchState::NotFinished)
        } else {
            (s, SearchState::Finished(SearchResult::NotFound))
        }
    }

    open spec fn on_source(s: ItemAtCursor, source: Source) -> (ItemAtCursor, SearchState<SrcPos>) {
        if source == s.source {
            (s, SearchState::NotFinished)
        } else {
            (s, SearchState::Finished(SearchResult::NotFound))
        }
    }

    fn search_labeled_concurrent_statement(&mut self, stmt: &LabeledConcurrentStatement) -> (r:
        SearchState<SrcPos>) {
        SearchState::NotFinished
    }

    fn search_labeled_sequential_statement(&mut self, stmt: &LabeledSequentialStatement) -> (r:
        SearchState<SrcPos>) {
        SearchState::NotFinished
    }

    fn search_declaration(&mut self, decl: &Declaration) -> (r: SearchState<SrcPos>) {
        SearchState::NotFinished
    }

    fn search_type_declaration(&mut self, decl: &TypeDeclaration) -> (r: SearchState<SrcPos>) {
        let pos = decl.ident.pos;
        if self.is_inside(&pos) {
            SearchState::Finished(SearchResult::Found(pos))
        } else {
            SearchState::Finished(SearchResult::NotFound)
        }
    }

    fn search_interface_declaration(&mut self, decl: &InterfaceDeclaration) -> (r: SearchState<
        SrcPos,
    >) {
        SearchState::NotFinished
    }

    fn search_subtype_indication(&mut self, decl: &SubtypeIndication) -> (r: SearchState<SrcPos>) {
        SearchState::NotFinished
    }

    fn search_entity(&mut self, ent: &EntityUnit) -> (r: SearchState<SrcPos>) {
        let pos = ent.ident.pos;
        if self.is_inside(&pos) {
            SearchState::Finished(SearchResult::Found(pos))
        } else {
            SearchState::NotFinished
        }
    }

    fn search_designator_ref(&mut self, pos: &SrcPos, designator: &WithRef<Designator>) -> (r:
        SearchState<SrcPos>) {
        if !self.is_inside(pos) {
            SearchState::Finished(SearchResult::NotFound)
        } else {
            match &designator.reference {
                Some(reference) => SearchState::Finished(SearchResult::Found(*reference)),
                None => SearchState::Finished(SearchResult::NotFound),
            }
        }
    }

    fn search_with_pos(&mut self, pos: &SrcPos) -> (r: SearchState<SrcPos>) {
        if self.is_inside(pos) {
            SearchState::NotFinished
        } else {
            SearchState::Finished(SearchResult::NotFound)
        }
    }

    fn search_source(&mut self, source: &Source) -> (r: SearchState<SrcPos>) {
        if *source == self.source {
            SearchState::NotFinished
        } else {
            SearchState::Finished(SearchResult::NotFound)
        }
    }
}

/// Law: placing the cursor anywhere inside an entity's own identifier span
/// makes the search of that entity report exactly that identifier span.
pub proof fn lemma_entity_declaration_at_cursor(ent: EntityUnit, c: ItemAtCursor)
    requires
        c.source == ent.source,
        c.spec_is_inside(ent.ident.pos),
    ensures
        spec_search_entity::<SrcPos, ItemAtCursor>(ent, c) == (
            c,
            SearchResult::<SrcPos>::Found(ent.ident.pos),
        ),
{
}

/// Law: placing the cursor anywhere inside a type declaration's own
/// identifier span makes the search of that declaration report exactly that
/// identifier span.
pub proof fn lemma_type_declaration_at_cursor(td: TypeDeclaration, c: ItemAtCursor)
    requires
        c.spec_is_inside(td.ident.pos),
    ensures
        spec_search_type_declaration::<SrcPos, ItemAtCursor>(td, c) == (
            c,
            SearchResult::<SrcPos>::Found(td.ident.pos),
        ),
{
}

/// Law: placing the cursor inside a name occurrence whose resolved reference
/// is `decl` makes the search of that occurrence report exactly `decl`.
pub proof fn lemma_reference_at_cursor(
    name: WithPos<WithRef<Designator>>,
    c: ItemAtCursor,
    decl: SrcPos,
)
    requires
        c.spec_is_inside(name.pos),
        name.item.reference == Some(decl),
    ensures
        spec_search_designator::<SrcPos, ItemAtCursor>(name, c) == (
            c,
            SearchResult::<SrcPos>::Found(decl),
        ),
{
}

/// Law: placing the cursor inside a name occurrence that resolution left
/// without a reference ends that subtree with no report.
pub proof fn lemma_unresolved_at_cursor(name: WithPos<WithRef<Designator>>, c: ItemAtCursor)
    requires
        c.spec_is_inside(name.pos),
        name.item.reference is None,
    ensures
        spec_search_designator::<SrcPos, ItemAtCursor>(name, c) == (
            c,
            SearchResult::<SrcPos>::NotFound,
        ),
{
}

/// Law (pruning): once a name occurrence's span fails containment, its
/// subtree is abandoned at once, whatever reference it carries.
pub proof fn lemma_prune_designator(name: WithPos<WithRef<Designator>>, c: ItemAtCursor)
    requires
        !c.spec_is_inside(name.pos),
    ensures
        spec_search_designator::<SrcPos, ItemAtCursor>(name, c) == (
            c,
            SearchResult::<SrcPos>::NotFound,
        ),
{
}

/// Law (pruning): once a type declaration's identifier span fails
/// containment, its whole definition is abandoned unvisited, whatever its
/// children hold.
pub proof fn lemma_prune_type_declaration(td: TypeDeclaration, c: ItemAtCursor)
    requires
        !c.spec_is_inside(td.ident.pos),
    ensures
        spec_search_type_declaration::<SrcPos, ItemAtCursor>(td, c) == (
            c,
            SearchResult::<SrcPos>::NotFound,
        ),
{
}

/// Law (pruning): a design unit of a different source than the query's is
/// skipped entirely, whatever it contains.
pub proof fn lemma_prune_foreign_source_entity(ent: EntityUnit, c: ItemAtCursor)
    requires
        ent.source != c.source,
    ensures
        spec_search_entity::<SrcPos, ItemAtCursor>(ent, c) == (
            c,
            SearchResult::<SrcPos>::NotFound,
        ),
{
}

// ---------------------------------------------------------------------------
// No match: a cursor outside every span in a tree yields `NotFound`.
// `cursor_misses_*` says, per node kind, that the cursor lies outside every
// span the search of that node tests: every name occurrence's span and every
// declaration site that could be reported.  The lemmas prove that searching
// such a node leaves the query unchanged and reports nothing.
// ---------------------------------------------------------------------------

/// The cursor lies outside a name occurrence's span.
pub open spec fn cursor_misses_designator(c: ItemAtCursor, name: WithPos<WithRef<Designator>>) -> bool {
    !c.spec_is_inside(name.pos)
}

/// The cursor lies outside every span of a possibly selected name.
pub open spec fn cursor_misses_selected_name(c: ItemAtCursor, name: WithPos<SelectedName>) -> bool
    decreases name,
{
    match name.item {
        SelectedName::Selected(prefix, designator) => cursor_misses_selected_name(c, *prefix)
            && !c.spec_is_inside(designator.pos),
        SelectedName::Designator(designator) => !c.spec_is_inside(name.pos),
    }
}

/// The cursor lies outside every span of a subtype indication.
pub open spec fn cursor_misses_subtype(c: ItemAtCursor, si: SubtypeIndication) -> bool {
    cursor_misses_selected_name(c, si.type_mark)
}

/// The cursor lies outside every span of an optional subtype indication.
pub open spec fn cursor_misses_subtype_opt(c: ItemAtCursor, o: Option<SubtypeIndication>) -> bool {
    match o {
        Some(si) => cursor_misses_subtype(c, si),
        None => true,
    }
}

/// The cursor lies outside every span of a record's elements.
pub open spec fn cursor_misses_record_elements(c: ItemAtCursor, l: Seq<ElementDeclaration>) -> bool
    decreases l,
{
    l.len() == 0 || (cursor_misses_subtype(c, l[0].subtype) && cursor_misses_record_elements(
        c,
        l.skip(1),
    ))
}

/// The cursor lies outside every span of a protected type's items.
pub open spec fn cursor_misses_protected_items(
    c: ItemAtCursor,
    l: Seq<ProtectedTypeDeclarativeItem>,
) -> bool
    decreases l,
{
    l.len() == 0 || ((match l[0] {
        ProtectedTypeDeclarativeItem::Subprogram(sub) => cursor_misses_subprogram(c, sub),
    }) && cursor_misses_protected_items(c, l.skip(1)))
}

/// The cursor lies outside a type declaration's identifier span — enough for
/// the whole declaration, since the search abandons the definition at once.
pub open spec fn cursor_misses_type_declaration(c: ItemAtCursor, td: TypeDeclaration) -> bool {
    !c.spec_is_inside(td.ident.pos)
}

/// The cursor lies outside every span of a declarative item.
pub open spec fn cursor_misses_declaration(c: ItemAtCursor, d: Declaration) -> bool
    decreases d,
{
    match d {
        Declaration::Object(object) => cursor_misses_subtype(c, object.subtype_indication),
        Declaration::Type(typ) => cursor_misses_type_declaration(c, typ),
        Declaration::SubprogramBody(body) => cursor_misses_subprogram(c, body.specification)
            && cursor_misses_decls(c, body.declarations@),
        Declaration::SubprogramDeclaration(decl) => cursor_misses_subprogram(c, decl),
        Declaration::Attribute(attr) => match attr {
            Attribute::Declaration(decl) => cursor_misses_selected_name(c, decl.type_mark),
            Attribute::Specification => true,
        },
        Declaration::Alias(decl) => cursor_misses_subtype_opt(c, decl.subtype_indication),
        Declaration::Use => true,
    }
}

/// The cursor lies outside every span of a declarative part.
pub open spec fn cursor_misses_decls(c: ItemAtCursor, l: Seq<Declaration>) -> bool
    decreases l,
{
    l.len() == 0 || (cursor_misses_declaration(c, l[0]) && cursor_misses_decls(c, l.skip(1)))
}

/// The cursor lies outside every span of an interface declaration.
pub open spec fn cursor_misses_interface_declaration(c: ItemAtCursor, d: InterfaceDeclaration) -> bool
    decreases d,
{
    match d {
        InterfaceDeclaration::Object(decl) => cursor_misses_subtype(c, decl.subtype_indication),
        InterfaceDeclaration::Subprogram(decl) => cursor_misses_subprogram(c, decl),
        InterfaceDeclaration::File => true,
    }
}

/// The cursor lies outside every span of an interface list.
pub open spec fn cursor_misses_interface_list(c: ItemAtCursor, l: Seq<InterfaceDeclaration>) -> bool
    decreases l,
{
    l.len() == 0 || (cursor_misses_interface_declaration(c, l[0]) && cursor_misses_interface_list(
        c,
        l.skip(1),
    ))
}

/// The cursor lies outside every span of an optional generic or port clause.
pub open spec fn cursor_misses_interface_clause(
    c: ItemAtCursor,
    o: Option<Vec<InterfaceDeclaration>>,
) -> bool {
    match o {
        Some(list) => cursor_misses_interface_list(c, list@),
        None => true,
    }
}

/// The cursor lies outside every span of a procedure specification.
pub open spec fn cursor_misses_procedure(c: ItemAtCursor, p: ProcedureSpecification) -> bool
    decreases p,
{
    cursor_misses_interface_list(c, p.parameter_list@)
}

/// The cursor lies outside every span of a function specification.
pub open spec fn cursor_misses_function(c: ItemAtCursor, f: FunctionSpecification) -> bool
    decreases f,
{
    cursor_misses_interface_list(c, f.parameter_list@) && cursor_misses_selected_name(
        c,
        f.return_type,
    )
}

/// The cursor lies outside every span of a subprogram declaration.
pub open spec fn cursor_misses_subprogram(c: ItemAtCursor, d: SubprogramDeclaration) -> bool
    decreases d,
{
    match d {
        SubprogramDeclaration::Procedure(decl) => cursor_misses_procedure(c, decl),
        SubprogramDeclaration::Function(decl) => cursor_misses_function(c, decl),
    }
}

/// The cursor lies outside every span of a generate body.
pub open spec fn cursor_misses_generate_body(c: ItemAtCursor, b: GenerateBody) -> bool
    decreases b,
{
    cursor_misses_decls(c, b.decl@) && cursor_misses_concurrent_list(c, b.statements@)
}

/// The cursor lies outside every span of an optional generate body.
pub open spec fn cursor_misses_generate_body_opt(c: ItemAtCursor, o: Option<GenerateBody>) -> bool
    decreases o,
{
    match o {
        Some(b) => cursor_misses_generate_body(c, b),
        None => true,
    }
}

/// The cursor lies outside every span of an if-generate's branches.
pub open spec fn cursor_misses_conditionals(c: ItemAtCursor, l: Seq<Conditional>) -> bool
    decreases l,
{
    l.len() == 0 || (cursor_misses_generate_body(c, l[0].item) && cursor_misses_conditionals(
        c,
        l.skip(1),
    ))
}

/// The cursor lies outside every span of a case-generate's alternatives.
pub open spec fn cursor_misses_alternatives(c: ItemAtCursor, l: Seq<Alternative>) -> bool
    decreases l,
{
    l.len() == 0 || (cursor_misses_generate_body(c, l[0].item) && cursor_misses_alternatives(
        c,
        l.skip(1),
    ))
}

/// The cursor lies outside every span of a concurrent statement.
pub open spec fn cursor_misses_concurrent(c: ItemAtCursor, stmt: LabeledConcurrentStatement) -> bool
    decreases stmt,
{
    match stmt.statement {
        ConcurrentStatement::Block(block) => cursor_misses_decls(c, block.decl@)
            && cursor_misses_concurrent_list(c, block.statements@),
        ConcurrentStatement::Process(process) => cursor_misses_decls(c, process.decl@),
        ConcurrentStatement::ForGenerate(gen) => cursor_misses_generate_body(c, gen.body),
        ConcurrentStatement::IfGenerate(gen) => cursor_misses_conditionals(c, gen.conditionals@)
            && cursor_misses_generate_body_opt(c, gen.else_item),
        ConcurrentStatement::CaseGenerate(gen) => cursor_misses_alternatives(c, gen.alternatives@),
        ConcurrentStatement::Instance => true,
    }
}

/// The cursor lies outside every span of a concurrent statement list.
pub open spec fn cursor_misses_concurrent_list(
    c: ItemAtCursor,
    l: Seq<LabeledConcurrentStatement>,
) -> bool
    decreases l,
{
    l.len() == 0 || (cursor_misses_concurrent(c, l[0]) && cursor_misses_concurrent_list(
        c,
        l.skip(1),
    ))
}

/// The cursor lies outside every span of an entity unit.
pub open spec fn cursor_misses_entity(c: ItemAtCursor, ent: EntityUnit) -> bool {
    !c.spec_is_inside(ent.ident.pos) && cursor_misses_interface_clause(c, ent.generic_clause)
        && cursor_misses_interface_clause(c, ent.port_clause) && cursor_misses_decls(c, ent.decl@)
        && cursor_misses_concurrent_list(c, ent.statements@)
}

/// The cursor lies outside every span of an architecture unit.
pub open spec fn cursor_misses_architecture(c: ItemAtCursor, unit: ArchitectureUnit) -> bool {
    cursor_misses_decls(c, unit.decl@) && cursor_misses_concurrent_list(c, unit.statements@)
}

/// The cursor lies outside every span of a package unit.
pub open spec fn cursor_misses_package(c: ItemAtCursor, unit: PackageUnit) -> bool {
    cursor_misses_interface_clause(c, unit.generic_clause) && cursor_misses_decls(c, unit.decl@)
}

/// Law (no match): searching a name occurrence whose span the cursor misses
/// reports nothing and leaves the query unchanged.
pub proof fn lemma_no_match_selected_name(name: WithPos<SelectedName>, c: ItemAtCursor)
    requires
        cursor_misses_selected_name(c, name),
    ensures
        spec_search_selected_name::<SrcPos, ItemAtCursor>(name, c) == (
            c,
            SearchResult::<SrcPos>::NotFound,
        ),
    decreases name,
{
    match name.item {
        SelectedName::Selected(prefix, designator) => {
            lemma_no_match_selected_name(*prefix, c);
        },
        SelectedName::Designator(designator) => {},
    }
}

/// Law (no match): searching a subtype indication all of whose spans the
/// cursor misses reports nothing.
pub proof fn lemma_no_match_subtype(si: SubtypeIndication, c: ItemAtCursor)
    requires
        cursor_misses_subtype(c, si),
    ensures
        spec_search_subtype_indication::<SrcPos, ItemAtCursor>(si, c) == (
            c,
            SearchResult::<SrcPos>::NotFound,
        ),
{
    lemma_no_match_selected_name(si.type_mark, c);
}

/// Law (no match): searching an optional subtype indication all of whose
/// spans the cursor misses reports nothing.
pub proof fn lemma_no_match_subtype_opt(o: Option<SubtypeIndication>, c: ItemAtCursor)
    requires
        cursor_misses_subtype_opt(c, o),
    ensures
        spec_search_subtype_opt::<SrcPos, ItemAtCursor>(o, c) == (
            c,
            SearchResult::<SrcPos>::NotFound,
        ),
{
    match o {
        Some(si) => lemma_no_match_subtype(si, c),
        None => {},
    }
}

/// Law (no match): searching a record's elements all of whose spans the
/// cursor misses reports nothing.
pub proof fn lemma_no_match_record_elements(l: Seq<ElementDeclaration>, c: ItemAtCursor)
    requires
        cursor_misses_record_elements(c, l),
    ensures
        spec_search_record_elements::<SrcPos, ItemAtCursor>(l, c) == (
            c,
            SearchResult::<SrcPos>::NotFound,
        ),
    decreases l,
{
    if l.len() != 0 {
        lemma_no_match_subtype(l[0].subtype, c);
        lemma_no_match_record_elements(l.skip(1), c);
    }
}

/// Law (no match): searching a protected type's items all of whose spans the
/// cursor misses reports nothing.
pub proof fn lemma_no_match_protected_items(l: Seq<ProtectedTypeDeclarativeItem>, c: ItemAtCursor)
    requires
        cursor_misses_protected_items(c, l),
    ensures
        spec_search_protected_items::<SrcPos, ItemAtCursor>(l, c) == (
            c,
            SearchResult::<SrcPos>::NotFound,
        ),
    decreases l,
{
    if l.len() != 0 {
        match l[0] {
            ProtectedTypeDeclarativeItem::Subprogram(sub) => lemma_no_match_subprogram(sub, c),
        }
        lemma_no_match_protected_items(l.skip(1), c);
    }
}

/// Law (no match): searching a declarative item all of whose spans the
/// cursor misses reports nothing.
pub proof fn lemma_no_match_declaration(d: Declaration, c: ItemAtCursor)
    requires
        cursor_misses_declaration(c, d),
    ensures
        spec_search_declaration::<SrcPos, ItemAtCursor>(d, c) == (
            c,
            SearchResult::<SrcPos>::NotFound,
        ),
    decreases d,
{
    match d {
        Declaration::Object(object) => lemma_no_match_subtype(object.subtype_indication, c),
        Declaration::Type(typ) => lemma_prune_type_declaration(typ, c),
        Declaration::SubprogramBody(body) => {
            lemma_no_match_subprogram(body.specification, c);
            lemma_no_match_decls(body.declarations@, c);
        },
        Declaration::SubprogramDeclaration(decl) => lemma_no_match_subprogram(decl, c),
        Declaration::Attribute(attr) => match attr {
            Attribute::Declaration(decl) => lemma_no_match_selected_name(decl.type_mark, c),
            Attribute::Specification => {},
        },
        Declaration::Alias(decl) => lemma_no_match_subtype_opt(decl.subtype_indication, c),
        Declaration::Use => {},
    }
}

/// Law (no match): searching a declarative part all of whose spans the
/// cursor misses reports nothing.
pub proof fn lemma_no_match_decls(l: Seq<Declaration>, c: ItemAtCursor)
    requires
        cursor_misses_decls(c, l),
    ensures
        spec_search_decls::<SrcPos, ItemAtCursor>(l, c) == (c, SearchResult::<SrcPos>::NotFound),
    decreases l,
{
    if l.len() != 0 {
        lemma_no_match_declaration(l[0], c);
        lemma_no_match_decls(l.skip(1), c);
    }
}

/// Law (no match): searching an interface declaration all of whose spans the
/// cursor misses reports nothing.
pub proof fn lemma_no_match_interface_declaration(d: InterfaceDeclaration, c: ItemAtCursor)
    requires
        cursor_misses_interface_declaration(c, d),
    ensures
        spec_search_interface_declaration::<SrcPos, ItemAtCursor>(d, c) == (
            c,
            SearchResult::<SrcPos>::NotFound,
        ),
    decreases d,
{
    match d {
        InterfaceDeclaration::Object(decl) => lemma_no_match_subtype(decl.subtype_indication, c),
        InterfaceDeclaration::Subprogram(decl) => lemma_no_match_subprogram(decl, c),
        InterfaceDeclaration::File => {},
    }
}

/// Law (no match): searching an interface list all of whose spans the cursor
/// misses reports nothing.
pub proof fn lemma_no_match_interface_list(l: Seq<InterfaceDeclaration>, c: ItemAtCursor)
    requires
        cursor_misses_interface_list(c, l),
    ensures
        spec_search_interface_list::<SrcPos, ItemAtCursor>(l, c) == (
            c,
            SearchResult::<SrcPos>::NotFound,
        ),
    decreases l,
{
    if l.len() != 0 {
        lemma_no_match_interface_declaration(l[0], c);
        lemma_no_match_interface_list(l.skip(1), c);
    }
}

/// Law (no match): searching an optional generic or port clause all of whose
/// spans the cursor misses reports nothing.
pub proof fn lemma_no_match_interface_clause(o: Option<Vec<InterfaceDeclaration>>, c: ItemAtCursor)
    requires
        cursor_misses_interface_clause(c, o),
    ensures
        spec_search_interface_clause::<SrcPos, ItemAtCursor>(o, c) == (
            c,
            SearchResult::<SrcPos>::NotFound,
        ),
{
    match o {
        Some(list) => lemma_no_match_interface_list(list@, c),
        None => {},
    }
}

/// Law (no match): searching a subprogram declaration all of whose spans the
/// cursor misses reports nothing.
pub proof fn lemma_no_match_subprogram(d: SubprogramDeclaration, c: ItemAtCursor)
    requires
        cursor_misses_subprogram(c, d),
    ensures
        spec_search_subprogram::<SrcPos, ItemAtCursor>(d, c) == (
            c,
            SearchResult::<SrcPos>::NotFound,
        ),
    decreases d,
{
    match d {
        SubprogramDeclaration::Procedure(decl) => {
            lemma_no_match_interface_list(decl.parameter_list@, c);
        },
        SubprogramDeclaration::Function(decl) => {
            lemma_no_match_interface_list(decl.parameter_list@, c);
            lemma_no_match_selected_name(decl.return_type, c);
        },
    }
}

/// Law: the cursor query never reports anything from a sequential statement
/// list; the statements' own children are outside this engine's scope.
pub proof fn lemma_no_match_sequential_list(l: Seq<LabeledSequentialStatement>, c: ItemAtCursor)
    ensures
        spec_search_sequential_list::<SrcPos, ItemAtCursor>(l, c) == (
            c,
            SearchResult::<SrcPos>::NotFound,
        ),
    decreases l,
{
    if l.len() != 0 {
        lemma_no_match_sequential_list(l.skip(1), c);
    }
}

/// Law (no match): searching a generate body all of whose spans the cursor
/// misses reports nothing.
pub proof fn lemma_no_match_generate_body(b: GenerateBody, c: ItemAtCursor)
    requires
        cursor_misses_generate_body(c, b),
    ensures
        spec_search_generate_body::<SrcPos, ItemAtCursor>(b, c) == (
            c,
            SearchResult::<SrcPos>::NotFound,
        ),
    decreases b,
{
    lemma_no_match_decls(b.decl@, c);
    lemma_no_match_concurrent_list(b.statements@, c);
}

/// Law (no match): searching an if-generate's branches all of whose spans
/// the cursor misses reports nothing.
pub proof fn lemma_no_match_conditionals(l: Seq<Conditional>, c: ItemAtCursor)
    requires
        cursor_misses_conditionals(c, l),
    ensures
        spec_search_conditionals::<SrcPos, ItemAtCursor>(l, c) == (
            c,
            SearchResult::<SrcPos>::NotFound,
        ),
    decreases l,
{
    if l.len() != 0 {
        lemma_no_match_generate_body(l[0].item, c);
        lemma_no_match_conditionals(l.skip(1), c);
    }
}

/// Law (no match): searching a case-generate's alternatives all of whose
/// spans the cursor misses reports nothing.
pub proof fn lemma_no_match_alternatives(l: Seq<Alternative>, c: ItemAtCursor)
    requires
        cursor_misses_alternatives(c, l),
    ensures
        spec_search_alternatives::<SrcPos, ItemAtCursor>(l, c) == (
            c,
            SearchResult::<SrcPos>::NotFound,
        ),
    decreases l,
{
    if l.len() != 0 {
        lemma_no_match_generate_body(l[0].item, c);
        lemma_no_match_alternatives(l.skip(1), c);
    }
}

/// Law (no match): searching a concurrent statement all of whose spans the
/// cursor misses reports nothing.
pub proof fn lemma_no_match_concurrent(stmt: LabeledConcurrentStatement, c: ItemAtCursor)
    requires
        cursor_misses_concurrent(c, stmt),
    ensures
        spec_search_concurrent::<SrcPos, ItemAtCursor>(stmt, c) == (
            c,
            SearchResult::<SrcPos>::NotFound,
        ),
    decreases stmt,
{
    match stmt.statement {
        ConcurrentStatement::Block(block) => {
            lemma_no_match_decls(block.decl@, c);
            lemma_no_match_concurrent_list(block.statements@, c);
        },
        ConcurrentStatement::Process(process) => {
            lemma_no_match_decls(process.decl@, c);
            lemma_no_match_sequential_list(process.statements@, c);
        },
        ConcurrentStatement::ForGenerate(gen) => lemma_no_match_generate_body(gen.body, c),
        ConcurrentStatement::IfGenerate(gen) => {
            lemma_no_match_conditionals(gen.conditionals@, c);
            match gen.else_item {
                Some(body) => lemma_no_match_generate_body(body, c),
                None => {},
            }
        },
        ConcurrentStatement::CaseGenerate(gen) => lemma_no_match_alternatives(gen.alternatives@, c),
        ConcurrentStatement::Instance => {},
    }
}

/// Law (no match): searching a concurrent statement list all of whose spans
/// the cursor misses reports nothing.
pub proof fn lemma_no_match_concurrent_list(l: Seq<LabeledConcurrentStatement>, c: ItemAtCursor)
    requires
        cursor_misses_concurrent_list(c, l),
    ensures
        spec_search_concurrent_list::<SrcPos, ItemAtCursor>(l, c) == (
            c,
            SearchResult::<SrcPos>::NotFound,
        ),
    decreases l,
{
    if l.len() != 0 {
        lemma_no_match_concurrent(l[0], c);
        lemma_no_match_concurrent_list(l.skip(1), c);
    }
}

/// Law (no match): a cursor outside every span of an entity unit yields
/// `NotFound`.
pub proof fn lemma_no_match_entity(ent: EntityUnit, c: ItemAtCursor)
    requires
        cursor_misses_entity(c, ent),
    ensures
        spec_search_entity::<SrcPos, ItemAtCursor>(ent, c) == (
            c,
            SearchResult::<SrcPos>::NotFound,
        ),
{
    if ent.source == c.source {
        lemma_no_match_interface_clause(ent.generic_clause, c);
        lemma_no_match_interface_clause(ent.port_clause, c);
        lemma_no_match_decls(ent.decl@, c);
        lemma_no_match_concurrent_list(ent.statements@, c);
    }
}

/// Law (no match): a cursor outside every span of an architecture unit
/// yields `NotFound`.
pub proof fn lemma_no_match_architecture(unit: ArchitectureUnit, c: ItemAtCursor)
    requires
        cursor_misses_architecture(c, unit),
    ensures
        spec_search_architecture::<SrcPos, ItemAtCursor>(unit, c) == (
            c,
            SearchResult::<SrcPos>::NotFound,
        ),
{
    if unit.source == c.source {
        lemma_no_match_decls(unit.decl@, c);
        lemma_no_match_concurrent_list(unit.statements@, c);
    }
}

/// Law (no match): a cursor outside every span of a package unit yields
/// `NotFound`.
pub proof fn lemma_no_match_package(unit: PackageUnit, c: ItemAtCursor)
    requires
        cursor_misses_package(c, unit),
    ensures
        spec_search_package::<SrcPos, ItemAtCursor>(unit, c) == (
            c,
            SearchResult::<SrcPos>::NotFound,
        ),
{
    if unit.source == c.source {
        lemma_no_match_interface_clause(unit.generic_clause, c);
        lemma_no_match_decls(unit.decl@, c);
    }
}

} // verus!
