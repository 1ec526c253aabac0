//! The reference-collection query: collect every occurrence of one
//! declaration, in document order.
//!
//! The searcher never finishes early — it must see the whole tree — and
//! appends to its accumulator the identifier span of every entity whose
//! declaration site equals the target, and the span of every name occurrence
//! whose resolved reference equals the target.

use vstd::prelude::*;

use crate::ast::Alternative;
use crate::ast::ArchitectureUnit;
use crate::ast::Attribute;
use crate::ast::ConcurrentStatement;
use crate::ast::Conditional;
use crate::ast::ConfigurationUnit;
use crate::ast::Declaration;
use crate::ast::Designator;
use crate::ast::ElementDeclaration;
use crate::ast::EntityUnit;
use crate::ast::FunctionSpecification;
use crate::ast::GenerateBody;
use crate::ast::InterfaceDeclaration;
use crate::ast::LabeledConcurrentStatement;
use crate::ast::LabeledSequentialStatement;
use crate::ast::PackageBodyUnit;
use crate::ast::PackageInstanceUnit;
use crate::ast::PackageUnit;
use crate::ast::ProcedureSpecification;
use crate::ast::ProtectedTypeDeclarativeItem;
use crate::ast::SelectedName;
use crate::ast::Source;
use crate::ast::SrcPos;
use crate::ast::SubprogramDeclaration;
use crate::ast::SubtypeIndication;
use crate::ast::TypeDeclaration;
use crate::ast::TypeDefinition;
use crate::ast::WithPos;
use crate::ast::WithRef;
use crate::search::Search;
use crate::search::SearchResult;
use crate::search::SearchState;
use crate::search::Searcher;
use crate::walk::spec_search_alternatives;
use crate::walk::spec_search_architecture;
use crate::walk::spec_search_concurrent;
use crate::walk::spec_search_concurrent_list;
use crate::walk::spec_search_conditionals;
use crate::walk::spec_search_configuration;
use crate::walk::spec_search_declaration;
use crate::walk::spec_search_decls;
use crate::walk::spec_search_designator;
use crate::walk::spec_search_entity;
use crate::walk::spec_search_function;
use crate::walk::spec_search_generate_body;
use crate::walk::spec_search_generate_body_opt;
use crate::walk::spec_search_interface_clause;
use crate::walk::spec_search_interface_declaration;
use crate::walk::spec_search_interface_list;
use crate::walk::spec_search_package;
use crate::walk::spec_search_package_body;
use crate::walk::spec_search_package_instance;
use crate::walk::spec_search_procedure;
use crate::walk::spec_search_protected_items;
use crate::walk::spec_search_record_elements;
use crate::walk::spec_search_selected_name;
use crate::walk::spec_search_sequential_list;
use crate::walk::spec_search_subprogram;
use crate::walk::spec_search_subtype_indication;
use crate::walk::spec_search_subtype_opt;
use crate::walk::spec_search_type_declaration;

verus! {

/// The abstract state of a reference collection: the target declaration span
/// and the occurrences gathered so far, in the order they were met.
pub struct RefsView {
    pub decl_pos: SrcPos,
    pub references: Seq<SrcPos>,
}

impl RefsView {
    /// Record `occurrence` when `candidate` is the target declaration span;
    /// leave the state unchanged otherwise.
    pub open spec fn note(self, candidate: SrcPos, occurrence: SrcPos) -> RefsView {
        if candidate == self.decl_pos {
            RefsView { decl_pos: self.decl_pos, references: self.references.push(occurrence) }
        } else {
            self
        }
    }
}

/// Search for every occurrence of the declaration whose site is `decl_pos`:
/// the declaration site itself where it is an entity's, plus every name
/// occurrence resolved to it.
pub struct FindAllReferences {
    pub decl_pos: SrcPos,
    pub references: Vec<SrcPos>,
}

impl View for FindAllReferences {
    type V = RefsView;

    open spec fn view(&self) -> RefsView {
        RefsView { decl_pos: self.decl_pos, references: self.references@ }
    }
}

impl FindAllReferences {
    /// A fresh collection for the given target declaration span.
    pub fn new(decl_pos: &SrcPos) -> (s: FindAllReferences)
        ensures
            s@.decl_pos == *decl_pos,
            s@.references == Seq::<SrcPos>::empty(),
    {
        FindAllReferences { decl_pos: *decl_pos, references: Vec::new() }
    }

    /// Run the collection over a searchable tree and hand back everything
    /// gathered, in traversal order.
    pub fn search(self, searchable: &impl Search<(), FindAllReferences>) -> (r: Vec<SrcPos>)
        ensures
            r@ == searchable.spec_search(self@).0.references,
    {
        let mut this = self;
        let _unused = searchable.search(&mut this);
        this.references
    }

    /// Record a candidate declaration site: it is kept exactly when it is
    /// the target.
    pub fn search_decl_pos(&mut self, decl_pos: &SrcPos)
        ensures
            final(self)@ == old(self)@.note(*decl_pos, *decl_pos),
    {
        if *decl_pos == self.decl_pos {
            self.references.push(*decl_pos);
        }
    }
}

impl Searcher<()> for FindAllReferences {
    open spec fn on_concurrent_statement(s: RefsView, stmt: LabeledConcurrentStatement) -> (
        RefsView,
        SearchState<()>,
    ) {
        (s, SearchState::NotFinished)
    }

    open spec fn on_sequential_statement(s: RefsView, stmt: LabeledSequentialStatement) -> (
        RefsView,
        SearchState<()>,
    ) {
        (s, SearchState::NotFinished)
    }

    open spec fn on_declaration(s: RefsView, decl: Declaration) -> (RefsView, SearchState<()>) {
        (s, SearchState::NotFinished)
    }

    open spec fn on_type_declaration(s: RefsView, decl: TypeDeclaration) -> (
        RefsView,
        SearchState<()>,
    ) {
        (s, SearchState::NotFinished)
    }

    open spec fn on_interface_declaration(s: RefsView, decl: InterfaceDeclaration) -> (
        RefsView,
        SearchState<()>,
    ) {
        (s, SearchState::NotFinished)
    }

    open spec fn on_subtype_indication(s: RefsView, decl: SubtypeIndication) -> (
        RefsView,
        SearchState<()>,
    ) {
        (s, SearchState::NotFinished)
    }

    open spec fn on_entity(s: RefsView, ent: EntityUnit) -> (RefsView, SearchState<()>) {
        (s.note(ent.ident.pos, ent.ident.pos), SearchState::NotFinished)
    }

    open spec fn on_designator_ref(s: RefsView, pos: SrcPos, designator: WithRef<Designator>) -> (
        RefsView,
        SearchState<()>,
    ) {
        match designator.reference {
            Some(reference) => (s.note(reference, pos), SearchState::NotFinished),
            None => (s, SearchState::NotFinished),
        }
    }

    open spec fn on_with_pos(s: RefsView, pos: SrcPos) -> (RefsView, SearchState<()>) {
        (s, SearchState::NotFinished)
    }

    open spec fn on_source(s: RefsView, source: Source) -> (RefsView, SearchState<()>) {
        (s, SearchState::NotFinished)
    }

    fn search_labeled_concurrent_statement(&mut self, stmt: &LabeledConcurrentStatement) -> (r:
        SearchState<()>) {
        SearchState::NotFinished
    }

    fn search_labeled_sequential_statement(&mut self, stmt: &LabeledSequentialStatement) -> (r:
        SearchState<()>) {
        SearchState::NotFinished
    }

    fn search_declaration(&mut self, decl: &Declaration) -> (r: SearchState<()>) {
        SearchState::NotFinished
    }

    fn search_type_declaration(&mut self, decl: &TypeDeclaration) -> (r: SearchState<()>) {
        SearchState::NotFinished
    }

    fn search_interface_declaration(&mut self, decl: &InterfaceDeclaration) -> (r: SearchState<
        (),
    >) {
        SearchState::NotFinished
    }

    fn search_subtype_indication(&mut self, decl: &SubtypeIndication) -> (r: SearchState<()>) {
        SearchState::NotFinished
    }

    fn search_entity(&mut self, ent: &EntityUnit) -> (r: SearchState<()>) {
        let pos = ent.ident.pos;
        self.search_decl_pos(&pos);
        SearchState::NotFinished
    }

    fn search_designator_ref(&mut self, pos: &SrcPos, designator: &WithRef<Designator>) -> (r:
        SearchState<()>) {
        match &designator.reference {
            Some(reference) => {
                if *reference == self.decl_pos {
                    self.references.push(*pos);
                }
            },
            None => {},
        }
        SearchState::NotFinished
    }

    fn search_with_pos(&mut self, pos: &SrcPos) -> (r: SearchState<()>) {
        SearchState::NotFinished
    }

    fn search_source(&mut self, source: &Source) -> (r: SearchState<()>) {
        SearchState::NotFinished
    }
}

// ---------------------------------------------------------------------------
// Completeness: the collection gathers exactly the occurrences of the target,
// in document order.  `refs_in_*` lists, per node kind, the occurrences a
// node holds: every entity identifier equal to the target and every name
// occurrence whose resolved reference equals the target.  The lemmas prove
// that searching a node appends exactly that list to the accumulator and
// reports nothing.
// ---------------------------------------------------------------------------

/// The occurrences of `target` in a name occurrence node.
pub open spec fn refs_in_designator(target: SrcPos, name: WithPos<WithRef<Designator>>) -> Seq<
    SrcPos,
> {
    if name.item.reference == Some(target) {
        seq![name.pos]
    } else {
        Seq::<SrcPos>::empty()
    }
}

/// The occurrences of `target` in a possibly selected name, prefix first.
pub open spec fn refs_in_selected_name(target: SrcPos, name: WithPos<SelectedName>) -> Seq<SrcPos>
    decreases name,
{
    match name.item {
        SelectedName::Selected(prefix, designator) => refs_in_selected_name(target, *prefix)
            + refs_in_designator(target, designator),
        SelectedName::Designator(designator) => {
            if designator.reference == Some(target) {
                seq![name.pos]
            } else {
                Seq::<SrcPos>::empty()
            }
        },
    }
}

/// The occurrences of `target` in a subtype indication.
pub open spec fn refs_in_subtype(target: SrcPos, si: SubtypeIndication) -> Seq<SrcPos> {
    refs_in_selected_name(target, si.type_mark)
}

/// The occurrences of `target` in an optional subtype indication.
pub open spec fn refs_in_subtype_opt(target: SrcPos, o: Option<SubtypeIndication>) -> Seq<SrcPos> {
    match o {
        Some(si) => refs_in_subtype(target, si),
        None => Seq::<SrcPos>::empty(),
    }
}

/// The occurrences of `target` in a record's elements.
pub open spec fn refs_in_record_elements(target: SrcPos, l: Seq<ElementDeclaration>) -> Seq<SrcPos>
    decreases l,
{
    if l.len() == 0 {
        Seq::<SrcPos>::empty()
    } else {
        refs_in_subtype(target, l[0].subtype) + refs_in_record_elements(target, l.skip(1))
    }
}

/// The occurrences of `target` in a protected type's items.
pub open spec fn refs_in_protected_items(target: SrcPos, l: Seq<ProtectedTypeDeclarativeItem>) -> Seq<
    SrcPos,
>
    decreases l,
{
    if l.len() == 0 {
        Seq::<SrcPos>::empty()
    } else {
        (match l[0] {
            ProtectedTypeDeclarativeItem::Subprogram(sub) => refs_in_subprogram(target, sub),
        }) + refs_in_protected_items(target, l.skip(1))
    }
}

/// The occurrences of `target` in a type declaration's definition.
pub open spec fn refs_in_type_declaration(target: SrcPos, td: TypeDeclaration) -> Seq<SrcPos>
    decreases td,
{
    match td.def {
        TypeDefinition::ProtectedBody(body) => refs_in_decls(target, body.decl@),
        TypeDefinition::Protected(prot_decl) => refs_in_protected_items(target, prot_decl.items@),
        TypeDefinition::Record(element_decls) => refs_in_record_elements(target, element_decls@),
        TypeDefinition::Access(si) => refs_in_subtype(target, si),
        TypeDefinition::Array(si) => refs_in_subtype(target, si),
        TypeDefinition::Subtype(si) => refs_in_subtype(target, si),
        TypeDefinition::Integer => Seq::<SrcPos>::empty(),
    }
}

/// The occurrences of `target` in a declarative item.
pub open spec fn refs_in_declaration(target: SrcPos, d: Declaration) -> Seq<SrcPos>
    decreases d,
{
    match d {
        Declaration::Object(object) => refs_in_subtype(target, object.subtype_indication),
        Declaration::Type(typ) => refs_in_type_declaration(target, typ),
        Declaration::SubprogramBody(body) => refs_in_subprogram(target, body.specification)
            + refs_in_decls(target, body.declarations@),
        Declaration::SubprogramDeclaration(decl) => refs_in_subprogram(target, decl),
        Declaration::Attribute(attr) => match attr {
            Attribute::Declaration(decl) => refs_in_selected_name(target, decl.type_mark),
            Attribute::Specification => Seq::<SrcPos>::empty(),
        },
        Declaration::Alias(decl) => refs_in_subtype_opt(target, decl.subtype_indication),
        Declaration::Use => Seq::<SrcPos>::empty(),
    }
}

/// The occurrences of `target` in a declarative part.
pub open spec fn refs_in_decls(target: SrcPos, l: Seq<Declaration>) -> Seq<SrcPos>
    decreases l,
{
    if l.len() == 0 {
        Seq::<SrcPos>::empty()
    } else {
        refs_in_declaration(target, l[0]) + refs_in_decls(target, l.skip(1))
    }
}

/// The occurrences of `target` in an interface declaration.
pub open spec fn refs_in_interface_declaration(target: SrcPos, d: InterfaceDeclaration) -> Seq<
    SrcPos,
>
    decreases d,
{
    match d {
        InterfaceDeclaration::Object(decl) => refs_in_subtype(target, decl.subtype_indication),
        InterfaceDeclaration::Subprogram(decl) => refs_in_subprogram(target, decl),
        InterfaceDeclaration::File => Seq::<SrcPos>::empty(),
    }
}

/// The occurrences of `target` in an interface list.
pub open spec fn refs_in_interface_list(target: SrcPos, l: Seq<InterfaceDeclaration>) -> Seq<SrcPos>
    decreases l,
{
    if l.len() == 0 {
        Seq::<SrcPos>::empty()
    } else {
        refs_in_interface_declaration(target, l[0]) + refs_in_interface_list(target, l.skip(1))
    }
}

/// The occurrences of `target` in an optional generic or port clause.
pub open spec fn refs_in_interface_clause(target: SrcPos, o: Option<Vec<InterfaceDeclaration>>) -> Seq<
    SrcPos,
>
    decreases o,
{
    match o {
        Some(list) => refs_in_interface_list(target, list@),
        None => Seq::<SrcPos>::empty(),
    }
}

/// The occurrences of `target` in a procedure specification.
pub open spec fn refs_in_procedure(target: SrcPos, p: ProcedureSpecification) -> Seq<SrcPos>
    decreases p,
{
    refs_in_interface_list(target, p.parameter_list@)
}

/// The occurrences of `target` in a function specification.
pub open spec fn refs_in_function(target: SrcPos, f: FunctionSpecification) -> Seq<SrcPos>
    decreases f,
{
    refs_in_interface_list(target, f.parameter_list@) + refs_in_selected_name(
        target,
        f.return_type,
    )
}

/// The occurrences of `target` in a subprogram declaration.
pub open spec fn refs_in_subprogram(target: SrcPos, d: SubprogramDeclaration) -> Seq<SrcPos>
    decreases d,
{
    match d {
        SubprogramDeclaration::Procedure(decl) => refs_in_procedure(target, decl),
        SubprogramDeclaration::Function(decl) => refs_in_function(target, decl),
    }
}

/// The occurrences of `target` in a generate body.
pub open spec fn refs_in_generate_body(target: SrcPos, b: GenerateBody) -> Seq<SrcPos>
    decreases b,
{
    refs_in_decls(target, b.decl@) + refs_in_concurrent_list(target, b.statements@)
}

/// The occurrences of `target` in an optional generate body.
pub open spec fn refs_in_generate_body_opt(target: SrcPos, o: Option<GenerateBody>) -> Seq<SrcPos>
    decreases o,
{
    match o {
        Some(b) => refs_in_generate_body(target, b),
        None => Seq::<SrcPos>::empty(),
    }
}

/// The occurrences of `target` in the branches of an if-generate.
pub open spec fn refs_in_conditionals(target: SrcPos, l: Seq<Conditional>) -> Seq<SrcPos>
    decreases l,
{
    if l.len() == 0 {
        Seq::<SrcPos>::empty()
    } else {
        refs_in_generate_body(target, l[0].item) + refs_in_conditionals(target, l.skip(1))
    }
}

/// The occurrences of `target` in the alternatives of a case-generate.
pub open spec fn refs_in_alternatives(target: SrcPos, l: Seq<Alternative>) -> Seq<SrcPos>
    decreases l,
{
    if l.len() == 0 {
        Seq::<SrcPos>::empty()
    } else {
        refs_in_generate_body(target, l[0].item) + refs_in_alternatives(target, l.skip(1))
    }
}

/// The occurrences of `target` in a concurrent statement.
pub open spec fn refs_in_concurrent(target: SrcPos, stmt: LabeledConcurrentStatement) -> Seq<SrcPos>
    decreases stmt,
{
    match stmt.statement {
        ConcurrentStatement::Block(block) => refs_in_decls(target, block.decl@)
            + refs_in_concurrent_list(target, block.statements@),
        ConcurrentStatement::Process(process) => refs_in_decls(target, process.decl@),
        ConcurrentStatement::ForGenerate(gen) => refs_in_generate_body(target, gen.body),
        ConcurrentStatement::IfGenerate(gen) => refs_in_conditionals(target, gen.conditionals@)
            + refs_in_generate_body_opt(target, gen.else_item),
        ConcurrentStatement::CaseGenerate(gen) => refs_in_alternatives(target, gen.alternatives@),
        ConcurrentStatement::Instance => Seq::<SrcPos>::empty(),
    }
}

/// The occurrences of `target` in a concurrent statement list.
pub open spec fn refs_in_concurrent_list(target: SrcPos, l: Seq<LabeledConcurrentStatement>) -> Seq<
    SrcPos,
>
    decreases l,
{
    if l.len() == 0 {
        Seq::<SrcPos>::empty()
    } else {
        refs_in_concurrent(target, l[0]) + refs_in_concurrent_list(target, l.skip(1))
    }
}

/// The occurrences of `target` in an entity unit: its own identifier when it
/// is the target's declaration site, then everything in its clauses and
/// contents, in document order.
pub open spec fn refs_in_entity(target: SrcPos, ent: EntityUnit) -> Seq<SrcPos> {
    (if ent.ident.pos == target {
        seq![ent.ident.pos]
    } else {
        Seq::<SrcPos>::empty()
    }) + refs_in_interface_clause(target, ent.generic_clause) + refs_in_interface_clause(
        target,
        ent.port_clause,
    ) + refs_in_decls(target, ent.decl@) + refs_in_concurrent_list(target, ent.statements@)
}

/// The occurrences of `target` in an architecture unit.
pub open spec fn refs_in_architecture(target: SrcPos, unit: ArchitectureUnit) -> Seq<SrcPos> {
    refs_in_decls(target, unit.decl@) + refs_in_concurrent_list(target, unit.statements@)
}

/// The occurrences of `target` in a package unit.
pub open spec fn refs_in_package(target: SrcPos, unit: PackageUnit) -> Seq<SrcPos> {
    refs_in_interface_clause(target, unit.generic_clause) + refs_in_decls(target, unit.decl@)
}

/// The occurrences of `target` in a package body unit.
pub open spec fn refs_in_package_body(target: SrcPos, unit: PackageBodyUnit) -> Seq<SrcPos> {
    refs_in_decls(target, unit.decl@)
}

/// The occurrences of `target` in a package instantiation unit.
pub open spec fn refs_in_package_instance(target: SrcPos, unit: PackageInstanceUnit) -> Seq<SrcPos> {
    refs_in_selected_name(target, unit.package_name)
}

/// The occurrences of `target` in a configuration unit.
pub open spec fn refs_in_configuration(target: SrcPos, unit: ConfigurationUnit) -> Seq<SrcPos> {
    refs_in_selected_name(target, unit.entity_name)
}

/// The state a reference collection reaches after gathering `gained`.
pub open spec fn gathered(v: RefsView, gained: Seq<SrcPos>) -> RefsView {
    RefsView { decl_pos: v.decl_pos, references: v.references + gained }
}

/// Law: searching a name occurrence appends exactly its occurrences of the
/// target and reports nothing.
pub proof fn lemma_refs_designator(name: WithPos<WithRef<Designator>>, v: RefsView)
    ensures
        spec_search_designator::<(), FindAllReferences>(name, v) == (
            gathered(v, refs_in_designator(v.decl_pos, name)),
            SearchResult::<()>::NotFound,
        ),
{
    match name.item.reference {
        Some(reference) => {
            if reference == v.decl_pos {
                assert(v.references + refs_in_designator(v.decl_pos, name) =~= v.references.push(
                    name.pos,
                ));
            } else {
                assert(v.references + refs_in_designator(v.decl_pos, name) =~= v.references);
            }
        },
        None => {
            assert(v.references + refs_in_designator(v.decl_pos, name) =~= v.references);
        },
    }
}

/// Law: searching a possibly selected name appends exactly its occurrences
/// of the target, prefix first, and reports nothing.
pub proof fn lemma_refs_selected_name(name: WithPos<SelectedName>, v: RefsView)
    ensures
        spec_search_selected_name::<(), FindAllReferences>(name, v) == (
            gathered(v, refs_in_selected_name(v.decl_pos, name)),
            SearchResult::<()>::NotFound,
        ),
    decreases name,
{
    match name.item {
        SelectedName::Selected(prefix, designator) => {
            lemma_refs_selected_name(*prefix, v);
            let v1 = gathered(v, refs_in_selected_name(v.decl_pos, *prefix));
            lemma_refs_designator(designator, v1);
            assert(v1.references + refs_in_designator(v.decl_pos, designator) =~= v.references
                + refs_in_selected_name(v.decl_pos, name));
        },
        SelectedName::Designator(designator) => {
            if designator.reference == Some(v.decl_pos) {
                assert(v.references + refs_in_selected_name(v.decl_pos, name) =~= v.references.push(
                    name.pos,
                ));
            } else {
                assert(v.references + refs_in_selected_name(v.decl_pos, name) =~= v.references);
            }
        },
    }
}

/// Law: searching a subtype indication appends exactly its occurrences of
/// the target and reports nothing.
pub proof fn lemma_refs_subtype(si: SubtypeIndication, v: RefsView)
    ensures
        spec_search_subtype_indication::<(), FindAllReferences>(si, v) == (
            gathered(v, refs_in_subtype(v.decl_pos, si)),
            SearchResult::<()>::NotFound,
        ),
{
    lemma_refs_selected_name(si.type_mark, v);
}

/// Law: searching an optional subtype indication appends exactly its
/// occurrences of the target and reports nothing.
pub proof fn lemma_refs_subtype_opt(o: Option<SubtypeIndication>, v: RefsView)
    ensures
        spec_search_subtype_opt::<(), FindAllReferences>(o, v) == (
            gathered(v, refs_in_subtype_opt(v.decl_pos, o)),
            SearchResult::<()>::NotFound,
        ),
{
    match o {
        Some(si) => lemma_refs_subtype(si, v),
        None => {
            assert(v.references + refs_in_subtype_opt(v.decl_pos, o) =~= v.references);
        },
    }
}

/// Law: searching a record's elements appends exactly their occurrences of
/// the target, in order, and reports nothing.
pub proof fn lemma_refs_record_elements(l: Seq<ElementDeclaration>, v: RefsView)
    ensures
        spec_search_record_elements::<(), FindAllReferences>(l, v) == (
            gathered(v, refs_in_record_elements(v.decl_pos, l)),
            SearchResult::<()>::NotFound,
        ),
    decreases l,
{
    if l.len() == 0 {
        assert(v.references + refs_in_record_elements(v.decl_pos, l) =~= v.references);
    } else {
        lemma_refs_subtype(l[0].subtype, v);
        let v1 = gathered(v, refs_in_subtype(v.decl_pos, l[0].subtype));
        lemma_refs_record_elements(l.skip(1), v1);
        assert(v1.references + refs_in_record_elements(v.decl_pos, l.skip(1)) =~= v.references
            + refs_in_record_elements(v.decl_pos, l));
    }
}

/// Law: searching a protected type's items appends exactly their occurrences
/// of the target, in order, and reports nothing.
pub proof fn lemma_refs_protected_items(l: Seq<ProtectedTypeDeclarativeItem>, v: RefsView)
    ensures
        spec_search_protected_items::<(), FindAllReferences>(l, v) == (
            gathered(v, refs_in_protected_items(v.decl_pos, l)),
            SearchResult::<()>::NotFound,
        ),
    decreases l,
{
    if l.len() == 0 {
        assert(v.references + refs_in_protected_items(v.decl_pos, l) =~= v.references);
    } else {
        let gained = match l[0] {
            ProtectedTypeDeclarativeItem::Subprogram(sub) => {
                lemma_refs_subprogram(sub, v);
                refs_in_subprogram(v.decl_pos, sub)
            },
        };
        let v1 = gathered(v, gained);
        lemma_refs_protected_items(l.skip(1), v1);
        assert(v1.references + refs_in_protected_items(v.decl_pos, l.skip(1)) =~= v.references
            + refs_in_protected_items(v.decl_pos, l));
    }
}

/// Law: searching a type declaration appends exactly the occurrences of the
/// target in its definition and reports nothing.
pub proof fn lemma_refs_type_declaration(td: TypeDeclaration, v: RefsView)
    ensures
        spec_search_type_declaration::<(), FindAllReferences>(td, v) == (
            gathered(v, refs_in_type_declaration(v.decl_pos, td)),
            SearchResult::<()>::NotFound,
        ),
    decreases td,
{
    match td.def {
        TypeDefinition::ProtectedBody(body) => lemma_refs_decls(body.decl@, v),
        TypeDefinition::Protected(prot_decl) => lemma_refs_protected_items(prot_decl.items@, v),
        TypeDefinition::Record(element_decls) => lemma_refs_record_elements(element_decls@, v),
        TypeDefinition::Access(si) => lemma_refs_subtype(si, v),
        TypeDefinition::Array(si) => lemma_refs_subtype(si, v),
        TypeDefinition::Subtype(si) => lemma_refs_subtype(si, v),
        TypeDefinition::Integer => {
            assert(v.references + refs_in_type_declaration(v.decl_pos, td) =~= v.references);
        },
    }
}

/// Law: searching a declarative item appends exactly its occurrences of the
/// target and reports nothing.
pub proof fn lemma_refs_declaration(d: Declaration, v: RefsView)
    ensures
        spec_search_declaration::<(), FindAllReferences>(d, v) == (
            gathered(v, refs_in_declaration(v.decl_pos, d)),
            SearchResult::<()>::NotFound,
        ),
    decreases d,
{
    match d {
        Declaration::Object(object) => lemma_refs_subtype(object.subtype_indication, v),
        Declaration::Type(typ) => lemma_refs_type_declaration(typ, v),
        Declaration::SubprogramBody(body) => {
            lemma_refs_subprogram(body.specification, v);
            let v1 = gathered(v, refs_in_subprogram(v.decl_pos, body.specification));
            lemma_refs_decls(body.declarations@, v1);
            assert(v1.references + refs_in_decls(v.decl_pos, body.declarations@) =~= v.references
                + refs_in_declaration(v.decl_pos, d));
        },
        Declaration::SubprogramDeclaration(decl) => lemma_refs_subprogram(decl, v),
        Declaration::Attribute(attr) => match attr {
            Attribute::Declaration(decl) => lemma_refs_selected_name(decl.type_mark, v),
            Attribute::Specification => {
                assert(v.references + refs_in_declaration(v.decl_pos, d) =~= v.references);
            },
        },
        Declaration::Alias(decl) => lemma_refs_subtype_opt(decl.subtype_indication, v),
        Declaration::Use => {
            assert(v.references + refs_in_declaration(v.decl_pos, d) =~= v.references);
        },
    }
}

/// Law: searching a declarative part appends exactly its occurrences of the
/// target, in order, and reports nothing.
pub proof fn lemma_refs_decls(l: Seq<Declaration>, v: RefsView)
    ensures
        spec_search_decls::<(), FindAllReferences>(l, v) == (
            gathered(v, refs_in_decls(v.decl_pos, l)),
            SearchResult::<()>::NotFound,
        ),
    decreases l,
{
    if l.len() == 0 {
        assert(v.references + refs_in_decls(v.decl_pos, l) =~= v.references);
    } else {
        lemma_refs_declaration(l[0], v);
        let v1 = gathered(v, refs_in_declaration(v.decl_pos, l[0]));
        lemma_refs_decls(l.skip(1), v1);
        assert(v1.references + refs_in_decls(v.decl_pos, l.skip(1)) =~= v.references + refs_in_decls(
            v.decl_pos,
            l,
        ));
    }
}

/// Law: searching an interface declaration appends exactly its occurrences
/// of the target and reports nothing.
pub proof fn lemma_refs_interface_declaration(d: InterfaceDeclaration, v: RefsView)
    ensures
        spec_search_interface_declaration::<(), FindAllReferences>(d, v) == (
            gathered(v, refs_in_interface_declaration(v.decl_pos, d)),
            SearchResult::<()>::NotFound,
        ),
    decreases d,
{
    match d {
        InterfaceDeclaration::Object(decl) => lemma_refs_subtype(decl.subtype_indication, v),
        InterfaceDeclaration::Subprogram(decl) => lemma_refs_subprogram(decl, v),
        InterfaceDeclaration::File => {
            assert(v.references + refs_in_interface_declaration(v.decl_pos, d) =~= v.references);
        },
    }
}

/// Law: searching an interface list appends exactly its occurrences of the
/// target, in order, and reports nothing.
pub proof fn lemma_refs_interface_list(l: Seq<InterfaceDeclaration>, v: RefsView)
    ensures
        spec_search_interface_list::<(), FindAllReferences>(l, v) == (
            gathered(v, refs_in_interface_list(v.decl_pos, l)),
            SearchResult::<()>::NotFound,
        ),
    decreases l,
{
    if l.len() == 0 {
        assert(v.references + refs_in_interface_list(v.decl_pos, l) =~= v.references);
    } else {
        lemma_refs_interface_declaration(l[0], v);
        let v1 = gathered(v, refs_in_interface_declaration(v.decl_pos, l[0]));
        lemma_refs_interface_list(l.skip(1), v1);
        assert(v1.references + refs_in_interface_list(v.decl_pos, l.skip(1)) =~= v.references
            + refs_in_interface_list(v.decl_pos, l));
    }
}

/// Law: searching an optional generic or port clause appends exactly its
/// occurrences of the target and reports nothing.
pub proof fn lemma_refs_interface_clause(o: Option<Vec<InterfaceDeclaration>>, v: RefsView)
    ensures
        spec_search_interface_clause::<(), FindAllReferences>(o, v) == (
            gathered(v, refs_in_interface_clause(v.decl_pos, o)),
            SearchResult::<()>::NotFound,
        ),
{
    match o {
        Some(list) => lemma_refs_interface_list(list@, v),
        None => {
            assert(v.references + refs_in_interface_clause(v.decl_pos, o) =~= v.references);
        },
    }
}

/// Law: searching a procedure specification appends exactly its occurrences
/// of the target and reports nothing.
pub proof fn lemma_refs_procedure(p: ProcedureSpecification, v: RefsView)
    ensures
        spec_search_procedure::<(), FindAllReferences>(p, v) == (
            gathered(v, refs_in_procedure(v.decl_pos, p)),
            SearchResult::<()>::NotFound,
        ),
    decreases p,
{
    lemma_refs_interface_list(p.parameter_list@, v);
}

/// Law: searching a function specification appends exactly its occurrences
/// of the target, parameters first, and reports nothing.
pub proof fn lemma_refs_function(f: FunctionSpecification, v: RefsView)
    ensures
        spec_search_function::<(), FindAllReferences>(f, v) == (
            gathered(v, refs_in_function(v.decl_pos, f)),
            SearchResult::<()>::NotFound,
        ),
    decreases f,
{
    lemma_refs_interface_list(f.parameter_list@, v);
    let v1 = gathered(v, refs_in_interface_list(v.decl_pos, f.parameter_list@));
    lemma_refs_selected_name(f.return_type, v1);
    assert(v1.references + refs_in_selected_name(v.decl_pos, f.return_type) =~= v.references
        + refs_in_function(v.decl_pos, f));
}

/// Law: searching a subprogram declaration appends exactly its occurrences
/// of the target and reports nothing.
pub proof fn lemma_refs_subprogram(d: SubprogramDeclaration, v: RefsView)
    ensures
        spec_search_subprogram::<(), FindAllReferences>(d, v) == (
            gathered(v, refs_in_subprogram(v.decl_pos, d)),
            SearchResult::<()>::NotFound,
        ),
    decreases d,
{
    match d {
        SubprogramDeclaration::Procedure(decl) => lemma_refs_procedure(decl, v),
        SubprogramDeclaration::Function(decl) => lemma_refs_function(decl, v),
    }
}

/// Law: a sequential statement list holds no occurrences for the collection;
/// searching it leaves the state unchanged and reports nothing.
pub proof fn lemma_refs_sequential_list(l: Seq<LabeledSequentialStatement>, v: RefsView)
    ensures
        spec_search_sequential_list::<(), FindAllReferences>(l, v) == (
            v,
            SearchResult::<()>::NotFound,
        ),
    decreases l,
{
    if l.len() != 0 {
        lemma_refs_sequential_list(l.skip(1), v);
    }
}

/// Law: searching a generate body appends exactly its occurrences of the
/// target, declarations first, and reports nothing.
pub proof fn lemma_refs_generate_body(b: GenerateBody, v: RefsView)
    ensures
        spec_search_generate_body::<(), FindAllReferences>(b, v) == (
            gathered(v, refs_in_generate_body(v.decl_pos, b)),
            SearchResult::<()>::NotFound,
        ),
    decreases b,
{
    lemma_refs_decls(b.decl@, v);
    let v1 = gathered(v, refs_in_decls(v.decl_pos, b.decl@));
    lemma_refs_concurrent_list(b.statements@, v1);
    assert(v1.references + refs_in_concurrent_list(v.decl_pos, b.statements@) =~= v.references
        + refs_in_generate_body(v.decl_pos, b));
}

/// Law: searching an optional generate body appends exactly its occurrences
/// of the target and reports nothing.
pub proof fn lemma_refs_generate_body_opt(o: Option<GenerateBody>, v: RefsView)
    ensures
        spec_search_generate_body_opt::<(), FindAllReferences>(o, v) == (
            gathered(v, refs_in_generate_body_opt(v.decl_pos, o)),
            SearchResult::<()>::NotFound,
        ),
    decreases o,
{
    match o {
        Some(b) => lemma_refs_generate_body(b, v),
        None => {
            assert(v.references + refs_in_generate_body_opt(v.decl_pos, o) =~= v.references);
        },
    }
}

/// Law: searching the branches of an if-generate appends exactly their
/// occurrences of the target, in order, and reports nothing.
pub proof fn lemma_refs_conditionals(l: Seq<Conditional>, v: RefsView)
    ensures
        spec_search_conditionals::<(), FindAllReferences>(l, v) == (
            gathered(v, refs_in_conditionals(v.decl_pos, l)),
            SearchResult::<()>::NotFound,
        ),
    decreases l,
{
    if l.len() == 0 {
        assert(v.references + refs_in_conditionals(v.decl_pos, l) =~= v.references);
    } else {
        lemma_refs_generate_body(l[0].item, v);
        let v1 = gathered(v, refs_in_generate_body(v.decl_pos, l[0].item));
        lemma_refs_conditionals(l.skip(1), v1);
        assert(v1.references + refs_in_conditionals(v.decl_pos, l.skip(1)) =~= v.references
            + refs_in_conditionals(v.decl_pos, l));
    }
}

/// Law: searching the alternatives of a case-generate appends exactly their
/// occurrences of the target, in order, and reports nothing.
pub proof fn lemma_refs_alternatives(l: Seq<Alternative>, v: RefsView)
    ensures
        spec_search_alternatives::<(), FindAllReferences>(l, v) == (
            gathered(v, refs_in_alternatives(v.decl_pos, l)),
            SearchResult::<()>::NotFound,
        ),
    decreases l,
{
    if l.len() == 0 {
        assert(v.references + refs_in_alternatives(v.decl_pos, l) =~= v.references);
    } else {
        lemma_refs_generate_body(l[0].item, v);
        let v1 = gathered(v, refs_in_generate_body(v.decl_pos, l[0].item));
        lemma_refs_alternatives(l.skip(1), v1);
        assert(v1.references + refs_in_alternatives(v.decl_pos, l.skip(1)) =~= v.references
            + refs_in_alternatives(v.decl_pos, l));
    }
}

/// Law: searching a concurrent statement appends exactly its occurrences of
/// the target and reports nothing.
pub proof fn lemma_refs_concurrent(stmt: LabeledConcurrentStatement, v: RefsView)
    ensures
        spec_search_concurrent::<(), FindAllReferences>(stmt, v) == (
            gathered(v, refs_in_concurrent(v.decl_pos, stmt)),
            SearchResult::<()>::NotFound,
        ),
    decreases stmt,
{
    match stmt.statement {
        ConcurrentStatement::Block(block) => {
            lemma_refs_decls(block.decl@, v);
            let v1 = gathered(v, refs_in_decls(v.decl_pos, block.decl@));
            lemma_refs_concurrent_list(block.statements@, v1);
            assert(v1.references + refs_in_concurrent_list(v.decl_pos, block.statements@)
                =~= v.references + refs_in_concurrent(v.decl_pos, stmt));
        },
        ConcurrentStatement::Process(process) => {
            lemma_refs_decls(process.decl@, v);
            let v1 = gathered(v, refs_in_decls(v.decl_pos, process.decl@));
            lemma_refs_sequential_list(process.statements@, v1);
        },
        ConcurrentStatement::ForGenerate(gen) => lemma_refs_generate_body(gen.body, v),
        ConcurrentStatement::IfGenerate(gen) => {
            lemma_refs_conditionals(gen.conditionals@, v);
            let v1 = gathered(v, refs_in_conditionals(v.decl_pos, gen.conditionals@));
            lemma_refs_generate_body_opt(gen.else_item, v1);
            assert(v1.references + refs_in_generate_body_opt(v.decl_pos, gen.else_item)
                =~= v.references + refs_in_concurrent(v.decl_pos, stmt));
        },
        ConcurrentStatement::CaseGenerate(gen) => lemma_refs_alternatives(gen.alternatives@, v),
        ConcurrentStatement::Instance => {
            assert(v.references + refs_in_concurrent(v.decl_pos, stmt) =~= v.references);
        },
    }
}

/// Law: searching a concurrent statement list appends exactly its
/// occurrences of the target, in order, and reports nothing.
pub proof fn lemma_refs_concurrent_list(l: Seq<LabeledConcurrentStatement>, v: RefsView)
    ensures
        spec_search_concurrent_list::<(), FindAllReferences>(l, v) == (
            gathered(v, refs_in_concurrent_list(v.decl_pos, l)),
            SearchResult::<()>::NotFound,
        ),
    decreases l,
{
    if l.len() == 0 {
        assert(v.references + refs_in_concurrent_list(v.decl_pos, l) =~= v.references);
    } else {
        lemma_refs_concurrent(l[0], v);
        let v1 = gathered(v, refs_in_concurrent(v.decl_pos, l[0]));
        lemma_refs_concurrent_list(l.skip(1), v1);
        assert(v1.references + refs_in_concurrent_list(v.decl_pos, l.skip(1)) =~= v.references
            + refs_in_concurrent_list(v.decl_pos, l));
    }
}

/// Law (completeness): collecting over an entity unit gathers exactly the
/// occurrences of the target in that unit — the declaration site itself when
/// the target is the entity's own, plus every resolved use — in document
/// order, and reports nothing.
pub proof fn lemma_refs_entity(ent: EntityUnit, v: RefsView)
    ensures
        spec_search_entity::<(), FindAllReferences>(ent, v) == (
            gathered(v, refs_in_entity(v.decl_pos, ent)),
            SearchResult::<()>::NotFound,
        ),
{
    let v1 = v.note(ent.ident.pos, ent.ident.pos);
    lemma_refs_interface_clause(ent.generic_clause, v1);
    let v2 = gathered(v1, refs_in_interface_clause(v.decl_pos, ent.generic_clause));
    lemma_refs_interface_clause(ent.port_clause, v2);
    let v3 = gathered(v2, refs_in_interface_clause(v.decl_pos, ent.port_clause));
    lemma_refs_decls(ent.decl@, v3);
    let v4 = gathered(v3, refs_in_decls(v.decl_pos, ent.decl@));
    lemma_refs_concurrent_list(ent.statements@, v4);
    assert(v4.references + refs_in_concurrent_list(v.decl_pos, ent.statements@) =~= v.references
        + refs_in_entity(v.decl_pos, ent));
}

/// Law (completeness): collecting over an architecture unit gathers exactly
/// the occurrences of the target in it, in document order.
pub proof fn lemma_refs_architecture(unit: ArchitectureUnit, v: RefsView)
    ensures
        spec_search_architecture::<(), FindAllReferences>(unit, v) == (
            gathered(v, refs_in_architecture(v.decl_pos, unit)),
            SearchResult::<()>::NotFound,
        ),
{
    lemma_refs_decls(unit.decl@, v);
    let v1 = gathered(v, refs_in_decls(v.decl_pos, unit.decl@));
    lemma_refs_concurrent_list(unit.statements@, v1);
    assert(v1.references + refs_in_concurrent_list(v.decl_pos, unit.statements@) =~= v.references
        + refs_in_architecture(v.decl_pos, unit));
}

/// Law (completeness): collecting over a package unit gathers exactly the
/// occurrences of the target in it, in document order.
pub proof fn lemma_refs_package(unit: PackageUnit, v: RefsView)
    ensures
        spec_search_package::<(), FindAllReferences>(unit, v) == (
            gathered(v, refs_in_package(v.decl_pos, unit)),
            SearchResult::<()>::NotFound,
        ),
{
    lemma_refs_interface_clause(unit.generic_clause, v);
    let v1 = gathered(v, refs_in_interface_clause(v.decl_pos, unit.generic_clause));
    lemma_refs_decls(unit.decl@, v1);
    assert(v1.references + refs_in_decls(v.decl_pos, unit.decl@) =~= v.references + refs_in_package(
        v.decl_pos,
        unit,
    ));
}

/// Law (completeness): collecting over a package body unit gathers exactly
/// the occurrences of the target in it, in document order.
pub proof fn lemma_refs_package_body(unit: PackageBodyUnit, v: RefsView)
    ensures
        spec_search_package_body::<(), FindAllReferences>(unit, v) == (
            gathered(v, refs_in_package_body(v.decl_pos, unit)),
            SearchResult::<()>::NotFound,
        ),
{
    lemma_refs_decls(unit.decl@, v);
}

/// Law (completeness): collecting over a package instantiation unit gathers
/// exactly the occurrences of the target in its package name.
pub proof fn lemma_refs_package_instance(unit: PackageInstanceUnit, v: RefsView)
    ensures
        spec_search_package_instance::<(), FindAllReferences>(unit, v) == (
            gathered(v, refs_in_package_instance(v.decl_pos, unit)),
            SearchResult::<()>::NotFound,
        ),
{
    lemma_refs_selected_name(unit.package_name, v);
}

/// Law (completeness): collecting over a configuration unit gathers exactly
/// the occurrences of the target in its entity name.
pub proof fn lemma_refs_configuration(unit: ConfigurationUnit, v: RefsView)
    ensures
        spec_search_configuration::<(), FindAllReferences>(unit, v) == (
            gathered(v, refs_in_configuration(v.decl_pos, unit)),
            SearchResult::<()>::NotFound,
        ),
{
    lemma_refs_selected_name(unit.entity_name, v);
}

/// Law (completeness, from a fresh collection): starting empty, collecting
/// over an entity unit gathers exactly the occurrences of the target in that
/// unit, in document order.
pub proof fn lemma_collection_is_exact(ent: EntityUnit, target: SrcPos)
    ensures
        spec_search_entity::<(), FindAllReferences>(
            ent,
            RefsView { decl_pos: target, references: Seq::<SrcPos>::empty() },
        ).0.references == refs_in_entity(target, ent),
{
    let v = RefsView { decl_pos: target, references: Seq::<SrcPos>::empty() };
    lemma_refs_entity(ent, v);
    assert(Seq::<SrcPos>::empty() + refs_in_entity(target, ent) =~= refs_in_entity(target, ent));
}

} // verus!
