//! The traversal rules: one rule per node kind, each stated twice.
//!
//! The `spec_search_*` functions are the rules themselves, mathematical
//! functions from a node and a searcher state to the state after the walk and
//! the outcome.  The `Search` implementations and the list helpers are their
//! executable form; each is proved to return exactly what its rule says, for
//! every searcher.  A rule consults the node's hook first and descends into
//! the children, in declared order, only while nothing has finished; the
//! first `Found` wins and an exhausted node is `NotFound`.

use vstd::prelude::*;

use crate::ast::Alternative;
use crate::ast::ArchitectureUnit;
use crate::ast::Attribute;
use crate::ast::ConcurrentStatement;
use crate::ast::Conditional;
use crate::ast::ConfigurationUnit;
use crate::ast::Declaration;
use crate::ast::Designator;
use crate::ast::ElementDeclaration;
use crate::ast::EntityUnit;
use crate::ast::FunctionSpecification;
use crate::ast::GenerateBody;
use crate::ast::InterfaceDeclaration;
use crate::ast::LabeledConcurrentStatement;
use crate::ast::LabeledSequentialStatement;
use crate::ast::PackageBodyUnit;
use crate::ast::PackageInstanceUnit;
use crate::ast::PackageUnit;
use crate::ast::ProcedureSpecification;
use crate::ast::ProtectedTypeDeclarativeItem;
use crate::ast::SelectedName;
use crate::ast::SubprogramDeclaration;
use crate::ast::SubtypeIndication;
use crate::ast::TypeDeclaration;
use crate::ast::TypeDefinition;
use crate::ast::WithPos;
use crate::ast::WithRef;
use crate::search::Search;
use crate::search::SearchResult;
use crate::search::SearchState;
use crate::search::Searcher;

verus! {

// ---------------------------------------------------------------------------
// The rules, as spec functions.
// ---------------------------------------------------------------------------

/// Rule for a name occurrence: the bare span hook first, then the
/// designator-reference hook; either may finish the subtree.
pub open spec fn spec_search_designator<T, S: Searcher<T>>(
    name: WithPos<WithRef<Designator>>,
    s: S::V,
) -> (S::V, SearchResult<T>) {
    let (s1, h1) = S::on_with_pos(s, name.pos);
    if h1 is Finished {
        (s1, h1->0)
    } else {
        let (s2, h2) = S::on_designator_ref(s1, name.pos, name.item);
        (s2, h2.spec_or_not_found())
    }
}

/// Rule for a possibly selected name: a `prefix.suffix` chain is searched
/// prefix first, then the trailing designator; a plain designator offers only
/// the designator-reference hook.
pub open spec fn spec_search_selected_name<T, S: Searcher<T>>(
    name: WithPos<SelectedName>,
    s: S::V,
) -> (S::V, SearchResult<T>)
    decreases name,
{
    match name.item {
        SelectedName::Selected(prefix, designator) => {
            let (s1, r1) = spec_search_selected_name::<T, S>(*prefix, s);
            if r1 is Found {
                (s1, r1)
            } else {
                spec_search_designator::<T, S>(designator, s1)
            }
        },
        SelectedName::Designator(designator) => {
            let (s1, h1) = S::on_designator_ref(s, name.pos, designator);
            (s1, h1.spec_or_not_found())
        },
    }
}

/// Rule for a subtype indication: its hook, then the type mark.
pub open spec fn spec_search_subtype_indication<T, S: Searcher<T>>(
    si: SubtypeIndication,
    s: S::V,
) -> (S::V, SearchResult<T>) {
    let (s1, h1) = S::on_subtype_indication(s, si);
    if h1 is Finished {
        (s1, h1->0)
    } else {
        spec_search_selected_name::<T, S>(si.type_mark, s1)
    }
}

/// Rule for an optional subtype indication: vacuously `NotFound` when absent.
pub open spec fn spec_search_subtype_opt<T, S: Searcher<T>>(
    o: Option<SubtypeIndication>,
    s: S::V,
) -> (S::V, SearchResult<T>) {
    match o {
        Some(si) => spec_search_subtype_indication::<T, S>(si, s),
        None => (s, SearchResult::NotFound),
    }
}

/// Rule for a record's element list: each element's subtype in order.
pub open spec fn spec_search_record_elements<T, S: Searcher<T>>(
    l: Seq<ElementDeclaration>,
    s: S::V,
) -> (S::V, SearchResult<T>)
    decreases l,
{
    if l.len() == 0 {
        (s, SearchResult::NotFound)
    } else {
        let (s1, r1) = spec_search_subtype_indication::<T, S>(l[0].subtype, s);
        if r1 is Found {
            (s1, r1)
        } else {
            spec_search_record_elements::<T, S>(l.skip(1), s1)
        }
    }
}

/// Rule for a protected type's items: each subprogram in order.
pub open spec fn spec_search_protected_items<T, S: Searcher<T>>(
    l: Seq<ProtectedTypeDeclarativeItem>,
    s: S::V,
) -> (S::V, SearchResult<T>)
    decreases l,
{
    if l.len() == 0 {
        (s, SearchResult::NotFound)
    } else {
        let (s1, r1) = match l[0] {
            ProtectedTypeDeclarativeItem::Subprogram(sub) => spec_search_subprogram::<T, S>(sub, s),
        };
        if r1 is Found {
            (s1, r1)
        } else {
            spec_search_protected_items::<T, S>(l.skip(1), s1)
        }
    }
}

/// Rule for a type declaration: its hook, then the children of its
/// definition variant; scalar definitions have no children.
pub open spec fn spec_search_type_declaration<T, S: Searcher<T>>(
    td: TypeDeclaration,
    s: S::V,
) -> (S::V, SearchResult<T>)
    decreases td,
{
    let (s1, h1) = S::on_type_declaration(s, td);
    if h1 is Finished {
        (s1, h1->0)
    } else {
        match td.def {
            TypeDefinition::ProtectedBody(body) => spec_search_decls::<T, S>(body.decl@, s1),
            TypeDefinition::Protected(prot_decl) => spec_search_protected_items::<T, S>(
                prot_decl.items@,
                s1,
            ),
            TypeDefinition::Record(element_decls) => spec_search_record_elements::<T, S>(
                element_decls@,
                s1,
            ),
            TypeDefinition::Access(si) => spec_search_subtype_indication::<T, S>(si, s1),
            TypeDefinition::Array(si) => spec_search_subtype_indication::<T, S>(si, s1),
            TypeDefinition::Subtype(si) => spec_search_subtype_indication::<T, S>(si, s1),
            TypeDefinition::Integer => (s1, SearchResult::NotFound),
        }
    }
}

/// Rule for a declarative item: its hook, then the children of its variant.
pub open spec fn spec_search_declaration<T, S: Searcher<T>>(d: Declaration, s: S::V) -> (
    S::V,
    SearchResult<T>,
)
    decreases d,
{
    let (s1, h1) = S::on_declaration(s, d);
    if h1 is Finished {
        (s1, h1->0)
    } else {
        match d {
            Declaration::Object(object) => spec_search_subtype_indication::<T, S>(
                object.subtype_indication,
                s1,
            ),
            Declaration::Type(typ) => spec_search_type_declaration::<T, S>(typ, s1),
            Declaration::SubprogramBody(body) => {
                let (s2, r2) = spec_search_subprogram::<T, S>(body.specification, s1);
                if r2 is Found {
                    (s2, r2)
                } else {
                    spec_search_decls::<T, S>(body.declarations@, s2)
                }
            },
            Declaration::SubprogramDeclaration(decl) => spec_search_subprogram::<T, S>(decl, s1),
            Declaration::Attribute(attr) => {
                match attr {
                    Attribute::Declaration(decl) => spec_search_selected_name::<T, S>(decl.type_mark, s1),
                    Attribute::Specification => (s1, SearchResult::NotFound),
                }
            },
            Declaration::Alias(decl) => spec_search_subtype_opt::<T, S>(decl.subtype_indication, s1),
            Declaration::Use => (s1, SearchResult::NotFound),
        }
    }
}

/// Rule for a declarative part: each item in order.
pub open spec fn spec_search_decls<T, S: Searcher<T>>(l: Seq<Declaration>, s: S::V) -> (
    S::V,
    SearchResult<T>,
)
    decreases l,
{
    if l.len() == 0 {
        (s, SearchResult::NotFound)
    } else {
        let (s1, r1) = spec_search_declaration::<T, S>(l[0], s);
        if r1 is Found {
            (s1, r1)
        } else {
            spec_search_decls::<T, S>(l.skip(1), s1)
        }
    }
}

/// Rule for an interface declaration: its hook, then the object's subtype or
/// the subprogram's specification.
pub open spec fn spec_search_interface_declaration<T, S: Searcher<T>>(
    d: InterfaceDeclaration,
    s: S::V,
) -> (S::V, SearchResult<T>)
    decreases d,
{
    let (s1, h1) = S::on_interface_declaration(s, d);
    if h1 is Finished {
        (s1, h1->0)
    } else {
        match d {
            InterfaceDeclaration::Object(decl) => spec_search_subtype_indication::<T, S>(
                decl.subtype_indication,
                s1,
            ),
            InterfaceDeclaration::Subprogram(decl) => spec_search_subprogram::<T, S>(decl, s1),
            InterfaceDeclaration::File => (s1, SearchResult::NotFound),
        }
    }
}

/// Rule for a generic, port or parameter list: each declaration in order.
pub open spec fn spec_search_interface_list<T, S: Searcher<T>>(
    l: Seq<InterfaceDeclaration>,
    s: S::V,
) -> (S::V, SearchResult<T>)
    decreases l,
{
    if l.len() == 0 {
        (s, SearchResult::NotFound)
    } else {
        let (s1, r1) = spec_search_interface_declaration::<T, S>(l[0], s);
        if r1 is Found {
            (s1, r1)
        } else {
            spec_search_interface_list::<T, S>(l.skip(1), s1)
        }
    }
}

/// Rule for an optional generic or port clause: vacuously `NotFound` when
/// the clause is absent.
pub open spec fn spec_search_interface_clause<T, S: Searcher<T>>(
    o: Option<Vec<InterfaceDeclaration>>,
    s: S::V,
) -> (S::V, SearchResult<T>)
    decreases o,
{
    match o {
        Some(list) => spec_search_interface_list::<T, S>(list@, s),
        None => (s, SearchResult::NotFound),
    }
}

/// Rule for a procedure specification: its parameter list.
pub open spec fn spec_search_procedure<T, S: Searcher<T>>(p: ProcedureSpecification, s: S::V) -> (
    S::V,
    SearchResult<T>,
)
    decreases p,
{
    spec_search_interface_list::<T, S>(p.parameter_list@, s)
}

/// Rule for a function specification: its parameter list, then its return
/// type name.
pub open spec fn spec_search_function<T, S: Searcher<T>>(f: FunctionSpecification, s: S::V) -> (
    S::V,
    SearchResult<T>,
)
    decreases f,
{
    let (s1, r1) = spec_search_interface_list::<T, S>(f.parameter_list@, s);
    if r1 is Found {
        (s1, r1)
    } else {
        spec_search_selected_name::<T, S>(f.return_type, s1)
    }
}

/// Rule for a subprogram declaration: the specification of its variant.
pub open spec fn spec_search_subprogram<T, S: Searcher<T>>(d: SubprogramDeclaration, s: S::V) -> (
    S::V,
    SearchResult<T>,
)
    decreases d,
{
    match d {
        SubprogramDeclaration::Procedure(decl) => spec_search_procedure::<T, S>(decl, s),
        SubprogramDeclaration::Function(decl) => spec_search_function::<T, S>(decl, s),
    }
}

/// Rule for a sequential statement: its hook only; the statement's own
/// children are outside the scope of this engine.
pub open spec fn spec_search_sequential<T, S: Searcher<T>>(
    stmt: LabeledSequentialStatement,
    s: S::V,
) -> (S::V, SearchResult<T>) {
    let (s1, h1) = S::on_sequential_statement(s, stmt);
    (s1, h1.spec_or_not_found())
}

/// Rule for a sequential statement list: each statement in order.
pub open spec fn spec_search_sequential_list<T, S: Searcher<T>>(
    l: Seq<LabeledSequentialStatement>,
    s: S::V,
) -> (S::V, SearchResult<T>)
    decreases l,
{
    if l.len() == 0 {
        (s, SearchResult::NotFound)
    } else {
        let (s1, r1) = spec_search_sequential::<T, S>(l[0], s);
        if r1 is Found {
            (s1, r1)
        } else {
            spec_search_sequential_list::<T, S>(l.skip(1), s1)
        }
    }
}

/// Rule for a generate body: declarations, then statements.
pub open spec fn spec_search_generate_body<T, S: Searcher<T>>(b: GenerateBody, s: S::V) -> (
    S::V,
    SearchResult<T>,
)
    decreases b,
{
    let (s1, r1) = spec_search_decls::<T, S>(b.decl@, s);
    if r1 is Found {
        (s1, r1)
    } else {
        spec_search_concurrent_list::<T, S>(b.statements@, s1)
    }
}

/// Rule for an optional generate body: vacuously `NotFound` when absent.
pub open spec fn spec_search_generate_body_opt<T, S: Searcher<T>>(
    o: Option<GenerateBody>,
    s: S::V,
) -> (S::V, SearchResult<T>)
    decreases o,
{
    match o {
        Some(b) => spec_search_generate_body::<T, S>(b, s),
        None => (s, SearchResult::NotFound),
    }
}

/// Rule for the conditional branches of an if-generate: each branch's body
/// in source order.
pub open spec fn spec_search_conditionals<T, S: Searcher<T>>(l: Seq<Conditional>, s: S::V) -> (
    S::V,
    SearchResult<T>,
)
    decreases l,
{
    if l.len() == 0 {
        (s, SearchResult::NotFound)
    } else {
        let (s1, r1) = spec_search_generate_body::<T, S>(l[0].item, s);
        if r1 is Found {
            (s1, r1)
        } else {
            spec_search_conditionals::<T, S>(l.skip(1), s1)
        }
    }
}

/// Rule for the alternatives of a case-generate: each body in order.
pub open spec fn spec_search_alternatives<T, S: Searcher<T>>(l: Seq<Alternative>, s: S::V) -> (
    S::V,
    SearchResult<T>,
)
    decreases l,
{
    if l.len() == 0 {
        (s, SearchResult::NotFound)
    } else {
        let (s1, r1) = spec_search_generate_body::<T, S>(l[0].item, s);
        if r1 is Found {
            (s1, r1)
        } else {
            spec_search_alternatives::<T, S>(l.skip(1), s1)
        }
    }
}

/// Rule for a concurrent statement: its hook, then the children of its
/// variant; instantiations are not descended into.
pub open spec fn spec_search_concurrent<T, S: Searcher<T>>(
    stmt: LabeledConcurrentStatement,
    s: S::V,
) -> (S::V, SearchResult<T>)
    decreases stmt,
{
    let (s1, h1) = S::on_concurrent_statement(s, stmt);
    if h1 is Finished {
        (s1, h1->0)
    } else {
        match stmt.statement {
            ConcurrentStatement::Block(block) => {
                let (s2, r2) = spec_search_decls::<T, S>(block.decl@, s1);
                if r2 is Found {
                    (s2, r2)
                } else {
                    spec_search_concurrent_list::<T, S>(block.statements@, s2)
                }
            },
            ConcurrentStatement::Process(process) => {
                let (s2, r2) = spec_search_decls::<T, S>(process.decl@, s1);
                if r2 is Found {
                    (s2, r2)
                } else {
                    spec_search_sequential_list::<T, S>(process.statements@, s2)
                }
            },
            ConcurrentStatement::ForGenerate(gen) => spec_search_generate_body::<T, S>(gen.body, s1),
            ConcurrentStatement::IfGenerate(gen) => {
                let (s2, r2) = spec_search_conditionals::<T, S>(gen.conditionals@, s1);
                if r2 is Found {
                    (s2, r2)
                } else {
                    spec_search_generate_body_opt::<T, S>(gen.else_item, s2)
                }
            },
            ConcurrentStatement::CaseGenerate(gen) => spec_search_alternatives::<T, S>(
                gen.alternatives@,
                s1,
            ),
            ConcurrentStatement::Instance => (s1, SearchResult::NotFound),
        }
    }
}

/// Rule for a concurrent statement list: each statement in order.
pub open spec fn spec_search_concurrent_list<T, S: Searcher<T>>(
    l: Seq<LabeledConcurrentStatement>,
    s: S::V,
) -> (S::V, SearchResult<T>)
    decreases l,
{
    if l.len() == 0 {
        (s, SearchResult::NotFound)
    } else {
        let (s1, r1) = spec_search_concurrent::<T, S>(l[0], s);
        if r1 is Found {
            (s1, r1)
        } else {
            spec_search_concurrent_list::<T, S>(l.skip(1), s1)
        }
    }
}

/// Rule for an entity unit: its source identity, the entity hook, then
/// generics, ports, declarations and statements.
pub open spec fn spec_search_entity<T, S: Searcher<T>>(ent: EntityUnit, s: S::V) -> (
    S::V,
    SearchResult<T>,
) {
    let (s1, h1) = S::on_source(s, ent.source);
    if h1 is Finished {
        (s1, h1->0)
    } else {
        let (s2, h2) = S::on_entity(s1, ent);
        if h2 is Finished {
            (s2, h2->0)
        } else {
            let (s3, r3) = spec_search_interface_clause::<T, S>(ent.generic_clause, s2);
            if r3 is Found {
                (s3, r3)
            } else {
                let (s4, r4) = spec_search_interface_clause::<T, S>(ent.port_clause, s3);
                if r4 is Found {
                    (s4, r4)
                } else {
                    let (s5, r5) = spec_search_decls::<T, S>(ent.decl@, s4);
                    if r5 is Found {
                        (s5, r5)
                    } else {
                        spec_search_concurrent_list::<T, S>(ent.statements@, s5)
                    }
                }
            }
        }
    }
}

/// Rule for an architecture unit: its source identity, then declarations and
/// statements.
pub open spec fn spec_search_architecture<T, S: Searcher<T>>(unit: ArchitectureUnit, s: S::V) -> (
    S::V,
    SearchResult<T>,
) {
    let (s1, h1) = S::on_source(s, unit.source);
    if h1 is Finished {
        (s1, h1->0)
    } else {
        let (s2, r2) = spec_search_decls::<T, S>(unit.decl@, s1);
        if r2 is Found {
            (s2, r2)
        } else {
            spec_search_concurrent_list::<T, S>(unit.statements@, s2)
        }
    }
}

/// Rule for a package unit: its source identity, then generics and
/// declarations.
pub open spec fn spec_search_package<T, S: Searcher<T>>(unit: PackageUnit, s: S::V) -> (
    S::V,
    SearchResult<T>,
) {
    let (s1, h1) = S::on_source(s, unit.source);
    if h1 is Finished {
        (s1, h1->0)
    } else {
        let (s2, r2) = spec_search_interface_clause::<T, S>(unit.generic_clause, s1);
        if r2 is Found {
            (s2, r2)
        } else {
            spec_search_decls::<T, S>(unit.decl@, s2)
        }
    }
}

/// Rule for a package body unit: its source identity, then declarations.
pub open spec fn spec_search_package_body<T, S: Searcher<T>>(unit: PackageBodyUnit, s: S::V) -> (
    S::V,
    SearchResult<T>,
) {
    let (s1, h1) = S::on_source(s, unit.source);
    if h1 is Finished {
        (s1, h1->0)
    } else {
        spec_search_decls::<T, S>(unit.decl@, s1)
    }
}

/// Rule for a package instantiation unit: its source identity, then the
/// instantiated package's name.
pub open spec fn spec_search_package_instance<T, S: Searcher<T>>(
    unit: PackageInstanceUnit,
    s: S::V,
) -> (S::V, SearchResult<T>) {
    let (s1, h1) = S::on_source(s, unit.source);
    if h1 is Finished {
        (s1, h1->0)
    } else {
        spec_search_selected_name::<T, S>(unit.package_name, s1)
    }
}

/// Rule for a configuration unit: its source identity, then the configured
/// entity's name.
pub open spec fn spec_search_configuration<T, S: Searcher<T>>(unit: ConfigurationUnit, s: S::V) -> (
    S::V,
    SearchResult<T>,
) {
    let (s1, h1) = S::on_source(s, unit.source);
    if h1 is Finished {
        (s1, h1->0)
    } else {
        spec_search_selected_name::<T, S>(unit.entity_name, s1)
    }
}

// ---------------------------------------------------------------------------
// List helpers: one executable walk per list kind.
// ---------------------------------------------------------------------------

/// Search a declarative part in order, first `Found` wins.
pub fn search_decls<T, S: Searcher<T>>(l: &Vec<Declaration>, searcher: &mut S) -> (r: SearchResult<T>)
    ensures
        (final(searcher)@, r) == spec_search_decls::<T, S>(l@, old(searcher)@),
    decreases l@,
{
    let n = l.len();
    proof {
        assert(l@.skip(0) =~= l@);
    }
    for i in 0..n
        invariant
            n == l@.len(),
            spec_search_decls::<T, S>(l@, old(searcher)@) == spec_search_decls::<T, S>(
                l@.skip(i as int),
                (*searcher)@,
            ),
        decreases n - i,
    {
        let r = l[i].search(searcher);
        proof {
            assert(l@.skip(i as int)[0] == l@[i as int]);
        }
        match r {
            SearchResult::Found(value) => {
                return SearchResult::Found(value);
            },
            SearchResult::NotFound => {
                proof {
                    assert(l@.skip(i as int).skip(1) =~= l@.skip(i + 1));
                }
            },
        }
    }
    proof {
        assert(l@.skip(n as int).len() == 0);
    }
    SearchResult::NotFound
}

/// Search a generic, port or parameter list in order.
pub fn search_interface_list<T, S: Searcher<T>>(l: &Vec<InterfaceDeclaration>, searcher: &mut S) -> (r: SearchResult<T>)
    ensures
        (final(searcher)@, r) == spec_search_interface_list::<T, S>(l@, old(searcher)@),
    decreases l@,
{
    let n = l.len();
    proof {
        assert(l@.skip(0) =~= l@);
    }
    for i in 0..n
        invariant
            n == l@.len(),
            spec_search_interface_list::<T, S>(l@, old(searcher)@) == spec_search_interface_list::<
                T,
                S,
            >(l@.skip(i as int), (*searcher)@),
        decreases n - i,
    {
        let r = l[i].search(searcher);
        proof {
            assert(l@.skip(i as int)[0] == l@[i as int]);
        }
        match r {
            SearchResult::Found(value) => {
                return SearchResult::Found(value);
            },
            SearchResult::NotFound => {
                proof {
                    assert(l@.skip(i as int).skip(1) =~= l@.skip(i + 1));
                }
            },
        }
    }
    proof {
        assert(l@.skip(n as int).len() == 0);
    }
    SearchResult::NotFound
}

/// Search an optional generic or port clause.
pub fn search_interface_clause<T, S: Searcher<T>>(
    clause: &Option<Vec<InterfaceDeclaration>>,
    searcher: &mut S,
) -> (r: SearchResult<T>)
    ensures
        (final(searcher)@, r) == spec_search_interface_clause::<T, S>(*clause, old(searcher)@),
    decreases *clause,
{
    match clause {
        Some(list) => search_interface_list(list, searcher),
        None => SearchResult::NotFound,
    }
}

/// Search a record's elements in order, each through its subtype.
pub fn search_record_elements<T, S: Searcher<T>>(
    l: &Vec<ElementDeclaration>,
    searcher: &mut S,
) -> (r: SearchResult<T>)
    ensures
        (final(searcher)@, r) == spec_search_record_elements::<T, S>(l@, old(searcher)@),
    decreases l@,
{
    let n = l.len();
    proof {
        assert(l@.skip(0) =~= l@);
    }
    for i in 0..n
        invariant
            n == l@.len(),
            spec_search_record_elements::<T, S>(l@, old(searcher)@)
                == spec_search_record_elements::<T, S>(l@.skip(i as int), (*searcher)@),
        decreases n - i,
    {
        let r = l[i].subtype.search(searcher);
        proof {
            assert(l@.skip(i as int)[0] == l@[i as int]);
        }
        match r {
            SearchResult::Found(value) => {
                return SearchResult::Found(value);
            },
            SearchResult::NotFound => {
                proof {
                    assert(l@.skip(i as int).skip(1) =~= l@.skip(i + 1));
                }
            },
        }
    }
    proof {
        assert(l@.skip(n as int).len() == 0);
    }
    SearchResult::NotFound
}

/// Search a protected type's items in order.
pub fn search_protected_items<T, S: Searcher<T>>(
    l: &Vec<ProtectedTypeDeclarativeItem>,
    searcher: &mut S,
) -> (r: SearchResult<T>)
    ensures
        (final(searcher)@, r) == spec_search_protected_items::<T, S>(l@, old(searcher)@),
    decreases l@,
{
    let n = l.len();
    proof {
        assert(l@.skip(0) =~= l@);
    }
    for i in 0..n
        invariant
            n == l@.len(),
            spec_search_protected_items::<T, S>(l@, old(searcher)@)
                == spec_search_protected_items::<T, S>(l@.skip(i as int), (*searcher)@),
        decreases n - i,
    {
        let item = &l[i];
        let r = match item {
            ProtectedTypeDeclarativeItem::Subprogram(sub) => sub.search(searcher),
        };
        proof {
            assert(l@.skip(i as int)[0] == l@[i as int]);
        }
        match r {
            SearchResult::Found(value) => {
                return SearchResult::Found(value);
            },
            SearchResult::NotFound => {
                proof {
                    assert(l@.skip(i as int).skip(1) =~= l@.skip(i + 1));
                }
            },
        }
    }
    proof {
        assert(l@.skip(n as int).len() == 0);
    }
    SearchResult::NotFound
}

/// Search a sequential statement list in order.
pub fn search_sequential_list<T, S: Searcher<T>>(
    l: &Vec<LabeledSequentialStatement>,
    searcher: &mut S,
) -> (r: SearchResult<T>)
    ensures
        (final(searcher)@, r) == spec_search_sequential_list::<T, S>(l@, old(searcher)@),
    decreases l@,
{
    let n = l.len();
    proof {
        assert(l@.skip(0) =~= l@);
    }
    for i in 0..n
        invariant
            n == l@.len(),
            spec_search_sequential_list::<T, S>(l@, old(searcher)@)
                == spec_search_sequential_list::<T, S>(l@.skip(i as int), (*searcher)@),
        decreases n - i,
    {
        let r = l[i].search(searcher);
        proof {
            assert(l@.skip(i as int)[0] == l@[i as int]);
        }
        match r {
            SearchResult::Found(value) => {
                return SearchResult::Found(value);
            },
            SearchResult::NotFound => {
                proof {
                    assert(l@.skip(i as int).skip(1) =~= l@.skip(i + 1));
                }
            },
        }
    }
    proof {
        assert(l@.skip(n as int).len() == 0);
    }
    SearchResult::NotFound
}

/// Search the conditional branches of an if-generate in order.
pub fn search_conditionals<T, S: Searcher<T>>(l: &Vec<Conditional>, searcher: &mut S) -> (r: SearchResult<T>)
    ensures
        (final(searcher)@, r) == spec_search_conditionals::<T, S>(l@, old(searcher)@),
    decreases l@,
{
    let n = l.len();
    proof {
        assert(l@.skip(0) =~= l@);
    }
    for i in 0..n
        invariant
            n == l@.len(),
            spec_search_conditionals::<T, S>(l@, old(searcher)@) == spec_search_conditionals::<
                T,
                S,
            >(l@.skip(i as int), (*searcher)@),
        decreases n - i,
    {
        let r = l[i].item.search(searcher);
        proof {
            assert(l@.skip(i as int)[0] == l@[i as int]);
        }
        match r {
            SearchResult::Found(value) => {
                return SearchResult::Found(value);
            },
            SearchResult::NotFound => {
                proof {
                    assert(l@.skip(i as int).skip(1) =~= l@.skip(i + 1));
                }
            },
        }
    }
    proof {
        assert(l@.skip(n as int).len() == 0);
    }
    SearchResult::NotFound
}

/// Search the alternatives of a case-generate in order.
pub fn search_alternatives<T, S: Searcher<T>>(l: &Vec<Alternative>, searcher: &mut S) -> (r: SearchResult<T>)
    ensures
        (final(searcher)@, r) == spec_search_alternatives::<T, S>(l@, old(searcher)@),
    decreases l@,
{
    let n = l.len();
    proof {
        assert(l@.skip(0) =~= l@);
    }
    for i in 0..n
        invariant
            n == l@.len(),
            spec_search_alternatives::<T, S>(l@, old(searcher)@) == spec_search_alternatives::<
                T,
                S,
            >(l@.skip(i as int), (*searcher)@),
        decreases n - i,
    {
        let r = l[i].item.search(searcher);
        proof {
            assert(l@.skip(i as int)[0] == l@[i as int]);
        }
        match r {
            SearchResult::Found(value) => {
                return SearchResult::Found(value);
            },
            SearchResult::NotFound => {
                proof {
                    assert(l@.skip(i as int).skip(1) =~= l@.skip(i + 1));
                }
            },
        }
    }
    proof {
        assert(l@.skip(n as int).len() == 0);
    }
    SearchResult::NotFound
}

/// Search a concurrent statement list in order.
pub fn search_concurrent_list<T, S: Searcher<T>>(
    l: &Vec<LabeledConcurrentStatement>,
    searcher: &mut S,
) -> (r: SearchResult<T>)
    ensures
        (final(searcher)@, r) == spec_search_concurrent_list::<T, S>(l@, old(searcher)@),
    decreases l@,
{
    let n = l.len();
    proof {
        assert(l@.skip(0) =~= l@);
    }
    for i in 0..n
        invariant
            n == l@.len(),
            spec_search_concurrent_list::<T, S>(l@, old(searcher)@)
                == spec_search_concurrent_list::<T, S>(l@.skip(i as int), (*searcher)@),
        decreases n - i,
    {
        let r = l[i].search(searcher);
        proof {
            assert(l@.skip(i as int)[0] == l@[i as int]);
        }
        match r {
            SearchResult::Found(value) => {
                return SearchResult::Found(value);
            },
            SearchResult::NotFound => {
                proof {
                    assert(l@.skip(i as int).skip(1) =~= l@.skip(i + 1));
                }
            },
        }
    }
    proof {
        assert(l@.skip(n as int).len() == 0);
    }
    SearchResult::NotFound
}

// ---------------------------------------------------------------------------
// The executable traversal, one `Search` implementation per node kind.
// ---------------------------------------------------------------------------

impl<T, S: Searcher<T>> Search<T, S> for WithPos<WithRef<Designator>> {
    open spec fn spec_search(&self, searcher: S::V) -> (S::V, SearchResult<T>) {
        spec_search_designator::<T, S>(*self, searcher)
    }

    fn search(&self, searcher: &mut S) -> (r: SearchResult<T>) {
        match searcher.search_with_pos(&self.pos) {
            SearchState::Finished(result) => result,
            SearchState::NotFinished => searcher.search_designator_ref(
                &self.pos,
                &self.item,
            ).or_not_found(),
        }
    }
}

impl<T, S: Searcher<T>> Search<T, S> for WithPos<SelectedName> {
    open spec fn spec_search(&self, searcher: S::V) -> (S::V, SearchResult<T>) {
        spec_search_selected_name::<T, S>(*self, searcher)
    }

    fn search(&self, searcher: &mut S) -> (r: SearchResult<T>)
        decreases *self,
    {
        match &self.item {
            SelectedName::Selected(prefix, designator) => {
                match prefix.search(searcher) {
                    SearchResult::Found(value) => SearchResult::Found(value),
                    SearchResult::NotFound => designator.search(searcher),
                }
            },
            SelectedName::Designator(designator) => {
                searcher.search_designator_ref(&self.pos, designator).or_not_found()
            },
        }
    }
}

impl<T, S: Searcher<T>> Search<T, S> for SubtypeIndication {
    open spec fn spec_search(&self, searcher: S::V) -> (S::V, SearchResult<T>) {
        spec_search_subtype_indication::<T, S>(*self, searcher)
    }

    fn search(&self, searcher: &mut S) -> (r: SearchResult<T>) {
        match searcher.search_subtype_indication(self) {
            SearchState::Finished(result) => result,
            SearchState::NotFinished => self.type_mark.search(searcher),
        }
    }
}

impl<T, S: Searcher<T>> Search<T, S> for TypeDeclaration {
    open spec fn spec_search(&self, searcher: S::V) -> (S::V, SearchResult<T>) {
        spec_search_type_declaration::<T, S>(*self, searcher)
    }

    fn search(&self, searcher: &mut S) -> (r: SearchResult<T>)
        decreases *self,
    {
        match searcher.search_type_declaration(self) {
            SearchState::Finished(result) => result,
            SearchState::NotFinished => {
                match &self.def {
                    TypeDefinition::ProtectedBody(body) => search_decls(&body.decl, searcher),
                    TypeDefinition::Protected(prot_decl) => search_protected_items(
                        &prot_decl.items,
                        searcher,
                    ),
                    TypeDefinition::Record(element_decls) => search_record_elements(
                        element_decls,
                        searcher,
                    ),
                    TypeDefinition::Access(si) => si.search(searcher),
                    TypeDefinition::Array(si) => si.search(searcher),
                    TypeDefinition::Subtype(si) => si.search(searcher),
                    TypeDefinition::Integer => SearchResult::NotFound,
                }
            },
        }
    }
}

impl<T, S: Searcher<T>> Search<T, S> for Declaration {
    open spec fn spec_search(&self, searcher: S::V) -> (S::V, SearchResult<T>) {
        spec_search_declaration::<T, S>(*self, searcher)
    }

    fn search(&self, searcher: &mut S) -> (r: SearchResult<T>)
        decreases *self,
    {
        match searcher.search_declaration(self) {
            SearchState::Finished(result) => result,
            SearchState::NotFinished => {
                match self {
                    Declaration::Object(object) => object.subtype_indication.search(searcher),
                    Declaration::Type(typ) => typ.search(searcher),
                    Declaration::SubprogramBody(body) => {
                        match body.specification.search(searcher) {
                            SearchResult::Found(value) => SearchResult::Found(value),
                            SearchResult::NotFound => search_decls(&body.declarations, searcher),
                        }
                    },
                    Declaration::SubprogramDeclaration(decl) => decl.search(searcher),
                    Declaration::Attribute(attr) => {
                        match attr {
                            Attribute::Declaration(decl) => decl.type_mark.search(searcher),
                            Attribute::Specification => SearchResult::NotFound,
                        }
                    },
                    Declaration::Alias(decl) => {
                        match &decl.subtype_indication {
                            Some(si) => si.search(searcher),
                            None => SearchResult::NotFound,
                        }
                    },
                    Declaration::Use => SearchResult::NotFound,
                }
            },
        }
    }
}

impl<T, S: Searcher<T>> Search<T, S> for InterfaceDeclaration {
    open spec fn spec_search(&self, searcher: S::V) -> (S::V, SearchResult<T>) {
        spec_search_interface_declaration::<T, S>(*self, searcher)
    }

    fn search(&self, searcher: &mut S) -> (r: SearchResult<T>)
        decreases *self,
    {
        match searcher.search_interface_declaration(self) {
            SearchState::Finished(result) => result,
            SearchState::NotFinished => {
                match self {
                    InterfaceDeclaration::Object(decl) => decl.subtype_indication.search(searcher),
                    InterfaceDeclaration::Subprogram(decl) => decl.search(searcher),
                    InterfaceDeclaration::File => SearchResult::NotFound,
                }
            },
        }
    }
}

impl<T, S: Searcher<T>> Search<T, S> for SubprogramDeclaration {
    open spec fn spec_search(&self, searcher: S::V) -> (S::V, SearchResult<T>) {
        spec_search_subprogram::<T, S>(*self, searcher)
    }

    fn search(&self, searcher: &mut S) -> (r: SearchResult<T>)
        decreases *self,
    {
        match self {
            SubprogramDeclaration::Procedure(decl) => decl.search(searcher),
            SubprogramDeclaration::Function(decl) => decl.search(searcher),
        }
    }
}

impl<T, S: Searcher<T>> Search<T, S> for ProcedureSpecification {
    open spec fn spec_search(&self, searcher: S::V) -> (S::V, SearchResult<T>) {
        spec_search_procedure::<T, S>(*self, searcher)
    }

    fn search(&self, searcher: &mut S) -> (r: SearchResult<T>)
        decreases *self,
    {
        search_interface_list(&self.parameter_list, searcher)
    }
}

impl<T, S: Searcher<T>> Search<T, S> for FunctionSpecification {
    open spec fn spec_search(&self, searcher: S::V) -> (S::V, SearchResult<T>) {
        spec_search_function::<T, S>(*self, searcher)
    }

    fn search(&self, searcher: &mut S) -> (r: SearchResult<T>)
        decreases *self,
    {
        match search_interface_list(&self.parameter_list, searcher) {
            SearchResult::Found(value) => SearchResult::Found(value),
            SearchResult::NotFound => self.return_type.search(searcher),
        }
    }
}

impl<T, S: Searcher<T>> Search<T, S> for LabeledSequentialStatement {
    open spec fn spec_search(&self, searcher: S::V) -> (S::V, SearchResult<T>) {
        spec_search_sequential::<T, S>(*self, searcher)
    }

    fn search(&self, searcher: &mut S) -> (r: SearchResult<T>) {
        searcher.search_labeled_sequential_statement(self).or_not_found()
    }
}

impl<T, S: Searcher<T>> Search<T, S> for GenerateBody {
    open spec fn spec_search(&self, searcher: S::V) -> (S::V, SearchResult<T>) {
        spec_search_generate_body::<T, S>(*self, searcher)
    }

    fn search(&self, searcher: &mut S) -> (r: SearchResult<T>)
        decreases *self,
    {
        match search_decls(&self.decl, searcher) {
            SearchResult::Found(value) => SearchResult::Found(value),
            SearchResult::NotFound => search_concurrent_list(&self.statements, searcher),
        }
    }
}

impl<T, S: Searcher<T>> Search<T, S> for LabeledConcurrentStatement {
    open spec fn spec_search(&self, searcher: S::V) -> (S::V, SearchResult<T>) {
        spec_search_concurrent::<T, S>(*self, searcher)
    }

    fn search(&self, searcher: &mut S) -> (r: SearchResult<T>)
        decreases *self,
    {
        match searcher.search_labeled_concurrent_statement(self) {
            SearchState::Finished(result) => result,
            SearchState::NotFinished => {
                match &self.statement {
                    ConcurrentStatement::Block(block) => {
                        match search_decls(&block.decl, searcher) {
                            SearchResult::Found(value) => SearchResult::Found(value),
                            SearchResult::NotFound => search_concurrent_list(
                                &block.statements,
                                searcher,
                            ),
                        }
                    },
                    ConcurrentStatement::Process(process) => {
                        match search_decls(&process.decl, searcher) {
                            SearchResult::Found(value) => SearchResult::Found(value),
                            SearchResult::NotFound => search_sequential_list(
                                &process.statements,
                                searcher,
                            ),
                        }
                    },
                    ConcurrentStatement::ForGenerate(gen) => gen.body.search(searcher),
                    ConcurrentStatement::IfGenerate(gen) => {
                        match search_conditionals(&gen.conditionals, searcher) {
                            SearchResult::Found(value) => SearchResult::Found(value),
                            SearchResult::NotFound => {
                                match &gen.else_item {
                                    Some(body) => body.search(searcher),
                                    None => SearchResult::NotFound,
                                }
                            },
                        }
                    },
                    ConcurrentStatement::CaseGenerate(gen) => search_alternatives(
                        &gen.alternatives,
                        searcher,
                    ),
                    ConcurrentStatement::Instance => SearchResult::NotFound,
                }
            },
        }
    }
}

impl<T, S: Searcher<T>> Search<T, S> for EntityUnit {
    open spec fn spec_search(&self, searcher: S::V) -> (S::V, SearchResult<T>) {
        spec_search_entity::<T, S>(*self, searcher)
    }

    fn search(&self, searcher: &mut S) -> (r: SearchResult<T>) {
        match searcher.search_source(&self.source) {
            SearchState::Finished(result) => result,
            SearchState::NotFinished => {
                match searcher.search_entity(self) {
                    SearchState::Finished(result) => result,
                    SearchState::NotFinished => {
                        match search_interface_clause(&self.generic_clause, searcher) {
                            SearchResult::Found(value) => SearchResult::Found(value),
                            SearchResult::NotFound => {
                                match search_interface_clause(&self.port_clause, searcher) {
                                    SearchResult::Found(value) => SearchResult::Found(value),
                                    SearchResult::NotFound => {
                                        match search_decls(&self.decl, searcher) {
                                            SearchResult::Found(value) => SearchResult::Found(
                                                value,
                                            ),
                                            SearchResult::NotFound => search_concurrent_list(
                                                &self.statements,
                                                searcher,
                                            ),
                                        }
                                    },
                                }
                            },
                        }
                    },
                }
            },
        }
    }
}

impl<T, S: Searcher<T>> Search<T, S> for ArchitectureUnit {
    open spec fn spec_search(&self, searcher: S::V) -> (S::V, SearchResult<T>) {
        spec_search_architecture::<T, S>(*self, searcher)
    }

    fn search(&self, searcher: &mut S) -> (r: SearchResult<T>) {
        match searcher.search_source(&self.source) {
            SearchState::Finished(result) => result,
            SearchState::NotFinished => {
                match search_decls(&self.decl, searcher) {
                    SearchResult::Found(value) => SearchResult::Found(value),
                    SearchResult::NotFound => search_concurrent_list(&self.statements, searcher),
                }
            },
        }
    }
}

impl<T, S: Searcher<T>> Search<T, S> for PackageUnit {
    open spec fn spec_search(&self, searcher: S::V) -> (S::V, SearchResult<T>) {
        spec_search_package::<T, S>(*self, searcher)
    }

    fn search(&self, searcher: &mut S) -> (r: SearchResult<T>) {
        match searcher.search_source(&self.source) {
            SearchState::Finished(result) => result,
            SearchState::NotFinished => {
                match search_interface_clause(&self.generic_clause, searcher) {
                    SearchResult::Found(value) => SearchResult::Found(value),
                    SearchResult::NotFound => search_decls(&self.decl, searcher),
                }
            },
        }
    }
}

impl<T, S: Searcher<T>> Search<T, S> for PackageBodyUnit {
    open spec fn spec_search(&self, searcher: S::V) -> (S::V, SearchResult<T>) {
        spec_search_package_body::<T, S>(*self, searcher)
    }

    fn search(&self, searcher: &mut S) -> (r: SearchResult<T>) {
        match searcher.search_source(&self.source) {
            SearchState::Finished(result) => result,
            SearchState::NotFinished => search_decls(&self.decl, searcher),
        }
    }
}

impl<T, S: Searcher<T>> Search<T, S> for PackageInstanceUnit {
    open spec fn spec_search(&self, searcher: S::V) -> (S::V, SearchResult<T>) {
        spec_search_package_instance::<T, S>(*self, searcher)
    }

    fn search(&self, searcher: &mut S) -> (r: SearchResult<T>) {
        match searcher.search_source(&self.source) {
            SearchState::Finished(result) => result,
            SearchState::NotFinished => self.package_name.search(searcher),
        }
    }
}

impl<T, S: Searcher<T>> Search<T, S> for ConfigurationUnit {
    open spec fn spec_search(&self, searcher: S::V) -> (S::V, SearchResult<T>) {
        spec_search_configuration::<T, S>(*self, searcher)
    }

    fn search(&self, searcher: &mut S) -> (r: SearchResult<T>) {
        match searcher.search_source(&self.source) {
            SearchState::Finished(result) => result,
            SearchState::NotFinished => self.entity_name.search(searcher),
        }
    }
}

/// Law (vacuity): searching an empty declarative part decides nothing and
/// leaves any searcher unchanged.
pub proof fn lemma_search_empty_decls<T, S: Searcher<T>>(s: S::V)
    ensures
        spec_search_decls::<T, S>(Seq::<Declaration>::empty(), s) == (
            s,
            SearchResult::<T>::NotFound,
        ),
{
}

/// Law (vacuity): searching an empty statement list decides nothing and
/// leaves any searcher unchanged.
pub proof fn lemma_search_empty_statements<T, S: Searcher<T>>(s: S::V)
    ensures
        spec_search_concurrent_list::<T, S>(Seq::<LabeledConcurrentStatement>::empty(), s) == (
            s,
            SearchResult::<T>::NotFound,
        ),
{
}

/// Law (vacuity): searching an absent generic or port clause decides nothing
/// and leaves any searcher unchanged.
pub proof fn lemma_search_absent_clause<T, S: Searcher<T>>(s: S::V)
    ensures
        spec_search_interface_clause::<T, S>(None, s) == (s, SearchResult::<T>::NotFound),
{
}

} // verus!
