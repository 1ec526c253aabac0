use vhdl_search::ast::AliasDeclaration;
use vhdl_search::ast::ArchitectureUnit;
use vhdl_search::ast::BlockStatement;
use vhdl_search::ast::ConcurrentStatement;
use vhdl_search::ast::ConfigurationUnit;
use vhdl_search::ast::Conditional;
use vhdl_search::ast::Declaration;
use vhdl_search::ast::Designator;
use vhdl_search::ast::EntityUnit;
use vhdl_search::ast::GenerateBody;
use vhdl_search::ast::Ident;
use vhdl_search::ast::IfGenerateStatement;
use vhdl_search::ast::InterfaceDeclaration;
use vhdl_search::ast::InterfaceObjectDeclaration;
use vhdl_search::ast::LabeledConcurrentStatement;
use vhdl_search::ast::LabeledSequentialStatement;
use vhdl_search::ast::ObjectDeclaration;
use vhdl_search::ast::Position;
use vhdl_search::ast::ProcessStatement;
use vhdl_search::ast::Range;
use vhdl_search::ast::SelectedName;
use vhdl_search::ast::Source;
use vhdl_search::ast::SrcPos;
use vhdl_search::ast::SubtypeIndication;
use vhdl_search::ast::TypeDeclaration;
use vhdl_search::ast::TypeDefinition;
use vhdl_search::ast::WithPos;
use vhdl_search::ast::WithRef;
use vhdl_search::cursor::ItemAtCursor;
use vhdl_search::refs::FindAllReferences;
use vhdl_search::search::Search;
use vhdl_search::search::SearchResult;

fn pos(off: u64) -> Position {
    Position { off }
}

fn span(source_id: u64, start: u64, end: u64) -> SrcPos {
    SrcPos { source: Source { id: source_id }, range: Range { start: pos(start), end: pos(end) } }
}

fn ident(name: u64, at: SrcPos) -> Ident {
    Ident { name, pos: at }
}

fn name_use(name: u64, at: SrcPos, reference: Option<SrcPos>) -> WithPos<WithRef<Designator>> {
    WithPos { item: WithRef { item: Designator { name }, reference }, pos: at }
}

fn type_mark(name: u64, at: SrcPos, reference: Option<SrcPos>) -> WithPos<SelectedName> {
    WithPos {
        item: SelectedName::Designator(WithRef { item: Designator { name }, reference }),
        pos: at,
    }
}

fn subtype(name: u64, at: SrcPos, reference: Option<SrcPos>) -> SubtypeIndication {
    SubtypeIndication { type_mark: type_mark(name, at, reference) }
}

fn object_decl(name: u64, at: SrcPos, mark: SubtypeIndication) -> Declaration {
    Declaration::Object(ObjectDeclaration { ident: ident(name, at), subtype_indication: mark })
}

fn concurrent(statement: ConcurrentStatement) -> LabeledConcurrentStatement {
    LabeledConcurrentStatement { label: None, statement }
}

fn empty_entity(source_id: u64, name: u64, at: SrcPos) -> EntityUnit {
    EntityUnit {
        source: Source { id: source_id },
        ident: ident(name, at),
        generic_clause: None,
        port_clause: None,
        decl: vec![],
        statements: vec![],
    }
}

#[test]
fn containment_boundaries() {
    let at = ItemAtCursor::new(&Source { id: 1 }, pos(10));
    assert!(at.is_inside(&span(1, 10, 14)));
    assert!(at.is_inside(&span(1, 6, 10)));
    assert!(at.is_inside(&span(1, 8, 12)));
    assert!(!at.is_inside(&span(1, 11, 14)));
    assert!(!at.is_inside(&span(1, 6, 9)));
}

#[test]
fn cursor_on_entity_name_finds_entity() {
    let decl_site = span(1, 7, 10);
    let ent = empty_entity(1, 100, decl_site);
    let mut at = ItemAtCursor::new(&Source { id: 1 }, pos(8));
    assert_eq!(ent.search(&mut at), SearchResult::Found(decl_site));
}

#[test]
fn cursor_on_type_name_finds_type() {
    let decl_site = span(1, 20, 25);
    let td = TypeDeclaration { ident: ident(7, decl_site), def: TypeDefinition::Integer };
    let mut at = ItemAtCursor::new(&Source { id: 1 }, pos(25));
    assert_eq!(td.search(&mut at), SearchResult::Found(decl_site));
}

#[test]
fn cursor_on_use_follows_reference() {
    let decl_site = span(1, 3, 5);
    let use_site = span(1, 40, 43);
    let name = name_use(9, use_site, Some(decl_site));
    let mut at = ItemAtCursor::new(&Source { id: 1 }, pos(41));
    assert_eq!(name.search(&mut at), SearchResult::Found(decl_site));
}

#[test]
fn cursor_on_unresolved_use_finds_nothing() {
    let use_site = span(1, 40, 43);
    let name = name_use(9, use_site, None);
    let mut at = ItemAtCursor::new(&Source { id: 1 }, pos(41));
    assert_eq!(name.search(&mut at), SearchResult::NotFound);
}

#[test]
fn cursor_outside_everything_not_found() {
    let decl_site = span(1, 7, 10);
    let type_site = span(1, 20, 25);
    let use_site = span(1, 40, 43);
    let mut ent = empty_entity(1, 100, decl_site);
    ent.decl = vec![
        Declaration::Type(TypeDeclaration {
            ident: ident(7, type_site),
            def: TypeDefinition::Integer,
        }),
        object_decl(8, span(1, 30, 33), subtype(9, use_site, Some(decl_site))),
    ];
    let mut at = ItemAtCursor::new(&Source { id: 1 }, pos(90));
    assert_eq!(ent.search(&mut at), SearchResult::NotFound);
}

#[test]
fn pruned_type_definition_is_not_visited() {
    // The nested name contains the cursor and resolves somewhere, but the
    // type declaration's own identifier span does not contain the cursor, so
    // the subtree is abandoned before the name is ever offered a hook.
    let inner = subtype(9, span(1, 50, 60), Some(span(1, 3, 5)));
    let td = TypeDeclaration {
        ident: ident(7, span(1, 20, 25)),
        def: TypeDefinition::Subtype(inner),
    };
    let mut at = ItemAtCursor::new(&Source { id: 1 }, pos(55));
    assert_eq!(td.search(&mut at), SearchResult::NotFound);
}

#[test]
fn foreign_source_unit_is_skipped() {
    let decl_site = span(2, 7, 10);
    let ent = empty_entity(2, 100, decl_site);
    let mut at = ItemAtCursor::new(&Source { id: 1 }, pos(8));
    assert_eq!(ent.search(&mut at), SearchResult::NotFound);
}

#[test]
fn empty_lists_and_absent_clauses_find_nothing() {
    let ent = empty_entity(1, 100, span(1, 7, 10));
    let mut at = ItemAtCursor::new(&Source { id: 1 }, pos(50));
    assert_eq!(ent.search(&mut at), SearchResult::NotFound);

    let arch = ArchitectureUnit {
        source: Source { id: 1 },
        ident: ident(2, span(1, 60, 64)),
        decl: vec![],
        statements: vec![],
    };
    assert_eq!(arch.search(&mut at), SearchResult::NotFound);
}

#[test]
fn alias_without_subtype_finds_nothing() {
    let alias = Declaration::Alias(AliasDeclaration {
        designator: ident(3, span(1, 70, 72)),
        subtype_indication: None,
    });
    let mut at = ItemAtCursor::new(&Source { id: 1 }, pos(75));
    assert_eq!(alias.search(&mut at), SearchResult::NotFound);
}

#[test]
fn first_match_wins_across_declarations() {
    let target_a = span(1, 1, 2);
    let use_a = span(1, 30, 34);
    let ent_site = span(1, 7, 10);
    let mut ent = empty_entity(1, 100, ent_site);
    ent.decl = vec![
        object_decl(8, span(1, 20, 23), subtype(9, use_a, Some(target_a))),
        object_decl(10, span(1, 40, 43), subtype(11, span(1, 45, 48), Some(span(1, 4, 5)))),
    ];
    let mut at = ItemAtCursor::new(&Source { id: 1 }, pos(32));
    assert_eq!(ent.search(&mut at), SearchResult::Found(target_a));
}

#[test]
fn collects_declaration_and_all_references_in_order() {
    let decl_site = span(1, 7, 10);
    let use_in_decl = span(1, 30, 33);
    let use_in_block = span(1, 50, 53);
    let use_in_generate = span(1, 70, 73);
    let other_target = span(1, 4, 5);

    let mut ent = empty_entity(1, 100, decl_site);
    ent.decl = vec![
        object_decl(8, span(1, 25, 28), subtype(9, use_in_decl, Some(decl_site))),
        object_decl(10, span(1, 35, 38), subtype(11, span(1, 40, 43), Some(other_target))),
    ];
    ent.statements = vec![
        concurrent(ConcurrentStatement::Block(BlockStatement {
            decl: vec![object_decl(12, span(1, 45, 48), subtype(9, use_in_block, Some(decl_site)))],
            statements: vec![],
        })),
        concurrent(ConcurrentStatement::IfGenerate(IfGenerateStatement {
            conditionals: vec![Conditional {
                item: GenerateBody {
                    decl: vec![object_decl(
                        13,
                        span(1, 60, 63),
                        subtype(9, use_in_generate, Some(decl_site)),
                    )],
                    statements: vec![],
                },
            }],
            else_item: None,
        })),
    ];

    let refs = FindAllReferences::new(&decl_site).search(&ent);
    assert_eq!(refs, vec![decl_site, use_in_decl, use_in_block, use_in_generate]);
}

#[test]
fn unrelated_references_are_ignored() {
    let decl_site = span(1, 7, 10);
    let mut ent = empty_entity(1, 100, span(1, 1, 3));
    ent.decl = vec![object_decl(8, span(1, 25, 28), subtype(9, span(1, 30, 33), Some(decl_site)))];
    let refs = FindAllReferences::new(&span(1, 90, 95)).search(&ent);
    assert_eq!(refs, Vec::<SrcPos>::new());
}

#[test]
fn end_to_end_entity_scenario() {
    let source = Source { id: 1 };
    let entity_site = span(1, 7, 12);
    let generic_site = span(1, 20, 21);
    let port_site = span(1, 30, 31);
    let type_site = span(1, 2, 5);
    let generic_use = span(1, 60, 61);

    let ent = EntityUnit {
        source,
        ident: ident(100, entity_site),
        generic_clause: Some(vec![InterfaceDeclaration::Object(InterfaceObjectDeclaration {
            ident: ident(1, generic_site),
            subtype_indication: subtype(50, span(1, 23, 29), Some(type_site)),
        })]),
        port_clause: Some(vec![InterfaceDeclaration::Object(InterfaceObjectDeclaration {
            ident: ident(2, port_site),
            subtype_indication: subtype(50, span(1, 33, 39), Some(type_site)),
        })]),
        decl: vec![],
        statements: vec![],
    };

    let arch = ArchitectureUnit {
        source,
        ident: ident(101, span(1, 45, 48)),
        decl: vec![object_decl(3, span(1, 52, 55), subtype(1, generic_use, Some(generic_site)))],
        statements: vec![concurrent(ConcurrentStatement::Process(ProcessStatement {
            decl: vec![],
            statements: vec![LabeledSequentialStatement { label: None }],
        }))],
    };

    // The cursor on the entity's own name reports the entity's site.
    let mut at_entity = ItemAtCursor::new(&source, pos(9));
    assert_eq!(ent.search(&mut at_entity), SearchResult::Found(entity_site));

    // The cursor on a use of the generic reports the generic's site.
    let mut at_use = ItemAtCursor::new(&source, pos(60));
    assert_eq!(arch.search(&mut at_use), SearchResult::Found(generic_site));

    // Collecting the generic's occurrences over the architecture yields the
    // use; the generic's own interface declaration site is not an entity
    // site, so only uses are collected.
    let refs = FindAllReferences::new(&generic_site).search(&arch);
    assert_eq!(refs, vec![generic_use]);
}

#[test]
fn selected_name_searches_prefix_then_suffix() {
    let prefix_target = span(1, 1, 2);
    let suffix_target = span(1, 3, 5);
    let prefix_site = span(1, 10, 13);
    let suffix_site = span(1, 14, 17);
    let cfg = ConfigurationUnit {
        source: Source { id: 1 },
        ident: ident(20, span(1, 6, 8)),
        entity_name: WithPos {
            item: SelectedName::Selected(
                Box::new(WithPos {
                    item: SelectedName::Designator(WithRef {
                        item: Designator { name: 1 },
                        reference: Some(prefix_target),
                    }),
                    pos: prefix_site,
                }),
                WithPos {
                    item: WithRef { item: Designator { name: 2 }, reference: Some(suffix_target) },
                    pos: suffix_site,
                },
            ),
            pos: span(1, 10, 17),
        },
    };

    let mut at_prefix = ItemAtCursor::new(&Source { id: 1 }, pos(11));
    assert_eq!(cfg.search(&mut at_prefix), SearchResult::Found(prefix_target));

    let mut at_suffix = ItemAtCursor::new(&Source { id: 1 }, pos(15));
    assert_eq!(cfg.search(&mut at_suffix), SearchResult::Found(suffix_target));

    let refs = FindAllReferences::new(&suffix_target).search(&cfg);
    assert_eq!(refs, vec![suffix_site]);
}
