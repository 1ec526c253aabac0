use vhdl_search::ast::BlockStatement;
use vhdl_search::ast::ConcurrentStatement;
use vhdl_search::ast::Declaration;
use vhdl_search::ast::Designator;
use vhdl_search::ast::EntityUnit;
use vhdl_search::ast::Ident;
use vhdl_search::ast::InterfaceDeclaration;
use vhdl_search::ast::LabeledConcurrentStatement;
use vhdl_search::ast::LabeledSequentialStatement;
use vhdl_search::ast::ObjectDeclaration;
use vhdl_search::ast::Position;
use vhdl_search::ast::Range;
use vhdl_search::ast::SelectedName;
use vhdl_search::ast::Source;
use vhdl_search::ast::SrcPos;
use vhdl_search::ast::SubtypeIndication;
use vhdl_search::ast::TypeDeclaration;
use vhdl_search::ast::WithPos;
use vhdl_search::ast::WithRef;
use vhdl_search::search::Search;
use vhdl_search::search::SearchResult;
use vhdl_search::search::SearchState;
use vhdl_search::search::Searcher;
use vstd::prelude::View;

/// A searcher that counts every hook invocation, pruning at concurrent
/// statements when asked; it observes which parts of the tree the traversal
/// actually visits.
struct CountingSearcher {
    prune_concurrent: bool,
    concurrent_calls: u64,
    declaration_calls: u64,
    with_pos_calls: u64,
    designator_calls: u64,
    subtype_calls: u64,
}

impl CountingSearcher {
    fn new(prune_concurrent: bool) -> CountingSearcher {
        CountingSearcher {
            prune_concurrent,
            concurrent_calls: 0,
            declaration_calls: 0,
            with_pos_calls: 0,
            designator_calls: 0,
            subtype_calls: 0,
        }
    }
}

impl View for CountingSearcher {
    type V = ();

    fn view(&self) -> () {
        ()
    }
}

impl Searcher<u64> for CountingSearcher {
    // The model functions of the interface carry no behaviour in a compiled
    // test; nothing ever calls them here.
    fn on_concurrent_statement(_: (), _: LabeledConcurrentStatement) -> ((), SearchState<u64>) {
        ((), SearchState::NotFinished)
    }

    fn on_sequential_statement(_: (), _: LabeledSequentialStatement) -> ((), SearchState<u64>) {
        ((), SearchState::NotFinished)
    }

    fn on_declaration(_: (), _: Declaration) -> ((), SearchState<u64>) {
        ((), SearchState::NotFinished)
    }

    fn on_type_declaration(_: (), _: TypeDeclaration) -> ((), SearchState<u64>) {
        ((), SearchState::NotFinished)
    }

    fn on_interface_declaration(_: (), _: InterfaceDeclaration) -> ((), SearchState<u64>) {
        ((), SearchState::NotFinished)
    }

    fn on_subtype_indication(_: (), _: SubtypeIndication) -> ((), SearchState<u64>) {
        ((), SearchState::NotFinished)
    }

    fn on_entity(_: (), _: EntityUnit) -> ((), SearchState<u64>) {
        ((), SearchState::NotFinished)
    }

    fn on_designator_ref(_: (), _: SrcPos, _: WithRef<Designator>) -> ((), SearchState<u64>) {
        ((), SearchState::NotFinished)
    }

    fn on_with_pos(_: (), _: SrcPos) -> ((), SearchState<u64>) {
        ((), SearchState::NotFinished)
    }

    fn on_source(_: (), _: Source) -> ((), SearchState<u64>) {
        ((), SearchState::NotFinished)
    }

    fn search_labeled_concurrent_statement(
        &mut self,
        _stmt: &LabeledConcurrentStatement,
    ) -> SearchState<u64> {
        self.concurrent_calls += 1;
        if self.prune_concurrent {
            SearchState::Finished(SearchResult::NotFound)
        } else {
            SearchState::NotFinished
        }
    }

    fn search_labeled_sequential_statement(
        &mut self,
        _stmt: &LabeledSequentialStatement,
    ) -> SearchState<u64> {
        SearchState::NotFinished
    }

    fn search_declaration(&mut self, _decl: &Declaration) -> SearchState<u64> {
        self.declaration_calls += 1;
        SearchState::NotFinished
    }

    fn search_type_declaration(&mut self, _decl: &TypeDeclaration) -> SearchState<u64> {
        SearchState::NotFinished
    }

    fn search_interface_declaration(&mut self, _decl: &InterfaceDeclaration) -> SearchState<u64> {
        SearchState::NotFinished
    }

    fn search_subtype_indication(&mut self, _decl: &SubtypeIndication) -> SearchState<u64> {
        self.subtype_calls += 1;
        SearchState::NotFinished
    }

    fn search_entity(&mut self, _ent: &EntityUnit) -> SearchState<u64> {
        SearchState::NotFinished
    }

    fn search_designator_ref(
        &mut self,
        _pos: &SrcPos,
        _designator: &WithRef<Designator>,
    ) -> SearchState<u64> {
        self.designator_calls += 1;
        SearchState::NotFinished
    }

    fn search_with_pos(&mut self, _pos: &SrcPos) -> SearchState<u64> {
        self.with_pos_calls += 1;
        SearchState::NotFinished
    }

    fn search_source(&mut self, _source: &Source) -> SearchState<u64> {
        SearchState::NotFinished
    }
}

fn span(start: u64, end: u64) -> SrcPos {
    SrcPos {
        source: Source { id: 1 },
        range: Range { start: Position { off: start }, end: Position { off: end } },
    }
}

fn block_with_one_object() -> LabeledConcurrentStatement {
    LabeledConcurrentStatement {
        label: None,
        statement: ConcurrentStatement::Block(BlockStatement {
            decl: vec![Declaration::Object(ObjectDeclaration {
                ident: Ident { name: 8, pos: span(20, 23) },
                subtype_indication: SubtypeIndication {
                    type_mark: WithPos {
                        item: SelectedName::Designator(WithRef {
                            item: Designator { name: 9 },
                            reference: Some(span(3, 5)),
                        }),
                        pos: span(30, 33),
                    },
                },
            })],
            statements: vec![],
        }),
    }
}

#[test]
fn finished_subtree_invokes_no_inner_hooks() {
    let stmt = block_with_one_object();
    let mut counting = CountingSearcher::new(true);
    assert!(matches!(stmt.search(&mut counting), SearchResult::NotFound));
    assert_eq!(counting.concurrent_calls, 1);
    assert_eq!(counting.declaration_calls, 0);
    assert_eq!(counting.subtype_calls, 0);
    assert_eq!(counting.with_pos_calls, 0);
    assert_eq!(counting.designator_calls, 0);
}

#[test]
fn undecided_subtree_visits_every_child() {
    let stmt = block_with_one_object();
    let mut counting = CountingSearcher::new(false);
    assert!(matches!(stmt.search(&mut counting), SearchResult::NotFound));
    assert_eq!(counting.concurrent_calls, 1);
    assert_eq!(counting.declaration_calls, 1);
    assert_eq!(counting.subtype_calls, 1);
    assert_eq!(counting.designator_calls, 1);
}
