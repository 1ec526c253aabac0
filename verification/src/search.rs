//! The control-flow algebra of a search and the two capability interfaces
//! built on it: `Searcher`, the set of hooks a query overrides, and `Search`,
//! the ability of a tree node to run a searcher over itself.

use vstd::prelude::*;

use crate::ast::Designator;
use crate::ast::EntityUnit;
use crate::ast::InterfaceDeclaration;
use crate::ast::LabeledConcurrentStatement;
use crate::ast::LabeledSequentialStatement;
use crate::ast::Source;
use crate::ast::SrcPos;
use crate::ast::SubtypeIndication;
use crate::ast::TypeDeclaration;
use crate::ast::Declaration;
use crate::ast::WithRef;

verus! {

/// The terminal outcome of a search: a value was found, or the whole walk
/// ended without one.  Once produced it travels up the call chain unchanged.
#[must_use]
#[derive(Debug, PartialEq)]
pub enum SearchResult<T> {
    Found(T),
    NotFound,
}

/// What a hook answers: `Finished` carries a terminal result and stops the
/// walk of the current subtree (stopping everything when the result is
/// `Found`), while `NotFinished` lets the walk descend into the children.
#[must_use]
#[derive(Debug, PartialEq)]
pub enum SearchState<T> {
    Finished(SearchResult<T>),
    NotFinished,
}

impl<T> SearchState<T> {
    /// The result this state decides on its own, taking the absence of an
    /// opinion as `NotFound`.
    pub open spec fn spec_or_not_found(self) -> SearchResult<T> {
        match self {
            SearchState::Finished(result) => result,
            SearchState::NotFinished => SearchResult::NotFound,
        }
    }

    /// Short-circuit with a fallback: a finished state yields its own result
    /// without running the fallback; an unfinished one runs the fallback.
    pub fn or_else<F: FnOnce() -> SearchResult<T>>(self, nested_fun: F) -> (r: SearchResult<T>)
        requires
            self is NotFinished ==> nested_fun.requires(()),
        ensures
            self is Finished ==> r == self->0,
            self is NotFinished ==> nested_fun.ensures((), r),
    {
        match self {
            SearchState::Finished(result) => result,
            SearchState::NotFinished => nested_fun(),
        }
    }

    /// Close a state that has no children left to consult.
    pub fn or_not_found(self) -> (r: SearchResult<T>)
        ensures
            r == self.spec_or_not_found(),
    {
        self.or_else(
            (|| -> (r: SearchResult<T>)
                ensures
                    r == SearchResult::<T>::NotFound,
                { SearchResult::NotFound }),
        )
    }
}

/// A query over the tree: one hook per semantically interesting node kind.
///
/// Each exec hook is pinned to a spec function of the same shape, so that the
/// traversal rules can state exactly how a whole search behaves in terms of
/// the searcher's own model.  A hook answering `NotFinished` is a transparent
/// pass-through; implementers override only the hooks their query needs and
/// answer `(s, SearchState::NotFinished)` everywhere else.
pub trait Searcher<T>: View + Sized {
    /// Model of `search_labeled_concurrent_statement`.
    spec fn on_concurrent_statement(s: Self::V, stmt: LabeledConcurrentStatement) -> (
        Self::V,
        SearchState<T>,
    );

    /// Model of `search_labeled_sequential_statement`.
    spec fn on_sequential_statement(s: Self::V, stmt: LabeledSequentialStatement) -> (
        Self::V,
        SearchState<T>,
    );

    /// Model of `search_declaration`.
    spec fn on_declaration(s: Self::V, decl: Declaration) -> (Self::V, SearchState<T>);

    /// Model of `search_type_declaration`.
    spec fn on_type_declaration(s: Self::V, decl: TypeDeclaration) -> (Self::V, SearchState<T>);

    /// Model of `search_interface_declaration`.
    spec fn on_interface_declaration(s: Self::V, decl: InterfaceDeclaration) -> (
        Self::V,
        SearchState<T>,
    );

    /// Model of `search_subtype_indication`.
    spec fn on_subtype_indication(s: Self::V, decl: SubtypeIndication) -> (Self::V, SearchState<T>);

    /// Model of `search_entity`.
    spec fn on_entity(s: Self::V, ent: EntityUnit) -> (Self::V, SearchState<T>);

    /// Model of `search_designator_ref`.
    spec fn on_designator_ref(s: Self::V, pos: SrcPos, designator: WithRef<Designator>) -> (
        Self::V,
        SearchState<T>,
    );

    /// Model of `search_with_pos`.
    spec fn on_with_pos(s: Self::V, pos: SrcPos) -> (Self::V, SearchState<T>);

    /// Model of `search_source`.
    spec fn on_source(s: Self::V, source: Source) -> (Self::V, SearchState<T>);

    /// Hook for a labeled concurrent statement, before its children.
    fn search_labeled_concurrent_statement(&mut self, stmt: &LabeledConcurrentStatement) -> (r:
        SearchState<T>)
        ensures
            (final(self)@, r) == Self::on_concurrent_statement(old(self)@, *stmt),
    ;

    /// Hook for a labeled sequential statement.
    fn search_labeled_sequential_statement(&mut self, stmt: &LabeledSequentialStatement) -> (r:
        SearchState<T>)
        ensures
            (final(self)@, r) == Self::on_sequential_statement(old(self)@, *stmt),
    ;

    /// Hook for a declarative item, before its children.
    fn search_declaration(&mut self, decl: &Declaration) -> (r: SearchState<T>)
        ensures
            (final(self)@, r) == Self::on_declaration(old(self)@, *decl),
    ;

    /// Hook for a type declaration, before its definition.
    fn search_type_declaration(&mut self, decl: &TypeDeclaration) -> (r: SearchState<T>)
        ensures
            (final(self)@, r) == Self::on_type_declaration(old(self)@, *decl),
    ;

    /// Hook for a generic, port or parameter declaration, before its children.
    fn search_interface_declaration(&mut self, decl: &InterfaceDeclaration) -> (r: SearchState<T>)
        ensures
            (final(self)@, r) == Self::on_interface_declaration(old(self)@, *decl),
    ;

    /// Hook for a subtype indication, before its type mark.
    fn search_subtype_indication(&mut self, decl: &SubtypeIndication) -> (r: SearchState<T>)
        ensures
            (final(self)@, r) == Self::on_subtype_indication(old(self)@, *decl),
    ;

    /// Hook for an entity design unit, before its clauses and contents.
    fn search_entity(&mut self, ent: &EntityUnit) -> (r: SearchState<T>)
        ensures
            (final(self)@, r) == Self::on_entity(old(self)@, *ent),
    ;

    /// Hook for a name occurrence together with its resolved reference.
    fn search_designator_ref(&mut self, pos: &SrcPos, designator: &WithRef<Designator>) -> (r:
        SearchState<T>)
        ensures
            (final(self)@, r) == Self::on_designator_ref(old(self)@, *pos, *designator),
    ;

    /// Hook for a bare span occurrence, before anything under it.
    fn search_with_pos(&mut self, pos: &SrcPos) -> (r: SearchState<T>)
        ensures
            (final(self)@, r) == Self::on_with_pos(old(self)@, *pos),
    ;

    /// Hook for the source identity of a design unit; a finished answer here
    /// skips the whole unit.
    fn search_source(&mut self, source: &Source) -> (r: SearchState<T>)
        ensures
            (final(self)@, r) == Self::on_source(old(self)@, *source),
    ;
}

/// The ability of a tree node to run a searcher over itself and its children,
/// in declared order, short-circuiting on the first finished answer.
///
/// `spec_search` is the node's traversal rule as a mathematical function from
/// the searcher's state to its final state and the search outcome; `search`
/// is its executable form and returns exactly what the rule says.
pub trait Search<T, S: Searcher<T>> {
    /// The traversal rule of this node kind over the searcher's model.
    spec fn spec_search(&self, searcher: S::V) -> (S::V, SearchResult<T>);

    /// Run the searcher over this node; the searcher ends in the state the
    /// traversal rule describes and the outcome is the rule's outcome.
    fn search(&self, searcher: &mut S) -> (r: SearchResult<T>)
        ensures
            (final(searcher)@, r) == self.spec_search(old(searcher)@),
    ;
}

} // verus!
