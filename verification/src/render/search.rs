//! Search over the rows of a window, for any screen that keeps a search term.

use crate::ascii_table::{KEY_FORWARD_SLASH, KEY_N_LOWER, KEY_N_UPPER};
use crate::render::component::Component;
use crate::render::key_handlers::KeyHandlers;
use crate::render::window::Window;
use vstd::prelude::*;

verus! {

/// A screen that keeps a search term.
pub trait SearchableComponent: Component {
    /// The term that the screen keeps.
    spec fn search_term(&self) -> Seq<char>;

    /// `post` is `pre` but for the term that it keeps, which is `term`.
    spec fn with_term(pre: &Self, term: Seq<char>, post: &Self) -> bool;

    /// The term that the screen keeps.
    fn term(&self) -> (term: String)
        ensures
            term@ == self.search_term(),
    ;

    /// Makes `term` the term that the screen keeps.
    fn set_term(&mut self, term: String)
        ensures
            final(self).search_term() == term@,
            Self::with_term(old(self), term@, final(self)),
    ;
}

/// The search keys, each with its handler: `/` enters a term, `n` goes to the
/// next row that holds it, `N` to the previous.
pub open spec fn search_keys<A>(enter: A, next: A, previous: A) -> Map<i32, A> {
    map![KEY_FORWARD_SLASH => enter, KEY_N_LOWER => next, KEY_N_UPPER => previous]
}

/// Binds the search keys: `/` to `enter`, `n` to `next` and `N` to `previous`.
/// As with every registration, a key that was bound before is bound anew. A
/// screen that wants its own handler on one of these keys registers the search
/// handlers first and its own after them.
pub fn register_search_handlers<A: Copy>(
    handlers: &mut KeyHandlers<A>,
    enter: A,
    next: A,
    previous: A,
)
    ensures
        final(handlers)@ == old(handlers)@.union_prefer_right(search_keys(enter, next, previous)),
{
    handlers.insert(KEY_FORWARD_SLASH, enter);
    handlers.insert(KEY_N_LOWER, next);
    handlers.insert(KEY_N_UPPER, previous);
    assert(handlers@ =~= old(handlers)@.union_prefer_right(search_keys(enter, next, previous)));
}

/// Takes the term that the user entered: the screen keeps it, and the cursor
/// goes to the next row that holds it.
pub fn enter_search<T: SearchableComponent>(component: &mut T, window: &mut Window, term: String)
    ensures
        final(component).search_term() == term@,
        T::with_term(old(component), term@, final(component)),
        final(window)@ == old(window)@.after_next(term@),
{
    window.move_next(term.as_str());
    component.set_term(term);
}

/// Goes to the next row that holds the screen's term.
pub fn repeat_next<T: SearchableComponent>(component: &T, window: &mut Window) -> (proceed: bool)
    ensures
        proceed,
        final(window)@ == old(window)@.after_next(component.search_term()),
{
    let term = component.term();
    window.move_next(term.as_str());
    true
}

/// Goes to the previous row that holds the screen's term.
pub fn repeat_previous<T: SearchableComponent>(component: &T, window: &mut Window) -> (proceed:
    bool)
    ensures
        proceed,
        final(window)@ == old(window)@.after_prev(component.search_term()),
{
    let term = component.term();
    window.move_prev(term.as_str());
    true
}

} // verus!
