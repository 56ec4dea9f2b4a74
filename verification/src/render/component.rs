//! What a screen has to offer so that a session can drive it.

use crate::render::key_handlers::KeyHandlers;
use crate::render::window::{Window, WindowView};
use vstd::prelude::*;

verus! {

/// What a handler answers.
#[derive(Debug, PartialEq, Eq)]
pub struct Reaction<R> {
    /// Whether the session goes on. If not, the screen is left.
    pub proceed: bool,
    /// Work outside the screen that the host is to do before anything else.
    pub request: Option<R>,
    /// Whether, after that work, the screen is to be given its content anew.
    pub refresh: bool,
}

/// What an answer is.
pub struct ReactionView<V> {
    pub proceed: bool,
    pub request: Option<V>,
    pub refresh: bool,
}

impl<R: View> View for Reaction<R> {
    type V = ReactionView<R::V>;

    open spec fn view(&self) -> ReactionView<R::V> {
        ReactionView {
            proceed: self.proceed,
            request: match self.request {
                Some(request) => Some(request@),
                None => None,
            },
            refresh: self.refresh,
        }
    }
}

/// The answer "go on; nothing to do outside".
pub open spec fn stays<V>() -> ReactionView<V> {
    ReactionView { proceed: true, request: None, refresh: false }
}

/// The answer "leave the screen".
pub open spec fn leaves<V>() -> ReactionView<V> {
    ReactionView { proceed: false, request: None, refresh: false }
}

/// The answer "go on, with new content".
pub open spec fn reloads<V>() -> ReactionView<V> {
    ReactionView { proceed: true, request: None, refresh: true }
}

/// The answer "go on after `request` was done, with new content if `refresh`".
pub open spec fn asks<V>(request: V, refresh: bool) -> ReactionView<V> {
    ReactionView { proceed: true, request: Some(request), refresh }
}

impl<R> Reaction<R> {
    /// Go on; nothing to do outside.
    pub fn stay() -> (reaction: Self)
        ensures
            reaction.proceed,
            reaction.request is None,
            !reaction.refresh,
    {
        Reaction { proceed: true, request: None, refresh: false }
    }

    /// Leave the screen.
    pub fn leave() -> (reaction: Self)
        ensures
            !reaction.proceed,
            reaction.request is None,
            !reaction.refresh,
    {
        Reaction { proceed: false, request: None, refresh: false }
    }

    /// Go on, and give the screen its content anew.
    pub fn reload() -> (reaction: Self)
        ensures
            reaction.proceed,
            reaction.request is None,
            reaction.refresh,
    {
        Reaction { proceed: true, request: None, refresh: true }
    }

    /// Go on after the host has done `request`, with new content if `refresh`.
    pub fn ask(request: R, refresh: bool) -> (reaction: Self)
        ensures
            reaction.proceed,
            reaction.request == Some(request),
            reaction.refresh == refresh,
    {
        Reaction { proceed: true, request: Some(request), refresh }
    }
}

/// A screen: what it shows when it starts, what its keys do, and what it does
/// when it is left.
///
/// A screen does no outside work itself. What it shows it computes from the
/// content that `load` gave it; what has to happen outside it hands to the host
/// as a request.
pub trait Component: Sized {
    /// The names of the screen's handlers.
    type Action: Copy;

    /// The outside work that the screen's handlers can ask for.
    type Request;

    /// The content that the screen shows, as the host fetches it.
    type Source;

    /// `post` is `pre` after it was given the content `source`.
    spec fn loaded(pre: &Self, source: &Self::Source, post: &Self) -> bool;

    /// `post` and `shown` are what `on_start` makes of `pre` and `window`.
    spec fn started(pre: &Self, window: WindowView, post: &Self, shown: WindowView) -> bool;

    /// `post` and `shown` are what `on_exit` makes of `pre` and `window`.
    spec fn exited(pre: &Self, window: WindowView, post: &Self, shown: WindowView) -> bool;

    /// The keys that the screen binds, each with its handler.
    spec fn bindings(&self) -> Map<i32, Self::Action>;

    /// `post`, `shown` and `reaction` are what the handler `action` makes of
    /// `pre` and `window`.
    spec fn handled(
        pre: &Self,
        window: WindowView,
        action: Self::Action,
        post: &Self,
        shown: WindowView,
        reaction: &Reaction<Self::Request>,
    ) -> bool;

    /// Takes the content to show from now on.
    fn load(&mut self, source: Self::Source)
        ensures
            Self::loaded(old(self), &source, final(self)),
    ;

    /// Fills the window when the session starts, and again whenever the screen
    /// is given its content anew.
    fn on_start(&mut self, window: &mut Window)
        ensures
            Self::started(old(self), old(window)@, final(self), final(window)@),
    ;

    /// Cleans up when the session ends.
    fn on_exit(&mut self, window: &mut Window)
        ensures
            Self::exited(old(self), old(window)@, final(self), final(window)@),
    ;

    /// Binds the screen's keys. A key that was bound before is bound anew.
    fn register_handlers(&self, handlers: &mut KeyHandlers<Self::Action>)
        ensures
            final(handlers)@ == old(handlers)@.union_prefer_right(self.bindings()),
    ;

    /// Carries out the handler `action`.
    fn handle(&mut self, action: Self::Action, window: &mut Window) -> (reaction: Reaction<
        Self::Request,
    >)
        ensures
            Self::handled(old(self), old(window)@, action, final(self), final(window)@, &reaction),
    ;
}

} // verus!
