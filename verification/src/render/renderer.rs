//! One modal session: a screen, its window and its key handlers, driven from
//! outside one step at a time.

use crate::render::component::{Component, Reaction};
use crate::render::frame::{frame, frame_of, Frame};
use crate::render::key_handlers::KeyHandlers;
use crate::render::search::{enter_search, SearchableComponent};
use crate::render::window::{placed, RenderError, ScreenSize, Window, WindowView};
use crate::render::Point;
use vstd::prelude::*;

verus! {

/// Where a session stands.
#[derive(Clone, Copy, PartialEq, Eq, Debug, Structural)]
pub enum Phase {
    /// The screen has not been started.
    Starting,
    /// The window is to be painted.
    Drawing,
    /// The window is painted; the next key is awaited.
    AwaitingInput,
    /// The screen was left.
    Exited,
}

/// What a key press came to.
#[derive(Debug, PartialEq, Eq)]
pub enum Dispatch<R> {
    /// No handler is bound to the key: nothing happened, nothing is to be painted.
    Ignored,
    /// The key's handler ran once, with this answer.
    Handled(Reaction<R>),
}

/// A session.
pub struct Renderer<T: Component> {
    component: T,
    window: Window,
    handlers: KeyHandlers<T::Action>,
    phase: Phase,
}

/// What a session is.
pub struct RendererView<T: Component> {
    pub component: T,
    pub window: WindowView,
    pub handlers: Map<i32, T::Action>,
    pub phase: Phase,
}

impl<T: Component> View for Renderer<T> {
    type V = RendererView<T>;

    closed spec fn view(&self) -> RendererView<T> {
        RendererView {
            component: self.component,
            window: self.window@,
            handlers: self.handlers@,
            phase: self.phase,
        }
    }
}

impl<T: Component> RendererView<T> {
    /// What a press of `key` makes of the session `self`: `post` and `result`.
    pub open spec fn dispatched(self, key: i32, post: Self, result: Dispatch<T::Request>) -> bool {
        if !self.handlers.contains_key(key) {
            &&& result is Ignored
            &&& post == self
        } else {
            &&& result matches Dispatch::Handled(reaction)
            &&& post.handlers == self.handlers
            &&& if reaction.proceed {
                &&& post.phase == Phase::Drawing
                &&& T::handled(
                    &self.component,
                    self.window,
                    self.handlers[key],
                    &post.component,
                    post.window,
                    &reaction,
                )
            } else {
                &&& post.phase == Phase::Exited
                &&& exists|left: T, shown: WindowView|
                    {
                        &&& #[trigger] T::handled(
                            &self.component,
                            self.window,
                            self.handlers[key],
                            &left,
                            shown,
                            &reaction,
                        )
                        &&& T::exited(&left, shown, &post.component, post.window)
                    }
            }
        }
    }
}

impl<T: Component> Renderer<T> {
    /// A session for `component` in a window of the size that `size` gets at
    /// `position` on a terminal of the size `terminal`. Where no such window can
    /// be had the session cannot be either, and the reason is returned.
    pub fn new(component: T, size: ScreenSize, position: Point, terminal: ScreenSize) -> (made:
        Result<Self, RenderError>)
        ensures
            match placed(size, position, terminal) {
                Ok(fitted) => made matches Ok(renderer) && renderer@ == (RendererView {
                    component,
                    window: WindowView {
                        lines: Seq::empty(),
                        cursor: 0,
                        top: 0,
                        size: fitted,
                        origin: position,
                        cursor_visible: true,
                    },
                    handlers: Map::empty(),
                    phase: Phase::Starting,
                }),
                Err(error) => made matches Err(e) && e == error,
            },
    {
        match Window::new(size, position, terminal) {
            Err(error) => Err(error),
            Ok(window) => Ok(
                Renderer { component, window, handlers: KeyHandlers::new(), phase: Phase::Starting },
            ),
        }
    }

    /// Where the session stands.
    pub fn phase(&self) -> (phase: Phase)
        ensures
            phase == self@.phase,
    {
        self.phase
    }

    /// The session's window.
    pub fn window(&self) -> (window: &Window)
        ensures
            window@ == self@.window,
    {
        &self.window
    }

    /// The session's screen.
    pub fn component(&self) -> (component: &T)
        ensures
            *component == self@.component,
    {
        &self.component
    }

    /// Starts the screen: it fills the window and binds its keys. The window is
    /// then to be painted.
    pub fn start(&mut self)
        requires
            old(self)@.phase == Phase::Starting,
        ensures
            final(self)@.phase == Phase::Drawing,
            T::started(
                &old(self)@.component,
                old(self)@.window,
                &final(self)@.component,
                final(self)@.window,
            ),
            final(self)@.handlers == old(self)@.handlers.union_prefer_right(
                final(self)@.component.bindings(),
            ),
    {
        self.component.on_start(&mut self.window);
        self.component.register_handlers(&mut self.handlers);
        self.phase = Phase::Drawing;
    }

    /// What is to be painted: the rows of the window that fall into its
    /// viewport, each cut down to the viewport's width, and the rows of the
    /// viewport that the content does not reach, cleared. The session then
    /// awaits a key.
    pub fn draw(&mut self) -> (painted: Frame)
        requires
            old(self)@.phase == Phase::Drawing,
        ensures
            painted@ == frame_of(old(self)@.window),
            final(self)@ == (RendererView { phase: Phase::AwaitingInput, ..old(self)@ }),
    {
        self.phase = Phase::AwaitingInput;
        frame(&self.window)
    }

    /// Takes a key press. A key without a handler is ignored: nothing changes
    /// and nothing is to be painted. Otherwise the key's handler runs, once.
    /// Where it answers to go on, the window is to be painted again; where it
    /// answers to leave, the screen's `on_exit` runs, once, and the session is
    /// over.
    pub fn dispatch(&mut self, key: i32) -> (result: Dispatch<T::Request>)
        requires
            old(self)@.phase == Phase::AwaitingInput,
        ensures
            old(self)@.dispatched(key, final(self)@, result),
    {
        match self.handlers.get(key) {
            None => Dispatch::Ignored,
            Some(action) => {
                let reaction = self.component.handle(action, &mut self.window);
                if reaction.proceed {
                    self.phase = Phase::Drawing;
                } else {
                    let ghost left = self.component;
                    let ghost shown = self.window@;
                    self.component.on_exit(&mut self.window);
                    self.phase = Phase::Exited;
                    assert(T::handled(
                        &old(self)@.component,
                        old(self)@.window,
                        action,
                        &left,
                        shown,
                        &reaction,
                    ) && T::exited(&left, shown, &self@.component, self@.window));
                }
                Dispatch::Handled(reaction)
            },
        }
    }

    /// Gives the screen new content and lets it fill the window anew. The
    /// window is then to be painted.
    pub fn reload(&mut self, source: T::Source)
        requires
            old(self)@.phase == Phase::Drawing || old(self)@.phase == Phase::AwaitingInput,
        ensures
            final(self)@.phase == Phase::Drawing,
            final(self)@.handlers == old(self)@.handlers,
            exists|fed: T|
                {
                    &&& #[trigger] T::loaded(&old(self)@.component, &source, &fed)
                    &&& T::started(
                        &fed,
                        old(self)@.window,
                        &final(self)@.component,
                        final(self)@.window,
                    )
                },
    {
        self.component.load(source);
        let ghost fed = self.component;
        self.component.on_start(&mut self.window);
        self.phase = Phase::Drawing;
        assert(T::loaded(&old(self)@.component, &source, &fed) && T::started(
            &fed,
            old(self)@.window,
            &self@.component,
            self@.window,
        ));
    }

    /// Takes the term that the user entered at the screen's request: the screen
    /// keeps it, and the cursor goes to the next row that holds it. The window is
    /// then to be painted.
    pub fn search(&mut self, term: String) where T: SearchableComponent
        requires
            old(self)@.phase == Phase::Drawing || old(self)@.phase == Phase::AwaitingInput,
        ensures
            final(self)@.phase == Phase::Drawing,
            final(self)@.handlers == old(self)@.handlers,
            final(self)@.component.search_term() == term@,
            T::with_term(&old(self)@.component, term@, &final(self)@.component),
            final(self)@.window == old(self)@.window.after_next(term@),
    {
        enter_search(&mut self.component, &mut self.window, term);
        self.phase = Phase::Drawing;
    }

    /// Ends the session and hands back its screen.
    pub fn into_component(self) -> (component: T)
        ensures
            component == self@.component,
    {
        self.component
    }
}

} // verus!
