use vstd::prelude::*;
use crate::types::{AppError, Color};

verus! {

/// What a host holds, as plain values.
pub ghost struct HostView<E, W, R> {
    /// The event source; `None` exactly while a run holds it.
    pub events_loop: Option<E>,
    pub window: W,
    pub renderer: R,
    pub background_color: Color,
    pub exit_by_escape: bool,
    /// Width and height, as last stored.
    pub dimensions: (u32, u32),
}

/// The application host: owner of the window `W`, of the event source `E`
/// between runs, and of the render backend `R`.
#[derive(Debug)]
pub struct App<E, W, R> {
    events_loop: Option<E>,
    window: W,
    renderer: R,
    background_color: Color,
    exit_by_escape: bool,
    width: u32,
    height: u32,
}

impl<E, W, R> View for App<E, W, R> {
    type V = HostView<E, W, R>;

    closed spec fn view(&self) -> HostView<E, W, R> {
        HostView {
            events_loop: self.events_loop,
            window: self.window,
            renderer: self.renderer,
            background_color: self.background_color,
            exit_by_escape: self.exit_by_escape,
            dimensions: (self.width, self.height),
        }
    }
}

impl<E, W, R> HostView<E, W, R> {
    /// The host that `App::new` builds from a created window.
    pub open spec fn fresh(
        events_loop: E,
        max_dimensions: Option<(u32, u32)>,
        window: W,
        renderer: R,
    ) -> Self {
        HostView {
            events_loop: Some(events_loop),
            window,
            renderer,
            background_color: Color::spec_light_grey(),
            exit_by_escape: true,
            dimensions: match max_dimensions {
                Some(d) => d,
                None => (0u32, 0u32),
            },
        }
    }

    /// This host after a run has taken its event source.
    pub open spec fn acquired(self) -> Self {
        HostView { events_loop: None, ..self }
    }

    /// An attempt to start a run: the host after it and the event source that
    /// it hands out, which is `None` where a run holds the source already and
    /// the attempt fails.
    pub open spec fn start_run(self) -> (Self, Option<E>) {
        match self.events_loop {
            Some(e) => (self.acquired(), Some(e)),
            None => (self, None),
        }
    }

    /// This host after `events_loop` has been handed back.
    pub open spec fn released(self, events_loop: E) -> Self {
        HostView { events_loop: Some(events_loop), ..self }
    }

    /// This host after a size query has answered `(width, height)`.
    pub open spec fn resized(self, dimensions: (u32, u32)) -> Self {
        HostView { dimensions, ..self }
    }
}

impl<E, W, R> App<E, W, R> {
    /// Builds the host around a window that the caller tried to create for
    /// `events_loop`. The initial dimensions are the window configuration's
    /// maximum-dimensions hint, or `(0, 0)` without one. A failed creation is
    /// reported as `CreationError` with its description.
    pub fn new<RE>(
        events_loop: E,
        max_dimensions: Option<(u32, u32)>,
        window: Result<W, String>,
        renderer: R,
    ) -> (host: Result<Self, AppError<RE>>)
        ensures
            match window {
                Ok(w) => host is Ok && host->Ok_0@ == HostView::fresh(
                    events_loop,
                    max_dimensions,
                    w,
                    renderer,
                ),
                Err(cause) => host == Err::<Self, AppError<RE>>(AppError::CreationError(cause)),
            },
    {
        let (width, height): (u32, u32) = match max_dimensions {
            Some(d) => d,
            None => (0, 0),
        };
        match window {
            Ok(window) => Ok(
                App {
                    events_loop: Some(events_loop),
                    window,
                    renderer,
                    background_color: Color::light_grey(),
                    exit_by_escape: true,
                    width,
                    height,
                },
            ),
            Err(cause) => Err(AppError::CreationError(cause)),
        }
    }

    /// The same host with another background color.
    pub fn with_background_color(self, color: Color) -> (host: Self)
        ensures
            host@ == (HostView { background_color: color, ..self@ }),
    {
        let mut host = self;
        host.background_color = color;
        host
    }

    /// The same host with another policy for the Escape key.
    pub fn with_exit_by_escape(self, exit: bool) -> (host: Self)
        ensures
            host@ == (HostView { exit_by_escape: exit, ..self@ }),
    {
        let mut host = self;
        host.exit_by_escape = exit;
        host
    }

    /// Decides the first half of initialization from the attempt to make the
    /// GPU context current: on success the clear color to set, on failure
    /// `ContextError` with the cause's description.
    pub fn init<RE>(&self, made_current: Result<(), String>) -> (clear: Result<Color, AppError<RE>>)
        ensures
            match made_current {
                Ok(_) => clear == Ok::<Color, AppError<RE>>(self@.background_color),
                Err(cause) => clear == Err::<Color, AppError<RE>>(AppError::ContextError(cause)),
            },
    {
        match made_current {
            Ok(_) => Ok(self.background_color),
            Err(cause) => Err(AppError::ContextError(cause)),
        }
    }

    /// Decides the second half of initialization from what the render
    /// backend's own initialization returned.
    pub fn init_renderer<RE>(&self, initialized: Result<(), RE>) -> (done: Result<(), AppError<RE>>)
        ensures
            match initialized {
                Ok(_) => done is Ok,
                Err(cause) => done == Err::<(), AppError<RE>>(AppError::RendererError(cause)),
            },
    {
        match initialized {
            Ok(_) => Ok(()),
            Err(cause) => Err(AppError::RendererError(cause)),
        }
    }

    /// Takes the event source for a run. Fails with `EventsLoopIsNone`, and
    /// changes nothing, while another run holds it.
    pub(crate) fn acquire<RE>(&mut self) -> (source: Result<E, AppError<RE>>)
        ensures
            match old(self)@.events_loop {
                Some(e) => source == Ok::<E, AppError<RE>>(e) && final(self)@ == old(self)@.acquired(),
                None => source == Err::<E, AppError<RE>>(AppError::EventsLoopIsNone) && final(self)@
                    == old(self)@,
            },
    {
        match self.events_loop.take() {
            Some(e) => Ok(e),
            None => Err(AppError::EventsLoopIsNone),
        }
    }

    /// Hands the event source back at the end of a run.
    pub(crate) fn release(&mut self, events_loop: E)
        ensures
            final(self)@ == old(self)@.released(events_loop),
    {
        self.events_loop = Some(events_loop);
    }

    /// Stores the window's size as it was just queried.
    pub(crate) fn store_dimensions(&mut self, width: u32, height: u32)
        ensures
            final(self)@ == old(self)@.resized((width, height)),
    {
        self.width = width;
        self.height = height;
    }

    /// Whether the host holds its event source, that is, no run is active.
    pub fn is_idle(&self) -> (idle: bool)
        ensures
            idle == self@.events_loop.is_some(),
    {
        self.events_loop.is_some()
    }

    /// Whether the Escape key ends a run.
    pub fn exit_by_escape(&self) -> (exit: bool)
        ensures
            exit == self@.exit_by_escape,
    {
        self.exit_by_escape
    }

    /// The background color.
    pub fn background_color(&self) -> (color: Color)
        ensures
            color == self@.background_color,
    {
        self.background_color
    }

    /// Width and height of the window, as last queried by a run; before the
    /// first query, the initial dimensions.
    pub fn dimensions(&self) -> (d: (u32, u32))
        ensures
            d == self@.dimensions,
    {
        (self.width, self.height)
    }

    /// The window.
    pub fn window(&self) -> (w: &W)
        ensures
            *w == self@.window,
    {
        &self.window
    }

    /// The render backend.
    pub fn renderer(&self) -> (r: &R)
        ensures
            *r == self@.renderer,
    {
        &self.renderer
    }

    /// The render backend, for changing it: the host afterwards differs from
    /// the host before in its renderer alone.
    pub fn renderer_mut(&mut self) -> (r: &mut R)
        ensures
            *r == old(self)@.renderer,
            final(self)@ == (HostView { renderer: *final(r), ..old(self)@ }),
    {
        &mut self.renderer
    }
}

} // verus!
