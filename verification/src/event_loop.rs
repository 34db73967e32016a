use crate::command::{Command, CommandView};
use crate::dispatch::{fresh, Dispatch, Phase};
use crate::error::WaymoError;
use crate::input::{button_code, ButtonCode, MouseButton};
use crate::params::EloopParams;
use crate::startup::{Startup, StartupEvent, StartupPhase};
use crate::text::{has_terminator, NativeText};
use vstd::prelude::*;
use vstd::utf8::encode_utf8;

verus! {

/// A worker that is up and ready to take commands. There is one owner of it;
/// it is not copied, and destroying it uses it up.
#[derive(Debug)]
pub struct WaymoEventLoop {
    handle: usize,
}

impl WaymoEventLoop {
    #[verifier::type_invariant]
    spec fn allocated(&self) -> bool {
        self.handle != 0
    }

    /// The address of the worker.
    pub closed spec fn address(&self) -> usize {
        self.handle
    }

    /// Takes charge of a worker that has been found ready.
    pub(crate) fn adopt(handle: usize) -> (worker: WaymoEventLoop)
        requires
            handle != 0,
        ensures
            worker.address() == handle,
    {
        WaymoEventLoop { handle }
    }

    /// Starts the creation of a worker with the given configuration, or with
    /// the worker's own defaults where there is none. The configuration is
    /// borrowed: the worker reads it while it is created, and it stays with
    /// the caller. Nothing has been asked for yet: the first thing that the
    /// creation waits on is the request for a worker.
    pub fn new(params: Option<&EloopParams>) -> (startup: Startup<'_>)
        ensures
            startup@.phase == StartupPhase::Uninitialized,
            startup@.reported == Seq::<StartupEvent>::empty(),
            startup@.params == (match params {
                Some(params) => Some(params@),
                None => None,
            }),
    {
        Startup::begin(params)
    }

    /// The address to name the worker by when talking to it. It is never null.
    pub fn handle(&self) -> (handle: usize)
        ensures
            handle == self.address(),
            handle != 0,
    {
        proof {
            use_type_invariant(self);
        }
        self.handle
    }

    /// Gives the worker up. What comes back is the address to destroy it by.
    /// The worker is gone from the caller's hands, so it can be neither used
    /// nor destroyed again.
    pub fn destroy(self) -> (handle: usize)
        ensures
            handle == self.address(),
            handle != 0,
    {
        proof {
            use_type_invariant(&self);
        }
        self.handle
    }

    /// Starts the dispatch of a command whose completion is awaited. The
    /// dispatch begins without a descriptor and asks for one first.
    fn wait_complete(&self, command: Command) -> (dispatch: Dispatch<'_>)
        ensures
            dispatch@ == fresh(self.address(), command@, Phase::Opening),
    {
        Dispatch::synchronous(self, command)
    }

    /// Moves the pointer to a position, or by an offset where `relative` is
    /// set, and waits until the worker has done so.
    pub fn move_mouse(&self, x: u32, y: u32, relative: bool) -> (dispatch: Dispatch<'_>)
        ensures
            dispatch@ == fresh(
                self.address(),
                CommandView::MoveMouse { x, y, relative },
                Phase::Opening,
            ),
    {
        self.wait_complete(Command::MoveMouse { x, y, relative })
    }

    /// Clicks a button a number of times, holding it for `hold_ms` each time,
    /// and waits until the worker has done so.
    pub fn click_mouse(&self, btn: MouseButton, clicks: u32, hold_ms: u32) -> (dispatch: Dispatch<
        '_,
    >)
        ensures
            dispatch@ == fresh(
                self.address(),
                CommandView::ClickMouse { button: button_code(btn), clicks, hold_ms },
                Phase::Opening,
            ),
    {
        self.wait_complete(Command::ClickMouse { button: ButtonCode::from(btn), clicks, hold_ms })
    }

    /// Presses a button down, or lets it go, and waits until the worker has
    /// done so.
    pub fn press_mouse(&self, btn: MouseButton, down: bool) -> (dispatch: Dispatch<'_>)
        ensures
            dispatch@ == fresh(
                self.address(),
                CommandView::PressMouse { button: button_code(btn), down },
                Phase::Opening,
            ),
    {
        self.wait_complete(Command::PressMouse { button: ButtonCode::from(btn), down })
    }

    /// Presses a key down, or lets it go. The command is handed over and not
    /// waited for: no descriptor is made for it.
    pub fn press_key(&self, key: char, interval_ms: Option<u32>, down: bool) -> (dispatch:
        Dispatch<'_>)
        ensures
            dispatch@ == fresh(
                self.address(),
                CommandView::PressKey { key, interval_ms, down },
                Phase::Submitting { notify: None },
            ),
    {
        Dispatch::fire_and_forget(self, Command::PressKey { key, interval_ms, down })
    }

    /// Holds a key for `hold_ms`. The command is handed over and not waited
    /// for: no descriptor is made for it.
    pub fn hold_key(&self, key: char, interval_ms: Option<u32>, hold_ms: u32) -> (dispatch:
        Dispatch<'_>)
        ensures
            dispatch@ == fresh(
                self.address(),
                CommandView::HoldKey { key, interval_ms, hold_ms },
                Phase::Submitting { notify: None },
            ),
    {
        Dispatch::fire_and_forget(self, Command::HoldKey { key, interval_ms, hold_ms })
    }

    /// Types a text and waits until the worker has done so.
    ///
    /// Fails, with `InvalidConfigurationText`, exactly when the text holds a
    /// terminator character; nothing is then dispatched. Otherwise the
    /// command carries the text's UTF-8 bytes.
    pub fn type_text(&self, text: &str, interval_ms: Option<u32>) -> (result: Result<
        Dispatch<'_>,
        WaymoError,
    >)
        ensures
            has_terminator(text@) <==> result is Err,
            result matches Err(e) ==> e == WaymoError::InvalidConfigurationText,
            result matches Ok(dispatch) ==> dispatch@ == fresh(
                self.address(),
                CommandView::TypeText { text: encode_utf8(text@), interval_ms },
                Phase::Opening,
            ),
    {
        match NativeText::new(text) {
            Ok(text) => Ok(self.wait_complete(Command::TypeText { text, interval_ms })),
            Err(e) => Err(e),
        }
    }
}

} // verus!
