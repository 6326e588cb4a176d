//! The application state the event loop owns, and the loop's decisions: when
//! a poll is due, what a key does, how a completed refresh lands in the
//! state. The loop around these functions (drawing, waiting for keys, the
//! HTTP transfer) is the unverified shell; every decision it acts on is made
//! here.
use vstd::prelude::*;
use crate::cfg_file::ConfigFile;
use crate::errors::QueryError;
use crate::errors::spec_log_line;
use crate::log_ring::LogRing;
use crate::nav::MenuAction;
use crate::nav::Navigation;
use crate::nav::nav_wf;
use crate::nav::is_default_menu;
use crate::nav::make_menu;
use crate::nav::spec_after_left;
use crate::nav::spec_after_right;
use crate::nav::spec_after_up;
use crate::nav::spec_after_down;
use crate::nav::spec_after_enter;
use crate::nav::spec_enter_event;
use crate::nav::NavState;
use crate::prometheus::Sample;
use crate::prometheus::parse_prom_response;
use crate::prometheus::spec_refresh_outcome;
use crate::prometheus::sview;
use crate::query::HttpRequest;
use crate::query::prepare_query_range;
use crate::query::spec_prepare_query_range;
use crate::template::vars_view;

verus! {

/// How often the loop polls the backend, in milliseconds.
pub const DEFAULT_TICK_INTERVAL_MSECS: u64 = 1000;

/// How many log lines the ring retains.
pub const DEFAULT_LOG_RING_BUFFER_SIZE: usize = 1024;

/// A keyboard event, already reduced to the keys the loop reacts to.
#[derive(Clone, Copy, PartialEq, Eq, Structural, Debug)]
pub enum Key {
    Left,
    Right,
    Up,
    Down,
    Esc,
    Enter,
    Quit,
    Other,
}

/// What the loop does after dispatching an event.
#[derive(Clone, Copy, PartialEq, Eq, Structural, Debug)]
pub enum LoopDirective {
    Continue,
    Exit,
}

/// The view state the event loop owns: configuration, the chart's sample
/// buffer, the bounded log ring, the menu, and the polling bookkeeping.
pub struct AppData {
    pub config: ConfigFile,
    pub query: String,
    pub data: Vec<Sample>,
    pub tick_interval_msecs: u64,
    pub log_buffer: LogRing,
    pub menu: Navigation,
    pub last_refresh_ms: u64,
}

/// The variable mapping a refresh renders the query template against.
pub open spec fn spec_default_vars() -> Seq<(Seq<char>, Seq<char>)> {
    seq![("podex"@, ".+"@)]
}

/// The server and query names the periodic refresh asks for.
pub open spec fn spec_default_names() -> (Seq<char>, Seq<char>) {
    ("default"@, "cpu"@)
}

/// Whether a poll is due at `now_ms`: the interval has passed since the last
/// refresh (a clock that ran backwards counts as no time passed).
pub open spec fn spec_poll_due(last_ms: int, interval_ms: int, now_ms: int) -> bool {
    now_ms >= last_ms + interval_ms
}

/// How long the loop may wait for a key at `now_ms`: what is left of the
/// interval, and nothing once the poll is due.
pub open spec fn spec_poll_timeout(last_ms: int, interval_ms: int, now_ms: int) -> int {
    if now_ms >= last_ms + interval_ms {
        0
    } else if now_ms >= last_ms {
        last_ms + interval_ms - now_ms
    } else {
        interval_ms
    }
}

impl AppData {
    /// The state is usable: the ring and the menu are well formed.
    pub open spec fn well_formed(&self) -> bool {
        &&& self.log_buffer.well_formed()
        &&& nav_wf(self.menu)
    }

    /// The fresh state the loop starts with: the given configuration, an
    /// empty chart, an empty ring, the default menu, and a first poll that is
    /// immediately due.
    pub fn new(config: ConfigFile) -> (r: AppData)
        ensures
            r.well_formed(),
            r.config == config,
            r.query@ == Seq::<char>::empty(),
            r.data@ == Seq::<Sample>::empty(),
            r.tick_interval_msecs == DEFAULT_TICK_INTERVAL_MSECS,
            r.log_buffer.history() == Seq::<Seq<char>>::empty(),
            r.log_buffer.spec_capacity() == DEFAULT_LOG_RING_BUFFER_SIZE,
            r.menu.state == NavState::Closed,
            is_default_menu(r.menu.groups@),
            r.last_refresh_ms == 0,
    {
        AppData {
            config,
            query: String::new(),
            data: Vec::new(),
            tick_interval_msecs: DEFAULT_TICK_INTERVAL_MSECS,
            log_buffer: LogRing::new(DEFAULT_LOG_RING_BUFFER_SIZE),
            menu: make_menu(),
            last_refresh_ms: 0,
        }
    }

    /// How long the loop may block waiting for a key at `now_ms`.
    pub fn poll_timeout_ms(&self, now_ms: u64) -> (r: u64)
        ensures
            r == spec_poll_timeout(
                self.last_refresh_ms as int,
                self.tick_interval_msecs as int,
                now_ms as int,
            ),
    {
        if now_ms < self.last_refresh_ms {
            return self.tick_interval_msecs;
        }
        let elapsed = now_ms - self.last_refresh_ms;
        if elapsed >= self.tick_interval_msecs {
            0
        } else {
            self.tick_interval_msecs - elapsed
        }
    }

    /// One timer tick at `now_ms`. When the poll interval has passed, the
    /// tick marks the refresh as started and prepares the default range
    /// query over the hour up to `now_ms`; a preparation failure is logged
    /// (exactly one line) and skips the refresh. Before the interval has
    /// passed nothing changes. The chart buffer never changes here.
    pub fn on_tick(&mut self, now_ms: u64) -> (r: Option<HttpRequest>)
        requires
            old(self).well_formed(),
        ensures
            final (self).well_formed(),
            final (self).config == old(self).config,
            final (self).query == old(self).query,
            final (self).data == old(self).data,
            final (self).tick_interval_msecs == old(self).tick_interval_msecs,
            final (self).menu == old(self).menu,
            !spec_poll_due(
                old(self).last_refresh_ms as int,
                old(self).tick_interval_msecs as int,
                now_ms as int,
            ) ==> *final (self) == *old(self) && r is None,
            spec_poll_due(
                old(self).last_refresh_ms as int,
                old(self).tick_interval_msecs as int,
                now_ms as int,
            ) ==> {
                &&& final (self).last_refresh_ms == now_ms
                &&& match spec_prepare_query_range(
                    old(self).config.servers@,
                    old(self).config.queries@,
                    spec_default_names().0,
                    spec_default_names().1,
                    spec_default_vars(),
                    now_ms as int / 1000,
                ) {
                    Ok((url, form)) => {
                        &&& match r {
                            Some(req) => req.url@ == url && vars_view(req.form@) == form,
                            None => false,
                        }
                        &&& final (self).log_buffer == old(self).log_buffer
                    },
                    Err(e) => {
                        &&& r is None
                        &&& final (self).log_buffer.history() == old(
                            self,
                        ).log_buffer.history().push(spec_log_line(e))
                    },
                }
            },
    {
        if now_ms < self.last_refresh_ms || now_ms - self.last_refresh_ms
            < self.tick_interval_msecs {
            return None;
        }
        self.last_refresh_ms = now_ms;
        let server_name = "default".to_owned();
        let query_name = "cpu".to_owned();
        let mut vars: Vec<(String, String)> = Vec::new();
        vars.push(("podex".to_owned(), ".+".to_owned()));
        proof {
            assert(vars_view(vars@) =~= spec_default_vars());
        }
        match prepare_query_range(&self.config, &server_name, &query_name, &vars, now_ms / 1000) {
            Ok(req) => Some(req),
            Err(e) => {
                self.log_buffer.emit(e.log_line());
                None
            },
        }
    }

    /// Land a finished refresh. `body` is the response text, or `None` when
    /// the transfer itself failed. A successful envelope replaces the chart
    /// buffer with its samples; any failure leaves the buffer exactly as it
    /// was and emits exactly one log line describing it.
    pub fn apply_response(&mut self, body: Option<&str>)
        requires
            old(self).well_formed(),
        ensures
            final (self).well_formed(),
            final (self).config == old(self).config,
            final (self).query == old(self).query,
            final (self).tick_interval_msecs == old(self).tick_interval_msecs,
            final (self).menu == old(self).menu,
            final (self).last_refresh_ms == old(self).last_refresh_ms,
            match body {
                None => final (self).data == old(self).data && final (self).log_buffer.history()
                    == old(self).log_buffer.history().push(
                    spec_log_line(QueryError::TransportError),
                ),
                Some(b) => match spec_refresh_outcome(b@) {
                    Ok(ss) => sview(final (self).data@) == ss && final (self).log_buffer == old(
                        self,
                    ).log_buffer,
                    Err(e) => final (self).data == old(self).data && final (self).log_buffer.history()
                        == old(self).log_buffer.history().push(spec_log_line(e)),
                },
            },
    {
        match body {
            None => {
                self.log_buffer.emit(QueryError::TransportError.log_line());
            },
            Some(b) => {
                match parse_prom_response(b) {
                    Ok(ss) => {
                        self.data = ss;
                    },
                    Err(e) => {
                        self.log_buffer.emit(e.log_line());
                    },
                }
            },
        }
    }

    /// Dispatch one key. The quit key exits unconditionally, whatever the
    /// menu's state; `enter` exits exactly when it selects the exit item;
    /// the arrow keys and `esc` only move the menu. No key touches the chart
    /// buffer, the log ring, or the polling bookkeeping.
    pub fn handle_key(&mut self, key: Key) -> (r: LoopDirective)
        requires
            old(self).well_formed(),
        ensures
            final (self).well_formed(),
            final (self).config == old(self).config,
            final (self).query == old(self).query,
            final (self).data == old(self).data,
            final (self).tick_interval_msecs == old(self).tick_interval_msecs,
            final (self).log_buffer == old(self).log_buffer,
            final (self).last_refresh_ms == old(self).last_refresh_ms,
            final (self).menu.groups == old(self).menu.groups,
            key == Key::Quit ==> r == LoopDirective::Exit,
            r == LoopDirective::Exit <==> (key == Key::Quit || (key == Key::Enter
                && spec_enter_event(old(self).menu) == Some(MenuAction::Exit))),
            final (self).menu.state == match key {
                Key::Left => spec_after_left(old(self).menu),
                Key::Right => spec_after_right(old(self).menu),
                Key::Up => spec_after_up(old(self).menu),
                Key::Down => spec_after_down(old(self).menu),
                Key::Esc => NavState::Closed,
                Key::Enter => spec_after_enter(old(self).menu),
                Key::Quit => old(self).menu.state,
                Key::Other => old(self).menu.state,
            },
    {
        match key {
            Key::Quit => LoopDirective::Exit,
            Key::Left => {
                self.menu.left();
                LoopDirective::Continue
            },
            Key::Right => {
                self.menu.right();
                LoopDirective::Continue
            },
            Key::Up => {
                self.menu.up();
                LoopDirective::Continue
            },
            Key::Down => {
                self.menu.down();
                LoopDirective::Continue
            },
            Key::Esc => {
                self.menu.esc();
                LoopDirective::Continue
            },
            Key::Enter => {
                match self.menu.enter() {
                    Some(MenuAction::Exit) => LoopDirective::Exit,
                    Some(MenuAction::About) => LoopDirective::Continue,
                    None => LoopDirective::Continue,
                }
            },
            Key::Other => LoopDirective::Continue,
        }
    }
}

} // verus!
