//! The application state and every transition on it: the per-second trigger
//! evaluation under the two scheduling policies, the serialized handling of
//! the four orchestrator events, operator input, and the status, error and
//! log bookkeeping. Each transition is a plain function of the state and the
//! injected values (the current instant, the time texts), so firing decisions
//! are deterministic and stated exactly.

use vstd::prelude::*;
use vstd::string::StringExecFns;
use crate::clock::{Timestamp, next_occurrence, compute_next_occurrence, is_due, now_stamp,
    now_display_text, now_clock_text, lemma_order_is_lexicographic, DAY_SECONDS};
use crate::invoke::{FirstOutcome, first_message, first_call_message};
use crate::logring::{LogRing, appended, max_scroll};

verus! {

/// The scheduling policy: fire once per day at a fixed wall-clock time, or
/// fire whenever a repeating countdown reaches zero.
#[derive(Clone, Copy, Debug, PartialEq, Eq, Structural)]
pub enum AppMode {
    OnTimeMode,
    ClockMode,
}

/// One operator key, as the input listener reads it.
#[derive(Clone, Copy, Debug, PartialEq, Eq, Structural)]
pub enum InputKey {
    Quit,
    ScrollUp,
    ScrollDown,
    JumpTop,
    JumpBottom,
    Other,
}

/// What the orchestrator hands out when a trigger fires: the parameters for
/// exactly one invocation task.
pub struct TriggerRequest {
    pub endpoint: String,
    pub is_first: bool,
    pub json_dir: Option<String>,
}

/// One event on the orchestrator's channel, consumed strictly in arrival
/// order: an operator key, the advisory render tick, a fired trigger, or a
/// finished invocation's log message.
pub enum AppEvent {
    Input(InputKey),
    Tick,
    Triggered(TriggerRequest),
    Completed(String),
}

/// The single mutable record behind the dashboard: scheduling parameters and
/// bookkeeping, the status and error texts, and the bounded log.
pub struct App {
    pub current_time: String,
    pub running: bool,
    pub mode: AppMode,
    pub initial_h: u32,
    pub initial_m: u32,
    pub initial_s: u32,
    pub error_message: Option<String>,
    pub status_message: Option<String>,
    pub api_endpoint: String,
    pub next_trigger_time: Option<Timestamp>,
    pub total_duration: u64,
    pub remaining_duration: u64,
    pub log: LogRing,
    pub viewport_height: usize,
    pub is_first_api_call: bool,
    pub today_json_dir: Option<String>,
}

/// Two optional texts hold the same characters.
pub open spec fn same_opt_text(a: Option<String>, b: Option<String>) -> bool {
    match (a, b) {
        (Option::Some(x), Option::Some(y)) => x@ == y@,
        (Option::None, Option::None) => true,
        _ => false,
    }
}

/// Whether the daily target, stored as `Some(t)`, is due at `now`: due means
/// `t <= now`, so equality counts as due, never skipped. An absent target is
/// never due; it is computed first.
pub open spec fn on_time_fire(next: Option<Timestamp>, now: Timestamp) -> bool {
    match next {
        Option::Some(t) => t.le(now),
        Option::None => false,
    }
}

/// The stored daily target after one evaluation at `now`: computed as the
/// next occurrence when absent, moved exactly one day past the fired target
/// on a fire, and kept otherwise.
pub open spec fn on_time_next(target: u32, next: Option<Timestamp>, now: Timestamp) -> Option<
    Timestamp,
> {
    match next {
        Option::None => Option::Some(next_occurrence(now, target)),
        Option::Some(t) => if t.le(now) {
            Option::Some(t.next_day())
        } else {
            Option::Some(t)
        },
    }
}

/// Whether the countdown fires on this evaluation: it is decremented by one
/// second (floored at zero) and fires when that reaches zero.
pub open spec fn interval_fire(remaining: u64) -> bool {
    remaining <= 1
}

/// The countdown after one evaluation: back to the configured total on a
/// fire, one second less otherwise.
pub open spec fn interval_remaining(total: u64, remaining: u64) -> u64 {
    if remaining <= 1 {
        total
    } else {
        (remaining - 1) as u64
    }
}

/// The fire announcement for each policy.
pub open spec fn fire_text(mode: AppMode) -> Seq<char> {
    match mode {
        AppMode::OnTimeMode => "on-time target reached; invoking endpoint"@,
        AppMode::ClockMode => "countdown reached zero; invoking endpoint"@,
    }
}

/// A timestamped error line.
pub open spec fn error_entry(ts: Seq<char>, msg: Seq<char>) -> Seq<char> {
    ts + ": ERROR: "@ + msg
}

/// A timestamped status line.
pub open spec fn status_entry(ts: Seq<char>, msg: Seq<char>) -> Seq<char> {
    ts + ": "@ + msg
}

/// The log of `post` is the log of `pre` with one line appended whose
/// characters are `line`, the cursor moved by the append rule at `pre`'s
/// viewport height.
pub open spec fn log_appended_line(pre: App, post: App, line: Seq<char>) -> bool {
    &&& exists|e: String| #[trigger] e@ == line && post.log.lines() == appended(pre.log.lines(), e)
    &&& post.log.auto_scroll == pre.log.auto_scroll
    &&& post.log.scroll_offset == if pre.log.auto_scroll {
        max_scroll(post.log.lines().len() as int, pre.viewport_height as int)
    } else {
        pre.log.scroll_offset as int
    }
}

/// The cursor and auto-scroll flag after one operator key, given the cursor,
/// flag, line count and viewport height before it; every key ends re-clamped
/// into the valid range.
pub open spec fn key_scroll_effect(key: InputKey, offset: int, auto: bool, len: int, height: int) -> (
    int,
    bool,
) {
    let m = max_scroll(len, height);
    match key {
        InputKey::ScrollUp => (vstd::math::min(vstd::math::max(offset - 1, 0), m), false),
        InputKey::ScrollDown => (vstd::math::min(offset + 1, m), offset + 1 >= m),
        InputKey::JumpTop => (0int, false),
        InputKey::JumpBottom => (m, true),
        _ => (vstd::math::min(offset, m), auto),
    }
}

impl App {
    /// The daily target as a second of day: `h:m:s` when the triple is a
    /// wall-clock time, midnight as the documented fallback otherwise (in
    /// interval mode the triple is a duration and the target is unused).
    pub open spec fn spec_target_secs(self) -> u32 {
        if self.initial_h < 24 && self.initial_m < 60 && self.initial_s < 60 {
            (self.initial_h * 3600 + self.initial_m * 60 + self.initial_s) as u32
        } else {
            0
        }
    }

    /// At most one of the status and error texts is ever set.
    pub open spec fn messages_exclusive(self) -> bool {
        !(self.status_message is Some && self.error_message is Some)
    }

    /// The scheduler may fire only with an endpoint and an output directory.
    pub open spec fn scheduler_enabled(self) -> bool {
        self.api_endpoint@.len() > 0 && self.today_json_dir is Some
    }

    /// A stored daily target is a meaningful instant, lies within a day of
    /// what the clock can report, and is an occurrence of the configured
    /// target second.
    pub open spec fn trigger_wf(self) -> bool {
        match self.next_trigger_time {
            Option::Some(t) => t.wf() && t.in_target_range() && t.secs == self.spec_target_secs(),
            Option::None => true,
        }
    }

    /// The state invariant: the log is bounded, the two message texts are
    /// mutually exclusive, the countdown never exceeds its total, and the
    /// stored target is well-formed.
    pub open spec fn wf(self) -> bool {
        &&& self.log.wf()
        &&& self.messages_exclusive()
        &&& self.remaining_duration <= self.total_duration
        &&& self.trigger_wf()
    }

    /// Everything except the log and the viewport height is equal.
    pub open spec fn same_but_log(pre: App, post: App) -> bool {
        &&& post.current_time == pre.current_time
        &&& post.running == pre.running
        &&& post.mode == pre.mode
        &&& post.initial_h == pre.initial_h
        &&& post.initial_m == pre.initial_m
        &&& post.initial_s == pre.initial_s
        &&& post.error_message == pre.error_message
        &&& post.status_message == pre.status_message
        &&& post.api_endpoint == pre.api_endpoint
        &&& post.next_trigger_time == pre.next_trigger_time
        &&& post.total_duration == pre.total_duration
        &&& post.remaining_duration == pre.remaining_duration
        &&& post.is_first_api_call == pre.is_first_api_call
        &&& post.today_json_dir == pre.today_json_dir
    }

    /// The scheduling fields are equal.
    pub open spec fn same_scheduling(pre: App, post: App) -> bool {
        &&& post.mode == pre.mode
        &&& post.initial_h == pre.initial_h
        &&& post.initial_m == pre.initial_m
        &&& post.initial_s == pre.initial_s
        &&& post.api_endpoint == pre.api_endpoint
        &&& post.next_trigger_time == pre.next_trigger_time
        &&& post.total_duration == pre.total_duration
        &&& post.remaining_duration == pre.remaining_duration
        &&& post.is_first_api_call == pre.is_first_api_call
        &&& post.today_json_dir == pre.today_json_dir
    }

    /// The display and control fields are equal.
    pub open spec fn same_shell(pre: App, post: App) -> bool {
        &&& post.current_time == pre.current_time
        &&& post.running == pre.running
        &&& post.viewport_height == pre.viewport_height
    }

    /// A fresh state: running, nothing logged, no messages, the countdown
    /// full at `h` hours, `m` minutes and `s` seconds, the first invocation
    /// still pending, and no target computed yet.
    pub fn new(mode: AppMode, h: u32, m: u32, s: u32, api_endpoint: String) -> (r: App)
        ensures
            r.wf(),
            r.current_time@ == Seq::<char>::empty(),
            r.running,
            r.mode == mode,
            r.initial_h == h,
            r.initial_m == m,
            r.initial_s == s,
            r.error_message is None,
            r.status_message is None,
            r.api_endpoint == api_endpoint,
            r.next_trigger_time is None,
            r.total_duration == h as int * 3600 + m as int * 60 + s as int,
            r.remaining_duration == r.total_duration,
            r.log.lines() == Seq::<String>::empty(),
            r.log.scroll_offset == 0,
            r.log.auto_scroll,
            r.viewport_height == 0,
            r.is_first_api_call,
            r.today_json_dir is None,
    {
        let total_duration: u64 = (h as u64) * 3600 + (m as u64) * 60 + (s as u64);
        App {
            current_time: String::new(),
            running: true,
            mode,
            initial_h: h,
            initial_m: m,
            initial_s: s,
            error_message: None,
            status_message: None,
            api_endpoint,
            next_trigger_time: None,
            total_duration,
            remaining_duration: total_duration,
            log: LogRing::new(),
            viewport_height: 0,
            is_first_api_call: true,
            today_json_dir: None,
        }
    }

    /// The daily target as a second of day, executable form.
    pub fn target_secs(&self) -> (r: u32)
        ensures
            r == self.spec_target_secs(),
            r < DAY_SECONDS,
    {
        if self.initial_h < 24 && self.initial_m < 60 && self.initial_s < 60 {
            self.initial_h * 3600 + self.initial_m * 60 + self.initial_s
        } else {
            0
        }
    }

    /// Replace the displayed current-time text; nothing else moves.
    pub fn set_current_time(&mut self, text: String)
        requires
            old(self).wf(),
        ensures
            final(self).wf(),
            *final(self) == (App { current_time: text, ..*old(self) }),
    {
        self.current_time = text;
    }

    /// Refresh the displayed current-time text from the wall clock; nothing
    /// else moves.
    pub fn update_time(&mut self)
        requires
            old(self).wf(),
        ensures
            final(self).wf(),
            *final(self) == (App { current_time: final(self).current_time, ..*old(self) }),
    {
        let text = now_display_text();
        self.set_current_time(text);
    }

    /// Append one line to the log under the ring's append rule, at the
    /// stored viewport height; no other field moves.
    pub fn add_log(&mut self, log_entry: String)
        requires
            old(self).wf(),
        ensures
            final(self).wf(),
            App::same_but_log(*old(self), *final(self)),
            final(self).viewport_height == old(self).viewport_height,
            final(self).log.lines() == appended(old(self).log.lines(), log_entry),
            log_appended_line(*old(self), *final(self), log_entry@),
    {
        let height = self.viewport_height;
        self.log.append(log_entry, height);
    }

    /// Log a timestamped error line and make `message` the shown error; the
    /// status text is cleared, keeping the two mutually exclusive.
    pub fn set_error_at(&mut self, ts: String, message: String)
        requires
            old(self).wf(),
        ensures
            final(self).wf(),
            App::same_scheduling(*old(self), *final(self)),
            final(self).current_time == old(self).current_time,
            final(self).running == old(self).running,
            final(self).viewport_height == old(self).viewport_height,
            final(self).error_message == Some(message),
            final(self).status_message is None,
            log_appended_line(*old(self), *final(self), error_entry(ts@, message@)),
    {
        let mut log_entry = ts;
        log_entry.append(": ERROR: ");
        log_entry.append(message.as_str());
        self.add_log(log_entry);
        self.error_message = Some(message);
        self.status_message = None;
    }

    /// Log a timestamped status line and make `message` the shown status;
    /// the error text is cleared, keeping the two mutually exclusive.
    pub fn set_status_at(&mut self, ts: String, message: String)
        requires
            old(self).wf(),
        ensures
            final(self).wf(),
            App::same_scheduling(*old(self), *final(self)),
            final(self).current_time == old(self).current_time,
            final(self).running == old(self).running,
            final(self).viewport_height == old(self).viewport_height,
            final(self).status_message == Some(message),
            final(self).error_message is None,
            log_appended_line(*old(self), *final(self), status_entry(ts@, message@)),
    {
        let mut log_entry = ts;
        log_entry.append(": ");
        log_entry.append(message.as_str());
        self.add_log(log_entry);
        self.status_message = Some(message);
        self.error_message = None;
    }

    /// Log and show an error, timestamped with the wall clock.
    pub fn set_error(&mut self, message: String)
        requires
            old(self).wf(),
        ensures
            final(self).wf(),
            App::same_scheduling(*old(self), *final(self)),
            final(self).current_time == old(self).current_time,
            final(self).running == old(self).running,
            final(self).viewport_height == old(self).viewport_height,
            final(self).error_message == Some(message),
            final(self).status_message is None,
            exists|ts: Seq<char>|
                ts.len() == 8 && #[trigger] log_appended_line(
                    *old(self),
                    *final(self),
                    error_entry(ts, message@),
                ),
    {
        let ts = now_clock_text();
        self.set_error_at(ts, message);
    }

    /// Log and show a status, timestamped with the wall clock.
    pub fn set_status_message(&mut self, message: String)
        requires
            old(self).wf(),
        ensures
            final(self).wf(),
            App::same_scheduling(*old(self), *final(self)),
            final(self).current_time == old(self).current_time,
            final(self).running == old(self).running,
            final(self).viewport_height == old(self).viewport_height,
            final(self).status_message == Some(message),
            final(self).error_message is None,
            exists|ts: Seq<char>|
                ts.len() == 8 && #[trigger] log_appended_line(
                    *old(self),
                    *final(self),
                    status_entry(ts, message@),
                ),
    {
        let ts = now_clock_text();
        self.set_status_at(ts, message);
    }

    /// Store the next occurrence of the daily target strictly after `now`;
    /// nothing else moves.
    pub fn set_next_trigger_from(&mut self, now: Timestamp)
        requires
            old(self).wf(),
            now.wf(),
            now.in_clock_range(),
        ensures
            final(self).wf(),
            *final(self) == (App {
                next_trigger_time: Some(next_occurrence(now, old(self).spec_target_secs())),
                ..*old(self)
            }),
    {
        let target = self.target_secs();
        let next = compute_next_occurrence(now, target);
        self.next_trigger_time = Some(next);
    }

    /// Store the next occurrence of the daily target strictly after the
    /// wall-clock now; nothing else moves.
    pub fn set_next_trigger_time(&mut self)
        requires
            old(self).wf(),
        ensures
            final(self).wf(),
            final(self).next_trigger_time matches Some(t) && t.wf() && t.in_target_range()
                && t.secs == old(self).spec_target_secs(),
            *final(self) == (App {
                next_trigger_time: final(self).next_trigger_time,
                ..*old(self)
            }),
    {
        let now = now_stamp();
        self.set_next_trigger_from(now);
    }

    /// Refill the countdown to its configured total.
    pub fn reset_timer(&mut self)
        requires
            old(self).wf(),
        ensures
            final(self).wf(),
            *final(self) == (App { remaining_duration: old(self).total_duration, ..*old(self) }),
    {
        self.remaining_duration = self.total_duration;
    }

    /// Take one second off the countdown, floored at zero.
    pub fn decrement_timer(&mut self)
        requires
            old(self).wf(),
        ensures
            final(self).wf(),
            *final(self) == (App {
                remaining_duration: if old(self).remaining_duration > 0 {
                    (old(self).remaining_duration - 1) as u64
                } else {
                    0u64
                },
                ..*old(self)
            }),
    {
        if self.remaining_duration > 0 {
            self.remaining_duration = self.remaining_duration - 1;
        }
    }

    /// One evaluation of the trigger engine at `now`, touching scheduling
    /// fields only. On-time: an absent target is computed (never an
    /// immediate fire); a present one fires exactly when due, and then moves
    /// exactly one day forward. Interval: the countdown loses one second and
    /// fires when it reaches zero, refilling to the total.
    pub fn evaluate(&mut self, now: Timestamp) -> (fire: bool)
        requires
            old(self).wf(),
            now.wf(),
            now.in_clock_range(),
        ensures
            final(self).wf(),
            old(self).mode == AppMode::OnTimeMode ==> {
                &&& fire == on_time_fire(old(self).next_trigger_time, now)
                &&& *final(self) == (App {
                    next_trigger_time: on_time_next(
                        old(self).spec_target_secs(),
                        old(self).next_trigger_time,
                        now,
                    ),
                    ..*old(self)
                })
            },
            old(self).mode == AppMode::ClockMode ==> {
                &&& fire == interval_fire(old(self).remaining_duration)
                &&& *final(self) == (App {
                    remaining_duration: interval_remaining(
                        old(self).total_duration,
                        old(self).remaining_duration,
                    ),
                    ..*old(self)
                })
            },
    {
        match self.mode {
            AppMode::OnTimeMode => {
                match self.next_trigger_time {
                    None => {
                        let target = self.target_secs();
                        let next = compute_next_occurrence(now, target);
                        self.next_trigger_time = Some(next);
                        false
                    },
                    Some(t) => {
                        if is_due(now, t) {
                            proof {
                                lemma_order_is_lexicographic(t, now);
                            }
                            self.next_trigger_time = Some(
                                Timestamp { days: t.days + 1, secs: t.secs },
                            );
                            true
                        } else {
                            false
                        }
                    },
                }
            },
            AppMode::ClockMode => {
                self.decrement_timer();
                if self.remaining_duration == 0 {
                    self.reset_timer();
                    true
                } else {
                    false
                }
            },
        }
    }

    /// Handle one operator key at the given viewport height: the quit key
    /// stops the loop, the four scroll keys move the cursor by the scroll
    /// rules, any other key only re-clamps; the height is remembered for
    /// later appends. Scheduling fields, messages and the stored lines never
    /// move.
    pub fn handle_event(&mut self, key: InputKey, log_display_height: u16)
        requires
            old(self).wf(),
        ensures
            final(self).wf(),
            App::same_scheduling(*old(self), *final(self)),
            final(self).status_message == old(self).status_message,
            final(self).error_message == old(self).error_message,
            final(self).current_time == old(self).current_time,
            final(self).viewport_height == log_display_height as usize,
            final(self).running == (if key == InputKey::Quit {
                false
            } else {
                old(self).running
            }),
            final(self).log.lines() == old(self).log.lines(),
            (final(self).log.scroll_offset as int, final(self).log.auto_scroll)
                == key_scroll_effect(
                key,
                old(self).log.scroll_offset as int,
                old(self).log.auto_scroll,
                old(self).log.lines().len() as int,
                log_display_height as int,
            ),
    {
        let height = log_display_height as usize;
        self.viewport_height = height;
        match key {
            InputKey::Quit => {
                self.running = false;
                self.log.clamp_only(height);
            },
            InputKey::ScrollUp => {
                self.log.scroll_up(height);
            },
            InputKey::ScrollDown => {
                self.log.scroll_down(height);
            },
            InputKey::JumpTop => {
                self.log.jump_top();
            },
            InputKey::JumpBottom => {
                self.log.jump_bottom(height);
            },
            InputKey::Other => {
                self.log.clamp_only(height);
            },
        }
    }

    /// Re-clamp the log cursor for the viewport height the renderer just
    /// measured, and remember that height: with auto-scroll the cursor
    /// tracks the bottom, without it it is only clamped into range.
    /// Idempotent for a fixed height; nothing else moves.
    pub fn reclamp_log(&mut self, log_display_height: u16)
        requires
            old(self).wf(),
        ensures
            final(self).wf(),
            App::same_scheduling(*old(self), *final(self)),
            final(self).status_message == old(self).status_message,
            final(self).error_message == old(self).error_message,
            final(self).current_time == old(self).current_time,
            final(self).running == old(self).running,
            final(self).viewport_height == log_display_height as usize,
            final(self).log.lines() == old(self).log.lines(),
            final(self).log.auto_scroll == old(self).log.auto_scroll,
            final(self).log.scroll_offset == if old(self).log.auto_scroll {
                max_scroll(old(self).log.lines().len() as int, log_display_height as int)
            } else {
                vstd::math::min(
                    old(self).log.scroll_offset as int,
                    max_scroll(old(self).log.lines().len() as int, log_display_height as int),
                )
            },
    {
        let height = log_display_height as usize;
        self.viewport_height = height;
        self.log.reclamp(height);
    }

    /// The ticker's atomic unit at `now`: refresh the current-time text
    /// (always), and when the scheduler is enabled and the first invocation
    /// is no longer pending, run one trigger evaluation. A fire logs a
    /// timestamped announcement and hands out exactly one request, never
    /// marked first; otherwise nothing is handed out. The first invocation
    /// is never fired here.
    pub fn tick(&mut self, now: Timestamp, now_text: String, ts_text: String) -> (r: Option<
        TriggerRequest,
    >)
        requires
            old(self).wf(),
            now.wf(),
            now.in_clock_range(),
        ensures
            final(self).wf(),
            final(self).current_time == now_text,
            final(self).running == old(self).running,
            final(self).viewport_height == old(self).viewport_height,
            final(self).is_first_api_call == old(self).is_first_api_call,
            final(self).mode == old(self).mode,
            final(self).initial_h == old(self).initial_h,
            final(self).initial_m == old(self).initial_m,
            final(self).initial_s == old(self).initial_s,
            final(self).api_endpoint == old(self).api_endpoint,
            final(self).today_json_dir == old(self).today_json_dir,
            final(self).total_duration == old(self).total_duration,
            !(old(self).scheduler_enabled() && !old(self).is_first_api_call) ==> (r is None
                && *final(self) == (App { current_time: now_text, ..*old(self) })),
            (old(self).scheduler_enabled() && !old(self).is_first_api_call) ==> {
                let fired = if old(self).mode == AppMode::OnTimeMode {
                    on_time_fire(old(self).next_trigger_time, now)
                } else {
                    interval_fire(old(self).remaining_duration)
                };
                &&& final(self).next_trigger_time == (if old(self).mode == AppMode::OnTimeMode {
                    on_time_next(
                        old(self).spec_target_secs(),
                        old(self).next_trigger_time,
                        now,
                    )
                } else {
                    old(self).next_trigger_time
                })
                &&& final(self).remaining_duration == (if old(self).mode == AppMode::ClockMode {
                    interval_remaining(old(self).total_duration, old(self).remaining_duration)
                } else {
                    old(self).remaining_duration
                })
                &&& !fired ==> (r is None && *final(self) == (App {
                    current_time: now_text,
                    next_trigger_time: final(self).next_trigger_time,
                    remaining_duration: final(self).remaining_duration,
                    ..*old(self)
                }))
                &&& fired ==> {
                    &&& r matches Some(req) && req.endpoint@ == old(self).api_endpoint@
                        && !req.is_first && same_opt_text(req.json_dir, old(self).today_json_dir)
                    &&& final(self).status_message matches Some(m) && m@ == fire_text(
                        old(self).mode,
                    )
                    &&& final(self).error_message is None
                    &&& log_appended_line(
                        *old(self),
                        *final(self),
                        status_entry(ts_text@, fire_text(old(self).mode)),
                    )
                }
            },
    {
        self.set_current_time(now_text);
        let enabled = !self.api_endpoint.as_str().is_empty() && self.today_json_dir.is_some();
        if enabled && !self.is_first_api_call {
            let fire = self.evaluate(now);
            if fire {
                let msg: String = match self.mode {
                    AppMode::OnTimeMode => "on-time target reached; invoking endpoint".to_owned(),
                    AppMode::ClockMode => "countdown reached zero; invoking endpoint".to_owned(),
                };
                self.set_status_at(ts_text, msg);
                let json_dir: Option<String> = match &self.today_json_dir {
                    Some(d) => Some(d.clone()),
                    None => None,
                };
                Some(
                    TriggerRequest {
                        endpoint: self.api_endpoint.clone(),
                        is_first: false,
                        json_dir,
                    },
                )
            } else {
                None
            }
        } else {
            None
        }
    }

    /// Apply one orchestrator event, in arrival order: an operator key goes
    /// to the input rules; the render tick moves nothing; a fired trigger is
    /// handed back as the one invocation to spawn; a completed invocation's
    /// message is appended to the log — the only path by which invocation
    /// outcomes reach it.
    pub fn apply_event(&mut self, event: AppEvent, log_display_height: u16) -> (r: Option<
        TriggerRequest,
    >)
        requires
            old(self).wf(),
        ensures
            final(self).wf(),
            match event {
                AppEvent::Input(key) => {
                    &&& r is None
                    &&& App::same_scheduling(*old(self), *final(self))
                    &&& final(self).status_message == old(self).status_message
                    &&& final(self).error_message == old(self).error_message
                    &&& final(self).log.lines() == old(self).log.lines()
                    &&& final(self).running == (if key == InputKey::Quit {
                        false
                    } else {
                        old(self).running
                    })
                    &&& (final(self).log.scroll_offset as int, final(self).log.auto_scroll)
                        == key_scroll_effect(
                        key,
                        old(self).log.scroll_offset as int,
                        old(self).log.auto_scroll,
                        old(self).log.lines().len() as int,
                        log_display_height as int,
                    )
                },
                AppEvent::Tick => r is None && *final(self) == *old(self),
                AppEvent::Triggered(req) => r == Some(req) && *final(self) == *old(self),
                AppEvent::Completed(msg) => {
                    &&& r is None
                    &&& App::same_but_log(*old(self), *final(self))
                    &&& log_appended_line(*old(self), *final(self), msg@)
                },
            },
    {
        match event {
            AppEvent::Input(key) => {
                self.handle_event(key, log_display_height);
                None
            },
            AppEvent::Tick => None,
            AppEvent::Triggered(req) => Some(req),
            AppEvent::Completed(msg) => {
                self.add_log(msg);
                None
            },
        }
    }

    /// Handle the completion of the one-time first invocation: whatever the
    /// outcome, the first-invocation flag comes down — it comes down here
    /// and nowhere else, so it is true for exactly the first completion. A
    /// response became the shown status, a transport failure the shown
    /// error, each logged with its timestamp; the returned text is the log
    /// line for the orchestrator's completion event.
    pub fn complete_first_invocation(&mut self, outcome: &FirstOutcome, ts: String) -> (msg:
        String)
        requires
            old(self).wf(),
            old(self).is_first_api_call,
        ensures
            final(self).wf(),
            !final(self).is_first_api_call,
            msg@ == first_message(*outcome),
            final(self).current_time == old(self).current_time,
            final(self).running == old(self).running,
            final(self).viewport_height == old(self).viewport_height,
            final(self).mode == old(self).mode,
            final(self).next_trigger_time == old(self).next_trigger_time,
            final(self).total_duration == old(self).total_duration,
            final(self).remaining_duration == old(self).remaining_duration,
            final(self).api_endpoint == old(self).api_endpoint,
            final(self).today_json_dir == old(self).today_json_dir,
            outcome is Status ==> (final(self).status_message matches Some(m) && m@
                == first_message(*outcome)) && final(self).error_message is None
                && log_appended_line(
                *old(self),
                *final(self),
                status_entry(ts@, first_message(*outcome)),
            ),
            outcome is Transport ==> (final(self).error_message matches Some(m) && m@
                == first_message(*outcome)) && final(self).status_message is None
                && log_appended_line(
                *old(self),
                *final(self),
                error_entry(ts@, first_message(*outcome)),
            ),
    {
        let msg = first_call_message(outcome);
        let shown = msg.clone();
        match outcome {
            FirstOutcome::Status(_) => {
                self.set_status_at(ts, shown);
            },
            FirstOutcome::Transport(_) => {
                self.set_error_at(ts, shown);
            },
        }
        self.is_first_api_call = false;
        msg
    }
}

/// In any well-formed state the status and error texts are never both set:
/// no single transition leaves both shown.
pub proof fn lemma_messages_exclusive(a: App)
    requires
        a.wf(),
    ensures
        !(a.status_message is Some && a.error_message is Some),
{
}

/// A fire of the daily target `t` stores exactly `t` plus one day, a
/// strictly later instant, so no two fires are ever for the same target:
/// each fire strictly increases the stored target.
pub proof fn lemma_on_time_fire_advances(target: u32, t: Timestamp, now: Timestamp)
    requires
        t.wf(),
        t.in_target_range(),
        on_time_fire(Some(t), now),
    ensures
        on_time_next(target, Some(t), now) == Some(t.next_day()),
        t.next_day().as_seconds() == t.as_seconds() + DAY_SECONDS,
        t.next_day().as_seconds() > t.as_seconds(),
{
}

/// Between fires the countdown is monotonically non-increasing and never
/// negative; a fire refills it to exactly the configured total.
pub proof fn lemma_interval_countdown(total: u64, remaining: u64)
    ensures
        !interval_fire(remaining) ==> interval_remaining(total, remaining) < remaining,
        interval_fire(remaining) ==> interval_remaining(total, remaining) == total,
        interval_remaining(total, remaining) >= 0,
{
}

} // verus!
