use vstd::prelude::*;
use crate::api::RoomInfo;
use crate::messages::MsgType;
use crate::phase::{phase_step, toggled, AppState, PhaseEvent, SliderBarState};
use crate::text::{decimal, push_char, push_decimal, push_two_digits, two_digits};

verus! {

/// The wall-clock time written in `s` as `YYYY-MM-DD HH:MM:SS`, in seconds
/// since 1970-01-01 00:00:00, or `None` where `s` does not read as one.
pub uninterp spec fn parsed_live_time(s: Seq<char>) -> Option<i64>;

/// Relies on chrono's `NaiveDateTime::parse_from_str` with the pattern
/// `%Y-%m-%d %H:%M:%S`, and on `DateTime::timestamp` to count the seconds.
#[verifier::external_body]
fn parse_live_time(text: &str) -> (r: Option<i64>)
    ensures
        r == parsed_live_time(text@),
{
    match chrono::NaiveDateTime::parse_from_str(text, "%Y-%m-%d %H:%M:%S") {
        Ok(t) => Some(t.and_utc().timestamp()),
        Err(_) => None,
    }
}

/// The room as the client knows it: metadata, counters, the phase, the
/// sidebar toggle, the viewer's credential and the append-only event log.
/// `start_time` counts seconds since 1970-01-01 00:00:00 on the room's clock.
#[derive(Clone, Debug)]
pub struct TuiState {
    pub cookie: Option<String>,
    pub slider_bar_state: SliderBarState,
    pub state: AppState,
    pub room_id: u32,
    pub attention: u32,
    pub watchers: u32,
    pub is_live: bool,
    pub start_time: i64,
    pub area_name: String,
    pub parent_area_name: String,
    pub title: String,
    pub messages: Vec<(MsgType, String)>,
}

impl TuiState {
    /// The state after a metadata refresh from `info`, with `start` the
    /// parsed start time; an unreadable start time counts as the epoch.
    pub open spec fn with_info(self, info: RoomInfo, start: Option<i64>) -> TuiState {
        TuiState {
            area_name: info.area_name,
            parent_area_name: info.parent_area_name,
            title: info.title,
            attention: info.attention,
            is_live: info.live_status == 1,
            start_time: match start {
                Some(t) => t,
                None => 0,
            },
            watchers: info.online,
            ..self
        }
    }

    pub open spec fn with_phase(self, state: AppState) -> TuiState {
        TuiState { state, ..self }
    }

    pub fn new(room_id: u32, cookie: Option<String>) -> (r: TuiState)
        ensures
            r.room_id == room_id,
            r.cookie == cookie,
            r.slider_bar_state == SliderBarState::Hiding,
            r.state == AppState::Running,
            r.attention == 0,
            r.watchers == 0,
            !r.is_live,
            r.start_time == 0,
            r.area_name@ == Seq::<char>::empty(),
            r.parent_area_name@ == Seq::<char>::empty(),
            r.title@ == Seq::<char>::empty(),
            r.messages@ == Seq::<(MsgType, String)>::empty(),
    {
        TuiState {
            cookie,
            slider_bar_state: SliderBarState::Hiding,
            state: AppState::Running,
            room_id,
            attention: 0,
            watchers: 0,
            is_live: false,
            start_time: 0,
            area_name: String::new(),
            parent_area_name: String::new(),
            title: String::new(),
            messages: Vec::new(),
        }
    }

    /// Asks to quit: running asks for confirmation, a second request quits,
    /// and once quit nothing changes.
    pub fn quit(&mut self)
        ensures
            *final(self) == old(self).with_phase(phase_step(old(self).state, PhaseEvent::QuitRequest)),
    {
        self.state = self.state.step(PhaseEvent::QuitRequest);
    }

    /// Confirms a pending quit.
    pub fn confirm_quit(&mut self)
        ensures
            *final(self) == old(self).with_phase(phase_step(old(self).state, PhaseEvent::Confirm)),
    {
        self.state = self.state.step(PhaseEvent::Confirm);
    }

    /// Withdraws a pending quit.
    pub fn cancel_quit(&mut self)
        ensures
            *final(self) == old(self).with_phase(phase_step(old(self).state, PhaseEvent::Cancel)),
    {
        self.state = self.state.step(PhaseEvent::Cancel);
    }

    /// Ends the session from outside, whatever the phase.
    pub fn stop(&mut self)
        ensures
            *final(self) == old(self).with_phase(AppState::Quit),
    {
        self.state = AppState::Quit;
    }

    /// Replaces the room metadata and both counters from `info`, taking
    /// `start_time` as the start time already read from `info.live_time`.
    pub fn apply_info(&mut self, info: RoomInfo, start_time: Option<i64>)
        ensures
            *final(self) == old(self).with_info(info, start_time),
    {
        self.area_name = info.area_name;
        self.parent_area_name = info.parent_area_name;
        self.title = info.title;
        self.attention = info.attention;
        self.is_live = info.live_status == 1;
        self.start_time = match start_time {
            Some(t) => t,
            None => 0,
        };
        self.watchers = info.online;
    }

    /// Replaces the room metadata and both counters from `info`; a start time
    /// that does not read as `YYYY-MM-DD HH:MM:SS` becomes the epoch and
    /// holds back nothing else.
    pub fn update_info(&mut self, info: RoomInfo)
        ensures
            *final(self) == old(self).with_info(info, parsed_live_time(info.live_time@)),
    {
        let start_time = parse_live_time(info.live_time.as_str());
        self.apply_info(info, start_time);
    }

    pub fn update_attention(&mut self, attention: u32)
        ensures
            *final(self) == (TuiState { attention, ..*old(self) }),
    {
        self.attention = attention;
    }

    pub fn update_watcher(&mut self, watcher: u32)
        ensures
            *final(self) == (TuiState { watchers: watcher, ..*old(self) }),
    {
        self.watchers = watcher;
    }

    pub fn update_live(&mut self, live: bool)
        ensures
            *final(self) == (TuiState { is_live: live, ..*old(self) }),
    {
        self.is_live = live;
    }

    /// Shows or hides the tab list.
    pub fn toggle_slider_bar(&mut self)
        ensures
            *final(self) == (TuiState {
                slider_bar_state: toggled(old(self).slider_bar_state),
                ..*old(self)
            }),
    {
        self.slider_bar_state = self.slider_bar_state.toggle();
    }

    /// Appends a record to the event log.
    pub fn append_event(&mut self, t: MsgType, payload: String)
        ensures
            final(self).messages@ == old(self).messages@.push((t, payload)),
            *final(self) == (TuiState { messages: final(self).messages, ..*old(self) }),
    {
        self.messages.push((t, payload));
    }

    pub fn has_cookie(&self) -> (r: bool)
        ensures
            r == self.cookie is Some,
    {
        self.cookie.is_some()
    }
}

/// `secs` seconds as `M:SS`, or `H:MM:SS` from one hour on.
pub open spec fn duration_text(secs: nat) -> Seq<char> {
    let hours = secs / 3600;
    let minutes = (secs % 3600) / 60;
    let seconds = secs % 60;
    if hours > 0 {
        decimal(hours) + seq![':'] + two_digits(minutes) + seq![':'] + two_digits(seconds)
    } else {
        decimal(minutes) + seq![':'] + two_digits(seconds)
    }
}

/// Seconds from `start_time` to `now`, none when `now` comes first.
pub open spec fn elapsed(start_time: i64, now: i64) -> nat {
    if now > start_time {
        (now - start_time) as nat
    } else {
        0
    }
}

/// How long the room has been live at `now`, both times in seconds on the
/// room's clock.
pub fn format_duration(start_time: i64, now: i64) -> (r: String)
    ensures
        r@ == duration_text(elapsed(start_time, now)),
{
    let secs: u64 = if now > start_time {
        ((now as i128) - (start_time as i128)) as u64
    } else {
        0
    };
    let hours = secs / 3600;
    let minutes = (secs % 3600) / 60;
    let seconds = secs % 60;
    let mut r = String::new();
    if hours > 0 {
        push_decimal(&mut r, hours);
        push_char(&mut r, ':');
        push_two_digits(&mut r, minutes);
    } else {
        push_decimal(&mut r, minutes);
    }
    push_char(&mut r, ':');
    push_two_digits(&mut r, seconds);
    assert(r@ =~= duration_text(elapsed(start_time, now)));
    r
}

} // verus!
