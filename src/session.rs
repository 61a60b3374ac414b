//! The interactive session: the snapshot list on screen, its selection, the
//! input mode, and the status notification that expires after a while.
//!
//! Store operations are performed by the caller between two steps of the
//! session: the session names the snapshot to work on (`selected_config`,
//! `confirm_save`, `pending_update_config`), the caller performs the operation,
//! and hands its outcome back, with a fresh listing where the operation changed
//! the directory. Times are milliseconds of a clock that never goes backwards.

use crate::names::{blank, ensure_conf_extension, is_blank, with_conf_suffix};
use crate::store::{ConfigManager, StoreError, StoreFault};
use vstd::prelude::*;

verus! {

/// How long a notification stays before the default text returns, in milliseconds.
pub const NOTIFICATION_MILLIS: u64 = 5000;

/// What the keyboard currently drives.
#[derive(Clone, Copy, Debug, PartialEq, Eq, Structural)]
pub enum InputMode {
    /// Browsing the list.
    Normal,
    /// Typing the name of a new snapshot.
    Saving,
    /// Asked whether to overwrite a snapshot with the live file.
    UpdateConfirm,
}

/// The mathematical value of a session.
pub struct SessionView {
    pub configs: Seq<Seq<char>>,
    pub selected: Option<int>,
    pub mode: InputMode,
    pub buffer: Seq<char>,
    pub pending: Option<Seq<char>>,
    pub status: Seq<char>,
    pub status_time: Option<u64>,
    pub default_status: Seq<char>,
}

/// The names of a listing.
pub open spec fn names_view(v: Seq<String>) -> Seq<Seq<char>> {
    v.map_values(|s: String| s@)
}

/// The mathematical value of an outcome that brings no listing.
pub open spec fn done_view(r: Result<(), StoreError>) -> Result<(), StoreFault> {
    match r {
        Ok(()) => Ok(()),
        Err(e) => Err(e@),
    }
}

/// The mathematical value of an outcome that brings the store reopened.
pub open spec fn relisted_view(r: Result<ConfigManager, StoreError>) -> Result<
    Seq<Seq<char>>,
    StoreFault,
> {
    match r {
        Ok(m) => Ok(names_view(m.configs@)),
        Err(e) => Err(e@),
    }
}

/// The text shown when nothing else is to be said.
pub open spec fn default_status_text() -> Seq<char> {
    "use j/k to navigate, enter to apply config, s to save current, u to update existing, d to delete, q to quit"@
}

/// The text that reports a failed store operation.
pub open spec fn error_text(f: StoreFault) -> Seq<char> {
    "- error: "@ + f.message()
}

/// The selection that keeps index `i` where the new list still has it, else
/// the new last index, else none.
pub open spec fn clamp_selection(i: int, len: int) -> Option<int> {
    if len == 0 {
        None
    } else if i >= len {
        Some(len - 1)
    } else {
        Some(i)
    }
}

impl SessionView {
    /// The selection points into the list, and is empty only for an empty list;
    /// a snapshot awaits confirmation exactly while confirming; the name buffer
    /// holds text only while a name is typed.
    pub open spec fn wf(self) -> bool {
        &&& (self.selected is None <==> self.configs.len() == 0)
        &&& (self.selected matches Some(i) ==> 0 <= i < self.configs.len())
        &&& (self.pending is Some <==> self.mode == InputMode::UpdateConfirm)
        &&& (self.mode != InputMode::Saving ==> self.buffer.len() == 0)
    }

    /// The status shows `text`, set at `now`.
    pub open spec fn notify(self, text: Seq<char>, now: u64) -> SessionView {
        SessionView { status: text, status_time: Some(now), ..self }
    }

    /// The check made once per turn of the interaction loop: a notification set
    /// at least `NOTIFICATION_MILLIS` before `now` gives way to the default text.
    pub open spec fn tick(self, now: u64) -> SessionView {
        match self.status_time {
            Some(t) => if now - t >= NOTIFICATION_MILLIS {
                SessionView { status: self.default_status, status_time: None, ..self }
            } else {
                self
            },
            None => self,
        }
    }

    /// Select the next snapshot, wrapping from the last to the first.
    pub open spec fn next(self) -> SessionView {
        if self.configs.len() == 0 {
            self
        } else {
            let i = match self.selected {
                Some(i) => if i >= self.configs.len() - 1 {
                    0
                } else {
                    i + 1
                },
                None => 0,
            };
            SessionView { selected: Some(i), ..self }
        }
    }

    /// Select the previous snapshot, wrapping from the first to the last.
    pub open spec fn previous(self) -> SessionView {
        if self.configs.len() == 0 {
            self
        } else {
            let i = match self.selected {
                Some(i) => if i == 0 {
                    self.configs.len() - 1
                } else {
                    i - 1
                },
                None => 0,
            };
            SessionView { selected: Some(i), ..self }
        }
    }

    /// `next` done `k` times.
    pub open spec fn next_n(self, k: nat) -> SessionView
        decreases k,
    {
        if k == 0 {
            self
        } else {
            self.next_n((k - 1) as nat).next()
        }
    }

    /// `previous` done `k` times.
    pub open spec fn previous_n(self, k: nat) -> SessionView
        decreases k,
    {
        if k == 0 {
            self
        } else {
            self.previous_n((k - 1) as nat).previous()
        }
    }

    /// The snapshot under the selection, if any.
    pub open spec fn selected_name(self) -> Option<Seq<char>> {
        match self.selected {
            Some(i) => Some(self.configs[i]),
            None => None,
        }
    }

    /// After an attempt to apply the selected snapshot.
    pub open spec fn applied(self, outcome: Result<(), StoreFault>, now: u64) -> SessionView {
        match self.selected_name() {
            None => self,
            Some(n) => match outcome {
                Ok(()) => self.notify("+ applied config: "@ + n, now),
                Err(e) => self.notify(error_text(e), now),
            },
        }
    }

    /// After an attempt to delete the selected snapshot and reopen the store.
    pub open spec fn deleted(self, outcome: Result<Seq<Seq<char>>, StoreFault>, now: u64) -> SessionView {
        match self.selected {
            None => self,
            Some(i) => match outcome {
                Ok(list) => SessionView {
                    configs: list,
                    selected: clamp_selection(i, list.len() as int),
                    ..self
                }.notify("+ deleted config: "@ + self.configs[i], now),
                Err(e) => self.notify(error_text(e), now),
            },
        }
    }

    /// Begin typing the name of a new snapshot.
    pub open spec fn begin_save(self) -> SessionView {
        if self.mode != InputMode::Normal {
            self
        } else {
            SessionView {
                mode: InputMode::Saving,
                buffer: Seq::empty(),
                status: "enter config name (without .conf): "@,
                ..self
            }
        }
    }

    /// A character typed into the name.
    pub open spec fn typed(self, c: char) -> SessionView {
        if self.mode != InputMode::Saving {
            self
        } else {
            SessionView { buffer: self.buffer.push(c), ..self }
        }
    }

    /// The last character of the name erased.
    pub open spec fn erased(self) -> SessionView {
        if self.mode != InputMode::Saving || self.buffer.len() == 0 {
            self
        } else {
            SessionView { buffer: self.buffer.drop_last(), ..self }
        }
    }

    /// The typed name submitted, `blank` telling whether it trims to nothing:
    /// back to browsing, with an error where the name is blank.
    pub open spec fn submitted(self, blank: bool, now: u64) -> SessionView {
        if self.mode != InputMode::Saving {
            self
        } else {
            let back = SessionView { mode: InputMode::Normal, buffer: Seq::empty(), ..self };
            if blank {
                back.notify("- error: name cannot be empty"@, now)
            } else {
                back
            }
        }
    }

    /// The name under which a submitted name is saved.
    pub open spec fn save_target(self, blank: bool) -> Option<Seq<char>> {
        if self.mode != InputMode::Saving || blank {
            None
        } else {
            Some(with_conf_suffix(self.buffer))
        }
    }

    /// Typing abandoned: back to browsing, with the default text.
    pub open spec fn cancelled_save(self) -> SessionView {
        if self.mode != InputMode::Saving {
            self
        } else {
            SessionView {
                mode: InputMode::Normal,
                buffer: Seq::empty(),
                status: self.default_status,
                status_time: None,
                ..self
            }
        }
    }

    /// After an attempt to save the live file as `name` and reopen the store.
    pub open spec fn saved(
        self,
        name: Seq<char>,
        outcome: Result<Seq<Seq<char>>, StoreFault>,
        now: u64,
    ) -> SessionView {
        match outcome {
            Ok(list) => SessionView {
                configs: list,
                selected: if list.len() == 0 {
                    None
                } else {
                    Some(0)
                },
                ..self
            }.notify("+ saved current config as: "@ + name, now),
            Err(e) => self.notify(error_text(e), now),
        }
    }

    /// Ask to overwrite the selected snapshot.
    pub open spec fn begin_update(self, now: u64) -> SessionView {
        if self.mode != InputMode::Normal {
            self
        } else {
            match self.selected_name() {
                Some(n) => SessionView {
                    mode: InputMode::UpdateConfirm,
                    pending: Some(n),
                    ..self
                },
                None => self.notify("- no config selected to update"@, now),
            }
        }
    }

    /// After an attempt to overwrite the snapshot awaiting confirmation.
    pub open spec fn updated(self, outcome: Result<(), StoreFault>, now: u64) -> SessionView {
        match self.pending {
            None => self,
            Some(n) => {
                let back = SessionView { mode: InputMode::Normal, pending: None, ..self };
                match outcome {
                    Ok(()) => back.notify(
                        "+ updated config '"@ + n + "' with current ~/.tmux.conf"@,
                        now,
                    ),
                    Err(e) => back.notify(error_text(e), now),
                }
            },
        }
    }

    /// The overwrite declined: back to browsing, with the default text.
    pub open spec fn cancelled_update(self) -> SessionView {
        if self.mode != InputMode::UpdateConfirm {
            self
        } else {
            SessionView {
                mode: InputMode::Normal,
                pending: None,
                status: self.default_status,
                status_time: None,
                ..self
            }
        }
    }
}

/// Where `next` stands after `k` steps from index `i`, for `k` up to the length.
proof fn lemma_next_n_selection(v: SessionView, k: nat)
    requires
        v.wf(),
        v.configs.len() > 0,
        k <= v.configs.len(),
    ensures
        v.next_n(k) == (SessionView {
            selected: Some(
                if v.selected->0 + k < v.configs.len() {
                    v.selected->0 + k
                } else {
                    v.selected->0 + k - v.configs.len()
                },
            ),
            ..v
        }),
    decreases k,
{
    if k > 0 {
        lemma_next_n_selection(v, (k - 1) as nat);
    }
}

/// Where `previous` stands after `k` steps from index `i`, for `k` up to the length.
proof fn lemma_previous_n_selection(v: SessionView, k: nat)
    requires
        v.wf(),
        v.configs.len() > 0,
        k <= v.configs.len(),
    ensures
        v.previous_n(k) == (SessionView {
            selected: Some(
                if k <= v.selected->0 {
                    v.selected->0 - k
                } else {
                    v.selected->0 + v.configs.len() - k
                },
            ),
            ..v
        }),
    decreases k,
{
    if k > 0 {
        lemma_previous_n_selection(v, (k - 1) as nat);
    }
}

/// Moving to the next snapshot as many times as the list is long comes back to
/// where it started, and so does moving to the previous one.
pub proof fn lemma_navigation_wraps(v: SessionView)
    requires
        v.wf(),
        v.configs.len() > 0,
    ensures
        v.next_n(v.configs.len()) == v,
        v.previous_n(v.configs.len()) == v,
{
    lemma_next_n_selection(v, v.configs.len());
    lemma_previous_n_selection(v, v.configs.len());
}

/// On an empty list, moving either way changes nothing, and nothing is selected.
pub proof fn lemma_navigation_on_empty(v: SessionView)
    requires
        v.wf(),
        v.configs.len() == 0,
    ensures
        v.next() == v,
        v.previous() == v,
        v.selected is None,
{
}

/// A notification set at `t0` still shows at every check before `t0` plus
/// `NOTIFICATION_MILLIS`, and has given way to the default text at every check
/// from then on.
pub proof fn lemma_notification_expiry(v: SessionView, text: Seq<char>, t0: u64, t1: u64)
    ensures
        t1 < t0 + NOTIFICATION_MILLIS ==> v.notify(text, t0).tick(t1) == v.notify(text, t0),
        t1 >= t0 + NOTIFICATION_MILLIS ==> v.notify(text, t0).tick(t1).status == v.default_status
            && v.notify(text, t0).tick(t1).status_time is None,
{
}

/// Relies on String::push: the character is appended at the end.
pub assume_specification[ String::push ](s: &mut String, ch: char)
    ensures
        final(s)@ == old(s)@.push(ch),
;

/// Relies on String::pop: the last character is removed and returned, and an
/// empty string gives `None` and stays empty.
pub assume_specification[ String::pop ](s: &mut String) -> (r: Option<char>)
    ensures
        old(s)@.len() == 0 ==> r is None && final(s)@ == old(s)@,
        old(s)@.len() > 0 ==> r == Some(old(s)@.last()) && final(s)@ == old(s)@.drop_last(),
;

/// The text that reports a failed store operation.
pub fn error_message(e: &StoreError) -> (r: String)
    ensures
        r@ == error_text(e@),
{
    String::from_str("- error: ").concat(e.message().as_str())
}

/// The session over a store.
pub struct App {
    pub config_manager: ConfigManager,
    /// The index of the selected snapshot in the store's listing.
    pub selected: Option<usize>,
    pub status_message: String,
    pub input_mode: InputMode,
    pub input_buffer: String,
    /// The snapshot that waits for the overwrite to be confirmed.
    pub pending_update_config: Option<String>,
    /// When the status message was set, if it is to expire.
    pub status_message_time: Option<u64>,
    pub default_status_message: String,
}

impl View for App {
    type V = SessionView;

    open spec fn view(&self) -> SessionView {
        SessionView {
            configs: names_view(self.config_manager.configs@),
            selected: match self.selected {
                Some(i) => Some(i as int),
                None => None,
            },
            mode: self.input_mode,
            buffer: self.input_buffer@,
            pending: match self.pending_update_config {
                Some(n) => Some(n@),
                None => None,
            },
            status: self.status_message@,
            status_time: self.status_message_time,
            default_status: self.default_status_message@,
        }
    }
}

impl App {
    /// A session over a freshly opened store: browsing, the first snapshot
    /// selected if there is one, and the default text shown.
    pub fn new(config_manager: ConfigManager) -> (r: App)
        ensures
            r@.wf(),
            r@.configs == names_view(config_manager.configs@),
            r@.selected == (if config_manager.configs@.len() == 0 {
                None
            } else {
                Some(0int)
            }),
            r@.mode == InputMode::Normal,
            r@.buffer.len() == 0,
            r@.pending is None,
            r@.status == default_status_text(),
            r@.status_time is None,
            r@.default_status == default_status_text(),
    {
        let selected = if config_manager.configs.len() == 0 {
            None
        } else {
            Some(0)
        };
        let default_status_message = String::from_str(
            "use j/k to navigate, enter to apply config, s to save current, u to update existing, d to delete, q to quit",
        );
        App {
            config_manager,
            selected,
            status_message: default_status_message.clone(),
            input_mode: InputMode::Normal,
            input_buffer: String::new(),
            pending_update_config: None,
            status_message_time: None,
            default_status_message,
        }
    }

    /// Selects the next snapshot, wrapping around; nothing happens on an empty list.
    pub fn next(&mut self)
        requires
            old(self)@.wf(),
        ensures
            final(self)@ == old(self)@.next(),
            final(self)@.wf(),
    {
        let len = self.config_manager.configs.len();
        if len == 0 {
            return ;
        }
        let i = match self.selected {
            Some(i) => if i >= len - 1 {
                0
            } else {
                i + 1
            },
            None => 0,
        };
        self.selected = Some(i);
    }

    /// Selects the previous snapshot, wrapping around; nothing happens on an empty list.
    pub fn previous(&mut self)
        requires
            old(self)@.wf(),
        ensures
            final(self)@ == old(self)@.previous(),
            final(self)@.wf(),
    {
        let len = self.config_manager.configs.len();
        if len == 0 {
            return ;
        }
        let i = match self.selected {
            Some(i) => if i == 0 {
                len - 1
            } else {
                i - 1
            },
            None => 0,
        };
        self.selected = Some(i);
    }

    /// The name of the selected snapshot, if any.
    pub fn selected_config(&self) -> (r: Option<String>)
        requires
            self@.wf(),
        ensures
            r matches Some(n) ==> self@.selected_name() == Some(n@),
            r is None ==> self@.selected_name() is None,
    {
        match self.selected {
            Some(i) => Some(self.config_manager.configs[i].clone()),
            None => None,
        }
    }

    /// Shows `message` from `now` on, until it expires.
    pub fn set_status_message(&mut self, message: String, now: u64)
        requires
            old(self)@.wf(),
        ensures
            final(self)@ == old(self)@.notify(message@, now),
            final(self)@.wf(),
    {
        self.status_message = message;
        self.status_message_time = Some(now);
    }

    /// Restores the default text once the notification has been shown for
    /// `NOTIFICATION_MILLIS` or longer at `now`.
    pub fn update_status_message(&mut self, now: u64)
        requires
            old(self)@.wf(),
        ensures
            final(self)@ == old(self)@.tick(now),
            final(self)@.wf(),
    {
        if let Some(t) = self.status_message_time {
            if now >= t && now - t >= NOTIFICATION_MILLIS {
                self.status_message = self.default_status_message.clone();
                self.status_message_time = None;
            }
        }
    }

    /// Reports the outcome of applying the selected snapshot; without a
    /// selection nothing happens.
    pub fn apply_config(&mut self, outcome: Result<(), StoreError>, now: u64)
        requires
            old(self)@.wf(),
        ensures
            final(self)@ == old(self)@.applied(done_view(outcome), now),
            final(self)@.wf(),
    {
        if let Some(i) = self.selected {
            let text = match outcome {
                Ok(()) => String::from_str("+ applied config: ").concat(
                    self.config_manager.configs[i].as_str(),
                ),
                Err(e) => error_message(&e),
            };
            self.set_status_message(text, now);
        }
    }

    /// Reports the outcome of deleting the selected snapshot and reopening the
    /// store: on success the new listing is shown, the selection kept where it
    /// still points into the list, else moved to the new last snapshot.
    pub fn delete_config(&mut self, outcome: Result<ConfigManager, StoreError>, now: u64)
        requires
            old(self)@.wf(),
        ensures
            final(self)@ == old(self)@.deleted(relisted_view(outcome), now),
            final(self)@.wf(),
    {
        if let Some(i) = self.selected {
            match outcome {
                Ok(reopened) => {
                    let text = String::from_str("+ deleted config: ").concat(
                        self.config_manager.configs[i].as_str(),
                    );
                    let len = reopened.configs.len();
                    self.config_manager = reopened;
                    self.selected = if len == 0 {
                        None
                    } else if i >= len {
                        Some(len - 1)
                    } else {
                        Some(i)
                    };
                    self.set_status_message(text, now);
                },
                Err(e) => {
                    let text = error_message(&e);
                    self.set_status_message(text, now);
                },
            }
        }
    }

    /// Starts typing the name of a new snapshot, from browsing.
    pub fn start_save_mode(&mut self)
        requires
            old(self)@.wf(),
        ensures
            final(self)@ == old(self)@.begin_save(),
            final(self)@.wf(),
    {
        if self.input_mode == InputMode::Normal {
            self.input_mode = InputMode::Saving;
            self.input_buffer = String::new();
            self.status_message = String::from_str("enter config name (without .conf): ");
        }
    }

    /// Adds a typed character to the name.
    pub fn input_char(&mut self, c: char)
        requires
            old(self)@.wf(),
        ensures
            final(self)@ == old(self)@.typed(c),
            final(self)@.wf(),
    {
        if self.input_mode == InputMode::Saving {
            self.input_buffer.push(c);
        }
    }

    /// Erases the last character of the name, if there is one.
    pub fn erase_char(&mut self)
        requires
            old(self)@.wf(),
        ensures
            final(self)@ == old(self)@.erased(),
            final(self)@.wf(),
    {
        if self.input_mode == InputMode::Saving {
            let _ = self.input_buffer.pop();
        }
    }

    /// Submits the typed name, `blank` telling whether it trims to the empty
    /// string, and returns the name to save under: the typed text with `.conf`
    /// appended where it lacks it.
    pub fn submit_save_name(&mut self, blank: bool, now: u64) -> (r: Option<String>)
        requires
            old(self)@.wf(),
        ensures
            final(self)@ == old(self)@.submitted(blank, now),
            final(self)@.wf(),
            r matches Some(n) ==> old(self)@.save_target(blank) == Some(n@),
            r is None ==> old(self)@.save_target(blank) is None,
    {
        if self.input_mode != InputMode::Saving {
            return None;
        }
        let target = if blank {
            None
        } else {
            Some(ensure_conf_extension(self.input_buffer.clone()))
        };
        self.input_buffer = String::new();
        self.input_mode = InputMode::Normal;
        if blank {
            self.set_status_message(String::from_str("- error: name cannot be empty"), now);
        }
        target
    }

    /// Submits the typed name and returns the name to save under, if it is not
    /// blank.
    pub fn confirm_save(&mut self, now: u64) -> (r: Option<String>)
        requires
            old(self)@.wf(),
        ensures
            final(self)@ == old(self)@.submitted(is_blank(old(self)@.buffer), now),
            final(self)@.wf(),
            r matches Some(n) ==> old(self)@.save_target(is_blank(old(self)@.buffer)) == Some(n@),
            r is None ==> old(self)@.save_target(is_blank(old(self)@.buffer)) is None,
    {
        let empty = blank(self.input_buffer.as_str());
        self.submit_save_name(empty, now)
    }

    /// Abandons the typed name and shows the default text.
    pub fn cancel_save(&mut self)
        requires
            old(self)@.wf(),
        ensures
            final(self)@ == old(self)@.cancelled_save(),
            final(self)@.wf(),
    {
        if self.input_mode == InputMode::Saving {
            self.input_mode = InputMode::Normal;
            self.input_buffer = String::new();
            self.status_message = self.default_status_message.clone();
            self.status_message_time = None;
        }
    }

    /// Reports the outcome of saving the live file as `name` and reopening the
    /// store: on success the new listing is shown with its first snapshot selected.
    pub fn save_current_config(
        &mut self,
        name: &str,
        outcome: Result<ConfigManager, StoreError>,
        now: u64,
    )
        requires
            old(self)@.wf(),
        ensures
            final(self)@ == old(self)@.saved(name@, relisted_view(outcome), now),
            final(self)@.wf(),
    {
        match outcome {
            Ok(reopened) => {
                let len = reopened.configs.len();
                self.config_manager = reopened;
                self.selected = if len == 0 {
                    None
                } else {
                    Some(0)
                };
                let text = String::from_str("+ saved current config as: ").concat(name);
                self.set_status_message(text, now);
            },
            Err(e) => {
                let text = error_message(&e);
                self.set_status_message(text, now);
            },
        }
    }

    /// Asks to overwrite the selected snapshot with the live file, from browsing;
    /// without a selection, says so.
    pub fn start_update_mode(&mut self, now: u64)
        requires
            old(self)@.wf(),
        ensures
            final(self)@ == old(self)@.begin_update(now),
            final(self)@.wf(),
    {
        if self.input_mode != InputMode::Normal {
            return ;
        }
        match self.selected_config() {
            Some(n) => {
                self.pending_update_config = Some(n);
                self.input_mode = InputMode::UpdateConfirm;
            },
            None => {
                self.set_status_message(String::from_str("- no config selected to update"), now);
            },
        }
    }

    /// Reports the outcome of overwriting the snapshot awaiting confirmation,
    /// and goes back to browsing.
    pub fn confirm_update(&mut self, outcome: Result<(), StoreError>, now: u64)
        requires
            old(self)@.wf(),
        ensures
            final(self)@ == old(self)@.updated(done_view(outcome), now),
            final(self)@.wf(),
    {
        if let Some(n) = self.pending_update_config.take() {
            self.input_mode = InputMode::Normal;
            let text = match outcome {
                Ok(()) => String::from_str("+ updated config '").concat(n.as_str()).concat(
                    "' with current ~/.tmux.conf",
                ),
                Err(e) => error_message(&e),
            };
            self.set_status_message(text, now);
        }
    }

    /// Declines the overwrite and shows the default text.
    pub fn cancel_update(&mut self)
        requires
            old(self)@.wf(),
        ensures
            final(self)@ == old(self)@.cancelled_update(),
            final(self)@.wf(),
    {
        if self.input_mode == InputMode::UpdateConfirm {
            self.pending_update_config = None;
            self.input_mode = InputMode::Normal;
            self.status_message = self.default_status_message.clone();
            self.status_message_time = None;
        }
    }
}

} // verus!
