//! The presence controller: a state machine from updates and session
//! outcomes to session commands. The surrounding process owns the actual
//! session transport; it feeds every update and every attempt outcome to the
//! controller and performs the commands the controller returns, so all
//! decisions — lazy connection, pause/refresh/dedup handling, bounded retry
//! with teardown between attempts — live here, verified.

use vstd::prelude::*;
use crate::activity::{activity_of, build_activity, ActivityData, ActivityModel};
use crate::track::{same_track, TrackModel, TrackRecord, TrackUpdate, UpdateModel};

verus! {

/// Model of a [`Controller`].
pub ghost struct ControllerModel {
    pub current: Option<TrackModel>,
    pub connected: bool,
    pub retries: int,
    pub hide_repo: bool,
    pub pending: Option<UpdateModel>,
    pub attempts: int,
}

/// Model of a [`SessionCommand`].
pub ghost enum CommandModel {
    Show { reconnect: bool, activity: ActivityModel },
    Clear,
}

/// Model of an [`Action`].
pub ghost enum ActionModel {
    Apply(CommandModel),
    RetryApply(CommandModel),
    AwaitNext,
}

/// One operation on the presence session, performed by the surrounding
/// process: display an activity (connecting first when `reconnect` is set),
/// or clear the displayed activity and close the session.
pub enum SessionCommand {
    Show { reconnect: bool, activity: ActivityData },
    Clear,
}

impl View for SessionCommand {
    type V = CommandModel;

    open spec fn view(&self) -> CommandModel {
        match self {
            SessionCommand::Show { reconnect, activity } => CommandModel::Show {
                reconnect: *reconnect,
                activity: activity@,
            },
            SessionCommand::Clear => CommandModel::Clear,
        }
    }
}

/// What the surrounding process is to do next: perform a command, wait the
/// retry interval and then perform a command, or take the next update from
/// the channel.
pub enum Action {
    Apply(SessionCommand),
    RetryApply(SessionCommand),
    AwaitNext,
}

impl View for Action {
    type V = ActionModel;

    open spec fn view(&self) -> ActionModel {
        match self {
            Action::Apply(c) => ActionModel::Apply(c@),
            Action::RetryApply(c) => ActionModel::RetryApply(c@),
            Action::AwaitNext => ActionModel::AwaitNext,
        }
    }
}

/// Clearing the display: a command only where a session is open; either way
/// the controller holds no session afterwards.
pub open spec fn clear_step(s: ControllerModel) -> (ControllerModel, Option<CommandModel>) {
    if s.connected {
        (ControllerModel { connected: false, ..s }, Some(CommandModel::Clear))
    } else {
        (s, None)
    }
}

/// The update rule: the new controller state and the session command one
/// update calls for.
///
/// A paused record clears the display but stays off the current slot; a
/// record of the current track is a refresh that re-applies the display
/// without adopting the new record; a genuinely new track is adopted; a
/// resolved art URL overwrites the current record's art reference and
/// re-applies, and is dropped when no track is current; a stop clears the
/// display and drops the current record.
pub open spec fn decide(s: ControllerModel, u: UpdateModel) -> (
    ControllerModel,
    Option<CommandModel>,
) {
    match u {
        UpdateModel::New(t) => {
            if t.paused {
                clear_step(s)
            } else {
                let shown = match s.current {
                    Some(c) => if same_track(t, c) {
                        c
                    } else {
                        t
                    },
                    None => t,
                };
                (
                    ControllerModel { current: Some(shown), connected: true, ..s },
                    Some(
                        CommandModel::Show {
                            reconnect: !s.connected,
                            activity: activity_of(shown, s.hide_repo),
                        },
                    ),
                )
            }
        },
        UpdateModel::ArtResolved(url) => match s.current {
            Some(c) => {
                let shown = TrackModel { art_reference: url, ..c };
                (
                    ControllerModel { current: Some(shown), connected: true, ..s },
                    Some(
                        CommandModel::Show {
                            reconnect: !s.connected,
                            activity: activity_of(shown, s.hide_repo),
                        },
                    ),
                )
            },
            None => (s, None),
        },
        UpdateModel::Stopped => {
            let (s2, cmd) = clear_step(s);
            (ControllerModel { current: None, ..s2 }, cmd)
        },
    }
}

/// Receiving an update: with no retry budget the update is skipped outright;
/// a decision with no command needs no session work; otherwise the first
/// attempt is issued and the update is retained for possible retries.
pub open spec fn update_step(s: ControllerModel, u: UpdateModel) -> (ControllerModel, ActionModel) {
    if s.retries <= 0 {
        (s, ActionModel::AwaitNext)
    } else {
        let (s2, cmd) = decide(s, u);
        match cmd {
            Some(c) => (
                ControllerModel { pending: Some(u), attempts: 1, ..s2 },
                ActionModel::Apply(c),
            ),
            None => (ControllerModel { pending: None, attempts: 0, ..s2 }, ActionModel::AwaitNext),
        }
    }
}

/// A successful attempt: the update is done with.
pub open spec fn success_step(s: ControllerModel) -> (ControllerModel, ActionModel) {
    (ControllerModel { pending: None, attempts: 0, ..s }, ActionModel::AwaitNext)
}

/// A failed attempt: the session handle is discarded, forcing a reconnect on
/// the next attempt. Within the retry budget the same update is decided
/// again after the retry interval; once the budget is exhausted the update
/// is dropped and the next one is taken.
pub open spec fn failure_step(s: ControllerModel) -> (ControllerModel, ActionModel) {
    let s1 = ControllerModel { connected: false, ..s };
    if s.attempts < s.retries {
        match s.pending {
            Some(u) => {
                let (s2, cmd) = decide(s1, u);
                match cmd {
                    Some(c) => (
                        ControllerModel { attempts: s.attempts + 1, ..s2 },
                        ActionModel::RetryApply(c),
                    ),
                    None => (
                        ControllerModel { pending: None, attempts: 0, ..s2 },
                        ActionModel::AwaitNext,
                    ),
                }
            },
            None => (s1, ActionModel::AwaitNext),
        }
    } else {
        (ControllerModel { pending: None, attempts: 0, ..s1 }, ActionModel::AwaitNext)
    }
}

/// Two consecutive updates whose records are the same track produce at most
/// one adoption: the second is only a refresh, keeping the tracked record as
/// it was and re-applying its display.
pub proof fn lemma_equal_records_refresh(s: ControllerModel, t1: TrackModel, t2: TrackModel)
    requires
        s.retries >= 1,
        !t1.paused,
        !t2.paused,
        same_track(t1, t2),
    ensures
        ({
            let (s1, a1) = update_step(s, UpdateModel::New(t1));
            let (s1r, ar) = success_step(s1);
            let (s2, a2) = update_step(s1r, UpdateModel::New(t2));
            &&& s2.current == s1.current
            &&& s1.current matches Some(kept) ==> (a2 matches ActionModel::Apply(c) && c
                == CommandModel::Show {
                    reconnect: false,
                    activity: activity_of(kept, s.hide_repo),
                })
        }),
{
}

/// A resolved art URL arriving when no track is current — after a stop, or
/// in a controller that has lost its context — changes nothing and issues no
/// session command.
pub proof fn lemma_stale_resolution_dropped(s: ControllerModel, url: Seq<char>)
    requires
        s.current is None,
        s.pending is None,
        s.attempts == 0,
    ensures
        update_step(s, UpdateModel::ArtResolved(url)) == (s, ActionModel::AwaitNext),
{
}

/// A resolved art URL never changes which track is current: it overwrites
/// the art reference of the record already tracked, and nothing else of it.
pub proof fn lemma_resolution_overwrites_art_only(s: ControllerModel, url: Seq<char>)
    requires
        s.retries >= 1,
    ensures
        s.current matches Some(c) ==> update_step(s, UpdateModel::ArtResolved(url)).0.current
            == Some(TrackModel { art_reference: url, ..c }),
{
}

/// With three configured retries and a session that fails every attempt, an
/// update that calls for a display is attempted exactly three times — one
/// first apply and two delayed retries — and then given up on: the
/// controller moves to the next update rather than blocking the channel.
pub proof fn lemma_retry_bound(s: ControllerModel, u: UpdateModel)
    requires
        s.retries == 3,
        match u {
            UpdateModel::New(t) => !t.paused,
            UpdateModel::ArtResolved(_) => s.current is Some,
            UpdateModel::Stopped => false,
        },
    ensures
        ({
            let (s1, a1) = update_step(s, u);
            let (s2, a2) = failure_step(s1);
            let (s3, a3) = failure_step(s2);
            let (s4, a4) = failure_step(s3);
            &&& a1 matches ActionModel::Apply(_)
            &&& a2 matches ActionModel::RetryApply(_)
            &&& a3 matches ActionModel::RetryApply(_)
            &&& a4 == ActionModel::AwaitNext
            &&& s4.pending is None
        }),
{
}

/// An empty line — a stop — taken in any idle state clears and closes any
/// open session and leaves the controller disconnected with no current
/// track.
pub proof fn lemma_stopped_clears(s: ControllerModel)
    requires
        s.retries >= 1,
    ensures
        ({
            let (s1, a1) = update_step(s, UpdateModel::Stopped);
            &&& s1.current is None
            &&& !s1.connected
            &&& s.connected ==> (a1 matches ActionModel::Apply(c) && c == CommandModel::Clear)
            &&& !s.connected ==> a1 == ActionModel::AwaitNext
        }),
{
}

/// The state a fresh controller starts in: nothing current, no session, no
/// update in flight.
pub open spec fn initial_model(retries: int, hide_repo: bool) -> ControllerModel {
    ControllerModel {
        current: None,
        connected: false,
        retries: retries,
        hide_repo: hide_repo,
        pending: None,
        attempts: 0,
    }
}

/// The presence controller's state: the tracked record, whether a session is
/// held, the configured retry bound and button choice, and the update
/// currently being attempted.
pub struct Controller {
    current: Option<TrackRecord>,
    connected: bool,
    retries: usize,
    hide_repo: bool,
    pending: Option<TrackUpdate>,
    attempts: usize,
}

impl View for Controller {
    type V = ControllerModel;

    closed spec fn view(&self) -> ControllerModel {
        ControllerModel {
            current: match self.current {
                Some(c) => Some(c@),
                None => None,
            },
            connected: self.connected,
            retries: self.retries as int,
            hide_repo: self.hide_repo,
            pending: match self.pending {
                Some(u) => Some(u@),
                None => None,
            },
            attempts: self.attempts as int,
        }
    }
}

impl Controller {
    /// A fresh controller with the given retry bound and button choice.
    pub fn new(retries: usize, hide_repo: bool) -> (r: Controller)
        ensures
            r@ == initial_model(retries as int, hide_repo),
    {
        Controller {
            current: None,
            connected: false,
            retries,
            hide_repo,
            pending: None,
            attempts: 0,
        }
    }

    /// Clears the display per [`clear_step`].
    fn clear_cmd(&mut self) -> (cmd: Option<SessionCommand>)
        ensures
            final(self)@ == clear_step(old(self)@).0,
            match cmd {
                Some(c) => clear_step(old(self)@).1 == Some(c@),
                None => clear_step(old(self)@).1 is None,
            },
    {
        if self.connected {
            self.connected = false;
            Some(SessionCommand::Clear)
        } else {
            None
        }
    }

    /// Applies the decision rule for one update per [`decide`].
    fn apply_decision(&mut self, u: &TrackUpdate) -> (cmd: Option<SessionCommand>)
        ensures
            final(self)@ == decide(old(self)@, u@).0,
            match cmd {
                Some(c) => decide(old(self)@, u@).1 == Some(c@),
                None => decide(old(self)@, u@).1 is None,
            },
    {
        match u {
            TrackUpdate::New(t) => {
                if t.paused {
                    self.clear_cmd()
                } else {
                    let adopt: bool = match self.current.as_ref() {
                        Some(c) => !(*t == *c),
                        None => true,
                    };
                    let shown: TrackRecord = if adopt {
                        t.duplicate()
                    } else {
                        self.current.take().unwrap()
                    };
                    let was_connected = self.connected;
                    self.connected = true;
                    let act = build_activity(&shown, self.hide_repo);
                    self.current = Some(shown);
                    Some(SessionCommand::Show { reconnect: !was_connected, activity: act })
                }
            },
            TrackUpdate::ArtResolved(url) => {
                match self.current.take() {
                    Some(c) => {
                        let mut shown = c;
                        shown.art_reference = url.clone();
                        let was_connected = self.connected;
                        self.connected = true;
                        let act = build_activity(&shown, self.hide_repo);
                        self.current = Some(shown);
                        Some(SessionCommand::Show { reconnect: !was_connected, activity: act })
                    },
                    None => None,
                }
            },
            TrackUpdate::Stopped => {
                let cmd = self.clear_cmd();
                self.current = None;
                cmd
            },
        }
    }

    /// Takes the next update from the channel, per [`update_step`].
    pub fn on_update(&mut self, u: &TrackUpdate) -> (r: Action)
        ensures
            final(self)@ == update_step(old(self)@, u@).0,
            r@ == update_step(old(self)@, u@).1,
    {
        if self.retries == 0 {
            return Action::AwaitNext;
        }
        match self.apply_decision(u) {
            Some(c) => {
                self.pending = Some(u.duplicate());
                self.attempts = 1;
                Action::Apply(c)
            },
            None => {
                self.pending = None;
                self.attempts = 0;
                Action::AwaitNext
            },
        }
    }

    /// Notes that the last issued command succeeded, per [`success_step`].
    pub fn on_success(&mut self) -> (r: Action)
        ensures
            final(self)@ == success_step(old(self)@).0,
            r@ == success_step(old(self)@).1,
    {
        self.pending = None;
        self.attempts = 0;
        Action::AwaitNext
    }

    /// Notes that the last issued command failed, per [`failure_step`].
    pub fn on_failure(&mut self) -> (r: Action)
        ensures
            final(self)@ == failure_step(old(self)@).0,
            r@ == failure_step(old(self)@).1,
    {
        self.connected = false;
        if self.attempts < self.retries {
            match self.pending.take() {
                Some(u) => {
                    match self.apply_decision(&u) {
                        Some(c) => {
                            self.pending = Some(u);
                            self.attempts = self.attempts + 1;
                            Action::RetryApply(c)
                        },
                        None => {
                            self.pending = None;
                            self.attempts = 0;
                            Action::AwaitNext
                        },
                    }
                },
                None => Action::AwaitNext,
            }
        } else {
            self.pending = None;
            self.attempts = 0;
            Action::AwaitNext
        }
    }
}

} // verus!
