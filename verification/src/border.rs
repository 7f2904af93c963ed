//! The per-window border actor: the lifecycle state machine that serializes
//! the commands arriving from the platform's event sources. The actor owns
//! its paint descriptors and animation curve; every native effect of a
//! command is returned as an action for the platform layer to carry out on
//! the actor's own thread.

use vstd::prelude::*;

use crate::colors::ColorBrush;
use crate::easing::AnimationCurve;
use crate::utils::Rect;

verus! {

/// The lifecycle state of one border actor.
#[derive(Clone, Copy, PartialEq, Eq, Structural, Debug)]
pub enum BorderState {
    Created,
    Visible,
    Hidden,
    Destroyed,
}

/// A lifecycle command, delivered to the actor in enqueue order.
#[derive(Clone, Copy, PartialEq, Eq, Structural, Debug)]
pub enum BorderCommand {
    Show,
    Hide,
    LocationChange(Rect),
    Reorder,
    FocusChanged(bool),
    MinimizeStart,
    MinimizeEnd,
    Destroy,
}

/// What the platform layer must do after a command was processed.
#[derive(Clone, Copy, PartialEq, Eq, Structural, Debug)]
pub enum BorderAction {
    Nothing,
    BeginShowTransition,
    BeginHideTransition,
    UpdatePosition(Rect),
    UpdateZOrder,
    RetargetPaint(bool),
    SuspendRendering,
    ResumeAfterDelay(u64),
    Teardown,
}

/// One border actor's state: its lifecycle, focus, suspension, geometry and
/// resolved appearance.
#[derive(Debug)]
pub struct BorderActor {
    pub tracking_window: u64,
    pub state: BorderState,
    pub is_active: bool,
    pub suspended: bool,
    pub window_rect: Rect,
    pub border_width: i32,
    pub border_offset: i32,
    pub border_radius: i64,
    pub active_color: ColorBrush,
    pub inactive_color: ColorBrush,
    pub animation: AnimationCurve,
    pub initialize_delay: u64,
    pub unminimize_delay: u64,
}

/// The actor after one command, and the action the command causes.
///
/// A destroyed actor ignores everything (a stale command after teardown is
/// a no-op, not an error); `Show` and `Hide` are idempotent; `Destroy` is
/// terminal and tears down exactly once.
pub open spec fn spec_step(a: BorderActor, cmd: BorderCommand) -> (BorderActor, BorderAction) {
    if a.state == BorderState::Destroyed {
        (a, BorderAction::Nothing)
    } else {
        match cmd {
            BorderCommand::Show => if a.state == BorderState::Visible {
                (a, BorderAction::Nothing)
            } else {
                (a.with_state(BorderState::Visible), BorderAction::BeginShowTransition)
            },
            BorderCommand::Hide => if a.state == BorderState::Hidden {
                (a, BorderAction::Nothing)
            } else {
                (a.with_state(BorderState::Hidden), BorderAction::BeginHideTransition)
            },
            BorderCommand::LocationChange(r) => (
                a.with_rect(r),
                BorderAction::UpdatePosition(r),
            ),
            BorderCommand::Reorder => (a, BorderAction::UpdateZOrder),
            BorderCommand::FocusChanged(active) => (
                a.with_focus(active),
                BorderAction::RetargetPaint(active),
            ),
            BorderCommand::MinimizeStart => (
                a.with_suspended(true),
                BorderAction::SuspendRendering,
            ),
            BorderCommand::MinimizeEnd => (
                a.with_suspended(false),
                BorderAction::ResumeAfterDelay(a.unminimize_delay),
            ),
            BorderCommand::Destroy => (
                a.with_state(BorderState::Destroyed),
                BorderAction::Teardown,
            ),
        }
    }
}

impl BorderActor {
    /// The same actor in another lifecycle state.
    pub open spec fn with_state(self, s: BorderState) -> BorderActor {
        BorderActor { state: s, ..self }
    }

    /// The same actor with another tracked rectangle.
    pub open spec fn with_rect(self, r: Rect) -> BorderActor {
        BorderActor { window_rect: r, ..self }
    }

    /// The same actor with another focus state.
    pub open spec fn with_focus(self, active: bool) -> BorderActor {
        BorderActor { is_active: active, ..self }
    }

    /// The same actor with rendering suspended or resumed.
    pub open spec fn with_suspended(self, s: bool) -> BorderActor {
        BorderActor { suspended: s, ..self }
    }

    /// Processes one lifecycle command and returns the action it causes.
    pub fn handle_command(&mut self, cmd: BorderCommand) -> (action: BorderAction)
        ensures
            (*final(self), action) == spec_step(*old(self), cmd),
    {
        if matches!(self.state, BorderState::Destroyed) {
            return BorderAction::Nothing;
        }
        match cmd {
            BorderCommand::Show => {
                if matches!(self.state, BorderState::Visible) {
                    BorderAction::Nothing
                } else {
                    self.state = BorderState::Visible;
                    BorderAction::BeginShowTransition
                }
            },
            BorderCommand::Hide => {
                if matches!(self.state, BorderState::Hidden) {
                    BorderAction::Nothing
                } else {
                    self.state = BorderState::Hidden;
                    BorderAction::BeginHideTransition
                }
            },
            BorderCommand::LocationChange(r) => {
                self.window_rect = r;
                BorderAction::UpdatePosition(r)
            },
            BorderCommand::Reorder => BorderAction::UpdateZOrder,
            BorderCommand::FocusChanged(active) => {
                self.is_active = active;
                BorderAction::RetargetPaint(active)
            },
            BorderCommand::MinimizeStart => {
                self.suspended = true;
                BorderAction::SuspendRendering
            },
            BorderCommand::MinimizeEnd => {
                self.suspended = false;
                BorderAction::ResumeAfterDelay(self.unminimize_delay)
            },
            BorderCommand::Destroy => {
                self.state = BorderState::Destroyed;
                BorderAction::Teardown
            },
        }
    }

    /// The paint descriptor for the current focus state.
    pub fn current_color(&self) -> (r: &ColorBrush)
        ensures
            self.is_active ==> r == &self.active_color,
            !self.is_active ==> r == &self.inactive_color,
    {
        if self.is_active {
            &self.active_color
        } else {
            &self.inactive_color
        }
    }
}

/// Hiding is idempotent: the first `Hide` on a visible actor begins the
/// hide transition; a second `Hide` right after changes nothing and causes
/// no further action.
pub proof fn lemma_hide_idempotent(a: BorderActor)
    requires
        a.state == BorderState::Visible,
    ensures
        ({
            let (a1, act1) = spec_step(a, BorderCommand::Hide);
            let (a2, act2) = spec_step(a1, BorderCommand::Hide);
            &&& a1.state == BorderState::Hidden
            &&& act1 == BorderAction::BeginHideTransition
            &&& a2 == a1
            &&& act2 == BorderAction::Nothing
        }),
{
}

/// Showing an already visible actor is a no-op.
pub proof fn lemma_show_idempotent(a: BorderActor)
    requires
        a.state == BorderState::Visible,
    ensures
        spec_step(a, BorderCommand::Show) == (a, BorderAction::Nothing),
{
}

/// `Destroy` is terminal and tears down exactly once: it causes a teardown
/// only when the actor was not destroyed yet, and after it every further
/// command (another `Destroy` included) is a no-op.
pub proof fn lemma_destroy_once(a: BorderActor, later: BorderCommand)
    ensures
        ({
            let (a1, act1) = spec_step(a, BorderCommand::Destroy);
            &&& a1.state == BorderState::Destroyed
            &&& (act1 == BorderAction::Teardown <==> a.state != BorderState::Destroyed)
            &&& spec_step(a1, later) == (a1, BorderAction::Nothing)
        }),
{
}

} // verus!
