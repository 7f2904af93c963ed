//! The border registry: the process-wide map from tracked window to border
//! handle, and the lifecycle flows that consult or mutate it. The caller
//! wraps the registry in a mutual-exclusion lock and holds it across one
//! operation at a time, which makes each operation atomic; the invariant
//! that matters — at most one live border per tracked window — is the
//! map's key uniqueness, which `upsert_if_absent` preserves by never
//! inserting over an existing entry.

use vstd::prelude::*;
use vstd::hash_map::HashMapWithView;

use crate::border::{BorderActor, BorderState};
use crate::colors::ColorBrush;
use crate::config::{
    resolve_effective_config, same_color_config, spec_or, EffectiveConfig, GlobalConfig,
    WindowRule,
};
use crate::easing::{bezier, AnimationCurve, CONTROL_LIMIT};
use crate::utils::Rect;
use crate::UNIT;

verus! {

/// The registry of live borders: tracked window id to border handle.
pub struct BorderRegistry {
    borders: HashMapWithView<u64, u64>,
}

/// What `show_border_for_window` asks the caller to do.
#[derive(Clone, Copy, PartialEq, Eq, Structural, Debug)]
pub enum ShowAction {
    /// Post a show command to this border handle.
    PostShow(u64),
    /// No border exists and the window qualifies: create one.
    Create,
    /// No border exists and the window does not qualify.
    Ignore,
}

/// What `create_border_for_window` decided.
#[derive(Debug)]
pub enum CreateOutcome {
    /// The rule disables borders for this window.
    Disabled,
    /// A border is already registered for this window.
    AlreadyExists,
    /// A border was registered; run this actor.
    Created(BorderActor),
}

impl BorderRegistry {
    /// The abstract map of this registry.
    pub closed spec fn view(self) -> Map<u64, u64> {
        self.borders@
    }

    /// An empty registry.
    pub fn new() -> (r: Self)
        ensures
            r@ == Map::<u64, u64>::empty(),
    {
        BorderRegistry { borders: HashMapWithView::new() }
    }

    /// The number of live borders.
    pub fn len(&self) -> (r: usize)
        ensures
            r == self@.len(),
    {
        self.borders.len()
    }

    /// Registers `handle` for `id` unless an entry already exists; returns
    /// the live handle and whether it was created now. Never replaces an
    /// existing entry, so the one-border-per-window invariant holds even
    /// when callers race on the same id (each call runs under the
    /// registry's lock).
    pub fn upsert_if_absent(&mut self, id: u64, handle: u64) -> (r: (u64, bool))
        ensures
            (final(self)@, r.1) == spec_upsert(old(self)@, id, handle),
            r.1 == !old(self)@.contains_key(id),
            r.1 ==> final(self)@ == old(self)@.insert(id, handle) && r.0 == handle,
            !r.1 ==> final(self)@ == old(self)@ && old(self)@.contains_key(id) && r.0 == old(
                self,
            )@[id],
            final(self)@.contains_key(id),
            final(self)@[id] == r.0,
    {
        match self.borders.get(&id) {
            Some(existing) => (*existing, false),
            None => {
                self.borders.insert(id, handle);
                (handle, true)
            },
        }
    }

    /// The handle registered for `id`, if any.
    pub fn lookup(&self, id: u64) -> (r: Option<u64>)
        ensures
            r is Some <==> self@.contains_key(id),
            self@.contains_key(id) ==> r == Some(self@[id]),
    {
        match self.borders.get(&id) {
            Some(h) => Some(*h),
            None => None,
        }
    }

    /// Removes the entry for `id`, returning the handle it held.
    pub fn remove(&mut self, id: u64) -> (r: Option<u64>)
        ensures
            final(self)@ == old(self)@.remove(id),
            r is Some <==> old(self)@.contains_key(id),
            old(self)@.contains_key(id) ==> r == Some(old(self)@[id]),
    {
        self.borders.remove(&id)
    }

    /// The border handle for a tracked window, if one is registered.
    pub fn get_border_from_window(&self, window: u64) -> (r: Option<u64>)
        ensures
            r is Some <==> self@.contains_key(window),
            self@.contains_key(window) ==> r == Some(self@[window]),
    {
        self.lookup(window)
    }

    /// Reacts to a window becoming visible: an existing border is told to
    /// show itself (and `true` comes back); otherwise a border is created
    /// when the window is visible, not cloaked and not filtered out.
    pub fn show_border_for_window(
        &self,
        window: u64,
        visible: bool,
        cloaked: bool,
        filtered: bool,
    ) -> (r: (bool, ShowAction))
        ensures
            self@.contains_key(window) ==> r == (true, ShowAction::PostShow(self@[window])),
            !self@.contains_key(window) && visible && !cloaked && !filtered ==> r == (
                false,
                ShowAction::Create,
            ),
            !self@.contains_key(window) && !(visible && !cloaked && !filtered) ==> r == (
                false,
                ShowAction::Ignore,
            ),
    {
        match self.lookup(window) {
            Some(handle) => (true, ShowAction::PostShow(handle)),
            None => {
                if visible && !cloaked && !filtered {
                    (false, ShowAction::Create)
                } else {
                    (false, ShowAction::Ignore)
                }
            },
        }
    }

    /// Reacts to a window being cloaked: an existing border is told to hide
    /// itself. Always reports `true`, as the request is fire-and-forget.
    pub fn hide_border_for_window(&self, window: u64) -> (r: (bool, Option<u64>))
        ensures
            r.0 == true,
            r.1 is Some <==> self@.contains_key(window),
            self@.contains_key(window) ==> r.1 == Some(self@[window]),
    {
        (true, self.lookup(window))
    }

    /// Removes a window's border from the registry; the returned handle
    /// must then be told to destroy itself. A window without a border is a
    /// no-op.
    pub fn destroy_border_for_window(&mut self, window: u64) -> (r: Option<u64>)
        ensures
            final(self)@ == old(self)@.remove(window),
            r is Some <==> old(self)@.contains_key(window),
            old(self)@.contains_key(window) ==> r == Some(old(self)@[window]),
    {
        self.remove(window)
    }
}

/// The abstract effect of `upsert_if_absent` on the registry map: the new
/// map, and whether an entry was created.
pub open spec fn spec_upsert(m: Map<u64, u64>, id: u64, handle: u64) -> (Map<u64, u64>, bool) {
    if m.contains_key(id) {
        (m, false)
    } else {
        (m.insert(id, handle), true)
    }
}

/// The number of upserts in a run on one id that report `created`.
pub open spec fn count_created(m: Map<u64, u64>, id: u64, handles: Seq<u64>) -> int
    decreases handles.len(),
{
    if handles.len() == 0 {
        0
    } else {
        let step = spec_upsert(m, id, handles[0]);
        (if step.1 {
            1int
        } else {
            0int
        }) + count_created(step.0, id, handles.drop_first())
    }
}

/// Concurrent `upsert_if_absent` calls on one id, serialized by the
/// registry's lock into some order, create exactly one border: of any
/// nonempty run of upserts on one id, exactly one reports `created` when
/// the id starts absent, and none when it is already registered.
pub proof fn lemma_upsert_exactly_once(m: Map<u64, u64>, id: u64, handles: Seq<u64>)
    requires
        handles.len() >= 1,
    ensures
        count_created(m, id, handles) == (if m.contains_key(id) {
            0int
        } else {
            1int
        }),
    decreases handles.len(),
{
    let step = spec_upsert(m, id, handles[0]);
    assert(step.0.contains_key(id));
    if handles.len() >= 2 {
        lemma_upsert_exactly_once(step.0, id, handles.drop_first());
    } else {
        assert(handles.drop_first().len() == 0);
        assert(count_created(step.0, id, handles.drop_first()) == 0);
    }
}

/// Builds and registers the border actor for a window. `handle` is the
/// native overlay handle the platform created for this border;
/// `colorization` is the packed platform accent color; `was_initial` says
/// whether the window was present at process start (such a window skips
/// the initialization delay). The actor's paint descriptors are resolved
/// here, before its thread starts.
pub fn create_border_for_window(
    registry: &mut BorderRegistry,
    window: u64,
    handle: u64,
    window_rect: Rect,
    rule: &WindowRule,
    global: &GlobalConfig,
    was_initial: bool,
    colorization: u32,
    border_width: i32,
    border_radius: i64,
) -> (r: CreateOutcome)
    requires
        ({
            let eff_active = spec_or(rule.active_color, global.active_color);
            let eff_inactive = spec_or(rule.inactive_color, global.inactive_color);
            eff_active.well_formed() && eff_inactive.well_formed()
        }),
    ensures
        rule.enabled == Some(false) ==> r is Disabled && final(registry)@ == old(registry)@,
        rule.enabled != Some(false) && old(registry)@.contains_key(window) ==> r
            is AlreadyExists && final(registry)@ == old(registry)@,
        rule.enabled != Some(false) && !old(registry)@.contains_key(window) ==> {
            &&& final(registry)@ == old(registry)@.insert(window, handle)
            &&& r matches CreateOutcome::Created(actor)
            &&& actor.tracking_window == window
            &&& actor.state == BorderState::Created
            &&& !actor.is_active
            &&& !actor.suspended
            &&& actor.window_rect == window_rect
            &&& actor.border_width == border_width
            &&& actor.border_offset == spec_or(rule.border_offset, global.border_offset)
            &&& actor.border_radius == border_radius
            &&& crate::colors::resolves_to(
                spec_or(rule.active_color, global.active_color),
                true,
                colorization,
                actor.active_color,
            )
            &&& crate::colors::resolves_to(
                spec_or(rule.inactive_color, global.inactive_color),
                false,
                colorization,
                actor.inactive_color,
            )
            &&& actor.initialize_delay == (if was_initial {
                0u64
            } else {
                spec_or(
                    rule.initialize_delay,
                    spec_or(global.initialize_delay, crate::config::DEFAULT_INITIALIZE_DELAY),
                )
            })
            &&& actor.unminimize_delay == spec_or(
                rule.unminimize_delay,
                spec_or(global.unminimize_delay, crate::config::DEFAULT_UNMINIMIZE_DELAY),
            )
            &&& actor.animation == crate::easing::spec_effective_curve(
                if rule.animations is Some {
                    rule.animations
                } else {
                    global.animations
                },
            )
        },
{
    if rule.enabled == Some(false) {
        return CreateOutcome::Disabled;
    }
    let effective: EffectiveConfig = resolve_effective_config(rule, global, was_initial);
    proof {
        crate::config::lemma_same_color_config_well_formed(
            effective.active_color,
            spec_or(rule.active_color, global.active_color),
        );
        crate::config::lemma_same_color_config_well_formed(
            effective.inactive_color,
            spec_or(rule.inactive_color, global.inactive_color),
        );
    }
    let active_color: ColorBrush = effective.active_color.to_color_brush(true, colorization);
    let inactive_color: ColorBrush = effective.inactive_color.to_color_brush(false, colorization);
    proof {
        crate::config::lemma_same_color_config_resolves(
            effective.active_color,
            spec_or(rule.active_color, global.active_color),
            true,
            colorization,
            active_color,
        );
        crate::config::lemma_same_color_config_resolves(
            effective.inactive_color,
            spec_or(rule.inactive_color, global.inactive_color),
            false,
            colorization,
            inactive_color,
        );
    }
    let animation: AnimationCurve = match effective.animations {
        Some(p) => {
            if -CONTROL_LIMIT <= p.y1 && p.y1 <= CONTROL_LIMIT && -CONTROL_LIMIT <= p.y2 && p.y2
                <= CONTROL_LIMIT {
                match bezier(p.x1, p.y1, p.x2, p.y2) {
                    Ok(curve) => curve,
                    Err(_) => AnimationCurve { x1: 0, y1: 0, x2: UNIT, y2: UNIT },
                }
            } else {
                AnimationCurve { x1: 0, y1: 0, x2: UNIT, y2: UNIT }
            }
        },
        None => AnimationCurve { x1: 0, y1: 0, x2: UNIT, y2: UNIT },
    };
    if registry.lookup(window).is_some() {
        return CreateOutcome::AlreadyExists;
    }
    let (_h, _created) = registry.upsert_if_absent(window, handle);
    CreateOutcome::Created(
        BorderActor {
            tracking_window: window,
            state: BorderState::Created,
            is_active: false,
            suspended: false,
            window_rect,
            border_width,
            border_offset: effective.border_offset,
            border_radius,
            active_color,
            inactive_color,
            animation,
            initialize_delay: effective.initialize_delay,
            unminimize_delay: effective.unminimize_delay,
        },
    )
}

} // verus!
