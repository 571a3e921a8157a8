//! The overlay itself: showing it, hiding it, and giving the focus back.
use crate::error::HotkeyError;
use vstd::prelude::*;
use vstd::seq_lib::*;

verus! {

/// `NSApplicationActivateIgnoringOtherApps`.
pub const ACTIVATE_IGNORING_OTHER_APPS: usize = 1;

/// The frontmost application, as the workspace reports it just before the overlay is shown.
#[derive(Debug, Clone, Copy, PartialEq, Eq, Structural)]
pub struct FrontApplication {
    /// The system's reference to the application.
    pub app: usize,
    /// The process that the application runs in.
    pub process_id: i32,
    /// The process that the overlay runs in.
    pub current_process_id: i32,
}

/// One thing to ask of the system.
#[derive(Debug, Clone, Copy, PartialEq, Eq, Structural)]
pub enum OverlayAction {
    /// Keep the reference to another application alive.
    RetainApplication(usize),
    /// Bring the overlay's own application to the front.
    ActivateSelf { ignoring_other_apps: bool },
    /// Bring the overlay window to the front.
    ActivateOverlayWindow,
    /// Hide the overlay's own application.
    HideSelf,
    /// Bring another application to the front.
    ReactivateApplication { app: usize, options: usize },
    /// Give up the reference to another application.
    ReleaseApplication(usize),
}

/// The application to come back to when the overlay goes: the frontmost one, unless there is
/// none or it is the overlay's own.
pub open spec fn recorded(front_app: Option<FrontApplication>) -> Option<usize> {
    match front_app {
        Some(front) if front.process_id != front.current_process_id => Some(front.app),
        _ => None,
    }
}

/// What showing the overlay asks of the system.
pub open spec fn show_actions(front_app: Option<FrontApplication>) -> Seq<OverlayAction> {
    let activate = seq![
        OverlayAction::ActivateSelf { ignoring_other_apps: true },
        OverlayAction::ActivateOverlayWindow,
    ];
    match recorded(front_app) {
        Some(app) => seq![OverlayAction::RetainApplication(app)] + activate,
        None => activate,
    }
}

/// What hiding the overlay asks of the system.
pub open spec fn hide_actions(previous_app: Option<usize>) -> Seq<OverlayAction> {
    match previous_app {
        Some(app) => seq![
            OverlayAction::HideSelf,
            OverlayAction::ReactivateApplication { app, options: ACTIVATE_IGNORING_OTHER_APPS },
            OverlayAction::ReleaseApplication(app),
        ],
        None => seq![OverlayAction::HideSelf],
    }
}

/// What there is to know of an overlay between two toggles.
pub struct OverlayState {
    /// Whether the overlay is shown.
    pub is_visible: bool,
    /// The application to come back to, held by one reference.
    pub previous_app: Option<usize>,
}

impl OverlayState {
    /// A hidden overlay holds no other application.
    pub open spec fn wf(self) -> bool {
        self.previous_app is Some ==> self.is_visible
    }

    /// How an overlay starts out.
    pub open spec fn initial() -> OverlayState {
        OverlayState { is_visible: false, previous_app: None }
    }

    /// The state after the overlay is shown. An application recorded before is kept where none
    /// is recorded now.
    pub open spec fn shown(self, front_app: Option<FrontApplication>) -> OverlayState {
        OverlayState {
            is_visible: true,
            previous_app: match recorded(front_app) {
                Some(app) => Some(app),
                None => self.previous_app,
            },
        }
    }

    /// The state after the overlay is hidden.
    pub open spec fn hidden(self) -> OverlayState {
        OverlayState { is_visible: false, previous_app: None }
    }

    /// The state after one toggle.
    pub open spec fn toggled(self, front_app: Option<FrontApplication>) -> OverlayState {
        if self.is_visible {
            self.hidden()
        } else {
            self.shown(front_app)
        }
    }

    /// What one toggle asks of the system.
    pub open spec fn toggle_actions(self, front_app: Option<FrontApplication>) -> Seq<
        OverlayAction,
    > {
        if self.is_visible {
            hide_actions(self.previous_app)
        } else {
            show_actions(front_app)
        }
    }

    /// The state after one toggle for each entry of `front_apps`, in order.
    pub open spec fn after(self, front_apps: Seq<Option<FrontApplication>>) -> OverlayState
        decreases front_apps.len(),
    {
        if front_apps.len() == 0 {
            self
        } else {
            self.after(front_apps.drop_last()).toggled(front_apps.last())
        }
    }

    /// What those toggles ask of the system, in order.
    pub open spec fn trace(self, front_apps: Seq<Option<FrontApplication>>) -> Seq<OverlayAction>
        decreases front_apps.len(),
    {
        if front_apps.len() == 0 {
            Seq::empty()
        } else {
            self.trace(front_apps.drop_last()) + self.after(
                front_apps.drop_last(),
            ).toggle_actions(front_apps.last())
        }
    }
}

/// Manages the overlay window's life: showing and hiding it by turns, and giving the focus
/// back to the application that had it.
///
/// `W` is the handle of the overlay window, `S` the status item and `H` the registered hotkey;
/// the last two are only kept, so that they live as long as the manager.
pub struct OverlayManager<W, S, H> {
    overlay_window: W,
    is_visible: bool,
    previous_app: Option<usize>,
    status_item: Option<S>,
    hotkey: H,
}

impl<W, S, H> View for OverlayManager<W, S, H> {
    type V = OverlayState;

    closed spec fn view(&self) -> OverlayState {
        OverlayState { is_visible: self.is_visible, previous_app: self.previous_app }
    }
}

impl<W, S, H> OverlayManager<W, S, H> {
    #[verifier::type_invariant]
    spec fn holds_apps_only_while_visible(&self) -> bool {
        self.previous_app is Some ==> self.is_visible
    }

    /// The overlay window's handle.
    pub closed spec fn window(&self) -> W {
        self.overlay_window
    }

    /// The status item that is kept alive.
    pub closed spec fn kept_status_item(&self) -> Option<S> {
        self.status_item
    }

    /// The hotkey that is kept registered.
    pub closed spec fn kept_hotkey(&self) -> H {
        self.hotkey
    }

    /// Takes charge of the overlay window once the hotkey is registered. Where it could not be
    /// registered there is no manager, and the status item is dropped.
    pub fn new(
        overlay_window: W,
        status_item: Option<S>,
        hotkey: Result<H, HotkeyError>,
    ) -> (manager: Result<OverlayManager<W, S, H>, HotkeyError>)
        ensures
            match (manager, hotkey) {
                (Ok(manager), Ok(hotkey)) => {
                    &&& manager@ == OverlayState::initial()
                    &&& !manager@.is_visible && manager@.previous_app is None
                    &&& manager.window() == overlay_window
                    &&& manager.kept_status_item() == status_item
                    &&& manager.kept_hotkey() == hotkey
                },
                (Err(error), Err(cause)) => error == cause,
                _ => false,
            },
    {
        match hotkey {
            Ok(hotkey) => Ok(
                OverlayManager {
                    overlay_window,
                    is_visible: false,
                    previous_app: None,
                    status_item,
                    hotkey,
                },
            ),
            Err(error) => Err(error),
        }
    }

    /// Whether the overlay is shown.
    pub fn is_visible(&self) -> (visible: bool)
        ensures
            visible == self@.is_visible,
    {
        self.is_visible
    }

    /// The overlay window's handle.
    pub fn overlay_window(&self) -> (window: &W)
        ensures
            *window == self.window(),
    {
        &self.overlay_window
    }

    /// Shows a hidden overlay, hides a shown one. `front_app` is the frontmost application, if
    /// there is one; it only matters where the overlay is about to be shown. The answer is what
    /// to ask of the system, in order.
    pub fn toggle(&mut self, front_app: Option<FrontApplication>) -> (actions: Vec<OverlayAction>)
        ensures
            old(self)@.wf(),
            final(self)@.wf(),
            final(self)@ == old(self)@.toggled(front_app),
            actions@ == old(self)@.toggle_actions(front_app),
            final(self)@.is_visible == !old(self)@.is_visible,
            !old(self)@.is_visible ==> {
                &&& actions@.len() >= 2
                &&& actions@[actions@.len() - 2] == (OverlayAction::ActivateSelf {
                    ignoring_other_apps: true,
                })
                &&& actions@[actions@.len() - 1] == OverlayAction::ActivateOverlayWindow
                &&& match front_app {
                    Some(front) if front.process_id != front.current_process_id => {
                        &&& actions@.len() == 3
                        &&& actions@[0] == OverlayAction::RetainApplication(front.app)
                        &&& final(self)@.previous_app == Some(front.app)
                    },
                    _ => actions@.len() == 2 && final(self)@.previous_app is None,
                }
            },
            old(self)@.is_visible ==> {
                &&& final(self)@.previous_app is None
                &&& actions@.len() >= 1 && actions@[0] == OverlayAction::HideSelf
                &&& match old(self)@.previous_app {
                    Some(app) => {
                        &&& actions@.len() == 3
                        &&& actions@[1] == (OverlayAction::ReactivateApplication { app, options: 1 })
                        &&& actions@[2] == OverlayAction::ReleaseApplication(app)
                    },
                    None => actions@.len() == 1,
                }
            },
            final(self).window() == old(self).window(),
            final(self).kept_status_item() == old(self).kept_status_item(),
            final(self).kept_hotkey() == old(self).kept_hotkey(),
    {
        proof {
            use_type_invariant(&*self);
        }
        if self.is_visible {
            self.hide_overlay()
        } else {
            self.show_overlay(front_app)
        }
    }

    /// Shows the overlay, whether or not it is shown already.
    fn show_overlay(&mut self, front_app: Option<FrontApplication>) -> (actions: Vec<OverlayAction>)
        ensures
            final(self)@ == old(self)@.shown(front_app),
            actions@ == show_actions(front_app),
            final(self).window() == old(self).window(),
            final(self).kept_status_item() == old(self).kept_status_item(),
            final(self).kept_hotkey() == old(self).kept_hotkey(),
    {
        let mut actions: Vec<OverlayAction> = Vec::new();
        self.is_visible = true;
        if let Some(front) = front_app {
            // The overlay's own application is not recorded: coming back to it would leave the
            // user stuck there.
            if front.process_id != front.current_process_id {
                actions.push(OverlayAction::RetainApplication(front.app));
                self.previous_app = Some(front.app);
            }
        }
        actions.push(OverlayAction::ActivateSelf { ignoring_other_apps: true });
        actions.push(OverlayAction::ActivateOverlayWindow);
        assert(actions@ =~= show_actions(front_app));
        actions
    }

    /// Hides the overlay, whether or not it is hidden already.
    fn hide_overlay(&mut self) -> (actions: Vec<OverlayAction>)
        ensures
            final(self)@ == old(self)@.hidden(),
            actions@ == hide_actions(old(self)@.previous_app),
            final(self).window() == old(self).window(),
            final(self).kept_status_item() == old(self).kept_status_item(),
            final(self).kept_hotkey() == old(self).kept_hotkey(),
    {
        let mut actions: Vec<OverlayAction> = Vec::new();
        actions.push(OverlayAction::HideSelf);
        let previous_app = self.previous_app;
        self.previous_app = None;
        if let Some(app) = previous_app {
            actions.push(
                OverlayAction::ReactivateApplication {
                    app,
                    options: ACTIVATE_IGNORING_OTHER_APPS,
                },
            );
            // Balances the reference taken when the overlay was shown.
            actions.push(OverlayAction::ReleaseApplication(app));
        }
        self.is_visible = false;
        assert(actions@ =~= hide_actions(old(self)@.previous_app));
        actions
    }
}

/// Whatever the toggles so far, a hidden overlay holds no other application.
pub proof fn hidden_overlay_holds_no_application(
    start: OverlayState,
    front_apps: Seq<Option<FrontApplication>>,
)
    requires
        start.wf(),
    ensures
        start.after(front_apps).wf(),
    decreases front_apps.len(),
{
    if front_apps.len() > 0 {
        hidden_overlay_holds_no_application(start, front_apps.drop_last());
    }
}

/// Toggles show and hide by turns: after any number of them the overlay is as it was at the
/// start if the number is even, and the other way round if it is odd.
pub proof fn toggles_alternate(start: OverlayState, front_apps: Seq<Option<FrontApplication>>)
    ensures
        start.after(front_apps).is_visible == (start.is_visible == (front_apps.len() % 2 == 0)),
    decreases front_apps.len(),
{
    if front_apps.len() > 0 {
        toggles_alternate(start, front_apps.drop_last());
    }
}

/// Hiding the overlay a second time changes nothing, brings no application back and gives no
/// reference up.
pub proof fn second_hide_changes_nothing(state: OverlayState)
    ensures
        state.hidden().hidden() == state.hidden(),
        hide_actions(state.hidden().previous_app) == seq![OverlayAction::HideSelf],
{
}

/// Showing the overlay and hiding it again leaves no trace in its state, and hiding brings back
/// exactly the application that was in front when it was shown, and gives up the reference to
/// it. Where that was the overlay's own application, or there was none, nothing is brought back.
pub proof fn focus_is_given_back(
    start: OverlayState,
    shown_over: Option<FrontApplication>,
    hidden_over: Option<FrontApplication>,
)
    requires
        start.wf(),
        !start.is_visible,
    ensures
        start.toggled(shown_over).toggled(hidden_over) == start,
        start.toggled(shown_over).toggle_actions(hidden_over) == match shown_over {
            Some(front) if front.process_id != front.current_process_id => seq![
                OverlayAction::HideSelf,
                OverlayAction::ReactivateApplication {
                    app: front.app,
                    options: ACTIVATE_IGNORING_OTHER_APPS,
                },
                OverlayAction::ReleaseApplication(front.app),
            ],
            _ => seq![OverlayAction::HideSelf],
        },
{
}

/// How often `action` occurs in `actions`.
pub open spec fn occurrences(actions: Seq<OverlayAction>, action: OverlayAction) -> nat {
    actions.to_multiset().count(action)
}

/// One if `state` holds a reference to `app`, else zero.
pub open spec fn references_held(state: OverlayState, app: usize) -> nat {
    if state.previous_app == Some(app) {
        1
    } else {
        0
    }
}

/// Over any sequence of toggles every reference taken to an application is given up once: what
/// was held at the start and what was taken since is what has been given up and what is held
/// now. So nothing is given up that was not taken, and a hidden overlay has given up everything.
/// And an application is brought back to the front once for each reference to it given up.
pub proof fn references_balance(
    start: OverlayState,
    front_apps: Seq<Option<FrontApplication>>,
    app: usize,
)
    requires
        start.wf(),
    ensures
        references_held(start, app) + occurrences(
            start.trace(front_apps),
            OverlayAction::RetainApplication(app),
        ) == occurrences(start.trace(front_apps), OverlayAction::ReleaseApplication(app))
            + references_held(start.after(front_apps), app),
        occurrences(
            start.trace(front_apps),
            OverlayAction::ReactivateApplication { app, options: ACTIVATE_IGNORING_OTHER_APPS },
        ) == occurrences(start.trace(front_apps), OverlayAction::ReleaseApplication(app)),
    decreases front_apps.len(),
{
    broadcast use vstd::seq_lib::group_to_multiset_ensures;

    if front_apps.len() > 0 {
        let earlier = front_apps.drop_last();
        references_balance(start, earlier, app);
        hidden_overlay_holds_no_application(start, earlier);
        let before = start.after(earlier);
        let actions = before.toggle_actions(front_apps.last());
        lemma_multiset_commutative(start.trace(earlier), actions);
        if before.is_visible {
            assert(actions =~= match before.previous_app {
                Some(a) => Seq::empty().push(OverlayAction::HideSelf).push(
                    OverlayAction::ReactivateApplication {
                        app: a,
                        options: ACTIVATE_IGNORING_OTHER_APPS,
                    },
                ).push(OverlayAction::ReleaseApplication(a)),
                None => Seq::empty().push(OverlayAction::HideSelf),
            });
        } else {
            let activate = OverlayAction::ActivateSelf { ignoring_other_apps: true };
            assert(actions =~= match recorded(front_apps.last()) {
                Some(a) => Seq::empty().push(OverlayAction::RetainApplication(a)).push(
                    activate,
                ).push(OverlayAction::ActivateOverlayWindow),
                None => Seq::empty().push(activate).push(OverlayAction::ActivateOverlayWindow),
            });
        }
    }
}

/// Every toggle of a hidden overlay ends, whatever is in front, in bringing first the own
/// application and then the overlay window to the front, each once. All that may come before is
/// the reference to the one application that is recorded.
pub proof fn showing_brings_the_overlay_to_the_front(
    start: OverlayState,
    front_app: Option<FrontApplication>,
)
    requires
        !start.is_visible,
    ensures
        start.toggled(front_app).is_visible,
        ({
            let actions = start.toggle_actions(front_app);
            let n = actions.len();
            &&& 2 <= n <= 3
            &&& actions[n - 2] == (OverlayAction::ActivateSelf { ignoring_other_apps: true })
            &&& actions[n - 1] == OverlayAction::ActivateOverlayWindow
            &&& n == 3 ==> actions[0] is RetainApplication
        }),
{
}

/// An application in front whose process is not the overlay's is retained before anything else
/// and recorded; the overlay's own application, or none, is neither.
pub proof fn other_applications_are_recorded(start: OverlayState, front: FrontApplication)
    requires
        start.wf(),
        !start.is_visible,
    ensures
        start.toggled(Some(front)).previous_app == Some(front.app) <==> front.process_id
            != front.current_process_id,
        start.toggle_actions(Some(front))[0] == OverlayAction::RetainApplication(front.app)
            <==> front.process_id != front.current_process_id,
        front.process_id == front.current_process_id ==> {
            &&& start.toggled(Some(front)) == start.toggled(None)
            &&& start.toggle_actions(Some(front)) == start.toggle_actions(None)
        },
        start.toggled(None).previous_app is None,
        start.toggle_actions(None).len() == 2,
{
}

/// A toggle of a shown overlay hides it, whatever is in front then; the recorded application, if
/// there is one, is brought back after that and only then given up.
pub proof fn hiding_gives_the_recorded_application_back(
    start: OverlayState,
    front_app: Option<FrontApplication>,
)
    requires
        start.is_visible,
    ensures
        !start.toggled(front_app).is_visible,
        start.toggled(front_app).previous_app is None,
        start.toggle_actions(front_app).len() == (if start.previous_app is Some {
            3nat
        } else {
            1nat
        }),
        start.toggle_actions(front_app)[0] == OverlayAction::HideSelf,
        start.previous_app matches Some(app) ==> {
            &&& start.toggle_actions(front_app)[1] == (OverlayAction::ReactivateApplication {
                app,
                options: 1,
            })
            &&& start.toggle_actions(front_app)[2] == OverlayAction::ReleaseApplication(app)
        },
{
}

/// Over any sequence of toggles of an overlay that starts out hidden, the own application and
/// the overlay window are brought to the front once for each show, and the own application is
/// hidden once for each hide: shows are every other toggle from the first on.
pub proof fn every_show_activates_and_every_hide_hides(
    start: OverlayState,
    front_apps: Seq<Option<FrontApplication>>,
)
    requires
        start.wf(),
        !start.is_visible,
    ensures
        occurrences(start.trace(front_apps), OverlayAction::ActivateOverlayWindow) == (
        front_apps.len() + 1) / 2,
        occurrences(
            start.trace(front_apps),
            OverlayAction::ActivateSelf { ignoring_other_apps: true },
        ) == (front_apps.len() + 1) / 2,
        occurrences(start.trace(front_apps), OverlayAction::HideSelf) == front_apps.len() / 2,
    decreases front_apps.len(),
{
    broadcast use vstd::seq_lib::group_to_multiset_ensures;

    if front_apps.len() > 0 {
        let earlier = front_apps.drop_last();
        every_show_activates_and_every_hide_hides(start, earlier);
        toggles_alternate(start, earlier);
        let before = start.after(earlier);
        let actions = before.toggle_actions(front_apps.last());
        lemma_multiset_commutative(start.trace(earlier), actions);
        if before.is_visible {
            assert(actions =~= match before.previous_app {
                Some(a) => Seq::empty().push(OverlayAction::HideSelf).push(
                    OverlayAction::ReactivateApplication {
                        app: a,
                        options: ACTIVATE_IGNORING_OTHER_APPS,
                    },
                ).push(OverlayAction::ReleaseApplication(a)),
                None => Seq::empty().push(OverlayAction::HideSelf),
            });
        } else {
            let activate = OverlayAction::ActivateSelf { ignoring_other_apps: true };
            assert(actions =~= match recorded(front_apps.last()) {
                Some(a) => Seq::empty().push(OverlayAction::RetainApplication(a)).push(
                    activate,
                ).push(OverlayAction::ActivateOverlayWindow),
                None => Seq::empty().push(activate).push(OverlayAction::ActivateOverlayWindow),
            });
        }
    }
}

} // verus!
