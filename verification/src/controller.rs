//! The decisions of the controller: how the settings panel and the tray
//! change the configuration, when it is stored, and when the overlay process
//! is started and stopped. Drawing the panel, storing the file and handling
//! processes belong to the caller, which carries out the actions it is handed.

use crate::config::{clamp_opacity, clamped, is_valid_opacity, normalised, OverlayConfig};
use vstd::prelude::*;

verus! {

/// Something the user did in the settings panel or the tray menu.
#[derive(Clone, Copy, Debug, PartialEq, Eq, Structural)]
pub enum ControllerEvent {
    /// The opacity slider was moved to a value.
    OpacityPicked { opacity: u8 },
    /// The "enable overlay" box shows this state.
    EnabledPicked { enabled: bool },
    /// The "launch on startup" box shows this state.
    LaunchOnStartupPicked { launch: bool },
    /// The panel is to be minimised to the tray.
    MinimizeRequested,
    /// The panel's window was asked to close.
    CloseRequested,
    /// The tray menu asked for the panel.
    ShowRequested,
}

/// Something the caller does for the controller.
#[derive(Clone, Copy, Debug, PartialEq, Eq, Structural)]
pub enum ControllerAction {
    /// Store the configuration.
    Save { config: OverlayConfig },
    /// Start the overlay process.
    StartOverlay { opacity: u8 },
    /// Stop the overlay process.
    StopOverlay,
    /// Register or unregister the program to start with the session.
    SetLaunchOnStartup { launch: bool },
}

/// What the controller knows.
#[derive(Clone, Copy, Debug, PartialEq, Eq, Structural)]
pub struct Controller {
    /// The configuration as last stored or loaded.
    pub config: OverlayConfig,
    /// Whether the controller has an overlay process running.
    pub overlay_running: bool,
    /// Whether the settings panel is shown.
    pub visible: bool,
}

/// The controller after `event`. Whenever the configuration changes, the
/// opacity it holds is clamped.
pub open spec fn after_event(before: Controller, event: ControllerEvent) -> Controller {
    match event {
        ControllerEvent::OpacityPicked { opacity } => Controller {
            config: OverlayConfig { opacity: clamped(opacity), ..before.config },
            ..before
        },
        ControllerEvent::EnabledPicked { enabled } => if enabled != before.config.enabled {
            Controller {
                config: OverlayConfig { enabled, ..normalised(before.config) },
                overlay_running: enabled,
                ..before
            }
        } else {
            before
        },
        ControllerEvent::LaunchOnStartupPicked { launch } => if launch
            != before.config.launch_on_startup {
            Controller {
                config: OverlayConfig { launch_on_startup: launch, ..normalised(before.config) },
                ..before
            }
        } else {
            before
        },
        ControllerEvent::MinimizeRequested => Controller { visible: false, ..before },
        ControllerEvent::CloseRequested => Controller { visible: false, ..before },
        ControllerEvent::ShowRequested => Controller { visible: true, ..before },
    }
}

/// What is to be done on `event`, in order.
pub open spec fn actions_for(before: Controller, event: ControllerEvent) -> Seq<ControllerAction> {
    let after = after_event(before, event);
    match event {
        ControllerEvent::OpacityPicked { .. } => seq![
            ControllerAction::Save { config: after.config },
        ],
        ControllerEvent::EnabledPicked { enabled } => if enabled == before.config.enabled {
            Seq::empty()
        } else if enabled && !before.overlay_running {
            seq![
                ControllerAction::Save { config: after.config },
                ControllerAction::StartOverlay { opacity: after.config.opacity },
            ]
        } else if !enabled && before.overlay_running {
            seq![ControllerAction::Save { config: after.config }, ControllerAction::StopOverlay]
        } else {
            seq![ControllerAction::Save { config: after.config }]
        },
        ControllerEvent::LaunchOnStartupPicked { launch } => if launch
            != before.config.launch_on_startup {
            seq![
                ControllerAction::SetLaunchOnStartup { launch },
                ControllerAction::Save { config: after.config },
            ]
        } else {
            Seq::empty()
        },
        _ => Seq::empty(),
    }
}

/// The controller as it starts with the configuration that was loaded: the
/// opacity is clamped, the panel is shown, and the overlay runs if the
/// configuration enables it.
pub open spec fn started(config: OverlayConfig) -> Controller {
    Controller { config: normalised(config), overlay_running: config.enabled, visible: true }
}

/// What is to be done when the controller starts: the overlay is started,
/// at the clamped opacity, if the configuration enables it.
pub open spec fn actions_at_start(config: OverlayConfig) -> Seq<ControllerAction> {
    if config.enabled {
        seq![ControllerAction::StartOverlay { opacity: clamped(config.opacity) }]
    } else {
        Seq::empty()
    }
}

impl Controller {
    /// Starts the controller with the configuration that was loaded, and
    /// says whether the overlay is to be started.
    pub fn start(config: OverlayConfig) -> (result: (Controller, Vec<ControllerAction>))
        ensures
            result.0 == started(config),
            result.0.config.well_formed(),
            result.1@ == actions_at_start(config),
    {
        let config = config.normalised();
        let mut actions: Vec<ControllerAction> = Vec::new();
        if config.enabled {
            actions.push(ControllerAction::StartOverlay { opacity: config.opacity });
        }
        (Controller { config, overlay_running: config.enabled, visible: true }, actions)
    }

    /// Takes an event of the panel or the tray, and says what is to be done.
    pub fn handle(&mut self, event: ControllerEvent) -> (actions: Vec<ControllerAction>)
        ensures
            *final(self) == after_event(*old(self), event),
            actions@ == actions_for(*old(self), event),
            old(self).config.well_formed() ==> final(self).config.well_formed(),
    {
        let mut actions: Vec<ControllerAction> = Vec::new();
        match event {
            ControllerEvent::OpacityPicked { opacity } => {
                self.config.opacity = clamp_opacity(opacity);
                actions.push(ControllerAction::Save { config: self.config });
            },
            ControllerEvent::EnabledPicked { enabled } => {
                if enabled != self.config.enabled {
                    self.config.opacity = clamp_opacity(self.config.opacity);
                    self.config.enabled = enabled;
                    actions.push(ControllerAction::Save { config: self.config });
                    if enabled {
                        if !self.overlay_running {
                            self.overlay_running = true;
                            actions.push(
                                ControllerAction::StartOverlay { opacity: self.config.opacity },
                            );
                        }
                    } else {
                        if self.overlay_running {
                            self.overlay_running = false;
                            actions.push(ControllerAction::StopOverlay);
                        }
                    }
                }
            },
            ControllerEvent::LaunchOnStartupPicked { launch } => {
                if launch != self.config.launch_on_startup {
                    self.config.opacity = clamp_opacity(self.config.opacity);
                    self.config.launch_on_startup = launch;
                    actions.push(ControllerAction::SetLaunchOnStartup { launch });
                    actions.push(ControllerAction::Save { config: self.config });
                }
            },
            ControllerEvent::MinimizeRequested => {
                self.visible = false;
            },
            ControllerEvent::CloseRequested => {
                self.visible = false;
            },
            ControllerEvent::ShowRequested => {
                self.visible = true;
            },
        }
        assert(actions@ =~= actions_for(*old(self), event));
        actions
    }

    /// Answers a request to close the panel's window: the panel is hidden,
    /// and the window is never closed.
    pub fn on_close_event(&mut self) -> (close: bool)
        ensures
            !close,
            *final(self) == after_event(*old(self), ControllerEvent::CloseRequested),
    {
        self.visible = false;
        false
    }
}

/// Whatever state the controller is in and whatever the user does, every
/// configuration handed out to be stored is well-formed, and every opacity
/// handed to the overlay lies in the opacity range. A well-formed
/// configuration stays well-formed.
pub proof fn handed_out_opacities_are_clamped(before: Controller, event: ControllerEvent, i: int)
    requires
        0 <= i < actions_for(before, event).len(),
    ensures
        actions_for(before, event)[i] matches ControllerAction::Save { config }
            ==> config.well_formed() && config == after_event(before, event).config,
        actions_for(before, event)[i] matches ControllerAction::StartOverlay { opacity }
            ==> is_valid_opacity(opacity) && opacity == after_event(before, event).config.opacity,
        before.config.well_formed() ==> after_event(before, event).config.well_formed(),
{
}

/// However the configuration that was loaded looks, the controller starts
/// with a well-formed one, and starts the overlay, if at all, at an opacity
/// of the range.
pub proof fn start_clamps_the_opacity(config: OverlayConfig)
    ensures
        started(config).config.well_formed(),
        config.well_formed() ==> started(config).config == config,
        config.enabled ==> actions_at_start(config) == seq![
            ControllerAction::StartOverlay { opacity: started(config).config.opacity },
        ] && is_valid_opacity(started(config).config.opacity),
        !config.enabled ==> actions_at_start(config).len() == 0,
{
}

/// Every change of the configuration is stored: an event that changes the
/// configuration hands out a `Save` of the new one.
pub proof fn every_change_is_stored(before: Controller, event: ControllerEvent)
    requires
        after_event(before, event).config != before.config,
    ensures
        actions_for(before, event).contains(
            ControllerAction::Save { config: after_event(before, event).config },
        ),
{
    let after = after_event(before, event);
    let save = ControllerAction::Save { config: after.config };
    match event {
        ControllerEvent::OpacityPicked { .. } => {
            assert(actions_for(before, event)[0] == save);
        },
        ControllerEvent::EnabledPicked { .. } => {
            assert(actions_for(before, event)[0] == save);
        },
        ControllerEvent::LaunchOnStartupPicked { .. } => {
            assert(actions_for(before, event)[1] == save);
        },
        _ => {},
    }
}

} // verus!
