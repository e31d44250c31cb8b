use vstd::prelude::*;

use crate::action::Action;
use crate::gui_config::GuiConfig;
use crate::hit_test::ClickableElement;
use crate::hit_test::HitRegion;
use crate::hit_test::element_at;
use crate::hit_test::element_at_spec;
use crate::protocol::Instruction;
use crate::protocol::Output;

verus! {

/// A window-system event, reduced to the closed set of payloads the loop
/// reads; everything else is `Other`, a no-op.
#[derive(Copy, Clone, Debug, PartialEq, Eq, Structural)]
pub enum WindowEvent {
    /// The user asked the window to close.
    CloseRequested,
    /// A primary (`alternate == false`) or secondary pointer button went down.
    PointerPressed { alternate: bool },
    /// The pointer moved to this position.
    PointerMoved { x: usize, y: usize },
    /// The pointer left the window.
    PointerLeft,
    /// Any event the loop does not read.
    Other,
}

/// What the render thread holds while a window is up: the configuration it
/// draws and the hit-regions derived from the last successful render. The
/// native window and surface themselves stay with the unverified rim that
/// owns the platform event loop.
pub struct RenderModel {
    pub config: GuiConfig,
    pub hit_regions: Vec<HitRegion>,
}

/// The action a click on `element` means.
pub open spec fn action_for(element: ClickableElement, alternate_click: bool) -> Action {
    match element {
        ClickableElement::GridTile { x, y } => Action::TileClick { x, y, alternate_click },
        ClickableElement::Button { id } => Action::ButtonPress { button_id: id },
    }
}

/// The render thread's state machine: no window, a window showing a
/// configuration, or terminated. The surrounding loop owns the platform
/// window and feeds every instruction and window event through here; all
/// decisions are made by these methods.
pub struct EventLoopCore {
    render: Option<RenderModel>,
    last_cursor_pos: Option<(usize, usize)>,
    terminated: bool,
}

impl EventLoopCore {
    /// The held render state, if a window is up.
    pub closed spec fn spec_render(self) -> Option<RenderModel> {
        self.render
    }

    /// The last known pointer position, if the pointer is in the window.
    pub closed spec fn spec_cursor(self) -> Option<(usize, usize)> {
        self.last_cursor_pos
    }

    /// Whether the loop has reached its terminal state.
    pub closed spec fn spec_terminated(self) -> bool {
        self.terminated
    }

    /// The loop starts without a window, without a known pointer position,
    /// and running.
    pub fn new() -> (core: EventLoopCore)
        ensures
            core.spec_render() is None,
            core.spec_cursor() is None,
            !core.spec_terminated(),
    {
        EventLoopCore { render: None, last_cursor_pos: None, terminated: false }
    }

    /// Whether a window is currently up.
    pub fn has_render_state(&self) -> (r: bool)
        ensures
            r == (self.spec_render() is Some),
    {
        self.render.is_some()
    }

    /// Whether the loop has reached its terminal state and must exit.
    pub fn is_terminated(&self) -> (r: bool)
        ensures
            r == self.spec_terminated(),
    {
        self.terminated
    }

    /// The configuration to draw on a redraw tick, if a window is up.
    pub fn current_config(&self) -> (r: Option<&GuiConfig>)
        ensures
            r matches Some(c) ==> self.spec_render() matches Some(m) && *c == m.config,
            r is None <==> self.spec_render() is None,
    {
        match &self.render {
            Some(model) => Some(&model.config),
            None => None,
        }
    }

    /// Applies at most one instruction, as taken from the mailbox. A
    /// configure instruction replaces the shown configuration, or, with no
    /// window up, installs the window the caller created for it (`created`
    /// holds that attempt's outcome: fresh hit-regions, or the failure
    /// message to report). Whether or not creation succeeded, the configure
    /// instruction is acknowledged, so the controller's pending-update marker
    /// always eventually clears.
    pub fn apply_instruction(
        &mut self,
        instruction: Instruction,
        created: Option<Result<Vec<HitRegion>, String>>,
    ) -> (outputs: Vec<Output>)
        requires
            (instruction matches Instruction::Configure { .. } && old(self).spec_render() is None)
                ==> created is Some,
        ensures
            final(self).spec_cursor() == old(self).spec_cursor(),
            instruction matches Instruction::CloseWindow ==> final(self).spec_render() is None
                && final(self).spec_terminated() == old(self).spec_terminated() && outputs@.len()
                == 0,
            instruction matches Instruction::ShutDown ==> final(self).spec_terminated() && final(self).spec_render() == old(self).spec_render() && outputs@.len() == 0,
            instruction matches Instruction::Configure { config, update_id }
                ==> (old(self).spec_render() matches Some(m)
                ==> (final(self).spec_terminated() == old(self).spec_terminated()
                    && (final(self).spec_render() matches Some(fm)
                        && fm.config == config && fm.hit_regions@ == m.hit_regions@)
                    && outputs@.len() == 1
                    && outputs@[0] == (Output::UpdateAcknowledgement { update_id }))),
            instruction matches Instruction::Configure { config, update_id }
                ==> (created matches Some(Ok(regions))
                ==> (old(self).spec_render() is None
                ==> (final(self).spec_terminated() == old(self).spec_terminated()
                    && (final(self).spec_render() matches Some(fm)
                        && fm.config == config && fm.hit_regions@ == regions@)
                    && outputs@.len() == 1
                    && outputs@[0] == (Output::UpdateAcknowledgement { update_id })))),
            instruction matches Instruction::Configure { update_id, .. }
                ==> (created matches Some(Err(detail))
                ==> (old(self).spec_render() is None
                ==> (final(self).spec_terminated() == old(self).spec_terminated()
                    && final(self).spec_render() is None
                    && outputs@.len() == 2
                    && outputs@[0] == (Output::Error { detail_message: detail })
                    && outputs@[1] == (Output::UpdateAcknowledgement { update_id })))),
    {
        let mut outputs: Vec<Output> = Vec::new();
        match instruction {
            Instruction::Configure { config, update_id } => {
                if self.render.is_some() {
                    match &mut self.render {
                        Some(model) => {
                            model.config = config;
                        },
                        None => {},
                    }
                } else {
                    match created {
                        Some(Ok(regions)) => {
                            self.render = Some(RenderModel { config, hit_regions: regions });
                        },
                        Some(Err(detail)) => {
                            outputs.push(Output::Error { detail_message: detail });
                        },
                        None => {
                            proof {
                                assert(false);
                            }
                        },
                    }
                }
                outputs.push(Output::UpdateAcknowledgement { update_id });
            },
            Instruction::CloseWindow => {
                self.render = None;
            },
            Instruction::ShutDown => {
                self.terminated = true;
            },
        }
        outputs
    }

    /// Installs the hit-regions derived from a successful render of the
    /// current configuration.
    pub fn update_hit_regions(&mut self, regions: Vec<HitRegion>)
        requires
            old(self).spec_render() is Some,
        ensures
            final(self).spec_cursor() == old(self).spec_cursor(),
            final(self).spec_terminated() == old(self).spec_terminated(),
            final(self).spec_render() matches Some(fm) && fm.hit_regions@ == regions@ && (old(self).spec_render() matches Some(m) && fm.config == m.config),
    {
        match &mut self.render {
            Some(model) => {
                model.hit_regions = regions;
            },
            None => {},
        }
    }

    /// Translates one window event into at most one output. Events are read
    /// only while a window is up. A pointer press is hit-tested at the last
    /// known pointer position against the regions of the last render; a
    /// close request is configuration-independent, a click is not.
    pub fn handle_window_event(&mut self, event: WindowEvent) -> (out: Option<Output>)
        ensures
            final(self).spec_render() == old(self).spec_render(),
            final(self).spec_terminated() == old(self).spec_terminated(),
            old(self).spec_render() is None ==> *final(self) == *old(self) && out is None,
            old(self).spec_render() is Some ==> match event {
                WindowEvent::CloseRequested => *final(self) == *old(self) && out == (Some(
                    Output::Action {
                        action: Action::CloseRequested,
                        configuration_independent: true,
                    },
                )),
                WindowEvent::PointerPressed { alternate } => *final(self) == *old(self) && out
                    == (match old(self).spec_cursor() {
                    Some(pos) => match (match old(self).spec_render() {
                        Some(m) => element_at_spec(m.hit_regions@, pos.0 as int, pos.1 as int),
                        None => None,
                    }) {
                        Some(element) => Some(
                            Output::Action {
                                action: action_for(element, alternate),
                                configuration_independent: false,
                            },
                        ),
                        None => None,
                    },
                    None => None,
                }),
                WindowEvent::PointerMoved { x, y } => final(self).spec_cursor() == Some((x, y))
                    && out is None,
                WindowEvent::PointerLeft => final(self).spec_cursor() is None && out is None,
                WindowEvent::Other => *final(self) == *old(self) && out is None,
            },
    {
        if self.render.is_none() {
            return None;
        }
        match event {
            WindowEvent::CloseRequested => Some(
                Output::Action { action: Action::CloseRequested, configuration_independent: true },
            ),
            WindowEvent::PointerPressed { alternate } => {
                match self.last_cursor_pos {
                    Some(pos) => {
                        let model = match &self.render {
                            Some(model) => model,
                            None => {
                                return None;
                            },
                        };
                        match element_at(&model.hit_regions, pos.0, pos.1) {
                            Some(element) => {
                                let action = match element {
                                    ClickableElement::GridTile { x, y } => Action::TileClick {
                                        x: *x,
                                        y: *y,
                                        alternate_click: alternate,
                                    },
                                    ClickableElement::Button { id } => Action::ButtonPress {
                                        button_id: id.clone(),
                                    },
                                };
                                Some(
                                    Output::Action {
                                        action,
                                        configuration_independent: false,
                                    },
                                )
                            },
                            None => None,
                        }
                    },
                    None => None,
                }
            },
            WindowEvent::PointerMoved { x, y } => {
                self.last_cursor_pos = Some((x, y));
                None
            },
            WindowEvent::PointerLeft => {
                self.last_cursor_pos = None;
                None
            },
            WindowEvent::Other => None,
        }
    }
}

} // verus!
