//! The navigation controller: from input events to camera commands.
//!
//! The controller is a state machine over the held mouse buttons and
//! modifier keys, the last cursor position and the viewport size. Each event
//! yields the next state and one [`CameraCommand`] for the host to carry out:
//!
//! | event | command |
//! |---|---|
//! | resize | set the aspect ratio |
//! | shift or control, down or up | none |
//! | left button down | pick at the last cursor position |
//! | middle or right button, down or up | none |
//! | cursor moved while navigating | pan with shift, else dolly with control, else orbit |
//! | wheel | dolly |
//!
//! *Navigating* means that the middle or the right button is held. A command
//! carries the values that the host's arithmetic starts from, never a result
//! of arithmetic.

use vstd::prelude::*;
use crate::scalar::Scalar;

verus! {

/// The encoding of `0.005`: radians of orbit for one pixel of drag.
pub const ORBIT_SENSITIVITY_BITS: u32 = 0x3ba3_d70a;

/// The encoding of `0.01`: units of pan for one pixel of drag.
pub const PAN_SENSITIVITY_BITS: u32 = 0x3c23_d70a;

/// The encoding of `0.1`: units of dolly for one pixel of drag.
pub const DRAG_DOLLY_SENSITIVITY_BITS: u32 = 0x3dcc_cccd;

/// The encoding of `1`: units of dolly for one line of the wheel.
pub const WHEEL_LINE_SENSITIVITY_BITS: u32 = 0x3f80_0000;

/// The encoding of `0.1`: units of dolly for one pixel of the wheel.
pub const WHEEL_PIXEL_SENSITIVITY_BITS: u32 = 0x3dcc_cccd;

/// The width of the viewport before the first resize, in pixels.
pub const DEFAULT_WIDTH: u32 = 800;

/// The height of the viewport before the first resize, in pixels.
pub const DEFAULT_HEIGHT: u32 = 600;

/// A cursor position in the window, in pixels from the top left corner.
#[derive(Clone, Copy, Debug, PartialEq, Eq, Structural)]
pub struct CursorPos {
    pub x: Scalar,
    pub y: Scalar,
}

/// The keys the controller tells apart.
#[derive(Clone, Copy, Debug, PartialEq, Eq, Structural)]
pub enum Key {
    /// Either shift key.
    Shift,
    /// Either control key.
    Control,
    /// Any other key.
    Other,
}

/// The mouse buttons the controller tells apart.
#[derive(Clone, Copy, Debug, PartialEq, Eq, Structural)]
pub enum MouseButton {
    Left,
    Middle,
    Right,
    /// Any other button.
    Other,
}

/// A turn of the wheel, by its vertical amount.
#[derive(Clone, Copy, Debug, PartialEq, Eq, Structural)]
pub enum Scroll {
    /// An amount in lines.
    Lines(Scalar),
    /// An amount in pixels.
    Pixels(Scalar),
}

/// An input event, reduced to what the controller reads of it.
#[derive(Clone, Copy, Debug, PartialEq, Eq, Structural)]
pub enum InputEvent {
    /// The viewport has a new size, in pixels.
    Resized { width: u32, height: u32 },
    /// A key went down (`pressed`) or up.
    KeyboardInput { key: Key, pressed: bool },
    /// A mouse button went down (`pressed`) or up.
    MouseInput { button: MouseButton, pressed: bool },
    /// The cursor is at a new position.
    CursorMoved { position: CursorPos },
    /// The wheel turned.
    MouseWheel { scroll: Scroll },
    /// Any other event.
    Other,
}

/// The factors by which input is scaled before it reaches the camera. The
/// host multiplies; the controller only names the factor that applies.
#[derive(Clone, Copy, Debug, PartialEq, Eq, Structural)]
pub struct Sensitivity {
    /// Radians of orbit for one pixel of drag.
    pub orbit: Scalar,
    /// Units of pan for one pixel of drag.
    pub pan: Scalar,
    /// Units of dolly for one pixel of vertical drag.
    pub drag_dolly: Scalar,
    /// Units of dolly for one line of the wheel.
    pub wheel_line: Scalar,
    /// Units of dolly for one pixel of the wheel.
    pub wheel_pixel: Scalar,
}

impl Sensitivity {
    /// The default factors: 0.005 for orbit, 0.01 for pan, 0.1 for dolly by
    /// drag, 1 for a line and 0.1 for a pixel of the wheel.
    pub open spec fn spec_default() -> Sensitivity {
        Sensitivity {
            orbit: Scalar { bits: ORBIT_SENSITIVITY_BITS },
            pan: Scalar { bits: PAN_SENSITIVITY_BITS },
            drag_dolly: Scalar { bits: DRAG_DOLLY_SENSITIVITY_BITS },
            wheel_line: Scalar { bits: WHEEL_LINE_SENSITIVITY_BITS },
            wheel_pixel: Scalar { bits: WHEEL_PIXEL_SENSITIVITY_BITS },
        }
    }
}

impl Default for Sensitivity {
    fn default() -> (sensitivity: Sensitivity)
        ensures
            sensitivity == Sensitivity::spec_default(),
    {
        Sensitivity {
            orbit: Scalar::from_bits(ORBIT_SENSITIVITY_BITS),
            pan: Scalar::from_bits(PAN_SENSITIVITY_BITS),
            drag_dolly: Scalar::from_bits(DRAG_DOLLY_SENSITIVITY_BITS),
            wheel_line: Scalar::from_bits(WHEEL_LINE_SENSITIVITY_BITS),
            wheel_pixel: Scalar::from_bits(WHEEL_PIXEL_SENSITIVITY_BITS),
        }
    }
}

/// What the host is to do after an event.
#[derive(Clone, Copy, Debug, PartialEq, Eq, Structural)]
pub enum CameraCommand {
    /// Nothing.
    Nothing,
    /// Set the camera's aspect ratio to `width / height`. A viewport without
    /// height has no finite ratio, and the camera refuses it.
    SetAspect { width: u32, height: u32 },
    /// Cast a ray through the pixel at `cursor` of a viewport of the given
    /// size, and pick along it.
    Pick { cursor: CursorPos, width: u32, height: u32 },
    /// Pan by `(to − from) · sensitivity`.
    Pan { from: CursorPos, to: CursorPos, sensitivity: Scalar },
    /// Dolly by `(to.y − from.y) · sensitivity`.
    DragDolly { from: CursorPos, to: CursorPos, sensitivity: Scalar },
    /// Orbit by `(to − from) · sensitivity`.
    Orbit { from: CursorPos, to: CursorPos, sensitivity: Scalar },
    /// Dolly by `amount · sensitivity`.
    WheelDolly { amount: Scalar, sensitivity: Scalar },
}

impl CameraCommand {
    /// Whether carrying out the command changes the camera.
    pub open spec fn spec_changes_camera(self) -> bool {
        !(self is Nothing || self is Pick)
    }

    /// Whether carrying out the command changes the camera.
    #[verifier::when_used_as_spec(spec_changes_camera)]
    pub fn changes_camera(self) -> (changes: bool)
        ensures
            changes == self.spec_changes_camera(),
    {
        match self {
            CameraCommand::Nothing => false,
            CameraCommand::Pick { .. } => false,
            _ => true,
        }
    }
}

/// The state of the navigation controller.
#[derive(Clone, Copy, Debug, PartialEq, Eq, Structural)]
pub struct CameraController {
    pub last_mouse_pos: CursorPos,
    pub mouse_lb_pressed: bool,
    pub mouse_mb_pressed: bool,
    pub mouse_rb_pressed: bool,
    pub shift_pressed: bool,
    pub ctrl_pressed: bool,
    pub width: u32,
    pub height: u32,
    pub sensitivity: Sensitivity,
}

impl CameraController {
    /// The state before any event, with the given factors: no button and no
    /// key held, the cursor at `(0, 0)`, a viewport of 800 by 600 pixels.
    pub open spec fn initial(sensitivity: Sensitivity) -> CameraController {
        CameraController {
            last_mouse_pos: CursorPos { x: Scalar::spec_zero(), y: Scalar::spec_zero() },
            mouse_lb_pressed: false,
            mouse_mb_pressed: false,
            mouse_rb_pressed: false,
            shift_pressed: false,
            ctrl_pressed: false,
            width: DEFAULT_WIDTH,
            height: DEFAULT_HEIGHT,
            sensitivity,
        }
    }

    /// A controller in its initial state with the default factors.
    pub fn new() -> (controller: CameraController)
        ensures
            controller == CameraController::initial(Sensitivity::spec_default()),
    {
        CameraController::with_sensitivity(Sensitivity::default())
    }

    /// A controller in its initial state with the given factors.
    pub fn with_sensitivity(sensitivity: Sensitivity) -> (controller: CameraController)
        ensures
            controller == CameraController::initial(sensitivity),
    {
        CameraController {
            last_mouse_pos: CursorPos { x: Scalar::zero(), y: Scalar::zero() },
            mouse_lb_pressed: false,
            mouse_mb_pressed: false,
            mouse_rb_pressed: false,
            shift_pressed: false,
            ctrl_pressed: false,
            width: DEFAULT_WIDTH,
            height: DEFAULT_HEIGHT,
            sensitivity,
        }
    }

    /// Whether a drag moves the camera: the middle or the right button is
    /// held.
    pub open spec fn spec_navigating(self) -> bool {
        self.mouse_mb_pressed || self.mouse_rb_pressed
    }

    /// Whether the middle or the right button is held.
    #[verifier::when_used_as_spec(spec_navigating)]
    pub fn navigating(self) -> (navigating: bool)
        ensures
            navigating == self.spec_navigating(),
    {
        self.mouse_mb_pressed || self.mouse_rb_pressed
    }

    /// The state after an event. Each part of the state follows the events
    /// of its own kind and is untouched by every other event.
    pub open spec fn next(self, event: InputEvent) -> CameraController {
        CameraController {
            last_mouse_pos: match event {
                InputEvent::CursorMoved { position } => position,
                _ => self.last_mouse_pos,
            },
            mouse_lb_pressed: match event {
                InputEvent::MouseInput { button: MouseButton::Left, pressed } => pressed,
                _ => self.mouse_lb_pressed,
            },
            mouse_mb_pressed: match event {
                InputEvent::MouseInput { button: MouseButton::Middle, pressed } => pressed,
                _ => self.mouse_mb_pressed,
            },
            mouse_rb_pressed: match event {
                InputEvent::MouseInput { button: MouseButton::Right, pressed } => pressed,
                _ => self.mouse_rb_pressed,
            },
            shift_pressed: match event {
                InputEvent::KeyboardInput { key: Key::Shift, pressed } => pressed,
                _ => self.shift_pressed,
            },
            ctrl_pressed: match event {
                InputEvent::KeyboardInput { key: Key::Control, pressed } => pressed,
                _ => self.ctrl_pressed,
            },
            width: match event {
                InputEvent::Resized { width, height } => width,
                _ => self.width,
            },
            height: match event {
                InputEvent::Resized { width, height } => height,
                _ => self.height,
            },
            sensitivity: self.sensitivity,
        }
    }

    /// The command that an event gives rise to in this state.
    pub open spec fn command(self, event: InputEvent) -> CameraCommand {
        match event {
            InputEvent::Resized { width, height } => CameraCommand::SetAspect { width, height },
            InputEvent::MouseInput { button: MouseButton::Left, pressed: true } => CameraCommand::Pick {
                cursor: self.last_mouse_pos,
                width: self.width,
                height: self.height,
            },
            InputEvent::CursorMoved { position } => if !self.spec_navigating() {
                CameraCommand::Nothing
            } else if self.shift_pressed {
                CameraCommand::Pan {
                    from: self.last_mouse_pos,
                    to: position,
                    sensitivity: self.sensitivity.pan,
                }
            } else if self.ctrl_pressed {
                CameraCommand::DragDolly {
                    from: self.last_mouse_pos,
                    to: position,
                    sensitivity: self.sensitivity.drag_dolly,
                }
            } else {
                CameraCommand::Orbit {
                    from: self.last_mouse_pos,
                    to: position,
                    sensitivity: self.sensitivity.orbit,
                }
            },
            InputEvent::MouseWheel { scroll: Scroll::Lines(amount) } => CameraCommand::WheelDolly {
                amount,
                sensitivity: self.sensitivity.wheel_line,
            },
            InputEvent::MouseWheel { scroll: Scroll::Pixels(amount) } => CameraCommand::WheelDolly {
                amount,
                sensitivity: self.sensitivity.wheel_pixel,
            },
            _ => CameraCommand::Nothing,
        }
    }

    /// Takes an event: moves to the next state and returns the command for
    /// the host, together with the flag that tells whether the command
    /// changes the camera.
    pub fn handle_event(&mut self, event: &InputEvent) -> (out: (CameraCommand, bool))
        ensures
            *final(self) == old(self).next(*event),
            out.0 == old(self).command(*event),
            out.1 == out.0.spec_changes_camera(),
    {
        let mut command = CameraCommand::Nothing;
        let mut camera_changed = false;
        match *event {
            InputEvent::Resized { width, height } => {
                self.width = width;
                self.height = height;
                command = CameraCommand::SetAspect { width, height };
                camera_changed = true;
            },
            InputEvent::KeyboardInput { key, pressed } => {
                match key {
                    Key::Shift => {
                        self.shift_pressed = pressed;
                    },
                    Key::Control => {
                        self.ctrl_pressed = pressed;
                    },
                    Key::Other => {},
                }
            },
            InputEvent::MouseInput { button, pressed } => {
                match button {
                    MouseButton::Left => {
                        self.mouse_lb_pressed = pressed;
                        if pressed {
                            command =
                            CameraCommand::Pick {
                                cursor: self.last_mouse_pos,
                                width: self.width,
                                height: self.height,
                            };
                        }
                    },
                    MouseButton::Middle => {
                        self.mouse_mb_pressed = pressed;
                    },
                    MouseButton::Right => {
                        self.mouse_rb_pressed = pressed;
                    },
                    MouseButton::Other => {},
                }
            },
            InputEvent::CursorMoved { position } => {
                let from = self.last_mouse_pos;
                if self.mouse_mb_pressed || self.mouse_rb_pressed {
                    if self.shift_pressed {
                        command =
                        CameraCommand::Pan {
                            from,
                            to: position,
                            sensitivity: self.sensitivity.pan,
                        };
                    } else if self.ctrl_pressed {
                        command =
                        CameraCommand::DragDolly {
                            from,
                            to: position,
                            sensitivity: self.sensitivity.drag_dolly,
                        };
                    } else {
                        command =
                        CameraCommand::Orbit {
                            from,
                            to: position,
                            sensitivity: self.sensitivity.orbit,
                        };
                    }
                    camera_changed = true;
                }
                self.last_mouse_pos = position;
            },
            InputEvent::MouseWheel { scroll } => {
                command =
                match scroll {
                    Scroll::Lines(amount) => CameraCommand::WheelDolly {
                        amount,
                        sensitivity: self.sensitivity.wheel_line,
                    },
                    Scroll::Pixels(amount) => CameraCommand::WheelDolly {
                        amount,
                        sensitivity: self.sensitivity.wheel_pixel,
                    },
                };
                camera_changed = true;
            },
            InputEvent::Other => {},
        }
        (command, camera_changed)
    }
}

/// The controller always knows where the cursor is: after a cursor event the
/// last position is the event's, whichever keys and buttons are held.
pub proof fn lemma_cursor_is_tracked(state: CameraController, position: CursorPos)
    ensures
        state.next(InputEvent::CursorMoved { position }).last_mouse_pos == position,
{
}

/// Keys alone do not move the camera: a key event yields no command, and it
/// changes at most the flag of its own key.
pub proof fn lemma_keys_give_no_command(state: CameraController, key: Key, pressed: bool)
    ensures
        state.command(InputEvent::KeyboardInput { key, pressed }) == CameraCommand::Nothing,
        state.next(InputEvent::KeyboardInput { key, pressed }) == (CameraController {
            shift_pressed: if key == Key::Shift {
                pressed
            } else {
                state.shift_pressed
            },
            ctrl_pressed: if key == Key::Control {
                pressed
            } else {
                state.ctrl_pressed
            },
            ..state
        }),
{
}

/// A drag moves the camera exactly while the controller is navigating, and
/// then shift selects pan before control selects dolly before orbit.
pub proof fn lemma_drag_modes(state: CameraController, position: CursorPos)
    ensures
        state.command(InputEvent::CursorMoved { position }).spec_changes_camera()
            <==> state.spec_navigating(),
        state.spec_navigating() && state.shift_pressed ==> state.command(
            InputEvent::CursorMoved { position },
        ) is Pan,
        state.spec_navigating() && !state.shift_pressed && state.ctrl_pressed ==> state.command(
            InputEvent::CursorMoved { position },
        ) is DragDolly,
        state.spec_navigating() && !state.shift_pressed && !state.ctrl_pressed ==> state.command(
            InputEvent::CursorMoved { position },
        ) is Orbit,
{
}

/// The wheel dollies whatever is held: two states with the same factors give
/// the same command for the same turn of the wheel, and it changes the camera.
pub proof fn lemma_wheel_ignores_buttons(
    first: CameraController,
    second: CameraController,
    scroll: Scroll,
)
    requires
        first.sensitivity == second.sensitivity,
    ensures
        first.command(InputEvent::MouseWheel { scroll }) == second.command(
            InputEvent::MouseWheel { scroll },
        ),
        first.command(InputEvent::MouseWheel { scroll }) is WheelDolly,
        first.next(InputEvent::MouseWheel { scroll }) == first,
{
}

/// A pick is asked for exactly when the left button goes down, and it is
/// aimed at the last cursor position in the current viewport.
pub proof fn lemma_pick_on_left_press(state: CameraController, event: InputEvent)
    ensures
        state.command(event) is Pick <==> event == (InputEvent::MouseInput {
            button: MouseButton::Left,
            pressed: true,
        }),
        state.command(event) is Pick ==> state.command(event) == (CameraCommand::Pick {
            cursor: state.last_mouse_pos,
            width: state.width,
            height: state.height,
        }),
{
}

/// The factors are configuration: no event changes them.
pub proof fn lemma_sensitivity_is_kept(state: CameraController, event: InputEvent)
    ensures
        state.next(event).sensitivity == state.sensitivity,
{
}

} // verus!
