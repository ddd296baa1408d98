//! The camera's share of the frame state: the aspect ratio, kept as the exact
//! fraction of the surface's width over its height, and the six directional
//! flags that key events switch.

use vstd::prelude::*;
use crate::input::{InputEvent, Key};

verus! {

/// The ratio `width / height`, kept as the fraction itself.
#[derive(Clone, Copy, Debug, PartialEq, Eq, Structural)]
pub struct AspectRatio {
    pub width: u32,
    pub height: u32,
}

/// The projection parameter that follows the surface.
#[derive(Clone, Copy, Debug, PartialEq, Eq, Structural)]
pub struct Camera {
    pub aspect: AspectRatio,
}

/// One of the six directions the camera can be pushed in.
#[derive(Clone, Copy, Debug, PartialEq, Eq, Structural)]
pub enum Direction {
    Forward,
    Backward,
    Left,
    Right,
    Up,
    Down,
}

/// Which directional keys are held down.
#[derive(Clone, Copy, Debug, PartialEq, Eq, Structural)]
pub struct CameraController {
    pub is_forward_pressed: bool,
    pub is_backward_pressed: bool,
    pub is_left_pressed: bool,
    pub is_right_pressed: bool,
    pub is_up_pressed: bool,
    pub is_down_pressed: bool,
}

/// The camera and its controller.
#[derive(Clone, Copy, Debug, PartialEq, Eq, Structural)]
pub struct CameraResources {
    pub camera: Camera,
    pub camera_controller: CameraController,
}

impl Camera {
    /// The camera for a surface of the given aspect ratio.
    pub fn new(aspect: AspectRatio) -> (camera: Camera)
        ensures
            camera.aspect == aspect,
    {
        Camera { aspect }
    }

    /// Takes the new aspect ratio; nothing else about the camera changes.
    pub fn resize(&mut self, aspect: AspectRatio)
        ensures
            *final(self) == (Camera { aspect, ..*old(self) }),
    {
        self.aspect = aspect;
    }
}

/// The direction a key pushes the camera in: W, A, S, D or the arrow keys
/// in the plane, Space up and left Shift down. Other keys push nowhere.
pub open spec fn spec_direction_of(key: Key) -> Option<Direction> {
    match key {
        Key::W | Key::Up => Some(Direction::Forward),
        Key::S | Key::Down => Some(Direction::Backward),
        Key::A | Key::Left => Some(Direction::Left),
        Key::D | Key::Right => Some(Direction::Right),
        Key::Space => Some(Direction::Up),
        Key::LeftShift => Some(Direction::Down),
        _ => None,
    }
}

/// The direction a key pushes the camera in, if any.
pub fn direction_of(key: Key) -> (direction: Option<Direction>)
    ensures
        direction == spec_direction_of(key),
{
    match key {
        Key::W | Key::Up => Some(Direction::Forward),
        Key::S | Key::Down => Some(Direction::Backward),
        Key::A | Key::Left => Some(Direction::Left),
        Key::D | Key::Right => Some(Direction::Right),
        Key::Space => Some(Direction::Up),
        Key::LeftShift => Some(Direction::Down),
        _ => None,
    }
}

impl CameraController {
    /// No key is held.
    pub open spec fn released() -> CameraController {
        CameraController {
            is_forward_pressed: false,
            is_backward_pressed: false,
            is_left_pressed: false,
            is_right_pressed: false,
            is_up_pressed: false,
            is_down_pressed: false,
        }
    }

    /// The flags with the one for `direction` set to `pressed`.
    pub open spec fn with_flag(self, direction: Direction, pressed: bool) -> CameraController {
        match direction {
            Direction::Forward => CameraController { is_forward_pressed: pressed, ..self },
            Direction::Backward => CameraController { is_backward_pressed: pressed, ..self },
            Direction::Left => CameraController { is_left_pressed: pressed, ..self },
            Direction::Right => CameraController { is_right_pressed: pressed, ..self },
            Direction::Up => CameraController { is_up_pressed: pressed, ..self },
            Direction::Down => CameraController { is_down_pressed: pressed, ..self },
        }
    }

    /// Whether the event is a press or release of a directional key.
    pub open spec fn affected_by(event: InputEvent) -> bool {
        event matches InputEvent::Keyboard { key, .. } && spec_direction_of(key).is_some()
    }

    /// The flags after the event: a press or release of a directional key
    /// sets that direction's flag; every other event leaves the flags alone.
    pub open spec fn after(self, event: InputEvent) -> CameraController {
        match event {
            InputEvent::Keyboard { key, pressed } => match spec_direction_of(key) {
                Some(direction) => self.with_flag(direction, pressed),
                None => self,
            },
            _ => self,
        }
    }

    /// A controller with no key held.
    pub fn new() -> (controller: CameraController)
        ensures
            controller == CameraController::released(),
    {
        CameraController {
            is_forward_pressed: false,
            is_backward_pressed: false,
            is_left_pressed: false,
            is_right_pressed: false,
            is_up_pressed: false,
            is_down_pressed: false,
        }
    }

    /// Updates the flags from the event and says whether the event was one
    /// that concerns the camera.
    pub fn process_events(&mut self, event: &InputEvent) -> (affected: bool)
        ensures
            *final(self) == old(self).after(*event),
            affected == CameraController::affected_by(*event),
    {
        match event {
            InputEvent::Keyboard { key, pressed } => {
                match direction_of(*key) {
                    Some(Direction::Forward) => {
                        self.is_forward_pressed = *pressed;
                        true
                    },
                    Some(Direction::Backward) => {
                        self.is_backward_pressed = *pressed;
                        true
                    },
                    Some(Direction::Left) => {
                        self.is_left_pressed = *pressed;
                        true
                    },
                    Some(Direction::Right) => {
                        self.is_right_pressed = *pressed;
                        true
                    },
                    Some(Direction::Up) => {
                        self.is_up_pressed = *pressed;
                        true
                    },
                    Some(Direction::Down) => {
                        self.is_down_pressed = *pressed;
                        true
                    },
                    None => false,
                }
            },
            _ => false,
        }
    }
}

impl CameraResources {
    /// The camera for a surface of the given aspect ratio, with no key held.
    pub fn new(aspect: AspectRatio) -> (resources: CameraResources)
        ensures
            resources == (CameraResources {
                camera: Camera { aspect },
                camera_controller: CameraController::released(),
            }),
    {
        CameraResources { camera: Camera::new(aspect), camera_controller: CameraController::new() }
    }
}

} // verus!
