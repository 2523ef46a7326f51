//! State shared by the stabilizer's tasks: the angle the gyroscope task last
//! computed, the anchor the motor holds the camera at, the threshold below
//! which the motor is not moved, and whether the motor is frozen.
//!
//! Angles and the threshold are `f32` values stored by their bit patterns
//! (`f32::to_bits`); the tasks convert them on either side.
//!
//! Every field is an atomic that any task may store into at any time, so no
//! contract here says what a load gives back.
use vstd::prelude::*;
use std::sync::Arc;
use std::sync::atomic::{AtomicBool, AtomicU32};
use std::sync::atomic::Ordering;
use crate::control::{ButtonAction, press_action, spec_press_action};

verus! {

/// An `f32` held in an atomic by its bit pattern.
struct AtomicF32 {
    storage: AtomicU32,
}

impl AtomicF32 {
    /// A new atomic holding the `f32` whose bits are `value_bits`.
    pub fn new(value_bits: u32) -> Self {
        AtomicF32 { storage: AtomicU32::new(value_bits) }
    }

    /// Stores the `f32` whose bits are `value_bits`.
    pub fn store(&self, value_bits: u32, order: Ordering) {
        self.storage.store(value_bits, order);
    }

    /// The bits of the `f32` held now.
    pub fn load(&self, order: Ordering) -> u32 {
        self.storage.load(order)
    }
}

/// The stabilizer's state, safe to share between tasks.
pub struct StabilizerState {
    current_angle: AtomicF32,
    anchor_angle: AtomicF32,
    threshold: AtomicF32,
    freezed: AtomicBool,
}

impl StabilizerState {
    /// All angles and the threshold at 0.0, not frozen.
    pub fn default() -> Self {
        StabilizerState {
            current_angle: AtomicF32::new(0),
            anchor_angle: AtomicF32::new(0),
            threshold: AtomicF32::new(0),
            freezed: AtomicBool::new(false),
        }
    }

    /// Flips whether the motor is frozen.
    pub fn toggle_freeze(&self) {
        self.freezed.fetch_xor(true, Ordering::Release);
    }

    /// Moves the anchor to the current angle.
    pub fn set_anchor(&self) {
        let new_anchor = self.current_angle.load(Ordering::Acquire);
        self.anchor_angle.store(new_anchor, Ordering::Release);
    }

    /// Stores the current angle, given by its bits.
    pub fn set_current_angle(&self, angle_bits: u32) {
        self.current_angle.store(angle_bits, Ordering::Release);
    }

    /// Stores the threshold, given by its bits.
    pub fn set_threshold(&self, threshold_bits: u32) {
        self.threshold.store(threshold_bits, Ordering::Release);
    }

    /// The bits of the current angle.
    pub fn get_current_angle(&self) -> u32 {
        self.current_angle.load(Ordering::Acquire)
    }

    /// The bits of the anchor angle.
    pub fn get_anchor_angle(&self) -> u32 {
        self.anchor_angle.load(Ordering::Acquire)
    }

    /// The bits of the threshold.
    pub fn get_threshold(&self) -> u32 {
        self.threshold.load(Ordering::Acquire)
    }

    /// Whether the motor is frozen.
    pub fn get_freezed(&self) -> bool {
        self.freezed.load(Ordering::Acquire)
    }
}

/// A handle on one stabilizer state; clones share it.
#[derive(Clone)]
pub struct SharedState(Arc<StabilizerState>);

impl SharedState {
    /// The state that this handle shares.
    pub closed spec fn state(&self) -> StabilizerState {
        *self.0
    }

    /// A handle on `state`.
    pub fn new(state: StabilizerState) -> (s: Self)
        ensures
            s.state() == state,
    {
        SharedState(Arc::new(state))
    }

    /// Stores the current angle, given by its bits.
    pub fn set_current_angle(&self, angle_bits: u32) {
        self.0.set_current_angle(angle_bits);
    }

    /// Stores the threshold, given by its bits.
    pub fn set_threshold(&self, threshold_bits: u32) {
        self.0.set_threshold(threshold_bits);
    }

    /// Moves the anchor to the current angle.
    pub fn set_anchor(&self) {
        self.0.set_anchor();
    }

    /// Flips whether the motor is frozen.
    pub fn toggle_freeze(&self) {
        self.0.toggle_freeze();
    }

    /// The bits of the current angle, the bits of the anchor angle, the bits
    /// of the threshold, and whether the motor is frozen, read in that order.
    pub fn snapshot(&self) -> (u32, u32, u32, bool) {
        let current_angle = self.0.get_current_angle();
        let anchor_angle = self.0.get_anchor_angle();
        let threshold = self.0.get_threshold();
        let freezed = self.0.get_freezed();
        (current_angle, anchor_angle, threshold, freezed)
    }

    /// Acts on a button press held for `duration_ms` milliseconds: a long
    /// press moves the anchor to the current angle, a short one toggles the
    /// freeze, a shorter one does nothing. Returns the action taken.
    pub fn handle_press(&self, duration_ms: u128) -> (action: ButtonAction)
        ensures
            action == spec_press_action(duration_ms),
    {
        let action = press_action(duration_ms);
        match action {
            ButtonAction::SetAnchor => self.set_anchor(),
            ButtonAction::ToggleFreeze => self.toggle_freeze(),
            ButtonAction::Ignore => {},
        }
        action
    }
}

} // verus!
