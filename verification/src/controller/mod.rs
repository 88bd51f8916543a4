//! Flight-phase logic of the airbrakes controller.

pub mod stage;
