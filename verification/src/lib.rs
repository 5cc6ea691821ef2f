//! The input and control core of a small LED-matrix clock: the drivers of
//! its light sensor and its joystick board, the menu in which a region is
//! picked, and the state machine that shows the time of that region.
//!
//! Nothing in here touches the bus, the canvas or the system clock. The
//! drivers say which bus transaction is due and take its outcome; the state
//! machine takes the sensor readings and the time of each frame and says
//! what to draw.

pub mod inputs;
pub mod state;
pub mod states;
