//! Verified logic of the RoKi split keyboard firmware: joystick and trackball
//! motion arithmetic, the PMW3360 register protocol, buzzer tone plans, the
//! BLE static address, event routing and the default keymap.

pub mod ble_addr;
pub mod buzzer;
pub mod forwarding;
pub mod hid;
pub mod joystick;
pub mod keymap;
pub mod motion;
pub mod trackball;
