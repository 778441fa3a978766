//! A minimal USB HID gadget report library: fixed-layout binary encodings
//! for keyboard, relative-mouse and absolute-mouse input reports, and the
//! routing of each report to the device class it belongs to.

pub mod device;
