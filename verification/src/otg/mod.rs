pub mod hid;
