//! The colours and widget texts of the monitor's interface, with colours
//! given as `0xRRGGBB` values.
pub mod theme;
pub mod widgets;
