//! The cyber colour palette and the colour rules built on it.
use vstd::prelude::*;

verus! {

/// Cyber color palette, as `0xRRGGBB` values
pub struct CyberColors;

impl CyberColors {
    /// Background
    pub const BACKGROUND: u32 = 0x0D1117;
    /// Dark background
    pub const BACKGROUND_DARK: u32 = 0x080A0F;
    /// Light background
    pub const BACKGROUND_LIGHT: u32 = 0x161B22;
    /// Surface
    pub const SURFACE: u32 = 0x1E252E;
    /// Hovered surface
    pub const SURFACE_HOVER: u32 = 0x28303A;
    /// Cyan accent
    pub const CYAN: u32 = 0x00FFFF;
    /// Dim cyan accent
    pub const CYAN_DIM: u32 = 0x00B4B4;
    /// Magenta accent
    pub const MAGENTA: u32 = 0xFF00FF;
    /// Dim magenta accent
    pub const MAGENTA_DIM: u32 = 0xB400B4;
    /// Neon green
    pub const NEON_GREEN: u32 = 0x39FF14;
    /// Neon orange
    pub const NEON_ORANGE: u32 = 0xFFA500;
    /// Neon yellow
    pub const NEON_YELLOW: u32 = 0xFFFF00;
    /// Neon red
    pub const NEON_RED: u32 = 0xFF3C3C;
    /// Neon blue
    pub const NEON_BLUE: u32 = 0x0096FF;
    /// Neon purple
    pub const NEON_PURPLE: u32 = 0xB464FF;
    /// Primary text
    pub const TEXT_PRIMARY: u32 = 0xE6EDF3;
    /// Secondary text
    pub const TEXT_SECONDARY: u32 = 0x8C949E;
    /// Muted text
    pub const TEXT_MUTED: u32 = 0x646C76;
    /// Success
    pub const SUCCESS: u32 = 0x2EA043;
    /// Warning
    pub const WARNING: u32 = 0xD29922;
    /// Error
    pub const ERROR: u32 = 0xDA3633;
    /// Information
    pub const INFO: u32 = 0x388BFD;
    /// Threshold OK (0-50%)
    pub const THRESHOLD_OK: u32 = 0x2ECC71;
    /// Threshold careful (50-70%)
    pub const THRESHOLD_CAREFUL: u32 = 0x34D3FF;
    /// Threshold warning (70-90%)
    pub const THRESHOLD_WARNING: u32 = 0xFFCE56;
    /// Threshold critical (90-100%)
    pub const THRESHOLD_CRITICAL: u32 = 0xFF6363;
    /// Grid lines
    pub const GRID: u32 = 0x30363D;
    /// Borders
    pub const BORDER: u32 = 0x30363D;
    /// Glowing borders
    pub const BORDER_GLOW: u32 = 0x00C8C8;
}

/// The red, green and blue parts of a `0xRRGGBB` colour.
pub fn rgb(c: u32) -> (r: (u8, u8, u8))
    requires
        c < 0x100_0000,
    ensures
        r.0 == c / 0x1_0000,
        r.1 == (c / 0x100) % 0x100,
        r.2 == c % 0x100,
{
    ((c / 0x1_0000) as u8, ((c / 0x100) % 0x100) as u8, (c % 0x100) as u8)
}

/// The colour of a temperature in °C: green below 50, yellow below 70,
/// orange below 85, red from 85.
pub open spec fn temperature_color_of(temp: u32) -> u32 {
    if temp < 50 {
        0x39FF14
    } else if temp < 70 {
        0xFFFF00
    } else if temp < 85 {
        0xFFA500
    } else {
        0xFF3C3C
    }
}

/// Get color for temperature
pub fn temperature_color(temp: u32) -> (c: u32)
    ensures
        c == temperature_color_of(temp),
{
    if temp < 50 {
        CyberColors::NEON_GREEN
    } else if temp < 70 {
        CyberColors::NEON_YELLOW
    } else if temp < 85 {
        CyberColors::NEON_ORANGE
    } else {
        CyberColors::NEON_RED
    }
}

/// The neon colours handed out in turn to items such as CPU cores or GPUs.
pub open spec fn neon_palette() -> Seq<u32> {
    seq![0x00FFFFu32, 0xFF00FF, 0x39FF14, 0xFFA500, 0xB464FF, 0x0096FF, 0xFFFF00, 0xFF3C3C]
}

/// Get neon color by index (for multiple items like CPU cores, GPUs): the
/// palette is used in a cycle.
pub fn neon_color_by_index(index: usize) -> (c: u32)
    ensures
        c == neon_palette()[(index % 8) as int],
{
    match index % 8 {
        0 => CyberColors::CYAN,
        1 => CyberColors::MAGENTA,
        2 => CyberColors::NEON_GREEN,
        3 => CyberColors::NEON_ORANGE,
        4 => CyberColors::NEON_PURPLE,
        5 => CyberColors::NEON_BLUE,
        6 => CyberColors::NEON_YELLOW,
        _ => CyberColors::NEON_RED,
    }
}

/// Items eight apart get the same colour.
pub proof fn lemma_neon_color_cycle(i: nat)
    ensures
        neon_palette()[((i + 8) % 8) as int] == neon_palette()[(i % 8) as int],
{
    assert((i + 8) % 8 == i % 8) by (nonlinear_arith);
}

/// Hotter never means a cooler colour: the temperature colours follow the
/// order green, yellow, orange, red.
pub proof fn lemma_temperature_color_monotone(a: u32, b: u32)
    requires
        a <= b,
    ensures
        temperature_rank(temperature_color_of(a)) <= temperature_rank(temperature_color_of(b)),
{
}

/// The place of a temperature colour in the order green, yellow, orange,
/// red.
pub open spec fn temperature_rank(c: u32) -> nat {
    if c == 0x39FF14 {
        0
    } else if c == 0xFFFF00 {
        1
    } else if c == 0xFFA500 {
        2
    } else {
        3
    }
}

} // verus!
