use simon::gui::theme::{neon_color_by_index, rgb, temperature_color, CyberColors};
use simon::gui::widgets::{SectionHeader, ThresholdLegend};

#[test]
fn temperature_colours() {
    assert_eq!(temperature_color(20), CyberColors::NEON_GREEN);
    assert_eq!(temperature_color(50), CyberColors::NEON_YELLOW);
    assert_eq!(temperature_color(84), CyberColors::NEON_ORANGE);
    assert_eq!(temperature_color(85), CyberColors::NEON_RED);
}

#[test]
fn neon_colours_cycle() {
    assert_eq!(neon_color_by_index(0), CyberColors::CYAN);
    assert_eq!(neon_color_by_index(9), CyberColors::MAGENTA);
    assert_eq!(neon_color_by_index(15), CyberColors::NEON_RED);
    assert_eq!(rgb(CyberColors::BACKGROUND), (13, 17, 23));
}

#[test]
fn section_header_text() {
    assert_eq!(SectionHeader::new("GPU").title_text(), "GPU");
    assert_eq!(SectionHeader::new("GPU").icon("*").title_text(), "* GPU");
    let items = ThresholdLegend.items();
    assert_eq!(items.len(), 4);
    assert_eq!(items[3], ("CRITICAL", CyberColors::THRESHOLD_CRITICAL, "90%+"));
}
