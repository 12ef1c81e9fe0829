//! The texts of the interface's section headers and threshold legend.
use vstd::prelude::*;

use crate::gui::theme::CyberColors;
use crate::text::{extend_str, string_of};

verus! {

/// Section header with cyber styling
pub struct SectionHeader<'a> {
    title: &'a str,
    icon: Option<&'a str>,
}

impl<'a> SectionHeader<'a> {
    pub closed spec fn spec_title(self) -> Seq<char> {
        self.title@
    }

    pub closed spec fn spec_icon(self) -> Option<Seq<char>> {
        match self.icon {
            Some(i) => Some(i@),
            None => None,
        }
    }

    /// A header with the given title and no icon.
    pub fn new(title: &'a str) -> (h: Self)
        ensures
            h.spec_title() == title@,
            h.spec_icon() is None,
    {
        SectionHeader { title, icon: None }
    }

    /// The header with the given icon.
    pub fn icon(self, icon: &'a str) -> (h: Self)
        ensures
            h.spec_title() == self.spec_title(),
            h.spec_icon() == Some(icon@),
    {
        SectionHeader { icon: Some(icon), ..self }
    }

    /// The text shown: `{icon} {title}`, or the title alone.
    pub fn title_text(&self) -> (s: String)
        ensures
            s@ == (match self.spec_icon() {
                Some(i) => i + " "@ + self.spec_title(),
                None => self.spec_title(),
            }),
    {
        let mut v: Vec<char> = Vec::new();
        if let Some(i) = self.icon {
            extend_str(&mut v, i);
            extend_str(&mut v, " ");
        }
        extend_str(&mut v, self.title);
        string_of(v)
    }
}

/// Glances-style legend of the threshold colours
pub struct ThresholdLegend;

impl ThresholdLegend {
    /// The legend's entries: label, colour and range, from OK to critical.
    pub fn items(&self) -> (r: Vec<(&'static str, u32, &'static str)>)
        ensures
            r@.len() == 4,
            r@[0].0@ == "OK"@ && r@[0].1 == 0x2ECC71 && r@[0].2@ == "0-50%"@,
            r@[1].0@ == "CAREFUL"@ && r@[1].1 == 0x34D3FF && r@[1].2@ == "50-70%"@,
            r@[2].0@ == "WARNING"@ && r@[2].1 == 0xFFCE56 && r@[2].2@ == "70-90%"@,
            r@[3].0@ == "CRITICAL"@ && r@[3].1 == 0xFF6363 && r@[3].2@ == "90%+"@,
    {
        let mut r: Vec<(&'static str, u32, &'static str)> = Vec::new();
        r.push(("OK", CyberColors::THRESHOLD_OK, "0-50%"));
        r.push(("CAREFUL", CyberColors::THRESHOLD_CAREFUL, "50-70%"));
        r.push(("WARNING", CyberColors::THRESHOLD_WARNING, "70-90%"));
        r.push(("CRITICAL", CyberColors::THRESHOLD_CRITICAL, "90%+"));
        r
    }
}

} // verus!
