//! The settings record and the enumerations that it draws from.

use crate::names::NameSet;
use vstd::prelude::*;
use vstd::std_specs::cmp::PartialEqSpecImpl;

verus! {

/// Airspace categories.
#[derive(Clone, Copy, Debug, PartialEq, Eq, Structural)]
pub enum AirType {
    ClassA,
    ClassB,
    ClassC,
    ClassD,
    ClassE,
    ClassF,
    ClassG,
    Danger,
    Cta,
    Ctr,
    Gliding,
    Matz,
    Other,
    Prohibited,
    Restricted,
    Rmz,
    Tmz,
}

/// Output format.
#[derive(Clone, Copy, Debug, PartialEq, Eq, Structural)]
pub enum Format {
    OpenAir,
    RatOnly,
    Competition,
}

/// Altitude layer overlay.
#[derive(Clone, Copy, Debug, PartialEq, Eq, Structural)]
pub enum Overlay {
    FL195,
    FL105,
    AtzDz,
}

/// Settings.
#[derive(Debug)]
pub struct Settings {
    pub atz: AirType,
    pub ils: Option<AirType>,
    pub unlicensed: Option<AirType>,
    pub microlight: Option<AirType>,
    pub gliding: Option<AirType>,
    pub home: Option<String>,
    pub hirta_gvs: Option<AirType>,
    pub obstacle: Option<AirType>,
    pub max_level: u16,
    pub radio: bool,
    pub format: Format,
    pub overlay: Option<Overlay>,
    pub loa: NameSet,
    pub rat: NameSet,
    pub wave: NameSet,
}

/// What a settings record says: each text as its characters, each group
/// of names as a set.
pub struct SettingsView {
    pub atz: AirType,
    pub ils: Option<AirType>,
    pub unlicensed: Option<AirType>,
    pub microlight: Option<AirType>,
    pub gliding: Option<AirType>,
    pub home: Option<Seq<char>>,
    pub hirta_gvs: Option<AirType>,
    pub obstacle: Option<AirType>,
    pub max_level: u16,
    pub radio: bool,
    pub format: Format,
    pub overlay: Option<Overlay>,
    pub loa: Set<Seq<char>>,
    pub rat: Set<Seq<char>>,
    pub wave: Set<Seq<char>>,
}

/// The characters of an optional text.
pub open spec fn text_of(s: Option<String>) -> Option<Seq<char>> {
    match s {
        Some(t) => Some(t@),
        None => None,
    }
}

/// The settings that an export starts from: ATZ mapped to CTR, nothing
/// else mapped, no home site, a ceiling of 660, no radio frequencies,
/// the OpenAir format, no overlay, and no name chosen in any group.
pub open spec fn default_settings() -> SettingsView {
    SettingsView {
        atz: AirType::Ctr,
        ils: None,
        unlicensed: None,
        microlight: None,
        gliding: None,
        home: None,
        hirta_gvs: None,
        obstacle: None,
        max_level: 660,
        radio: false,
        format: Format::OpenAir,
        overlay: None,
        loa: Set::empty(),
        rat: Set::empty(),
        wave: Set::empty(),
    }
}

impl View for Settings {
    type V = SettingsView;

    open spec fn view(&self) -> SettingsView {
        SettingsView {
            atz: self.atz,
            ils: self.ils,
            unlicensed: self.unlicensed,
            microlight: self.microlight,
            gliding: self.gliding,
            home: text_of(self.home),
            hirta_gvs: self.hirta_gvs,
            obstacle: self.obstacle,
            max_level: self.max_level,
            radio: self.radio,
            format: self.format,
            overlay: self.overlay,
            loa: self.loa@,
            rat: self.rat@,
            wave: self.wave@,
        }
    }
}

impl Default for Settings {
    fn default() -> (s: Self)
        ensures
            s@ == default_settings(),
    {
        Settings {
            atz: AirType::Ctr,
            ils: None,
            unlicensed: None,
            microlight: None,
            gliding: None,
            home: None,
            hirta_gvs: None,
            obstacle: None,
            max_level: 660,
            radio: false,
            format: Format::OpenAir,
            overlay: None,
            loa: NameSet::new(),
            rat: NameSet::new(),
            wave: NameSet::new(),
        }
    }
}

impl Clone for Settings {
    fn clone(&self) -> (r: Self)
        ensures
            r@ == self@,
    {
        let home = match &self.home {
            Some(h) => Some(h.clone()),
            None => None,
        };
        Settings {
            atz: self.atz,
            ils: self.ils,
            unlicensed: self.unlicensed,
            microlight: self.microlight,
            gliding: self.gliding,
            home,
            hirta_gvs: self.hirta_gvs,
            obstacle: self.obstacle,
            max_level: self.max_level,
            radio: self.radio,
            format: self.format,
            overlay: self.overlay,
            loa: self.loa.clone(),
            rat: self.rat.clone(),
            wave: self.wave.clone(),
        }
    }
}

impl PartialEq for Settings {
    /// Two settings records are equal where they say the same.
    fn eq(&self, other: &Self) -> (b: bool) {
        let same_home = match (&self.home, &other.home) {
            (Some(a), Some(b)) => *a == *b,
            (None, None) => true,
            _ => false,
        };
        let same_groups = self.loa == other.loa && self.rat == other.rat && self.wave
            == other.wave;
        let same_mapping = self.atz == other.atz && self.ils == other.ils && self.unlicensed
            == other.unlicensed && self.microlight == other.microlight && self.gliding
            == other.gliding && self.hirta_gvs == other.hirta_gvs && self.obstacle
            == other.obstacle;
        let same_output = self.max_level == other.max_level && self.radio == other.radio
            && self.format == other.format && self.overlay == other.overlay;
        same_home && same_groups && same_mapping && same_output
    }
}

impl PartialEqSpecImpl for Settings {
    open spec fn obeys_eq_spec() -> bool {
        true
    }

    open spec fn eq_spec(&self, other: &Settings) -> bool {
        self@ == other@
    }
}

impl Eq for Settings {

}

} // verus!
