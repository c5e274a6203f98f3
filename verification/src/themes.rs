//! The colour themes the user can pick.

use vstd::prelude::*;

verus! {

/// The selectable colour themes.
#[derive(Debug, Clone, Copy, PartialEq, Eq, Structural)]
pub enum AppTheme {
    EcoEnergy,
    EcoEnergyLight,
    DeepOcean,
    OceanLight,
    GeothermalCore,
    SolarUmbra,
}

impl Default for AppTheme {
    fn default() -> (t: Self)
        ensures
            t == AppTheme::EcoEnergy,
    {
        AppTheme::EcoEnergy
    }
}

/// The name under which a theme is listed.
pub open spec fn theme_name(t: AppTheme) -> Seq<char> {
    match t {
        AppTheme::EcoEnergy => "Sleeping"@,
        AppTheme::EcoEnergyLight => "Splashing"@,
        AppTheme::DeepOcean => "Hunting"@,
        AppTheme::OceanLight => "Swimming"@,
        AppTheme::GeothermalCore => "Sunbathing"@,
        AppTheme::SolarUmbra => "Lounging"@,
    }
}

/// Every theme, in declaration order.
pub open spec fn all_themes() -> Seq<AppTheme> {
    seq![
        AppTheme::EcoEnergy,
        AppTheme::EcoEnergyLight,
        AppTheme::DeepOcean,
        AppTheme::OceanLight,
        AppTheme::GeothermalCore,
        AppTheme::SolarUmbra,
    ]
}

impl AppTheme {
    /// The name under which the theme is listed.
    pub fn name(self) -> (s: &'static str)
        ensures
            s@ == theme_name(self),
    {
        match self {
            AppTheme::EcoEnergy => "Sleeping",
            AppTheme::EcoEnergyLight => "Splashing",
            AppTheme::DeepOcean => "Hunting",
            AppTheme::OceanLight => "Swimming",
            AppTheme::GeothermalCore => "Sunbathing",
            AppTheme::SolarUmbra => "Lounging",
        }
    }

    /// Every theme the settings offer.
    pub fn all() -> (v: &'static [AppTheme])
        ensures
            v@ == all_themes(),
    {
        let v: &'static [AppTheme] = &[
            AppTheme::EcoEnergy,
            AppTheme::EcoEnergyLight,
            AppTheme::DeepOcean,
            AppTheme::OceanLight,
            AppTheme::GeothermalCore,
            AppTheme::SolarUmbra,
        ];
        assert(v@ =~= all_themes());
        v
    }

    /// Every custom theme; all themes are custom ones.
    pub fn custom_themes() -> (v: &'static [AppTheme])
        ensures
            v@ == all_themes(),
    {
        Self::all()
    }

    /// The theme's name, as its `Display` form reads.
    pub fn to_string(&self) -> (s: String)
        ensures
            s@ == theme_name(*self),
    {
        String::from_str(self.name())
    }
}

} // verus!
