use vstd::prelude::*;

use crate::text::{pascal_label, remove_whitespace, spec_pascal_label, spec_remove_whitespace, str_eq};

verus! {

/// The colour themes of the application.
#[derive(Clone, Copy, Debug, PartialEq, Eq, Structural)]
pub enum Theme {
    Light,
    Dark,
    Dracula,
    Nord,
    SolarizedLight,
    SolarizedDark,
    GruvboxLight,
    GruvboxDark,
    CatppuccinLatte,
    CatppuccinFrappe,
    CatppuccinMacchiato,
    CatppuccinMocha,
    TokyoNight,
    TokyoNightStorm,
    TokyoNightLight,
    KanagawaWave,
    KanagawaDragon,
    KanagawaLotus,
    Moonfly,
    Nightfly,
    Oxocarbon,
    Ferra,
}

impl Theme {
    pub open spec fn spec_variant(self) -> Seq<char> {
        match self {
            Theme::Light => "Light"@,
            Theme::Dark => "Dark"@,
            Theme::Dracula => "Dracula"@,
            Theme::Nord => "Nord"@,
            Theme::SolarizedLight => "SolarizedLight"@,
            Theme::SolarizedDark => "SolarizedDark"@,
            Theme::GruvboxLight => "GruvboxLight"@,
            Theme::GruvboxDark => "GruvboxDark"@,
            Theme::CatppuccinLatte => "CatppuccinLatte"@,
            Theme::CatppuccinFrappe => "CatppuccinFrappe"@,
            Theme::CatppuccinMacchiato => "CatppuccinMacchiato"@,
            Theme::CatppuccinMocha => "CatppuccinMocha"@,
            Theme::TokyoNight => "TokyoNight"@,
            Theme::TokyoNightStorm => "TokyoNightStorm"@,
            Theme::TokyoNightLight => "TokyoNightLight"@,
            Theme::KanagawaWave => "KanagawaWave"@,
            Theme::KanagawaDragon => "KanagawaDragon"@,
            Theme::KanagawaLotus => "KanagawaLotus"@,
            Theme::Moonfly => "Moonfly"@,
            Theme::Nightfly => "Nightfly"@,
            Theme::Oxocarbon => "Oxocarbon"@,
            Theme::Ferra => "Ferra"@,
        }
    }

    /// The name of the theme.
    pub fn variant(&self) -> (r: &'static str)
        ensures
            r@ == self.spec_variant(),
    {
        match self {
            Theme::Light => "Light",
            Theme::Dark => "Dark",
            Theme::Dracula => "Dracula",
            Theme::Nord => "Nord",
            Theme::SolarizedLight => "SolarizedLight",
            Theme::SolarizedDark => "SolarizedDark",
            Theme::GruvboxLight => "GruvboxLight",
            Theme::GruvboxDark => "GruvboxDark",
            Theme::CatppuccinLatte => "CatppuccinLatte",
            Theme::CatppuccinFrappe => "CatppuccinFrappe",
            Theme::CatppuccinMacchiato => "CatppuccinMacchiato",
            Theme::CatppuccinMocha => "CatppuccinMocha",
            Theme::TokyoNight => "TokyoNight",
            Theme::TokyoNightStorm => "TokyoNightStorm",
            Theme::TokyoNightLight => "TokyoNightLight",
            Theme::KanagawaWave => "KanagawaWave",
            Theme::KanagawaDragon => "KanagawaDragon",
            Theme::KanagawaLotus => "KanagawaLotus",
            Theme::Moonfly => "Moonfly",
            Theme::Nightfly => "Nightfly",
            Theme::Oxocarbon => "Oxocarbon",
            Theme::Ferra => "Ferra",
        }
    }

    pub open spec fn spec_from_variant(name: Seq<char>) -> Option<Theme> {
        if name == "Light"@ {
            Some(Theme::Light)
        } else if name == "Dark"@ {
            Some(Theme::Dark)
        } else if name == "Dracula"@ {
            Some(Theme::Dracula)
        } else if name == "Nord"@ {
            Some(Theme::Nord)
        } else if name == "SolarizedLight"@ {
            Some(Theme::SolarizedLight)
        } else if name == "SolarizedDark"@ {
            Some(Theme::SolarizedDark)
        } else if name == "GruvboxLight"@ {
            Some(Theme::GruvboxLight)
        } else if name == "GruvboxDark"@ {
            Some(Theme::GruvboxDark)
        } else if name == "CatppuccinLatte"@ {
            Some(Theme::CatppuccinLatte)
        } else if name == "CatppuccinFrappe"@ {
            Some(Theme::CatppuccinFrappe)
        } else if name == "CatppuccinMacchiato"@ {
            Some(Theme::CatppuccinMacchiato)
        } else if name == "CatppuccinMocha"@ {
            Some(Theme::CatppuccinMocha)
        } else if name == "TokyoNight"@ {
            Some(Theme::TokyoNight)
        } else if name == "TokyoNightStorm"@ {
            Some(Theme::TokyoNightStorm)
        } else if name == "TokyoNightLight"@ {
            Some(Theme::TokyoNightLight)
        } else if name == "KanagawaWave"@ {
            Some(Theme::KanagawaWave)
        } else if name == "KanagawaDragon"@ {
            Some(Theme::KanagawaDragon)
        } else if name == "KanagawaLotus"@ {
            Some(Theme::KanagawaLotus)
        } else if name == "Moonfly"@ {
            Some(Theme::Moonfly)
        } else if name == "Nightfly"@ {
            Some(Theme::Nightfly)
        } else if name == "Oxocarbon"@ {
            Some(Theme::Oxocarbon)
        } else if name == "Ferra"@ {
            Some(Theme::Ferra)
        } else {
            None
        }
    }

    /// The theme whose name is `name`, if there is one.
    pub fn from_variant(name: &str) -> (r: Option<Theme>)
        ensures
            r == Self::spec_from_variant(name@),
    {
        if str_eq(name, "Light") {
            Some(Theme::Light)
        } else if str_eq(name, "Dark") {
            Some(Theme::Dark)
        } else if str_eq(name, "Dracula") {
            Some(Theme::Dracula)
        } else if str_eq(name, "Nord") {
            Some(Theme::Nord)
        } else if str_eq(name, "SolarizedLight") {
            Some(Theme::SolarizedLight)
        } else if str_eq(name, "SolarizedDark") {
            Some(Theme::SolarizedDark)
        } else if str_eq(name, "GruvboxLight") {
            Some(Theme::GruvboxLight)
        } else if str_eq(name, "GruvboxDark") {
            Some(Theme::GruvboxDark)
        } else if str_eq(name, "CatppuccinLatte") {
            Some(Theme::CatppuccinLatte)
        } else if str_eq(name, "CatppuccinFrappe") {
            Some(Theme::CatppuccinFrappe)
        } else if str_eq(name, "CatppuccinMacchiato") {
            Some(Theme::CatppuccinMacchiato)
        } else if str_eq(name, "CatppuccinMocha") {
            Some(Theme::CatppuccinMocha)
        } else if str_eq(name, "TokyoNight") {
            Some(Theme::TokyoNight)
        } else if str_eq(name, "TokyoNightStorm") {
            Some(Theme::TokyoNightStorm)
        } else if str_eq(name, "TokyoNightLight") {
            Some(Theme::TokyoNightLight)
        } else if str_eq(name, "KanagawaWave") {
            Some(Theme::KanagawaWave)
        } else if str_eq(name, "KanagawaDragon") {
            Some(Theme::KanagawaDragon)
        } else if str_eq(name, "KanagawaLotus") {
            Some(Theme::KanagawaLotus)
        } else if str_eq(name, "Moonfly") {
            Some(Theme::Moonfly)
        } else if str_eq(name, "Nightfly") {
            Some(Theme::Nightfly)
        } else if str_eq(name, "Oxocarbon") {
            Some(Theme::Oxocarbon)
        } else if str_eq(name, "Ferra") {
            Some(Theme::Ferra)
        } else {
            None
        }
    }

    pub open spec fn spec_all() -> Seq<Theme> {
        seq![
            Theme::Light,
            Theme::Dark,
            Theme::Dracula,
            Theme::Nord,
            Theme::SolarizedLight,
            Theme::SolarizedDark,
            Theme::GruvboxLight,
            Theme::GruvboxDark,
            Theme::CatppuccinLatte,
            Theme::CatppuccinFrappe,
            Theme::CatppuccinMacchiato,
            Theme::CatppuccinMocha,
            Theme::TokyoNight,
            Theme::TokyoNightStorm,
            Theme::TokyoNightLight,
            Theme::KanagawaWave,
            Theme::KanagawaDragon,
            Theme::KanagawaLotus,
            Theme::Moonfly,
            Theme::Nightfly,
            Theme::Oxocarbon,
            Theme::Ferra,
        ]
    }

    /// Every theme, in the order of declaration.
    pub fn iter() -> (r: Vec<Theme>)
        ensures
            r@ == Self::spec_all(),
    {
        let r = vec![
            Theme::Light,
            Theme::Dark,
            Theme::Dracula,
            Theme::Nord,
            Theme::SolarizedLight,
            Theme::SolarizedDark,
            Theme::GruvboxLight,
            Theme::GruvboxDark,
            Theme::CatppuccinLatte,
            Theme::CatppuccinFrappe,
            Theme::CatppuccinMacchiato,
            Theme::CatppuccinMocha,
            Theme::TokyoNight,
            Theme::TokyoNightStorm,
            Theme::TokyoNightLight,
            Theme::KanagawaWave,
            Theme::KanagawaDragon,
            Theme::KanagawaLotus,
            Theme::Moonfly,
            Theme::Nightfly,
            Theme::Oxocarbon,
            Theme::Ferra,
        ];
        assert(r@ =~= Self::spec_all());
        r
    }

    /// The label of the theme in the theme picker.
    pub fn variant_pascal_label(&self) -> (r: String)
        ensures
            r@ == spec_pascal_label(self.spec_variant()),
    {
        pascal_label(self.variant())
    }
}

impl Default for Theme {
    /// The Dracula theme.
    fn default() -> (r: Self)
        ensures
            r == Theme::Dracula,
    {
        Theme::Dracula
    }
}

/// The fields of the style editor.
#[derive(Clone, Copy, Debug, PartialEq, Eq, Structural)]
pub enum StyleEditorFields {
    TextSize,
    Scale,
    BorderWidth,
    Theme,
    Spacing,
    Padding,
    IconSize,
    Leeway,
    ModalOpacity,
    FloatInputStep,
}

impl StyleEditorFields {
    pub open spec fn spec_variant(self) -> Seq<char> {
        match self {
            StyleEditorFields::TextSize => "TextSize"@,
            StyleEditorFields::Scale => "Scale"@,
            StyleEditorFields::BorderWidth => "BorderWidth"@,
            StyleEditorFields::Theme => "Theme"@,
            StyleEditorFields::Spacing => "Spacing"@,
            StyleEditorFields::Padding => "Padding"@,
            StyleEditorFields::IconSize => "IconSize"@,
            StyleEditorFields::Leeway => "Leeway"@,
            StyleEditorFields::ModalOpacity => "ModalOpacity"@,
            StyleEditorFields::FloatInputStep => "FloatInputStep"@,
        }
    }

    /// The name of the field, which labels its slider.
    pub fn variant(&self) -> (r: &'static str)
        ensures
            r@ == self.spec_variant(),
    {
        match self {
            StyleEditorFields::TextSize => "TextSize",
            StyleEditorFields::Scale => "Scale",
            StyleEditorFields::BorderWidth => "BorderWidth",
            StyleEditorFields::Theme => "Theme",
            StyleEditorFields::Spacing => "Spacing",
            StyleEditorFields::Padding => "Padding",
            StyleEditorFields::IconSize => "IconSize",
            StyleEditorFields::Leeway => "Leeway",
            StyleEditorFields::ModalOpacity => "ModalOpacity",
            StyleEditorFields::FloatInputStep => "FloatInputStep",
        }
    }

    pub open spec fn spec_all() -> Seq<StyleEditorFields> {
        seq![
            StyleEditorFields::TextSize,
            StyleEditorFields::Scale,
            StyleEditorFields::BorderWidth,
            StyleEditorFields::Theme,
            StyleEditorFields::Spacing,
            StyleEditorFields::Padding,
            StyleEditorFields::IconSize,
            StyleEditorFields::Leeway,
            StyleEditorFields::ModalOpacity,
            StyleEditorFields::FloatInputStep,
        ]
    }

    /// Every field, in the order of declaration.
    pub fn iter() -> (r: Vec<StyleEditorFields>)
        ensures
            r@ == Self::spec_all(),
    {
        let r = vec![
            StyleEditorFields::TextSize,
            StyleEditorFields::Scale,
            StyleEditorFields::BorderWidth,
            StyleEditorFields::Theme,
            StyleEditorFields::Spacing,
            StyleEditorFields::Padding,
            StyleEditorFields::IconSize,
            StyleEditorFields::Leeway,
            StyleEditorFields::ModalOpacity,
            StyleEditorFields::FloatInputStep,
        ];
        assert(r@ =~= Self::spec_all());
        r
    }
}

impl Default for StyleEditorFields {
    /// The text size.
    fn default() -> (r: Self)
        ensures
            r == StyleEditorFields::TextSize,
    {
        StyleEditorFields::TextSize
    }
}

/// The errors of the style editor.
#[derive(Clone, Debug)]
pub enum StyleEditorErrors {
    DeserializeError(String),
    UnknownError,
}

impl StyleEditorErrors {
    pub open spec fn spec_variant(&self) -> Seq<char> {
        match self {
            StyleEditorErrors::DeserializeError(_) => "DeserializeError"@,
            StyleEditorErrors::UnknownError => "UnknownError"@,
        }
    }

    /// The name of the error, which is also its text.
    pub fn variant(&self) -> (r: &'static str)
        ensures
            r@ == self.spec_variant(),
    {
        match self {
            StyleEditorErrors::DeserializeError(_) => "DeserializeError",
            StyleEditorErrors::UnknownError => "UnknownError",
        }
    }
}

impl Default for StyleEditorErrors {
    /// An unknown error.
    fn default() -> (r: Self)
        ensures
            r is UnknownError,
    {
        StyleEditorErrors::UnknownError
    }
}

/// The style editor.
#[derive(Clone, Copy, Debug, Default)]
pub struct StyleEditor {}

impl StyleEditor {
    /// The theme picked from the theme picker's label, white space ignored;
    /// a label that names no theme is an error that carries it.
    pub fn theme_from_label(label: &str) -> (r: Result<Theme, StyleEditorErrors>)
        ensures
            match Theme::spec_from_variant(spec_remove_whitespace(label@)) {
                Some(t) => r == Ok::<Theme, StyleEditorErrors>(t),
                None => r matches Err(StyleEditorErrors::DeserializeError(v)) && v@
                    == spec_remove_whitespace(label@),
            },
    {
        let value = remove_whitespace(label);
        match Theme::from_variant(value.as_str()) {
            Some(theme) => Ok(theme),
            None => Err(StyleEditorErrors::DeserializeError(value)),
        }
    }
}

} // verus!

verus! {

/// Each theme's name reads back as that theme.
pub proof fn lemma_theme_name_reads_back(t: Theme)
    ensures
        Theme::spec_from_variant(t.spec_variant()) == Some(t),
{
    match t {
        Theme::Light => {
            reveal_strlit("Light");
        },
        Theme::Dark => {
            reveal_strlit("Dark");
            reveal_strlit("Light");
            assert("Dark"@.len() != "Light"@.len());
        },
        Theme::Dracula => {
            reveal_strlit("Dracula");
            reveal_strlit("Light");
            assert("Dracula"@.len() != "Light"@.len());
            reveal_strlit("Dark");
            assert("Dracula"@.len() != "Dark"@.len());
        },
        Theme::Nord => {
            reveal_strlit("Nord");
            reveal_strlit("Light");
            assert("Nord"@.len() != "Light"@.len());
            reveal_strlit("Dark");
            assert("Nord"@[0] != "Dark"@[0]);
            reveal_strlit("Dracula");
            assert("Nord"@.len() != "Dracula"@.len());
        },
        Theme::SolarizedLight => {
            reveal_strlit("SolarizedLight");
            reveal_strlit("Light");
            assert("SolarizedLight"@.len() != "Light"@.len());
            reveal_strlit("Dark");
            assert("SolarizedLight"@.len() != "Dark"@.len());
            reveal_strlit("Dracula");
            assert("SolarizedLight"@.len() != "Dracula"@.len());
            reveal_strlit("Nord");
            assert("SolarizedLight"@.len() != "Nord"@.len());
        },
        Theme::SolarizedDark => {
            reveal_strlit("SolarizedDark");
            reveal_strlit("Light");
            assert("SolarizedDark"@.len() != "Light"@.len());
            reveal_strlit("Dark");
            assert("SolarizedDark"@.len() != "Dark"@.len());
            reveal_strlit("Dracula");
            assert("SolarizedDark"@.len() != "Dracula"@.len());
            reveal_strlit("Nord");
            assert("SolarizedDark"@.len() != "Nord"@.len());
            reveal_strlit("SolarizedLight");
            assert("SolarizedDark"@.len() != "SolarizedLight"@.len());
        },
        Theme::GruvboxLight => {
            reveal_strlit("GruvboxLight");
            reveal_strlit("Light");
            assert("GruvboxLight"@.len() != "Light"@.len());
            reveal_strlit("Dark");
            assert("GruvboxLight"@.len() != "Dark"@.len());
            reveal_strlit("Dracula");
            assert("GruvboxLight"@.len() != "Dracula"@.len());
            reveal_strlit("Nord");
            assert("GruvboxLight"@.len() != "Nord"@.len());
            reveal_strlit("SolarizedLight");
            assert("GruvboxLight"@.len() != "SolarizedLight"@.len());
            reveal_strlit("SolarizedDark");
            assert("GruvboxLight"@.len() != "SolarizedDark"@.len());
        },
        Theme::GruvboxDark => {
            reveal_strlit("GruvboxDark");
            reveal_strlit("Light");
            assert("GruvboxDark"@.len() != "Light"@.len());
            reveal_strlit("Dark");
            assert("GruvboxDark"@.len() != "Dark"@.len());
            reveal_strlit("Dracula");
            assert("GruvboxDark"@.len() != "Dracula"@.len());
            reveal_strlit("Nord");
            assert("GruvboxDark"@.len() != "Nord"@.len());
            reveal_strlit("SolarizedLight");
            assert("GruvboxDark"@.len() != "SolarizedLight"@.len());
            reveal_strlit("SolarizedDark");
            assert("GruvboxDark"@.len() != "SolarizedDark"@.len());
            reveal_strlit("GruvboxLight");
            assert("GruvboxDark"@.len() != "GruvboxLight"@.len());
        },
        Theme::CatppuccinLatte => {
            reveal_strlit("CatppuccinLatte");
            reveal_strlit("Light");
            assert("CatppuccinLatte"@.len() != "Light"@.len());
            reveal_strlit("Dark");
            assert("CatppuccinLatte"@.len() != "Dark"@.len());
            reveal_strlit("Dracula");
            assert("CatppuccinLatte"@.len() != "Dracula"@.len());
            reveal_strlit("Nord");
            assert("CatppuccinLatte"@.len() != "Nord"@.len());
            reveal_strlit("SolarizedLight");
            assert("CatppuccinLatte"@.len() != "SolarizedLight"@.len());
            reveal_strlit("SolarizedDark");
            assert("CatppuccinLatte"@.len() != "SolarizedDark"@.len());
            reveal_strlit("GruvboxLight");
            assert("CatppuccinLatte"@.len() != "GruvboxLight"@.len());
            reveal_strlit("GruvboxDark");
            assert("CatppuccinLatte"@.len() != "GruvboxDark"@.len());
        },
        Theme::CatppuccinFrappe => {
            reveal_strlit("CatppuccinFrappe");
            reveal_strlit("Light");
            assert("CatppuccinFrappe"@.len() != "Light"@.len());
            reveal_strlit("Dark");
            assert("CatppuccinFrappe"@.len() != "Dark"@.len());
            reveal_strlit("Dracula");
            assert("CatppuccinFrappe"@.len() != "Dracula"@.len());
            reveal_strlit("Nord");
            assert("CatppuccinFrappe"@.len() != "Nord"@.len());
            reveal_strlit("SolarizedLight");
            assert("CatppuccinFrappe"@.len() != "SolarizedLight"@.len());
            reveal_strlit("SolarizedDark");
            assert("CatppuccinFrappe"@.len() != "SolarizedDark"@.len());
            reveal_strlit("GruvboxLight");
            assert("CatppuccinFrappe"@.len() != "GruvboxLight"@.len());
            reveal_strlit("GruvboxDark");
            assert("CatppuccinFrappe"@.len() != "GruvboxDark"@.len());
            reveal_strlit("CatppuccinLatte");
            assert("CatppuccinFrappe"@.len() != "CatppuccinLatte"@.len());
        },
        Theme::CatppuccinMacchiato => {
            reveal_strlit("CatppuccinMacchiato");
            reveal_strlit("Light");
            assert("CatppuccinMacchiato"@.len() != "Light"@.len());
            reveal_strlit("Dark");
            assert("CatppuccinMacchiato"@.len() != "Dark"@.len());
            reveal_strlit("Dracula");
            assert("CatppuccinMacchiato"@.len() != "Dracula"@.len());
            reveal_strlit("Nord");
            assert("CatppuccinMacchiato"@.len() != "Nord"@.len());
            reveal_strlit("SolarizedLight");
            assert("CatppuccinMacchiato"@.len() != "SolarizedLight"@.len());
            reveal_strlit("SolarizedDark");
            assert("CatppuccinMacchiato"@.len() != "SolarizedDark"@.len());
            reveal_strlit("GruvboxLight");
            assert("CatppuccinMacchiato"@.len() != "GruvboxLight"@.len());
            reveal_strlit("GruvboxDark");
            assert("CatppuccinMacchiato"@.len() != "GruvboxDark"@.len());
            reveal_strlit("CatppuccinLatte");
            assert("CatppuccinMacchiato"@.len() != "CatppuccinLatte"@.len());
            reveal_strlit("CatppuccinFrappe");
            assert("CatppuccinMacchiato"@.len() != "CatppuccinFrappe"@.len());
        },
        Theme::CatppuccinMocha => {
            reveal_strlit("CatppuccinMocha");
            reveal_strlit("Light");
            assert("CatppuccinMocha"@.len() != "Light"@.len());
            reveal_strlit("Dark");
            assert("CatppuccinMocha"@.len() != "Dark"@.len());
            reveal_strlit("Dracula");
            assert("CatppuccinMocha"@.len() != "Dracula"@.len());
            reveal_strlit("Nord");
            assert("CatppuccinMocha"@.len() != "Nord"@.len());
            reveal_strlit("SolarizedLight");
            assert("CatppuccinMocha"@.len() != "SolarizedLight"@.len());
            reveal_strlit("SolarizedDark");
            assert("CatppuccinMocha"@.len() != "SolarizedDark"@.len());
            reveal_strlit("GruvboxLight");
            assert("CatppuccinMocha"@.len() != "GruvboxLight"@.len());
            reveal_strlit("GruvboxDark");
            assert("CatppuccinMocha"@.len() != "GruvboxDark"@.len());
            reveal_strlit("CatppuccinLatte");
            assert("CatppuccinMocha"@[10] != "CatppuccinLatte"@[10]);
            reveal_strlit("CatppuccinFrappe");
            assert("CatppuccinMocha"@.len() != "CatppuccinFrappe"@.len());
            reveal_strlit("CatppuccinMacchiato");
            assert("CatppuccinMocha"@.len() != "CatppuccinMacchiato"@.len());
        },
        Theme::TokyoNight => {
            reveal_strlit("TokyoNight");
            reveal_strlit("Light");
            assert("TokyoNight"@.len() != "Light"@.len());
            reveal_strlit("Dark");
            assert("TokyoNight"@.len() != "Dark"@.len());
            reveal_strlit("Dracula");
            assert("TokyoNight"@.len() != "Dracula"@.len());
            reveal_strlit("Nord");
            assert("TokyoNight"@.len() != "Nord"@.len());
            reveal_strlit("SolarizedLight");
            assert("TokyoNight"@.len() != "SolarizedLight"@.len());
            reveal_strlit("SolarizedDark");
            assert("TokyoNight"@.len() != "SolarizedDark"@.len());
            reveal_strlit("GruvboxLight");
            assert("TokyoNight"@.len() != "GruvboxLight"@.len());
            reveal_strlit("GruvboxDark");
            assert("TokyoNight"@.len() != "GruvboxDark"@.len());
            reveal_strlit("CatppuccinLatte");
            assert("TokyoNight"@.len() != "CatppuccinLatte"@.len());
            reveal_strlit("CatppuccinFrappe");
            assert("TokyoNight"@.len() != "CatppuccinFrappe"@.len());
            reveal_strlit("CatppuccinMacchiato");
            assert("TokyoNight"@.len() != "CatppuccinMacchiato"@.len());
            reveal_strlit("CatppuccinMocha");
            assert("TokyoNight"@.len() != "CatppuccinMocha"@.len());
        },
        Theme::TokyoNightStorm => {
            reveal_strlit("TokyoNightStorm");
            reveal_strlit("Light");
            assert("TokyoNightStorm"@.len() != "Light"@.len());
            reveal_strlit("Dark");
            assert("TokyoNightStorm"@.len() != "Dark"@.len());
            reveal_strlit("Dracula");
            assert("TokyoNightStorm"@.len() != "Dracula"@.len());
            reveal_strlit("Nord");
            assert("TokyoNightStorm"@.len() != "Nord"@.len());
            reveal_strlit("SolarizedLight");
            assert("TokyoNightStorm"@.len() != "SolarizedLight"@.len());
            reveal_strlit("SolarizedDark");
            assert("TokyoNightStorm"@.len() != "SolarizedDark"@.len());
            reveal_strlit("GruvboxLight");
            assert("TokyoNightStorm"@.len() != "GruvboxLight"@.len());
            reveal_strlit("GruvboxDark");
            assert("TokyoNightStorm"@.len() != "GruvboxDark"@.len());
            reveal_strlit("CatppuccinLatte");
            assert("TokyoNightStorm"@[0] != "CatppuccinLatte"@[0]);
            reveal_strlit("CatppuccinFrappe");
            assert("TokyoNightStorm"@.len() != "CatppuccinFrappe"@.len());
            reveal_strlit("CatppuccinMacchiato");
            assert("TokyoNightStorm"@.len() != "CatppuccinMacchiato"@.len());
            reveal_strlit("CatppuccinMocha");
            assert("TokyoNightStorm"@[0] != "CatppuccinMocha"@[0]);
            reveal_strlit("TokyoNight");
            assert("TokyoNightStorm"@.len() != "TokyoNight"@.len());
        },
        Theme::TokyoNightLight => {
            reveal_strlit("TokyoNightLight");
            reveal_strlit("Light");
            assert("TokyoNightLight"@.len() != "Light"@.len());
            reveal_strlit("Dark");
            assert("TokyoNightLight"@.len() != "Dark"@.len());
            reveal_strlit("Dracula");
            assert("TokyoNightLight"@.len() != "Dracula"@.len());
            reveal_strlit("Nord");
            assert("TokyoNightLight"@.len() != "Nord"@.len());
            reveal_strlit("SolarizedLight");
            assert("TokyoNightLight"@.len() != "SolarizedLight"@.len());
            reveal_strlit("SolarizedDark");
            assert("TokyoNightLight"@.len() != "SolarizedDark"@.len());
            reveal_strlit("GruvboxLight");
            assert("TokyoNightLight"@.len() != "GruvboxLight"@.len());
            reveal_strlit("GruvboxDark");
            assert("TokyoNightLight"@.len() != "GruvboxDark"@.len());
            reveal_strlit("CatppuccinLatte");
            assert("TokyoNightLight"@[0] != "CatppuccinLatte"@[0]);
            reveal_strlit("CatppuccinFrappe");
            assert("TokyoNightLight"@.len() != "CatppuccinFrappe"@.len());
            reveal_strlit("CatppuccinMacchiato");
            assert("TokyoNightLight"@.len() != "CatppuccinMacchiato"@.len());
            reveal_strlit("CatppuccinMocha");
            assert("TokyoNightLight"@[0] != "CatppuccinMocha"@[0]);
            reveal_strlit("TokyoNight");
            assert("TokyoNightLight"@.len() != "TokyoNight"@.len());
            reveal_strlit("TokyoNightStorm");
            assert("TokyoNightLight"@[10] != "TokyoNightStorm"@[10]);
        },
        Theme::KanagawaWave => {
            reveal_strlit("KanagawaWave");
            reveal_strlit("Light");
            assert("KanagawaWave"@.len() != "Light"@.len());
            reveal_strlit("Dark");
            assert("KanagawaWave"@.len() != "Dark"@.len());
            reveal_strlit("Dracula");
            assert("KanagawaWave"@.len() != "Dracula"@.len());
            reveal_strlit("Nord");
            assert("KanagawaWave"@.len() != "Nord"@.len());
            reveal_strlit("SolarizedLight");
            assert("KanagawaWave"@.len() != "SolarizedLight"@.len());
            reveal_strlit("SolarizedDark");
            assert("KanagawaWave"@.len() != "SolarizedDark"@.len());
            reveal_strlit("GruvboxLight");
            assert("KanagawaWave"@[0] != "GruvboxLight"@[0]);
            reveal_strlit("GruvboxDark");
            assert("KanagawaWave"@.len() != "GruvboxDark"@.len());
            reveal_strlit("CatppuccinLatte");
            assert("KanagawaWave"@.len() != "CatppuccinLatte"@.len());
            reveal_strlit("CatppuccinFrappe");
            assert("KanagawaWave"@.len() != "CatppuccinFrappe"@.len());
            reveal_strlit("CatppuccinMacchiato");
            assert("KanagawaWave"@.len() != "CatppuccinMacchiato"@.len());
            reveal_strlit("CatppuccinMocha");
            assert("KanagawaWave"@.len() != "CatppuccinMocha"@.len());
            reveal_strlit("TokyoNight");
            assert("KanagawaWave"@.len() != "TokyoNight"@.len());
            reveal_strlit("TokyoNightStorm");
            assert("KanagawaWave"@.len() != "TokyoNightStorm"@.len());
            reveal_strlit("TokyoNightLight");
            assert("KanagawaWave"@.len() != "TokyoNightLight"@.len());
        },
        Theme::KanagawaDragon => {
            reveal_strlit("KanagawaDragon");
            reveal_strlit("Light");
            assert("KanagawaDragon"@.len() != "Light"@.len());
            reveal_strlit("Dark");
            assert("KanagawaDragon"@.len() != "Dark"@.len());
            reveal_strlit("Dracula");
            assert("KanagawaDragon"@.len() != "Dracula"@.len());
            reveal_strlit("Nord");
            assert("KanagawaDragon"@.len() != "Nord"@.len());
            reveal_strlit("SolarizedLight");
            assert("KanagawaDragon"@[0] != "SolarizedLight"@[0]);
            reveal_strlit("SolarizedDark");
            assert("KanagawaDragon"@.len() != "SolarizedDark"@.len());
            reveal_strlit("GruvboxLight");
            assert("KanagawaDragon"@.len() != "GruvboxLight"@.len());
            reveal_strlit("GruvboxDark");
            assert("KanagawaDragon"@.len() != "GruvboxDark"@.len());
            reveal_strlit("CatppuccinLatte");
            assert("KanagawaDragon"@.len() != "CatppuccinLatte"@.len());
            reveal_strlit("CatppuccinFrappe");
            assert("KanagawaDragon"@.len() != "CatppuccinFrappe"@.len());
            reveal_strlit("CatppuccinMacchiato");
            assert("KanagawaDragon"@.len() != "CatppuccinMacchiato"@.len());
            reveal_strlit("CatppuccinMocha");
            assert("KanagawaDragon"@.len() != "CatppuccinMocha"@.len());
            reveal_strlit("TokyoNight");
            assert("KanagawaDragon"@.len() != "TokyoNight"@.len());
            reveal_strlit("TokyoNightStorm");
            assert("KanagawaDragon"@.len() != "TokyoNightStorm"@.len());
            reveal_strlit("TokyoNightLight");
            assert("KanagawaDragon"@.len() != "TokyoNightLight"@.len());
            reveal_strlit("KanagawaWave");
            assert("KanagawaDragon"@.len() != "KanagawaWave"@.len());
        },
        Theme::KanagawaLotus => {
            reveal_strlit("KanagawaLotus");
            reveal_strlit("Light");
            assert("KanagawaLotus"@.len() != "Light"@.len());
            reveal_strlit("Dark");
            assert("KanagawaLotus"@.len() != "Dark"@.len());
            reveal_strlit("Dracula");
            assert("KanagawaLotus"@.len() != "Dracula"@.len());
            reveal_strlit("Nord");
            assert("KanagawaLotus"@.len() != "Nord"@.len());
            reveal_strlit("SolarizedLight");
            assert("KanagawaLotus"@.len() != "SolarizedLight"@.len());
            reveal_strlit("SolarizedDark");
            assert("KanagawaLotus"@[0] != "SolarizedDark"@[0]);
            reveal_strlit("GruvboxLight");
            assert("KanagawaLotus"@.len() != "GruvboxLight"@.len());
            reveal_strlit("GruvboxDark");
            assert("KanagawaLotus"@.len() != "GruvboxDark"@.len());
            reveal_strlit("CatppuccinLatte");
            assert("KanagawaLotus"@.len() != "CatppuccinLatte"@.len());
            reveal_strlit("CatppuccinFrappe");
            assert("KanagawaLotus"@.len() != "CatppuccinFrappe"@.len());
            reveal_strlit("CatppuccinMacchiato");
            assert("KanagawaLotus"@.len() != "CatppuccinMacchiato"@.len());
            reveal_strlit("CatppuccinMocha");
            assert("KanagawaLotus"@.len() != "CatppuccinMocha"@.len());
            reveal_strlit("TokyoNight");
            assert("KanagawaLotus"@.len() != "TokyoNight"@.len());
            reveal_strlit("TokyoNightStorm");
            assert("KanagawaLotus"@.len() != "TokyoNightStorm"@.len());
            reveal_strlit("TokyoNightLight");
            assert("KanagawaLotus"@.len() != "TokyoNightLight"@.len());
            reveal_strlit("KanagawaWave");
            assert("KanagawaLotus"@.len() != "KanagawaWave"@.len());
            reveal_strlit("KanagawaDragon");
            assert("KanagawaLotus"@.len() != "KanagawaDragon"@.len());
        },
        Theme::Moonfly => {
            reveal_strlit("Moonfly");
            reveal_strlit("Light");
            assert("Moonfly"@.len() != "Light"@.len());
            reveal_strlit("Dark");
            assert("Moonfly"@.len() != "Dark"@.len());
            reveal_strlit("Dracula");
            assert("Moonfly"@[0] != "Dracula"@[0]);
            reveal_strlit("Nord");
            assert("Moonfly"@.len() != "Nord"@.len());
            reveal_strlit("SolarizedLight");
            assert("Moonfly"@.len() != "SolarizedLight"@.len());
            reveal_strlit("SolarizedDark");
            assert("Moonfly"@.len() != "SolarizedDark"@.len());
            reveal_strlit("GruvboxLight");
            assert("Moonfly"@.len() != "GruvboxLight"@.len());
            reveal_strlit("GruvboxDark");
            assert("Moonfly"@.len() != "GruvboxDark"@.len());
            reveal_strlit("CatppuccinLatte");
            assert("Moonfly"@.len() != "CatppuccinLatte"@.len());
            reveal_strlit("CatppuccinFrappe");
            assert("Moonfly"@.len() != "CatppuccinFrappe"@.len());
            reveal_strlit("CatppuccinMacchiato");
            assert("Moonfly"@.len() != "CatppuccinMacchiato"@.len());
            reveal_strlit("CatppuccinMocha");
            assert("Moonfly"@.len() != "CatppuccinMocha"@.len());
            reveal_strlit("TokyoNight");
            assert("Moonfly"@.len() != "TokyoNight"@.len());
            reveal_strlit("TokyoNightStorm");
            assert("Moonfly"@.len() != "TokyoNightStorm"@.len());
            reveal_strlit("TokyoNightLight");
            assert("Moonfly"@.len() != "TokyoNightLight"@.len());
            reveal_strlit("KanagawaWave");
            assert("Moonfly"@.len() != "KanagawaWave"@.len());
            reveal_strlit("KanagawaDragon");
            assert("Moonfly"@.len() != "KanagawaDragon"@.len());
            reveal_strlit("KanagawaLotus");
            assert("Moonfly"@.len() != "KanagawaLotus"@.len());
        },
        Theme::Nightfly => {
            reveal_strlit("Nightfly");
            reveal_strlit("Light");
            assert("Nightfly"@.len() != "Light"@.len());
            reveal_strlit("Dark");
            assert("Nightfly"@.len() != "Dark"@.len());
            reveal_strlit("Dracula");
            assert("Nightfly"@.len() != "Dracula"@.len());
            reveal_strlit("Nord");
            assert("Nightfly"@.len() != "Nord"@.len());
            reveal_strlit("SolarizedLight");
            assert("Nightfly"@.len() != "SolarizedLight"@.len());
            reveal_strlit("SolarizedDark");
            assert("Nightfly"@.len() != "SolarizedDark"@.len());
            reveal_strlit("GruvboxLight");
            assert("Nightfly"@.len() != "GruvboxLight"@.len());
            reveal_strlit("GruvboxDark");
            assert("Nightfly"@.len() != "GruvboxDark"@.len());
            reveal_strlit("CatppuccinLatte");
            assert("Nightfly"@.len() != "CatppuccinLatte"@.len());
            reveal_strlit("CatppuccinFrappe");
            assert("Nightfly"@.len() != "CatppuccinFrappe"@.len());
            reveal_strlit("CatppuccinMacchiato");
            assert("Nightfly"@.len() != "CatppuccinMacchiato"@.len());
            reveal_strlit("CatppuccinMocha");
            assert("Nightfly"@.len() != "CatppuccinMocha"@.len());
            reveal_strlit("TokyoNight");
            assert("Nightfly"@.len() != "TokyoNight"@.len());
            reveal_strlit("TokyoNightStorm");
            assert("Nightfly"@.len() != "TokyoNightStorm"@.len());
            reveal_strlit("TokyoNightLight");
            assert("Nightfly"@.len() != "TokyoNightLight"@.len());
            reveal_strlit("KanagawaWave");
            assert("Nightfly"@.len() != "KanagawaWave"@.len());
            reveal_strlit("KanagawaDragon");
            assert("Nightfly"@.len() != "KanagawaDragon"@.len());
            reveal_strlit("KanagawaLotus");
            assert("Nightfly"@.len() != "KanagawaLotus"@.len());
            reveal_strlit("Moonfly");
            assert("Nightfly"@.len() != "Moonfly"@.len());
        },
        Theme::Oxocarbon => {
            reveal_strlit("Oxocarbon");
            reveal_strlit("Light");
            assert("Oxocarbon"@.len() != "Light"@.len());
            reveal_strlit("Dark");
            assert("Oxocarbon"@.len() != "Dark"@.len());
            reveal_strlit("Dracula");
            assert("Oxocarbon"@.len() != "Dracula"@.len());
            reveal_strlit("Nord");
            assert("Oxocarbon"@.len() != "Nord"@.len());
            reveal_strlit("SolarizedLight");
            assert("Oxocarbon"@.len() != "SolarizedLight"@.len());
            reveal_strlit("SolarizedDark");
            assert("Oxocarbon"@.len() != "SolarizedDark"@.len());
            reveal_strlit("GruvboxLight");
            assert("Oxocarbon"@.len() != "GruvboxLight"@.len());
            reveal_strlit("GruvboxDark");
            assert("Oxocarbon"@.len() != "GruvboxDark"@.len());
            reveal_strlit("CatppuccinLatte");
            assert("Oxocarbon"@.len() != "CatppuccinLatte"@.len());
            reveal_strlit("CatppuccinFrappe");
            assert("Oxocarbon"@.len() != "CatppuccinFrappe"@.len());
            reveal_strlit("CatppuccinMacchiato");
            assert("Oxocarbon"@.len() != "CatppuccinMacchiato"@.len());
            reveal_strlit("CatppuccinMocha");
            assert("Oxocarbon"@.len() != "CatppuccinMocha"@.len());
            reveal_strlit("TokyoNight");
            assert("Oxocarbon"@.len() != "TokyoNight"@.len());
            reveal_strlit("TokyoNightStorm");
            assert("Oxocarbon"@.len() != "TokyoNightStorm"@.len());
            reveal_strlit("TokyoNightLight");
            assert("Oxocarbon"@.len() != "TokyoNightLight"@.len());
            reveal_strlit("KanagawaWave");
            assert("Oxocarbon"@.len() != "KanagawaWave"@.len());
            reveal_strlit("KanagawaDragon");
            assert("Oxocarbon"@.len() != "KanagawaDragon"@.len());
            reveal_strlit("KanagawaLotus");
            assert("Oxocarbon"@.len() != "KanagawaLotus"@.len());
            reveal_strlit("Moonfly");
            assert("Oxocarbon"@.len() != "Moonfly"@.len());
            reveal_strlit("Nightfly");
            assert("Oxocarbon"@.len() != "Nightfly"@.len());
        },
        Theme::Ferra => {
            reveal_strlit("Ferra");
            reveal_strlit("Light");
            assert("Ferra"@[0] != "Light"@[0]);
            reveal_strlit("Dark");
            assert("Ferra"@.len() != "Dark"@.len());
            reveal_strlit("Dracula");
            assert("Ferra"@.len() != "Dracula"@.len());
            reveal_strlit("Nord");
            assert("Ferra"@.len() != "Nord"@.len());
            reveal_strlit("SolarizedLight");
            assert("Ferra"@.len() != "SolarizedLight"@.len());
            reveal_strlit("SolarizedDark");
            assert("Ferra"@.len() != "SolarizedDark"@.len());
            reveal_strlit("GruvboxLight");
            assert("Ferra"@.len() != "GruvboxLight"@.len());
            reveal_strlit("GruvboxDark");
            assert("Ferra"@.len() != "GruvboxDark"@.len());
            reveal_strlit("CatppuccinLatte");
            assert("Ferra"@.len() != "CatppuccinLatte"@.len());
            reveal_strlit("CatppuccinFrappe");
            assert("Ferra"@.len() != "CatppuccinFrappe"@.len());
            reveal_strlit("CatppuccinMacchiato");
            assert("Ferra"@.len() != "CatppuccinMacchiato"@.len());
            reveal_strlit("CatppuccinMocha");
            assert("Ferra"@.len() != "CatppuccinMocha"@.len());
            reveal_strlit("TokyoNight");
            assert("Ferra"@.len() != "TokyoNight"@.len());
            reveal_strlit("TokyoNightStorm");
            assert("Ferra"@.len() != "TokyoNightStorm"@.len());
            reveal_strlit("TokyoNightLight");
            assert("Ferra"@.len() != "TokyoNightLight"@.len());
            reveal_strlit("KanagawaWave");
            assert("Ferra"@.len() != "KanagawaWave"@.len());
            reveal_strlit("KanagawaDragon");
            assert("Ferra"@.len() != "KanagawaDragon"@.len());
            reveal_strlit("KanagawaLotus");
            assert("Ferra"@.len() != "KanagawaLotus"@.len());
            reveal_strlit("Moonfly");
            assert("Ferra"@.len() != "Moonfly"@.len());
            reveal_strlit("Nightfly");
            assert("Ferra"@.len() != "Nightfly"@.len());
            reveal_strlit("Oxocarbon");
            assert("Ferra"@.len() != "Oxocarbon"@.len());
        },
    }
}

/// The label the theme picker shows for a theme picks that theme.
pub proof fn lemma_theme_label_picks_theme(t: Theme)
    ensures
        Theme::spec_from_variant(spec_remove_whitespace(spec_pascal_label(t.spec_variant())))
            == Some(t),
{
    reveal_strlit("Light");
    reveal_strlit("Dark");
    reveal_strlit("Dracula");
    reveal_strlit("Nord");
    reveal_strlit("SolarizedLight");
    reveal_strlit("SolarizedDark");
    reveal_strlit("GruvboxLight");
    reveal_strlit("GruvboxDark");
    reveal_strlit("CatppuccinLatte");
    reveal_strlit("CatppuccinFrappe");
    reveal_strlit("CatppuccinMacchiato");
    reveal_strlit("CatppuccinMocha");
    reveal_strlit("TokyoNight");
    reveal_strlit("TokyoNightStorm");
    reveal_strlit("TokyoNightLight");
    reveal_strlit("KanagawaWave");
    reveal_strlit("KanagawaDragon");
    reveal_strlit("KanagawaLotus");
    reveal_strlit("Moonfly");
    reveal_strlit("Nightfly");
    reveal_strlit("Oxocarbon");
    reveal_strlit("Ferra");
    let name = t.spec_variant();
    assert(forall|k: int| 0 <= k < name.len() ==> !crate::text::spec_is_whitespace(
        #[trigger] name[k],
    ));
    crate::text::lemma_label_round_trip(name);
    lemma_theme_name_reads_back(t);
}

} // verus!
