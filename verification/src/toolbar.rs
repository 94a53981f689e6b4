use vstd::prelude::*;
use vstd::string::StringExecFns;

use crate::dialog::Dialog;
use crate::text::{
    pascal_label, remove_whitespace, spec_pascal_label, spec_remove_whitespace, str_eq,
};

verus! {

/// The options of the file menu.
#[derive(Clone, Copy, Debug, PartialEq, Eq, Structural)]
pub enum FileMessage {
    Save,
    SaveAs,
    Load,
}

impl FileMessage {
    pub open spec fn spec_variant(self) -> Seq<char> {
        match self {
            FileMessage::Save => "Save"@,
            FileMessage::SaveAs => "SaveAs"@,
            FileMessage::Load => "Load"@,
        }
    }

    /// The name of the variant.
    pub fn variant(&self) -> (r: &'static str)
        ensures
            r@ == self.spec_variant(),
    {
        match self {
            FileMessage::Save => "Save",
            FileMessage::SaveAs => "SaveAs",
            FileMessage::Load => "Load",
        }
    }

    pub open spec fn spec_from_variant(name: Seq<char>) -> Option<FileMessage> {
        if name == "Save"@ {
            Some(FileMessage::Save)
        } else if name == "SaveAs"@ {
            Some(FileMessage::SaveAs)
        } else if name == "Load"@ {
            Some(FileMessage::Load)
        } else {
            None
        }
    }

    /// The option whose variant name is `name`, if there is one.
    pub fn from_variant(name: &str) -> (r: Option<FileMessage>)
        ensures
            r == Self::spec_from_variant(name@),
    {
        if str_eq(name, "Save") {
            Some(FileMessage::Save)
        } else if str_eq(name, "SaveAs") {
            Some(FileMessage::SaveAs)
        } else if str_eq(name, "Load") {
            Some(FileMessage::Load)
        } else {
            None
        }
    }

    pub open spec fn spec_all() -> Seq<FileMessage> {
        seq![FileMessage::Save, FileMessage::SaveAs, FileMessage::Load]
    }

    /// Every option, in the order of declaration.
    pub fn iter() -> (r: Vec<FileMessage>)
        ensures
            r@ == Self::spec_all(),
    {
        let r = vec![FileMessage::Save, FileMessage::SaveAs, FileMessage::Load];
        assert(r@ =~= Self::spec_all());
        r
    }

    /// The label of the option in the menu.
    pub fn variant_pascal_label(&self) -> (r: String)
        ensures
            r@ == spec_pascal_label(self.spec_variant()),
    {
        pascal_label(self.variant())
    }
}

/// The options of the preferences menu.
#[derive(Clone, Copy, Debug, PartialEq, Eq, Structural)]
pub enum PreferenceMessage {
    Style,
}

impl PreferenceMessage {
    pub open spec fn spec_variant(self) -> Seq<char> {
        match self {
            PreferenceMessage::Style => "Style"@,
        }
    }

    /// The name of the variant.
    pub fn variant(&self) -> (r: &'static str)
        ensures
            r@ == self.spec_variant(),
    {
        match self {
            PreferenceMessage::Style => "Style",
        }
    }

    pub open spec fn spec_from_variant(name: Seq<char>) -> Option<PreferenceMessage> {
        if name == "Style"@ {
            Some(PreferenceMessage::Style)
        } else {
            None
        }
    }

    /// The option whose variant name is `name`, if there is one.
    pub fn from_variant(name: &str) -> (r: Option<PreferenceMessage>)
        ensures
            r == Self::spec_from_variant(name@),
    {
        if str_eq(name, "Style") {
            Some(PreferenceMessage::Style)
        } else {
            None
        }
    }

    pub open spec fn spec_all() -> Seq<PreferenceMessage> {
        seq![PreferenceMessage::Style]
    }

    /// Every option, in the order of declaration.
    pub fn iter() -> (r: Vec<PreferenceMessage>)
        ensures
            r@ == Self::spec_all(),
    {
        let r = vec![PreferenceMessage::Style];
        assert(r@ =~= Self::spec_all());
        r
    }

    /// The label of the option in the menu.
    pub fn variant_pascal_label(&self) -> (r: String)
        ensures
            r@ == spec_pascal_label(self.spec_variant()),
    {
        pascal_label(self.variant())
    }
}

/// The menus of the toolbar.
#[derive(Clone, Copy, Debug, PartialEq, Eq, Structural)]
pub enum Menus {
    File,
    Preferences,
}

impl Menus {
    pub open spec fn spec_variant(self) -> Seq<char> {
        match self {
            Menus::File => "File"@,
            Menus::Preferences => "Preferences"@,
        }
    }

    /// The name of the menu.
    pub fn variant(&self) -> (r: &'static str)
        ensures
            r@ == self.spec_variant(),
    {
        match self {
            Menus::File => "File",
            Menus::Preferences => "Preferences",
        }
    }

    pub open spec fn spec_all() -> Seq<Menus> {
        seq![Menus::File, Menus::Preferences]
    }

    /// Every menu, in the order of declaration.
    pub fn iter() -> (r: Vec<Menus>)
        ensures
            r@ == Self::spec_all(),
    {
        let r = vec![Menus::File, Menus::Preferences];
        assert(r@ =~= Self::spec_all());
        r
    }

    /// The labels of the menu's options.
    pub open spec fn spec_menu_options(self) -> Seq<Seq<char>> {
        match self {
            Menus::File => FileMessage::spec_all().map_values(
                |v: FileMessage| spec_pascal_label(v.spec_variant()),
            ),
            Menus::Preferences => PreferenceMessage::spec_all().map_values(
                |v: PreferenceMessage| spec_pascal_label(v.spec_variant()),
            ),
        }
    }

    /// The labels of the menu's options, in the order of declaration.
    pub fn menu_options(&self) -> (r: Vec<String>)
        ensures
            r@.map_values(|s: String| s@) == self.spec_menu_options(),
    {
        let mut r: Vec<String> = Vec::new();
        match self {
            Menus::File => {
                let all = FileMessage::iter();
                let mut i: usize = 0;
                while i < all.len()
                    invariant
                        i <= all@.len(),
                        all@ == FileMessage::spec_all(),
                        r@.len() == i,
                        forall|j: int|
                            0 <= j < i ==> (#[trigger] r@[j])@ == spec_pascal_label(
                                all@[j].spec_variant(),
                            ),
                    decreases all@.len() - i,
                {
                    r.push(all[i].variant_pascal_label());
                    i = i + 1;
                }
                assert(r@.map_values(|s: String| s@) =~= all@.map_values(
                    |v: FileMessage| spec_pascal_label(v.spec_variant()),
                ));
            },
            Menus::Preferences => {
                let all = PreferenceMessage::iter();
                let mut i: usize = 0;
                while i < all.len()
                    invariant
                        i <= all@.len(),
                        all@ == PreferenceMessage::spec_all(),
                        r@.len() == i,
                        forall|j: int|
                            0 <= j < i ==> (#[trigger] r@[j])@ == spec_pascal_label(
                                all@[j].spec_variant(),
                            ),
                    decreases all@.len() - i,
                {
                    r.push(all[i].variant_pascal_label());
                    i = i + 1;
                }
                assert(r@.map_values(|s: String| s@) =~= all@.map_values(
                    |v: PreferenceMessage| spec_pascal_label(v.spec_variant()),
                ));
            },
        }
        r
    }
}

/// The errors of the toolbar.
#[derive(Clone, Debug)]
pub enum ToolbarErrors {
    DeserializeError(String),
    UnknownError,
}

impl Default for ToolbarErrors {
    /// The default error: an unknown one.
    fn default() -> (r: ToolbarErrors)
        ensures
            r is UnknownError,
    {
        ToolbarErrors::UnknownError
    }
}

impl ToolbarErrors {
    pub open spec fn spec_message(&self) -> Seq<char> {
        match self {
            ToolbarErrors::DeserializeError(error) => "DeserializeError: Could not deserialize from: "@
                + error@,
            ToolbarErrors::UnknownError => "UnknownError: Sounds like a you problem."@,
        }
    }

    /// The text that describes the error.
    pub fn message(&self) -> (r: String)
        ensures
            r@ == self.spec_message(),
    {
        match self {
            ToolbarErrors::DeserializeError(error) => {
                let mut r = String::from_str("DeserializeError: Could not deserialize from: ");
                r.append(error.as_str());
                r
            },
            ToolbarErrors::UnknownError => String::from_str(
                "UnknownError: Sounds like a you problem.",
            ),
        }
    }
}

/// The messages of the toolbar.
#[derive(Clone, Debug)]
pub enum ToolbarMessage {
    File(FileMessage),
    Preferences(PreferenceMessage),
    ShowModal(Dialog),
    HideModal,
    Error(ToolbarErrors),
}

/// The message a menu option's text stands for, white space ignored: a
/// file option first, else a preferences option.
pub open spec fn spec_parse_option(option: Seq<char>) -> Option<ToolbarMessage> {
    let variant = spec_remove_whitespace(option);
    match FileMessage::spec_from_variant(variant) {
        Some(m) => Some(ToolbarMessage::File(m)),
        None => match PreferenceMessage::spec_from_variant(variant) {
            Some(m) => Some(ToolbarMessage::Preferences(m)),
            None => None,
        },
    }
}

impl ToolbarMessage {
    /// Reads the message of a menu option from its text, white space
    /// ignored; a text that names no option is an error that carries it.
    pub fn from_str(option: &str) -> (r: Result<ToolbarMessage, ToolbarErrors>)
        ensures
            match spec_parse_option(option@) {
                Some(m) => r == Ok::<ToolbarMessage, ToolbarErrors>(m),
                None => r matches Err(ToolbarErrors::DeserializeError(v)) && v@
                    == spec_remove_whitespace(option@),
            },
    {
        let variant = remove_whitespace(option);
        if let Some(option) = FileMessage::from_variant(variant.as_str()) {
            Ok(ToolbarMessage::File(option))
        } else if let Some(message) = PreferenceMessage::from_variant(variant.as_str()) {
            Ok(ToolbarMessage::Preferences(message))
        } else {
            Err(ToolbarErrors::DeserializeError(variant))
        }
    }

    /// A message read from a menu option, its error otherwise.
    pub fn from_result(result: Result<ToolbarMessage, ToolbarErrors>) -> (r: ToolbarMessage)
        ensures
            match result {
                Ok(m) => r == m,
                Err(e) => r == ToolbarMessage::Error(e),
            },
    {
        match result {
            Ok(message) => message,
            Err(error) => ToolbarMessage::Error(error),
        }
    }
}

} // verus!

verus! {

/// The file work the toolbar asks the application to do.
#[derive(Clone, Copy, Debug, PartialEq, Eq, Structural)]
pub enum FileTask {
    Nothing,
    Save,
    SaveAs,
    Load,
}

/// The toolbar: the dialog it shows, if any.
#[derive(Clone, Debug)]
pub struct Toolbar {
    pub dialog: Option<Dialog>,
}

impl Default for Toolbar {
    /// A toolbar that shows no dialog.
    fn default() -> (r: Toolbar)
        ensures
            r.dialog is None,
    {
        Toolbar { dialog: None }
    }
}

impl Toolbar {
    /// Applies a message: a dialog to show or to hide changes the toolbar,
    /// a file option asks for its file work, and nothing else does anything.
    pub fn update(&mut self, message: ToolbarMessage) -> (task: FileTask)
        ensures
            match message {
                ToolbarMessage::ShowModal(d) => final(self).dialog == Some(d) && task
                    == FileTask::Nothing,
                ToolbarMessage::HideModal => final(self).dialog is None && task == FileTask::Nothing,
                ToolbarMessage::File(FileMessage::Save) => final(self).dialog == old(self).dialog
                    && task == FileTask::Save,
                ToolbarMessage::File(FileMessage::SaveAs) => final(self).dialog == old(self).dialog
                    && task == FileTask::SaveAs,
                ToolbarMessage::File(FileMessage::Load) => final(self).dialog == old(self).dialog
                    && task == FileTask::Load,
                _ => final(self).dialog == old(self).dialog && task == FileTask::Nothing,
            },
    {
        match message {
            ToolbarMessage::File(FileMessage::Save) => FileTask::Save,
            ToolbarMessage::File(FileMessage::SaveAs) => FileTask::SaveAs,
            ToolbarMessage::File(FileMessage::Load) => FileTask::Load,
            ToolbarMessage::ShowModal(dialog) => {
                self.dialog = Some(dialog);
                FileTask::Nothing
            },
            ToolbarMessage::HideModal => {
                self.dialog = None;
                FileTask::Nothing
            },
            _ => FileTask::Nothing,
        }
    }

    /// The message that follows a save: a save that did not happen (no
    /// working file) asks where to save, a failed one shows its error.
    pub fn save_finished(result: Result<bool, String>) -> (r: Option<ToolbarMessage>)
        ensures
            match result {
                Ok(true) => r is None,
                Ok(false) => r == Some(ToolbarMessage::File(FileMessage::SaveAs)),
                Err(e) => r == Some(ToolbarMessage::ShowModal(Dialog::Error(e))),
            },
    {
        match result {
            Ok(saved) => {
                if !saved {
                    Some(ToolbarMessage::File(FileMessage::SaveAs))
                } else {
                    None
                }
            },
            Err(error) => Some(ToolbarMessage::ShowModal(Dialog::Error(error))),
        }
    }

    /// The message that follows a "save as": a success names the working
    /// file (or says it was not updated), a failure shows its error, and a
    /// cancelled choice of file says nothing.
    pub fn save_as_finished(result: Result<bool, String>, working_file: Option<&str>) -> (r: Option<
        ToolbarMessage,
    >)
        ensures
            match result {
                Ok(true) => match working_file {
                    Some(w) => r matches Some(ToolbarMessage::ShowModal(Dialog::Success(m))) && m@
                        == "Successfully saved file at path '"@ + w@ + "'."@,
                    None => r matches Some(ToolbarMessage::ShowModal(Dialog::Error(m))) && m@
                        == "File saved, but working file was not updated."@,
                },
                Ok(false) => r is None,
                Err(e) => r == Some(ToolbarMessage::ShowModal(Dialog::Error(e))),
            },
    {
        match result {
            Ok(saved) => {
                if saved {
                    match working_file {
                        Some(working_file) => {
                            let mut m = String::from_str("Successfully saved file at path '");
                            m.append(working_file);
                            m.append("'.");
                            Some(ToolbarMessage::ShowModal(Dialog::Success(m)))
                        },
                        None => Some(
                            ToolbarMessage::ShowModal(
                                Dialog::Error(
                                    String::from_str("File saved, but working file was not updated."),
                                ),
                            ),
                        ),
                    }
                } else {
                    None
                }
            },
            Err(error) => Some(ToolbarMessage::ShowModal(Dialog::Error(error))),
        }
    }

    /// The message that follows a load: a failure shows its error.
    pub fn load_finished(result: Result<(), String>) -> (r: Option<ToolbarMessage>)
        ensures
            match result {
                Ok(()) => r is None,
                Err(e) => r == Some(ToolbarMessage::ShowModal(Dialog::Error(e))),
            },
    {
        match result {
            Ok(()) => None,
            Err(error) => Some(ToolbarMessage::ShowModal(Dialog::Error(error))),
        }
    }
}

} // verus!

verus! {

/// The message each menu option stands for.
pub open spec fn spec_option_message(menu: Menus, i: int) -> ToolbarMessage {
    match menu {
        Menus::File => ToolbarMessage::File(FileMessage::spec_all()[i]),
        Menus::Preferences => ToolbarMessage::Preferences(PreferenceMessage::spec_all()[i]),
    }
}

/// Every option a menu lists reads back, through `ToolbarMessage::from_str`,
/// as the message of that option.
pub proof fn lemma_menu_options_read_back(menu: Menus, i: int)
    requires
        0 <= i < menu.spec_menu_options().len(),
    ensures
        spec_parse_option(menu.spec_menu_options()[i]) == Some(spec_option_message(menu, i)),
{
    reveal_strlit("Save");
    reveal_strlit("SaveAs");
    reveal_strlit("Load");
    reveal_strlit("Style");
    let name = match menu {
        Menus::File => FileMessage::spec_all()[i].spec_variant(),
        Menus::Preferences => PreferenceMessage::spec_all()[i].spec_variant(),
    };
    assert(menu.spec_menu_options()[i] == spec_pascal_label(name));
    assert(forall|k: int| 0 <= k < name.len() ==> !crate::text::spec_is_whitespace(
        #[trigger] name[k],
    ));
    crate::text::lemma_label_round_trip(name);
    assert("Style"@.len() == 5 && "SaveAs"@.len() == 6 && "Save"@.len() == 4);
    assert("Style"@ != "Save"@);
    assert("Style"@ != "SaveAs"@);
    assert("Style"@ != "Load"@);
    assert("SaveAs"@ != "Save"@);
    assert("Load"@[0] != "Save"@[0]);
    assert("Load"@ != "Save"@);
    assert("Load"@ != "SaveAs"@);
}

} // verus!

verus! {

impl From<Dialog> for ToolbarMessage {
    /// A dialog to show.
    fn from(dialog: Dialog) -> (r: Self) {
        ToolbarMessage::ShowModal(dialog)
    }
}

impl vstd::std_specs::convert::FromSpecImpl<Dialog> for ToolbarMessage {
    open spec fn obeys_from_spec() -> bool {
        true
    }

    open spec fn from_spec(v: Dialog) -> ToolbarMessage {
        ToolbarMessage::ShowModal(v)
    }
}

} // verus!
