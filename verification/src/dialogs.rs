//! Flipper Zero dialogs: the buttons a dialog message reports and the options of the file
//! browser.

use vstd::prelude::*;

verus! {

/// Button pressed on a dialog.
#[derive(Clone, Copy, Debug, PartialEq, Eq, Structural)]
pub enum DialogMessageButton {
    Back,
    Left,
    Right,
    Center,
}

impl DialogMessageButton {
    /// The dialog service's number for this button.
    pub open spec fn raw(self) -> u8 {
        match self {
            DialogMessageButton::Back => 0,
            DialogMessageButton::Left => 1,
            DialogMessageButton::Center => 2,
            DialogMessageButton::Right => 3,
        }
    }

    /// The button that the dialog service's number `value` reports, if any.
    pub fn from_sys(value: u8) -> (r: Option<DialogMessageButton>)
        ensures
            r matches Some(b) ==> b.raw() == value,
            r is None <==> value > 3,
    {
        match value {
            0 => Some(DialogMessageButton::Back),
            1 => Some(DialogMessageButton::Left),
            2 => Some(DialogMessageButton::Center),
            3 => Some(DialogMessageButton::Right),
            _ => None,
        }
    }
}

/// The extension a file browser offers by default, `*`: any (a C string, with its NUL).
pub const ANY_EXTENSION: [u8; 2] = [42, 0];

/// The bytes of [`ANY_EXTENSION`].
pub open spec fn any_extension() -> Seq<u8> {
    seq![42u8, 0u8]
}

/// The options of a file browser dialog, as plain values: the extension offered for
/// selection and the root folder for navigation with the back key (each a C string,
/// with its NUL), and three switches. The icon and the item loader are set where the
/// dialog is shown.
#[derive(Clone, Copy, Debug, PartialEq, Eq)]
pub struct DialogFileBrowserOptions<'a> {
    pub extension: &'a [u8],
    pub base_path: Option<&'a [u8]>,
    pub skip_assets: bool,
    pub hide_dot_files: bool,
    pub hide_ext: bool,
}

impl<'a> DialogFileBrowserOptions<'a> {
    /// Creates file browser options with the firmware's default values: any extension,
    /// no base path, assets skipped, dot files shown, extensions hidden.
    pub fn new() -> (r: DialogFileBrowserOptions<'static>)
        ensures
            r.extension@ == any_extension(),
            r.base_path is None,
            r.skip_assets,
            !r.hide_dot_files,
            r.hide_ext,
    {
        let extension: &'static [u8] = &ANY_EXTENSION;
        assert(extension@ =~= any_extension());
        DialogFileBrowserOptions {
            extension,
            base_path: None,
            skip_assets: true,
            hide_dot_files: false,
            hide_ext: true,
        }
    }

    /// Sets the file extension to be offered for selection.
    pub fn set_extension(self, extension: &'a [u8]) -> (r: DialogFileBrowserOptions<'a>)
        ensures
            r == (DialogFileBrowserOptions { extension, ..self }),
    {
        DialogFileBrowserOptions { extension, ..self }
    }

    /// Sets the root folder path for navigation with the back key.
    pub fn set_base_path(self, base_path: &'a [u8]) -> (r: DialogFileBrowserOptions<'a>)
        ensures
            r == (DialogFileBrowserOptions { base_path: Some(base_path), ..self }),
    {
        DialogFileBrowserOptions { base_path: Some(base_path), ..self }
    }

    /// Does not show the assets folder if `skip_assets`.
    pub fn set_skip_assets(self, skip_assets: bool) -> (r: DialogFileBrowserOptions<'a>)
        ensures
            r == (DialogFileBrowserOptions { skip_assets, ..self }),
    {
        DialogFileBrowserOptions { skip_assets, ..self }
    }

    /// Hides dot files if `hide_dot_files`.
    pub fn set_hide_dot_files(self, hide_dot_files: bool) -> (r: DialogFileBrowserOptions<'a>)
        ensures
            r == (DialogFileBrowserOptions { hide_dot_files, ..self }),
    {
        DialogFileBrowserOptions { hide_dot_files, ..self }
    }

    /// Hides extensions of files if `hide_ext`.
    pub fn set_hide_ext(self, hide_ext: bool) -> (r: DialogFileBrowserOptions<'a>)
        ensures
            r == (DialogFileBrowserOptions { hide_ext, ..self }),
    {
        DialogFileBrowserOptions { hide_ext, ..self }
    }
}

/// The firmware's numbers for every [`DialogMessageButton`], one by one, as the firmware's
/// enumeration lists them.
pub proof fn lemma_dialog_message_button_numbers()
    ensures
        DialogMessageButton::Back.raw() == 0,
        DialogMessageButton::Left.raw() == 1,
        DialogMessageButton::Center.raw() == 2,
        DialogMessageButton::Right.raw() == 3,
{
}

} // verus!
