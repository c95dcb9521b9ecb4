use vstd::prelude::*;
use vstd::string::*;

verus! {

/// A configuration file that the user edits and the editor watches.
#[derive(Clone, Copy, Debug, PartialEq, Eq, Structural)]
pub enum ConfigFile {
    Keymap,
    Settings,
}

/// The notification shown in each workspace while a configuration file does
/// not parse.
#[derive(Debug)]
pub struct ParseErrorNotice {
    /// The text of the notification.
    pub message: String,
    /// The text of its button.
    pub click_message: String,
    /// The file that the button opens.
    pub opens: ConfigFile,
}

/// The first line of the notification for a file that does not parse.
pub open spec fn notice_heading(file: ConfigFile) -> Seq<char> {
    match file {
        ConfigFile::Keymap => "Invalid keymap file\n"@,
        ConfigFile::Settings => "Invalid settings file\n"@,
    }
}

/// The button text of the notification for a file that does not parse.
pub open spec fn notice_button(file: ConfigFile) -> Seq<char> {
    match file {
        ConfigFile::Keymap => "Open keymap file"@,
        ConfigFile::Settings => "Open settings file"@,
    }
}

/// What to show after a configuration file was read again: a notification
/// naming the parse error, whose button opens the file, or `None` when the
/// file parsed and any such notification is dismissed.
pub fn config_error_notice(file: ConfigFile, error: Option<&str>) -> (r: Option<
    ParseErrorNotice,
>)
    ensures
        match error {
            None => r is None,
            Some(e) => r matches Some(n) && n.message@ == notice_heading(file) + e@
                && n.click_message@ == notice_button(file) && n.opens == file,
        },
{
    match error {
        None => None,
        Some(e) => {
            let (heading, button) = match file {
                ConfigFile::Keymap => ("Invalid keymap file\n", "Open keymap file"),
                ConfigFile::Settings => ("Invalid settings file\n", "Open settings file"),
            };
            let mut message = String::from_str(heading);
            message.append(e);
            Some(ParseErrorNotice { message, click_message: String::from_str(button), opens: file })
        },
    }
}

/// Where to report a failure to launch.
pub const ISSUE_TRACKER_URL: &'static str = "https://github.com/zed-industries/zed";

/// The detail of the dialog shown when the editor fails to launch: the
/// error, then where to ask for help.
pub open spec fn launch_failure_text(error: Seq<char>) -> Seq<char> {
    error + "\n\nFor help resolving this, please open an issue on "@ + ISSUE_TRACKER_URL@
}

/// Writes the detail of the dialog shown when the editor fails to launch.
pub fn launch_failure_detail(error: &str) -> (r: String)
    ensures
        r@ == launch_failure_text(error@),
{
    let mut detail = String::from_str(error);
    detail.append("\n\nFor help resolving this, please open an issue on ");
    detail.append(ISSUE_TRACKER_URL);
    detail
}

} // verus!
