//! Options that the viewers share: which decorations to draw and how far to
//! scale the window, and the help text that lists them.

use vstd::prelude::*;

verus! {

/// The options of a viewer.
#[derive(Clone, Copy, Debug, PartialEq, Eq, Structural)]
pub struct StyleArgs {
    /// Whether to print the help text and do nothing else.
    pub show_help: bool,
    /// Whether to strike the text through.
    pub strikethrough: bool,
    /// Whether to underline the text.
    pub underline: bool,
    /// The factor by which the window is scaled.
    pub gui_scale: u8,
}

impl StyleArgs {
    /// The options that the given flags select. The window is scaled by two
    /// unless `no_gui_scaling` is set.
    pub fn from_flags(
        show_help: bool,
        strikethrough: bool,
        underline: bool,
        no_gui_scaling: bool,
    ) -> (args: StyleArgs)
        ensures
            args == (StyleArgs {
                show_help,
                strikethrough,
                underline,
                gui_scale: if no_gui_scaling {
                    1
                } else {
                    2
                },
            }),
    {
        StyleArgs {
            show_help,
            strikethrough,
            underline,
            gui_scale: if no_gui_scaling {
                1
            } else {
                2
            },
        }
    }
}

/// What the help text says after the description.
pub open spec fn help_tail() -> Seq<char> {
    ".\n\nUSAGE:\n    debugger [OPTIONS]\n\nFLAGS:\n  -h, --help            Prints help information\n\nOPTIONS:\n  -s, --strikethrough   Enables strikethrough style\n  -u, --underline       Enables underline style\n      --no-gui-scaling  Disable GUI scaling by factor 2\n"@
}

/// The help text of the command `command_name`, which `description`
/// describes.
pub open spec fn help_text(command_name: Seq<char>, description: Seq<char>) -> Seq<char> {
    "profont "@ + command_name + "\n\n"@ + description + help_tail()
}

/// The help text of a viewer: its name, what it does, and the options that
/// all viewers take.
pub fn help(command_name: &str, description: &str) -> (text: String)
    ensures
        text@ == help_text(command_name@, description@),
{
    let mut text = String::from_str("profont ");
    text.append(command_name);
    text.append("\n\n");
    text.append(description);
    text.append(
        ".\n\nUSAGE:\n    debugger [OPTIONS]\n\nFLAGS:\n  -h, --help            Prints help information\n\nOPTIONS:\n  -s, --strikethrough   Enables strikethrough style\n  -u, --underline       Enables underline style\n      --no-gui-scaling  Disable GUI scaling by factor 2\n",
    );
    text
}

} // verus!
