use vstd::prelude::*;

verus! {

/// The image that `set default` installs.
pub const DEFAULT_WALLPAPER: &'static str = "C:\\Windows\\Web\\Wallpaper\\Windows\\img0.jpg";

/// Why the arguments of `set` name no wallpaper to write.
#[derive(Debug, PartialEq, Eq)]
pub enum SetCommandError {
    /// `set` was given no arguments.
    MissingArguments,
    /// `set file` was not followed by exactly one path.
    FileUsage,
    /// `set color` is accepted but not supported.
    ColorNotImplemented,
    /// The first argument names no known `set` form; it is carried here.
    UnknownSubcommand(String),
}

impl SetCommandError {
    /// The message that is shown for this error.
    pub fn message(&self) -> (r: String)
        ensures
            *self == SetCommandError::MissingArguments ==> r@
                == "No arguments provided to set background to"@,
            *self == SetCommandError::FileUsage ==> r@ == "Usage: dsktpbg set file <path>"@,
            *self == SetCommandError::ColorNotImplemented ==> r@
                == "setting to color not implemented yet"@,
            forall|name: String|
                *self == SetCommandError::UnknownSubcommand(name) ==> r@ == "Unknown set command '"@
                    + name@ + "'"@,
    {
        match self {
            SetCommandError::MissingArguments => String::from_str(
                "No arguments provided to set background to",
            ),
            SetCommandError::FileUsage => String::from_str("Usage: dsktpbg set file <path>"),
            SetCommandError::ColorNotImplemented => String::from_str(
                "setting to color not implemented yet",
            ),
            SetCommandError::UnknownSubcommand(name) => {
                let mut r = String::from_str("Unknown set command '");
                r.append(name.as_str());
                r.append("'");
                r
            },
        }
    }
}

/// Whether `arg` reads `word`.
fn is_word(arg: &String, word: &str) -> (r: bool)
    ensures
        r == (arg@ == word@),
{
    let w = String::from_str(word);
    *arg == w
}

/// Resolves the arguments that follow `set` into the path that the wallpaper
/// is to be set to: `default` gives the built-in image, `file <path>` gives
/// the path as it stands, unchecked. `color` is accepted but not supported.
pub fn set_command(args: Vec<String>) -> (r: Result<String, SetCommandError>)
    ensures
        args@.len() == 0 ==> r == Err::<String, SetCommandError>(
            SetCommandError::MissingArguments,
        ),
        args@.len() > 0 && args@[0]@ == "default"@ ==> r is Ok && r->Ok_0@
            == DEFAULT_WALLPAPER@,
        args@.len() == 2 && args@[0]@ == "file"@ ==> r is Ok && r->Ok_0@ == args@[1]@,
        args@.len() > 0 && args@.len() != 2 && args@[0]@ == "file"@ ==> r == Err::<
            String,
            SetCommandError,
        >(SetCommandError::FileUsage),
        args@.len() > 0 && args@[0]@ == "color"@ ==> r == Err::<String, SetCommandError>(
            SetCommandError::ColorNotImplemented,
        ),
        args@.len() > 0 && args@[0]@ != "default"@ && args@[0]@ != "file"@ && args@[0]@
            != "color"@ ==> r is Err && r->Err_0 is UnknownSubcommand
            && r->Err_0->UnknownSubcommand_0@ == args@[0]@,
{
    if args.len() == 0 {
        return Err(SetCommandError::MissingArguments);
    }
    proof {
        reveal_strlit("default");
        reveal_strlit("file");
        reveal_strlit("color");
        assert("default"@.len() == 7 && "file"@.len() == 4 && "color"@.len() == 5);
    }
    let first = &args[0];
    if is_word(first, "default") {
        Ok(String::from_str(DEFAULT_WALLPAPER))
    } else if is_word(first, "file") {
        if args.len() == 2 {
            Ok(args[1].clone())
        } else {
            Err(SetCommandError::FileUsage)
        }
    } else if is_word(first, "color") {
        Err(SetCommandError::ColorNotImplemented)
    } else {
        Err(SetCommandError::UnknownSubcommand(first.clone()))
    }
}

} // verus!
