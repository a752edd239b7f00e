use vstd::prelude::*;
use crate::format::{dirty_format_of, dirty_string_to_format, Format};
use crate::level::{level_of, string_to_log_level, LogLevel};

verus! {

/// Why a command failed.
#[derive(Clone, Copy, Debug, PartialEq, Eq, Structural)]
pub enum Error {
    /// The path does not exist.
    PathNotFound,
    /// A format name is not one of the known formats.
    UnknownFormat,
    /// The log level name is not one of the known levels.
    InvalidLogLevel,
    /// The path exists but is neither a readable file nor a directory.
    AccessDenied,
    /// The command works on single files only.
    UnsupportedForDirectory,
    /// The file could not be opened, or its format could not be detected.
    OpenError,
    /// The file's content could not be decoded.
    DecodeError,
    /// The image could not be encoded or written in the target format.
    EncodeError,
    /// The file is not of the expected format.
    FormatMismatch,
    /// The report could not be written to the output.
    WriteError,
}

/// What to do with the path.
pub enum Command {
    /// Re-encode the file, or every image under the directory.
    Convert { target_format: String },
    /// Check that the file has the given format.
    Is { format: String },
    /// Report the file's format.
    Info,
}

/// A parsed command line.
pub struct Args {
    pub path: String,
    pub log_level: Option<String>,
    pub command: Option<Command>,
}

/// What an existing path is.
#[derive(Clone, Copy, Debug, PartialEq, Eq, Structural)]
pub enum PathType {
    File,
    Directory,
}

/// The work a command comes down to, once its arguments are checked.
#[derive(Clone, Copy, Debug, PartialEq, Eq, Structural)]
pub enum Action {
    Info,
    ConvertFile(Format),
    ConvertDirectory(Format),
    Is(Format),
}

/// A checked command: the log level to install, if any, and the work to do.
#[derive(Clone, Copy, Debug, PartialEq, Eq, Structural)]
pub struct Plan {
    pub log_level: Option<LogLevel>,
    pub action: Action,
}

pub open spec fn path_type_of(is_file: bool, is_dir: bool) -> Option<PathType> {
    if is_file {
        Some(PathType::File)
    } else if is_dir {
        Some(PathType::Directory)
    } else {
        None
    }
}

/// Classifies a path from what the file system said of it: a file, a
/// directory, or neither (no permission, or a special file).
pub fn to_path_type(is_file: bool, is_dir: bool) -> (r: Option<PathType>)
    ensures
        r == path_type_of(is_file, is_dir),
{
    if is_file {
        Some(PathType::File)
    } else if is_dir {
        Some(PathType::Directory)
    } else {
        None
    }
}

/// The action for a path of the given kind, once the command's format, if
/// any, has been read.
pub open spec fn action_of(command: Option<Command>, format: Format, kind: Option<PathType>) -> Result<Action, Error> {
    match kind {
        None => Err(Error::AccessDenied),
        Some(PathType::File) => match command {
            Some(Command::Convert { .. }) => Ok(Action::ConvertFile(format)),
            Some(Command::Is { .. }) => Ok(Action::Is(format)),
            _ => Ok(Action::Info),
        },
        Some(PathType::Directory) => match command {
            Some(Command::Convert { .. }) => Ok(Action::ConvertDirectory(format)),
            _ => Err(Error::UnsupportedForDirectory),
        },
    }
}

/// The format name that a command carries, if any.
pub open spec fn command_format(command: Option<Command>) -> Option<Seq<char>> {
    match command {
        Some(Command::Convert { target_format }) => Some(target_format@),
        Some(Command::Is { format }) => Some(format@),
        _ => None,
    }
}

/// The checked command: the log level is read first, then the path must
/// exist, then the command's format name is read, and last the path's kind
/// decides the action.
pub open spec fn plan_of(args: Args, exists: bool, is_file: bool, is_dir: bool) -> Result<Plan, Error> {
    let level = match args.log_level {
        Some(l) => match level_of(l@) {
            Some(v) => Ok(Some(v)),
            None => Err(Error::InvalidLogLevel),
        },
        None => Ok(None),
    };
    match level {
        Err(e) => Err(e),
        Ok(log_level) => if !exists {
            Err(Error::PathNotFound)
        } else {
            let format = match command_format(args.command) {
                Some(name) => match dirty_format_of(name) {
                    Some(f) => Ok(f),
                    None => Err(Error::UnknownFormat),
                },
                None => Ok(Format::Png),
            };
            match format {
                Err(e) => Err(e),
                Ok(f) => match action_of(args.command, f, path_type_of(is_file, is_dir)) {
                    Ok(action) => Ok(Plan { log_level, action }),
                    Err(e) => Err(e),
                },
            }
        },
    }
}

/// Checks a command line against what the file system said of its path
/// (whether it exists, is a file, is a directory) and decides what to do.
pub fn plan(args: &Args, exists: bool, is_file: bool, is_dir: bool) -> (r: Result<Plan, Error>)
    ensures
        r == plan_of(*args, exists, is_file, is_dir),
{
    let log_level = match &args.log_level {
        Some(l) => match string_to_log_level(l.as_str()) {
            Ok(v) => Some(v),
            Err(_) => return Err(Error::InvalidLogLevel),
        },
        None => None,
    };
    if !exists {
        return Err(Error::PathNotFound);
    }
    let format = match &args.command {
        Some(Command::Convert { target_format }) => dirty_string_to_format(target_format.as_str()),
        Some(Command::Is { format }) => dirty_string_to_format(format.as_str()),
        _ => Ok(Format::Png),
    };
    let format = match format {
        Ok(f) => f,
        Err(_) => return Err(Error::UnknownFormat),
    };
    let kind = to_path_type(is_file, is_dir);
    let action = match kind {
        None => return Err(Error::AccessDenied),
        Some(PathType::File) => match &args.command {
            Some(Command::Convert { .. }) => Action::ConvertFile(format),
            Some(Command::Is { .. }) => Action::Is(format),
            _ => Action::Info,
        },
        Some(PathType::Directory) => match &args.command {
            Some(Command::Convert { .. }) => Action::ConvertDirectory(format),
            _ => return Err(Error::UnsupportedForDirectory),
        },
    };
    Ok(Plan { log_level, action })
}

/// A command on a path that does not exist fails with `PathNotFound`, before
/// its format name or the path's kind is looked at. Only an invalid log level,
/// which is read before anything else, fails first.
pub proof fn lemma_missing_path_fails(args: Args, is_file: bool, is_dir: bool)
    requires
        args.log_level is None || level_of(args.log_level->Some_0@) is Some,
    ensures
        plan_of(args, false, is_file, is_dir) == Err::<Plan, Error>(Error::PathNotFound),
{
}

} // verus!
