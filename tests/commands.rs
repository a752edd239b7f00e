use imgconv::dispatch::{plan, to_path_type, Action, Args, Command, Error, PathType, Plan};
use imgconv::format::Format;
use imgconv::level::LogLevel;
use imgconv::outcome::{
    convert_file_target, format_matches, info, info_line, is, is_image_file, is_image_with_type, should_convert_entry,
    target_path, EntryProbe,
};

fn args(path: &str, log_level: Option<&str>, command: Option<Command>) -> Args {
    Args { path: path.to_owned(), log_level: log_level.map(|l| l.to_owned()), command }
}

fn convert_to(name: &str) -> Option<Command> {
    Some(Command::Convert { target_format: name.to_owned() })
}

fn is_format(name: &str) -> Option<Command> {
    Some(Command::Is { format: name.to_owned() })
}

#[test]
fn path_types() {
    assert_eq!(to_path_type(true, false), Some(PathType::File));
    assert_eq!(to_path_type(false, true), Some(PathType::Directory));
    assert_eq!(to_path_type(false, false), None);
}

#[test]
fn convert_file_is_planned() {
    let a = args("a.jpg", None, convert_to("PNG"));
    assert_eq!(plan(&a, true, true, false), Ok(Plan { log_level: None, action: Action::ConvertFile(Format::Png) }));
}

#[test]
fn convert_directory_is_planned() {
    let a = args("folder", Some("debug"), convert_to("jpg"));
    assert_eq!(
        plan(&a, true, false, true),
        Ok(Plan { log_level: Some(LogLevel::Debug), action: Action::ConvertDirectory(Format::Jpeg) })
    );
}

#[test]
fn no_command_means_info() {
    let a = args("a.png", None, None);
    assert_eq!(plan(&a, true, true, false), Ok(Plan { log_level: None, action: Action::Info }));
    let a = args("a.png", None, Some(Command::Info));
    assert_eq!(plan(&a, true, true, false), Ok(Plan { log_level: None, action: Action::Info }));
}

#[test]
fn is_is_planned() {
    let a = args("a.png", Some("trace"), is_format("png"));
    assert_eq!(
        plan(&a, true, true, false),
        Ok(Plan { log_level: Some(LogLevel::Trace), action: Action::Is(Format::Png) })
    );
}

#[test]
fn missing_path_fails_for_every_command() {
    for command in [None, Some(Command::Info), convert_to("png"), is_format("png"), convert_to("svg")] {
        let a = args("does/not/exist.png", None, command);
        assert_eq!(plan(&a, false, false, false), Err(Error::PathNotFound));
    }
}

#[test]
fn invalid_log_level_comes_first() {
    let a = args("does/not/exist.png", Some("loud"), convert_to("svg"));
    assert_eq!(plan(&a, false, false, false), Err(Error::InvalidLogLevel));
}

#[test]
fn unknown_format_before_path_kind() {
    let a = args("a.png", None, convert_to("svg"));
    assert_eq!(plan(&a, true, false, false), Err(Error::UnknownFormat));
    let a = args("a.png", None, is_format("svg"));
    assert_eq!(plan(&a, true, true, false), Err(Error::UnknownFormat));
}

#[test]
fn inaccessible_path_is_refused() {
    let a = args("a.png", None, convert_to("png"));
    assert_eq!(plan(&a, true, false, false), Err(Error::AccessDenied));
    let a = args("a.png", None, None);
    assert_eq!(plan(&a, true, false, false), Err(Error::AccessDenied));
}

#[test]
fn is_and_info_refuse_directories() {
    let a = args("folder", None, is_format("png"));
    assert_eq!(plan(&a, true, false, true), Err(Error::UnsupportedForDirectory));
    let a = args("folder", None, Some(Command::Info));
    assert_eq!(plan(&a, true, false, true), Err(Error::UnsupportedForDirectory));
}

#[test]
fn is_outcomes() {
    assert_eq!(is("dir/my_image.jpg", true, Format::Png), Err(Error::FormatMismatch));
    assert_eq!(is("dir/my_image.png", true, Format::Png), Ok(()));
    assert_eq!(is("dir/my_image.JPEG", true, Format::Jpeg), Ok(()));
    assert_eq!(is("dir/notes.txt", true, Format::Png), Err(Error::FormatMismatch));
    assert_eq!(is("dir/my_image.png", false, Format::Png), Err(Error::OpenError));
    assert_eq!(is_image_with_type("a.gif", true, Format::Gif), Ok(true));
    assert_eq!(is_image_with_type("a.gif", true, Format::Bmp), Ok(false));
    assert!(format_matches(Some(Format::Gif), Format::Gif));
    assert!(!format_matches(None, Format::Gif));
}

#[test]
fn info_lines() {
    assert_eq!(info_line("dir/my_image.png", Some(Format::Png)), "dir/my_image.png png\n");
    assert_eq!(info_line("./x.JPG", Some(Format::Jpeg)), "./x.JPG jpeg\n");
    assert_eq!(info_line("notes.txt", None), "notes.txt unknown\n");
}

#[test]
fn info_reports_detected_format() {
    assert_eq!(info("dir/my_image.png", true), Ok("dir/my_image.png png\n".to_owned()));
    assert_eq!(info("./photo.jpg", true), Ok("./photo.jpg jpeg\n".to_owned()));
    assert_eq!(info("notes.txt", true), Ok("notes.txt unknown\n".to_owned()));
    assert_eq!(info("no_extension", true), Ok("no_extension unknown\n".to_owned()));
    assert_eq!(info("dir/my_image.png", false), Err(Error::OpenError));
}

#[test]
fn target_paths_replace_the_extension() {
    assert_eq!(target_path("dir/my_image.jpg", Format::Png), "dir/my_image.png");
    assert_eq!(target_path("photo", Format::Jpeg), "photo.jpeg");
    assert_eq!(target_path("a.b.gif", Format::WebP), "a.b.webp");
}

#[test]
fn convert_targets() {
    assert_eq!(convert_file_target("my_image.jpg", true, Format::Png), Ok("my_image.png".to_owned()));
    assert_eq!(convert_file_target("my_image.png", true, Format::Png), Ok("my_image.png".to_owned()));
    assert_eq!(convert_file_target("blob.dat", true, Format::Png), Err(Error::OpenError));
    assert_eq!(convert_file_target("my_image.jpg", false, Format::Png), Err(Error::OpenError));
}

#[test]
fn directory_entries() {
    assert_eq!(is_image_file("f/a.jpg", true), Ok(true));
    assert_eq!(is_image_file("f/a.txt", true), Ok(false));
    assert_eq!(is_image_file("f/a.jpg", false), Err(Error::OpenError));
    assert!(should_convert_entry("f/a.jpg", EntryProbe::Opened));
    assert!(!should_convert_entry("f/notes.txt", EntryProbe::Opened));
    assert!(!should_convert_entry("f", EntryProbe::Opened));
    assert!(!should_convert_entry("f/a.jpg", EntryProbe::OpenFailed));
    assert!(!should_convert_entry("", EntryProbe::WalkFailed));
}
