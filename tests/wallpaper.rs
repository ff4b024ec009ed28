use dsktpbg::{encode_path, get_outcome, set_command, set_outcome, Context, SetCommandError};
use dsktpbg::{WallpaperError, BUFFER_SIZE, DEFAULT_WALLPAPER};

/// A stand-in for the operating system's wallpaper setting.
struct FakeOs {
    stored: Vec<u8>,
    calls: usize,
    fail_with: Option<u32>,
}

impl FakeOs {
    fn new() -> FakeOs {
        FakeOs { stored: vec![0], calls: 0, fail_with: None }
    }

    /// The write request: returns the status and the last error code.
    fn write(&mut self, request: &[u8]) -> (i32, u32) {
        self.calls += 1;
        match self.fail_with {
            Some(code) => (0, code),
            None => {
                self.stored = request.to_vec();
                (1, 0)
            }
        }
    }

    /// The read request into a buffer of the given capacity.
    fn read(&mut self, buf: &mut [u8]) -> (i32, u32) {
        self.calls += 1;
        if let Some(code) = self.fail_with {
            return (0, code);
        }
        if self.stored.len() > buf.len() {
            return (0, 122);
        }
        buf[..self.stored.len()].copy_from_slice(&self.stored);
        (1, 0)
    }
}

fn set(os: &mut FakeOs, path: &str) -> Result<(), WallpaperError> {
    let request = encode_path(path)?;
    let (status, code) = os.write(&request);
    set_outcome(status, code)
}

fn get(os: &mut FakeOs) -> Result<String, WallpaperError> {
    let mut buf = vec![0u8; BUFFER_SIZE];
    let (status, code) = os.read(&mut buf);
    get_outcome(status, &buf, code)
}

fn args(words: &[&str]) -> Vec<String> {
    words.iter().map(|w| w.to_string()).collect()
}

#[test]
fn set_then_get_returns_default_image() {
    let mut os = FakeOs::new();
    let path = "C:\\Windows\\Web\\Wallpaper\\Windows\\img0.jpg";
    assert_eq!(set(&mut os, path), Ok(()));
    assert_eq!(get(&mut os), Ok(String::from(path)));
}

#[test]
fn set_then_get_round_trips_any_path() {
    let mut os = FakeOs::new();
    for path in ["D:\\pics\\a.png", "x", "C:\\Users\\me\\Bilder\\caf\u{e9} \u{1f600}.jpg"] {
        assert_eq!(set(&mut os, path), Ok(()));
        assert_eq!(get(&mut os), Ok(String::from(path)));
    }
}

#[test]
fn clear_twice_succeeds() {
    let mut os = FakeOs::new();
    assert_eq!(set(&mut os, "D:\\old.bmp"), Ok(()));
    assert_eq!(set(&mut os, ""), Ok(()));
    assert_eq!(set(&mut os, ""), Ok(()));
    assert_eq!(get(&mut os), Ok(String::new()));
}

#[test]
fn clear_request_is_terminator_alone() {
    assert_eq!(encode_path(""), Ok(vec![0u8]));
}

#[test]
fn request_is_path_bytes_then_terminator() {
    assert_eq!(encode_path("a\u{e9}"), Ok(vec![b'a', 0xc3, 0xa9, 0]));
}

#[test]
fn embedded_nul_is_refused_without_os_call() {
    let mut os = FakeOs::new();
    assert_eq!(set(&mut os, "C:\\a\0b.jpg"), Err(WallpaperError::InvalidInput));
    assert_eq!(set(&mut os, "\0"), Err(WallpaperError::InvalidInput));
    assert_eq!(os.calls, 0);
}

#[test]
fn set_failure_carries_code() {
    let mut os = FakeOs::new();
    os.fail_with = Some(5);
    assert_eq!(
        set(&mut os, "C:\\missing.jpg"),
        Err(WallpaperError::OsFailure { code: 5, context: Context::Write })
    );
    assert_eq!(os.calls, 1);
}

#[test]
fn get_failure_carries_code() {
    let mut os = FakeOs::new();
    os.fail_with = Some(1459);
    assert_eq!(
        get(&mut os),
        Err(WallpaperError::OsFailure { code: 1459, context: Context::Read })
    );
}

#[test]
fn set_outcome_by_status() {
    assert_eq!(set_outcome(1, 7), Ok(()));
    assert_eq!(set_outcome(-1, 7), Ok(()));
    assert_eq!(
        set_outcome(0, 7),
        Err(WallpaperError::OsFailure { code: 7, context: Context::Write })
    );
}

#[test]
fn context_tags() {
    assert_eq!(Context::Read.as_str(), "get");
    assert_eq!(Context::Write.as_str(), "set");
}

#[test]
fn full_buffer_keeps_every_byte() {
    let mut buf = vec![b'p'; BUFFER_SIZE];
    buf[BUFFER_SIZE - 1] = 0;
    let got = get_outcome(1, &buf, 0).unwrap();
    assert_eq!(got.len(), BUFFER_SIZE - 1);
    assert_eq!(got, "p".repeat(BUFFER_SIZE - 1));
}

#[test]
fn path_at_capacity_round_trips() {
    let mut os = FakeOs::new();
    let path = "q".repeat(BUFFER_SIZE - 1);
    assert_eq!(set(&mut os, &path), Ok(()));
    assert_eq!(get(&mut os), Ok(path));
}

#[test]
fn path_over_capacity_is_os_failure() {
    let mut os = FakeOs::new();
    let path = "q".repeat(BUFFER_SIZE);
    assert_eq!(set(&mut os, &path), Ok(()));
    assert_eq!(
        get(&mut os),
        Err(WallpaperError::OsFailure { code: 122, context: Context::Read })
    );
}

#[test]
fn invalid_text_is_decode_error() {
    let mut buf = vec![0u8; BUFFER_SIZE];
    buf[0] = 0xff;
    buf[1] = 0xfe;
    buf[2] = b'a';
    assert_eq!(get_outcome(1, &buf, 0), Err(WallpaperError::DecodeError));
}

#[test]
fn invalid_bytes_after_terminator_are_ignored() {
    let buf = vec![b'o', b'k', 0, 0xff, 0xfe];
    assert_eq!(get_outcome(1, &buf, 0), Ok(String::from("ok")));
}

#[test]
fn unterminated_buffer_is_decode_error() {
    let buf = vec![b'a'; 16];
    assert_eq!(get_outcome(1, &buf, 0), Err(WallpaperError::DecodeError));
    assert_eq!(get_outcome(1, &[], 0), Err(WallpaperError::DecodeError));
}

#[test]
fn failed_read_ignores_buffer() {
    let buf = vec![b'a', 0];
    assert_eq!(
        get_outcome(0, &buf, 2),
        Err(WallpaperError::OsFailure { code: 2, context: Context::Read })
    );
}

#[test]
fn set_default_resolves_builtin_image() {
    assert_eq!(
        set_command(args(&["default"])),
        Ok(String::from("C:\\Windows\\Web\\Wallpaper\\Windows\\img0.jpg"))
    );
    assert_eq!(DEFAULT_WALLPAPER, "C:\\Windows\\Web\\Wallpaper\\Windows\\img0.jpg");
}

#[test]
fn set_file_resolves_its_path() {
    assert_eq!(set_command(args(&["file", "D:\\x.png"])), Ok(String::from("D:\\x.png")));
    assert_eq!(set_command(args(&["file", ""])), Ok(String::new()));
}

#[test]
fn set_file_needs_one_path() {
    assert_eq!(set_command(args(&["file"])), Err(SetCommandError::FileUsage));
    assert_eq!(set_command(args(&["file", "a", "b"])), Err(SetCommandError::FileUsage));
}

#[test]
fn set_without_arguments() {
    assert_eq!(set_command(Vec::new()), Err(SetCommandError::MissingArguments));
}

#[test]
fn set_color_is_not_supported() {
    assert_eq!(set_command(args(&["color", "1", "2", "3"])), Err(SetCommandError::ColorNotImplemented));
    assert_eq!(set_command(args(&["color", "#ffffff"])), Err(SetCommandError::ColorNotImplemented));
}

#[test]
fn set_unknown_form() {
    assert_eq!(
        set_command(args(&["tile", "x"])),
        Err(SetCommandError::UnknownSubcommand(String::from("tile")))
    );
    assert_eq!(
        set_command(args(&["Default"])),
        Err(SetCommandError::UnknownSubcommand(String::from("Default")))
    );
}

#[test]
fn set_command_messages() {
    assert_eq!(
        SetCommandError::MissingArguments.message(),
        "No arguments provided to set background to"
    );
    assert_eq!(SetCommandError::FileUsage.message(), "Usage: dsktpbg set file <path>");
    assert_eq!(
        SetCommandError::ColorNotImplemented.message(),
        "setting to color not implemented yet"
    );
    assert_eq!(
        SetCommandError::UnknownSubcommand(String::from("tile")).message(),
        "Unknown set command 'tile'"
    );
}
