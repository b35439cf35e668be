//! The media player: how mpv and the terminal around it are started, where
//! its control socket lives, the commands sent over that socket, and how an
//! ended player is reported.
use vstd::prelude::*;
use crate::cache::{join_path, path_join};
use crate::text::{concat2, concat3, decimal, str_eq, u64_to_string};
use crate::xtream_api::views;

verus! {

/// The message when mpv is missing.
pub open spec fn mpv_missing_of() -> Seq<char> {
    "MPV is not installed. Please install MPV to use this application."@
}

/// The message when mpv is missing.
pub fn mpv_missing_message() -> (r: String)
    ensures
        r@ == mpv_missing_of(),
{
    String::from_str("MPV is not installed. Please install MPV to use this application.")
}

/// Decimal text of a signed integer.
pub open spec fn signed_decimal(n: i32) -> Seq<char> {
    if n < 0 { "-"@ + decimal((-n) as nat) } else { decimal(n as nat) }
}

fn i32_to_string(n: i32) -> (r: String)
    ensures
        r@ == signed_decimal(n),
{
    if n < 0 {
        let m: i64 = -(n as i64);
        let d = u64_to_string(m as u64);
        concat2("-", d.as_str())
    } else {
        u64_to_string(n as u64)
    }
}

/// The arguments of mpv when the command line waits for playback to end.
pub fn blocking_args(url: &str) -> (r: Vec<String>)
    ensures
        views(r@) == seq![url@, "--force-window=yes"@, "--keep-open=yes"@, "--title=IPTV Stream"@, "--geometry=1280x720"@, "--autofit-larger=90%x90%"@],
{
    let mut v: Vec<String> = Vec::new();
    v.push(url.to_owned());
    v.push(String::from_str("--force-window=yes"));
    v.push(String::from_str("--keep-open=yes"));
    v.push(String::from_str("--title=IPTV Stream"));
    v.push(String::from_str("--geometry=1280x720"));
    v.push(String::from_str("--autofit-larger=90%x90%"));
    assert(views(v@) =~= seq![url@, "--force-window=yes"@, "--keep-open=yes"@, "--title=IPTV Stream"@, "--geometry=1280x720"@, "--autofit-larger=90%x90%"@]);
    v
}

/// The outcome of a waited-for mpv: a failure with an exit code other than
/// 4 (mpv's code for the user quitting) is an error.
pub fn blocking_exit(success: bool, code: Option<i32>) -> (r: Result<(), String>)
    ensures
        (!success && (code matches Some(c) && c != 4)) ==> (r matches Err(m) && m@ == "MPV exited with code: "@ + signed_decimal(code->Some_0)),
        !(!success && (code matches Some(c) && c != 4)) ==> r is Ok,
{
    if !success {
        match code {
            Some(c) => {
                if c != 4 {
                    let t = i32_to_string(c);
                    return Err(concat2("MPV exited with code: ", t.as_str()));
                }
            },
            None => {},
        }
    }
    Ok(())
}

/// The program and arguments of an independent mpv window: started through
/// `setsid` on Linux.
pub fn disassociated_command(url: &str, linux: bool) -> (r: (String, Vec<String>))
    ensures
        linux ==> r.0@ == "setsid"@ && views(r.1@) == seq!["mpv"@, url@] + independent_args(),
        !linux ==> r.0@ == "mpv"@ && views(r.1@) == seq![url@] + independent_args(),
{
    let mut v: Vec<String> = Vec::new();
    let program = if linux {
        v.push(String::from_str("mpv"));
        String::from_str("setsid")
    } else {
        String::from_str("mpv")
    };
    v.push(url.to_owned());
    let ghost head = views(v@);
    v.push(String::from_str("--force-window=yes"));
    v.push(String::from_str("--keep-open=yes"));
    v.push(String::from_str("--title=IPTV Stream (Independent)"));
    v.push(String::from_str("--geometry=1280x720"));
    v.push(String::from_str("--autofit-larger=90%x90%"));
    assert(views(v@) =~= head + independent_args());
    (program, v)
}

/// The window options of an independent mpv window.
pub open spec fn independent_args() -> Seq<Seq<char>> {
    seq!["--force-window=yes"@, "--keep-open=yes"@, "--title=IPTV Stream (Independent)"@, "--geometry=1280x720"@, "--autofit-larger=90%x90%"@]
}

/// The terminal emulators tried, in order, with the arguments that make
/// each run a command.
pub open spec fn terminals_of() -> Seq<(Seq<char>, Seq<Seq<char>>)> {
    seq![
        ("alacritty"@, seq!["-e"@]),
        ("kitty"@, Seq::<Seq<char>>::empty()),
        ("konsole"@, seq!["-e"@]),
        ("gnome-terminal"@, seq!["--"@]),
        ("xfce4-terminal"@, seq!["-x"@]),
        ("mate-terminal"@, seq!["-x"@]),
        ("xterm"@, seq!["-e"@]),
    ]
}

fn one_arg(a: &str) -> (r: Vec<String>)
    ensures
        views(r@) == seq![a@],
{
    let mut v: Vec<String> = Vec::new();
    v.push(a.to_owned());
    assert(views(v@) =~= seq![a@]);
    v
}

/// The terminal emulators tried, in order.
pub fn terminal_emulators() -> (r: Vec<(String, Vec<String>)>)
    ensures
        r@.len() == 7,
        forall|i: int| 0 <= i < 7 ==> (#[trigger] r@[i]).0@ == terminals_of()[i].0 && views(r@[i].1@) == terminals_of()[i].1,
{
    let mut v: Vec<(String, Vec<String>)> = Vec::new();
    v.push((String::from_str("alacritty"), one_arg("-e")));
    let empty: Vec<String> = Vec::new();
    assert(views(empty@) =~= Seq::<Seq<char>>::empty());
    v.push((String::from_str("kitty"), empty));
    v.push((String::from_str("konsole"), one_arg("-e")));
    v.push((String::from_str("gnome-terminal"), one_arg("--")));
    v.push((String::from_str("xfce4-terminal"), one_arg("-x")));
    v.push((String::from_str("mate-terminal"), one_arg("-x")));
    v.push((String::from_str("xterm"), one_arg("-e")));
    v
}

/// The message when no terminal emulator is found.
pub fn no_terminal_message() -> (r: String)
    ensures
        r@ == "No terminal emulator found. Please install one of: alacritty, kitty, konsole, gnome-terminal, xfce4-terminal, mate-terminal, or xterm"@,
{
    String::from_str("No terminal emulator found. Please install one of: alacritty, kitty, konsole, gnome-terminal, xfce4-terminal, mate-terminal, or xterm")
}

/// The options of mpv started in a terminal for its debug output, with a
/// control socket for later streams.
pub open spec fn terminal_mpv_args_of(url: Seq<char>, socket: Seq<char>) -> Seq<Seq<char>> {
    seq![
        "mpv"@, url, "--input-ipc-server="@ + socket, "--idle=yes"@, "--force-window=yes"@, "--keep-open=yes"@,
        "--title=IPTV Stream (Terminal)"@, "--geometry=1280x720"@, "--autofit-larger=90%x90%"@, "--osc=yes"@,
        "--osd-bar=yes"@, "-v"@,
    ]
}

/// The arguments of the terminal: its own, then mpv and mpv's options.
pub fn terminal_args(term_args: &Vec<String>, url: &str, socket: &str) -> (r: Vec<String>)
    ensures
        views(r@) == views(term_args@) + terminal_mpv_args_of(url@, socket@),
{
    let mut v: Vec<String> = Vec::new();
    let mut i: usize = 0;
    while i < term_args.len()
        invariant
            i <= term_args@.len(),
            views(v@) == views(term_args@.subrange(0, i as int)),
        decreases term_args@.len() - i,
    {
        let ghost before = views(v@);
        v.push(term_args[i].clone());
        proof {
            assert(views(v@) =~= before.push(term_args@[i as int]@));
            assert(views(term_args@.subrange(0, i + 1)) =~= views(term_args@.subrange(0, i as int)).push(term_args@[i as int]@));
        }
        i = i + 1;
    }
    assert(term_args@.subrange(0, term_args@.len() as int) =~= term_args@);
    let ghost head = views(v@);
    v.push(String::from_str("mpv"));
    v.push(url.to_owned());
    v.push(concat2("--input-ipc-server=", socket));
    v.push(String::from_str("--idle=yes"));
    v.push(String::from_str("--force-window=yes"));
    v.push(String::from_str("--keep-open=yes"));
    v.push(String::from_str("--title=IPTV Stream (Terminal)"));
    v.push(String::from_str("--geometry=1280x720"));
    v.push(String::from_str("--autofit-larger=90%x90%"));
    v.push(String::from_str("--osc=yes"));
    v.push(String::from_str("--osd-bar=yes"));
    v.push(String::from_str("-v"));
    assert(views(v@) =~= head + terminal_mpv_args_of(url@, socket@));
    v
}

/// The options of the managed mpv, controlled through its socket.
pub open spec fn managed_mpv_args_of(socket: Seq<char>) -> Seq<Seq<char>> {
    seq![
        "--input-ipc-server="@ + socket, "--idle=yes"@, "--force-window=yes"@, "--keep-open=yes"@, "--no-terminal"@,
        "--really-quiet"@, "--osc=yes"@, "--osd-bar=yes"@, "--title=IPTV Player (MPV)"@, "--geometry=1280x720"@,
        "--autofit-larger=90%x90%"@,
    ]
}

/// The options of the managed mpv.
pub fn managed_mpv_args(socket: &str) -> (r: Vec<String>)
    ensures
        views(r@) == managed_mpv_args_of(socket@),
{
    let mut v: Vec<String> = Vec::new();
    v.push(concat2("--input-ipc-server=", socket));
    v.push(String::from_str("--idle=yes"));
    v.push(String::from_str("--force-window=yes"));
    v.push(String::from_str("--keep-open=yes"));
    v.push(String::from_str("--no-terminal"));
    v.push(String::from_str("--really-quiet"));
    v.push(String::from_str("--osc=yes"));
    v.push(String::from_str("--osd-bar=yes"));
    v.push(String::from_str("--title=IPTV Player (MPV)"));
    v.push(String::from_str("--geometry=1280x720"));
    v.push(String::from_str("--autofit-larger=90%x90%"));
    assert(views(v@) =~= managed_mpv_args_of(socket@));
    v
}

/// The directory for runtime state: `$XDG_STATE_HOME`, else
/// `$HOME/.local/state`.
pub open spec fn state_dir_of(xdg_state_home: Option<Seq<char>>, home: Seq<char>) -> Seq<char> {
    match xdg_state_home {
        Some(x) => x,
        None => path_join(path_join(home, ".local"@), "state"@),
    }
}

/// The control socket of mpv: `<state>/iptv/mpv.sock`, or an instance's
/// own `mpv-<pid>.sock` there.
pub open spec fn socket_path_of(state_dir: Seq<char>, isolated: bool, pid: u32) -> Seq<char> {
    path_join(path_join(state_dir, "iptv"@), if isolated { "mpv-"@ + decimal(pid as nat) + ".sock"@ } else { "mpv.sock"@ })
}

/// The directory for runtime state (a home directory is needed when
/// `XDG_STATE_HOME` is not set).
pub fn state_dir(xdg_state_home: Option<&str>, home: Option<&str>) -> (r: String)
    requires
        xdg_state_home is Some || home is Some,
    ensures
        r@ == state_dir_of(match xdg_state_home { Some(x) => Some(x@), None => None },
            match home { Some(h) => h@, None => Seq::<char>::empty() }),
{
    match xdg_state_home {
        Some(x) => x.to_owned(),
        None => {
            let h = match home {
                Some(h) => h,
                None => "",
            };
            let local = join_path(h, ".local");
            join_path(local.as_str(), "state")
        },
    }
}

/// The control socket of mpv.
pub fn socket_path(state_dir: &str, isolated: bool, pid: u32) -> (r: String)
    ensures
        r@ == socket_path_of(state_dir@, isolated, pid),
{
    let dir = join_path(state_dir, "iptv");
    let name = if isolated {
        let p = u64_to_string(pid as u64);
        concat3("mpv-", p.as_str(), ".sock")
    } else {
        String::from_str("mpv.sock")
    };
    join_path(dir.as_str(), name.as_str())
}

/// The socket in the temporary directory when the state directory cannot
/// be made: `iptv-mpv-<uid>.sock`, or `iptv-mpv-<uid>-<pid>.sock`.
pub fn fallback_socket_path(temp_dir: &str, uid: u32, isolated: bool, pid: u32) -> (r: String)
    ensures
        r@ == path_join(temp_dir@, "iptv-mpv-"@ + decimal(uid as nat)
            + (if isolated { "-"@ + decimal(pid as nat) } else { ""@ }) + ".sock"@),
{
    let u = u64_to_string(uid as u64);
    let tail = if isolated {
        let p = u64_to_string(pid as u64);
        concat2("-", p.as_str())
    } else {
        String::new()
    };
    proof { reveal_strlit(""); }
    let name = concat3("iptv-mpv-", u.as_str(), concat2(tail.as_str(), ".sock").as_str());
    assert(name@ =~= "iptv-mpv-"@ + decimal(uid as nat) + (if isolated { "-"@ + decimal(pid as nat) } else { ""@ }) + ".sock"@);
    join_path(temp_dir, name.as_str())
}

/// The report of an ended managed mpv.
pub open spec fn mpv_exit_message_of(success: bool, code: Option<i32>) -> Seq<char> {
    if success {
        "MPV exited normally (status: 0)"@
    } else {
        match code {
            Some(c) => "MPV exited with error code: "@ + signed_decimal(c),
            None => "MPV terminated by signal"@,
        }
    }
}

/// The report of an ended managed mpv.
pub fn mpv_exit_message(success: bool, code: Option<i32>) -> (r: String)
    ensures
        r@ == mpv_exit_message_of(success, code),
{
    if success {
        String::from_str("MPV exited normally (status: 0)")
    } else {
        match code {
            Some(c) => {
                let t = i32_to_string(c);
                concat2("MPV exited with error code: ", t.as_str())
            },
            None => String::from_str("MPV terminated by signal"),
        }
    }
}

/// The report of an ended player started without mpv's control socket.
pub fn fallback_exit_message(success: bool, code: Option<i32>) -> (r: String)
    ensures
        success ==> r@ == "Player exited normally"@,
        (!success && code is Some) ==> r@ == "Player exited with error code: "@ + signed_decimal(code->Some_0),
        !success && code is None ==> r@ == "Player terminated by signal"@,
{
    if success {
        String::from_str("Player exited normally")
    } else {
        match code {
            Some(c) => {
                let t = i32_to_string(c);
                concat2("Player exited with error code: ", t.as_str())
            },
            None => String::from_str("Player terminated by signal"),
        }
    }
}

/// The volume sent to mpv: at most 100.
pub fn clamp_volume(volume: u8) -> (r: u8)
    ensures
        r == (if volume < 100 { volume } else { 100 }),
{
    if volume < 100 { volume } else { 100 }
}

/// The lowercase hexadecimal digits.
pub open spec fn hex_digits() -> Seq<char> {
    seq!['0', '1', '2', '3', '4', '5', '6', '7', '8', '9', 'a', 'b', 'c', 'd', 'e', 'f']
}

/// How one character is written inside a JSON string: the quote, the
/// backslash and the control characters are escaped (the five short escapes,
/// else `\u00` and two hexadecimal digits); every other character is kept.
pub open spec fn json_escaped_char(c: char) -> Seq<char> {
    if c == '"' {
        seq!['\\', '"']
    } else if c == '\\' {
        seq!['\\', '\\']
    } else if c == '\u{8}' {
        seq!['\\', 'b']
    } else if c == '\u{c}' {
        seq!['\\', 'f']
    } else if c == '\n' {
        seq!['\\', 'n']
    } else if c == '\r' {
        seq!['\\', 'r']
    } else if c == '\t' {
        seq!['\\', 't']
    } else if (c as u32) < 0x20 {
        seq!['\\', 'u', '0', '0', hex_digits()[(c as int) / 16], hex_digits()[(c as int) % 16]]
    } else {
        seq![c]
    }
}

/// The characters of a string written inside a JSON string.
pub open spec fn json_escaped(s: Seq<char>) -> Seq<char>
    decreases s.len(),
{
    if s.len() == 0 {
        seq![]
    } else {
        json_escaped(s.drop_last()) + json_escaped_char(s.last())
    }
}

/// JSON text of a string: the escaped characters between double quotes.
pub open spec fn json_quoted(s: Seq<char>) -> Seq<char> {
    seq!['"'] + json_escaped(s) + seq!['"']
}

/// Calls `serde_json::to_string` on a string slice, which writes the string
/// between double quotes with the quote, the backslash and the control
/// characters escaped (writing a string cannot fail).
#[verifier::external_body]
fn json_string(s: &str) -> (r: String)
    ensures
        r@ == json_quoted(s@),
{
    match serde_json::to_string(s) {
        Ok(t) => t,
        Err(_) => String::new(),
    }
}

/// The string member `key` of a JSON text: `None` when the text is not JSON,
/// `Some(None)` when there is no string member `key`.
pub uninterp spec fn json_string_member(s: Seq<char>, key: Seq<char>) -> Option<Option<Seq<char>>>;

/// Calls `serde_json::from_str` into a JSON value and reads its string
/// member `key`; the result is the named reading of both arguments.
#[verifier::external_body]
fn json_string_field(s: &str, key: &str) -> (r: Option<Option<String>>)
    ensures
        match r {
            None => json_string_member(s@, key@) is None,
            Some(None) => json_string_member(s@, key@) == Some(None::<Seq<char>>),
            Some(Some(e)) => json_string_member(s@, key@) == Some(Some(e@)),
        },
{
    match serde_json::from_str::<serde_json::Value>(s) {
        Ok(v) => match v.get(key) {
            Some(e) => match e.as_str() {
                Some(t) => Some(Some(t.to_string())),
                None => Some(None),
            },
            None => Some(None),
        },
        Err(_) => None,
    }
}

/// The command that replaces what mpv plays: `loadfile <url> replace`.
pub fn loadfile_command(url: &str) -> (r: String)
    ensures
        r@ == "{\"command\":[\"loadfile\","@ + json_quoted(url@) + ",\"replace\"]}"@,
{
    let q = json_string(url);
    concat3("{\"command\":[\"loadfile\",", q.as_str(), ",\"replace\"]}")
}

/// The command that sets mpv's volume (at most 100).
pub fn volume_command(volume: u8) -> (r: String)
    ensures
        r@ == "{\"command\":[\"set_property\",\"volume\","@ + decimal((if volume < 100 { volume } else { 100u8 }) as nat) + "]}"@,
{
    let v = clamp_volume(volume);
    let t = u64_to_string(v as u64);
    concat3("{\"command\":[\"set_property\",\"volume\",", t.as_str(), "]}")
}

/// What mpv's answer to a command means: an answer that is not JSON is an
/// error, and so is an `error` member other than `success`.
pub fn check_mpv_answer(answer: &str) -> (r: Result<(), String>)
    ensures
        json_string_member(answer@, "error"@) is None ==> (r matches Err(m) && m@ == "Failed to parse MPV response: "@ + answer@),
        json_string_member(answer@, "error"@) == Some(None::<Seq<char>>) ==> r is Ok,
        (json_string_member(answer@, "error"@) matches Some(Some(e)) && e == "success"@) ==> r is Ok,
        (json_string_member(answer@, "error"@) matches Some(Some(e)) && e != "success"@) ==>
            (r matches Err(m) && m@ == "MPV command failed: "@ + json_string_member(answer@, "error"@)->Some_0->Some_0),
{
    match json_string_field(answer, "error") {
        None => Err(concat2("Failed to parse MPV response: ", answer)),
        Some(None) => Ok(()),
        Some(Some(e)) => {
            if str_eq(e.as_str(), "success") {
                Ok(())
            } else {
                Err(concat2("MPV command failed: ", e.as_str()))
            }
        },
    }
}

} // verus!
