//! Desktop sessions: numbering new ones, the default session, and the
//! commands that start and stop a session's display, bus, VNC and client.
use vstd::prelude::*;
use crate::plans::strings_view;
use crate::router::file_downloads::append_str;
use crate::text::{chars_of, signed_decimal, str_eq};

verus! {

/// A new session's display and Linux user: the next display number after the
/// highest in use (99 when none), as `:<n>` and `wechat-<n>`.
pub open spec fn next_display_spec(max_display: Option<i32>) -> (Seq<char>, Seq<char>) {
    let n = match max_display {
        Some(m) => m + 1,
        None => 100,
    };
    (":"@ + signed_decimal(n), "wechat-"@ + signed_decimal(n))
}

/// Numbers a new session's display and user.
pub fn next_display(max_display: Option<i32>) -> (r: (String, String))
    requires
        max_display != Some(i32::MAX),
    ensures
        (r.0@, r.1@) == next_display_spec(max_display),
{
    let n: i64 = match max_display {
        Some(m) => m as i64 + 1,
        None => 100,
    };
    let mut d = String::from_str(":");
    crate::text::push_signed_decimal(n, &mut d);
    let mut u = String::from_str("wechat-");
    crate::text::push_signed_decimal(n, &mut u);
    (d, u)
}

/// A new session's VNC port: one above the highest in use, 5901 when none.
pub fn next_vnc_port(max_port: Option<i32>) -> (r: i32)
    requires
        max_port != Some(i32::MAX),
    ensures
        r == match max_port {
            Some(m) => m + 1,
            None => 5901,
        },
{
    match max_port {
        Some(m) => m + 1,
        None => 5901,
    }
}

/// The refusal of a second session with the same name.
pub open spec fn duplicate_name_spec(name: Seq<char>) -> Seq<char> {
    "Session with name \""@ + name + "\" already exists"@
}

pub fn duplicate_name_error(name: &str) -> (r: String)
    ensures
        r@ == duplicate_name_spec(name@),
{
    let mut s = String::from_str("Session with name \"");
    append_str(&mut s, name);
    append_str(&mut s, "\" already exists");
    s
}

/// The default session is kept only on display `:99`; on any other it is
/// deleted and created again.
pub fn default_session_current(display: &str) -> (r: bool)
    ensures
        r == (display@ == ":99"@),
{
    str_eq(display, ":99")
}

/// The display number: the display without its leading colons.
pub open spec fn display_number(display: Seq<char>) -> Seq<char>
    decreases display.len(),
{
    if display.len() > 0 && display[0] == ':' {
        display_number(display.drop_first())
    } else {
        display
    }
}

/// The X server's lock file of a display.
pub open spec fn lock_path_spec(display: Seq<char>) -> Seq<char> {
    "/tmp/.X"@ + display_number(display) + "-lock"@
}

/// The lock file removed before a display's server starts and after it stops.
pub fn lock_path(display: &str) -> (r: String)
    ensures
        r@ == lock_path_spec(display@),
{
    let cs = chars_of(display);
    let mut i: usize = 0;
    assert(cs@.skip(0) == cs@);
    while i < cs.len() && cs[i] == ':'
        invariant
            i <= cs.len(),
            cs@ == display@,
            display_number(display@) == display_number(cs@.skip(i as int)),
        decreases cs.len() - i,
    {
        assert(cs@.skip(i as int).drop_first() == cs@.skip(i + 1));
        i += 1;
    }
    proof {
        if i < cs.len() {
            assert(cs@.skip(i as int)[0] == cs@[i as int]);
        }
    }
    let mut s = String::from_str("/tmp/.X");
    let mut k = i;
    while k < cs.len()
        invariant
            i <= k <= cs.len(),
            s@ == "/tmp/.X"@ + cs@.subrange(i as int, k as int),
        decreases cs.len() - k,
    {
        s.push(cs[k]);
        k += 1;
        assert(cs@.subrange(i as int, k as int) == cs@.subrange(i as int, k - 1).push(cs@[k - 1]));
    }
    assert(cs@.subrange(i as int, cs.len() as int) == cs@.skip(i as int));
    append_str(&mut s, "-lock");
    s
}

/// What `dbus-launch --sh-syntax` printed, reduced to the bus address: the
/// first capture of `DBUS_SESSION_BUS_ADDRESS='([^']+)'`.
pub uninterp spec fn regex_first_capture(pattern: Seq<char>, text: Seq<char>) -> Option<Seq<char>>;

/// `regex::Regex::new(pattern)` then `captures(text)`, read back as the first
/// group's text; nothing when the pattern is refused or nothing matches. The
/// capture is named, not stated.
#[verifier::external_body]
fn first_capture(pattern: &str, text: &str) -> (r: Option<String>)
    ensures
        crate::types::opt_str_view(r) == regex_first_capture(pattern@, text@),
{
    match regex::Regex::new(pattern) {
        Ok(re) => re.captures(text).and_then(|c| c.get(1)).map(|m| m.as_str().to_string()),
        Err(_) => None,
    }
}

/// The pattern of the bus address in `dbus-launch` output.
pub open spec fn dbus_pattern() -> Seq<char> {
    "DBUS_SESSION_BUS_ADDRESS='([^']+)'"@
}

/// The session bus address `dbus-launch` printed, empty when none was found.
pub fn dbus_address(output: &str) -> (r: String)
    ensures
        r@ == match regex_first_capture(dbus_pattern(), output@) {
            Some(a) => a,
            None => Seq::empty(),
        },
{
    match first_capture("DBUS_SESSION_BUS_ADDRESS='([^']+)'", output) {
        Some(a) => a,
        None => String::new(),
    }
}

/// The environment prefix of the commands run as the session's user.
pub open spec fn env_prefix(display: Seq<char>, bus: Seq<char>, home: Seq<char>) -> Seq<char> {
    "DISPLAY="@ + display + " DBUS_SESSION_BUS_ADDRESS="@ + bus + " HOME="@ + home
}

/// One process to start.
pub struct Launch {
    pub program: &'static str,
    pub args: Vec<String>,
}

/// The command line that runs a program as the session's user, in the background.
pub open spec fn background_spec(display: Seq<char>, bus: Seq<char>, home: Seq<char>, program: Seq<char>) -> Seq<char> {
    env_prefix(display, bus, home) + " "@ + program + " &"@
}

fn as_user(user: &str, command: String) -> (r: Vec<String>)
    ensures
        strings_view(r@) == seq!["-s"@, "/bin/bash"@, "-c"@, command@, user@],
{
    let mut v: Vec<String> = Vec::new();
    v.push(String::from_str("-s"));
    v.push(String::from_str("/bin/bash"));
    v.push(String::from_str("-c"));
    v.push(command);
    v.push(String::from_str(user));
    assert(strings_view(v@) =~= seq!["-s"@, "/bin/bash"@, "-c"@, command@, user@]);
    v
}

fn background(display: &str, bus: &str, home: &str, program: &str) -> (r: String)
    ensures
        r@ == background_spec(display@, bus@, home@, program@),
{
    let mut s = String::from_str("DISPLAY=");
    append_str(&mut s, display);
    append_str(&mut s, " DBUS_SESSION_BUS_ADDRESS=");
    append_str(&mut s, bus);
    append_str(&mut s, " HOME=");
    append_str(&mut s, home);
    append_str(&mut s, " ");
    append_str(&mut s, program);
    append_str(&mut s, " &");
    s
}

/// The client's command: the session environment with accessibility switched on.
pub open spec fn wechat_command_spec(display: Seq<char>, bus: Seq<char>, home: Seq<char>) -> Seq<char> {
    "DISPLAY="@ + display + " DBUS_SESSION_BUS_ADDRESS="@ + bus
        + " QT_ACCESSIBILITY=1 QT_LINUX_ACCESSIBILITY_ALWAYS_ON=1 GTK_MODULES=gail:atk-bridge HOME="@
        + home + " /usr/bin/wechat &"@
}

/// The processes started after the display server and the bus, in order:
/// the window manager, the accessibility bus, the VNC server (local only),
/// noVNC's proxy when it is installed, and the client.
pub open spec fn launch_spec(
    display: Seq<char>,
    user: Seq<char>,
    bus: Seq<char>,
    vnc_port: i32,
    novnc: bool,
) -> Seq<(Seq<char>, Seq<Seq<char>>)> {
    let home = "/home/"@ + user;
    let su = |c: Seq<char>| seq!["-s"@, "/bin/bash"@, "-c"@, c, user];
    seq![
        ("su"@, su(background_spec(display, bus, home, "fluxbox"@))),
        ("su"@, su(background_spec(display, bus, home, "/usr/libexec/at-spi-bus-launcher"@))),
        (
            "x11vnc"@,
            seq![
                "-display"@, display, "-forever"@, "-nopw"@, "-shared"@, "-viewonly"@, "-xkb"@,
                "-rfbport"@, signed_decimal(vnc_port as int), "-listen"@, "127.0.0.1"@,
            ],
        ),
    ] + (if novnc {
        seq![
            (
                "websockify"@,
                seq![
                    "--web"@,
                    "/opt/novnc"@,
                    "127.0.0.1:"@ + signed_decimal(vnc_port + 180),
                    "localhost:"@ + signed_decimal(vnc_port as int),
                ],
            ),
        ]
    } else {
        Seq::empty()
    }) + seq![("su"@, su(wechat_command_spec(display, bus, home)))]
}

pub open spec fn launches_view(v: Seq<Launch>) -> Seq<(Seq<char>, Seq<Seq<char>>)> {
    v.map_values(|l: Launch| (l.program@, strings_view(l.args@)))
}

fn push_launch(out: &mut Vec<Launch>, l: Launch)
    ensures
        launches_view(final(out)@) == launches_view(old(out)@).push((l.program@, strings_view(l.args@))),
{
    let ghost prev = launches_view(out@);
    out.push(l);
    assert(launches_view(out@) =~= prev.push((l.program@, strings_view(l.args@))));
}

/// The processes that bring a session's desktop up once its display and bus run.
pub fn session_launches(display: &str, user: &str, bus: &str, vnc_port: i32, novnc: bool) -> (r: Vec<
    Launch,
>)
    requires
        vnc_port <= i32::MAX - 180,
    ensures
        launches_view(r@) == launch_spec(display@, user@, bus@, vnc_port, novnc),
{
    let mut home = String::from_str("/home/");
    append_str(&mut home, user);
    let mut out: Vec<Launch> = Vec::new();
    push_launch(
        &mut out,
        Launch { program: "su", args: as_user(user, background(display, bus, home.as_str(), "fluxbox")) },
    );
    push_launch(
        &mut out,
        Launch {
            program: "su",
            args: as_user(
                user,
                background(display, bus, home.as_str(), "/usr/libexec/at-spi-bus-launcher"),
            ),
        },
    );
    let mut port = String::new();
    crate::text::push_signed_decimal(vnc_port as i64, &mut port);
    let mut vnc: Vec<String> = Vec::new();
    vnc.push(String::from_str("-display"));
    vnc.push(String::from_str(display));
    vnc.push(String::from_str("-forever"));
    vnc.push(String::from_str("-nopw"));
    vnc.push(String::from_str("-shared"));
    vnc.push(String::from_str("-viewonly"));
    vnc.push(String::from_str("-xkb"));
    vnc.push(String::from_str("-rfbport"));
    vnc.push(port);
    vnc.push(String::from_str("-listen"));
    vnc.push(String::from_str("127.0.0.1"));
    assert(strings_view(vnc@) =~= seq![
        "-display"@, display@, "-forever"@, "-nopw"@, "-shared"@, "-viewonly"@, "-xkb"@,
        "-rfbport"@, signed_decimal(vnc_port as int), "-listen"@, "127.0.0.1"@,
    ]);
    push_launch(&mut out, Launch { program: "x11vnc", args: vnc });
    let ghost after_vnc = launches_view(out@);
    if novnc {
        let mut bind = String::from_str("127.0.0.1:");
        crate::text::push_signed_decimal((vnc_port + 180) as i64, &mut bind);
        let mut target = String::from_str("localhost:");
        crate::text::push_signed_decimal(vnc_port as i64, &mut target);
        let mut w: Vec<String> = Vec::new();
        w.push(String::from_str("--web"));
        w.push(String::from_str("/opt/novnc"));
        w.push(bind);
        w.push(target);
        assert(strings_view(w@) =~= seq![
            "--web"@,
            "/opt/novnc"@,
            "127.0.0.1:"@ + signed_decimal(vnc_port + 180),
            "localhost:"@ + signed_decimal(vnc_port as int),
        ]);
        push_launch(&mut out, Launch { program: "websockify", args: w });
    }
    let mut cmd = String::from_str("DISPLAY=");
    append_str(&mut cmd, display);
    append_str(&mut cmd, " DBUS_SESSION_BUS_ADDRESS=");
    append_str(&mut cmd, bus);
    append_str(
        &mut cmd,
        " QT_ACCESSIBILITY=1 QT_LINUX_ACCESSIBILITY_ALWAYS_ON=1 GTK_MODULES=gail:atk-bridge HOME=",
    );
    append_str(&mut cmd, home.as_str());
    append_str(&mut cmd, " /usr/bin/wechat &");
    assert(cmd@ == wechat_command_spec(display@, bus@, home@));
    let ghost before_last = launches_view(out@);
    push_launch(&mut out, Launch { program: "su", args: as_user(user, cmd) });
    proof {
        let h = "/home/"@ + user@;
        assert(home@ == h);
        let su = |c: Seq<char>| seq!["-s"@, "/bin/bash"@, "-c"@, c, user@];
        let first3 = seq![
            ("su"@, su(background_spec(display@, bus@, h, "fluxbox"@))),
            ("su"@, su(background_spec(display@, bus@, h, "/usr/libexec/at-spi-bus-launcher"@))),
            (
                "x11vnc"@,
                seq![
                    "-display"@, display@, "-forever"@, "-nopw"@, "-shared"@, "-viewonly"@, "-xkb"@,
                    "-rfbport"@, signed_decimal(vnc_port as int), "-listen"@, "127.0.0.1"@,
                ],
            ),
        ];
        assert(after_vnc =~= first3);
        let mid = if novnc {
            seq![
                (
                    "websockify"@,
                    seq![
                        "--web"@,
                        "/opt/novnc"@,
                        "127.0.0.1:"@ + signed_decimal(vnc_port + 180),
                        "localhost:"@ + signed_decimal(vnc_port as int),
                    ],
                ),
            ]
        } else {
            Seq::empty()
        };
        assert(before_last =~= first3 + mid);
        assert(launches_view(out@) =~= first3 + mid + seq![("su"@, su(wechat_command_spec(display@, bus@, h)))]);
    }
    assert(launches_view(out@) =~= launch_spec(display@, user@, bus@, vnc_port, novnc));
    out
}

/// The display server's arguments: the display and one 1280x800 screen of depth 24.
pub fn xvfb_args(display: &str) -> (r: Vec<String>)
    ensures
        strings_view(r@) == seq![display@, "-screen"@, "0"@, "1280x800x24"@],
{
    let mut v: Vec<String> = Vec::new();
    v.push(String::from_str(display));
    v.push(String::from_str("-screen"));
    v.push(String::from_str("0"));
    v.push(String::from_str("1280x800x24"));
    assert(strings_view(v@) =~= seq![display@, "-screen"@, "0"@, "1280x800x24"@]);
    v
}

/// The bus is started as the session's user with `dbus-launch --sh-syntax`.
pub fn dbus_launch_args(user: &str) -> (r: Vec<String>)
    ensures
        strings_view(r@) == seq!["-s"@, "/bin/bash"@, "-c"@, "dbus-launch --sh-syntax"@, user@],
{
    as_user(user, String::from_str("dbus-launch --sh-syntax"))
}

/// What stopping a session kills: the user's processes, then its display server.
pub open spec fn stop_spec(user: Seq<char>, display: Seq<char>) -> (Seq<Seq<char>>, Seq<Seq<char>>) {
    (seq!["-u"@, user], seq!["-f"@, "Xvfb "@ + display])
}

/// The arguments of the two `pkill` calls that stop a session.
pub fn stop_args(user: &str, display: &str) -> (r: (Vec<String>, Vec<String>))
    ensures
        (strings_view(r.0@), strings_view(r.1@)) == stop_spec(user@, display@),
{
    let mut a: Vec<String> = Vec::new();
    a.push(String::from_str("-u"));
    a.push(String::from_str(user));
    let mut x = String::from_str("Xvfb ");
    append_str(&mut x, display);
    let mut b: Vec<String> = Vec::new();
    b.push(String::from_str("-f"));
    b.push(x);
    assert(strings_view(a@) =~= seq!["-u"@, user@]);
    assert(strings_view(b@) =~= seq!["-f"@, "Xvfb "@ + display@]);
    (a, b)
}

/// A session being deleted is stopped first when it is running or starting.
pub fn stop_before_delete(status: &str) -> (r: bool)
    ensures
        r == (status@ == "running"@ || status@ == "starting"@),
{
    str_eq(status, "running") || str_eq(status, "starting")
}

} // verus!
