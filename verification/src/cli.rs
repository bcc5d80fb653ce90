//! What a run of the command does, decided from its options: which mode it
//! runs in, how the remembered settings change, and which transfers happen
//! in which order, with which directories.
use vstd::prelude::*;

use crate::config::{with_host, AppConfig};

verus! {

broadcast use vstd::string::group_string_axioms;

/// The options that a run is given.
pub struct Options {
    /// Download `.java` files from the robot controller.
    pub download: bool,
    /// Upload `.java` files to the robot controller.
    pub upload: bool,
    /// Build the code on the robot controller.
    pub build: bool,
    /// Wipe all files from the robot controller.
    pub wipe: bool,
    /// The directories that downloads and uploads use, in order.
    pub directories: Vec<String>,
    /// An address to try besides the remembered ones.
    pub host: Option<String>,
    /// How long to wait for each host, in milliseconds.
    pub timeout_ms: Option<u64>,
    /// Forget the remembered settings.
    pub restore_defaults: bool,
}

/// What kind of run the options ask for.
#[derive(Clone, Copy, Debug, PartialEq, Eq, Structural)]
pub enum Mode {
    /// Store the default settings, and do nothing else.
    RestoreDefaults,
    /// Connect, remember the settings that worked, and transfer.
    Transfer,
    /// Print a hint on how to get help.
    Usage,
}

/// The kind of run that `opts` asks for: restoring the defaults takes
/// precedence; otherwise any of the four actions makes a transfer run.
pub open spec fn mode_of(opts: Options) -> Mode {
    if opts.restore_defaults {
        Mode::RestoreDefaults
    } else if opts.download || opts.wipe || opts.upload || opts.build {
        Mode::Transfer
    } else {
        Mode::Usage
    }
}

/// The kind of run that `opts` asks for.
pub fn mode(opts: &Options) -> (m: Mode)
    ensures
        m == mode_of(*opts),
{
    if opts.restore_defaults {
        Mode::RestoreDefaults
    } else if opts.download || opts.wipe || opts.upload || opts.build {
        Mode::Transfer
    } else {
        Mode::Usage
    }
}

/// One action of a transfer run.
#[derive(Debug)]
pub enum Action {
    /// Download into this directory.
    Download(String),
    /// Wipe the robot controller.
    Wipe,
    /// Upload from this directory.
    Upload(String),
    /// Build on the robot controller.
    Build,
}

/// An action, with its directory taken by its view.
pub ghost enum PlannedAction {
    Download(Seq<char>),
    Wipe,
    Upload(Seq<char>),
    Build,
}

impl View for Action {
    type V = PlannedAction;

    open spec fn view(&self) -> PlannedAction {
        match self {
            Action::Download(d) => PlannedAction::Download(d@),
            Action::Wipe => PlannedAction::Wipe,
            Action::Upload(d) => PlannedAction::Upload(d@),
            Action::Build => PlannedAction::Build,
        }
    }
}

/// The `k`-th directory given, or the current directory `.` where fewer
/// were given.
pub open spec fn directory_at(dirs: Seq<Seq<char>>, k: int) -> Seq<char> {
    if k < dirs.len() {
        dirs[k]
    } else {
        "."@
    }
}

/// The actions of a transfer run, in the order in which they happen:
/// download, wipe, upload, build, each where it was asked for. The download
/// takes the first directory; the upload takes the next one not taken.
pub open spec fn plan(
    download: bool,
    wipe: bool,
    upload: bool,
    build: bool,
    dirs: Seq<Seq<char>>,
) -> Seq<PlannedAction> {
    let d = if download {
        seq![PlannedAction::Download(directory_at(dirs, 0))]
    } else {
        Seq::empty()
    };
    let w = if wipe {
        seq![PlannedAction::Wipe]
    } else {
        Seq::empty()
    };
    let u = if upload {
        seq![PlannedAction::Upload(directory_at(dirs, if download { 1 } else { 0 }))]
    } else {
        Seq::empty()
    };
    let b = if build {
        seq![PlannedAction::Build]
    } else {
        Seq::empty()
    };
    d + w + u + b
}

/// Downloads and uploads take their directories in order: used together,
/// the download takes the first directory and the upload the second; an
/// upload alone takes the first. A directory not given is the current one.
pub proof fn law_transfer_directories(wipe: bool, build: bool, dirs: Seq<Seq<char>>)
    ensures
        plan(true, wipe, true, build, dirs)[0] == PlannedAction::Download(directory_at(dirs, 0)),
        plan(true, wipe, true, build, dirs)[if wipe { 2int } else { 1int }]
            == PlannedAction::Upload(directory_at(dirs, 1)),
        plan(false, wipe, true, build, dirs)[if wipe { 1int } else { 0int }]
            == PlannedAction::Upload(directory_at(dirs, 0)),
        dirs.len() == 0 ==> directory_at(dirs, 0) == "."@ && directory_at(dirs, 1) == "."@,
        dirs.len() == 1 ==> directory_at(dirs, 1) == "."@,
{
}

/// A run restores the defaults exactly when asked to; otherwise it
/// transfers exactly when at least one of download, wipe, upload and build
/// is asked for, each of them alone being enough, and only a run asking for
/// none of them prints the usage hint.
pub proof fn law_mode_follows_flags(opts: Options)
    ensures
        opts.restore_defaults <==> mode_of(opts) == Mode::RestoreDefaults,
        !opts.restore_defaults && opts.download ==> mode_of(opts) == Mode::Transfer,
        !opts.restore_defaults && opts.wipe ==> mode_of(opts) == Mode::Transfer,
        !opts.restore_defaults && opts.upload ==> mode_of(opts) == Mode::Transfer,
        !opts.restore_defaults && opts.build ==> mode_of(opts) == Mode::Transfer,
        mode_of(opts) == Mode::Usage <==> (!opts.restore_defaults && !opts.download && !opts.wipe
            && !opts.upload && !opts.build),
{
}

/// Whatever options are set, each action asked for is planned once, in
/// the order download, wipe, upload, build, and nothing else is planned. A
/// download goes to the first directory given, or to `.` when none is
/// given; an upload comes from the next directory not taken by a download,
/// or from `.` when there is no such directory.
pub proof fn law_plan_directories(
    download: bool,
    wipe: bool,
    upload: bool,
    build: bool,
    dirs: Seq<Seq<char>>,
)
    ensures
        ({
            let p = plan(download, wipe, upload, build, dirs);
            let first = if dirs.len() >= 1 { dirs[0] } else { "."@ };
            let second = if dirs.len() >= 2 { dirs[1] } else { "."@ };
            let nd: int = if download { 1 } else { 0 };
            let nw: int = if wipe { 1 } else { 0 };
            let nu: int = if upload { 1 } else { 0 };
            let nb: int = if build { 1 } else { 0 };
            &&& p.len() == nd + nw + nu + nb
            &&& download ==> p[0] == PlannedAction::Download(first)
            &&& wipe ==> p[nd] == PlannedAction::Wipe
            &&& upload ==> p[nd + nw] == PlannedAction::Upload(
                if download { second } else { first },
            )
            &&& build ==> p[nd + nw + nu] == PlannedAction::Build
        }),
{
}

/// The actions happen in a fixed order, whatever the order of the options:
/// download, then wipe, then upload, then build.
pub proof fn law_action_order(download: bool, wipe: bool, upload: bool, build: bool, dirs: Seq<Seq<char>>)
    ensures
        plan(true, true, true, true, dirs) == seq![
            PlannedAction::Download(directory_at(dirs, 0)),
            PlannedAction::Wipe,
            PlannedAction::Upload(directory_at(dirs, 1)),
            PlannedAction::Build,
        ],
        plan(download, wipe, upload, build, dirs).len() == (if download { 1int } else { 0int }) + (
        if wipe { 1int } else { 0int }) + (if upload { 1int } else { 0int }) + (if build {
            1int
        } else {
            0int
        }),
{
    assert(plan(true, true, true, true, dirs) =~= seq![
        PlannedAction::Download(directory_at(dirs, 0)),
        PlannedAction::Wipe,
        PlannedAction::Upload(directory_at(dirs, 1)),
        PlannedAction::Build,
    ]);
}

/// The views of a sequence of actions.
pub open spec fn planned(actions: Seq<Action>) -> Seq<PlannedAction> {
    actions.map_values(|a: Action| a@)
}

fn directory(dirs: &Vec<String>, k: usize) -> (d: String)
    ensures
        d@ == directory_at(dirs@.map_values(|s: String| s@), k as int),
{
    if k < dirs.len() {
        dirs[k].clone()
    } else {
        String::from_str(".")
    }
}

/// The actions of the transfer run that `opts` asks for.
pub fn plan_actions(opts: &Options) -> (actions: Vec<Action>)
    ensures
        planned(actions@) == plan(
            opts.download,
            opts.wipe,
            opts.upload,
            opts.build,
            opts.directories@.map_values(|s: String| s@),
        ),
{
    let ghost dirs = opts.directories@.map_values(|s: String| s@);
    let mut actions: Vec<Action> = Vec::new();
    let mut next_dir: usize = 0;
    let ghost mut expected: Seq<PlannedAction> = Seq::empty();
    if opts.download {
        actions.push(Action::Download(directory(&opts.directories, next_dir)));
        next_dir = 1;
        proof {
            expected = expected.push(PlannedAction::Download(directory_at(dirs, 0)));
        }
    }
    assert(planned(actions@) =~= expected);
    if opts.wipe {
        actions.push(Action::Wipe);
        proof {
            expected = expected.push(PlannedAction::Wipe);
        }
    }
    assert(planned(actions@) =~= expected);
    if opts.upload {
        actions.push(Action::Upload(directory(&opts.directories, next_dir)));
        proof {
            expected = expected.push(
                PlannedAction::Upload(directory_at(dirs, if opts.download { 1 } else { 0 })),
            );
        }
    }
    assert(planned(actions@) =~= expected);
    if opts.build {
        actions.push(Action::Build);
        proof {
            expected = expected.push(PlannedAction::Build);
        }
    }
    assert(planned(actions@) =~= expected);
    assert(expected =~= plan(opts.download, opts.wipe, opts.upload, opts.build, dirs));
    actions
}

/// Applies the options that change the remembered settings: a given host
/// becomes known (in front, where it is new), and a given timeout replaces
/// the time to wait for each host.
pub fn apply_overrides(conf: &mut AppConfig, host: Option<String>, timeout_ms: Option<u64>)
    ensures
        host is None ==> final(conf).hosts@ == old(conf).hosts@,
        host matches Some(h) ==> final(conf).hosts@ == with_host(old(conf).hosts@, h),
        timeout_ms is None ==> final(conf).host_timeout == old(conf).host_timeout,
        timeout_ms matches Some(ms) ==> final(conf).host_timeout@ == ms * 1_000_000,
        final(conf).build_timeout == old(conf).build_timeout,
{
    match host {
        Some(h) => conf.add_host(h),
        None => {},
    }
    match timeout_ms {
        Some(ms) => conf.set_host_timeout_ms(ms),
        None => {},
    }
}

/// The stages of a run that can fail, each with its own exit status.
#[derive(Clone, Copy, Debug, PartialEq, Eq, Structural)]
pub enum Stage {
    SaveConfig,
    LoadConfig,
    Connect,
    Download,
    Wipe,
    Upload,
    Build,
}

/// The exit status of a run that fails at `stage`.
pub open spec fn stage_exit_code(stage: Stage) -> i32 {
    match stage {
        Stage::SaveConfig => 1,
        Stage::LoadConfig => 2,
        Stage::Connect => 3,
        Stage::Download => 4,
        Stage::Wipe => 5,
        Stage::Upload => 6,
        Stage::Build => 7,
    }
}

/// The report of a failure at `stage` with error text `error`. The
/// report of a failed save names the error twice: once after "Failed" and
/// once after a blank line; every other report names it after a blank line.
pub open spec fn stage_failure(stage: Stage, error: Seq<char>) -> Seq<char> {
    match stage {
        Stage::SaveConfig => "Failed "@ + error + " to save configuration to file. \n\n"@ + error,
        Stage::LoadConfig => "Failed to read configuration from file. \n\n"@ + error,
        Stage::Connect => "Failed to establish a connection with the robot controller. \n\n"@
            + error,
        Stage::Download => "Failed to download source files from the robot controller. \n\n"@
            + error,
        Stage::Wipe => "Failed to wipe source files from the robot controller. \n\n"@ + error,
        Stage::Upload => "Failed to upload source files to the robot controller. \n\n"@ + error,
        Stage::Build => "Failed to build the source file on the robot controller. \n\n"@
            + error,
    }
}

impl Stage {
    /// The exit status of a run that fails at this stage.
    pub fn exit_code(&self) -> (c: i32)
        ensures
            c == stage_exit_code(*self),
    {
        match self {
            Stage::SaveConfig => 1,
            Stage::LoadConfig => 2,
            Stage::Connect => 3,
            Stage::Download => 4,
            Stage::Wipe => 5,
            Stage::Upload => 6,
            Stage::Build => 7,
        }
    }

    /// The report of a failure at this stage with error text `error`.
    pub fn failure_report(&self, error: &str) -> (r: String)
        ensures
            r@ == stage_failure(*self, error@),
    {
        let mut r = match self {
            Stage::SaveConfig => {
                let mut r = String::from_str("Failed ");
                r.append(error);
                r.append(" to save configuration to file. \n\n");
                r
            },
            Stage::LoadConfig => String::from_str("Failed to read configuration from file. \n\n"),
            Stage::Connect => String::from_str(
                "Failed to establish a connection with the robot controller. \n\n",
            ),
            Stage::Download => String::from_str(
                "Failed to download source files from the robot controller. \n\n",
            ),
            Stage::Wipe => String::from_str("Failed to wipe source files from the robot controller. \n\n"),
            Stage::Upload => String::from_str(
                "Failed to upload source files to the robot controller. \n\n",
            ),
            Stage::Build => String::from_str(
                "Failed to build the source file on the robot controller. \n\n",
            ),
        };
        r.append(error);
        r
    }
}

/// The hint printed by a run that asks for nothing.
pub fn usage_hint() -> (s: &'static str)
    ensures
        s@ == "Try running with -h for a usage summary or --help for a more complete manual."@,
{
    "Try running with -h for a usage summary or --help for a more complete manual."
}

} // verus!
