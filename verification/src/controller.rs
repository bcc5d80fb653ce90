//! The decisions that a session with the robot controller takes: which host
//! to try, which addresses to ask, which files to move, and when a build is
//! over. The requests themselves are sent by the caller.
use vstd::prelude::*;

use crate::address::{join_url, parse_url, set_url_query, query_fits, url_join, url_parse, url_set_query, Address};
use crate::text::{contains_seq, contains_str, drop_first_char, list_contains, views};
use crate::config::{law_promoted_host_comes_first, promoted, AppConfig};
use crate::time::TimeSpan;
use crate::util::{BuildStatus, RobotError};

verus! {

broadcast use vstd::string::group_string_axioms;

/// Why a step of a session failed.
#[derive(Debug)]
pub enum ControllerError {
    /// An address could not be parsed or resolved.
    Url(url::ParseError),
    /// The robot controller could not be used.
    Robot(RobotError),
}

/// What to do next while looking for the robot controller.
pub enum ConnectStep {
    /// Ask this address whether a robot controller answers there.
    Probe(Address),
    /// Give up with this error.
    Fail(ControllerError),
}

/// The step for the host at `index` of `hosts`, once every host before it
/// was found offline: probe its address; fail where it is no URL; and when
/// no host is left, fail with `RobotError::NotConnected`.
pub fn connect_step(hosts: &Vec<String>, index: usize) -> (s: ConnectStep)
    ensures
        index >= hosts@.len() ==> s matches ConnectStep::Fail(
            ControllerError::Robot(RobotError::NotConnected),
        ),
        index < hosts@.len() ==> match url_parse(hosts@[index as int]@) {
            Some(text) => s matches ConnectStep::Probe(a) && a@ == text,
            None => s matches ConnectStep::Fail(ControllerError::Url(_)),
        },
{
    if index >= hosts.len() {
        return ConnectStep::Fail(ControllerError::Robot(RobotError::NotConnected));
    }
    match parse_url(hosts[index].as_str()) {
        Ok(a) => ConnectStep::Probe(a),
        Err(e) => ConnectStep::Fail(ControllerError::Url(e)),
    }
}

/// Where a search for the robot controller among the known hosts stands:
/// the hosts before `position` were found offline.
pub struct HostSearch {
    next: usize,
}

impl HostSearch {
    /// The position of the host to try next.
    pub closed spec fn position(&self) -> nat {
        self.next as nat
    }

    /// A search that begins with the first host.
    pub fn start() -> (s: HostSearch)
        ensures
            s.position() == 0,
    {
        HostSearch { next: 0 }
    }

    /// What to do next: probe the host at the current position, or fail
    /// (see `connect_step`).
    pub fn step(&self, hosts: &Vec<String>) -> (s: ConnectStep)
        ensures
            self.position() >= hosts@.len() ==> s matches ConnectStep::Fail(
                ControllerError::Robot(RobotError::NotConnected),
            ),
            self.position() < hosts@.len() ==> match url_parse(hosts@[self.position() as int]@) {
                Some(text) => s matches ConnectStep::Probe(a) && a@ == text,
                None => s matches ConnectStep::Fail(ControllerError::Url(_)),
            },
    {
        connect_step(hosts, self.next)
    }

    /// Takes in whether the host just probed answered. If it did, the
    /// search is over and that host changes places with the first one, so
    /// that it is tried first next time; otherwise the search goes on with
    /// the next host and the settings stay as they are.
    pub fn answer(&mut self, conf: &mut AppConfig, online: bool) -> (connected: bool)
        requires
            old(self).position() < old(conf).hosts@.len(),
        ensures
            connected == online,
            online ==> final(conf).hosts@ == promoted(old(conf).hosts@, old(self).position() as int)
                && final(self).position() == old(self).position(),
            !online ==> final(conf).hosts@ == old(conf).hosts@ && final(self).position()
                == old(self).position() + 1,
            final(conf).host_timeout == old(conf).host_timeout,
            final(conf).build_timeout == old(conf).build_timeout,
    {
        if online {
            conf.promote_host(self.next);
            true
        } else {
            assert(conf.hosts@.len() == conf.hosts.len());
            self.next = self.next + 1;
            false
        }
    }
}

/// The position of the first host, from `from` on, that answers, where
/// `online` says of each address whether a robot controller answers there.
pub open spec fn first_online(
    hosts: Seq<String>,
    online: spec_fn(Seq<char>) -> bool,
    from: int,
) -> Option<int>
    decreases hosts.len() - from,
{
    if from < 0 || from >= hosts.len() {
        None
    } else if online(hosts[from]@) {
        Some(from)
    } else {
        first_online(hosts, online, from + 1)
    }
}

/// The hosts after a search in which exactly the addresses that `online`
/// holds answer: the first host that answers changes places with the first
/// host, and where none answers the list stays as it is.
pub open spec fn hosts_after_search(hosts: Seq<String>, online: spec_fn(Seq<char>) -> bool) -> Seq<
    String,
> {
    match first_online(hosts, online, 0) {
        Some(k) => promoted(hosts, k),
        None => hosts,
    }
}

/// `first_online` gives the first answering host at or after `from`.
pub proof fn lemma_first_online(hosts: Seq<String>, online: spec_fn(Seq<char>) -> bool, from: int)
    requires
        0 <= from,
    ensures
        first_online(hosts, online, from) matches Some(k) ==> from <= k < hosts.len() && online(
            hosts[k]@,
        ) && forall|j: int| from <= j < k ==> !online(#[trigger] hosts[j]@),
        first_online(hosts, online, from) is None ==> forall|j: int|
            from <= j < hosts.len() ==> !online(#[trigger] hosts[j]@),
    decreases hosts.len() - from,
{
    if from < hosts.len() && !online(hosts[from]@) {
        lemma_first_online(hosts, online, from + 1);
    }
}

/// A search whose probes find the hosts before `k` offline and the host at
/// `k` online ends where `hosts_after_search` says: `k` is the first host
/// that answers, and the hosts are promoted at `k`.
pub proof fn law_search_stops_at_first_answer(
    hosts: Seq<String>,
    online: spec_fn(Seq<char>) -> bool,
    k: int,
)
    requires
        0 <= k < hosts.len(),
        online(hosts[k]@),
        forall|j: int| 0 <= j < k ==> !online(#[trigger] hosts[j]@),
    ensures
        first_online(hosts, online, 0) == Some(k),
        hosts_after_search(hosts, online) == promoted(hosts, k),
{
    lemma_first_online(hosts, online, 0);
    let r = first_online(hosts, online, 0);
    if let Some(k2) = r {
        if k2 < k {
            assert(!online(hosts[k2]@));
        } else if k2 > k {
            assert(!online(hosts[k]@));
        }
    }
}

/// Whatever the hosts answer, a search loses, adds and repeats no host: the
/// list holds the same hosts as often as before and differs from it at most
/// at the front and at the host that answered; the timeouts are not touched
/// (see `HostSearch::answer`).
pub proof fn law_search_keeps_hosts(hosts: Seq<String>, online: spec_fn(Seq<char>) -> bool)
    ensures
        hosts_after_search(hosts, online).len() == hosts.len(),
        hosts_after_search(hosts, online).to_multiset() == hosts.to_multiset(),
        first_online(hosts, online, 0) is None ==> hosts_after_search(hosts, online) == hosts,
        first_online(hosts, online, 0) matches Some(k) ==> hosts_after_search(hosts, online)[0]
            == hosts[k] && forall|j: int|
            0 <= j < hosts.len() && j != 0 && j != k ==> #[trigger] hosts_after_search(
                hosts,
                online,
            )[j] == hosts[j],
{
    lemma_first_online(hosts, online, 0);
    if let Some(k) = first_online(hosts, online, 0) {
        law_promoted_host_comes_first(hosts, k);
    }
}

/// The host that answered is remembered first: while the same hosts
/// answer, a second search asks the first host only, finds it online, and
/// leaves the list as the first search left it.
pub proof fn law_second_search_keeps_hosts(hosts: Seq<String>, online: spec_fn(Seq<char>) -> bool)
    requires
        first_online(hosts, online, 0) is Some,
    ensures
        first_online(hosts_after_search(hosts, online), online, 0) == Some(0int),
        hosts_after_search(hosts_after_search(hosts, online), online) == hosts_after_search(
            hosts,
            online,
        ),
{
    lemma_first_online(hosts, online, 0);
    let k = first_online(hosts, online, 0)->0;
    law_promoted_host_comes_first(hosts, k);
    let after = hosts_after_search(hosts, online);
    assert(online(after[0]@));
    law_promoted_host_comes_first(after, 0);
}

/// The services of the OnBotJava interface.
#[derive(Clone, Copy, Debug, PartialEq, Eq, Structural)]
pub enum Route {
    FileTree,
    FileDownload,
    FileUpload,
    FileDelete,
    BuildStart,
    BuildStatus,
    BuildWait,
}

/// The path at which the robot controller offers `route`.
pub open spec fn route_path(route: Route) -> Seq<char> {
    match route {
        Route::FileTree => "/java/file/tree"@,
        Route::FileDownload => "/java/file/download"@,
        Route::FileUpload => "/java/file/upload"@,
        Route::FileDelete => "/java/file/delete"@,
        Route::BuildStart => "/java/build/start"@,
        Route::BuildStatus => "/java/build/status"@,
        Route::BuildWait => "/java/build/wait"@,
    }
}

/// The path at which the robot controller offers `route`.
pub fn route_path_str(route: Route) -> (s: &'static str)
    ensures
        s@ == route_path(route),
{
    match route {
        Route::FileTree => "/java/file/tree",
        Route::FileDownload => "/java/file/download",
        Route::FileUpload => "/java/file/upload",
        Route::FileDelete => "/java/file/delete",
        Route::BuildStart => "/java/build/start",
        Route::BuildStatus => "/java/build/status",
        Route::BuildWait => "/java/build/wait",
    }
}

/// The address of `route` on the robot controller at `host`.
pub fn endpoint(host: &Address, route: Route) -> (r: Result<Address, ControllerError>)
    ensures
        match url_join(host@, route_path(route)) {
            Some(text) => r matches Ok(a) && a@ == text,
            None => r matches Err(ControllerError::Url(_)),
        },
{
    match join_url(host, route_path_str(route)) {
        Ok(a) => Ok(a),
        Err(e) => Err(ControllerError::Url(e)),
    }
}

/// The query that asks for the remote file `file`.
pub open spec fn download_query(file: Seq<char>) -> Seq<char> {
    "f=/src"@ + file
}

/// The query that asks for the remote file `file`.
pub fn download_query_of(file: &str) -> (q: String)
    ensures
        q@ == download_query(file@),
{
    let mut q = String::from_str("f=/src");
    q.append(file);
    q
}

/// The address that downloads the remote file `file`, given the address
/// of the download service.
pub fn download_address(service: Address, file: &str) -> (r: Address)
    requires
        query_fits(service@, download_query(file@)),
    ensures
        r@ == url_set_query(service@, download_query(file@)),
{
    let q = download_query_of(file);
    set_url_query(service, q.as_str())
}

/// A remote file is a Java source file when its path holds `.java`.
pub open spec fn is_remote_java_file(file: Seq<char>) -> bool {
    contains_seq(file, ".java"@)
}

/// The Java source files of a remote listing, in order.
pub open spec fn remote_java_files(files: Seq<Seq<char>>) -> Seq<Seq<char>> {
    files.filter(|f: Seq<char>| is_remote_java_file(f))
}

proof fn lemma_java_files_all(files: Seq<Seq<char>>)
    requires
        forall|i: int| 0 <= i < files.len() ==> contains_seq(#[trigger] files[i], ".java"@),
    ensures
        remote_java_files(files) == files,
    decreases files.len(),
{
    if files.len() == 0 {
        reveal(Seq::filter);
    } else {
        let init = files.drop_last();
        lemma_java_files_all(init);
        assert(init.push(files.last()) =~= files);
        init.lemma_filter_push(files.last(), |f: Seq<char>| is_remote_java_file(f));
    }
}

proof fn lemma_java_files_none(files: Seq<Seq<char>>)
    requires
        forall|i: int| 0 <= i < files.len() ==> !contains_seq(#[trigger] files[i], ".java"@),
    ensures
        remote_java_files(files).len() == 0,
    decreases files.len(),
{
    if files.len() == 0 {
        reveal(Seq::filter);
    } else {
        let init = files.drop_last();
        lemma_java_files_none(init);
        assert(init.push(files.last()) =~= files);
        init.lemma_filter_push(files.last(), |f: Seq<char>| is_remote_java_file(f));
    }
}

/// A download fetches exactly the listed paths that hold `.java`: every
/// such entry is fetched, wherever it stands in the listing (the last
/// included), every fetched path is a listed one holding `.java`, no more
/// paths are fetched than are listed, a listing of Java files only is
/// fetched whole and in order, and a listing without one fetches nothing.
pub proof fn law_download_takes_every_java_file(files: Seq<Seq<char>>)
    ensures
        forall|i: int|
            0 <= i < files.len() && contains_seq(files[i], ".java"@) ==> #[trigger] remote_java_files(
                files,
            ).contains(files[i]),
        forall|j: int|
            0 <= j < remote_java_files(files).len() ==> contains_seq(
                #[trigger] remote_java_files(files)[j],
                ".java"@,
            ) && files.contains(remote_java_files(files)[j]),
        remote_java_files(files).len() <= files.len(),
        (forall|i: int| 0 <= i < files.len() ==> contains_seq(#[trigger] files[i], ".java"@))
            ==> remote_java_files(files) == files,
        (forall|i: int| 0 <= i < files.len() ==> !contains_seq(#[trigger] files[i], ".java"@))
            ==> remote_java_files(files).len() == 0,
{
    broadcast use vstd::seq_lib::group_filter_ensures;

    let pred = |f: Seq<char>| is_remote_java_file(f);
    assert forall|i: int|
        0 <= i < files.len() && contains_seq(files[i], ".java"@) implies #[trigger] remote_java_files(
        files,
    ).contains(files[i]) by {
        files.lemma_filter_contains(pred, i);
    }
    assert forall|j: int| 0 <= j < remote_java_files(files).len() implies contains_seq(
        #[trigger] remote_java_files(files)[j],
        ".java"@,
    ) && files.contains(remote_java_files(files)[j]) by {
        files.lemma_filter_pred(pred, j);
        files.lemma_filter_contains_rev(pred, remote_java_files(files)[j]);
    }
    files.lemma_filter_len(pred);
    if forall|i: int| 0 <= i < files.len() ==> contains_seq(#[trigger] files[i], ".java"@) {
        lemma_java_files_all(files);
    }
    if forall|i: int| 0 <= i < files.len() ==> !contains_seq(#[trigger] files[i], ".java"@) {
        lemma_java_files_none(files);
    }
}

/// Listing one more path at the end fetches what was fetched before and,
/// after it, that path exactly when it holds `.java`.
pub proof fn law_download_follows_listing(files: Seq<Seq<char>>, file: Seq<char>)
    ensures
        contains_seq(file, ".java"@) ==> remote_java_files(files.push(file)) == remote_java_files(
            files,
        ).push(file),
        !contains_seq(file, ".java"@) ==> remote_java_files(files.push(file)) == remote_java_files(
            files,
        ),
        remote_java_files(Seq::<Seq<char>>::empty()).len() == 0,
{
    files.lemma_filter_push(file, |f: Seq<char>| is_remote_java_file(f));
    lemma_java_files_none(Seq::<Seq<char>>::empty());
}

/// The remote files that a download fetches: those whose path holds `.java`.
pub fn java_files(files: &Vec<String>) -> (r: Vec<String>)
    ensures
        views(r@) == remote_java_files(views(files@)),
{
    let mut r: Vec<String> = Vec::new();
    let mut i: usize = 0;
    while i < files.len()
        invariant
            i <= files.len(),
            views(r@) == remote_java_files(views(files@).take(i as int)),
        decreases files.len() - i,
    {
        let f = &files[i];
        let ghost before = views(files@).take(i as int);
        proof {
            assert(views(files@).take(i + 1) =~= before.push(f@));
            before.lemma_filter_push(f@, |g: Seq<char>| is_remote_java_file(g));
        }
        if contains_str(f.as_str(), ".java") {
            let ghost old_r = r@;
            r.push(f.clone());
            proof {
                old_r.lemma_push_map_commute(|x: String| x@, files@[i as int]);
            }
        }
        i = i + 1;
    }
    proof {
        assert(views(files@).take(files.len() as int) =~= views(files@));
    }
    r
}

/// `path` starts with a character of one byte, so that cutting off its
/// first byte leaves a string.
pub open spec fn starts_with_ascii(path: Seq<char>) -> bool {
    path.len() > 0 && (path[0] as u32) < 0x80
}

/// A remote path without its leading `/`: where a downloaded file goes,
/// relative to the destination directory.
pub fn relative_path(file: &str) -> (r: String)
    requires
        starts_with_ascii(file@),
    ensures
        r@ == file@.drop_first(),
{
    drop_first_char(file)
}

/// A local file is uploaded when its name has the extension `java`: the
/// name ends in `.java` with something before it (`Path::extension`
/// gives no extension for a name that starts with its only dot).
pub open spec fn is_java_source_name(name: Seq<char>) -> bool {
    name.len() > 5 && name.skip(name.len() - 5) == ".java"@
}

/// Whether the local file called `name` is uploaded.
pub fn is_java_source(name: &str) -> (b: bool)
    ensures
        b == is_java_source_name(name@),
{
    let n: usize = name.unicode_len();
    if n <= 5 {
        return false;
    }
    let tail = name.substring_char(n - 5, n);
    let suffix = String::from_str(".java");
    let tail_s = String::from_str(tail);
    proof {
        assert(tail@ =~= name@.skip(n - 5));
    }
    tail_s == suffix
}

/// Whether a remote file must be deleted before a local file that will be
/// stored at `path` is uploaded: so it is where the remote listing holds
/// `path` already.
pub fn must_replace(remote: &Vec<String>, path: &String) -> (b: bool)
    ensures
        b == exists|i: int| 0 <= i < remote@.len() && #[trigger] remote@[i]@ == path@,
{
    list_contains(remote, path)
}

/// The form value that deletes the remote file (or directory) `file`.
pub open spec fn delete_value(file: Seq<char>) -> Seq<char> {
    "[\"src/"@ + file.drop_first() + "\"]"@
}

/// The form field that deletes the remote file (or directory) `file`: its
/// name and its value.
pub fn delete_form(file: &str) -> (r: (String, String))
    requires
        starts_with_ascii(file@),
    ensures
        r.0@ == "delete"@,
        r.1@ == delete_value(file@),
{
    let mut value = String::from_str("[\"src/");
    value.append(drop_first_char(file).as_str());
    value.append("\"]");
    (String::from_str("delete"), value)
}

/// The remote path whose deletion wipes every file.
pub fn wipe_target() -> (s: &'static str)
    ensures
        s@ == "/"@,
{
    "/"
}

/// How long to wait between two questions about a running build, in
/// milliseconds.
pub const BUILD_POLL_INTERVAL_MS: u64 = 500;

/// Whether a build that has run for `elapsed` may still be waited for:
/// yes while `elapsed` is shorter than `timeout`; otherwise the build has
/// timed out.
pub fn build_deadline(elapsed: &TimeSpan, timeout: &TimeSpan) -> (r: Result<(), RobotError>)
    ensures
        r is Ok <==> elapsed@ < timeout@,
        r matches Err(e) ==> e == RobotError::BuildTimeout(*timeout),
{
    if elapsed.shorter_than(timeout) {
        Ok(())
    } else {
        Err(RobotError::BuildTimeout(*timeout))
    }
}

/// Where a build stands, by what the robot controller reports of it.
#[derive(Clone, Copy, Debug, PartialEq, Eq, Structural)]
pub enum BuildOutcome {
    /// Still running: ask again later.
    Pending,
    /// Finished without errors.
    Succeeded,
    /// Finished with errors, which the build-wait service reports.
    Failed,
}

/// Where a build stands, by its reported `status`.
pub fn build_outcome(status: &BuildStatus) -> (o: BuildOutcome)
    ensures
        !status.completed ==> o == BuildOutcome::Pending,
        status.completed && status.successful ==> o == BuildOutcome::Succeeded,
        status.completed && !status.successful ==> o == BuildOutcome::Failed,
{
    if !status.completed {
        BuildOutcome::Pending
    } else if status.successful {
        BuildOutcome::Succeeded
    } else {
        BuildOutcome::Failed
    }
}

} // verus!
