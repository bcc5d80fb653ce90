//! The plain-text side of the OnBotJava protocol: the file listing read as
//! raw text, uploads as multipart bodies built by hand, and a build's state
//! read from the text of its status.
use vstd::prelude::*;

use crate::controller::{is_remote_java_file, java_files, remote_java_files, BuildOutcome};
use crate::text::{contains_seq, contains_str, split_on, split_on_char, views};
use vstd::utf8::encode_utf8;

verus! {

broadcast use vstd::string::group_string_axioms;

/// The addresses at which a robot controller listens: REV Control Hub
/// first, then an Android phone.
pub fn known_hosts() -> (hosts: Vec<&'static str>)
    ensures
        hosts@.len() == 2,
        hosts@[0]@ == "http://192.168.43.1:8080"@,
        hosts@[1]@ == "http://192.168.49.1:8080"@,
{
    let mut hosts: Vec<&'static str> = Vec::new();
    hosts.push("http://192.168.43.1:8080");
    hosts.push("http://192.168.49.1:8080");
    hosts
}

/// How long to wait for a host to answer, in seconds.
pub const CONNECT_TIMEOUT_SECS: u64 = 3;

/// What to do next while looking for a robot controller among the known
/// hosts.
#[derive(Clone, Copy, Debug, PartialEq, Eq, Structural)]
pub enum ProbeStep {
    /// Ask the host at this position, giving it `CONNECT_TIMEOUT_SECS`.
    Probe(usize),
    /// The host at this position answered in time: use it.
    Use(usize),
    /// No host answered in time: report it and end the run.
    GiveUp,
}

/// The first step of a search among `n_hosts` hosts.
pub fn first_probe(n_hosts: usize) -> (s: ProbeStep)
    ensures
        n_hosts == 0 ==> s == ProbeStep::GiveUp,
        n_hosts > 0 ==> s == ProbeStep::Probe(0),
{
    if n_hosts == 0 {
        ProbeStep::GiveUp
    } else {
        ProbeStep::Probe(0)
    }
}

/// The step after the host at `index` of `n_hosts` was probed: use it if
/// it answered before the timeout, else probe the next host, or give up
/// after the last.
pub fn next_probe(index: usize, n_hosts: usize, timed_out: bool) -> (s: ProbeStep)
    requires
        index < n_hosts,
    ensures
        !timed_out ==> s == ProbeStep::Use(index),
        timed_out && index + 1 < n_hosts ==> s == ProbeStep::Probe((index + 1) as usize),
        timed_out && index + 1 >= n_hosts ==> s == ProbeStep::GiveUp,
{
    if !timed_out {
        ProbeStep::Use(index)
    } else if index + 1 < n_hosts {
        ProbeStep::Probe(index + 1)
    } else {
        ProbeStep::GiveUp
    }
}

/// What a run prints when no host answered in time, before it ends with
/// exit status 0.
pub fn unreachable_message() -> (s: &'static str)
    ensures
        s@ == "Failed to reach the robot controller. Please check that your robot controller\n\
         is in \"Program & Manage\" mode and that your computer is connected to the\n\
         robot controller via wifi-direct."@,
{
    "Failed to reach the robot controller. Please check that your robot controller\n\
         is in \"Program & Manage\" mode and that your computer is connected to the\n\
         robot controller via wifi-direct."
}

#[verifier::external_type_specification]
#[verifier::external_body]
pub struct ExHyperUri(hyper::Uri);

#[verifier::external_type_specification]
#[verifier::external_body]
pub struct ExHyperUriError(hyper::error::UriError);

/// The text of the URI that hyper's `Uri::from_str` makes of `input`, or
/// `None` where it refuses `input`.
pub uninterp spec fn hyper_uri_parse(input: Seq<char>) -> Option<Seq<char>>;

/// A request URI of hyper's client together with its text. Only this
/// module builds one, from the URI's own text, so the view of a
/// `RequestUri` is the text of the URI it holds.
pub struct RequestUri {
    uri: hyper::Uri,
    text: String,
}

impl View for RequestUri {
    type V = Seq<char>;

    closed spec fn view(&self) -> Seq<char> {
        self.text@
    }
}

/// Calls `hyper::Uri::from_str` (as `str::parse`) on `input`. Claimed: the
/// call succeeds exactly where `hyper_uri_parse` is `Some`, and the URI it
/// gives back has that value as its text.
#[verifier::external_body]
fn parse_request_uri(input: &str) -> (r: Result<RequestUri, hyper::error::UriError>)
    ensures
        r is Ok <==> hyper_uri_parse(input@) is Some,
        r matches Ok(u) ==> Some(u@) == hyper_uri_parse(input@),
{
    match input.parse::<hyper::Uri>() {
        Ok(uri) => {
            let text = AsRef::<str>::as_ref(&uri).to_string();
            Ok(RequestUri { uri, text })
        },
        Err(e) => Err(e),
    }
}

impl RequestUri {
    /// The parsed URI that this request URI holds; `self@` is its text.
    pub closed spec fn held_uri(&self) -> hyper::Uri {
        self.uri
    }

    /// The URI itself.
    pub fn uri(&self) -> (u: &hyper::Uri)
        ensures
            *u == self.held_uri(),
    {
        &self.uri
    }

    /// The text of the URI.
    pub fn as_str(&self) -> (s: &str)
        ensures
            s@ == self@,
    {
        self.text.as_str()
    }
}

/// The request URI of the service at `path` on `host`: `host` followed by
/// `path`, parsed by hyper.
pub fn service_uri(host: &str, path: &str) -> (r: Result<RequestUri, hyper::error::UriError>)
    ensures
        r is Ok <==> hyper_uri_parse(host@ + path@) is Some,
        r matches Ok(u) ==> Some(u@) == hyper_uri_parse(host@ + path@),
{
    let text = address_of(host, path);
    parse_request_uri(text.as_str())
}

/// The request URI that downloads the remote file `file` from `host`.
pub fn file_download_uri(host: &str, file: &str) -> (r: Result<RequestUri, hyper::error::UriError>)
    ensures
        r is Ok <==> hyper_uri_parse(host@ + "/java/file/download?f=/src"@ + file@) is Some,
        r matches Ok(u) ==> Some(u@) == hyper_uri_parse(
            host@ + "/java/file/download?f=/src"@ + file@,
        ),
{
    let text = download_address_of(host, file);
    parse_request_uri(text.as_str())
}

/// The Java source files named in a raw listing: the pieces between double
/// quotes that hold `.java`, in order.
pub fn listed_java_files(tree: &str) -> (files: Vec<String>)
    ensures
        views(files@) == remote_java_files(split_on(tree@, '"')),
{
    java_files(&split_on_char(tree, '"'))
}

/// `host` followed by `path`.
pub fn address_of(host: &str, path: &str) -> (r: String)
    ensures
        r@ == host@ + path@,
{
    let mut r = String::from_str(host);
    r.append(path);
    r
}

/// The address that downloads the remote file `file` from `host`.
pub fn download_address_of(host: &str, file: &str) -> (r: String)
    ensures
        r@ == host@ + "/java/file/download?f=/src"@ + file@,
{
    let mut r = String::from_str(host);
    r.append("/java/file/download?f=/src");
    r.append(file);
    r
}

/// A local file is pushed when its name holds `.java`.
pub fn is_pushed_file_name(name: &str) -> (b: bool)
    ensures
        b == contains_seq(name@, ".java"@),
{
    contains_str(name, ".java")
}

/// A multipart boundary: 32 lowercase hexadecimal digits.
pub open spec fn is_boundary(b: Seq<char>) -> bool {
    &&& b.len() == 32
    &&& forall|i: int|
        0 <= i < 32 ==> ('0' <= #[trigger] b[i] <= '9' || 'a' <= b[i] <= 'f')
}

/// Calls `uuid::Uuid::new_v4` and writes the UUID with its `simple`
/// formatter. Claimed: the text is 32 lowercase hexadecimal digits; which
/// digits they are is left open, as they come from the operating system's
/// random number generator (the call panics where that generator fails).
#[verifier::external_body]
fn random_boundary() -> (b: String)
    ensures
        is_boundary(b@),
{
    uuid::Uuid::new_v4().simple().to_string()
}

/// A multipart request that uploads one file.
pub struct UploadForm {
    /// The value of the `Content-Type` header.
    pub content_type: String,
    /// The body of the request.
    pub body: String,
    /// The length of the body in bytes, the value of `Content-Length`.
    pub content_length: usize,
}

/// The body of the request that uploads `data` as the file `name`, with
/// parts delimited by `boundary`.
pub open spec fn upload_body(boundary: Seq<char>, name: Seq<char>, data: Seq<char>) -> Seq<char> {
    "--"@ + boundary
        + "\nContent-Disposition: form-data; name=\"file\"; filename=\""@ + name
        + "\"\nContent-Type: text/x-java\n\n"@ + data + "\n\n--"@ + boundary + "--"@
}

/// The body carries the file's whole text unchanged: it is the part header
/// naming the file, then every character of `data` in order, then the
/// closing delimiter, whatever the length of `data`.
pub proof fn law_upload_body_carries_data(boundary: Seq<char>, name: Seq<char>, data: Seq<char>)
    ensures
        ({
            let header = "--"@ + boundary
                + "\nContent-Disposition: form-data; name=\"file\"; filename=\""@ + name
                + "\"\nContent-Type: text/x-java\n\n"@;
            let trailer = "\n\n--"@ + boundary + "--"@;
            let body = upload_body(boundary, name, data);
            &&& body.len() == (header.len() + data.len()) as int + trailer.len()
            &&& body.subrange(0, header.len() as int) == header
            &&& body.subrange(header.len() as int, (header.len() + data.len()) as int) == data
            &&& body.subrange((header.len() + data.len()) as int, body.len() as int) == trailer
        }),
{
    let header = "--"@ + boundary + "\nContent-Disposition: form-data; name=\"file\"; filename=\""@
        + name + "\"\nContent-Type: text/x-java\n\n"@;
    let trailer = "\n\n--"@ + boundary + "--"@;
    let body = upload_body(boundary, name, data);
    assert(body =~= header + data + trailer);
    assert(body.subrange(0, header.len() as int) =~= header);
    assert(body.subrange(header.len() as int, (header.len() + data.len()) as int) =~= data);
    assert(body.subrange((header.len() + data.len()) as int, body.len() as int) =~= trailer);
}

/// The request that uploads `data` as the file `name`, delimited by `boundary`.
pub open spec fn is_upload_form(
    form: UploadForm,
    boundary: Seq<char>,
    name: Seq<char>,
    data: Seq<char>,
) -> bool {
    &&& form.content_type@ == "multipart/form-data; boundary="@ + boundary
    &&& form.body@ == upload_body(boundary, name, data)
    &&& form.content_length == encode_utf8(form.body@).len() as usize
}

/// The request that uploads `data` as the file `name`, with parts
/// delimited by `boundary`.
pub fn upload_form(boundary: &str, name: &str, data: &str) -> (form: UploadForm)
    ensures
        is_upload_form(form, boundary@, name@, data@),
{
    let mut body = String::from_str("--");
    body.append(boundary);
    body.append("\nContent-Disposition: form-data; name=\"file\"; filename=\"");
    body.append(name);
    body.append("\"\nContent-Type: text/x-java\n\n");
    body.append(data);
    body.append("\n\n--");
    body.append(boundary);
    body.append("--");
    let mut content_type = String::from_str("multipart/form-data; boundary=");
    content_type.append(boundary);
    assert(body@ =~= upload_body(boundary@, name@, data@));
    let content_length: usize = body.as_str().len();
    assert(content_length == encode_utf8(body@).len() as usize);
    UploadForm { content_type, body, content_length }
}

/// The request that uploads `data` as the file `name`, delimited by a
/// fresh random boundary.
pub fn new_upload_form(name: &str, data: &str) -> (form: UploadForm)
    ensures
        exists|b: Seq<char>| is_boundary(b) && is_upload_form(form, b, name@, data@),
{
    let boundary = random_boundary();
    upload_form(boundary.as_str(), name, data)
}

/// Where a build stands, read from the text of its status: it is over
/// once the text holds `"completed": true`, and it succeeded when the text
/// also holds `"successful": true`.
pub fn build_state(status: &str) -> (o: BuildOutcome)
    ensures
        !contains_seq(status@, "\"completed\": true"@) ==> o == BuildOutcome::Pending,
        contains_seq(status@, "\"completed\": true"@) && contains_seq(
            status@,
            "\"successful\": true"@,
        ) ==> o == BuildOutcome::Succeeded,
        contains_seq(status@, "\"completed\": true"@) && !contains_seq(
            status@,
            "\"successful\": true"@,
        ) ==> o == BuildOutcome::Failed,
{
    if !contains_str(status, "\"completed\": true") {
        BuildOutcome::Pending
    } else if contains_str(status, "\"successful\": true") {
        BuildOutcome::Succeeded
    } else {
        BuildOutcome::Failed
    }
}

/// The form body that deletes every remote source file.
pub fn wipe_body() -> (s: &'static str)
    ensures
        s@ == "delete=[\"src\"]"@,
{
    "delete=[\"src\"]"
}

} // verus!
