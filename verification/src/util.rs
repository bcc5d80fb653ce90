//! Remote listings, build status, errors, and the mapping from a Java source
//! file to the path at which OnBotJava stores it.
use vstd::prelude::*;

use crate::text::{
    chars_of, decimal, decimal_string, is_white_space, is_white_space_char, join, join_with,
    keep_nonempty, nonempty, occurs_at, occurs_at_exec, split_on, split_on_char, views,
};
use crate::time::TimeSpan;

verus! {

broadcast use vstd::string::group_string_axioms;

/// The listing of remote source files that the robot controller reports.
pub struct Files {
    pub src: Vec<String>,
}

/// The state of a build on the robot controller.
#[derive(Clone, Copy, Debug, PartialEq, Eq, Structural)]
pub struct BuildStatus {
    pub completed: bool,
    pub successful: bool,
}

/// What can go wrong while talking to the robot controller.
#[derive(Debug)]
pub enum RobotError {
    /// The build did not complete within the given time.
    BuildTimeout(TimeSpan),
    /// The file at the given path declares no Java package.
    NoJavaPackage(String),
    /// None of the known hosts answered.
    NotConnected,
}

/// The text that describes `e` to the user.
pub open spec fn robot_error_message(e: RobotError) -> Seq<char> {
    match e {
        RobotError::NotConnected => "No known hosts were online.\n\n
                Please check that your robot controller is in \"Program & Manage\" mode and\n\
                that your computer is connected to the robot controller via wifi-direct.\n\
                Alternatively, you can try manually specifying a host address with the --host\n\
                option or extending the timeout period with the --host-timeout-ms option."@,
        RobotError::NoJavaPackage(path) => "Could not resolve the Java package for "@ + path@
            + "\n\n\
                 Does the file contain a correctly formatted `package ...;` line? A package\n\
                 declaration is required by OnBotJava to assign paths to uploaded files."@,
        RobotError::BuildTimeout(duration) => "The build has taken more than "@ + decimal(
            duration.as_secs_spec(),
        ) + " seconds to complete and appears unresponsive.\n\n\
                 Please restart the robot controller or, if this problem persists, increase the\n\
                 build timeout using the --build-timeout-sec option."@,
    }
}

impl RobotError {
    /// The text that describes this error to the user.
    pub fn message(&self) -> (m: String)
        ensures
            m@ == robot_error_message(*self),
    {
        match self {
            RobotError::NotConnected => String::from_str(
                "No known hosts were online.\n\n
                Please check that your robot controller is in \"Program & Manage\" mode and\n\
                that your computer is connected to the robot controller via wifi-direct.\n\
                Alternatively, you can try manually specifying a host address with the --host\n\
                option or extending the timeout period with the --host-timeout-ms option.",
            ),
            RobotError::NoJavaPackage(path) => {
                let mut m = String::from_str("Could not resolve the Java package for ");
                m.append(path.as_str());
                m.append(
                    "\n\n\
                 Does the file contain a correctly formatted `package ...;` line? A package\n\
                 declaration is required by OnBotJava to assign paths to uploaded files.",
                );
                m
            },
            RobotError::BuildTimeout(duration) => {
                let mut m = String::from_str("The build has taken more than ");
                m.append(decimal_string(duration.as_secs()).as_str());
                m.append(
                    " seconds to complete and appears unresponsive.\n\n\
                 Please restart the robot controller or, if this problem persists, increase the\n\
                 build timeout using the --build-timeout-sec option.",
                );
                m
            },
        }
    }
}

/// The text that introduces a package declaration.
pub open spec fn package_keyword() -> Seq<char> {
    seq!['p', 'a', 'c', 'k', 'a', 'g', 'e', ' ']
}

/// `e` can end a package declaration that starts at `p` in `line`: at `e`
/// stands a `;`, and between the keyword and `e` stand one or more
/// characters, none of them white space.
pub open spec fn package_end(line: Seq<char>, p: int, e: int) -> bool {
    &&& p + 8 < e < line.len()
    &&& line[e] == ';'
    &&& forall|k: int| p + 8 <= k < e ==> !is_white_space(#[trigger] line[k])
}

/// A package declaration (`package NAME;` with NAME free of white space)
/// starts at `p` in `line`.
pub open spec fn package_match(line: Seq<char>, p: int) -> bool {
    &&& occurs_at(line, package_keyword(), p)
    &&& exists|e: int| #[trigger] package_end(line, p, e)
}

/// The package named by the leftmost declaration in `line`, taking the
/// longest name that the declaration allows (the first capture of the
/// pattern `package ([\S]+);`).
#[verifier::opaque]
pub open spec fn package_declaration(line: Seq<char>) -> Option<Seq<char>> {
    if exists|p: int| #[trigger] package_match(line, p) {
        let p = choose|p: int|
            #[trigger] package_match(line, p) && forall|q: int| q < p ==> !#[trigger] package_match(line, q);
        let e = choose|e: int|
            #[trigger] package_end(line, p, e) && forall|f: int| f > e ==> !#[trigger] package_end(line, p, f);
        Some(line.subrange(p + 8, e))
    } else {
        None
    }
}

/// The package declared by the first line of `lines` that declares one.
#[verifier::opaque]
pub open spec fn first_package(lines: Seq<Seq<char>>) -> Option<Seq<char>>
    decreases lines.len(),
{
    if lines.len() == 0 {
        None
    } else {
        match package_declaration(lines[0]) {
            Some(pkg) => Some(pkg),
            None => first_package(lines.drop_first()),
        }
    }
}

/// The components of a package name: its runs of characters other than `.`.
pub open spec fn package_components(pkg: Seq<char>) -> Seq<Seq<char>> {
    nonempty(split_on(pkg, '.'))
}

/// Where OnBotJava keeps the file `file_name` of package `pkg`:
/// `/` + the components joined by `/` + `/` + the file name.
pub open spec fn package_path(pkg: Seq<char>, file_name: Seq<char>) -> Seq<char> {
    seq!['/'] + join(package_components(pkg), seq!['/']) + seq!['/'] + file_name
}

/// The last position that can end a package declaration that starts at `p`.
fn package_end_from(chars: &Vec<char>, p: usize) -> (r: Option<usize>)
    requires
        occurs_at(chars@, package_keyword(), p as int),
    ensures
        r is None ==> forall|e: int| !#[trigger] package_end(chars@, p as int, e),
        r matches Some(e) ==> package_end(chars@, p as int, e as int) && forall|f: int|
            f > e ==> !#[trigger] package_end(chars@, p as int, f),
{
    assert(package_keyword().len() == 8);
    assert(chars@.len() == chars.len());
    let mut k: usize = p + 8;
    let mut best: Option<usize> = None;
    while k < chars.len() && !is_white_space_char(chars[k])
        invariant
            p + 8 <= k <= chars.len(),
            forall|j: int| p + 8 <= j < k ==> !is_white_space(#[trigger] chars@[j]),
            best matches Some(e) ==> p + 8 < e < k && chars@[e as int] == ';',
            forall|j: int|
                p + 8 < j < k && #[trigger] chars@[j] == ';' ==> (best matches Some(e) && j <= e),
        decreases chars.len() - k,
    {
        if chars[k] == ';' && k > p + 8 {
            best = Some(k);
        }
        k = k + 1;
    }
    assert forall|f: int| #[trigger] package_end(chars@, p as int, f) implies (best matches Some(e)
        && f <= e) by {
        if f >= k {
            assert(!is_white_space(chars@[k as int]));
        }
        assert(chars@[f] == ';');
    }
    best
}

proof fn lemma_declaration_found(l: Seq<char>, p: int, e: int)
    requires
        package_match(l, p),
        forall|q: int| q < p ==> !#[trigger] package_match(l, q),
        package_end(l, p, e),
        forall|f: int| f > e ==> !#[trigger] package_end(l, p, f),
    ensures
        package_declaration(l) == Some(l.subrange(p + 8, e)),
{
    reveal(package_declaration);
    let p2 = choose|p2: int|
        #[trigger] package_match(l, p2) && forall|q: int| q < p2 ==> !#[trigger] package_match(l, q);
    assert(p2 == p);
    let e2 = choose|e2: int|
        #[trigger] package_end(l, p, e2) && forall|f: int| f > e2 ==> !#[trigger] package_end(l, p, f);
    assert(e2 == e);
}

proof fn lemma_declaration_absent(l: Seq<char>)
    requires
        forall|q: int| !#[trigger] package_match(l, q),
    ensures
        package_declaration(l) is None,
{
    reveal(package_declaration);
}

/// The package that `line` declares, if it declares one: the first capture
/// of the pattern `package ([\S]+);` in `line`.
pub fn package_declaration_of(line: &str) -> (r: Option<String>)
    ensures
        r is None ==> package_declaration(line@) is None,
        r matches Some(pkg) ==> package_declaration(line@) == Some(pkg@),
{
    let chars = chars_of(line);
    let keyword: Vec<char> = vec!['p', 'a', 'c', 'k', 'a', 'g', 'e', ' '];
    assert(keyword@ =~= package_keyword());
    let n: usize = chars.len();
    let mut p: usize = 0;
    while p < n
        invariant
            chars@ == line@,
            n == chars.len(),
            keyword@ == package_keyword(),
            forall|q: int| 0 <= q < p ==> !#[trigger] package_match(line@, q),
        decreases n - p,
    {
        if occurs_at_exec(&chars, &keyword, p) {
            match package_end_from(&chars, p) {
                Some(e) => {
                    let pkg = String::from_str(line.substring_char(p + 8, e));
                    proof {
                        assert forall|q: int| q < p implies !#[trigger] package_match(line@, q) by {
                            if q < 0 {
                                assert(!occurs_at(line@, package_keyword(), q));
                            }
                        }
                        lemma_declaration_found(line@, p as int, e as int);
                    }
                    return Some(pkg);
                },
                None => {},
            }
        }
        p = p + 1;
    }
    proof {
        assert forall|q: int| !#[trigger] package_match(line@, q) by {
            if q >= n || q < 0 {
                assert(!occurs_at(line@, package_keyword(), q));
            }
        }
        lemma_declaration_absent(line@);
    }
    None
}

proof fn lemma_first_package_step(lines: Seq<Seq<char>>, i: int)
    requires
        0 <= i < lines.len(),
    ensures
        first_package(lines.skip(i)) == match package_declaration(lines[i]) {
            Some(pkg) => Some(pkg),
            None => first_package(lines.skip(i + 1)),
        },
{
    reveal(first_package);
    let rest = lines.skip(i);
    assert(rest[0] == lines[i]);
    assert(rest.drop_first() =~= lines.skip(i + 1));
}

/// Where OnBotJava keeps the Java source file whose text is `lines`: the
/// first package declaration among the lines decides the directory, and the
/// file keeps its name `file_name`. Without a package declaration the error
/// names the file by `file_path`.
pub fn java_package_to_path(lines: &Vec<String>, file_name: &str, file_path: &str) -> (r: Result<
    String,
    RobotError,
>)
    ensures
        match first_package(views(lines@)) {
            Some(pkg) => r matches Ok(path) && path@ == package_path(pkg, file_name@),
            None => r matches Err(RobotError::NoJavaPackage(p)) && p@ == file_path@,
        },
{
    let mut i: usize = 0;
    proof {
        assert(views(lines@).skip(0) =~= views(lines@));
    }
    while i < lines.len()
        invariant
            i <= lines.len(),
            first_package(views(lines@)) == first_package(views(lines@).skip(i as int)),
        decreases lines.len() - i,
    {
        proof {
            lemma_first_package_step(views(lines@), i as int);
            assert(views(lines@)[i as int] == lines@[i as int]@);
        }
        let decl = package_declaration_of(lines[i].as_str());
        match decl {
            Some(pkg) => {
                let pieces = split_on_char(pkg.as_str(), '.');
                let components = keep_nonempty(&pieces);
                let slash = "/";
                proof {
                    reveal_strlit("/");
                    assert(slash@ =~= seq!['/']);
                }
                let joined = join_with(&components, slash);
                assert(joined@ == join(package_components(pkg@), seq!['/']));
                let mut path = String::from_str(slash);
                path.append(joined.as_str());
                path.append(slash);
                path.append(file_name);
                proof {
                    assert(path@ =~= package_path(pkg@, file_name@));
                }
                return Ok(path);
            },
            None => {},
        }
        i = i + 1;
    }
    assert(views(lines@).skip(i as int) =~= Seq::<Seq<char>>::empty());
    reveal(first_package);
    Err(RobotError::NoJavaPackage(String::from_str(file_path)))
}

/// A package name made of non-empty components: it is not empty, and it
/// neither starts nor ends with a dot nor holds two dots in a row.
pub open spec fn is_dotted_name(pkg: Seq<char>) -> bool {
    &&& pkg.len() > 0
    &&& pkg[0] != '.'
    &&& pkg.last() != '.'
    &&& forall|i: int| 0 <= i < pkg.len() - 1 ==> !(#[trigger] pkg[i] == '.' && pkg[i + 1] == '.')
}

proof fn lemma_split_pieces(s: Seq<char>, sep: char)
    requires
        s.len() > 0 ==> s[0] != sep,
        forall|i: int| 0 <= i < s.len() - 1 ==> !(#[trigger] s[i] == sep && s[i + 1] == sep),
    ensures
        forall|k: int| 0 <= k < split_on(s, sep).len() - 1 ==> (#[trigger] split_on(s, sep)[k]).len() > 0,
        split_on(s, sep).last().len() == 0 <==> (s.len() == 0 || s.last() == sep),
    decreases s.len(),
{
    crate::text::lemma_split_nonempty(s, sep);
    if s.len() > 0 {
        let init = s.drop_last();
        assert forall|i: int| 0 <= i < init.len() - 1 implies !(#[trigger] init[i] == sep && init[i + 1] == sep) by {
            assert(s[i] == init[i] && s[i + 1] == init[i + 1]);
        }
        lemma_split_pieces(init, sep);
        crate::text::lemma_split_nonempty(init, sep);
        let pieces = split_on(init, sep);
        if s.last() == sep {
            if init.len() == 0 {
                assert(s[0] == s.last());
            } else {
                assert(s[s.len() - 2] == init.last());
            }
            assert forall|k: int| 0 <= k < split_on(s, sep).len() - 1 implies (#[trigger] split_on(s, sep)[k]).len() > 0 by {
                assert(split_on(s, sep)[k] == pieces[k]);
            }
        } else {
            assert forall|k: int| 0 <= k < split_on(s, sep).len() - 1 implies (#[trigger] split_on(s, sep)[k]).len() > 0 by {
                assert(split_on(s, sep)[k] == pieces[k]);
            }
        }
    }
}

proof fn lemma_nonempty_all(parts: Seq<Seq<char>>)
    requires
        forall|k: int| 0 <= k < parts.len() ==> (#[trigger] parts[k]).len() > 0,
    ensures
        nonempty(parts) == parts,
    decreases parts.len(),
{
    if parts.len() == 0 {
        reveal(Seq::filter);
    } else {
        let init = parts.drop_last();
        lemma_nonempty_all(init);
        assert(init.push(parts.last()) =~= parts);
        init.lemma_filter_push(parts.last(), |p: Seq<char>| p.len() > 0);
    }
}

/// The file of a package with well-formed components lands in the
/// directory that mirrors the package: every dot of the name becomes a
/// slash.
pub proof fn law_package_path_mirrors_package(pkg: Seq<char>, file_name: Seq<char>)
    requires
        is_dotted_name(pkg),
    ensures
        package_path(pkg, file_name) == seq!['/'] + crate::text::replace_char(pkg, '.', '/') + seq![
            '/',
        ] + file_name,
{
    lemma_split_pieces(pkg, '.');
    crate::text::lemma_split_nonempty(pkg, '.');
    let pieces = split_on(pkg, '.');
    assert forall|k: int| 0 <= k < pieces.len() implies (#[trigger] pieces[k]).len() > 0 by {
        if k < pieces.len() - 1 {
        } else {
            assert(pieces[k] == pieces.last());
        }
    }
    lemma_nonempty_all(pieces);
    crate::text::lemma_join_split(pkg, '.', '/');
}

} // verus!
