//! The remembered settings: which hosts to try and how long to wait.
use vstd::prelude::*;

use crate::text::list_contains;
use crate::time::TimeSpan;

verus! {

broadcast use vstd::string::group_string_axioms;

/// The settings that are kept between runs.
pub struct AppConfig {
    /// The addresses at which a robot controller may listen, in the order
    /// in which they are tried.
    pub hosts: Vec<String>,
    /// How long to wait for a host to answer before calling it offline.
    pub host_timeout: TimeSpan,
    /// How long a build may take before it is given up on.
    pub build_timeout: TimeSpan,
}

/// The address of a REV Control Hub.
pub open spec fn control_hub_host() -> Seq<char> {
    "http://192.168.43.1:8080"@
}

/// The address of an Android phone acting as robot controller.
pub open spec fn phone_host() -> Seq<char> {
    "http://192.168.49.1:8080"@
}

impl AppConfig {
    /// The configuration is the default one: both standard addresses, the
    /// Control Hub's first, half a second per host and fifteen seconds per build.
    pub open spec fn is_default(&self) -> bool {
        &&& self.hosts@.len() == 2
        &&& self.hosts@[0]@ == control_hub_host()
        &&& self.hosts@[1]@ == phone_host()
        &&& self.host_timeout@ == 500_000_000
        &&& self.build_timeout@ == 15_000_000_000
    }
}

impl Default for AppConfig {
    fn default() -> (c: Self)
        ensures
            c.is_default(),
    {
        let mut hosts: Vec<String> = Vec::new();
        hosts.push(String::from_str("http://192.168.43.1:8080"));
        hosts.push(String::from_str("http://192.168.49.1:8080"));
        let host_timeout = TimeSpan::from_millis(500);
        let build_timeout = TimeSpan::from_secs(15);
        AppConfig { hosts, host_timeout, build_timeout }
    }
}

/// `host` is among `hosts`.
pub open spec fn knows_host(hosts: Seq<String>, host: Seq<char>) -> bool {
    exists|i: int| 0 <= i < hosts.len() && #[trigger] hosts[i]@ == host
}

/// `hosts` once `host` is known: unchanged where it is known already, and
/// with `host` in front otherwise.
pub open spec fn with_host(hosts: Seq<String>, host: String) -> Seq<String> {
    if knows_host(hosts, host@) {
        hosts
    } else {
        seq![host] + hosts
    }
}

/// `hosts` once the host at `index` answered: it changes places with the
/// first host.
pub open spec fn promoted(hosts: Seq<String>, index: int) -> Seq<String> {
    hosts.update(0, hosts[index]).update(index, hosts[0])
}

/// Adding a host loses no host and moves none out of order: a host that is
/// not known yet goes in front of all the others, which keep their order,
/// so the list grows by exactly one; a known host leaves the list as it is.
pub proof fn law_adding_host_loses_none(hosts: Seq<String>, host: String)
    ensures
        (exists|k: int| 0 <= k < hosts.len() && #[trigger] hosts[k]@ == host@) ==> with_host(
            hosts,
            host,
        ) == hosts,
        !(exists|k: int| 0 <= k < hosts.len() && #[trigger] hosts[k]@ == host@) ==> {
            &&& with_host(hosts, host).len() == hosts.len() + 1
            &&& with_host(hosts, host)[0] == host
            &&& forall|i: int| 0 <= i < hosts.len() ==> #[trigger] with_host(hosts, host)[i + 1] == hosts[i]
        },
        forall|i: int|
            0 <= i < hosts.len() ==> exists|j: int|
                0 <= j < with_host(hosts, host).len() && #[trigger] with_host(hosts, host)[j]
                    == #[trigger] hosts[i],
{
    if knows_host(hosts, host@) {
        assert forall|i: int| 0 <= i < hosts.len() implies exists|j: int|
            0 <= j < with_host(hosts, host).len() && #[trigger] with_host(hosts, host)[j]
                == #[trigger] hosts[i] by {
            assert(with_host(hosts, host)[i] == hosts[i]);
        }
    } else {
        assert forall|i: int| 0 <= i < hosts.len() implies exists|j: int|
            0 <= j < with_host(hosts, host).len() && #[trigger] with_host(hosts, host)[j]
                == #[trigger] hosts[i] by {
            assert(with_host(hosts, host)[i + 1] == hosts[i]);
        }
    }
}

/// After a host is added it is known, and adding it again changes nothing.
pub proof fn law_added_host_is_known(hosts: Seq<String>, host: String)
    ensures
        knows_host(with_host(hosts, host), host@),
        with_host(with_host(hosts, host), host) == with_host(hosts, host),
{
    if !knows_host(hosts, host@) {
        assert(with_host(hosts, host)[0]@ == host@);
    }
}

proof fn lemma_update_multiset(s: Seq<String>, k: int, x: String)
    requires
        0 <= k < s.len(),
    ensures
        s.update(k, x).to_multiset() =~= s.to_multiset().remove(s[k]).insert(x),
{
    broadcast use vstd::seq_lib::group_to_multiset_ensures, vstd::multiset::group_multiset_axioms;

    let u = s.update(k, x);
    assert(u.remove(k) =~= s.remove(k));
    s.to_multiset_ensures();
    u.to_multiset_ensures();
    assert(u[k] == x);
    assert(u.contains(x));
    assert(s.contains(s[k]));
    assert(u.to_multiset().remove(x) =~= s.to_multiset().remove(s[k]));
    assert forall|y: String| #[trigger] u.to_multiset().count(y) == s.to_multiset().remove(
        s[k],
    ).insert(x).count(y) by {
        if y == x {
            assert(u.to_multiset().count(x) > 0);
            assert(u.to_multiset().remove(x).count(x) == u.to_multiset().count(x) - 1);
        } else {
            assert(u.to_multiset().remove(x).count(y) == u.to_multiset().count(y));
        }
    }
}

/// The host that answered comes first, and no host is lost, gained or
/// repeated: the list holds the same hosts as often as before and differs
/// from it at most at the front and at `index`; promoting the same index
/// once more gives the old list back, and promoting the first host changes
/// nothing.
pub proof fn law_promoted_host_comes_first(hosts: Seq<String>, index: int)
    requires
        0 <= index < hosts.len(),
    ensures
        promoted(hosts, index)[0] == hosts[index],
        promoted(hosts, index).len() == hosts.len(),
        promoted(hosts, index).to_multiset() == hosts.to_multiset(),
        forall|j: int|
            0 <= j < hosts.len() && j != 0 && j != index ==> #[trigger] promoted(hosts, index)[j]
                == hosts[j],
        promoted(hosts, index).to_set() == hosts.to_set(),
        promoted(promoted(hosts, index), index) == hosts,
        promoted(hosts, 0) == hosts,
{
    broadcast use vstd::multiset::group_multiset_axioms;

    let p = promoted(hosts, index);
    let t = hosts.update(0, hosts[index]);
    lemma_update_multiset(hosts, 0, hosts[index]);
    lemma_update_multiset(t, index, hosts[0]);
    if index == 0 {
        assert(p =~= hosts);
    } else {
        assert(t[index] == hosts[index]);
        hosts.to_multiset_ensures();
        assert(hosts.contains(hosts[0]));
        assert forall|y: String| #[trigger] p.to_multiset().count(y) == hosts.to_multiset().count(y) by {
        }
        assert(p.to_multiset() =~= hosts.to_multiset());
    }
    assert(promoted(hosts, 0) =~= hosts);
    assert(p.to_set() =~= hosts.to_set()) by {
        assert forall|x: String| p.to_set().contains(x) implies hosts.to_set().contains(x) by {
            let j = choose|j: int| 0 <= j < p.len() && p[j] == x;
            if j == index {
                assert(hosts[0] == x);
            } else if j == 0 {
                assert(hosts[index] == x);
            } else {
                assert(hosts[j] == x);
            }
        }
        assert forall|x: String| hosts.to_set().contains(x) implies p.to_set().contains(x) by {
            let j = choose|j: int| 0 <= j < hosts.len() && hosts[j] == x;
            if j == index {
                assert(p[0] == x);
            } else if j == 0 {
                assert(p[index] == x);
            } else {
                assert(p[j] == x);
            }
        }
    }
    assert(promoted(p, index) =~= hosts);
}

impl AppConfig {
    /// Makes `host` known: where it is not among the hosts yet, it goes in
    /// front of them, so that it is the first one tried.
    pub fn add_host(&mut self, host: String)
        ensures
            final(self).hosts@ == with_host(old(self).hosts@, host),
            final(self).host_timeout == old(self).host_timeout,
            final(self).build_timeout == old(self).build_timeout,
    {
        if !list_contains(&self.hosts, &host) {
            let ghost before = self.hosts@;
            self.hosts.insert(0, host);
            assert(self.hosts@ =~= seq![host] + before);
        }
    }

    /// Sets how long to wait for each host to `ms` milliseconds.
    pub fn set_host_timeout_ms(&mut self, ms: u64)
        ensures
            final(self).host_timeout@ == ms * 1_000_000,
            final(self).hosts@ == old(self).hosts@,
            final(self).build_timeout == old(self).build_timeout,
    {
        self.host_timeout = TimeSpan::from_millis(ms);
    }

    /// Moves the host at `index`, which answered, to the front, where the
    /// host that stood there takes its place (as `<[T]>::swap(0, index)`).
    pub fn promote_host(&mut self, index: usize)
        requires
            index < old(self).hosts@.len(),
        ensures
            final(self).hosts@ == promoted(old(self).hosts@, index as int),
            final(self).host_timeout == old(self).host_timeout,
            final(self).build_timeout == old(self).build_timeout,
    {
        let first = self.hosts[0].clone();
        let chosen = self.hosts[index].clone();
        self.hosts.set(0, chosen);
        self.hosts.set(index, first);
    }
}

} // verus!
