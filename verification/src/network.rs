//! The host network, and the keyed catalogs the interpreter looks things up
//! in: hosts by address, files by name, puzzles and manuals by identifier.

use vstd::prelude::*;

verus! {

/// A catalog entry: an item filed under a string key. Catalogs keep their
/// entries in insertion order and are searched front to back.
pub struct Keyed<T> {
    pub name: String,
    pub item: T,
}

/// The index of the first entry filed under `key`, or -1 when there is none.
pub open spec fn key_idx<T>(s: Seq<Keyed<T>>, key: Seq<char>) -> int
    decreases s.len(),
{
    if s.len() == 0 {
        -1
    } else if s[0].name@ == key {
        0
    } else {
        let r = key_idx(s.skip(1), key);
        if r < 0 {
            -1
        } else {
            r + 1
        }
    }
}

pub proof fn lemma_key_idx<T>(s: Seq<Keyed<T>>, key: Seq<char>)
    ensures
        key_idx(s, key) == -1 || (0 <= key_idx(s, key) < s.len() && s[key_idx(s, key)].name@
            == key),
        key_idx(s, key) == -1 ==> forall|j: int| 0 <= j < s.len() ==> s[j].name@ != key,
        forall|j: int| 0 <= j < key_idx(s, key) ==> s[j].name@ != key,
    decreases s.len(),
{
    if s.len() == 0 {
    } else if s[0].name@ == key {
    } else {
        lemma_key_idx(s.skip(1), key);
        assert forall|j: int| 1 <= j < s.len() implies s[j] == s.skip(1)[j - 1] by {}
    }
}

/// Front-to-back search of a catalog for a key.
pub fn find_key<T>(v: &Vec<Keyed<T>>, key: &String) -> (r: Option<usize>)
    ensures
        match r {
            Some(i) => i == key_idx(v@, key@) && i < v@.len() && v@[i as int].name@ == key@,
            None => key_idx(v@, key@) == -1,
        },
{
    let mut i: usize = 0;
    while i < v.len()
        invariant
            i <= v@.len(),
            forall|j: int| 0 <= j < i ==> v@[j].name@ != key@,
        decreases v@.len() - i,
    {
        if v[i].name.eq(key) {
            proof {
                lemma_key_idx(v@, key@);
                let r = key_idx(v@, key@);
                assert(v@[i as int].name@ == key@);
                if r == -1 {
                    assert(v@[i as int].name@ != key@);
                } else if r < i {
                    assert(v@[r].name@ != key@);
                } else if r > i {
                    assert(v@[i as int].name@ != key@);
                }
                assert(r == i);
            }
            return Some(i);
        }
        i += 1;
    }
    proof {
        lemma_key_idx(v@, key@);
        let r = key_idx(v@, key@);
        if r != -1 {
            assert(v@[r].name@ != key@);
        }
    }
    None
}

/// The keys of a catalog, in order.
pub open spec fn key_names<T>(s: Seq<Keyed<T>>) -> Seq<Seq<char>> {
    s.map_values(|e: Keyed<T>| e.name@)
}

/// A file on a host; each entry points at a manual in the manual catalog.
pub enum File {
    Manual { id: String },
}

/// The manual a file refers to.
pub open spec fn file_id(f: File) -> Seq<char> {
    match f {
        File::Manual { id } => id@,
    }
}

/// One node of the simulated network. `hacked` is the only field that ever
/// changes: it flips from false to true when the host's puzzle is solved.
pub struct Host {
    pub fs: Vec<Keyed<File>>,
    pub hacked: bool,
    pub position: (i32, i32),
    pub puzzle_kind: String,
}

/// The static host graph, keyed by network address.
pub struct Network {
    pub hosts: Vec<Keyed<Host>>,
}

/// Whether every host of the network has been hacked: the win condition.
pub open spec fn spec_all_hacked(hosts: Seq<Keyed<Host>>) -> bool {
    forall|j: int| 0 <= j < hosts.len() ==> hosts[j].item.hacked
}

/// What `mark_hacked` does: the host at `addr`, if any, gets its `hacked`
/// flag set, and nothing else about the network changes.
pub open spec fn marked_rel(pre: Network, post: Network, addr: Seq<char>) -> bool {
    let i = key_idx(pre.hosts@, addr);
    post.hosts@.len() == pre.hosts@.len() && (forall|j: int|
        0 <= j < pre.hosts@.len() && j != i ==> post.hosts@[j] == pre.hosts@[j]) && (i >= 0
        ==> post.hosts@[i].name == pre.hosts@[i].name && post.hosts@[i].item.fs
        == pre.hosts@[i].item.fs && post.hosts@[i].item.position == pre.hosts@[i].item.position
        && post.hosts@[i].item.puzzle_kind == pre.hosts@[i].item.puzzle_kind
        && post.hosts@[i].item.hacked) && (i < 0 ==> post.hosts@ == pre.hosts@)
}

impl Network {
    /// Flip `hacked` on the host at `addr`; a missing address is a silent
    /// no-op. Nothing else about the network changes.
    pub fn mark_hacked(&mut self, addr: &String)
        ensures
            marked_rel(*old(self), *final(self), addr@),
            key_idx(final(self).hosts@, addr@) == key_idx(old(self).hosts@, addr@),
    {
        proof {
            lemma_key_idx(self.hosts@, addr@);
        }
        if let Some(i) = find_key(&self.hosts, addr) {
            self.hosts[i].item.hacked = true;
            proof {
                lemma_key_idx_stable(old(self).hosts@, self.hosts@, addr@);
            }
        }
    }

    /// True exactly when every host's `hacked` flag is set.
    pub fn all_hacked(&self) -> (r: bool)
        ensures
            r == spec_all_hacked(self.hosts@),
    {
        let mut i: usize = 0;
        while i < self.hosts.len()
            invariant
                i <= self.hosts@.len(),
                forall|j: int| 0 <= j < i ==> self.hosts@[j].item.hacked,
            decreases self.hosts@.len() - i,
        {
            if !self.hosts[i].item.hacked {
                return false;
            }
            i += 1;
        }
        true
    }
}

/// Two catalogs whose entries carry the same keys in the same order agree on
/// every lookup.
pub proof fn lemma_key_idx_stable<T>(a: Seq<Keyed<T>>, b: Seq<Keyed<T>>, key: Seq<char>)
    requires
        a.len() == b.len(),
        forall|j: int| 0 <= j < a.len() ==> a[j].name@ == b[j].name@,
    ensures
        key_idx(b, key) == key_idx(a, key),
    decreases a.len(),
{
    if a.len() == 0 {
    } else {
        assert(b[0].name@ == a[0].name@);
        assert forall|j: int| 0 <= j < a.len() - 1 implies a.skip(1)[j].name@ == b.skip(
            1,
        )[j].name@ by {
            assert(a.skip(1)[j] == a[j + 1]);
            assert(b.skip(1)[j] == b[j + 1]);
        }
        lemma_key_idx_stable(a.skip(1), b.skip(1), key);
    }
}

} // verus!
