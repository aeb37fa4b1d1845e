use vstd::prelude::*;

use crate::paths::{relative_path, str_eq};

verus! {

/// One embedded file as the resolver sees it: its bytes and the content hash
/// the embedding collaborator computed over them at build time.
pub struct Asset {
    pub data: Vec<u8>,
    pub sha256: Vec<u8>,
}

/// The mathematical value of an [`Asset`].
pub struct SpecAsset {
    pub data: Seq<u8>,
    pub hash: Seq<u8>,
}

impl View for Asset {
    type V = SpecAsset;

    open spec fn view(&self) -> SpecAsset {
        SpecAsset { data: self.data@, hash: self.sha256@ }
    }
}

struct AssetEntry {
    path: String,
    asset: Asset,
}

/// An immutable mapping from relative path to embedded asset, populated once
/// and only read afterwards.
pub struct AssetSet {
    entries: Vec<AssetEntry>,
}

spec fn entries_map(s: Seq<AssetEntry>) -> Map<Seq<char>, SpecAsset>
    decreases s.len(),
{
    if s.len() == 0 {
        Map::empty()
    } else {
        entries_map(s.drop_last()).insert(s.last().path@, s.last().asset@)
    }
}

impl View for AssetSet {
    type V = Map<Seq<char>, SpecAsset>;

    closed spec fn view(&self) -> Map<Seq<char>, SpecAsset> {
        entries_map(self.entries@)
    }
}

/// True when every key of the mapping is a relative path.
pub open spec fn relative_keys(m: Map<Seq<char>, SpecAsset>) -> bool {
    forall|k: Seq<char>| #[trigger] m.contains_key(k) ==> relative_path(k)
}

proof fn lemma_entries_map_contains(s: Seq<AssetEntry>, k: Seq<char>)
    ensures
        entries_map(s).contains_key(k) <==> exists|i: int| 0 <= i < s.len() && s[i].path@ == k,
    decreases s.len(),
{
    if s.len() > 0 {
        lemma_entries_map_contains(s.drop_last(), k);
        assert forall|i: int| 0 <= i < s.len() - 1 implies s.drop_last()[i] == s[i] by {}
        if k == s.last().path@ {
            assert(s[s.len() - 1].path@ == k);
        } else if entries_map(s).contains_key(k) {
            let i = choose|i: int| 0 <= i < s.len() - 1 && s.drop_last()[i].path@ == k;
            assert(s[i].path@ == k);
        } else if exists|i: int| 0 <= i < s.len() && s[i].path@ == k {
            let i = choose|i: int| 0 <= i < s.len() && s[i].path@ == k;
            assert(s.drop_last()[i].path@ == k);
        }
    }
}

proof fn lemma_entries_map_value(s: Seq<AssetEntry>, i: int)
    requires
        0 <= i < s.len(),
        forall|a: int, b: int| 0 <= a < b < s.len() ==> s[a].path@ != s[b].path@,
    ensures
        entries_map(s).contains_key(s[i].path@),
        entries_map(s)[s[i].path@] == s[i].asset@,
    decreases s.len(),
{
    if i < s.len() - 1 {
        assert forall|a: int, b: int| 0 <= a < b < s.len() - 1 implies s.drop_last()[a].path@
            != s.drop_last()[b].path@ by {
            assert(s.drop_last()[a] == s[a]);
            assert(s.drop_last()[b] == s[b]);
        }
        lemma_entries_map_value(s.drop_last(), i);
        assert(s.drop_last()[i] == s[i]);
        assert(s[i].path@ != s.last().path@);
    }
}

impl AssetSet {
    /// Keys are pairwise distinct and every key is a relative path: what
    /// [`AssetSet::new`] establishes and [`AssetSet::add`] keeps.
    pub closed spec fn wf(&self) -> bool {
        &&& forall|i: int, j: int|
            0 <= i < j < self.entries@.len() ==> self.entries@[i].path@ != self.entries@[j].path@
        &&& forall|i: int|
            0 <= i < self.entries@.len() ==> relative_path(#[trigger] self.entries@[i].path@)
    }

    /// A well-formed set only maps relative paths.
    pub proof fn lemma_wf_relative_keys(&self)
        requires
            self.wf(),
        ensures
            relative_keys(self@),
    {
        assert forall|k: Seq<char>| #[trigger] self@.contains_key(k) implies relative_path(k) by {
            lemma_entries_map_contains(self.entries@, k);
        }
    }

    /// The empty asset set.
    pub fn new() -> (r: AssetSet)
        ensures
            r.wf(),
            r@ == Map::<Seq<char>, SpecAsset>::empty(),
    {
        AssetSet { entries: Vec::new() }
    }

    /// Adds one asset under `path`. The addition is refused — and the set left
    /// unchanged — when the path is not relative or is already present.
    pub fn add(&mut self, path: String, asset: Asset) -> (ok: bool)
        requires
            old(self).wf(),
        ensures
            final(self).wf(),
            ok == (relative_path(path@) && !old(self)@.contains_key(path@)),
            ok ==> final(self)@ == old(self)@.insert(path@, asset@),
            !ok ==> final(self)@ == old(self)@,
    {
        let relative = {
            let s = path.as_str();
            let n = s.unicode_len();
            if n == 0 {
                true
            } else {
                s.get_char(0) != '/'
            }
        };
        if !relative {
            return false;
        }
        if self.get(path.as_str()).is_some() {
            return false;
        }
        proof {
            lemma_entries_map_contains(self.entries@, path@);
        }
        let ghost old_entries = self.entries@;
        self.entries.push(AssetEntry { path, asset });
        proof {
            assert(self.entries@.drop_last() =~= old_entries);
            assert forall|i: int, j: int|
                0 <= i < j < self.entries@.len() implies self.entries@[i].path@
                != self.entries@[j].path@ by {
                if j < self.entries@.len() - 1 {
                    assert(old_entries[i] == self.entries@[i]);
                    assert(old_entries[j] == self.entries@[j]);
                }
            }
            assert forall|i: int|
                0 <= i < self.entries@.len() implies relative_path(
                #[trigger] self.entries@[i].path@,
            ) by {
                if i < self.entries@.len() - 1 {
                    assert(old_entries[i] == self.entries@[i]);
                }
            }
        }
        true
    }

    /// The asset stored under exactly `path`, if any.
    pub fn get(&self, path: &str) -> (r: Option<&Asset>)
        requires
            self.wf(),
        ensures
            match r {
                Some(a) => self@.contains_key(path@) && a@ == self@[path@],
                None => !self@.contains_key(path@),
            },
    {
        let n = self.entries.len();
        let mut i: usize = 0;
        loop
            invariant
                self.wf(),
                i <= n,
                n == self.entries@.len(),
                forall|j: int| 0 <= j < i ==> self.entries@[j].path@ != path@,
            ensures
                i <= n,
                n == self.entries@.len(),
                forall|j: int| 0 <= j < i ==> self.entries@[j].path@ != path@,
                i < n ==> self.entries@[i as int].path@ == path@,
            decreases n - i,
        {
            if i >= n {
                break;
            }
            let entry = &self.entries[i];
            if str_eq(entry.path.as_str(), path) {
                break;
            }
            i = i + 1;
        }
        if i < n {
            proof {
                lemma_entries_map_value(self.entries@, i as int);
            }
            Some(&self.entries[i].asset)
        } else {
            proof {
                lemma_entries_map_contains(self.entries@, path@);
            }
            None
        }
    }
}

} // verus!
