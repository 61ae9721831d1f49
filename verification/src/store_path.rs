//! Nix store paths.

use vstd::prelude::*;

use crate::text::{find_char, first_index_of, last_index_of, rfind_char};

verus! {

/// The last `/`-separated segment of `s` (the whole of `s` when it has no `/`).
pub open spec fn last_segment(s: Seq<char>) -> Seq<char> {
    s.subrange(last_index_of(s, '/') + 1, s.len() as int)
}

/// The package name of a store path: what follows the first `-` of its last segment,
/// when that is not empty.
pub open spec fn spec_store_path_name(s: Seq<char>) -> Option<Seq<char>> {
    let base = last_segment(s);
    let dash = first_index_of(base, '-');
    if dash >= 0 && dash + 1 < base.len() {
        Some(base.subrange(dash + 1, base.len() as int))
    } else {
        None
    }
}

/// Extract package name from a full Nix store path (`/nix/store/hash-name` → `name`).
pub fn store_path_name(store_path: &str) -> (r: Option<&str>)
    ensures
        match r {
            Some(name) => spec_store_path_name(store_path@) == Some(name@),
            None => spec_store_path_name(store_path@) is None,
        },
{
    proof {
        crate::text::lemma_last_index_of(store_path@, '/');
    }
    let n = store_path.unicode_len();
    let start = match rfind_char(store_path, '/') {
        Some(i) => i + 1,
        None => 0,
    };
    let base = store_path.substring_char(start, n);
    proof {
        crate::text::lemma_first_index_of(base@, '-');
    }
    match find_char(base, '-') {
        Some(dash) => {
            let len = base.unicode_len();
            if dash + 1 < len {
                Some(base.substring_char(dash + 1, len))
            } else {
                None
            }
        },
        None => None,
    }
}

/// A store path `{dir}/{hash}-{name}` names the package `name`, where the hash holds no
/// `-` and the name is not empty; both hold no `/`. A last segment without `-` names none.
pub proof fn law_store_path_name_follows_the_hash(dir: Seq<char>, hash: Seq<char>, name: Seq<char>)
    requires
        forall|i: int| 0 <= i < hash.len() ==> #[trigger] hash[i] != '-' && hash[i] != '/',
        forall|i: int| 0 <= i < name.len() ==> #[trigger] name[i] != '/',
    ensures
        name.len() > 0 ==> spec_store_path_name(dir.push('/') + hash + seq!['-'] + name) == Some(name),
        spec_store_path_name(dir.push('/') + hash) is None,
{
    let s = dir.push('/') + hash + seq!['-'] + name;
    let k = dir.len() as int;
    crate::text::lemma_last_index_of(s, '/');
    assert(s[k] == '/');
    assert forall|j: int| k < j < s.len() implies s[j] != '/' by {
        if j <= k + hash.len() {
            assert(s[j] == hash[j - k - 1]);
        } else if j > k + hash.len() + 1 {
            assert(s[j] == name[j - k - hash.len() - 2]);
        }
    }
    assert(last_index_of(s, '/') == k);
    let base = s.subrange(k + 1, s.len() as int);
    assert(base =~= hash + seq!['-'] + name);
    crate::text::lemma_first_index_of(base, '-');
    assert(base[hash.len() as int] == '-');
    assert forall|j: int| 0 <= j < hash.len() implies base[j] != '-' by {
        assert(base[j] == hash[j]);
    }
    assert(first_index_of(base, '-') == hash.len());
    assert(base.subrange(hash.len() as int + 1, base.len() as int) =~= name);

    let s2 = dir.push('/') + hash;
    crate::text::lemma_last_index_of(s2, '/');
    assert(s2[k] == '/');
    assert forall|j: int| k < j < s2.len() implies s2[j] != '/' by {
        assert(s2[j] == hash[j - k - 1]);
    }
    assert(last_index_of(s2, '/') == k);
    let base2 = s2.subrange(k + 1, s2.len() as int);
    assert(base2 =~= hash);
    crate::text::lemma_first_index_of(base2, '-');
    if first_index_of(base2, '-') >= 0 {
        assert(base2[first_index_of(base2, '-')] == hash[first_index_of(base2, '-')]);
    }
}

} // verus!
