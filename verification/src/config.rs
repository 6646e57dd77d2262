//! Merging the saved per-model settings with the model files on disk.

use vstd::prelude::*;
use crate::model::{
    entry_names, has_gguf_extension, strip_gguf, strip_gguf_suffix, AppConfig, ModelFileEntry,
    ModelSettings,
};

verus! {

/// The index of the last model in `models` whose file is `f`, or -1.
pub open spec fn last_with_file(models: Seq<ModelSettings>, f: Seq<char>) -> int
    decreases models.len(),
{
    if models.len() == 0 {
        -1
    } else if models.last().file@ == f {
        models.len() - 1
    } else {
        last_with_file(models.drop_last(), f)
    }
}

/// `names[i]` does not occur before position `i`.
pub open spec fn first_occurrence(names: Seq<Seq<char>>, i: int) -> bool {
    forall|k: int| 0 <= k < i ==> names[k] != names[i]
}

/// What the `i`-th merged model is: the saved model for that file (the last
/// one saved with it) the first time the file is listed, otherwise fresh
/// defaults named after the file.
pub open spec fn synced_entry(
    saved: Seq<ModelSettings>,
    disk: Seq<Seq<char>>,
    i: int,
    m: ModelSettings,
) -> bool {
    let j = last_with_file(saved, disk[i]);
    if first_occurrence(disk, i) && j >= 0 {
        m == saved[j]
    } else {
        m.is_default_for(strip_gguf(disk[i]), disk[i])
    }
}

/// `merged` is `saved` synced with the files `disk`: one model per file, in
/// the order of `disk`.
pub open spec fn synced(
    saved: Seq<ModelSettings>,
    disk: Seq<Seq<char>>,
    merged: Seq<ModelSettings>,
) -> bool {
    &&& merged.len() == disk.len()
    &&& forall|i: int| 0 <= i < disk.len() ==> synced_entry(saved, disk, i, #[trigger] merged[i])
}

/// `last_with_file` is the last index whose file is `f`.
pub proof fn lemma_last_with_file(s: Seq<ModelSettings>, f: Seq<char>)
    ensures
        -1 <= last_with_file(s, f) < s.len(),
        last_with_file(s, f) >= 0 ==> s[last_with_file(s, f)].file@ == f,
        forall|q: int| last_with_file(s, f) < q < s.len() ==> (#[trigger] s[q]).file@ != f,
    decreases s.len(),
{
    if s.len() > 0 && s.last().file@ != f {
        lemma_last_with_file(s.drop_last(), f);
        assert forall|q: int| last_with_file(s, f) < q < s.len() implies (#[trigger] s[q]).file@
            != f by {
            if q < s.len() - 1 {
                assert(s[q] == s.drop_last()[q]);
            }
        }
    }
}

/// After a sync, the models follow the files on disk one to one: the
/// `i`-th model is the one for the `i`-th file.
pub proof fn law_synced_models_follow_disk(
    saved: Seq<ModelSettings>,
    disk: Seq<Seq<char>>,
    merged: Seq<ModelSettings>,
)
    requires
        synced(saved, disk, merged),
    ensures
        forall|i: int| 0 <= i < merged.len() ==> (#[trigger] merged[i]).file@ == disk[i],
{
    assert forall|i: int| 0 <= i < merged.len() implies (#[trigger] merged[i]).file@ == disk[i] by {
        lemma_last_with_file(saved, disk[i]);
        assert(synced_entry(saved, disk, i, merged[i]));
    }
}

/// No file is listed twice.
pub open spec fn distinct_names(disk: Seq<Seq<char>>) -> bool {
    forall|i: int| 0 <= i < disk.len() ==> first_occurrence(disk, i)
}

/// Syncing is idempotent: syncing an already synced list with the same
/// (distinct) files changes nothing, so rescanning an unchanged directory
/// keeps every model's settings.
pub proof fn law_sync_is_idempotent(
    saved: Seq<ModelSettings>,
    disk: Seq<Seq<char>>,
    once: Seq<ModelSettings>,
    twice: Seq<ModelSettings>,
)
    requires
        distinct_names(disk),
        synced(saved, disk, once),
        synced(once, disk, twice),
    ensures
        twice == once,
{
    law_synced_models_follow_disk(saved, disk, once);
    assert forall|i: int| 0 <= i < disk.len() implies twice[i] == once[i] by {
        let j = last_with_file(once, disk[i]);
        lemma_last_with_file(once, disk[i]);
        assert(first_occurrence(disk, i));
        if j < i {
            assert(once[i].file@ == disk[i]);
        }
        if j > i {
            assert(once[j].file@ == disk[j]);
            assert(first_occurrence(disk, j));
        }
        assert(j == i);
        assert(synced_entry(once, disk, i, twice[i]));
    }
    assert(twice =~= once);
}

/// Filtering a list without repeats gives a list without repeats, of
/// elements of the list.
proof fn lemma_filter_distinct(s: Seq<Seq<char>>, p: spec_fn(Seq<char>) -> bool)
    requires
        s.no_duplicates(),
    ensures
        s.filter(p).no_duplicates(),
        forall|x: Seq<char>| s.filter(p).contains(x) ==> s.contains(x),
    decreases s.len(),
{
    reveal_with_fuel(Seq::filter, 1);
    if s.len() > 0 {
        let d = s.drop_last();
        assert forall|i: int, j: int| 0 <= i < d.len() && 0 <= j < d.len() && i != j implies d[i]
            != d[j] by {
            assert(d[i] == s[i] && d[j] == s[j]);
        }
        lemma_filter_distinct(d, p);
        let f = d.filter(p);
        assert forall|x: Seq<char>| s.filter(p).contains(x) implies s.contains(x) by {
            let out = s.filter(p);
            let k = choose|k: int| 0 <= k < out.len() && out[k] == x;
            if k < f.len() {
                assert(f[k] == x);
                assert(f.contains(x));
                assert(d.contains(x));
                let q = choose|q: int| 0 <= q < d.len() && d[q] == x;
                assert(s[q] == x);
            } else {
                assert(s[s.len() - 1] == x);
            }
        }
        if p(s.last()) {
            if f.contains(s.last()) {
                assert(d.contains(s.last()));
                let k = choose|k: int| 0 <= k < d.len() && d[k] == s.last();
                assert(s[k] == s[s.len() - 1]);
            }
            assert(f.push(s.last()).no_duplicates()) by {
                assert forall|i: int, j: int|
                    0 <= i < f.len() + 1 && 0 <= j < f.len() + 1 && i != j implies f.push(
                    s.last(),
                )[i] != f.push(s.last())[j] by {
                    if i < f.len() && j < f.len() {
                    } else if i < f.len() {
                        assert(f.contains(f[i]));
                    } else {
                        assert(f.contains(f[j]));
                    }
                }
            }
        }
    }
}

/// A directory names each entry once, so the model files chosen from its
/// entries are named once each: a list with the multiset of the `.gguf`
/// names of a list without repeats has no repeats.
pub proof fn law_files_of_a_listing_are_distinct(names: Seq<Seq<char>>, files: Seq<Seq<char>>)
    requires
        names.no_duplicates(),
        files.to_multiset() == names.filter(|n: Seq<char>| has_gguf_extension(n)).to_multiset(),
    ensures
        distinct_names(files),
{
    let kept = names.filter(|n: Seq<char>| has_gguf_extension(n));
    lemma_filter_distinct(names, |n: Seq<char>| has_gguf_extension(n));
    kept.lemma_multiset_has_no_duplicates();
    files.lemma_multiset_has_no_duplicates_conv();
    assert forall|i: int| 0 <= i < files.len() implies first_occurrence(files, i) by {
        assert forall|k: int| 0 <= k < i implies files[k] != files[i] by {}
    }
}

/// Rescanning an unchanged directory is idempotent: when the model files
/// come from a directory listing (no name twice), syncing once more with
/// the same files changes no model.
pub proof fn law_rescan_is_idempotent(
    names: Seq<Seq<char>>,
    files: Seq<Seq<char>>,
    saved: Seq<ModelSettings>,
    once: Seq<ModelSettings>,
    twice: Seq<ModelSettings>,
)
    requires
        names.no_duplicates(),
        files.to_multiset() == names.filter(|n: Seq<char>| has_gguf_extension(n)).to_multiset(),
        synced(saved, files, once),
        synced(once, files, twice),
    ensures
        twice == once,
{
    law_files_of_a_listing_are_distinct(names, files);
    law_sync_is_idempotent(saved, files, once, twice);
}

/// Merges the saved models with the model files on disk: each file keeps its
/// saved settings (matched by file name), new files get default settings
/// named after the file, and models whose file is gone are dropped.
pub fn sync_models(config: &mut AppConfig, disk_files: &Vec<ModelFileEntry>)
    ensures
        synced(old(config).models@, entry_names(disk_files@), final(config).models@),
        final(config).common == old(config).common,
{
    let ghost disk = entry_names(disk_files@);
    let mut saved: Vec<ModelSettings> = Vec::new();
    std::mem::swap(&mut saved, &mut config.models);
    let ghost orig = saved@;
    let n: usize = saved.len();

    // the saved file names
    let mut files: Vec<String> = Vec::new();
    let mut j: usize = 0;
    while j < n
        invariant
            n == saved@.len(),
            saved@ == orig,
            j <= n,
            files@.len() == j,
            forall|q: int| 0 <= q < j ==> (#[trigger] files@[q])@ == orig[q].file@,
        decreases n - j,
    {
        files.push(saved[j].file.clone());
        j = j + 1;
    }

    // move the saved models into slots that can be emptied one by one
    let mut slots: Vec<Option<ModelSettings>> = Vec::new();
    while saved.len() > 0
        invariant
            slots@.len() + saved@.len() == n,
            n == orig.len(),
            saved@ == orig.skip(slots@.len() as int),
            forall|q: int| 0 <= q < slots@.len() ==> #[trigger] slots@[q] == Some(orig[q]),
        decreases saved@.len(),
    {
        let m = saved.remove(0);
        assert(m == orig[slots@.len() as int]);
        slots.push(Some(m));
        assert(saved@ =~= orig.skip(slots@.len() as int));
    }

    let mut merged: Vec<ModelSettings> = Vec::new();
    let nd: usize = disk_files.len();
    let mut i: usize = 0;
    while i < nd
        invariant
            nd == disk.len(),
            disk == entry_names(disk_files@),
            n == orig.len(),
            files@.len() == n,
            forall|q: int| 0 <= q < n ==> (#[trigger] files@[q])@ == orig[q].file@,
            slots@.len() == n,
            forall|q: int| 0 <= q < n && (#[trigger] slots@[q]) is Some ==> slots@[q] == Some(orig[q]),
            forall|q: int|
                0 <= q < n && (#[trigger] slots@[q]) is None ==> exists|k: int|
                    0 <= k < i && first_occurrence(disk, k) && last_with_file(orig, disk[k]) == q,
            i <= nd,
            merged@.len() == i,
            forall|k: int| 0 <= k < i ==> synced_entry(orig, disk, k, #[trigger] merged@[k]),
        decreases nd - i,
    {
        let name = &disk_files[i].file_name;
        assert(disk[i as int] == name@);
        // is this file listed earlier?
        let mut dup: bool = false;
        let mut k: usize = 0;
        while k < i
            invariant
                k <= i,
                i < nd,
                nd == disk.len(),
                disk == entry_names(disk_files@),
                name@ == disk[i as int],
                dup == exists|p: int| 0 <= p < k && disk[p] == disk[i as int],
            decreases i - k,
        {
            assert(disk[k as int] == disk_files@[k as int].file_name@);
            let same = disk_files[k].file_name == *name;
            if same {
                dup = true;
            }
            assert(dup == exists|p: int| 0 <= p < k + 1 && disk[p] == disk[i as int]) by {
                if same {
                    assert(disk[k as int] == disk[i as int]);
                }
            }
            k = k + 1;
        }
        assert(dup == !first_occurrence(disk, i as int));
        let ghost last = last_with_file(orig, disk[i as int]);
        proof {
            lemma_last_with_file(orig, disk[i as int]);
        }
        // the last saved model with this file
        let mut found: Option<usize> = None;
        if !dup {
            let mut q: usize = n;
            while q > 0
                invariant
                    q <= n,
                    n == orig.len(),
                    files@.len() == n,
                    forall|r: int| 0 <= r < n ==> (#[trigger] files@[r])@ == orig[r].file@,
                    found is None ==> forall|r: int| q <= r < n ==> (#[trigger] orig[r]).file@ != name@,
                    found matches Some(f) ==> {
                        &&& f < n
                        &&& orig[f as int].file@ == name@
                        &&& forall|r: int| f < r < n ==> (#[trigger] orig[r]).file@ != name@
                    },
                decreases q,
            {
                if found.is_none() && files[q - 1] == *name {
                    found = Some(q - 1);
                }
                q = q - 1;
            }
            proof {
                match found {
                    Some(f) => {
                        assert(orig[f as int].file@ == name@);
                        if last < f {
                            assert(orig[f as int].file@ != name@);
                        }
                        if last > f {
                            assert(orig[last].file@ != name@);
                        }
                    },
                    None => {
                        if last >= 0 {
                            assert(orig[last].file@ == name@);
                        }
                    },
                }
            }
        }
        assert(found is Some ==> found->0 == last);
        assert(found is None ==> !(first_occurrence(disk, i as int) && last >= 0));
        match found {
            Some(f) => {
                let slot = slots.remove(f);
                slots.insert(f, None);
                proof {
                    if slot is None {
                        let k = choose|k: int|
                            0 <= k < i && first_occurrence(disk, k) && last_with_file(orig, disk[k])
                                == f;
                        lemma_last_with_file(orig, disk[k]);
                        assert(disk[k] == disk[i as int]);
                    }
                }
                // the slot of a file listed for the first time is still full
                assert(slot is Some);
                merged.push(slot.unwrap());
                proof {
                    assert forall|q: int|
                        0 <= q < n && (#[trigger] slots@[q]) is None implies exists|k: int|
                        0 <= k < i + 1 && first_occurrence(disk, k) && last_with_file(orig, disk[k]) == q by {
                        if q != f {
                            let k = choose|k: int|
                                0 <= k < i && first_occurrence(disk, k) && last_with_file(orig, disk[k]) == q;
                            assert(0 <= k < i + 1);
                        } else {
                            assert(first_occurrence(disk, i as int));
                        }
                    }
                }
            },
            None => {
                merged.push(ModelSettings::named(strip_gguf_suffix(name.as_str()), name.clone()));
            },
        }
        assert(synced_entry(orig, disk, i as int, merged@[i as int]));
        i = i + 1;
    }
    config.models = merged;
}

} // verus!
