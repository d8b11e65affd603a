//! Directory listings: the names found in a directory, put in the order in
//! which the file list shows them.

use vstd::prelude::*;
use vstd::seq_lib::to_multiset_insert;
use crate::components::{files_view, strings_view, EntryKind, File, FileView};
use crate::text::{
    chars_lt, lemma_lex_irreflexive, lemma_lex_transitive, lex_le, lex_lt, to_chars,
};

verus! {

/// What was read of a directory: its path and the names in it, those of
/// directories apart from those of files, in any order.
#[derive(Clone, Debug, PartialEq, Eq)]
pub struct Directory {
    pub path: String,
    pub dirs: Vec<String>,
    pub files: Vec<String>,
}

/// Each name comes before or is every later one.
pub open spec fn sorted(names: Seq<Seq<char>>) -> bool {
    forall|i: int, j: int|
        0 <= i < j < names.len() ==> lex_le(#[trigger] names[i], #[trigger] names[j])
}

/// Whether a name is not empty.
pub open spec fn has_name() -> spec_fn(Seq<char>) -> bool {
    |name: Seq<char>| name.len() > 0
}

/// The names that are not empty.
pub open spec fn named(names: Seq<Seq<char>>) -> Seq<Seq<char>> {
    names.filter(has_name())
}

/// `ordered` holds the non-empty names of `names`, each as often as `names`
/// does, in the order of a dictionary.
pub open spec fn sorts(ordered: Seq<Seq<char>>, names: Seq<Seq<char>>) -> bool {
    sorted(ordered) && ordered.to_multiset() == named(names).to_multiset()
}

/// Entries of one kind with the given names.
pub open spec fn entries_of(names: Seq<Seq<char>>, kind: EntryKind) -> Seq<FileView> {
    names.map_values(|name: Seq<char>| FileView { name, kind })
}

/// The two entries that every listing starts with: the directory itself and
/// the one above it.
pub open spec fn synthetic_entries() -> Seq<FileView> {
    seq![
        FileView { name: "."@, kind: EntryKind::Directory },
        FileView { name: ".."@, kind: EntryKind::Directory },
    ]
}

/// `listing` shows a directory with the given names: first `.` and `..`,
/// then the directories in the order of a dictionary, then the files in the
/// order of a dictionary.
pub open spec fn lists(
    listing: Seq<FileView>,
    dirs: Seq<Seq<char>>,
    files: Seq<Seq<char>>,
) -> bool {
    exists|d: Seq<Seq<char>>, f: Seq<Seq<char>>|
        sorts(d, dirs) && sorts(f, files) && listing == synthetic_entries() + entries_of(
            d,
            EntryKind::Directory,
        ) + entries_of(f, EntryKind::File)
}

/// What a list of character vectors stands for.
spec fn keys_view(keys: Seq<Vec<char>>) -> Seq<Seq<char>> {
    keys.map_values(|k: Vec<char>| k@)
}

/// The non-empty names in the order of a dictionary.
pub fn sort_names(names: &Vec<String>) -> (ordered: Vec<String>)
    ensures
        sorts(strings_view(ordered@), strings_view(names@)),
{
    broadcast use vstd::seq_lib::group_seq_properties;

    let ghost given = strings_view(names@);
    let mut ordered: Vec<String> = Vec::new();
    let mut keys: Vec<Vec<char>> = Vec::new();
    let mut i: usize = 0;
    assert(given.take(0) =~= Seq::empty());
    assert(strings_view(ordered@) =~= Seq::empty());
    assert(named(Seq::empty()) =~= Seq::empty()) by {
        reveal(Seq::filter);
    }
    while i < names.len()
        invariant
            i <= names.len(),
            given == strings_view(names@),
            keys.len() == ordered.len(),
            keys_view(keys@) =~= strings_view(ordered@),
            sorted(strings_view(ordered@)),
            strings_view(ordered@).to_multiset() == named(given.take(i as int)).to_multiset(),
        decreases names.len() - i,
    {
        let key = to_chars(names[i].as_str());
        proof {
            assert(given.take(i + 1) =~= given.take(i as int).push(key@));
            given.take(i as int).lemma_filter_push(key@, has_name());
            vstd::seq_lib::to_multiset_build(named(given.take(i as int)), key@);
        }
        if key.len() > 0 {
            let mut at: usize = 0;
            while at < keys.len() && !chars_lt(&key, &keys[at])
                invariant
                    at <= keys.len(),
                    keys.len() == ordered.len(),
                    keys_view(keys@) =~= strings_view(ordered@),
                    forall|k: int| 0 <= k < at ==> lex_le(strings_view(ordered@)[k], key@),
                decreases keys.len() - at,
            {
                assert(keys_view(keys@)[at as int] == keys[at as int]@);
                at += 1;
            }
            let ghost before = strings_view(ordered@);
            proof {
                if at < keys.len() {
                    assert(keys_view(keys@)[at as int] == keys[at as int]@);
                }
            }
            ordered.insert(at, names[i].clone());
            keys.insert(at, key);
            proof {
                let after = strings_view(ordered@);
                assert(after =~= before.insert(at as int, key@));
                assert(keys_view(keys@) =~= after);
                to_multiset_insert(before, at as int, key@);
                assert forall|a: int, b: int| 0 <= a < b < after.len() implies lex_le(
                    after[a],
                    after[b],
                ) by {
                    if a == at {
                        if lex_lt(after[b], key@) {
                            lemma_lex_transitive(after[b], key@, before[at as int]);
                            if b - 1 == at {
                                lemma_lex_irreflexive(before[at as int]);
                            } else {
                                assert(lex_le(before[at as int], before[b - 1]));
                            }
                        }
                    } else if b == at {
                        assert(lex_le(before[a], key@));
                    } else {
                        let oa = if a < at {
                            a
                        } else {
                            a - 1
                        };
                        let ob = if b < at {
                            b
                        } else {
                            b - 1
                        };
                        assert(lex_le(before[oa], before[ob]));
                    }
                }
            }
        }
        i += 1;
    }
    assert(given.take(names.len() as int) =~= given);
    ordered
}

/// The entries of a listing: `.` and `..`, then the directories, then the
/// files, each group in the order of a dictionary. Empty names are left out.
pub fn fetch_files(dirs: &Vec<String>, files: &Vec<String>) -> (entries: Vec<File>)
    ensures
        lists(files_view(entries@), strings_view(dirs@), strings_view(files@)),
        entries.len() >= 2,
{
    let d = sort_names(dirs);
    let f = sort_names(files);
    let mut entries: Vec<File> = Vec::new();
    entries.push(File::new(".".to_string(), EntryKind::Directory));
    entries.push(File::new("..".to_string(), EntryKind::Directory));
    let ghost dv = strings_view(d@);
    let ghost fv = strings_view(f@);
    assert(files_view(entries@) =~= synthetic_entries());
    let mut i: usize = 0;
    while i < d.len()
        invariant
            i <= d.len(),
            dv == strings_view(d@),
            files_view(entries@) =~= synthetic_entries() + entries_of(
                dv.take(i as int),
                EntryKind::Directory,
            ),
        decreases d.len() - i,
    {
        let ghost before = entries@;
        let entry = File::new(d[i].clone(), EntryKind::Directory);
        entries.push(entry);
        proof {
            assert(files_view(entries@) =~= files_view(
                before,
            ).push(entry@));
            assert(dv.take(i + 1) =~= dv.take(i as int).push(dv[i as int]));
            assert(entries_of(dv.take(i + 1), EntryKind::Directory) =~= entries_of(
                dv.take(i as int),
                EntryKind::Directory,
            ).push(entry@));
        }
        i += 1;
    }
    assert(dv.take(d.len() as int) =~= dv);
    let mut j: usize = 0;
    while j < f.len()
        invariant
            j <= f.len(),
            fv == strings_view(f@),
            files_view(entries@) =~= synthetic_entries() + entries_of(
                dv,
                EntryKind::Directory,
            ) + entries_of(fv.take(j as int), EntryKind::File),
        decreases f.len() - j,
    {
        let ghost before = entries@;
        let entry = File::new(f[j].clone(), EntryKind::File);
        entries.push(entry);
        proof {
            assert(files_view(entries@) =~= files_view(
                before,
            ).push(entry@));
            assert(fv.take(j + 1) =~= fv.take(j as int).push(fv[j as int]));
            assert(entries_of(fv.take(j + 1), EntryKind::File) =~= entries_of(
                fv.take(j as int),
                EntryKind::File,
            ).push(entry@));
        }
        j += 1;
    }
    assert(fv.take(f.len() as int) =~= fv);
    entries
}

} // verus!
