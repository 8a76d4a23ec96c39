use vstd::prelude::*;
use vstd::string::StringExecFns;
use vstd::string::StrSliceExecFns;

use crate::text::str_eq;

verus! {

/// A named vault: the logical name a caller chose, and the storage path the
/// repository maps it to.  Vaults are write-once: created when no vault of
/// that name exists, never mutated, destroyed only by an explicit delete.
#[derive(Debug, Clone)]
pub struct Vault {
    pub name: String,
    pub path: String,
}

/// The file name that carries a vault: the fixed prefix and suffix wrapped
/// around the logical name.
pub open spec fn vault_file_name(name: Seq<char>) -> Seq<char> {
    "vault_"@ + name + ".enc"@
}

/// The storage path of a vault: the fixed repository directory plus the
/// vault's file name.
pub open spec fn vault_path(name: Seq<char>) -> Seq<char> {
    "secrets/"@ + vault_file_name(name)
}

/// The logical name a repository file name carries: the middle of the text
/// when the fixed prefix and suffix wrap it, and nothing otherwise.
pub open spec fn parse_vault_file(fname: Seq<char>) -> Option<Seq<char>> {
    if fname.len() >= 10 && fname.subrange(0, 6) == "vault_"@ && fname.subrange(
        fname.len() - 4,
        fname.len() as int,
    ) == ".enc"@ {
        Some(fname.subrange(6, fname.len() - 4))
    } else {
        None
    }
}

impl Vault {
    /// Binds a logical name to its storage path; the mapping is deterministic
    /// and, as `lemma_vault_path_injective` states, collision-free.
    pub fn new(name: &str) -> (v: Vault)
        ensures
            v.name@ == name@,
            v.path@ == vault_path(name@),
    {
        let mut path = String::from_str("secrets/vault_");
        path.append(name);
        path.append(".enc");
        proof {
            reveal_strlit("secrets/vault_");
            reveal_strlit("secrets/");
            reveal_strlit("vault_");
            reveal_strlit(".enc");
            assert(path@ =~= vault_path(name@));
        }
        Vault { name: String::from_str(name), path }
    }
}

/// Recovers the logical name from a repository file name, exactly when the
/// fixed prefix and suffix wrap it.
pub fn name_of_file(fname: &str) -> (r: Option<String>)
    ensures
        match r {
            Some(n) => parse_vault_file(fname@) == Some(n@),
            None => parse_vault_file(fname@) is None,
        },
{
    proof {
        reveal_strlit("vault_");
        reveal_strlit(".enc");
    }
    let len = fname.unicode_len();
    if len < 10 {
        return None;
    }
    let prefix = fname.substring_char(0, 6);
    if !str_eq(prefix, "vault_") {
        return None;
    }
    let suffix = fname.substring_char(len - 4, len);
    if !str_eq(suffix, ".enc") {
        return None;
    }
    Some(fname.substring_char(6, len - 4).to_owned())
}

/// The names a directory listing yields: every entry that the fixed prefix
/// and suffix wrap, with both stripped, in listing order.
pub open spec fn listed_names(entries: Seq<Seq<char>>) -> Seq<Seq<char>>
    decreases entries.len(),
{
    if entries.len() == 0 {
        Seq::empty()
    } else {
        listed_names(entries.drop_last()) + (match parse_vault_file(entries.last()) {
            Some(n) => seq![n],
            None => Seq::<Seq<char>>::empty(),
        })
    }
}

/// Filters a directory listing down to the logical vault names it holds,
/// keeping the listing's order.
pub fn list_names(entries: &Vec<String>) -> (r: Vec<String>)
    ensures
        r.deep_view() == listed_names(entries.deep_view()),
{
    let mut out: Vec<String> = Vec::new();
    let mut i: usize = 0;
    while i < entries.len()
        invariant
            i <= entries.len(),
            out.deep_view() == listed_names(entries.deep_view().take(i as int)),
        decreases entries.len() - i,
    {
        let entry: &String = &entries[i];
        match name_of_file(entry.as_str()) {
            Some(n) => {
                out.push(n);
            },
            None => {},
        }
        proof {
            let dv = entries.deep_view();
            assert(dv.take(i + 1).drop_last() =~= dv.take(i as int));
            assert(dv.take(i + 1).last() == entry@);
            assert(out.deep_view() =~= listed_names(dv.take(i + 1)));
        }
        i += 1;
    }
    proof {
        assert(entries.deep_view().take(entries.len() as int) =~= entries.deep_view());
    }
    out
}

/// Wrapping a name into its vault file name and parsing it back recovers the
/// name.
pub proof fn lemma_parse_file_name(name: Seq<char>)
    ensures
        parse_vault_file(vault_file_name(name)) == Some(name),
{
    reveal_strlit("vault_");
    reveal_strlit(".enc");
    let f = vault_file_name(name);
    assert(f.subrange(0, 6) =~= "vault_"@);
    assert(f.subrange(f.len() - 4, f.len() as int) =~= ".enc"@);
    assert(f.subrange(6, f.len() - 4) =~= name);
}

/// A file name parses to a given name exactly when it is that name's vault
/// file name.
pub proof fn lemma_parse_exact(fname: Seq<char>, name: Seq<char>)
    ensures
        parse_vault_file(fname) == Some(name) <==> fname == vault_file_name(name),
{
    reveal_strlit("vault_");
    reveal_strlit(".enc");
    lemma_parse_file_name(name);
    if parse_vault_file(fname) == Some(name) {
        assert(fname =~= vault_file_name(name));
    }
}

/// Law: the name-to-path mapping is injective; two distinct names never map
/// to the same storage path.
pub proof fn lemma_vault_path_injective(a: Seq<char>, b: Seq<char>)
    ensures
        vault_path(a) == vault_path(b) ==> a == b,
{
    reveal_strlit("secrets/");
    reveal_strlit("vault_");
    reveal_strlit(".enc");
    if vault_path(a) == vault_path(b) {
        let pa = vault_path(a);
        assert(a =~= pa.subrange(14, pa.len() - 4));
        assert(b =~= pa.subrange(14, pa.len() - 4));
    }
}

/// The repository directory, modeled as the set of paths present in it; the
/// file operations around the library act over exactly this model: existence
/// is membership of the vault's path.
pub open spec fn store_has(store: Set<Seq<char>>, name: Seq<char>) -> bool {
    store.contains(vault_path(name))
}

/// The directory after a vault's file is written.
pub open spec fn store_create(store: Set<Seq<char>>, name: Seq<char>) -> Set<Seq<char>> {
    store.insert(vault_path(name))
}

/// The directory after a vault's delete; the file is removed if present, and
/// the delete succeeds either way.
pub open spec fn store_delete(store: Set<Seq<char>>, name: Seq<char>) -> Set<Seq<char>> {
    store.remove(vault_path(name))
}

/// Law: deleting a vault that does not exist leaves the directory unchanged
/// (a no-op success), and after create then delete of the same name the vault
/// no longer exists.
pub proof fn lemma_repository_idempotence(store: Set<Seq<char>>, name: Seq<char>)
    ensures
        !store_has(store, name) ==> store_delete(store, name) == store,
        !store_has(store_delete(store_create(store, name), name), name),
{
    if !store_has(store, name) {
        assert(store_delete(store, name) =~= store);
    }
}

/// Law: creating or deleting one vault leaves every other name untouched.
pub proof fn lemma_name_isolation(store: Set<Seq<char>>, a: Seq<char>, b: Seq<char>)
    requires
        a != b,
    ensures
        store_has(store_create(store, a), b) == store_has(store, b),
        store_has(store_delete(store, a), b) == store_has(store, b),
{
    lemma_vault_path_injective(a, b);
}

proof fn lemma_seq_concat_contains<A>(a: Seq<A>, b: Seq<A>, x: A)
    ensures
        (a + b).contains(x) <==> a.contains(x) || b.contains(x),
{
    if a.contains(x) {
        let i = choose|i: int| 0 <= i < a.len() && a[i] == x;
        assert((a + b)[i] == x);
    }
    if b.contains(x) {
        let i = choose|i: int| 0 <= i < b.len() && b[i] == x;
        assert((a + b)[a.len() + i] == x);
    }
    if (a + b).contains(x) {
        let i = choose|i: int| 0 <= i < (a + b).len() && (a + b)[i] == x;
        if i < a.len() {
            assert(a[i] == x);
        } else {
            assert(b[i - a.len()] == x);
        }
    }
}

/// Law: a directory listing yields a logical name exactly when the listing
/// holds that name's vault file, whatever the enumeration order; together
/// with `lemma_name_isolation`, listing after creating two vaults returns
/// exactly their two names in either call order.
pub proof fn lemma_listing_names(entries: Seq<Seq<char>>, name: Seq<char>)
    ensures
        listed_names(entries).contains(name) <==> entries.contains(vault_file_name(name)),
    decreases entries.len(),
{
    lemma_parse_file_name(name);
    if entries.len() == 0 {
        assert(!entries.contains(vault_file_name(name)));
    } else {
        let pre = entries.drop_last();
        let lastn = entries.last();
        lemma_listing_names(pre, name);
        lemma_parse_exact(lastn, name);
        let tail = (match parse_vault_file(lastn) {
            Some(n) => seq![n],
            None => Seq::<Seq<char>>::empty(),
        });
        lemma_seq_concat_contains(listed_names(pre), tail, name);
        assert(tail.contains(name) <==> lastn == vault_file_name(name)) by {
            if tail.contains(name) {
                assert(tail[0] == name);
            }
            if parse_vault_file(lastn) == Some(name) {
                assert(tail[0] == name);
            }
        }
        assert(entries =~= pre + seq![lastn]);
        lemma_seq_concat_contains(pre, seq![lastn], vault_file_name(name));
        assert(seq![lastn].contains(vault_file_name(name)) <==> lastn == vault_file_name(name))
            by {
            if seq![lastn].contains(vault_file_name(name)) {
                assert(seq![lastn][0] == vault_file_name(name));
            } else {
                if lastn == vault_file_name(name) {
                    assert(seq![lastn][0] == vault_file_name(name));
                }
            }
        }
    }
}

} // verus!
