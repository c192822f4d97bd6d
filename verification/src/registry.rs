//! The register of imported databases.
use vstd::prelude::*;
use crate::text::{lowercase, string_of, to_lowercase};

verus! {

/// The kinds of database that can be imported.
#[derive(PartialEq, Eq, Structural, Clone, Copy, Debug)]
pub enum DatabaseKind {
    Ecoinvent,
}

/// A database to import: its kind, version and the path of its files.
#[derive(Debug)]
pub struct ImportDatabaseArgs {
    pub version: String,
    pub path: String,
    pub kind: DatabaseKind,
}

/// A database to remove, by its kind and version.
#[derive(Debug)]
pub struct RemoveDatabaseArgs {
    pub version: String,
    pub kind: DatabaseKind,
}

/// `d` is the database of this kind and version.
pub open spec fn is_database(d: ImportDatabaseArgs, kind: DatabaseKind, version: Seq<char>) -> bool {
    d.kind == kind && d.version@ == version
}

/// The position of the first registered database of this kind and
/// version.
pub open spec fn first_database(ds: Seq<ImportDatabaseArgs>, kind: DatabaseKind, version: Seq<char>) -> Option<int> {
    if exists|i: int| 0 <= i < ds.len() && is_database(#[trigger] ds[i], kind, version) {
        Some(
            choose|i: int|
                0 <= i < ds.len() && is_database(#[trigger] ds[i], kind, version) && forall|j: int|
                    0 <= j < i ==> !is_database(#[trigger] ds[j], kind, version),
        )
    } else {
        None
    }
}

/// The position of the first database of `databases` with this kind and
/// version, if one is registered.
pub fn find_database(databases: &Vec<ImportDatabaseArgs>, kind: DatabaseKind, version: &String) -> (r:
    Option<usize>)
    ensures
        match r {
            Some(i) => {
                &&& i < databases@.len()
                &&& is_database(databases@[i as int], kind, version@)
                &&& forall|j: int| 0 <= j < i ==> !is_database(#[trigger] databases@[j], kind, version@)
            },
            None => forall|j: int|
                0 <= j < databases@.len() ==> !is_database(#[trigger] databases@[j], kind, version@),
        },
        r matches Some(i) ==> first_database(databases@, kind, version@) == Some(i as int),
        r is None ==> first_database(databases@, kind, version@) is None,
{
    let mut i: usize = 0;
    while i < databases.len()
        invariant
            i <= databases@.len(),
            forall|j: int| 0 <= j < i ==> !is_database(#[trigger] databases@[j], kind, version@),
        decreases databases@.len() - i,
    {
        if databases[i].kind == kind && databases[i].version == *version {
            proof {
                let k = choose|k: int|
                    0 <= k < databases@.len() && is_database(#[trigger] databases@[k], kind, version@)
                        && forall|j: int| 0 <= j < k ==> !is_database(#[trigger] databases@[j], kind, version@);
                if k < i {
                    assert(!is_database(databases@[k], kind, version@));
                }
                if k > i {
                    assert(!is_database(databases@[i as int], kind, version@));
                }
            }
            return Some(i);
        }
        i = i + 1;
    }
    None
}

/// Adds `infos` to the register unless a database of the same kind and
/// version is there already; returns whether it was added.
pub fn register_database(databases: &mut Vec<ImportDatabaseArgs>, infos: ImportDatabaseArgs) -> (r: bool)
    ensures
        r == (first_database(old(databases)@, infos.kind, infos.version@) is None),
        r ==> final(databases)@ == old(databases)@.push(infos),
        !r ==> final(databases)@ == old(databases)@,
{
    match find_database(databases, infos.kind, &infos.version) {
        Some(_) => false,
        None => {
            databases.push(infos);
            true
        },
    }
}

/// Removes the first database of this kind and version from the register;
/// returns whether one was there.
pub fn unregister_database(databases: &mut Vec<ImportDatabaseArgs>, kind: DatabaseKind, version: &String) -> (r: bool)
    ensures
        match first_database(old(databases)@, kind, version@) {
            Some(i) => r && final(databases)@ == old(databases)@.remove(i),
            None => !r && final(databases)@ == old(databases)@,
        },
{
    match find_database(databases, kind, version) {
        Some(index) => {
            databases.remove(index);
            true
        },
        None => false,
    }
}

/// Removing a database undoes its registration: registering a database
/// that was not registered, then removing it, leaves the register as it
/// was, and once registered it is found.
pub proof fn law_unregister_undoes_register(ds: Seq<ImportDatabaseArgs>, infos: ImportDatabaseArgs)
    requires
        first_database(ds, infos.kind, infos.version@) is None,
    ensures
        first_database(ds.push(infos), infos.kind, infos.version@) == Some(ds.len() as int),
        ds.push(infos).remove(ds.len() as int) == ds,
{
    let s = ds.push(infos);
    assert(is_database(s[ds.len() as int], infos.kind, infos.version@));
    assert forall|j: int| 0 <= j < ds.len() implies !is_database(#[trigger] s[j], infos.kind, infos.version@) by {
        assert(s[j] == ds[j]);
        if is_database(ds[j], infos.kind, infos.version@) {
            assert(exists|i: int| 0 <= i < ds.len() && is_database(#[trigger] ds[i], infos.kind, infos.version@));
        }
    }
    let k = choose|k: int|
        0 <= k < s.len() && is_database(#[trigger] s[k], infos.kind, infos.version@) && forall|j: int|
            0 <= j < k ==> !is_database(#[trigger] s[j], infos.kind, infos.version@);
    if k < ds.len() {
        assert(!is_database(s[k], infos.kind, infos.version@));
    }
    assert(s.remove(ds.len() as int) =~= ds);
}

/// The kind of database that a database name designates, whatever its
/// case: only `ecoinvent` is supported.
pub open spec fn kind_named(name: Seq<char>) -> Option<DatabaseKind> {
    if lowercase(name) == "ecoinvent"@ {
        Some(DatabaseKind::Ecoinvent)
    } else {
        None
    }
}

/// The kind of database named `name`, whatever its case; `None` for a
/// database that is not supported.
pub fn database_kind(name: &str) -> (r: Option<DatabaseKind>)
    ensures
        r == kind_named(name@),
{
    let lower = to_lowercase(name);
    if lower == string_of("ecoinvent") {
        Some(DatabaseKind::Ecoinvent)
    } else {
        None
    }
}

} // verus!
