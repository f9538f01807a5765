//! The Windows readers: the values of the Run keys, and the files of the
//! user's Startup folder.
use super::deletion::{runs, DeletionError, DeletionStep, ExternalCommand, Operation};
use super::raw::{DirEntry, RegistryValue};
use crate::text::{opt_view, views};
use vstd::prelude::*;

verus! {

/// The Windows startup mechanisms.
#[derive(Clone, Copy, Debug, PartialEq, Eq, Structural)]
pub enum StartupType {
    /// A value of a Run key.
    Registry,
    /// A file in the Startup folder.
    StartupFolder,
}

/// A Windows startup entry.
#[derive(Debug)]
pub struct StartupItem {
    /// The value name, or the file name.
    pub label: String,
    /// The value's data (a command line), or the file's path.
    pub path: Option<String>,
    pub item_type: StartupType,
}

impl View for StartupItem {
    type V = (Seq<char>, Option<Seq<char>>, StartupType);

    open spec fn view(&self) -> Self::V {
        (self.label@, opt_view(self.path), self.item_type)
    }
}

/// The views of a list of items.
pub open spec fn item_views(v: Seq<StartupItem>) -> Seq<(Seq<char>, Option<Seq<char>>, StartupType)> {
    v.map_values(|x: StartupItem| x@)
}

/// The path of the Run key under a hive, as the readers open it.
pub open spec fn run_key_spec() -> Seq<char> {
    "Software\\Microsoft\\Windows\\CurrentVersion\\Run"@
}

/// The path of the Run key under a hive, to be read under the current
/// user's hive and under the machine's, in that order.
pub fn run_key_path() -> (r: String)
    ensures
        r@ == run_key_spec(),
{
    "Software\\Microsoft\\Windows\\CurrentVersion\\Run".to_string()
}

/// The records of the values of one Run key: one per value whose data is a
/// string, in order.
pub open spec fn run_value_items(values: Seq<RegistryValue>) -> Seq<
    (Seq<char>, Option<Seq<char>>, StartupType),
>
    decreases values.len(),
{
    if values.len() == 0 {
        Seq::empty()
    } else {
        let rest = run_value_items(values.drop_last());
        match values.last().data {
            Some(d) => rest.push((values.last().name@, Some(d@), StartupType::Registry)),
            None => rest,
        }
    }
}

/// The records of the Run keys, in order; a key that could not be opened
/// (`None`) contributes nothing.
pub open spec fn run_key_items(keys: Seq<Option<Vec<RegistryValue>>>) -> Seq<
    (Seq<char>, Option<Seq<char>>, StartupType),
>
    decreases keys.len(),
{
    if keys.len() == 0 {
        Seq::empty()
    } else {
        let rest = run_key_items(keys.drop_last());
        match keys.last() {
            Some(values) => rest + run_value_items(values@),
            None => rest,
        }
    }
}

/// The records of the Startup folder's entries: one per regular file with a
/// readable name, in the order of the listing.
pub open spec fn folder_entry_items(entries: Seq<DirEntry>) -> Seq<
    (Seq<char>, Option<Seq<char>>, StartupType),
>
    decreases entries.len(),
{
    if entries.len() == 0 {
        Seq::empty()
    } else {
        let rest = folder_entry_items(entries.drop_last());
        let e = entries.last();
        match e.file_name {
            Some(n) => if e.is_file {
                rest.push((n@, Some(e.path@), StartupType::StartupFolder))
            } else {
                rest
            },
            None => rest,
        }
    }
}

/// The records of the Startup folder's listing; a folder that is not known
/// or could not be listed (`None`) contributes nothing.
pub open spec fn folder_items(listing: Option<Vec<DirEntry>>) -> Seq<
    (Seq<char>, Option<Seq<char>>, StartupType),
> {
    match listing {
        Some(entries) => folder_entry_items(entries@),
        None => Seq::empty(),
    }
}

fn push_run_values(items: &mut Vec<StartupItem>, values: &Vec<RegistryValue>)
    ensures
        item_views(final(items)@) == item_views(old(items)@) + run_value_items(values@),
{
    let ghost base = item_views(items@);
    let mut j: usize = 0;
    while j < values.len()
        invariant
            j <= values@.len(),
            item_views(items@) == base + run_value_items(values@.subrange(0, j as int)),
        decreases values.len() - j,
    {
        let v = &values[j];
        proof {
            let s = values@.subrange(0, j + 1);
            assert(s.drop_last() =~= values@.subrange(0, j as int));
            assert(s.last() == *v);
        }
        if let Some(d) = &v.data {
            let ghost before = items@;
            items.push(
                StartupItem {
                    label: v.name.clone(),
                    path: Some(d.clone()),
                    item_type: StartupType::Registry,
                },
            );
            proof {
                let x = (v.name@, Some(d@), StartupType::Registry);
                assert(items@.drop_last() == before);
                assert(item_views(items@) =~= item_views(before).push(x));
                assert((base + run_value_items(values@.subrange(0, j as int))).push(x) =~= base
                    + run_value_items(values@.subrange(0, j as int)).push(x));
            }
        }
        j = j + 1;
    }
    proof {
        assert(values@.subrange(0, j as int) =~= values@);
    }
}

fn push_folder_entries(items: &mut Vec<StartupItem>, entries: &Vec<DirEntry>)
    ensures
        item_views(final(items)@) == item_views(old(items)@) + folder_entry_items(entries@),
{
    let ghost base = item_views(items@);
    let mut j: usize = 0;
    while j < entries.len()
        invariant
            j <= entries@.len(),
            item_views(items@) == base + folder_entry_items(entries@.subrange(0, j as int)),
        decreases entries.len() - j,
    {
        let e = &entries[j];
        proof {
            let s = entries@.subrange(0, j + 1);
            assert(s.drop_last() =~= entries@.subrange(0, j as int));
            assert(s.last() == *e);
        }
        if let Some(name) = &e.file_name {
            if e.is_file {
                let ghost before = items@;
                items.push(
                    StartupItem {
                        label: name.clone(),
                        path: Some(e.path.clone()),
                        item_type: StartupType::StartupFolder,
                    },
                );
                proof {
                    let x = (name@, Some(e.path@), StartupType::StartupFolder);
                    assert(items@.drop_last() == before);
                    assert(item_views(items@) =~= item_views(before).push(x));
                    assert((base + folder_entry_items(entries@.subrange(0, j as int))).push(x)
                        =~= base + folder_entry_items(entries@.subrange(0, j as int)).push(x));
                }
            }
        }
        j = j + 1;
    }
    proof {
        assert(entries@.subrange(0, j as int) =~= entries@);
    }
}

/// All Windows records: those of the Run keys (as read under the current
/// user's hive and the machine's, see `run_key_path`), then those of the
/// Startup folder.
pub fn get_startup_apps(run_keys: &Vec<Option<Vec<RegistryValue>>>, startup_folder: &Option<Vec<DirEntry>>) -> (items: Vec<StartupItem>)
    ensures
        item_views(items@) == run_key_items(run_keys@) + folder_items(*startup_folder),
{
    let mut items: Vec<StartupItem> = Vec::new();
    let mut i: usize = 0;
    while i < run_keys.len()
        invariant
            i <= run_keys@.len(),
            item_views(items@) == run_key_items(run_keys@.subrange(0, i as int)),
        decreases run_keys.len() - i,
    {
        proof {
            assert(run_keys@.subrange(0, i + 1).drop_last() =~= run_keys@.subrange(0, i as int));
        }
        if let Some(values) = &run_keys[i] {
            push_run_values(&mut items, values);
        }
        i = i + 1;
    }
    proof {
        assert(run_keys@.subrange(0, i as int) =~= run_keys@);
    }
    let ghost from_keys = item_views(items@);
    if let Some(entries) = startup_folder {
        push_folder_entries(&mut items, entries);
    } else {
        assert(item_views(items@) =~= from_keys + Seq::empty());
    }
    items
}

/// The Run key of the current user, as the registry tool names it; only
/// there are values deleted.
pub open spec fn user_run_key() -> Seq<char> {
    "HKEY_CURRENT_USER\\SOFTWARE\\Microsoft\\Windows\\CurrentVersion\\Run"@
}

/// `s` is the first step of removing the Windows entry `item`: for a Run
/// value, `reg delete <user Run key> /v <label> /f`; for a Startup folder
/// file, removing the file at its path. A Startup folder record without path
/// cannot be removed.
pub open spec fn starts_deletion(item: (Seq<char>, Option<Seq<char>>, StartupType), s: DeletionStep) -> bool {
    match item.2 {
        StartupType::Registry => match s {
            DeletionStep::Perform(Operation::DeleteRunValue { command, name }) => name@ == item.0
                && runs(command, "reg"@, seq!["delete"@, user_run_key(), "/v"@, item.0, "/f"@]),
            _ => false,
        },
        StartupType::StartupFolder => match item.1 {
            Some(p) => match s {
                DeletionStep::Perform(Operation::RemoveFile { path, unloaded }) => path@ == p
                    && !unloaded,
                _ => false,
            },
            None => match s {
                DeletionStep::Finished(Err(DeletionError::MissingPath { label })) => label@
                    == item.0,
                _ => false,
            },
        },
    }
}

/// The first step of removing `item` from its backing store; the caller
/// performs it and continues with `resume_deletion`. A value that was read
/// under the machine's hive is looked up under the user's, where deleting it
/// fails and the failure is reported.
pub fn delete_startup_item(item: &StartupItem) -> (s: DeletionStep)
    ensures
        starts_deletion(item@, s),
{
    match item.item_type {
        StartupType::Registry => {
            let mut args: Vec<String> = Vec::new();
            args.push("delete".to_string());
            args.push("HKEY_CURRENT_USER\\SOFTWARE\\Microsoft\\Windows\\CurrentVersion\\Run".to_string());
            args.push("/v".to_string());
            args.push(item.label.clone());
            args.push("/f".to_string());
            let command = ExternalCommand { program: "reg".to_string(), args };
            proof {
                assert(views(command.args@) =~= seq![
                    "delete"@,
                    user_run_key(),
                    "/v"@,
                    item.label@,
                    "/f"@,
                ]);
            }
            DeletionStep::Perform(Operation::DeleteRunValue { command, name: item.label.clone() })
        },
        StartupType::StartupFolder => match &item.path {
            Some(p) => DeletionStep::Perform(Operation::RemoveFile { path: p.clone(), unloaded: false }),
            None => DeletionStep::Finished(
                Err(DeletionError::MissingPath { label: item.label.clone() }),
            ),
        },
    }
}

proof fn lemma_run_value_items_concat(a: Seq<RegistryValue>, b: Seq<RegistryValue>)
    ensures
        run_value_items(a + b) == run_value_items(a) + run_value_items(b),
    decreases b.len(),
{
    if b.len() == 0 {
        assert(a + b =~= a);
        assert(run_value_items(a) + run_value_items(b) =~= run_value_items(a));
    } else {
        lemma_run_value_items_concat(a, b.drop_last());
        assert((a + b).drop_last() =~= a + b.drop_last());
        assert((a + b).last() == b.last());
        match b.last().data {
            Some(d) => {
                let x = (b.last().name@, Some(d@), StartupType::Registry);
                assert((run_value_items(a) + run_value_items(b.drop_last())).push(x)
                    =~= run_value_items(a) + run_value_items(b.drop_last()).push(x));
            },
            None => {},
        }
    }
}

/// A Run value whose data is not a string gives no record, and the other
/// values of the key give theirs as if it were not there.
pub proof fn lemma_non_string_value_skipped(values: Seq<RegistryValue>, i: int)
    requires
        0 <= i < values.len(),
        values[i].data is None,
    ensures
        run_value_items(values) == run_value_items(values.remove(i)),
{
    let a = values.subrange(0, i);
    let c = values.subrange(i + 1, values.len() as int);
    let skipped = seq![values[i]];
    assert(values =~= a + skipped + c);
    assert(values.remove(i) =~= a + c);
    lemma_run_value_items_concat(a + skipped, c);
    lemma_run_value_items_concat(a, skipped);
    lemma_run_value_items_concat(a, c);
    assert(skipped.drop_last() =~= Seq::<RegistryValue>::empty());
    assert(skipped.last().data is None);
    assert(run_value_items(skipped.drop_last()) =~= Seq::empty());
    assert(run_value_items(skipped) =~= Seq::empty());
    assert(run_value_items(a) + run_value_items(skipped) =~= run_value_items(a));
}

} // verus!
