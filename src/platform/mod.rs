//! The uniform startup record, the aggregation of the platform readers and
//! the deletion dispatcher.
pub mod deletion;
pub mod macos;
pub mod raw;
pub mod windows;

use deletion::{resumes, runs, DeletionError, DeletionStep, Operation, Outcome};
use raw::{CommandOutput, DirEntry, RegistryValue};
use crate::text::opt_view;
use vstd::prelude::*;

verus! {

/// The kind of backing store a record came from; it alone decides how the
/// record is removed.
#[derive(Clone, Copy, Debug, PartialEq, Eq, Structural)]
pub enum StartupType {
    /// An Apple-desktop launch job description file.
    Plist,
    /// An Apple-desktop login item.
    LoginItem,
    /// A value of a Windows Run key.
    Registry,
    /// A file in the Windows Startup folder.
    StartupFolder,
}

/// The uniform startup record.
#[derive(Debug)]
pub struct StartupItem {
    /// The file name, the value name, or the login item's name.
    pub label: String,
    /// The file's path or the value's data; login items have none.
    pub path: Option<String>,
    pub item_type: StartupType,
}

impl View for StartupItem {
    type V = (Seq<char>, Option<Seq<char>>, StartupType);

    open spec fn view(&self) -> Self::V {
        (self.label@, opt_view(self.path), self.item_type)
    }
}

/// The views of a list of items.
pub open spec fn item_views(v: Seq<StartupItem>) -> Seq<(Seq<char>, Option<Seq<char>>, StartupType)> {
    v.map_values(|x: StartupItem| x@)
}

/// The uniform kind of an Apple-desktop kind.
pub open spec fn macos_kind(k: macos::StartupType) -> StartupType {
    match k {
        macos::StartupType::Plist => StartupType::Plist,
        macos::StartupType::LoginItem => StartupType::LoginItem,
    }
}

/// The uniform kind of a Windows kind.
pub open spec fn windows_kind(k: windows::StartupType) -> StartupType {
    match k {
        windows::StartupType::Registry => StartupType::Registry,
        windows::StartupType::StartupFolder => StartupType::StartupFolder,
    }
}

/// Apple-desktop records as uniform records: label and path kept, kind
/// carried over.
pub open spec fn normalized_macos(v: Seq<(Seq<char>, Option<Seq<char>>, macos::StartupType)>) -> Seq<
    (Seq<char>, Option<Seq<char>>, StartupType),
> {
    v.map_values(
        |x: (Seq<char>, Option<Seq<char>>, macos::StartupType)| (x.0, x.1, macos_kind(x.2)),
    )
}

/// Windows records as uniform records: label and path kept, kind carried
/// over.
pub open spec fn normalized_windows(v: Seq<(Seq<char>, Option<Seq<char>>, windows::StartupType)>) -> Seq<
    (Seq<char>, Option<Seq<char>>, StartupType),
> {
    v.map_values(
        |x: (Seq<char>, Option<Seq<char>>, windows::StartupType)| (x.0, x.1, windows_kind(x.2)),
    )
}

fn clone_path(p: &Option<String>) -> (r: Option<String>)
    ensures
        opt_view(r) == opt_view(*p),
{
    match p {
        Some(t) => Some(t.clone()),
        None => None,
    }
}

/// The uniform records of Apple-desktop records, in order.
pub fn normalize_macos(items: &Vec<macos::StartupItem>) -> (r: Vec<StartupItem>)
    ensures
        item_views(r@) == normalized_macos(macos::item_views(items@)),
{
    let mut r: Vec<StartupItem> = Vec::new();
    let mut i: usize = 0;
    while i < items.len()
        invariant
            i <= items@.len(),
            item_views(r@) =~= normalized_macos(macos::item_views(items@.subrange(0, i as int))),
        decreases items.len() - i,
    {
        let it = &items[i];
        let item_type = match it.item_type {
            macos::StartupType::Plist => StartupType::Plist,
            macos::StartupType::LoginItem => StartupType::LoginItem,
        };
        let ghost before = r@;
        r.push(StartupItem { label: it.label.clone(), path: clone_path(&it.path), item_type });
        proof {
            assert(r@.drop_last() == before);
            assert(item_views(r@) =~= item_views(before).push(
                (it@.0, it@.1, macos_kind(it@.2)),
            ));
            assert(macos::item_views(items@.subrange(0, i + 1)) =~= macos::item_views(
                items@.subrange(0, i as int),
            ).push(it@));
        }
        i = i + 1;
    }
    proof {
        assert(items@.subrange(0, i as int) =~= items@);
    }
    r
}

/// The uniform records of Windows records, in order.
pub fn normalize_windows(items: &Vec<windows::StartupItem>) -> (r: Vec<StartupItem>)
    ensures
        item_views(r@) == normalized_windows(windows::item_views(items@)),
{
    let mut r: Vec<StartupItem> = Vec::new();
    let mut i: usize = 0;
    while i < items.len()
        invariant
            i <= items@.len(),
            item_views(r@) =~= normalized_windows(
                windows::item_views(items@.subrange(0, i as int)),
            ),
        decreases items.len() - i,
    {
        let it = &items[i];
        let item_type = match it.item_type {
            windows::StartupType::Registry => StartupType::Registry,
            windows::StartupType::StartupFolder => StartupType::StartupFolder,
        };
        let ghost before = r@;
        r.push(StartupItem { label: it.label.clone(), path: clone_path(&it.path), item_type });
        proof {
            assert(r@.drop_last() == before);
            assert(item_views(r@) =~= item_views(before).push(
                (it@.0, it@.1, windows_kind(it@.2)),
            ));
            assert(windows::item_views(items@.subrange(0, i + 1)) =~= windows::item_views(
                items@.subrange(0, i as int),
            ).push(it@));
        }
        i = i + 1;
    }
    proof {
        assert(items@.subrange(0, i as int) =~= items@);
    }
    r
}

/// The operating systems the readers know.
#[derive(Clone, Copy, Debug, PartialEq, Eq, Structural)]
pub enum Platform {
    MacOs,
    Windows,
    /// Any other system: it has no startup sources here.
    Unsupported,
}

/// The platform of an operating system name as `std::env::consts::OS`
/// gives it.
pub open spec fn platform_named(os: Seq<char>) -> Platform {
    if os == "macos"@ {
        Platform::MacOs
    } else if os == "windows"@ {
        Platform::Windows
    } else {
        Platform::Unsupported
    }
}

/// The platform of the operating system named `os`.
pub fn platform_of(os: &str) -> (p: Platform)
    ensures
        p == platform_named(os@),
{
    let name = os.to_string();
    if name == "macos".to_string() {
        Platform::MacOs
    } else if name == "windows".to_string() {
        Platform::Windows
    } else {
        Platform::Unsupported
    }
}

/// What was read from the backing stores of one platform; the sources of
/// the other platforms are left empty.
#[derive(Debug)]
pub struct Sources {
    /// The listings of `macos::launch_dirs`, in order; `None` for a
    /// directory that does not exist or could not be listed.
    pub launch_dirs: Vec<Option<Vec<DirEntry>>>,
    /// The outcome of `macos::login_items_query`; `None` where it could not
    /// be run.
    pub login_items: Option<CommandOutput>,
    /// The values of the Run key (see `windows::run_key_path`) under the
    /// current user's hive, then under the machine's; `None` for a key that
    /// could not be opened.
    pub run_keys: Vec<Option<Vec<RegistryValue>>>,
    /// The listing of the user's Startup folder; `None` where the folder is
    /// not known or could not be listed.
    pub startup_folder: Option<Vec<DirEntry>>,
}

/// The uniform records of a platform's sources: on the Apple desktop the
/// launch job files, then the login items; on Windows the Run values, then
/// the Startup folder files; on any other system none.
pub open spec fn platform_items(platform: Platform, sources: Sources) -> Seq<
    (Seq<char>, Option<Seq<char>>, StartupType),
> {
    match platform {
        Platform::MacOs => normalized_macos(
            macos::plist_dir_items(sources.launch_dirs@) + macos::login_output_items(
                sources.login_items,
            ),
        ),
        Platform::Windows => normalized_windows(
            windows::run_key_items(sources.run_keys@) + windows::folder_items(
                sources.startup_folder,
            ),
        ),
        Platform::Unsupported => Seq::empty(),
    }
}

/// All startup records of `platform`, read from `sources`. An unsupported
/// platform has none, and that is no error.
pub fn get_all_startup_items(platform: Platform, sources: &Sources) -> (items: Vec<StartupItem>)
    ensures
        item_views(items@) == platform_items(platform, *sources),
        platform == Platform::Unsupported ==> items@.len() == 0,
{
    match platform {
        Platform::MacOs => {
            let found = macos::get_all_startup_items(&sources.launch_dirs, &sources.login_items);
            normalize_macos(&found)
        },
        Platform::Windows => {
            let found = windows::get_startup_apps(&sources.run_keys, &sources.startup_folder);
            normalize_windows(&found)
        },
        Platform::Unsupported => {
            let items: Vec<StartupItem> = Vec::new();
            assert(item_views(items@) =~= Seq::empty());
            items
        },
    }
}

/// `s` is the first step of removing `item`, chosen by its kind alone: the
/// procedure of the Apple-desktop reader for launch job files and login
/// items, that of the Windows reader for Run values and Startup folder
/// files.
pub open spec fn deletion_start(item: (Seq<char>, Option<Seq<char>>, StartupType), s: DeletionStep) -> bool {
    match item.2 {
        StartupType::Plist => macos::starts_deletion((item.0, item.1, macos::StartupType::Plist), s),
        StartupType::LoginItem => macos::starts_deletion(
            (item.0, item.1, macos::StartupType::LoginItem),
            s,
        ),
        StartupType::Registry => windows::starts_deletion(
            (item.0, item.1, windows::StartupType::Registry),
            s,
        ),
        StartupType::StartupFolder => windows::starts_deletion(
            (item.0, item.1, windows::StartupType::StartupFolder),
            s,
        ),
    }
}

/// The first step of removing `item` from the backing store its kind names.
/// The caller performs each `Perform` step, hands its outcome to
/// `resume_deletion`, and stops at `Finished`.
pub fn delete(item: &StartupItem) -> (s: DeletionStep)
    ensures
        deletion_start(item@, s),
{
    match item.item_type {
        StartupType::Plist => macos::delete_startup_item(
            &macos::StartupItem {
                label: item.label.clone(),
                path: clone_path(&item.path),
                item_type: macos::StartupType::Plist,
            },
        ),
        StartupType::LoginItem => macos::delete_startup_item(
            &macos::StartupItem {
                label: item.label.clone(),
                path: clone_path(&item.path),
                item_type: macos::StartupType::LoginItem,
            },
        ),
        StartupType::Registry => windows::delete_startup_item(
            &windows::StartupItem {
                label: item.label.clone(),
                path: clone_path(&item.path),
                item_type: windows::StartupType::Registry,
            },
        ),
        StartupType::StartupFolder => windows::delete_startup_item(
            &windows::StartupItem {
                label: item.label.clone(),
                path: clone_path(&item.path),
                item_type: windows::StartupType::StartupFolder,
            },
        ),
    }
}

/// Removing a launch job file at `path` first unloads the job with
/// `launchctl unload <path>`; once that succeeds the next step removes the
/// file at that same path, and if it fails the deletion ends with
/// `UnloadFailed` and the file is never removed.
pub proof fn lemma_plist_unload_then_remove(
    item: StartupItem,
    path: String,
    first: Operation,
    o: Outcome,
    next: DeletionStep,
)
    requires
        item.item_type == StartupType::Plist,
        item.path == Some(path),
        deletion_start(item@, DeletionStep::Perform(first)),
        resumes(first, o, next),
    ensures
        first matches Operation::UnloadJob { command, path: p } && p@ == path@ && runs(
            command,
            "launchctl"@,
            seq!["unload"@, path@],
        ),
        o is Succeeded ==> (next matches DeletionStep::Perform(
            Operation::RemoveFile { path: p, unloaded },
        ) && p@ == path@ && unloaded),
        !(o is Succeeded) ==> (next matches DeletionStep::Finished(
            Err(DeletionError::UnloadFailed { path: p, .. }),
        ) && p@ == path@),
{
}

} // verus!
