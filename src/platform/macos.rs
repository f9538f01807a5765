//! The Apple-desktop readers: launch job description files in the launch
//! directories, and the login items of the automation facility.
use super::deletion::{runs, DeletionError, DeletionStep, ExternalCommand, Operation};
use super::raw::{CommandOutput, DirEntry};
use crate::text::{
    has_plist_extension, is_plist_name, list_names, lossy_text, opt_view, split_names,
    utf8_lossy_text, views,
};
use vstd::prelude::*;
use vstd::string::StringExecFns;

verus! {

/// The Apple-desktop startup mechanisms.
#[derive(Clone, Copy, Debug, PartialEq, Eq, Structural)]
pub enum StartupType {
    /// A launch job description file (a plist agent or daemon).
    Plist,
    /// A login item.
    LoginItem,
}

/// An Apple-desktop startup entry.
#[derive(Debug)]
pub struct StartupItem {
    /// The file name, or the login item's name.
    pub label: String,
    /// The file's path; login items have none.
    pub path: Option<String>,
    pub item_type: StartupType,
}

impl View for StartupItem {
    type V = (Seq<char>, Option<Seq<char>>, StartupType);

    open spec fn view(&self) -> Self::V {
        (self.label@, opt_view(self.path), self.item_type)
    }
}

/// The views of a list of items.
pub open spec fn item_views(v: Seq<StartupItem>) -> Seq<(Seq<char>, Option<Seq<char>>, StartupType)> {
    v.map_values(|x: StartupItem| x@)
}

/// What `~` expands to in a path: the home directory where it stands alone
/// or before a `/`, and where a home directory is known.
pub open spec fn home_expanded(p: Seq<char>, home: Option<Seq<char>>) -> Seq<char> {
    if p.len() > 0 && p[0] == '~' && (p.len() == 1 || p[1] == '/') && home is Some {
        home->Some_0 + p.drop_first()
    } else {
        p
    }
}

/// The view of an optional string slice.
pub open spec fn opt_str_view(o: Option<&str>) -> Option<Seq<char>> {
    match o {
        Some(t) => Some(t@),
        None => None,
    }
}

/// Relies on `shellexpand::tilde_with_context`: a leading `~` alone or before
/// `/` becomes the given home directory, if there is one; any other path
/// comes back unchanged (`~\` is also expanded where the crate is built for
/// Windows, so nothing is said of it).
#[verifier::external_body]
fn expand_home(path: &str, home: Option<&str>) -> (r: String)
    ensures
        !(path@.len() > 1 && path@[0] == '~' && path@[1] == '\\') ==> r@ == home_expanded(
            path@,
            opt_str_view(home),
        ),
{
    shellexpand::tilde_with_context(path, || home).into_owned()
}

/// The directories that hold launch job description files, in the order they
/// are scanned: the user's launch agents, the system-wide launch agents, and
/// the system's launch daemons, with `~` expanded to `home`.
pub fn launch_dirs(home: Option<&str>) -> (r: Vec<String>)
    ensures
        views(r@) == seq![
            home_expanded("~/Library/LaunchAgents"@, opt_str_view(home)),
            "/Library/LaunchAgents"@,
            "/Library/LaunchDaemons"@,
        ],
{
    let user = "~/Library/LaunchAgents";
    proof {
        reveal_strlit("~/Library/LaunchAgents");
    }
    let mut r: Vec<String> = Vec::new();
    r.push(expand_home(user, home));
    r.push("/Library/LaunchAgents".to_string());
    r.push("/Library/LaunchDaemons".to_string());
    proof {
        assert(views(r@) =~= seq![
            home_expanded("~/Library/LaunchAgents"@, opt_str_view(home)),
            "/Library/LaunchAgents"@,
            "/Library/LaunchDaemons"@,
        ]);
    }
    r
}

/// The records of the launch job files among the entries of one directory:
/// one for each regular file whose name has the extension `plist`, in the
/// order of the listing.
pub open spec fn plist_entry_items(entries: Seq<DirEntry>) -> Seq<
    (Seq<char>, Option<Seq<char>>, StartupType),
>
    decreases entries.len(),
{
    if entries.len() == 0 {
        Seq::empty()
    } else {
        let rest = plist_entry_items(entries.drop_last());
        let e = entries.last();
        match e.file_name {
            Some(n) => if e.is_file && has_plist_extension(n@) {
                rest.push((n@, Some(e.path@), StartupType::Plist))
            } else {
                rest
            },
            None => rest,
        }
    }
}

/// The records of the launch job files in the listings of the launch
/// directories, in order; a directory that could not be listed (`None`)
/// contributes nothing.
pub open spec fn plist_dir_items(listings: Seq<Option<Vec<DirEntry>>>) -> Seq<
    (Seq<char>, Option<Seq<char>>, StartupType),
>
    decreases listings.len(),
{
    if listings.len() == 0 {
        Seq::empty()
    } else {
        let rest = plist_dir_items(listings.drop_last());
        match listings.last() {
            Some(entries) => rest + plist_entry_items(entries@),
            None => rest,
        }
    }
}

/// The records of the launch job description files in the listings of the
/// launch directories (see `launch_dirs`).
pub fn get_startup_apps(listings: &Vec<Option<Vec<DirEntry>>>) -> (items: Vec<StartupItem>)
    ensures
        item_views(items@) == plist_dir_items(listings@),
{
    let mut items: Vec<StartupItem> = Vec::new();
    let mut i: usize = 0;
    while i < listings.len()
        invariant
            i <= listings@.len(),
            item_views(items@) == plist_dir_items(listings@.subrange(0, i as int)),
        decreases listings.len() - i,
    {
        proof {
            assert(listings@.subrange(0, i + 1).drop_last() =~= listings@.subrange(0, i as int));
        }
        if let Some(entries) = &listings[i] {
            let ghost base = item_views(items@);
            let mut j: usize = 0;
            while j < entries.len()
                invariant
                    j <= entries@.len(),
                    item_views(items@) == base + plist_entry_items(entries@.subrange(0, j as int)),
                decreases entries.len() - j,
            {
                let e = &entries[j];
                proof {
                    let s = entries@.subrange(0, j + 1);
                    assert(s.drop_last() =~= entries@.subrange(0, j as int));
                    assert(s.last() == *e);
                }
                if let Some(name) = &e.file_name {
                    if e.is_file && is_plist_name(name.as_str()) {
                        let ghost before = items@;
                        items.push(
                            StartupItem {
                                label: name.clone(),
                                path: Some(e.path.clone()),
                                item_type: StartupType::Plist,
                            },
                        );
                        proof {
                            assert(items@.last()@ == (name@, Some(e.path@), StartupType::Plist));
                            assert(plist_entry_items(entries@.subrange(0, j + 1))
                                == plist_entry_items(entries@.subrange(0, j as int)).push(
                                (name@, Some(e.path@), StartupType::Plist),
                            ));
                            let x = (name@, Some(e.path@), StartupType::Plist);
                            assert(items@.drop_last() == before);
                            assert(item_views(items@) =~= item_views(before).push(x));
                            assert((base + plist_entry_items(entries@.subrange(0, j as int))).push(
                                x,
                            ) =~= base + plist_entry_items(entries@.subrange(0, j as int)).push(
                                x,
                            ));
                        }
                    }
                }
                j = j + 1;
            }
            proof {
                assert(entries@.subrange(0, j as int) =~= entries@);
            }
        }
        i = i + 1;
    }
    proof {
        assert(listings@.subrange(0, i as int) =~= listings@);
    }
    items
}

/// Login item records for the given names, in order.
pub open spec fn login_records(names: Seq<Seq<char>>) -> Seq<
    (Seq<char>, Option<Seq<char>>, StartupType),
> {
    names.map_values(|n: Seq<char>| (n, None::<Seq<char>>, StartupType::LoginItem))
}

/// The automation script that lists the names of the login items.
pub open spec fn login_query_script() -> Seq<char> {
    "tell application \"System Events\" to get the name of every login item"@
}

/// The command that lists the login items: its output is the names,
/// separated by `", "`.
pub fn login_items_query() -> (c: ExternalCommand)
    ensures
        runs(c, "osascript"@, seq!["-e"@, login_query_script()]),
{
    let mut args: Vec<String> = Vec::new();
    args.push("-e".to_string());
    args.push("tell application \"System Events\" to get the name of every login item".to_string());
    let c = ExternalCommand { program: "osascript".to_string(), args };
    proof {
        assert(views(c.args@) =~= seq!["-e"@, login_query_script()]);
    }
    c
}

/// The login item records for the answer `text` of the login item query:
/// one per name in the list, in order, with no path.
pub fn login_items_from_text(text: &str) -> (items: Vec<StartupItem>)
    ensures
        item_views(items@) == login_records(list_names(text@)),
{
    let names = split_names(text);
    let mut items: Vec<StartupItem> = Vec::new();
    let mut i: usize = 0;
    while i < names.len()
        invariant
            i <= names@.len(),
            views(names@) == list_names(text@),
            item_views(items@) =~= login_records(views(names@.subrange(0, i as int))),
        decreases names.len() - i,
    {
        let ghost before = items@;
        items.push(
            StartupItem { label: names[i].clone(), path: None, item_type: StartupType::LoginItem },
        );
        proof {
            assert(items@.drop_last() == before);
            assert(item_views(items@) =~= item_views(before).push(
                (names@[i as int]@, None::<Seq<char>>, StartupType::LoginItem),
            ));
            assert(views(names@.subrange(0, i + 1)) =~= views(names@.subrange(0, i as int)).push(
                names@[i as int]@,
            ));
        }
        i = i + 1;
    }
    proof {
        assert(names@.subrange(0, i as int) =~= names@);
    }
    items
}

/// The login item records for the outcome of the login item query: those of
/// its output where it ran and succeeded (decoded as UTF-8, invalid sequences
/// replaced), and none where it could not run (`None`) or failed.
pub open spec fn login_output_items(output: Option<CommandOutput>) -> Seq<
    (Seq<char>, Option<Seq<char>>, StartupType),
> {
    match output {
        Some(o) => if o.success {
            login_records(list_names(utf8_lossy_text(o.stdout@)))
        } else {
            Seq::empty()
        },
        None => Seq::empty(),
    }
}

/// The login item records for the outcome of the login item query (see
/// `login_items_query`); a failed query gives none.
pub fn get_login_items(output: &Option<CommandOutput>) -> (items: Vec<StartupItem>)
    ensures
        item_views(items@) == login_output_items(*output),
{
    match output {
        Some(o) => if o.success {
            let text = lossy_text(&o.stdout);
            login_items_from_text(text.as_str())
        } else {
            Vec::new()
        },
        None => Vec::new(),
    }
}

/// All Apple-desktop records: the launch job files first, then the login
/// items.
pub fn get_all_startup_items(listings: &Vec<Option<Vec<DirEntry>>>, login: &Option<CommandOutput>) -> (items: Vec<StartupItem>)
    ensures
        item_views(items@) == plist_dir_items(listings@) + login_output_items(*login),
{
    let mut all = get_startup_apps(listings);
    let mut logins = get_login_items(login);
    let ghost a = all@;
    let ghost b = logins@;
    all.append(&mut logins);
    proof {
        assert(item_views(all@) =~= item_views(a) + item_views(b));
    }
    all
}

/// The script that removes the login item `name`.
pub open spec fn login_removal_script(name: Seq<char>) -> Seq<char> {
    "tell application \"System Events\" to delete login item \""@ + name + "\""@
}

/// `s` is the first step of removing the Apple-desktop entry `item`: for a
/// launch job file, unloading it with `launchctl unload <path>`; for a login
/// item, running the removal script on its name. A launch job record without
/// path cannot be removed.
pub open spec fn starts_deletion(item: (Seq<char>, Option<Seq<char>>, StartupType), s: DeletionStep) -> bool {
    match item.2 {
        StartupType::Plist => match item.1 {
            Some(p) => match s {
                DeletionStep::Perform(Operation::UnloadJob { command, path }) => path@ == p && runs(
                    command,
                    "launchctl"@,
                    seq!["unload"@, p],
                ),
                _ => false,
            },
            None => match s {
                DeletionStep::Finished(Err(DeletionError::MissingPath { label })) => label@
                    == item.0,
                _ => false,
            },
        },
        StartupType::LoginItem => match s {
            DeletionStep::Perform(Operation::RemoveLoginItem { command, name }) => name@ == item.0
                && runs(command, "osascript"@, seq!["-e"@, login_removal_script(item.0)]),
            _ => false,
        },
    }
}

/// The first step of removing `item` from its backing store; the caller
/// performs it and continues with `resume_deletion`.
pub fn delete_startup_item(item: &StartupItem) -> (s: DeletionStep)
    ensures
        starts_deletion(item@, s),
{
    match item.item_type {
        StartupType::Plist => match &item.path {
            Some(p) => {
                let mut args: Vec<String> = Vec::new();
                args.push("unload".to_string());
                args.push(p.clone());
                let command = ExternalCommand { program: "launchctl".to_string(), args };
                proof {
                    assert(views(command.args@) =~= seq!["unload"@, p@]);
                }
                DeletionStep::Perform(Operation::UnloadJob { command, path: p.clone() })
            },
            None => DeletionStep::Finished(
                Err(DeletionError::MissingPath { label: item.label.clone() }),
            ),
        },
        StartupType::LoginItem => {
            let mut script = String::from_str(
                "tell application \"System Events\" to delete login item \"",
            );
            script.append(item.label.as_str());
            script.append("\"");
            let mut args: Vec<String> = Vec::new();
            args.push("-e".to_string());
            args.push(script);
            let command = ExternalCommand { program: "osascript".to_string(), args };
            proof {
                assert(views(command.args@) =~= seq!["-e"@, login_removal_script(item.label@)]);
            }
            DeletionStep::Perform(
                Operation::RemoveLoginItem { command, name: item.label.clone() },
            )
        },
    }
}

proof fn lemma_plist_dir_items_concat(a: Seq<Option<Vec<DirEntry>>>, b: Seq<Option<Vec<DirEntry>>>)
    ensures
        plist_dir_items(a + b) == plist_dir_items(a) + plist_dir_items(b),
    decreases b.len(),
{
    if b.len() == 0 {
        assert(a + b =~= a);
        assert(plist_dir_items(a) + plist_dir_items(b) =~= plist_dir_items(a));
    } else {
        lemma_plist_dir_items_concat(a, b.drop_last());
        assert((a + b).drop_last() =~= a + b.drop_last());
        assert((a + b).last() == b.last());
        match b.last() {
            Some(entries) => {
                assert(plist_dir_items(a) + plist_dir_items(b.drop_last()) + plist_entry_items(
                    entries@,
                ) =~= plist_dir_items(a) + (plist_dir_items(b.drop_last()) + plist_entry_items(
                    entries@,
                )));
            },
            None => {},
        }
    }
}

/// A launch directory that could not be listed contributes no record, and
/// the other directories contribute theirs as if it were not there.
pub proof fn lemma_missing_directory_contributes_nothing(
    listings: Seq<Option<Vec<DirEntry>>>,
    i: int,
)
    requires
        0 <= i < listings.len(),
        listings[i] is None,
    ensures
        plist_dir_items(listings) == plist_dir_items(listings.remove(i)),
{
    let a = listings.subrange(0, i);
    let c = listings.subrange(i + 1, listings.len() as int);
    let missing = seq![listings[i]];
    assert(listings =~= a + missing + c);
    assert(listings.remove(i) =~= a + c);
    lemma_plist_dir_items_concat(a + missing, c);
    lemma_plist_dir_items_concat(a, missing);
    lemma_plist_dir_items_concat(a, c);
    assert(missing.drop_last() =~= Seq::<Option<Vec<DirEntry>>>::empty());
    assert(missing.last() is None);
    assert(plist_dir_items(missing.drop_last()) =~= Seq::empty());
    assert(plist_dir_items(missing) =~= Seq::empty());
    assert(plist_dir_items(a) + plist_dir_items(missing) =~= plist_dir_items(a));
}

} // verus!
