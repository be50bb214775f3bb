//! Where the suite and its update data live, relative to the updater.
//!
//! A path is held as a root (a drive and root directory, or nothing for a
//! relative path) and the names below it, so that taking a parent and adding a
//! name are exact operations on sequences.

use vstd::prelude::*;
use vstd::string::*;

verus! {

/// File name of the background service.
pub const SERVICE_EXE: &'static str = "AutoDarkModeSvc.exe";

/// File name of the foreground application.
pub const APP_EXE: &'static str = "AutoDarkModeApp.exe";

/// File name of the shell process.
pub const SHELL_EXE: &'static str = "AutoDarkModeShell.exe";

/// Name of the live installation directory.
pub const APP_DIR: &'static str = "adm-app";

/// Name of the directory that holds the update payload and the staging area.
pub const UPDATE_DATA_DIR: &'static str = "adm-update-data";

/// Name of the staging area inside the update data directory.
pub const TEMP_DIR: &'static str = "tmp";

/// Name of the directory inside the update data directory that holds the
/// unpacked payload.
pub const UNPACKED_DIR: &'static str = "unpacked";

/// What separates the names of a path when it is written out.
pub const SEPARATOR: &'static str = "\\";

/// A path: a root and the names below it.
#[derive(Debug)]
pub struct InstallPath {
    pub root: String,
    pub names: Vec<String>,
}

/// The mathematical content of an [`InstallPath`].
pub struct PathView {
    pub root: Seq<char>,
    pub names: Seq<Seq<char>>,
}

impl PathView {
    /// The path one level up; a path without names has none.
    pub open spec fn parent(self) -> Option<PathView> {
        if self.names.len() == 0 {
            None
        } else {
            Some(PathView { root: self.root, names: self.names.drop_last() })
        }
    }

    /// The path with `name` added below it.
    pub open spec fn join(self, name: Seq<char>) -> PathView {
        PathView { root: self.root, names: self.names.push(name) }
    }

    /// The names from index `from` on, each but the first of the whole path
    /// preceded by the separator.
    pub open spec fn names_text(self, from: int) -> Seq<char>
        decreases self.names.len() - from,
    {
        if from < 0 || from >= self.names.len() {
            Seq::empty()
        } else if from == 0 {
            self.names[from] + self.names_text(from + 1)
        } else {
            SEPARATOR@ + self.names[from] + self.names_text(from + 1)
        }
    }

    /// The path written out: the root, then the names with separators between.
    pub open spec fn text(self) -> Seq<char> {
        self.root + self.names_text(0)
    }
}

impl View for InstallPath {
    type V = PathView;

    open spec fn view(&self) -> PathView {
        PathView { root: self.root@, names: self.names.deep_view() }
    }
}

impl InstallPath {
    /// The path with the given root and no names.
    pub fn new(root: &str) -> (p: InstallPath)
        ensures
            p@ == (PathView { root: root@, names: Seq::empty() }),
    {
        let p = InstallPath { root: String::from_str(root), names: Vec::new() };
        assert(p.names.deep_view() =~= Seq::<Seq<char>>::empty());
        p
    }

    /// A copy of the first `count` names under the same root.
    fn prefix(&self, count: usize) -> (p: InstallPath)
        requires
            count <= self.names.len(),
        ensures
            p@ == (PathView { root: self@.root, names: self@.names.take(count as int) }),
    {
        let mut names: Vec<String> = Vec::new();
        let mut i: usize = 0;
        while i < count
            invariant
                i <= count <= self.names.len(),
                names.len() == i,
                forall|j: int| 0 <= j < i ==> (#[trigger] names[j])@ == self.names[j]@,
            decreases count - i,
        {
            names.push(self.names[i].clone());
            i += 1;
        }
        let p = InstallPath { root: self.root.clone(), names };
        assert(p.names.deep_view() =~= self.names.deep_view().take(count as int));
        p
    }

    /// A copy of this path.
    pub fn duplicate(&self) -> (p: InstallPath)
        ensures
            p@ == self@,
    {
        let p = self.prefix(self.names.len());
        assert(self@.names.take(self.names.len() as int) =~= self@.names);
        p
    }

    /// The path one level up, as `Path::parent`.
    pub fn parent(&self) -> (p: Option<InstallPath>)
        ensures
            p.is_some() == self@.parent().is_some(),
            p matches Some(up) ==> Some(up@) == self@.parent(),
    {
        if self.names.len() == 0 {
            None
        } else {
            let up = self.prefix(self.names.len() - 1);
            Some(up)
        }
    }

    /// This path with `name` added below it, as `Path::join` with a single
    /// relative name.
    pub fn join(&self, name: &str) -> (p: InstallPath)
        ensures
            p@ == self@.join(name@),
    {
        let mut p = self.duplicate();
        p.names.push(String::from_str(name));
        assert(p.names.deep_view() =~= self@.names.push(name@));
        p
    }

    /// The path written out.
    pub fn to_text(&self) -> (s: String)
        ensures
            s@ == self@.text(),
    {
        let mut s = self.root.clone();
        let n = self.names.len();
        let mut i: usize = n;
        let mut tail = String::new();
        // Build from the last name backwards, so that each step prepends.
        while i > 0
            invariant
                i <= n,
                n == self.names.len(),
                tail@ == self@.names_text(i as int),
            decreases i,
        {
            i -= 1;
            let mut step = if i == 0 {
                String::new()
            } else {
                String::from_str(SEPARATOR)
            };
            step.append(self.names[i].as_str());
            step.append(tail.as_str());
            tail = step;
        }
        s.append(tail.as_str());
        s
    }
}

/// The directory that holds the updater, given the path of its executable.
pub fn get_assembly_dir(executable: &InstallPath) -> (dir: InstallPath)
    requires
        executable@.names.len() >= 2,
    ensures
        Some(dir@) == executable@.parent(),
{
    let up = executable.parent();
    up.unwrap()
}

/// The directory above `assembly_dir`, or `assembly_dir` itself where it has
/// none.
pub open spec fn working_dir(assembly_dir: PathView) -> PathView {
    match assembly_dir.parent() {
        Some(up) => up,
        None => assembly_dir,
    }
}

/// The directory above the updater's: the parent of `assembly_dir`, or
/// `assembly_dir` itself where it has none.
pub fn get_working_dir(assembly_dir: &InstallPath) -> (dir: InstallPath)
    ensures
        dir@ == working_dir(assembly_dir@),
{
    match assembly_dir.parent() {
        Some(up) => up,
        None => assembly_dir.duplicate(),
    }
}

/// The live installation directory for the updater in `assembly_dir`.
pub open spec fn live_dir(assembly_dir: PathView) -> PathView {
    working_dir(assembly_dir).join(APP_DIR@)
}

/// The update data directory for the updater in `assembly_dir`.
pub open spec fn update_data_dir(assembly_dir: PathView) -> PathView {
    working_dir(assembly_dir).join(UPDATE_DATA_DIR@)
}

/// The live installation directory.
pub fn get_adm_app_dir(assembly_dir: &InstallPath) -> (dir: InstallPath)
    ensures
        dir@ == live_dir(assembly_dir@),
{
    get_working_dir(assembly_dir).join(APP_DIR)
}

/// The directory that update data is taken from and that holds the staging
/// area.
pub fn get_update_data_dir(assembly_dir: &InstallPath) -> (dir: InstallPath)
    ensures
        dir@ == update_data_dir(assembly_dir@),
{
    get_working_dir(assembly_dir).join(UPDATE_DATA_DIR)
}

/// The service executable in the live installation.
pub fn get_service_path(assembly_dir: &InstallPath) -> (path: InstallPath)
    ensures
        path@ == live_dir(assembly_dir@).join(SERVICE_EXE@),
{
    get_adm_app_dir(assembly_dir).join(SERVICE_EXE)
}

/// The application executable in the live installation.
pub fn get_app_path(assembly_dir: &InstallPath) -> (path: InstallPath)
    ensures
        path@ == live_dir(assembly_dir@).join(APP_EXE@),
{
    get_adm_app_dir(assembly_dir).join(APP_EXE)
}

/// The shell executable in the live installation.
pub fn get_shell_path(assembly_dir: &InstallPath) -> (path: InstallPath)
    ensures
        path@ == live_dir(assembly_dir@).join(SHELL_EXE@),
{
    get_adm_app_dir(assembly_dir).join(SHELL_EXE)
}

/// The staging area that holds the previous installation during an update.
pub fn get_temp_dir(assembly_dir: &InstallPath) -> (dir: InstallPath)
    ensures
        dir@ == update_data_dir(assembly_dir@).join(TEMP_DIR@),
{
    get_update_data_dir(assembly_dir).join(TEMP_DIR)
}

/// The unpacked payload that becomes the new installation.
pub fn get_payload_dir(assembly_dir: &InstallPath) -> (dir: InstallPath)
    ensures
        dir@ == update_data_dir(assembly_dir@).join(UNPACKED_DIR@).join(APP_DIR@),
{
    get_update_data_dir(assembly_dir).join(UNPACKED_DIR).join(APP_DIR)
}

/// The staging area and the payload lie in the update data directory, so
/// that they go when it is removed; the live installation lies beside the
/// update data directory, under another name, so that it stays.
pub proof fn law_update_data_holds_staging_and_payload(assembly_dir: PathView)
    ensures
        update_data_dir(assembly_dir).join(TEMP_DIR@).parent() == Some(
            update_data_dir(assembly_dir),
        ),
        update_data_dir(assembly_dir).join(UNPACKED_DIR@).join(APP_DIR@).parent() == Some(
            update_data_dir(assembly_dir).join(UNPACKED_DIR@),
        ),
        update_data_dir(assembly_dir).join(UNPACKED_DIR@).parent() == Some(
            update_data_dir(assembly_dir),
        ),
        live_dir(assembly_dir).parent() == update_data_dir(assembly_dir).parent(),
        live_dir(assembly_dir).names.last() != update_data_dir(assembly_dir).names.last(),
{
    reveal_strlit("adm-app");
    reveal_strlit("adm-update-data");
    let work = working_dir(assembly_dir);
    let data = update_data_dir(assembly_dir);
    assert(data.join(TEMP_DIR@).names.drop_last() =~= data.names);
    assert(data.join(UNPACKED_DIR@).names.drop_last() =~= data.names);
    assert(data.join(UNPACKED_DIR@).join(APP_DIR@).names.drop_last() =~= data.join(
        UNPACKED_DIR@,
    ).names);
    assert(data.names.drop_last() =~= work.names);
    assert(live_dir(assembly_dir).names.drop_last() =~= work.names);
    assert(APP_DIR@.len() != UPDATE_DATA_DIR@.len());
}

} // verus!
