//! Which files of the installation directory belong to the suite, for an
//! update that moves files one by one.

use crate::error::{OpError, OpErrorView};
use crate::paths::{InstallPath, PathView};
use crate::text::{
    contains, ends_with, lowercase, lowercase_of, starts_with, str_contains, str_ends_with,
    str_starts_with,
};
use vstd::prelude::*;
use vstd::string::*;

verus! {

/// Data file of the uninstaller, which is never touched.
pub const UNINSTALLER_DATA: &'static str = "unins000.dat";

/// The uninstaller, which is never touched.
pub const UNINSTALLER: &'static str = "unins000.exe";

/// The manifest of the start menu tile, which is never touched.
pub const TILE_MANIFEST: &'static str = "AutoDarkMode.VisualElementsManifest.xml";

/// Some entry of the whitelist is what `entry` ends with.
pub open spec fn whitelisted(entry: Seq<char>, whitelist: Seq<Seq<char>>) -> bool {
    exists|i: int| 0 <= i < whitelist.len() && ends_with(entry, #[trigger] whitelist[i])
}

/// Is the path `entry` on the whitelist? It is where it ends with one of the
/// whitelist's entries.
pub fn is_whitelisted(entry: &str, whitelist: &Vec<String>) -> (b: bool)
    ensures
        b == whitelisted(entry@, whitelist.deep_view()),
{
    let mut i: usize = 0;
    while i < whitelist.len()
        invariant
            i <= whitelist.len(),
            forall|j: int| 0 <= j < i ==> !ends_with(entry@, #[trigger] whitelist.deep_view()[j]),
        decreases whitelist.len() - i,
    {
        assert(whitelist.deep_view()[i as int] == whitelist[i as int]@);
        if str_ends_with(entry, whitelist[i].as_str()) {
            return true;
        }
        i += 1;
    }
    false
}

/// The path is one that an update never touches: the uninstaller and its
/// data, the tile manifest, and whatever lies in the updater's own directory
/// or in the update data directory. A directory whose path is not known
/// counts as empty text and excludes nothing.
pub open spec fn excluded(
    entry: Seq<char>,
    execution_dir: Seq<char>,
    update_data_dir: Seq<char>,
) -> bool {
    ||| contains(entry, UNINSTALLER_DATA@)
    ||| contains(entry, UNINSTALLER@)
    ||| contains(entry, TILE_MANIFEST@)
    ||| (execution_dir.len() > 0 && contains(entry, execution_dir))
    ||| (update_data_dir.len() > 0 && contains(entry, update_data_dir))
}

/// Is the path `entry` one that an update never touches?
pub fn is_excluded(entry: &str, execution_dir: &str, update_data_dir: &str) -> (b: bool)
    ensures
        b == excluded(entry@, execution_dir@, update_data_dir@),
{
    if str_contains(entry, UNINSTALLER_DATA) {
        true
    } else if str_contains(entry, UNINSTALLER) {
        true
    } else if str_contains(entry, TILE_MANIFEST) {
        true
    } else if execution_dir.unicode_len() > 0 && str_contains(entry, execution_dir) {
        true
    } else {
        update_data_dir.unicode_len() > 0 && str_contains(entry, update_data_dir)
    }
}

/// Does the file collector take the path `entry`? It does where the path is
/// none that an update never touches and is on the whitelist.
pub fn check_ignored(
    entry: &str,
    execution_dir: &str,
    update_data_dir: &str,
    whitelist: &Vec<String>,
) -> (b: bool)
    ensures
        b == (!excluded(entry@, execution_dir@, update_data_dir@) && whitelisted(
            entry@,
            whitelist.deep_view(),
        )),
{
    if is_excluded(entry, execution_dir, update_data_dir) {
        false
    } else {
        is_whitelisted(entry, whitelist)
    }
}

/// Some entry of the whitelist, in lower case, is what the file name begins
/// with, in lower case.
pub open spec fn name_whitelisted(file_name: Seq<char>, whitelist: Seq<Seq<char>>) -> bool {
    exists|i: int|
        0 <= i < whitelist.len() && starts_with(
            lowercase_of(file_name),
            lowercase_of(#[trigger] whitelist[i]),
        )
}

/// Is a file with the given name on the whitelist, whatever the case of its
/// letters? An entry of the whitelist stands for every name that begins with
/// it.
pub fn is_whitelisted_name(file_name: &str, whitelist: &Vec<String>) -> (b: bool)
    ensures
        b == name_whitelisted(file_name@, whitelist.deep_view()),
{
    let name = lowercase(file_name);
    let mut i: usize = 0;
    while i < whitelist.len()
        invariant
            i <= whitelist.len(),
            name@ == lowercase_of(file_name@),
            forall|j: int|
                0 <= j < i ==> !starts_with(
                    lowercase_of(file_name@),
                    lowercase_of(#[trigger] whitelist.deep_view()[j]),
                ),
        decreases whitelist.len() - i,
    {
        assert(whitelist.deep_view()[i as int] == whitelist[i as int]@);
        let entry = lowercase(whitelist[i].as_str());
        if str_starts_with(name.as_str(), entry.as_str()) {
            return true;
        }
        i += 1;
    }
    false
}

/// An update by single files takes the path `entry` with the given last
/// component.
pub open spec fn update_file(
    entry: Seq<char>,
    file_name: Option<Seq<char>>,
    execution_dir: Seq<char>,
    update_data_dir: Seq<char>,
    whitelist: Seq<Seq<char>>,
) -> bool {
    &&& !excluded(entry, execution_dir, update_data_dir)
    &&& file_name is Some
    &&& name_whitelisted(file_name->0, whitelist)
}

/// Does an update by single files take the path `entry`, whose last
/// component is `file_name`? It does where the path is none that an update
/// never touches, has a file name, and that name is on the whitelist.
pub fn is_update_file(
    entry: &str,
    file_name: Option<&str>,
    execution_dir: &str,
    update_data_dir: &str,
    whitelist: &Vec<String>,
) -> (b: bool)
    ensures
        b == update_file(
            entry@,
            match file_name {
                Some(name) => Some(name@),
                None => None,
            },
            execution_dir@,
            update_data_dir@,
            whitelist.deep_view(),
        ),
{
    if is_excluded(entry, execution_dir, update_data_dir) {
        return false;
    }
    match file_name {
        Some(name) => is_whitelisted_name(name, whitelist),
        None => false,
    }
}

/// What decides whether a file belongs to the suite.
#[derive(Debug)]
pub struct FileRules {
    /// The updater's own directory, written out; empty where it is not known.
    pub execution_dir: String,
    /// The update data directory, written out; empty where it is not known.
    pub update_data_dir: String,
    /// The whitelist, one entry for each line of the whitelist file.
    pub whitelist: Vec<String>,
}

/// The mathematical content of [`FileRules`].
pub struct FileRulesView {
    pub execution_dir: Seq<char>,
    pub update_data_dir: Seq<char>,
    pub whitelist: Seq<Seq<char>>,
}

impl View for FileRules {
    type V = FileRulesView;

    open spec fn view(&self) -> FileRulesView {
        FileRulesView {
            execution_dir: self.execution_dir@,
            update_data_dir: self.update_data_dir@,
            whitelist: self.whitelist.deep_view(),
        }
    }
}

/// An entry of a directory listing.
#[derive(Debug)]
pub struct DirEntry {
    /// The path of the entry, written out.
    pub path: String,
    /// The last component of the path, where it has one that is text.
    pub file_name: Option<String>,
    pub is_file: bool,
    pub is_dir: bool,
}

/// The mathematical content of a [`DirEntry`].
pub struct DirEntryView {
    pub path: Seq<char>,
    pub file_name: Option<Seq<char>>,
    pub is_file: bool,
    pub is_dir: bool,
}

impl View for DirEntry {
    type V = DirEntryView;

    open spec fn view(&self) -> DirEntryView {
        DirEntryView {
            path: self.path@,
            file_name: match self.file_name {
                Some(name) => Some(name@),
                None => None,
            },
            is_file: self.is_file,
            is_dir: self.is_dir,
        }
    }
}

/// The contents of a directory listing.
pub open spec fn entry_views(entries: Seq<DirEntry>) -> Seq<DirEntryView> {
    Seq::new(entries.len(), |i: int| entries[i]@)
}

/// The paths of the entries that `keep` holds of, in their order.
pub open spec fn chosen(entries: Seq<DirEntryView>, keep: spec_fn(DirEntryView) -> bool) -> Seq<
    Seq<char>,
>
    decreases entries.len(),
{
    if entries.len() == 0 {
        Seq::empty()
    } else if keep(entries.last()) {
        chosen(entries.drop_last(), keep).push(entries.last().path)
    } else {
        chosen(entries.drop_last(), keep)
    }
}

impl FileRulesView {
    /// The file collector takes the path.
    pub open spec fn collects(self, path: Seq<char>) -> bool {
        !excluded(path, self.execution_dir, self.update_data_dir) && whitelisted(
            path,
            self.whitelist,
        )
    }

    /// An update by single files takes the entry.
    pub open spec fn takes(self, entry: DirEntryView) -> bool {
        update_file(
            entry.path,
            entry.file_name,
            self.execution_dir,
            self.update_data_dir,
            self.whitelist,
        )
    }
}

/// Whether the criteria take the entry: every entry without rules, else
/// those that an update by single files takes.
pub open spec fn meets(rules: Option<FileRulesView>, entry: DirEntryView) -> bool {
    match rules {
        Some(rules) => rules.takes(entry),
        None => true,
    }
}

impl FileRules {
    /// Does the file collector take the path?
    pub fn collects(&self, path: &str) -> (b: bool)
        ensures
            b == self@.collects(path@),
    {
        check_ignored(
            path,
            self.execution_dir.as_str(),
            self.update_data_dir.as_str(),
            &self.whitelist,
        )
    }

    /// Does an update by single files take the entry?
    pub fn takes(&self, entry: &DirEntry) -> (b: bool)
        ensures
            b == self@.takes(entry@),
    {
        let file_name = match &entry.file_name {
            Some(name) => Some(name.as_str()),
            None => None,
        };
        is_update_file(
            entry.path.as_str(),
            file_name,
            self.execution_dir.as_str(),
            self.update_data_dir.as_str(),
            &self.whitelist,
        )
    }
}

/// The contents of criteria.
pub open spec fn rules_view(rules: Option<&FileRules>) -> Option<FileRulesView> {
    match rules {
        Some(rules) => Some(rules@),
        None => None,
    }
}

/// The entry is a file that the criteria take.
pub open spec fn is_file_to_take(rules: Option<FileRulesView>) -> spec_fn(DirEntryView) -> bool {
    |e: DirEntryView| e.is_file && meets(rules, e)
}

/// The entry is a directory that the criteria take and that is not the
/// working directory.
pub open spec fn is_dir_to_take(rules: Option<FileRulesView>, working_dir: Seq<char>) -> spec_fn(
    DirEntryView,
) -> bool {
    |e: DirEntryView| e.is_dir && meets(rules, e) && e.path != working_dir
}

/// The file collector takes the entry.
pub open spec fn is_collected(rules: FileRulesView) -> spec_fn(DirEntryView) -> bool {
    |e: DirEntryView| rules.collects(e.path)
}

fn meets_criteria(rules: Option<&FileRules>, entry: &DirEntry) -> (b: bool)
    ensures
        b == meets(rules_view(rules), entry@),
{
    match rules {
        Some(rules) => rules.takes(entry),
        None => true,
    }
}

/// Of the entries found below a directory, the files that the criteria
/// take, in their order.
pub fn get_files_recurse(entries: &Vec<DirEntry>, rules: Option<&FileRules>) -> (files: Vec<String>)
    ensures
        files.deep_view() == chosen(entry_views(entries@), is_file_to_take(rules_view(rules))),
{
    let ghost all = entry_views(entries@);
    let ghost keep = is_file_to_take(rules_view(rules));
    let mut files: Vec<String> = Vec::new();
    let mut i: usize = 0;
    while i < entries.len()
        invariant
            i <= entries.len(),
            all == entry_views(entries@),
            keep == is_file_to_take(rules_view(rules)),
            files.deep_view() == chosen(all.take(i as int), keep),
        decreases entries.len() - i,
    {
        let entry = &entries[i];
        assert(all.take(i + 1).drop_last() =~= all.take(i as int));
        if entry.is_file && meets_criteria(rules, entry) {
            files.push(entry.path.clone());
        }
        i += 1;
    }
    assert(all.take(entries.len() as int) =~= all);
    files
}

/// Of the entries of a directory, the directories that the criteria take
/// and that are not the working directory, in their order.
pub fn get_dirs(entries: &Vec<DirEntry>, working_dir: &str, rules: Option<&FileRules>) -> (dirs:
    Vec<String>)
    ensures
        dirs.deep_view() == chosen(
            entry_views(entries@),
            is_dir_to_take(rules_view(rules), working_dir@),
        ),
{
    let ghost all = entry_views(entries@);
    let ghost keep = is_dir_to_take(rules_view(rules), working_dir@);
    let excluded_dir = String::from_str(working_dir);
    let mut dirs: Vec<String> = Vec::new();
    let mut i: usize = 0;
    while i < entries.len()
        invariant
            i <= entries.len(),
            all == entry_views(entries@),
            excluded_dir@ == working_dir@,
            keep == is_dir_to_take(rules_view(rules), working_dir@),
            dirs.deep_view() == chosen(all.take(i as int), keep),
        decreases entries.len() - i,
    {
        let entry = &entries[i];
        assert(all.take(i + 1).drop_last() =~= all.take(i as int));
        if entry.is_dir && meets_criteria(rules, entry) && entry.path != excluded_dir {
            dirs.push(entry.path.clone());
        }
        i += 1;
    }
    assert(all.take(entries.len() as int) =~= all);
    dirs
}

/// Of the entries of a directory, those that belong to the suite: the ones
/// that the file collector takes, in their order.
pub fn get_adm_files(entries: &Vec<DirEntry>, rules: &FileRules) -> (files: Vec<String>)
    ensures
        files.deep_view() == chosen(entry_views(entries@), is_collected(rules@)),
{
    let ghost all = entry_views(entries@);
    let ghost keep = is_collected(rules@);
    let mut files: Vec<String> = Vec::new();
    let mut i: usize = 0;
    while i < entries.len()
        invariant
            i <= entries.len(),
            all == entry_views(entries@),
            keep == is_collected(rules@),
            files.deep_view() == chosen(all.take(i as int), keep),
        decreases entries.len() - i,
    {
        let entry = &entries[i];
        assert(all.take(i + 1).drop_last() =~= all.take(i as int));
        if rules.collects(entry.path.as_str()) {
            files.push(entry.path.clone());
        }
        i += 1;
    }
    assert(all.take(entries.len() as int) =~= all);
    files
}

/// An update by single files takes the entry.
pub open spec fn is_taken(rules: FileRulesView) -> spec_fn(DirEntryView) -> bool {
    |e: DirEntryView| rules.takes(e)
}

/// Of the entries of a directory, those that an update by single files
/// takes, in their order.
pub fn get_update_entries(entries: &Vec<DirEntry>, rules: &FileRules) -> (taken: Vec<String>)
    ensures
        taken.deep_view() == chosen(entry_views(entries@), is_taken(rules@)),
{
    let ghost all = entry_views(entries@);
    let ghost keep = is_taken(rules@);
    let mut taken: Vec<String> = Vec::new();
    let mut i: usize = 0;
    while i < entries.len()
        invariant
            i <= entries.len(),
            all == entry_views(entries@),
            keep == is_taken(rules@),
            taken.deep_view() == chosen(all.take(i as int), keep),
        decreases entries.len() - i,
    {
        let entry = &entries[i];
        assert(all.take(i + 1).drop_last() =~= all.take(i as int));
        if rules.takes(entry) {
            taken.push(entry.path.clone());
        }
        i += 1;
    }
    assert(all.take(entries.len() as int) =~= all);
    taken
}

/// What the error says when an update by single files finds nothing to
/// install.
pub const NO_UPDATE_FILES: &'static str = "no files found in update directory";

/// An update by single files needs files to install: without any it fails
/// severely.
pub fn check_update_files(count: usize) -> (r: Result<(), OpError>)
    ensures
        count > 0 ==> r is Ok,
        count == 0 ==> (r matches Err(e) && e@ == (OpErrorView {
            message: NO_UPDATE_FILES@,
            severe: true,
        })),
{
    if count == 0 {
        Err(OpError::new(NO_UPDATE_FILES, true))
    } else {
        Ok(())
    }
}

/// The error of a file that could not be moved, once files have begun to
/// move: the same message, and severe, since the installation is then
/// neither old nor new.
pub fn escalated(e: OpError) -> (severe: OpError)
    ensures
        severe@ == (OpErrorView { message: e@.message, severe: true }),
{
    OpError { message: e.message, severe: true }
}

impl PathView {
    /// The path lies at or below `base`: same root, and the names of `base`
    /// come first.
    pub open spec fn is_under(self, base: PathView) -> bool {
        &&& self.root == base.root
        &&& base.names.len() <= self.names.len()
        &&& self.names.take(base.names.len() as int) == base.names
    }

    /// Where a file lands that is moved from below `source` to the same
    /// place below `target`; `None` for a file that is not below `source`.
    pub open spec fn relocated(self, source: PathView, target: PathView) -> Option<PathView> {
        if self.is_under(source) {
            Some(
                PathView {
                    root: target.root,
                    names: target.names + self.names.skip(source.names.len() as int),
                },
            )
        } else {
            None
        }
    }
}

/// Where the file `file` lands when it is moved from below `source` to the
/// same place below `target`; `None` for a file that is not below `source`.
pub fn move_target(file: &InstallPath, source: &InstallPath, target: &InstallPath) -> (to: Option<
    InstallPath,
>)
    ensures
        to.is_some() == file@.relocated(source@, target@).is_some(),
        to matches Some(path) ==> Some(path@) == file@.relocated(source@, target@),
{
    if file.root != source.root || source.names.len() > file.names.len() {
        return None;
    }
    let shared = source.names.len();
    let mut i: usize = 0;
    while i < shared
        invariant
            i <= shared,
            shared == source.names.len(),
            shared <= file.names.len(),
            forall|j: int| 0 <= j < i ==> file@.names[j] == source@.names[j],
        decreases shared - i,
    {
        if file.names[i] != source.names[i] {
            assert(file@.names.take(shared as int)[i as int] != source@.names[i as int]);
            return None;
        }
        i += 1;
    }
    assert(file@.names.take(shared as int) =~= source@.names);
    let mut to = target.duplicate();
    let mut k: usize = shared;
    while k < file.names.len()
        invariant
            shared <= k <= file.names.len(),
            to@.root == target@.root,
            to@.names == target@.names + file@.names.subrange(shared as int, k as int),
        decreases file.names.len() - k,
    {
        to = to.join(file.names[k].as_str());
        k += 1;
    }
    Some(to)
}

/// A file that is to be moved.
#[derive(Debug)]
pub struct FileMove {
    /// Where the file lies.
    pub from: InstallPath,
    /// Where it goes.
    pub to: InstallPath,
    /// The directory of `to`, which has to be there before the move; `None`
    /// where `to` has no directory above it.
    pub directory: Option<InstallPath>,
}

/// The mathematical content of a [`FileMove`].
pub struct FileMoveView {
    pub from: PathView,
    pub to: PathView,
    pub directory: Option<PathView>,
}

impl View for FileMove {
    type V = FileMoveView;

    open spec fn view(&self) -> FileMoveView {
        FileMoveView {
            from: self.from@,
            to: self.to@,
            directory: match self.directory {
                Some(directory) => Some(directory@),
                None => None,
            },
        }
    }
}

/// The move of `file` from below `source` to the same place below `target`,
/// for a file that lies below `source`.
pub open spec fn move_of(file: PathView, source: PathView, target: PathView) -> FileMoveView {
    let to = file.relocated(source, target)->0;
    FileMoveView { from: file, to, directory: to.parent() }
}

/// Every one of `files` lies below `source`.
pub open spec fn all_under(files: Seq<InstallPath>, source: PathView) -> bool {
    forall|i: int| 0 <= i < files.len() ==> (#[trigger] files[i])@.is_under(source)
}

/// The moves that take `files` from below `source` to the same places below
/// `target`, in the order of the files; `None` where one of the files does
/// not lie below `source`.
pub fn move_files(source: &InstallPath, target: &InstallPath, files: &Vec<InstallPath>) -> (moves:
    Option<Vec<FileMove>>)
    ensures
        moves is Some <==> all_under(files@, source@),
        moves matches Some(m) ==> {
            &&& m.len() == files.len()
            &&& forall|i: int|
                0 <= i < m.len() ==> (#[trigger] m[i])@ == move_of(files[i]@, source@, target@)
        },
{
    let mut moves: Vec<FileMove> = Vec::new();
    let mut i: usize = 0;
    while i < files.len()
        invariant
            i <= files.len(),
            moves.len() == i,
            forall|j: int| 0 <= j < i ==> (#[trigger] files[j])@.is_under(source@),
            forall|j: int|
                0 <= j < i ==> (#[trigger] moves[j])@ == move_of(files[j]@, source@, target@),
        decreases files.len() - i,
    {
        match move_target(&files[i], source, target) {
            Some(to) => {
                let directory = to.parent();
                moves.push(FileMove { from: files[i].duplicate(), to, directory });
            },
            None => {
                return None;
            },
        }
        i += 1;
    }
    Some(moves)
}

/// What an update by single files removes before it installs.
#[derive(Debug)]
pub struct Cleaning {
    /// The files to remove, first.
    pub files: Vec<String>,
    /// The directories to remove, after the files.
    pub dirs: Vec<String>,
}

/// What an update by single files removes from the working directory: of
/// the entries `below` it, at any depth, the files that the rules take; then,
/// of the entries `within` it, the directories that the rules take.
pub fn clean_adm_dir(
    below: &Vec<DirEntry>,
    within: &Vec<DirEntry>,
    working_dir: &str,
    rules: &FileRules,
) -> (cleaning: Cleaning)
    ensures
        cleaning.files.deep_view() == chosen(entry_views(below@), is_file_to_take(Some(rules@))),
        cleaning.dirs.deep_view() == chosen(
            entry_views(within@),
            is_dir_to_take(Some(rules@), working_dir@),
        ),
{
    Cleaning {
        files: get_files_recurse(below, Some(rules)),
        dirs: get_dirs(within, working_dir, Some(rules)),
    }
}

/// What went wrong with a file or directory.
#[derive(Clone, Copy, PartialEq, Eq, Debug, Structural)]
pub enum FileFailure {
    /// A file could not be removed.
    RemoveFile,
    /// A directory could not be removed.
    RemoveDirectory,
}

impl FileFailure {
    /// What the error begins with.
    pub open spec fn message(self) -> Seq<char> {
        match self {
            FileFailure::RemoveFile => "could not remove file: "@,
            FileFailure::RemoveDirectory => "could not remove directory: "@,
        }
    }

    /// The error of a file or directory that could not be removed, with the
    /// system's description. What cannot be removed ends the update
    /// severely.
    pub fn error(self, detail: &str) -> (e: OpError)
        ensures
            e@ == (OpErrorView { message: self.message() + detail@, severe: true }),
    {
        let mut message = match self {
            FileFailure::RemoveFile => String::from_str("could not remove file: "),
            FileFailure::RemoveDirectory => String::from_str("could not remove directory: "),
        };
        message.append(detail);
        OpError { message, severe: true }
    }
}

/// The error of a directory that could not be made for a file that is to be
/// moved into it. It is not severe.
pub fn directory_not_created(directory: &str, detail: &str) -> (e: OpError)
    ensures
        e@ == (OpErrorView {
            message: "could not create directory "@ + directory@ + " before moving files: "@
                + detail@,
            severe: false,
        }),
{
    let mut message = String::from_str("could not create directory ");
    message.append(directory);
    message.append(" before moving files: ");
    message.append(detail);
    OpError { message, severe: false }
}

/// The error of a file that could not be moved below `target`. It is not
/// severe.
pub fn file_not_moved(file: &str, target: &str, detail: &str) -> (e: OpError)
    ensures
        e@ == (OpErrorView {
            message: "could not move file "@ + file@ + " to "@ + target@ + " : "@ + detail@,
            severe: false,
        }),
{
    let mut message = String::from_str("could not move file ");
    message.append(file);
    message.append(" to ");
    message.append(target);
    message.append(" : ");
    message.append(detail);
    OpError { message, severe: false }
}

} // verus!
