//! Finds out whether a provider can be launched.

use crate::datum::Datum;
use crate::providers::{
    FilePath, FilePathView, LaunchTarget, LaunchTargetView, ProviderDefinition,
    ProviderDefinitionView, ProviderLaunch, ProviderLaunchView, ProviderProfile,
    ProviderProfileView, SetupAction, SetupActionView,
};
use crate::text::{
    blank, byte_len, bytes_of, counted, counted_texts_do_not_collide, decimal, decimal_text,
    is_blank, same_text, trimmed, utf8_text,
};
use vstd::prelude::*;
use vstd::string::*;
use vstd::utf8::{decode_utf8, valid_utf8};

verus! {

/// Why a provider cannot be launched.
#[derive(Debug, PartialEq, Eq)]
pub enum SetupIssue {
    MissingCli(String),
    MissingAdapter(String),
    MissingRuntime(String),
    InvalidPath(FilePath),
    MissingFile(FilePath),
    NotExecutable(FilePath),
    Unreadable(FilePath),
    UnsupportedLauncher(FilePath),
    InvalidProfile,
}

/// What a `SetupIssue` holds.
pub enum SetupIssueView {
    MissingCli(Seq<char>),
    MissingAdapter(Seq<char>),
    MissingRuntime(Seq<char>),
    InvalidPath(FilePathView),
    MissingFile(FilePathView),
    NotExecutable(FilePathView),
    Unreadable(FilePathView),
    UnsupportedLauncher(FilePathView),
    InvalidProfile,
}

impl DeepView for SetupIssue {
    type V = SetupIssueView;

    open spec fn deep_view(&self) -> SetupIssueView {
        match self {
            SetupIssue::MissingCli(value) => SetupIssueView::MissingCli(value.deep_view()),
            SetupIssue::MissingAdapter(value) => SetupIssueView::MissingAdapter(value.deep_view()),
            SetupIssue::MissingRuntime(value) => SetupIssueView::MissingRuntime(value.deep_view()),
            SetupIssue::InvalidPath(value) => SetupIssueView::InvalidPath(value.deep_view()),
            SetupIssue::MissingFile(value) => SetupIssueView::MissingFile(value.deep_view()),
            SetupIssue::NotExecutable(value) => SetupIssueView::NotExecutable(value.deep_view()),
            SetupIssue::Unreadable(value) => SetupIssueView::Unreadable(value.deep_view()),
            SetupIssue::UnsupportedLauncher(value) => SetupIssueView::UnsupportedLauncher(value.deep_view()),
            SetupIssue::InvalidProfile => SetupIssueView::InvalidProfile,
        }
    }
}

impl Datum for SetupIssue {
    fn duplicate(&self) -> (r: SetupIssue) {
        match self {
            SetupIssue::MissingCli(value) => SetupIssue::MissingCli(value.duplicate()),
            SetupIssue::MissingAdapter(value) => SetupIssue::MissingAdapter(value.duplicate()),
            SetupIssue::MissingRuntime(value) => SetupIssue::MissingRuntime(value.duplicate()),
            SetupIssue::InvalidPath(value) => SetupIssue::InvalidPath(value.duplicate()),
            SetupIssue::MissingFile(value) => SetupIssue::MissingFile(value.duplicate()),
            SetupIssue::NotExecutable(value) => SetupIssue::NotExecutable(value.duplicate()),
            SetupIssue::Unreadable(value) => SetupIssue::Unreadable(value.duplicate()),
            SetupIssue::UnsupportedLauncher(value) => SetupIssue::UnsupportedLauncher(value.duplicate()),
            SetupIssue::InvalidProfile => SetupIssue::InvalidProfile,
        }
    }

    fn same_as(&self, other: &SetupIssue) -> (r: bool) {
        match (self, other) {
            (SetupIssue::MissingCli(a), SetupIssue::MissingCli(b)) => a.same_as(b),
            (SetupIssue::MissingAdapter(a), SetupIssue::MissingAdapter(b)) => a.same_as(b),
            (SetupIssue::MissingRuntime(a), SetupIssue::MissingRuntime(b)) => a.same_as(b),
            (SetupIssue::InvalidPath(a), SetupIssue::InvalidPath(b)) => a.same_as(b),
            (SetupIssue::MissingFile(a), SetupIssue::MissingFile(b)) => a.same_as(b),
            (SetupIssue::NotExecutable(a), SetupIssue::NotExecutable(b)) => a.same_as(b),
            (SetupIssue::Unreadable(a), SetupIssue::Unreadable(b)) => a.same_as(b),
            (SetupIssue::UnsupportedLauncher(a), SetupIssue::UnsupportedLauncher(b)) => a.same_as(b),
            (SetupIssue::InvalidProfile, SetupIssue::InvalidProfile) => true,
            _ => false,
        }
    }
}

/// What was found of a provider.
#[derive(Debug, PartialEq, Eq)]
pub struct InstallationReport {
    pub provider: String,
    pub driver: String,
    /// The independently installed CLI is informational for bundled adapters.
    pub standalone_cli: Option<FilePath>,
    pub entrypoint: Option<FilePath>,
    pub runtime: Option<FilePath>,
    pub issues: Vec<SetupIssue>,
    pub setup: Vec<SetupAction>,
}

/// What a `InstallationReport` holds.
#[verifier::ext_equal]
pub struct InstallationReportView {
    pub provider: Seq<char>,
    pub driver: Seq<char>,
    pub standalone_cli: Option<FilePathView>,
    pub entrypoint: Option<FilePathView>,
    pub runtime: Option<FilePathView>,
    pub issues: Seq<SetupIssueView>,
    pub setup: Seq<SetupActionView>,
}

impl DeepView for InstallationReport {
    type V = InstallationReportView;

    open spec fn deep_view(&self) -> InstallationReportView {
        InstallationReportView {
            provider: self.provider.deep_view(),
            driver: self.driver.deep_view(),
            standalone_cli: self.standalone_cli.deep_view(),
            entrypoint: self.entrypoint.deep_view(),
            runtime: self.runtime.deep_view(),
            issues: self.issues.deep_view(),
            setup: self.setup.deep_view(),
        }
    }
}

impl Datum for InstallationReport {
    fn duplicate(&self) -> (r: InstallationReport) {
        InstallationReport {
            provider: self.provider.duplicate(),
            driver: self.driver.duplicate(),
            standalone_cli: self.standalone_cli.duplicate(),
            entrypoint: self.entrypoint.duplicate(),
            runtime: self.runtime.duplicate(),
            issues: self.issues.duplicate(),
            setup: self.setup.duplicate(),
        }
    }

    fn same_as(&self, other: &InstallationReport) -> (r: bool) {
        self.provider.same_as(&other.provider)
            && self.driver.same_as(&other.driver)
            && self.standalone_cli.same_as(&other.standalone_cli)
            && self.entrypoint.same_as(&other.entrypoint)
            && self.runtime.same_as(&other.runtime)
            && self.issues.same_as(&other.issues)
            && self.setup.same_as(&other.setup)
    }
}

/// A provider that can be launched.
#[derive(PartialEq, Eq)]
pub struct ResolvedProvider {
    pub definition: ProviderDefinition,
    pub launch: ProviderLaunch,
    pub node_runtime: Option<FilePath>,
}

/// What a `ResolvedProvider` holds.
#[verifier::ext_equal]
pub struct ResolvedProviderView {
    pub definition: ProviderDefinitionView,
    pub launch: ProviderLaunchView,
    pub node_runtime: Option<FilePathView>,
}

impl DeepView for ResolvedProvider {
    type V = ResolvedProviderView;

    open spec fn deep_view(&self) -> ResolvedProviderView {
        ResolvedProviderView {
            definition: self.definition.deep_view(),
            launch: self.launch.deep_view(),
            node_runtime: self.node_runtime.deep_view(),
        }
    }
}

impl Datum for ResolvedProvider {
    fn duplicate(&self) -> (r: ResolvedProvider) {
        ResolvedProvider {
            definition: self.definition.duplicate(),
            launch: self.launch.duplicate(),
            node_runtime: self.node_runtime.duplicate(),
        }
    }

    fn same_as(&self, other: &ResolvedProvider) -> (r: bool) {
        self.definition.same_as(&other.definition)
            && self.launch.same_as(&other.launch)
            && self.node_runtime.same_as(&other.node_runtime)
    }
}

/// What the machine says of the file that is to be launched.
#[derive(Debug, PartialEq, Eq)]
pub struct FileFacts {
    pub absolute: bool,
    pub file: bool,
    pub executable: bool,
    /// What follows the last dot of the file name, where that is text.
    pub extension: Option<String>,
    /// The first bytes, where the file can be read.
    pub prefix: Option<Vec<u8>>,
}

/// What a `FileFacts` holds.
#[verifier::ext_equal]
pub struct FileFactsView {
    pub absolute: bool,
    pub file: bool,
    pub executable: bool,
    pub extension: Option<Seq<char>>,
    pub prefix: Option<Seq<u8>>,
}

impl DeepView for FileFacts {
    type V = FileFactsView;

    open spec fn deep_view(&self) -> FileFactsView {
        FileFactsView {
            absolute: self.absolute.deep_view(),
            file: self.file.deep_view(),
            executable: self.executable.deep_view(),
            extension: self.extension.deep_view(),
            prefix: self.prefix.deep_view(),
        }
    }
}

impl Datum for FileFacts {
    fn duplicate(&self) -> (r: FileFacts) {
        FileFacts {
            absolute: self.absolute.duplicate(),
            file: self.file.duplicate(),
            executable: self.executable.duplicate(),
            extension: self.extension.duplicate(),
            prefix: self.prefix.duplicate(),
        }
    }

    fn same_as(&self, other: &FileFacts) -> (r: bool) {
        self.absolute.same_as(&other.absolute)
            && self.file.same_as(&other.file)
            && self.executable.same_as(&other.executable)
            && self.extension.same_as(&other.extension)
            && self.prefix.same_as(&other.prefix)
    }
}

/// What the machine says of a profile.
#[derive(Debug, PartialEq, Eq)]
pub struct Findings {
    /// Where the independently installed CLI is.
    pub standalone_cli: Option<FilePath>,
    /// Where the provider's command is.
    pub command: Option<FilePath>,
    /// Where Node is.
    pub node: Option<FilePath>,
    /// The file that is to be launched.
    pub entry: FileFacts,
}

/// What a `Findings` holds.
#[verifier::ext_equal]
pub struct FindingsView {
    pub standalone_cli: Option<FilePathView>,
    pub command: Option<FilePathView>,
    pub node: Option<FilePathView>,
    pub entry: FileFactsView,
}

impl DeepView for Findings {
    type V = FindingsView;

    open spec fn deep_view(&self) -> FindingsView {
        FindingsView {
            standalone_cli: self.standalone_cli.deep_view(),
            command: self.command.deep_view(),
            node: self.node.deep_view(),
            entry: self.entry.deep_view(),
        }
    }
}

impl Datum for Findings {
    fn duplicate(&self) -> (r: Findings) {
        Findings {
            standalone_cli: self.standalone_cli.duplicate(),
            command: self.command.duplicate(),
            node: self.node.duplicate(),
            entry: self.entry.duplicate(),
        }
    }

    fn same_as(&self, other: &Findings) -> (r: bool) {
        self.standalone_cli.same_as(&other.standalone_cli)
            && self.command.same_as(&other.command)
            && self.node.same_as(&other.node)
            && self.entry.same_as(&other.entry)
    }
}

/// A directory in which programs are looked for.
#[derive(Debug, PartialEq, Eq)]
pub struct SearchDirectory {
    pub path: FilePath,
    pub absolute: bool,
    /// The path as its components alone determine it.
    pub canonical: FilePath,
}

/// What a `SearchDirectory` holds.
#[verifier::ext_equal]
pub struct SearchDirectoryView {
    pub path: FilePathView,
    pub absolute: bool,
    pub canonical: FilePathView,
}

impl DeepView for SearchDirectory {
    type V = SearchDirectoryView;

    open spec fn deep_view(&self) -> SearchDirectoryView {
        SearchDirectoryView {
            path: self.path.deep_view(),
            absolute: self.absolute.deep_view(),
            canonical: self.canonical.deep_view(),
        }
    }
}

impl Datum for SearchDirectory {
    fn duplicate(&self) -> (r: SearchDirectory) {
        SearchDirectory {
            path: self.path.duplicate(),
            absolute: self.absolute.duplicate(),
            canonical: self.canonical.duplicate(),
        }
    }

    fn same_as(&self, other: &SearchDirectory) -> (r: bool) {
        self.path.same_as(&other.path)
            && self.absolute.same_as(&other.absolute)
            && self.canonical.same_as(&other.canonical)
    }
}

/// A place where a program may be.
#[derive(Debug, PartialEq, Eq)]
pub struct Attempt {
    pub directory: FilePath,
    pub file_name: String,
}

/// What a `Attempt` holds.
#[verifier::ext_equal]
pub struct AttemptView {
    pub directory: FilePathView,
    pub file_name: Seq<char>,
}

impl DeepView for Attempt {
    type V = AttemptView;

    open spec fn deep_view(&self) -> AttemptView {
        AttemptView {
            directory: self.directory.deep_view(),
            file_name: self.file_name.deep_view(),
        }
    }
}

impl Datum for Attempt {
    fn duplicate(&self) -> (r: Attempt) {
        Attempt {
            directory: self.directory.duplicate(),
            file_name: self.file_name.duplicate(),
        }
    }

    fn same_as(&self, other: &Attempt) -> (r: bool) {
        self.directory.same_as(&other.directory)
            && self.file_name.same_as(&other.file_name)
    }
}


/// The directories that are searched: the absolute ones, each of them once, where it
/// stands first.
pub open spec fn searched(directories: Seq<SearchDirectoryView>) -> Seq<SearchDirectoryView>
    decreases directories.len(),
{
    if directories.len() == 0 {
        Seq::empty()
    } else {
        let kept = searched(directories.drop_last());
        let last = directories.last();
        if last.absolute && !(exists|i: int|
            0 <= i < kept.len() && (#[trigger] kept[i]).canonical == last.canonical) {
            kept.push(last)
        } else {
            kept
        }
    }
}

/// The places where a program may be, in the order in which they are tried.
pub open spec fn places(
    directories: Seq<SearchDirectoryView>,
    name: Seq<char>,
    suffixes: Seq<Seq<char>>,
) -> Seq<AttemptView>
    decreases directories.len(),
{
    if directories.len() == 0 {
        Seq::empty()
    } else {
        places(directories.drop_last(), name, suffixes) + Seq::new(
            suffixes.len(),
            |i: int|
                AttemptView {
                    directory: directories.last().path,
                    file_name: name + suffixes[i],
                },
        )
    }
}

/// Where programs are looked for.
#[derive(Debug)]
pub struct ExecutableSearch {
    directories: Vec<SearchDirectory>,
}

/// The endings that a program's file name may have.
pub open spec fn suffixes_of(windows: bool) -> Seq<Seq<char>> {
    if windows {
        seq![""@, ".exe"@, ".com"@, ".cmd"@, ".bat"@]
    } else {
        seq![""@]
    }
}

/// The endings that a program's file name may have.
pub fn executable_suffixes(windows: bool) -> (r: Vec<String>)
    ensures
        r.deep_view() == suffixes_of(windows),
{
    let r = if windows {
        vec![
            "".to_owned(),
            ".exe".to_owned(),
            ".com".to_owned(),
            ".cmd".to_owned(),
            ".bat".to_owned(),
        ]
    } else {
        vec!["".to_owned()]
    };
    assert(r.deep_view() =~= suffixes_of(windows));
    r
}

impl ExecutableSearch {
    /// The directories that are searched.
    pub closed spec fn listed(&self) -> Seq<SearchDirectoryView> {
        self.directories.deep_view()
    }

    /// Relative and empty entries are excluded, and so are repeated ones. Explicit
    /// executable paths remain available through a profile without consulting this list.
    pub fn from_directories(directories: &Vec<SearchDirectory>) -> (r: ExecutableSearch)
        ensures
            r.listed() == searched(directories.deep_view()),
    {
        let ghost all = directories.deep_view();
        let mut kept: Vec<SearchDirectory> = Vec::new();
        let mut i: usize = 0;
        assert(all.take(0) =~= Seq::empty());
        assert(kept.deep_view() =~= Seq::<SearchDirectoryView>::empty());
        while i < directories.len()
            invariant
                i <= directories.len(),
                all == directories.deep_view(),
                kept.deep_view() == searched(all.take(i as int)),
            decreases directories.len() - i,
        {
            assert(all.take(i + 1).drop_last() =~= all.take(i as int));
            assert(all.take(i + 1).last() == directories@[i as int].deep_view());
            let directory = &directories[i];
            if directory.absolute && !is_listed(&kept, &directory.canonical) {
                let ghost before = kept.deep_view();
                kept.push(directory.duplicate());
                assert(kept.deep_view() =~= before.push(all[i as int]));
            }
            i = i + 1;
        }
        assert(all.take(i as int) =~= all);
        ExecutableSearch { directories: kept }
    }

    /// The places where a program may be, in the order in which they are tried. `simple`
    /// tells whether the name is a single component of a path; another name is not looked
    /// for.
    pub fn attempts(&self, name: &str, simple: bool, windows: bool) -> (r: Vec<Attempt>)
        ensures
            r.deep_view() == if simple {
                places(self.listed(), name@, suffixes_of(windows))
            } else {
                Seq::empty()
            },
    {
        let mut r: Vec<Attempt> = Vec::new();
        assert(r.deep_view() =~= Seq::<AttemptView>::empty());
        if !simple {
            return r;
        }
        let suffixes = executable_suffixes(windows);
        let ghost endings = suffixes.deep_view();
        let ghost all = self.listed();
        let mut i: usize = 0;
        assert(all.take(0) =~= Seq::empty());
        while i < self.directories.len()
            invariant
                i <= self.directories.len(),
                all == self.listed(),
                endings == suffixes.deep_view(),
                r.deep_view() == places(all.take(i as int), name@, endings),
            decreases self.directories.len() - i,
        {
            assert(all.take(i + 1).drop_last() =~= all.take(i as int));
            assert(all.take(i + 1).last() == self.directories@[i as int].deep_view());
            let ghost before = r.deep_view();
            let ghost more = Seq::new(
                endings.len(),
                |k: int|
                    AttemptView { directory: all[i as int].path, file_name: name@ + endings[k] },
            );
            let mut j: usize = 0;
            assert(before + more.take(0) =~= before);
            while j < suffixes.len()
                invariant
                    j <= suffixes.len(),
                    i < self.directories.len(),
                    all == self.listed(),
                    endings == suffixes.deep_view(),
                    more == Seq::new(
                        endings.len(),
                        |k: int|
                            AttemptView {
                                directory: all[i as int].path,
                                file_name: name@ + endings[k],
                            },
                    ),
                    r.deep_view() == before + more.take(j as int),
                decreases suffixes.len() - j,
            {
                let mut file_name = name.to_owned();
                file_name.append(suffixes[j].as_str());
                assert(endings[j as int] == suffixes@[j as int]@);
                let attempt = Attempt {
                    directory: self.directories[i].path.duplicate(),
                    file_name,
                };
                let ghost view = attempt.deep_view();
                let ghost earlier = r.deep_view();
                r.push(attempt);
                assert(view == more[j as int]);
                assert(r.deep_view() =~= earlier.push(view));
                assert(more.take(j + 1) =~= more.take(j as int).push(more[j as int]));
                assert(r.deep_view() =~= before + more.take(j + 1));
                j = j + 1;
            }
            assert(more.take(j as int) =~= more);
            i = i + 1;
        }
        assert(all.take(i as int) =~= all);
        r
    }
}

fn is_listed(kept: &Vec<SearchDirectory>, canonical: &FilePath) -> (r: bool)
    ensures
        r == exists|i: int|
            0 <= i < kept.deep_view().len() && (#[trigger] kept.deep_view()[i]).canonical
                == canonical.deep_view(),
{
    let mut i: usize = 0;
    while i < kept.len()
        invariant
            i <= kept.len(),
            forall|j: int|
                0 <= j < i ==> (#[trigger] kept.deep_view()[j]).canonical != canonical.deep_view(),
        decreases kept.len() - i,
    {
        assert(kept.deep_view()[i as int] == kept@[i as int].deep_view());
        if kept[i].canonical.same_as(canonical) {
            return true;
        }
        i = i + 1;
    }
    false
}

/// Every directory that is searched is absolute, and none is searched twice.
pub proof fn searches_are_absolute_and_distinct(directories: Seq<SearchDirectoryView>)
    ensures
        forall|i: int|
            0 <= i < searched(directories).len() ==> (#[trigger] searched(directories)[i]).absolute,
        forall|i: int, j: int|
            0 <= i < j < searched(directories).len() ==> (
            #[trigger] searched(directories)[i]).canonical != (
            #[trigger] searched(directories)[j]).canonical,
    decreases directories.len(),
{
    if directories.len() > 0 {
        searches_are_absolute_and_distinct(directories.drop_last());
        let kept = searched(directories.drop_last());
        let all = searched(directories);
        assert forall|i: int| 0 <= i < all.len() implies (#[trigger] all[i]).absolute by {
            if i < kept.len() {
                assert(all[i] == kept[i]);
            }
        }
        assert forall|i: int, j: int| 0 <= i < j < all.len() implies (
        #[trigger] all[i]).canonical != (#[trigger] all[j]).canonical by {
            assert(all[i] == kept[i]);
            if j < kept.len() {
                assert(all[j] == kept[j]);
            }
        }
    }
}

/// A letter in lower case, if it is an ASCII letter.
pub open spec fn ascii_lower(c: char) -> char {
    if 'A' <= c && c <= 'Z' {
        (c as u32 + 32) as char
    } else {
        c
    }
}

/// The texts differ in the case of ASCII letters at most.
pub open spec fn same_ignoring_case(a: Seq<char>, b: Seq<char>) -> bool {
    a.len() == b.len() && forall|i: int|
        0 <= i < a.len() ==> ascii_lower(#[trigger] a[i]) == ascii_lower(b[i])
}

fn to_ascii_lower(c: char) -> (r: char)
    ensures
        r == ascii_lower(c),
{
    match c {
        'A' => 'a',
        'B' => 'b',
        'C' => 'c',
        'D' => 'd',
        'E' => 'e',
        'F' => 'f',
        'G' => 'g',
        'H' => 'h',
        'I' => 'i',
        'J' => 'j',
        'K' => 'k',
        'L' => 'l',
        'M' => 'm',
        'N' => 'n',
        'O' => 'o',
        'P' => 'p',
        'Q' => 'q',
        'R' => 'r',
        'S' => 's',
        'T' => 't',
        'U' => 'u',
        'V' => 'v',
        'W' => 'w',
        'X' => 'x',
        'Y' => 'y',
        'Z' => 'z',
        other => other,
    }
}

fn is_same_ignoring_case(a: &str, b: &str) -> (r: bool)
    ensures
        r == same_ignoring_case(a@, b@),
{
    let n: usize = a.unicode_len();
    if n != b.unicode_len() {
        return false;
    }
    let mut i: usize = 0;
    while i < n
        invariant
            i <= n,
            n == a@.len(),
            n == b@.len(),
            forall|j: int| 0 <= j < i ==> ascii_lower(#[trigger] a@[j]) == ascii_lower(b@[j]),
        decreases n - i,
    {
        if to_ascii_lower(a.get_char(i)) != to_ascii_lower(b.get_char(i)) {
            return false;
        }
        i = i + 1;
    }
    true
}

/// The file is a batch file, which cannot be launched without a shell.
pub open spec fn batch_file(extension: Option<Seq<char>>) -> bool {
    extension matches Some(text) && (same_ignoring_case(text, "cmd"@) || same_ignoring_case(
        text,
        "bat"@,
    ))
}

/// The bytes up to the first line feed.
pub open spec fn first_line(bytes: Seq<u8>) -> Seq<u8>
    decreases bytes.len(),
{
    if bytes.len() == 0 || bytes[0] == 10 {
        Seq::empty()
    } else {
        seq![bytes[0]] + first_line(bytes.skip(1))
    }
}

/// The line that tells that a file is a script for Node.
pub open spec fn node_line(line: Seq<char>) -> bool {
    line == "#!/usr/bin/env node"@ || line == "#!/usr/bin/node"@ || line
        == "#!/usr/local/bin/node"@
}

/// The file says that it is a script for Node.
pub open spec fn says_node(prefix: Seq<u8>) -> bool {
    valid_utf8(first_line(prefix)) && node_line(trimmed(decode_utf8(first_line(prefix))))
}

fn take_first_line(bytes: &Vec<u8>) -> (r: Vec<u8>)
    ensures
        r@ == first_line(bytes@),
{
    let mut r: Vec<u8> = Vec::new();
    let mut i: usize = 0;
    assert(bytes@.skip(0) =~= bytes@);
    assert(r@ + first_line(bytes@) =~= first_line(bytes@));
    while i < bytes.len()
        invariant
            i <= bytes.len(),
            r@ + first_line(bytes@.skip(i as int)) == first_line(bytes@),
        decreases bytes.len() - i,
    {
        assert(bytes@.skip(i as int)[0] == bytes@[i as int]);
        assert(bytes@.skip(i as int).skip(1) =~= bytes@.skip(i + 1));
        if bytes[i] == 10 {
            assert(r@ =~= r@ + Seq::<u8>::empty());
            return r;
        }
        let ghost before = r@;
        let ghost rest = first_line(bytes@.skip(i + 1));
        r.push(bytes[i]);
        assert(r@ + rest =~= before + (seq![bytes@[i as int]] + rest));
        i = i + 1;
    }
    assert(r@ =~= r@ + Seq::<u8>::empty());
    r
}

fn does_say_node(prefix: &Vec<u8>) -> (r: bool)
    ensures
        r == says_node(prefix@),
{
    let line = take_first_line(prefix);
    match utf8_text(&line) {
        None => false,
        Some(text) => {
            proof {
                vstd::utf8::encode_utf8_decode_utf8(text@);
            }
            let line = text.as_str().trim();
            same_text(line, "#!/usr/bin/env node") || same_text(line, "#!/usr/bin/node")
                || same_text(line, "#!/usr/local/bin/node")
        },
    }
}

/// The namespace of what a provider leaves behind under a profile. Both parts are
/// preceded by their lengths, so that separators within them cannot cause collisions.
pub open spec fn profile_scope(provider: Seq<char>, scope: Seq<char>) -> Seq<char> {
    "provider/"@ + decimal(bytes_of(provider)) + ":"@ + provider + "/profile/"@ + decimal(
        bytes_of(scope),
    ) + ":"@ + scope
}

/// Different providers and profiles have different namespaces.
pub proof fn profile_scopes_do_not_collide(
    provider_a: Seq<char>,
    scope_a: Seq<char>,
    provider_b: Seq<char>,
    scope_b: Seq<char>,
)
    requires
        profile_scope(provider_a, scope_a) == profile_scope(provider_b, scope_b),
    ensures
        provider_a == provider_b,
        scope_a == scope_b,
{
    let start = "provider/"@;
    let middle = "/profile/"@;
    let tail_a = middle + counted(scope_a);
    let tail_b = middle + counted(scope_b);
    let whole_a = counted(provider_a) + tail_a;
    let whole_b = counted(provider_b) + tail_b;
    assert(profile_scope(provider_a, scope_a) =~= start + whole_a);
    assert(profile_scope(provider_b, scope_b) =~= start + whole_b);
    assert(whole_a =~= profile_scope(provider_a, scope_a).skip(start.len() as int));
    assert(whole_b =~= profile_scope(provider_b, scope_b).skip(start.len() as int));
    counted_texts_do_not_collide(provider_a, tail_a, provider_b, tail_b);
    assert(counted(scope_a) =~= tail_a.skip(middle.len() as int));
    assert(counted(scope_b) =~= tail_b.skip(middle.len() as int));
    assert(counted(scope_a) + Seq::<char>::empty() =~= counted(scope_a));
    assert(counted(scope_b) + Seq::<char>::empty() =~= counted(scope_b));
    counted_texts_do_not_collide(scope_a, Seq::empty(), scope_b, Seq::empty());
}

fn make_profile_scope(provider: &str, scope: &str) -> (r: String)
    ensures
        r@ == profile_scope(provider@, scope@),
{
    let mut text = "provider/".to_owned();
    text.append(decimal_text(byte_len(provider) as u64).as_str());
    text.append(":");
    text.append(provider);
    text.append("/profile/");
    text.append(decimal_text(byte_len(scope) as u64).as_str());
    text.append(":");
    text.append(scope);
    text
}

/// The file that a profile launches, once its command was looked for.
pub open spec fn entry_of(profile: ProviderProfileView, command: Option<FilePathView>) -> Option<
    FilePathView,
> {
    match profile.target {
        LaunchTargetView::Discover => command,
        LaunchTargetView::Executable(path) => Some(path),
        LaunchTargetView::NodeScript(path) => Some(path),
    }
}

/// Names, directories and scopes have to say something.
pub open spec fn profile_valid(profile: ProviderProfileView) -> bool {
    !blank(profile.definition.id) && !blank(profile.definition.driver) && !blank(profile.scope)
}

/// What is reported before anything is examined.
pub open spec fn first_report(profile: ProviderProfileView, findings: FindingsView) -> InstallationReportView {
    InstallationReportView {
        provider: profile.definition.id,
        driver: profile.definition.driver,
        standalone_cli: if profile.definition.standalone_cli is Some {
            findings.standalone_cli
        } else {
            None
        },
        entrypoint: None,
        runtime: None,
        issues: Seq::empty(),
        setup: profile.definition.setup,
    }
}

/// Why a file cannot be launched as it is.
pub open spec fn file_issue(
    target: LaunchTargetView,
    path: FilePathView,
    entry: FileFactsView,
) -> Option<SetupIssueView> {
    if !entry.absolute {
        Some(SetupIssueView::InvalidPath(path))
    } else if !entry.file {
        Some(SetupIssueView::MissingFile(path))
    } else if !(target is NodeScript) && !entry.executable {
        Some(SetupIssueView::NotExecutable(path))
    } else if batch_file(entry.extension) {
        Some(SetupIssueView::UnsupportedLauncher(path))
    } else if entry.prefix is None {
        Some(SetupIssueView::Unreadable(path))
    } else {
        None
    }
}

/// How the file is launched: the program and the arguments before the provider's own,
/// with the runtime that it needs.
pub open spec fn program_of(
    target: LaunchTargetView,
    path: FilePathView,
    prefix: Seq<u8>,
    node: Option<FilePathView>,
) -> Result<(FilePathView, Seq<Seq<char>>, Option<FilePathView>), SetupIssueView> {
    if target is NodeScript || says_node(prefix) {
        match node {
            None => Err(SetupIssueView::MissingRuntime("node"@)),
            Some(node) => if valid_utf8(path.bytes) {
                Ok((node, seq![decode_utf8(path.bytes)], Some(node)))
            } else {
                Err(SetupIssueView::InvalidPath(path))
            },
        }
    } else {
        Ok((path, Seq::empty(), None))
    }
}

/// What the findings say of a profile: the report, and how the provider is launched if
/// it can be.
pub open spec fn inspected(profile: ProviderProfileView, findings: FindingsView) -> (
    InstallationReportView,
    Option<ResolvedProviderView>,
) {
    let bare = first_report(profile, findings);
    let command = profile.definition.command;
    if !profile_valid(profile) {
        (InstallationReportView { issues: seq![SetupIssueView::InvalidProfile], ..bare }, None)
    } else {
        match entry_of(profile, findings.command) {
            None => {
                let issue = if profile.definition.adapter_required {
                    SetupIssueView::MissingAdapter(command)
                } else {
                    SetupIssueView::MissingCli(command)
                };
                (InstallationReportView { issues: seq![issue], ..bare }, None)
            },
            Some(path) => {
                let named = InstallationReportView { entrypoint: Some(path), ..bare };
                match file_issue(profile.target, path, findings.entry) {
                    Some(issue) => (InstallationReportView { issues: seq![issue], ..named }, None),
                    None => match program_of(
                        profile.target,
                        path,
                        findings.entry.prefix->0,
                        findings.node,
                    ) {
                        Err(issue) => (
                            InstallationReportView { issues: seq![issue], ..named },
                            None,
                        ),
                        Ok((program, before, runtime)) => (
                            InstallationReportView { runtime, ..named },
                            Some(
                                ResolvedProviderView {
                                    definition: profile.definition,
                                    node_runtime: runtime,
                                    launch: ProviderLaunchView {
                                        executable: program,
                                        args: before + profile.definition.args,
                                        env: profile.env,
                                        scope: profile_scope(
                                            profile.definition.id,
                                            profile.scope,
                                        ),
                                    },
                                },
                            ),
                        ),
                    },
                }
            },
        }
    }
}

/// The result of examining a profile.
pub struct Inspection {
    report: InstallationReport,
    resolved: Option<ResolvedProvider>,
}

impl Inspection {
    /// What was found.
    pub closed spec fn reported(&self) -> InstallationReportView {
        self.report.deep_view()
    }

    /// How the provider is launched, if it can be.
    pub closed spec fn resolution(&self) -> Option<ResolvedProviderView> {
        self.resolved.deep_view()
    }

    /// What was found.
    pub fn report(&self) -> (r: &InstallationReport)
        ensures
            r.deep_view() == self.reported(),
    {
        &self.report
    }

    /// Ready to attempt a connection, not proof of login or model access.
    pub fn is_launchable(&self) -> (r: bool)
        ensures
            r == (self.resolution() is Some),
    {
        self.resolved.is_some()
    }

    /// How the provider is launched, or what is in the way.
    pub fn into_resolved(self) -> (r: Result<ResolvedProvider, Box<InstallationReport>>)
        ensures
            match r {
                Ok(resolved) => self.resolution() == Some(resolved.deep_view()),
                Err(report) => self.resolution() is None && report.deep_view()
                    == self.reported(),
            },
    {
        match self.resolved {
            Some(resolved) => Ok(resolved),
            None => Err(Box::new(self.report)),
        }
    }
}

impl ResolvedProvider {
    /// The provider.
    pub fn definition(&self) -> (r: &ProviderDefinition)
        ensures
            r.deep_view() == self.deep_view().definition,
    {
        &self.definition
    }

    /// How it is launched.
    pub fn launch(&self) -> (r: &ProviderLaunch)
        ensures
            r.deep_view() == self.deep_view().launch,
    {
        &self.launch
    }
}

/// The file that a profile launches, once its command was looked for.
pub fn entrypoint(profile: &ProviderProfile, command: &Option<FilePath>) -> (r: Option<FilePath>)
    ensures
        r.deep_view() == entry_of(profile.deep_view(), command.deep_view()),
{
    match &profile.target {
        LaunchTarget::Discover => command.duplicate(),
        LaunchTarget::Executable(path) => Some(path.duplicate()),
        LaunchTarget::NodeScript(path) => Some(path.duplicate()),
    }
}

fn find_file_issue(target: &LaunchTarget, path: &FilePath, entry: &FileFacts) -> (r: Option<
    SetupIssue,
>)
    ensures
        r.deep_view() == file_issue(target.deep_view(), path.deep_view(), entry.deep_view()),
{
    if !entry.absolute {
        return Some(SetupIssue::InvalidPath(path.duplicate()));
    }
    if !entry.file {
        return Some(SetupIssue::MissingFile(path.duplicate()));
    }
    if !matches!(target, LaunchTarget::NodeScript(_)) && !entry.executable {
        return Some(SetupIssue::NotExecutable(path.duplicate()));
    }
    let batch = match &entry.extension {
        Some(text) => is_same_ignoring_case(text.as_str(), "cmd") || is_same_ignoring_case(
            text.as_str(),
            "bat",
        ),
        None => false,
    };
    if batch {
        return Some(SetupIssue::UnsupportedLauncher(path.duplicate()));
    }
    if entry.prefix.is_none() {
        return Some(SetupIssue::Unreadable(path.duplicate()));
    }
    None
}

fn find_program(
    target: &LaunchTarget,
    path: &FilePath,
    prefix: &Vec<u8>,
    node: &Option<FilePath>,
) -> (r: Result<(FilePath, Vec<String>, Option<FilePath>), SetupIssue>)
    ensures
        match r {
            Ok((program, before, runtime)) => program_of(
                target.deep_view(),
                path.deep_view(),
                prefix@,
                node.deep_view(),
            ) == Ok::<(FilePathView, Seq<Seq<char>>, Option<FilePathView>), SetupIssueView>(
                (program.deep_view(), before.deep_view(), runtime.deep_view()),
            ),
            Err(issue) => program_of(
                target.deep_view(),
                path.deep_view(),
                prefix@,
                node.deep_view(),
            ) == Err::<(FilePathView, Seq<Seq<char>>, Option<FilePathView>), SetupIssueView>(
                issue.deep_view(),
            ),
        },
{
    if matches!(target, LaunchTarget::NodeScript(_)) || does_say_node(prefix) {
        match node {
            None => Err(SetupIssue::MissingRuntime("node".to_owned())),
            Some(node) => {
                assert(path.bytes.deep_view() =~= path.bytes@);
                match utf8_text(&path.bytes) {
                    None => Err(SetupIssue::InvalidPath(path.duplicate())),
                    Some(script) => {
                        proof {
                            vstd::utf8::encode_utf8_decode_utf8(script@);
                        }
                        let mut before: Vec<String> = Vec::new();
                        before.push(script);
                        assert(before.deep_view() =~= seq![script@]);
                        Ok((node.duplicate(), before, Some(node.duplicate())))
                    },
                }
            },
        }
    } else {
        let before: Vec<String> = Vec::new();
        assert(before.deep_view() =~= Seq::<Seq<char>>::empty());
        Ok((path.duplicate(), before, None))
    }
}

fn one_issue(issue: SetupIssue) -> (r: Vec<SetupIssue>)
    ensures
        r.deep_view() == seq![issue.deep_view()],
{
    let mut issues: Vec<SetupIssue> = Vec::new();
    issues.push(issue);
    assert(issues.deep_view() =~= seq![issue.deep_view()]);
    issues
}

fn join_args(before: Vec<String>, args: &Vec<String>) -> (r: Vec<String>)
    ensures
        r.deep_view() == before.deep_view() + args.deep_view(),
{
    let ghost start = before.deep_view();
    let ghost all = args.deep_view();
    let mut r = before;
    let mut i: usize = 0;
    assert(start + all.take(0) =~= start);
    while i < args.len()
        invariant
            i <= args.len(),
            all == args.deep_view(),
            r.deep_view() == start + all.take(i as int),
        decreases args.len() - i,
    {
        let ghost earlier = r.deep_view();
        r.push(args[i].clone());
        assert(all.take(i + 1) =~= all.take(i as int).push(all[i as int]));
        assert(r.deep_view() =~= earlier.push(all[i as int]));
        assert(r.deep_view() =~= start + all.take(i + 1));
        i = i + 1;
    }
    assert(all.take(i as int) =~= all);
    r
}

impl ProviderProfile {
    /// Examines a profile in the light of what the machine says of it. No shell or
    /// package manager is run, and nothing is launched.
    pub fn inspect(&self, findings: &Findings) -> (r: Inspection)
        ensures
            (r.reported(), r.resolution()) == inspected(
                self.deep_view(),
                findings.deep_view(),
            ),
    {
        let definition = &self.definition;
        let mut report = InstallationReport {
            provider: definition.id.clone(),
            driver: definition.driver.clone(),
            standalone_cli: if definition.standalone_cli.is_some() {
                findings.standalone_cli.duplicate()
            } else {
                None
            },
            entrypoint: None,
            runtime: None,
            issues: Vec::new(),
            setup: definition.setup.duplicate(),
        };
        assert(report.issues.deep_view() =~= Seq::<SetupIssueView>::empty());
        if is_blank(definition.id.as_str()) || is_blank(definition.driver.as_str()) || is_blank(
            self.scope.as_str(),
        ) {
            report.issues = one_issue(SetupIssue::InvalidProfile);
            return Inspection { report, resolved: None };
        }
        let path = match entrypoint(self, &findings.command) {
            Some(path) => path,
            None => {
                let command = definition.command.clone();
                report.issues =
                one_issue(
                    if definition.adapter_required {
                        SetupIssue::MissingAdapter(command)
                    } else {
                        SetupIssue::MissingCli(command)
                    },
                );
                return Inspection { report, resolved: None };
            },
        };
        report.entrypoint = Some(path.duplicate());
        match find_file_issue(&self.target, &path, &findings.entry) {
            Some(issue) => {
                report.issues = one_issue(issue);
                return Inspection { report, resolved: None };
            },
            None => {},
        }
        let found = match &findings.entry.prefix {
            Some(prefix) => {
                assert(prefix.deep_view() =~= prefix@);
                find_program(&self.target, &path, prefix, &findings.node)
            },
            None => Err(SetupIssue::Unreadable(path)),
        };
        match found {
            Err(issue) => {
                report.issues = one_issue(issue);
                Inspection { report, resolved: None }
            },
            Ok((program, before, runtime)) => {
                report.runtime = runtime.duplicate();
                let args = join_args(before, &definition.args);
                let launch = ProviderLaunch {
                    executable: program,
                    args,
                    env: self.env.duplicate(),
                    scope: make_profile_scope(definition.id.as_str(), self.scope.as_str()),
                };
                let resolved = ResolvedProvider {
                    definition: definition.duplicate(),
                    launch,
                    node_runtime: runtime,
                };
                Inspection { report, resolved: Some(resolved) }
            },
        }
    }
}

/// A provider is either launchable or there is exactly one issue, and never both.
pub proof fn inspections_are_decided(profile: ProviderProfileView, findings: FindingsView)
    ensures
        inspected(profile, findings).1 is Some <==> inspected(profile, findings).0.issues.len()
            == 0,
        inspected(profile, findings).0.issues.len() <= 1,
{
}

} // verus!
