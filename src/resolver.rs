use vstd::prelude::*;
use crate::command::{repository_spec, stem_spec, Tool};
use crate::error::ResolveError;
use crate::platform::{
    archive_format_spec,
    asset_name_spec,
    binary_path,
    binary_path_spec,
    version_dir,
    version_dir_spec,
    ArchiveFormat,
    Platform,
};
use crate::release::{has_asset_named, is_first_named, match_asset, ReleaseInfo};

verus! {

/// Installation progress that the host shows to the user.
#[derive(Clone, Copy, Debug, PartialEq, Eq, Structural)]
pub enum Status {
    CheckingForUpdate,
    Downloading,
    Idle,
}

/// What the resolver is waiting for.
#[derive(Clone, Copy, Debug, PartialEq, Eq, Structural)]
pub enum Phase {
    /// No resolution is under way.
    Idle,
    /// Whether the remembered binary is still a regular file.
    CheckingCached,
    /// The latest release.
    FetchingRelease,
    /// Whether the binary of the latest release is already a regular file.
    CheckingInstalled,
    /// The download and unpacking of the asset.
    Downloading,
    /// The entries of the working directory.
    Listing,
    /// The removal of stale version directories.
    Removing,
    /// Making the binary executable.
    MarkingExecutable,
}

/// What the host reports back after performing an action.
#[derive(Debug)]
pub enum Event {
    /// The host wants a runnable binary path.
    Resolve,
    /// Whether the path of the last `CheckFile` is an existing regular file.
    FileChecked(bool),
    /// The latest non-prerelease release that has assets, or why there is none.
    ReleaseFetched(Result<ReleaseInfo, String>),
    /// The outcome of a `Download`.
    Downloaded(Result<(), String>),
    /// The names of the top-level entries of the working directory.
    Listed(Result<Vec<String>, String>),
    /// The `RemoveDirs` was carried out; failures to remove are only logged.
    Removed,
    /// The outcome of a `MakeExecutable`.
    MadeExecutable(Result<(), String>),
}

/// What the host is asked to do next.
#[derive(Debug)]
pub enum Action {
    /// Check whether the path is an existing regular file.
    CheckFile(String),
    /// Look up the latest non-prerelease release with assets of the repository.
    FetchRelease(String),
    /// Download the asset at `url` and unpack it into the directory `dir`.
    Download { url: String, dir: String, format: ArchiveFormat },
    /// List the top-level entries of the working directory.
    ListWorkingDir,
    /// Remove each of these directories, ignoring failures.
    RemoveDirs(Vec<String>),
    /// Make the file executable.
    MakeExecutable(String),
    /// The resolution is over, with this outcome.
    Finish(Result<String, ResolveError>),
    /// The event answered nothing that was asked; nothing to do.
    Ignore,
}

/// One answer of the resolver: a status to report first, if any, and the next
/// action.
#[derive(Debug)]
pub struct Step {
    pub report: Option<Status>,
    pub action: Action,
}

/// The decisions of binary resolution, driven by the host's events.
#[derive(Debug)]
pub struct BinaryResolver {
    pub tool: Tool,
    pub platform: Platform,
    /// The binary that the last successful resolution produced.
    pub cached_binary_path: Option<String>,
    pub phase: Phase,
    /// The release being installed, once fetched.
    pub release: ReleaseInfo,
}

/// The version directory of the release being installed.
pub open spec fn target_dir(r: BinaryResolver) -> Seq<char> {
    version_dir_spec(stem_spec(r.tool), r.release.version@)
}

/// The binary path of the release being installed.
pub open spec fn target_path(r: BinaryResolver) -> Seq<char> {
    binary_path_spec(stem_spec(r.tool), r.release.version@, r.platform.os)
}

/// The name of the asset the resolver looks for.
pub open spec fn target_asset(r: BinaryResolver) -> Seq<char> {
    asset_name_spec(stem_spec(r.tool), r.platform.os, r.platform.arch@)
}

/// Whether an entry of the working directory is stale next to version
/// directory `dir`.
pub open spec fn is_stale(dir: Seq<char>) -> spec_fn(String) -> bool {
    |e: String| e@ != dir
}

/// The entries other than `dir`, in their order.
pub open spec fn stale_entries(entries: Seq<String>, dir: Seq<char>) -> Seq<String> {
    entries.filter(is_stale(dir))
}

/// `post` keeps what `pre` remembers and what it is installing.
pub open spec fn keeps_memory(pre: BinaryResolver, post: BinaryResolver) -> bool {
    post.cached_binary_path == pre.cached_binary_path && post.release == pre.release
}

/// Stay as before and do nothing.
pub open spec fn ignored(pre: BinaryResolver, post: BinaryResolver, step: Step) -> bool {
    &&& post.phase == pre.phase
    &&& keeps_memory(pre, post)
    &&& step.report is None
    &&& step.action is Ignore
}

/// Report that updates are being checked and ask for the latest release.
pub open spec fn starts_fetch(pre: BinaryResolver, post: BinaryResolver, step: Step) -> bool {
    &&& post.phase == Phase::FetchingRelease
    &&& keeps_memory(pre, post)
    &&& step.report == Some(Status::CheckingForUpdate)
    &&& step.action matches Action::FetchRelease(repo) && repo@ == repository_spec(pre.tool)
}

/// End the resolution with `err`, remembering nothing new.
pub open spec fn fails(pre: BinaryResolver, post: BinaryResolver, step: Step, err: ResolveError) -> bool {
    &&& post.phase == Phase::Idle
    &&& keeps_memory(pre, post)
    &&& step.report is None
    &&& step.action == Action::Finish(Err(err))
}

/// End the resolution with the binary of the release being installed, and
/// remember it.
pub open spec fn succeeds(pre: BinaryResolver, post: BinaryResolver, step: Step) -> bool {
    &&& post.phase == Phase::Idle
    &&& post.release == pre.release
    &&& post.cached_binary_path matches Some(c) && c@ == target_path(pre)
    &&& step.action matches Action::Finish(Ok(p)) && p@ == target_path(pre)
}

/// Move to `phase`, keeping memory, with no status to report.
pub open spec fn advances(
    pre: BinaryResolver,
    post: BinaryResolver,
    step: Step,
    phase: Phase,
) -> bool {
    &&& post.phase == phase
    &&& keeps_memory(pre, post)
    &&& step.report is None
}

pub open spec fn on_resolve(pre: BinaryResolver, post: BinaryResolver, step: Step) -> bool {
    match pre.cached_binary_path {
        Some(p) => advances(pre, post, step, Phase::CheckingCached) && step.action
            == Action::CheckFile(p),
        None => starts_fetch(pre, post, step),
    }
}

pub open spec fn on_cached_checked(
    pre: BinaryResolver,
    is_file: bool,
    post: BinaryResolver,
    step: Step,
) -> bool {
    if is_file && pre.cached_binary_path is Some {
        advances(pre, post, step, Phase::Idle) && step.action == Action::Finish(
            Ok(pre.cached_binary_path->0),
        )
    } else {
        starts_fetch(pre, post, step)
    }
}

pub open spec fn on_release(
    pre: BinaryResolver,
    result: Result<ReleaseInfo, String>,
    post: BinaryResolver,
    step: Step,
) -> bool {
    match result {
        Err(e) => fails(pre, post, step, ResolveError::Release(e)),
        Ok(rel) => {
            &&& post.phase == Phase::CheckingInstalled
            &&& post.cached_binary_path == pre.cached_binary_path
            &&& post.release == rel
            &&& step.report is None
            &&& step.action matches Action::CheckFile(p) && p@ == target_path(post)
        },
    }
}

pub open spec fn on_installed_checked(
    pre: BinaryResolver,
    is_file: bool,
    post: BinaryResolver,
    step: Step,
) -> bool {
    if is_file {
        succeeds(pre, post, step) && step.report is None
    } else if !has_asset_named(pre.release.assets@, target_asset(pre)) {
        &&& post.phase == Phase::Idle
        &&& keeps_memory(pre, post)
        &&& step.report == Some(Status::Downloading)
        &&& step.action matches Action::Finish(Err(ResolveError::AssetNotFound(n))) && n@
            == target_asset(pre)
    } else {
        &&& post.phase == Phase::Downloading
        &&& keeps_memory(pre, post)
        &&& step.report == Some(Status::Downloading)
        &&& step.action matches Action::Download { url, dir, format } && {
            &&& exists|i: int|
                is_first_named(pre.release.assets@, target_asset(pre), i)
                    && url == pre.release.assets@[i].download_url
            &&& dir@ == target_dir(pre)
            &&& format == archive_format_spec(pre.platform.os)
        }
    }
}

pub open spec fn on_downloaded(
    pre: BinaryResolver,
    result: Result<(), String>,
    post: BinaryResolver,
    step: Step,
) -> bool {
    match result {
        Err(e) => fails(pre, post, step, ResolveError::Download(e)),
        Ok(_) => advances(pre, post, step, Phase::Listing) && step.action is ListWorkingDir,
    }
}

pub open spec fn on_listed(
    pre: BinaryResolver,
    result: Result<Vec<String>, String>,
    post: BinaryResolver,
    step: Step,
) -> bool {
    match result {
        Err(e) => fails(pre, post, step, ResolveError::ListDir(e)),
        Ok(entries) => {
            &&& advances(pre, post, step, Phase::Removing)
            &&& step.action matches Action::RemoveDirs(rm) && rm@ == stale_entries(
                entries@,
                target_dir(pre),
            )
        },
    }
}

pub open spec fn on_removed(pre: BinaryResolver, post: BinaryResolver, step: Step) -> bool {
    &&& advances(pre, post, step, Phase::MarkingExecutable)
    &&& step.action matches Action::MakeExecutable(p) && p@ == target_path(pre)
}

pub open spec fn on_made_executable(
    pre: BinaryResolver,
    result: Result<(), String>,
    post: BinaryResolver,
    step: Step,
) -> bool {
    match result {
        Err(e) => fails(pre, post, step, ResolveError::Permission(e)),
        Ok(_) => succeeds(pre, post, step) && step.report == Some(Status::Idle),
    }
}

/// What one event does: from `pre`, `event` leads to `post` and `step`. A
/// resolution request starts over whatever the phase; any other event counts
/// only in the phase that waits for it and is otherwise ignored.
pub open spec fn transition(pre: BinaryResolver, event: Event, post: BinaryResolver, step: Step) -> bool {
    &&& post.tool == pre.tool
    &&& post.platform == pre.platform
    &&& match event {
        Event::Resolve => on_resolve(pre, post, step),
        Event::FileChecked(is_file) => if pre.phase == Phase::CheckingCached {
            on_cached_checked(pre, is_file, post, step)
        } else if pre.phase == Phase::CheckingInstalled {
            on_installed_checked(pre, is_file, post, step)
        } else {
            ignored(pre, post, step)
        },
        Event::ReleaseFetched(result) => if pre.phase == Phase::FetchingRelease {
            on_release(pre, result, post, step)
        } else {
            ignored(pre, post, step)
        },
        Event::Downloaded(result) => if pre.phase == Phase::Downloading {
            on_downloaded(pre, result, post, step)
        } else {
            ignored(pre, post, step)
        },
        Event::Listed(result) => if pre.phase == Phase::Listing {
            on_listed(pre, result, post, step)
        } else {
            ignored(pre, post, step)
        },
        Event::Removed => if pre.phase == Phase::Removing {
            on_removed(pre, post, step)
        } else {
            ignored(pre, post, step)
        },
        Event::MadeExecutable(result) => if pre.phase == Phase::MarkingExecutable {
            on_made_executable(pre, result, post, step)
        } else {
            ignored(pre, post, step)
        },
    }
}

/// The entries of `entries` other than `dir`, in their order.
pub fn stale_dirs(entries: &Vec<String>, dir: &String) -> (r: Vec<String>)
    ensures
        r@ == stale_entries(entries@, dir@),
{
    let mut r: Vec<String> = Vec::new();
    let mut i: usize = 0;
    proof {
        reveal(Seq::filter);
    }
    while i < entries.len()
        invariant
            i <= entries.len(),
            r@ == stale_entries(entries@.take(i as int), dir@),
        decreases entries.len() - i,
    {
        let ghost prefix = entries@.take(i + 1);
        proof {
            reveal(Seq::filter);
            assert(prefix.drop_last() =~= entries@.take(i as int));
            assert(prefix.last() == entries@[i as int]);
        }
        if !(entries[i] == *dir) {
            r.push(entries[i].clone());
        }
        i = i + 1;
        proof {
            assert(prefix =~= entries@.take(i as int));
        }
    }
    proof {
        assert(entries@.take(entries@.len() as int) =~= entries@);
    }
    r
}

impl BinaryResolver {
    /// A resolver for `tool` on `platform` that remembers no binary yet.
    pub fn new(tool: Tool, platform: Platform) -> (r: BinaryResolver)
        ensures
            r.tool == tool,
            r.platform == platform,
            r.cached_binary_path is None,
            r.phase == Phase::Idle,
    {
        BinaryResolver {
            tool,
            platform,
            cached_binary_path: None,
            phase: Phase::Idle,
            release: ReleaseInfo { version: String::new(), assets: Vec::new() },
        }
    }

    fn start_fetch(&mut self) -> (step: Step)
        ensures
            final(self).tool == old(self).tool,
            final(self).platform == old(self).platform,
            starts_fetch(*old(self), *final(self), step),
    {
        self.phase = Phase::FetchingRelease;
        Step {
            report: Some(Status::CheckingForUpdate),
            action: Action::FetchRelease(String::from_str(self.tool.repository())),
        }
    }

    fn fail(&mut self, err: ResolveError) -> (step: Step)
        ensures
            final(self).tool == old(self).tool,
            final(self).platform == old(self).platform,
            fails(*old(self), *final(self), step, err),
    {
        self.phase = Phase::Idle;
        Step { report: None, action: Action::Finish(Err(err)) }
    }

    fn target_dir(&self) -> (r: String)
        ensures
            r@ == target_dir(*self),
    {
        version_dir(self.tool.stem(), self.release.version.as_str())
    }

    fn target_path(&self) -> (r: String)
        ensures
            r@ == target_path(*self),
    {
        binary_path(self.tool.stem(), self.release.version.as_str(), self.platform.os)
    }

    fn succeed(&mut self, report: Option<Status>) -> (step: Step)
        ensures
            final(self).tool == old(self).tool,
            final(self).platform == old(self).platform,
            succeeds(*old(self), *final(self), step),
            step.report == report,
    {
        let path = self.target_path();
        self.cached_binary_path = Some(path.clone());
        self.phase = Phase::Idle;
        Step { report, action: Action::Finish(Ok(path)) }
    }

    fn advance(&mut self, phase: Phase, action: Action) -> (step: Step)
        ensures
            final(self).tool == old(self).tool,
            final(self).platform == old(self).platform,
            advances(*old(self), *final(self), step, phase),
            step.action == action,
    {
        self.phase = phase;
        Step { report: None, action }
    }

    /// Take the host's `event` and say what to do next.
    pub fn handle(&mut self, event: Event) -> (step: Step)
        ensures
            transition(*old(self), event, *final(self), step),
    {
        match event {
            Event::Resolve => match &self.cached_binary_path {
                Some(p) => {
                    let check = Action::CheckFile(p.clone());
                    self.advance(Phase::CheckingCached, check)
                },
                None => self.start_fetch(),
            },
            Event::FileChecked(is_file) => {
                if self.phase == Phase::CheckingCached {
                    let hit = match &self.cached_binary_path {
                        Some(p) if is_file => Some(p.clone()),
                        _ => None,
                    };
                    match hit {
                        Some(p) => self.advance(Phase::Idle, Action::Finish(Ok(p))),
                        None => self.start_fetch(),
                    }
                } else if self.phase == Phase::CheckingInstalled {
                    if is_file {
                        self.succeed(None)
                    } else {
                        match match_asset(&self.release, &self.platform, self.tool.stem()) {
                            Err(e) => {
                                self.phase = Phase::Idle;
                                Step { report: Some(Status::Downloading), action: Action::Finish(Err(e)) }
                            },
                            Ok(asset) => {
                                let dir = self.target_dir();
                                self.phase = Phase::Downloading;
                                Step {
                                    report: Some(Status::Downloading),
                                    action: Action::Download {
                                        url: asset.download_url,
                                        dir,
                                        format: self.platform.archive_format(),
                                    },
                                }
                            },
                        }
                    }
                } else {
                    self.advance(self.phase, Action::Ignore)
                }
            },
            Event::ReleaseFetched(result) => {
                if self.phase == Phase::FetchingRelease {
                    match result {
                        Err(e) => self.fail(ResolveError::Release(e)),
                        Ok(rel) => {
                            self.release = rel;
                            self.phase = Phase::CheckingInstalled;
                            Step { report: None, action: Action::CheckFile(self.target_path()) }
                        },
                    }
                } else {
                    self.advance(self.phase, Action::Ignore)
                }
            },
            Event::Downloaded(result) => {
                if self.phase == Phase::Downloading {
                    match result {
                        Err(e) => self.fail(ResolveError::Download(e)),
                        Ok(_) => self.advance(Phase::Listing, Action::ListWorkingDir),
                    }
                } else {
                    self.advance(self.phase, Action::Ignore)
                }
            },
            Event::Listed(result) => {
                if self.phase == Phase::Listing {
                    match result {
                        Err(e) => self.fail(ResolveError::ListDir(e)),
                        Ok(entries) => {
                            let dir = self.target_dir();
                            let stale = stale_dirs(&entries, &dir);
                            self.advance(Phase::Removing, Action::RemoveDirs(stale))
                        },
                    }
                } else {
                    self.advance(self.phase, Action::Ignore)
                }
            },
            Event::Removed => {
                if self.phase == Phase::Removing {
                    let path = self.target_path();
                    self.advance(Phase::MarkingExecutable, Action::MakeExecutable(path))
                } else {
                    self.advance(self.phase, Action::Ignore)
                }
            },
            Event::MadeExecutable(result) => {
                if self.phase == Phase::MarkingExecutable {
                    match result {
                        Err(e) => self.fail(ResolveError::Permission(e)),
                        Ok(_) => self.succeed(Some(Status::Idle)),
                    }
                } else {
                    self.advance(self.phase, Action::Ignore)
                }
            },
        }
    }
}

} // verus!
