//! What holds of whole resolutions: sequences of events and the resolver's
//! answers to them.

use vstd::prelude::*;
use crate::command::{repository_spec, stem_spec};
use crate::error::ResolveError;
use crate::platform::{Os, archive_format_spec, binary_path_spec, version_dir_spec};
use crate::release::has_asset_named;
use crate::resolver::{
    is_stale,
    keeps_memory,
    stale_entries,
    target_asset,
    target_dir,
    target_path,
    transition,
    Action,
    BinaryResolver,
    Event,
    Phase,
    Status,
    Step,
};

verus! {

/// `rs[i]` goes to `rs[i + 1]` on `es[i]`, answering `ss[i]`, for each event.
pub open spec fn is_run(rs: Seq<BinaryResolver>, es: Seq<Event>, ss: Seq<Step>) -> bool {
    &&& rs.len() == es.len() + 1
    &&& ss.len() == es.len()
    &&& forall|i: int|
        #![trigger ss[i]]
        0 <= i < es.len() ==> transition(rs[i], es[i], rs[i + 1], ss[i])
}

/// A resolution that ends well leaves the resolver remembering the path it
/// returned.
pub proof fn lemma_success_is_remembered(
    pre: BinaryResolver,
    event: Event,
    post: BinaryResolver,
    step: Step,
)
    requires
        transition(pre, event, post, step),
        step.action matches Action::Finish(Ok(_)),
    ensures
        post.cached_binary_path matches Some(c) && c@ == step.action->Finish_0->Ok_0@,
        post.phase == Phase::Idle,
{
}

/// Resolving again right after a success, with the binary still in place, asks
/// only whether that file is there and returns the same path: no release
/// lookup and no download.
pub proof fn lemma_repeat_resolution_hits_cache(
    r0: BinaryResolver,
    e0: Event,
    r1: BinaryResolver,
    s1: Step,
    r2: BinaryResolver,
    s2: Step,
    r3: BinaryResolver,
    s3: Step,
)
    requires
        transition(r0, e0, r1, s1),
        s1.action matches Action::Finish(Ok(_)),
        transition(r1, Event::Resolve, r2, s2),
        transition(r2, Event::FileChecked(true), r3, s3),
    ensures
        s2.report is None,
        s2.action matches Action::CheckFile(c) && c@ == s1.action->Finish_0->Ok_0@,
        s3.report is None,
        s3.action matches Action::Finish(Ok(p)) && p@ == s1.action->Finish_0->Ok_0@,
        r3.cached_binary_path == r1.cached_binary_path,
        r3.phase == Phase::Idle,
{
    lemma_success_is_remembered(r0, e0, r1, s1);
}

/// The events that start a resolution whose remembered binary, if any, is no
/// longer a regular file.
pub open spec fn start_events(r: BinaryResolver) -> Seq<Event> {
    if r.cached_binary_path is Some {
        seq![Event::Resolve, Event::FileChecked(false)]
    } else {
        seq![Event::Resolve]
    }
}

/// A resolution with nothing usable remembered reports that it checks for
/// updates and asks for the latest release, remembering what it did before.
pub proof fn lemma_resolution_starts(rs: Seq<BinaryResolver>, es: Seq<Event>, ss: Seq<Step>)
    requires
        is_run(rs, es, ss),
        es == start_events(rs[0]),
    ensures
        rs.last().phase == Phase::FetchingRelease,
        keeps_memory(rs[0], rs.last()),
        rs.last().tool == rs[0].tool,
        rs.last().platform == rs[0].platform,
        ss.last().report == Some(Status::CheckingForUpdate),
        ss.last().action matches Action::FetchRelease(repo) && repo@ == repository_spec(rs[0].tool),
{
    assert(transition(rs[0], es[0], rs[1], ss[0]));
    if rs[0].cached_binary_path is Some {
        assert(transition(rs[1], es[1], rs[2], ss[1]));
    }
}

/// The events of an installation that goes through, once the latest release
/// was asked for: the release comes back and carries the asset for the
/// platform, its binary is not installed yet, the download works, the working
/// directory then holds `entries`, cleanup is done and the binary is made
/// executable.
pub open spec fn install_events(r: BinaryResolver, entries: Seq<String>, es: Seq<Event>) -> bool {
    &&& es.len() == 6
    &&& es[0] matches Event::ReleaseFetched(Ok(rel)) && has_asset_named(
        rel.assets@,
        target_asset(r),
    )
    &&& es[1] == Event::FileChecked(false)
    &&& es[2] matches Event::Downloaded(Ok(_))
    &&& es[3] matches Event::Listed(Ok(found)) && found@ == entries
    &&& es[4] == Event::Removed
    &&& es[5] matches Event::MadeExecutable(Ok(_))
}

/// The version that an installation run installs.
pub open spec fn installed_version(es: Seq<Event>) -> Seq<char> {
    es[0]->ReleaseFetched_0->Ok_0.version@
}

/// An installation downloads the platform's archive into the version
/// directory of the release, removes every other entry of the working
/// directory, makes the binary in that directory executable, reports that it
/// is done, and returns and remembers that binary's path.
pub proof fn lemma_install_run(
    rs: Seq<BinaryResolver>,
    es: Seq<Event>,
    ss: Seq<Step>,
    entries: Seq<String>,
)
    requires
        is_run(rs, es, ss),
        rs[0].phase == Phase::FetchingRelease,
        install_events(rs[0], entries, es),
    ensures
        ({
            let stem = stem_spec(rs[0].tool);
            let dir = version_dir_spec(stem, installed_version(es));
            let bin = binary_path_spec(stem, installed_version(es), rs[0].platform.os);
            &&& ss[1].report == Some(Status::Downloading)
            &&& ss[1].action matches Action::Download { dir: d, format, .. } && d@ == dir
                && format == archive_format_spec(rs[0].platform.os)
            &&& ss[3].action matches Action::RemoveDirs(rm) && rm@ == stale_entries(entries, dir)
            &&& ss[4].action matches Action::MakeExecutable(p) && p@ == bin
            &&& ss[5].report == Some(Status::Idle)
            &&& ss[5].action matches Action::Finish(Ok(p)) && p@ == bin
            &&& rs[6].cached_binary_path matches Some(c) && c@ == bin
            &&& rs[6].phase == Phase::Idle
        }),
{
    assert(transition(rs[0], es[0], rs[1], ss[0]));
    assert(transition(rs[1], es[1], rs[2], ss[1]));
    assert(transition(rs[2], es[2], rs[3], ss[2]));
    assert(transition(rs[3], es[3], rs[4], ss[3]));
    assert(transition(rs[4], es[4], rs[5], ss[4]));
    assert(transition(rs[5], es[5], rs[6], ss[5]));
}

/// A cold start: the resolver remembers no binary and the working directory
/// is empty, so after the download the new version directory is its only
/// entry. The resolution then checks for updates, removes nothing, leaves that
/// directory as the only one, and returns the executable binary inside it.
pub proof fn lemma_cold_start_leaves_one_directory(
    qs: Seq<BinaryResolver>,
    fs: Seq<Event>,
    ts: Seq<Step>,
    rs: Seq<BinaryResolver>,
    es: Seq<Event>,
    ss: Seq<Step>,
    entries: Seq<String>,
)
    requires
        qs[0].cached_binary_path is None,
        is_run(qs, fs, ts),
        fs == start_events(qs[0]),
        is_run(rs, es, ss),
        rs[0] == qs.last(),
        install_events(rs[0], entries, es),
        entries.len() == 1,
        entries[0]@ == version_dir_spec(stem_spec(qs[0].tool), installed_version(es)),
    ensures
        ({
            let stem = stem_spec(qs[0].tool);
            let dir = version_dir_spec(stem, installed_version(es));
            let bin = binary_path_spec(stem, installed_version(es), qs[0].platform.os);
            &&& ts.last().action is FetchRelease
            &&& ss[1].action matches Action::Download { dir: d, .. } && d@ == dir
            &&& ss[3].action matches Action::RemoveDirs(rm) && rm@.len() == 0
            &&& bin.subrange(0, dir.len() as int + 1) == dir + "/"@
            &&& ss[4].action matches Action::MakeExecutable(p) && p@ == bin
            &&& ss[5].action matches Action::Finish(Ok(p)) && p@ == bin
        }),
{
    lemma_resolution_starts(qs, fs, ts);
    lemma_install_run(rs, es, ss, entries);
    let stem = stem_spec(qs[0].tool);
    let dir = version_dir_spec(stem, installed_version(es));
    reveal_with_fuel(Seq::filter, 2);
    assert(entries.drop_last() =~= Seq::<String>::empty());
    assert(!is_stale(dir)(entries.last()));
    assert(stale_entries(entries, dir) =~= Seq::<String>::empty());
    let bin = binary_path_spec(stem, installed_version(es), qs[0].platform.os);
    reveal_strlit("/");
    let head = dir + "/"@;
    assert(bin == head + (stem + if qs[0].platform.os == Os::Windows {
        ".exe"@
    } else {
        ""@
    }));
    assert(bin.subrange(0, head.len() as int) =~= head);
}

/// Cleanup keeps the current version directory and nothing else: of the
/// listed entries, exactly those not named after it are removed.
pub proof fn lemma_cleanup_keeps_only_current(
    pre: BinaryResolver,
    entries: Vec<String>,
    post: BinaryResolver,
    step: Step,
)
    requires
        pre.phase == Phase::Listing,
        transition(pre, Event::Listed(Ok(entries)), post, step),
    ensures
        step.action matches Action::RemoveDirs(rm) && {
            &&& forall|i: int|
                0 <= i < entries@.len() ==> (rm@.contains(#[trigger] entries@[i]) <==> entries@[i]@
                    != target_dir(pre))
            &&& forall|j: int| 0 <= j < rm@.len() ==> entries@.contains(#[trigger] rm@[j])
        },
{
    let dir = target_dir(pre);
    let pred = is_stale(dir);
    let rm = step.action->RemoveDirs_0;
    assert forall|i: int| 0 <= i < entries@.len() implies (rm@.contains(
        #[trigger] entries@[i],
    ) <==> entries@[i]@ != dir) by {
        if entries@[i]@ != dir {
            entries@.lemma_filter_contains(pred, i);
        } else if rm@.contains(entries@[i]) {
            let j = choose|j: int| 0 <= j < rm@.len() && rm@[j] == entries@[i];
            entries@.lemma_filter_pred(pred, j);
        }
    }
    assert forall|j: int| 0 <= j < rm@.len() implies entries@.contains(#[trigger] rm@[j]) by {
        entries@.lemma_filter_contains_rev(pred, rm@[j]);
    }
}

/// A failed download commits nothing: the resolution ends with the download
/// error, and the resolver is idle and remembers what it did before. A new
/// resolution that finds the same release then installs into the same version
/// directory, whatever the failed attempt left in the working directory, and
/// succeeds.
pub proof fn lemma_retry_after_failed_download(
    pre: BinaryResolver,
    reason: String,
    post: BinaryResolver,
    step: Step,
    qs: Seq<BinaryResolver>,
    fs: Seq<Event>,
    ts: Seq<Step>,
    rs: Seq<BinaryResolver>,
    es: Seq<Event>,
    ss: Seq<Step>,
    entries: Seq<String>,
)
    requires
        pre.phase == Phase::Downloading,
        transition(pre, Event::Downloaded(Err(reason)), post, step),
        is_run(qs, fs, ts),
        qs[0] == post,
        fs == start_events(post),
        is_run(rs, es, ss),
        rs[0] == qs.last(),
        install_events(rs[0], entries, es),
        installed_version(es) == pre.release.version@,
    ensures
        step.action == Action::Finish(Err(ResolveError::Download(reason))),
        post.phase == Phase::Idle,
        post.cached_binary_path == pre.cached_binary_path,
        ss[1].action matches Action::Download { dir: d, .. } && d@ == target_dir(pre),
        ss[5].action matches Action::Finish(Ok(p)) && p@ == target_path(pre),
        rs[6].cached_binary_path matches Some(c) && c@ == target_path(pre),
{
    lemma_resolution_starts(qs, fs, ts);
    lemma_install_run(rs, es, ss, entries);
}

} // verus!
