//! Contributor activity over the last thirty days, summed from weekly
//! statistics and ranked by the number of commits.

use vstd::prelude::*;
use vstd::string::StringExecFns;
use crate::text::{decimal, decimal_text, text_eq};

verus! {

/// The length of the window of activity: thirty days, in seconds.
pub open spec fn window_seconds() -> int {
    2_592_000
}

/// The contributions of one week.
#[derive(Debug, Clone, Copy)]
pub struct WeeklyStats {
    /// Start of the week, in seconds since the epoch.
    pub w: i64,
    /// Lines added.
    pub a: u32,
    /// Lines deleted.
    pub d: u32,
    /// Commits.
    pub c: u32,
}

/// The author of contributions.
#[derive(Debug, Clone)]
pub struct Author {
    /// Account name.
    pub login: String,
    /// Address of the avatar.
    pub avatar_url: String,
    /// Kind of account, `Bot` for a bot.
    pub user_type: String,
}

/// The weekly contributions of one author.
#[derive(Debug, Clone)]
pub struct ContributorStats {
    /// Contributions week by week.
    pub weeks: Vec<WeeklyStats>,
    /// The author.
    pub author: Author,
}

/// Aggregated contributor activity for the last thirty days.
#[derive(Debug, Clone)]
pub struct ContributorActivity {
    pub login: String,
    pub avatar_url: String,
    pub commits: u32,
    pub additions: u32,
    pub deletions: u32,
    pub is_bot: bool,
}

/// What a [`ContributorActivity`] holds, as plain text and numbers.
pub struct ContributorActivityView {
    pub login: Seq<char>,
    pub avatar_url: Seq<char>,
    pub commits: int,
    pub additions: int,
    pub deletions: int,
    pub is_bot: bool,
}

impl View for ContributorActivity {
    type V = ContributorActivityView;

    open spec fn view(&self) -> ContributorActivityView {
        ContributorActivityView {
            login: self.login@,
            avatar_url: self.avatar_url@,
            commits: self.commits as int,
            additions: self.additions as int,
            deletions: self.deletions as int,
            is_bot: self.is_bot,
        }
    }
}

/// The views of a sequence of activities.
pub open spec fn activity_views(all: Seq<ContributorActivity>) -> Seq<ContributorActivityView> {
    Seq::new(all.len(), |k: int| all[k]@)
}

impl ContributorActivity {
    /// The line `login (N commits, +A -D lines)`.
    pub open spec fn summary(&self) -> Seq<char> {
        self.login@ + " ("@ + decimal(self.commits as nat) + " commits, +"@ + decimal(
            self.additions as nat,
        ) + " -"@ + decimal(self.deletions as nat) + " lines)"@
    }

    /// Formats the activity as `login (N commits, +A -D lines)`.
    pub fn to_string(&self) -> (r: String)
        ensures
            r@ == self.summary(),
    {
        self.login.clone().concat(" (").concat(decimal_text(self.commits as u64).as_str()).concat(
            " commits, +",
        ).concat(decimal_text(self.additions as u64).as_str()).concat(" -").concat(
            decimal_text(self.deletions as u64).as_str(),
        ).concat(" lines)")
    }
}

/// Whether a week starts within the window that begins at `window_start`.
pub open spec fn is_recent(week: WeeklyStats, window_start: int) -> bool {
    week.w >= window_start
}

/// The number of recent weeks.
pub open spec fn recent_weeks(weeks: Seq<WeeklyStats>, window_start: int) -> int
    decreases weeks.len(),
{
    if weeks.len() == 0 {
        0
    } else {
        recent_weeks(weeks.drop_last(), window_start) + if is_recent(weeks.last(), window_start) {
            1int
        } else {
            0int
        }
    }
}

/// The commits of the recent weeks.
pub open spec fn recent_commits(weeks: Seq<WeeklyStats>, window_start: int) -> int
    decreases weeks.len(),
{
    if weeks.len() == 0 {
        0
    } else {
        recent_commits(weeks.drop_last(), window_start) + if is_recent(weeks.last(), window_start) {
            weeks.last().c as int
        } else {
            0int
        }
    }
}

/// The lines added in the recent weeks.
pub open spec fn recent_additions(weeks: Seq<WeeklyStats>, window_start: int) -> int
    decreases weeks.len(),
{
    if weeks.len() == 0 {
        0
    } else {
        recent_additions(weeks.drop_last(), window_start) + if is_recent(
            weeks.last(),
            window_start,
        ) {
            weeks.last().a as int
        } else {
            0int
        }
    }
}

/// The lines deleted in the recent weeks.
pub open spec fn recent_deletions(weeks: Seq<WeeklyStats>, window_start: int) -> int
    decreases weeks.len(),
{
    if weeks.len() == 0 {
        0
    } else {
        recent_deletions(weeks.drop_last(), window_start) + if is_recent(
            weeks.last(),
            window_start,
        ) {
            weeks.last().d as int
        } else {
            0int
        }
    }
}

/// Whether the sums over the recent weeks of an author fit the counters of
/// an activity.
pub open spec fn sums_fit(stat: ContributorStats, window_start: int) -> bool {
    &&& recent_commits(stat.weeks@, window_start) <= u32::MAX
    &&& recent_additions(stat.weeks@, window_start) <= u32::MAX
    &&& recent_deletions(stat.weeks@, window_start) <= u32::MAX
}

/// The activity of an author in the window: none where no week is recent or
/// the recent weeks hold no commit, else the sums over the recent weeks.
pub open spec fn activity_of(stat: ContributorStats, window_start: int) -> Option<
    ContributorActivityView,
> {
    if recent_weeks(stat.weeks@, window_start) == 0 || recent_commits(stat.weeks@, window_start)
        == 0 {
        None
    } else {
        Some(
            ContributorActivityView {
                login: stat.author.login@,
                avatar_url: stat.author.avatar_url@,
                commits: recent_commits(stat.weeks@, window_start),
                additions: recent_additions(stat.weeks@, window_start),
                deletions: recent_deletions(stat.weeks@, window_start),
                is_bot: stat.author.user_type@ == "Bot"@,
            },
        )
    }
}

/// `ranked` with `activity` put behind the last entry that has at least as
/// many commits.
pub open spec fn ranked_insert(
    ranked: Seq<ContributorActivityView>,
    activity: ContributorActivityView,
) -> Seq<ContributorActivityView>
    decreases ranked.len(),
{
    if ranked.len() == 0 {
        seq![activity]
    } else if ranked.last().commits >= activity.commits {
        ranked.push(activity)
    } else {
        ranked_insert(ranked.drop_last(), activity).push(ranked.last())
    }
}

/// The activities of the authors, most commits first; authors with the same
/// number of commits keep the order in which they were given.
pub open spec fn ranked_activities(stats: Seq<ContributorStats>, window_start: int) -> Seq<
    ContributorActivityView,
>
    decreases stats.len(),
{
    if stats.len() == 0 {
        Seq::empty()
    } else {
        let before = ranked_activities(stats.drop_last(), window_start);
        match activity_of(stats.last(), window_start) {
            None => before,
            Some(activity) => ranked_insert(before, activity),
        }
    }
}

/// No entry has more commits than an entry before it.
pub open spec fn is_ranked(all: Seq<ContributorActivityView>) -> bool {
    forall|i: int, j: int| 0 <= i <= j < all.len() ==> all[i].commits >= all[j].commits
}

proof fn ranked_insert_keeps_rank(
    ranked: Seq<ContributorActivityView>,
    activity: ContributorActivityView,
)
    requires
        is_ranked(ranked),
    ensures
        is_ranked(ranked_insert(ranked, activity)),
        ranked_insert(ranked, activity).len() == ranked.len() + 1,
        forall|k: int|
            0 <= k < ranked.len() + 1 ==> (#[trigger] ranked_insert(ranked, activity)[k]).commits
                >= activity.commits || (0 <= k - 1 < ranked.len() && ranked_insert(
                ranked,
                activity,
            )[k] == ranked[k - 1]),
    decreases ranked.len(),
{
    if ranked.len() > 0 && ranked.last().commits < activity.commits {
        let head = ranked.drop_last();
        assert forall|i: int, j: int| 0 <= i <= j < head.len() implies head[i].commits
            >= head[j].commits by {
            assert(head[i] == ranked[i]);
            assert(head[j] == ranked[j]);
        }
        ranked_insert_keeps_rank(head, activity);
        let inner = ranked_insert(head, activity);
        let out = inner.push(ranked.last());
        assert forall|i: int, j: int| 0 <= i <= j < out.len() implies out[i].commits
            >= out[j].commits by {
            if j == out.len() - 1 && i < j {
                if inner[i].commits >= activity.commits {
                } else {
                    assert(inner[i] == head[i - 1]);
                    assert(head[i - 1] == ranked[i - 1]);
                }
            }
        }
    }
}

/// The ranked activities are in the order of their commits, most first.
pub proof fn ranked_activities_are_ranked(stats: Seq<ContributorStats>, window_start: int)
    ensures
        is_ranked(ranked_activities(stats, window_start)),
    decreases stats.len(),
{
    if stats.len() > 0 {
        ranked_activities_are_ranked(stats.drop_last(), window_start);
        if let Some(activity) = activity_of(stats.last(), window_start) {
            ranked_insert_keeps_rank(ranked_activities(stats.drop_last(), window_start), activity);
        }
    }
}

/// Ranking an activity among others adds it and keeps the others.
pub proof fn ranked_insert_keeps_entries(
    ranked: Seq<ContributorActivityView>,
    activity: ContributorActivityView,
)
    ensures
        ranked_insert(ranked, activity).to_multiset() == ranked.to_multiset().insert(activity),
    decreases ranked.len(),
{
    if ranked.len() == 0 {
        assert(seq![activity] == ranked.push(activity));
        vstd::seq_lib::to_multiset_build(ranked, activity);
    } else if ranked.last().commits >= activity.commits {
        vstd::seq_lib::to_multiset_build(ranked, activity);
    } else {
        let head = ranked.drop_last();
        ranked_insert_keeps_entries(head, activity);
        vstd::seq_lib::to_multiset_build(ranked_insert(head, activity), ranked.last());
        vstd::seq_lib::to_multiset_build(head, ranked.last());
        assert(head.push(ranked.last()) == ranked);
        assert(ranked_insert(ranked, activity).to_multiset() =~= ranked.to_multiset().insert(
            activity,
        ));
    }
}

/// The sums over the recent weeks of one author: the number of recent weeks
/// that hold anything, the commits, the additions and the deletions.
fn sum_recent(weeks: &Vec<WeeklyStats>, window_start: i64) -> (r: (bool, u32, u32, u32))
    requires
        recent_commits(weeks@, window_start as int) <= u32::MAX,
        recent_additions(weeks@, window_start as int) <= u32::MAX,
        recent_deletions(weeks@, window_start as int) <= u32::MAX,
    ensures
        recent_weeks(weeks@, window_start as int) >= 0,
        r.0 == (recent_weeks(weeks@, window_start as int) > 0),
        r.1 == recent_commits(weeks@, window_start as int),
        r.2 == recent_additions(weeks@, window_start as int),
        r.3 == recent_deletions(weeks@, window_start as int),
{
    let mut any = false;
    let mut commits: u128 = 0;
    let mut additions: u128 = 0;
    let mut deletions: u128 = 0;
    let mut at: usize = 0;
    assert(weeks@.take(0) == Seq::<WeeklyStats>::empty());
    while at < weeks.len()
        invariant
            at <= weeks.len(),
            0 <= recent_weeks(weeks@.take(at as int), window_start as int),
            any == (recent_weeks(weeks@.take(at as int), window_start as int) > 0),
            commits == recent_commits(weeks@.take(at as int), window_start as int),
            additions == recent_additions(weeks@.take(at as int), window_start as int),
            deletions == recent_deletions(weeks@.take(at as int), window_start as int),
            commits <= at * 0xFFFF_FFFF,
            additions <= at * 0xFFFF_FFFF,
            deletions <= at * 0xFFFF_FFFF,
        decreases weeks.len() - at,
    {
        proof {
            let upto = weeks@.take(at as int + 1);
            assert(upto.drop_last() == weeks@.take(at as int));
            assert(upto.last() == weeks@[at as int]);
            assert(at * 0xFFFF_FFFF + 0xFFFF_FFFF == (at + 1) * 0xFFFF_FFFF) by (nonlinear_arith);
            assert(at * 0xFFFF_FFFF <= 0xFFFF_FFFF_FFFF_FFFF * 0xFFFF_FFFF) by (nonlinear_arith)
                requires
                    at <= 0xFFFF_FFFF_FFFF_FFFF,
            ;
        }
        let week = weeks[at];
        if week.w >= window_start {
            any = true;
            commits = commits + week.c as u128;
            additions = additions + week.a as u128;
            deletions = deletions + week.d as u128;
        }
        at += 1;
    }
    assert(weeks@.take(weeks.len() as int) == weeks@);
    (any, commits as u32, additions as u32, deletions as u32)
}

/// Puts `activity` behind the last entry that has at least as many commits.
fn insert_ranked(ranked: &mut Vec<ContributorActivity>, activity: ContributorActivity)
    ensures
        activity_views(final(ranked)@) == ranked_insert(activity_views(old(ranked)@), activity@),
{
    let ghost before = activity_views(ranked@);
    let mut at: usize = ranked.len();
    assert(before.take(at as int) == before);
    assert(before.skip(at as int) == Seq::<ContributorActivityView>::empty());
    assert(ranked_insert(before, activity@) + Seq::<ContributorActivityView>::empty()
        == ranked_insert(before, activity@));
    while at > 0 && ranked[at - 1].commits < activity.commits
        invariant
            at <= ranked.len(),
            ranked@ == old(ranked)@,
            before == activity_views(ranked@),
            ranked_insert(before, activity@) == ranked_insert(before.take(at as int), activity@)
                + before.skip(at as int),
        decreases at,
    {
        proof {
            let upto = before.take(at as int);
            assert(upto.last() == ranked@[at as int - 1]@);
            assert(upto.drop_last() == before.take(at as int - 1));
            assert(ranked_insert(upto.drop_last(), activity@).push(upto.last()) + before.skip(
                at as int,
            ) == ranked_insert(upto.drop_last(), activity@) + before.skip(at as int - 1));
        }
        at -= 1;
    }
    proof {
        let upto = before.take(at as int);
        if at > 0 {
            assert(upto.last() == ranked@[at as int - 1]@);
        }
        assert(ranked_insert(upto, activity@) == upto.push(activity@));
    }
    ranked.insert(at, activity);
    assert(activity_views(ranked@) == before.take(at as int).push(activity@) + before.skip(
        at as int,
    ));
}

/// Sums the recent contributions of each author and ranks the authors by
/// their commits. A week is recent where it starts no more than thirty days
/// before `now`; an author without a commit in a recent week is left out.
pub fn summarize_activity(stats: &Vec<ContributorStats>, now: i64) -> (r: Vec<ContributorActivity>)
    requires
        now - window_seconds() >= i64::MIN,
        forall|k: int|
            0 <= k < stats@.len() ==> sums_fit(#[trigger] stats@[k], now - window_seconds()),
    ensures
        activity_views(r@) == ranked_activities(stats@, now - window_seconds()),
        is_ranked(activity_views(r@)),
{
    let window_start: i64 = now - 2_592_000;
    let mut activities: Vec<ContributorActivity> = Vec::new();
    let mut at: usize = 0;
    assert(stats@.take(0) == Seq::<ContributorStats>::empty());
    assert(activity_views(activities@) == Seq::<ContributorActivityView>::empty());
    while at < stats.len()
        invariant
            at <= stats.len(),
            window_start == now - window_seconds(),
            forall|k: int|
                0 <= k < stats@.len() ==> sums_fit(#[trigger] stats@[k], window_start as int),
            activity_views(activities@) == ranked_activities(
                stats@.take(at as int),
                window_start as int,
            ),
        decreases stats.len() - at,
    {
        proof {
            let upto = stats@.take(at as int + 1);
            assert(upto.drop_last() == stats@.take(at as int));
            assert(upto.last() == stats@[at as int]);
            assert(sums_fit(stats@[at as int], window_start as int));
        }
        let stat = &stats[at];
        let (any, commits, additions, deletions) = sum_recent(&stat.weeks, window_start);
        if any && commits != 0 {
            let activity = ContributorActivity {
                login: stat.author.login.clone(),
                avatar_url: stat.author.avatar_url.clone(),
                commits,
                additions,
                deletions,
                is_bot: text_eq(stat.author.user_type.as_str(), "Bot"),
            };
            insert_ranked(&mut activities, activity);
        }
        at += 1;
    }
    proof {
        assert(stats@.take(stats.len() as int) == stats@);
        ranked_activities_are_ranked(stats@, window_start as int);
    }
    activities
}

} // verus!
