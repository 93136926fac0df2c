use imir::contributors::{summarize_activity, Author, ContributorStats, WeeklyStats};
use imir::text::decimal_text;
use imir::ContributorActivity;

#[test]
fn contributor_activity_display_format() {
    let activity = ContributorActivity {
        login: "testuser".to_string(),
        avatar_url: "https://example.com/avatar.png".to_string(),
        commits: 15,
        additions: 250,
        deletions: 80,
        is_bot: false,
    };

    assert_eq!(activity.to_string(), "testuser (15 commits, +250 -80 lines)");
}

#[test]
fn contributor_activity_identifies_bots() {
    let bot_activity = ContributorActivity {
        login: "dependabot[bot]".to_string(),
        avatar_url: "https://example.com/bot.png".to_string(),
        commits: 3,
        additions: 50,
        deletions: 10,
        is_bot: true,
    };

    assert!(bot_activity.is_bot);
}

fn stats(login: &str, kind: &str, weeks: &[(i64, u32, u32, u32)]) -> ContributorStats {
    ContributorStats {
        weeks: weeks.iter().map(|&(w, a, d, c)| WeeklyStats { w, a, d, c }).collect(),
        author: Author {
            login: login.to_string(),
            avatar_url: format!("https://example.com/{login}.png"),
            user_type: kind.to_string(),
        },
    }
}

const DAY: i64 = 24 * 60 * 60;

#[test]
fn recent_weeks_are_summed_and_ranked() {
    let now = 100 * DAY;
    let all = vec![
        stats("old", "User", &[(now - 31 * DAY, 10, 10, 10)]),
        stats("two", "User", &[(now - 40 * DAY, 9, 9, 9), (now - 7 * DAY, 5, 1, 2)]),
        stats("idle", "User", &[(now - DAY, 4, 4, 0)]),
        stats("five", "Bot", &[(now - 30 * DAY, 1, 2, 3), (now, 10, 20, 2)]),
        stats("also-two", "Organization", &[(now - DAY, 0, 0, 2)]),
        stats("none", "User", &[]),
    ];
    let ranked = summarize_activity(&all, now);
    let logins: Vec<&str> = ranked.iter().map(|activity| activity.login.as_str()).collect();
    assert_eq!(logins, ["five", "two", "also-two"]);
    assert_eq!(ranked[0].commits, 5);
    assert_eq!(ranked[0].additions, 11);
    assert_eq!(ranked[0].deletions, 22);
    assert!(ranked[0].is_bot);
    assert_eq!(ranked[0].avatar_url, "https://example.com/five.png");
    assert_eq!(ranked[1].commits, 2);
    assert_eq!(ranked[1].additions, 5);
    assert_eq!(ranked[1].deletions, 1);
    assert!(!ranked[1].is_bot);
    assert!(!ranked[2].is_bot);
}

#[test]
fn the_window_is_thirty_days_to_the_second() {
    let now = 1_700_000_000;
    let edge = now - 2_592_000;
    let inside = summarize_activity(&vec![stats("a", "User", &[(edge, 1, 1, 1)])], now);
    assert_eq!(inside.len(), 1);
    let outside = summarize_activity(&vec![stats("a", "User", &[(edge - 1, 1, 1, 1)])], now);
    assert!(outside.is_empty());
}

#[test]
fn numbers_are_written_in_base_ten() {
    assert_eq!(decimal_text(0), "0");
    assert_eq!(decimal_text(7), "7");
    assert_eq!(decimal_text(10), "10");
    assert_eq!(decimal_text(4_294_967_295), "4294967295");
    assert_eq!(decimal_text(u64::MAX), "18446744073709551615");
    let activity = ContributorActivity {
        login: "x".to_string(),
        avatar_url: String::new(),
        commits: 0,
        additions: u32::MAX,
        deletions: 1000,
        is_bot: false,
    };
    assert_eq!(activity.to_string(), "x (0 commits, +4294967295 -1000 lines)");
}
