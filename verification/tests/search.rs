use neoterm::workflows::ranking::{rank, RankKey};
use neoterm::workflows::score::SearchText;
use neoterm::workflows::{SearchScore, Workflow};
use neoterm::time::Timestamp;

fn named(name: &str, command: &str) -> Workflow {
    Workflow {
        name: name.to_string(),
        command: command.to_string(),
        tags: vec![],
        description: None,
        source_url: None,
        author: None,
        author_url: None,
        shells: None,
        arguments: vec![],
        file_path: None,
        last_used: None,
        usage_count: 0,
    }
}

fn as_number(score: &SearchScore) -> f64 {
    let usage = if score.usage == 0 { 1.0 } else { score.usage as f64 };
    score.points as f64 + usage.log10()
}

#[test]
fn score_adds_up_every_field_that_holds_the_query() {
    let mut w = named("Git Status", "git status --short");
    w.tags = vec!["git".to_string(), "vcs".to_string(), "gitlab".to_string()];
    w.description = Some("Shows the state of a Git checkout".to_string());
    w.author = Some("gitster".to_string());
    let score = w.calculate_search_score("GIT");
    // name 10, tag `git` 8 + 12, tag `gitlab` 8, description 5, command 3, author 2
    assert_eq!(score.points, 48);
    assert_eq!(score.usage, 0);
    assert!(score.is_match());
}

#[test]
fn score_of_an_exact_name_gets_the_bonus() {
    let w = named("deploy", "make release");
    assert_eq!(w.calculate_search_score("Deploy").points, 30);
    assert_eq!(w.calculate_search_score("dep").points, 10);
    assert_eq!(w.calculate_search_score("make").points, 3);
}

#[test]
fn score_without_a_match_has_no_points() {
    let mut w = named("deploy", "make release");
    w.usage_count = 1000;
    let score = w.calculate_search_score("docker");
    assert_eq!(score.points, 0);
    assert_eq!(score.usage, 1000);
    assert!(!score.is_match());
}

#[test]
fn exact_name_outscores_a_name_that_holds_the_query() {
    let exact = named("deploy", "run it");
    let partial = named("deploy-all", "run it");
    let a = exact.calculate_search_score("deploy");
    let b = partial.calculate_search_score("deploy");
    assert_eq!(a.points, 30);
    assert_eq!(b.points, 10);
    assert!(a.is_above(&b));
    assert!(!b.is_above(&a));
}

#[test]
fn usage_breaks_ties_between_equal_points() {
    let often = SearchScore { points: 10, usage: 50 };
    let seldom = SearchScore { points: 10, usage: 5 };
    let never = SearchScore { points: 10, usage: 0 };
    let once = SearchScore { points: 10, usage: 1 };
    assert!(often.is_above(&seldom));
    assert!(!seldom.is_above(&often));
    assert!(seldom.is_above(&never));
    assert!(!never.is_above(&once));
    assert!(!once.is_above(&never));
}

#[test]
fn scores_compare_as_points_plus_the_logarithm_of_usage() {
    let values: [u128; 6] = [0, 1, 2, 3, 10, 13];
    let usages: [u32; 9] = [0, 1, 9, 10, 11, 99, 1000, 1001, u32::MAX];
    for left_points in values {
        for left_usage in usages {
            for right_points in values {
                for right_usage in usages {
                    let a = SearchScore { points: left_points, usage: left_usage };
                    let b = SearchScore { points: right_points, usage: right_usage };
                    let exact_tie = {
                        let x = if left_usage == 0 { 1u128 } else { left_usage as u128 };
                        let y = if right_usage == 0 { 1u128 } else { right_usage as u128 };
                        10u128.pow(left_points as u32) * x == 10u128.pow(right_points as u32) * y
                    };
                    if exact_tie {
                        assert!(!a.is_above(&b));
                    } else {
                        assert_eq!(a.is_above(&b), as_number(&a) > as_number(&b));
                    }
                }
            }
        }
    }
}

#[test]
fn a_thousand_uses_are_worth_three_points() {
    let used = SearchScore { points: 10, usage: 1000 };
    assert!(!used.is_above(&SearchScore { points: 13, usage: 0 }));
    assert!(!SearchScore { points: 13, usage: 0 }.is_above(&used));
    assert!(used.is_above(&SearchScore { points: 12, usage: 9 }));
    assert!(SearchScore { points: 13, usage: 2 }.is_above(&used));
}

#[test]
fn far_apart_points_decide_alone() {
    let high = SearchScore { points: 48, usage: 0 };
    let low = SearchScore { points: 3, usage: u32::MAX };
    assert!(high.is_above(&low));
    assert!(!low.is_above(&high));
}

#[test]
fn search_text_is_lower_case() {
    let mut w = named("Git Status", "GIT status");
    w.tags = vec!["VCS".to_string()];
    w.description = Some("Shows State".to_string());
    w.author = Some("Ann".to_string());
    let text = w.search_text();
    assert_eq!(text.name, "git status");
    assert_eq!(text.command, "git status");
    assert_eq!(text.tags, vec!["vcs"]);
    assert_eq!(text.description.as_deref(), Some("shows state"));
    assert_eq!(text.author.as_deref(), Some("ann"));
}

#[test]
fn points_and_matched_fields_of_lower_case_text() {
    let text = SearchText {
        name: "backup".to_string(),
        tags: vec!["file".to_string(), "backup".to_string()],
        description: Some("copies files".to_string()),
        command: "rsync -a".to_string(),
        author: Some("backup team".to_string()),
    };
    // name 10 + 20, tag `backup` 8 + 12, author 2
    assert_eq!(text.points("backup"), 52);
    assert_eq!(text.matched_fields("backup"), vec!["name", "tags"]);
    // tag `file` 8 + 12, description 5
    assert_eq!(text.points("file"), 25);
    assert_eq!(text.matched_fields("file"), vec!["tags", "description"]);
    assert_eq!(text.points("rsync"), 3);
    assert_eq!(text.matched_fields("rsync"), vec!["command"]);
    assert_eq!(text.points("zzz"), 0);
    assert!(text.matched_fields("zzz").is_empty());
}

#[test]
fn an_empty_query_is_held_by_every_field() {
    let text = SearchText {
        name: "a".to_string(),
        tags: vec!["".to_string()],
        description: None,
        command: "b".to_string(),
        author: None,
    };
    // name 10, the empty tag 8 + 12, command 3
    assert_eq!(text.points(""), 33);
}

#[test]
fn rank_puts_the_best_first_and_keeps_equals_in_order() {
    let key = |points: u128, usage: u32| RankKey {
        score: SearchScore { points, usage },
        last_used: None,
    };
    let keys = vec![key(3, 0), key(30, 0), key(3, 0), key(10, 5), key(30, 0), key(10, 50)];
    assert_eq!(rank(&keys), vec![1, 4, 5, 3, 0, 2]);
    assert_eq!(rank(&vec![]), Vec::<usize>::new());
}

#[test]
fn rank_takes_the_later_use_among_equal_scores() {
    let at = |secs: i64, nanos: u32| Some(Timestamp { secs, nanos });
    let key = |last_used: Option<Timestamp>| RankKey {
        score: SearchScore { points: 2, usage: 0 },
        last_used,
    };
    let keys = vec![key(None), key(at(10, 0)), key(at(10, 5)), key(at(-3, 0)), key(None)];
    assert_eq!(rank(&keys), vec![2, 1, 3, 0, 4]);
}
