use gb::models::{Comment, Issue, PullRequest, PullRequestRef, Repository};
use gb::pr_view::{
    collapse_whitespace, comment_row, format_pr_view, pr_display_state, pr_list_row, pr_refs_text,
    Segment, Style,
};
use gb::repo_view::{
    clone_error, created_issue_text, created_repo_text, delete_target, fork_text,
    is_direct_clone_url, issue_create_request, issue_list_row, repo_argument, repo_list_row,
    repo_view, web_fork_text,
};

fn repository(full_name: &str) -> Repository {
    Repository {
        full_name: full_name.into(),
        clone_url: None,
        html_url: Some(format!("https://gb/{}", full_name)),
        fork: false,
        parent_full_name: None,
        source_full_name: None,
        description: Some("A demo".into()),
        is_private: false,
        default_branch: None,
        watchers_count: Some(2),
        forks_count: None,
        open_issues_count: Some(1),
    }
}

fn side(name: &str) -> PullRequestRef {
    PullRequestRef {
        ref_name: name.into(),
        label: None,
        repo: None,
    }
}

fn pull(merged: Option<bool>) -> PullRequest {
    PullRequest {
        number: 9,
        title: "Add feature".into(),
        state: "closed".into(),
        merged,
        body: Some("Details".into()),
        user_login: Some("alice".into()),
        created_at: Some("2026-01-01".into()),
        html_url: None,
        diff_url: None,
        patch_url: None,
        head: Some(side("feature")),
        base: Some(side("main")),
    }
}

fn render(v: &[Segment]) -> String {
    v.iter()
        .map(|s| match s.style {
            Style::Plain => s.text.clone(),
            Style::Bold => format!("<b>{}</b>", s.text),
            Style::Dimmed => format!("<d>{}</d>", s.text),
            Style::Cyan => format!("<c>{}</c>", s.text),
            Style::Green => format!("<g>{}</g>", s.text),
            Style::State => format!("<s>{}</s>", s.text),
        })
        .collect()
}

#[test]
fn pr_state_shows_merged() {
    assert_eq!(pr_display_state(&pull(Some(true))), "merged");
    assert_eq!(pr_display_state(&pull(None)), "closed");
    let row = pr_list_row(&pull(Some(true)));
    assert_eq!(row, ("#9".to_string(), "merged".to_string(), "feature".to_string(), "alice".to_string()));
}

#[test]
fn pr_view_segments() {
    let comments = vec![
        Comment { id: 1, user_login: None, created_at: None, body: Some("hi".into()) },
        Comment { id: 2, user_login: Some("bob".into()), created_at: Some("d".into()), body: None },
    ];
    assert_eq!(
        render(&format_pr_view(&pull(None), Some(&comments))),
        "<b>Add feature</b> <d>#9</d>\n<s>closed</s>\n\n<c>main</c> \u{2190} <g>feature</g>\n\
Author: alice  Created: 2026-01-01\n\nDetails\n\n<d>--- Comments ---</d>\n\
\n<b>unknown</b> (<d></d>)\nhi\n\n<b>bob</b> (<d>d</d>)\n"
    );
    let mut bare = pull(Some(true));
    bare.head = None;
    bare.user_login = None;
    bare.created_at = None;
    bare.body = Some(String::new());
    assert_eq!(
        render(&format_pr_view(&bare, Some(&Vec::new()))),
        "<b>Add feature</b> <d>#9</d>\n<s>merged</s>\n\n\n"
    );
}

#[test]
fn comment_rows_collapse_whitespace() {
    assert_eq!(collapse_whitespace("  a\r\n b\t\tc  "), "a b c");
    assert_eq!(collapse_whitespace(""), "");
    let row = comment_row(&Comment {
        id: 42,
        user_login: Some("u".into()),
        created_at: None,
        body: Some("line one\nline two".into()),
    });
    assert_eq!(row, ("42".to_string(), "u".to_string(), String::new(), "line one line two".to_string()));
}

#[test]
fn pr_refs_lines() {
    let mut pr = pull(None);
    pr.head = Some(PullRequestRef {
        ref_name: "feature".into(),
        label: Some("alice:feature".into()),
        repo: None,
    });
    assert_eq!(pr_refs_text(&pr), "Head: alice:feature\nBase: main\n");
}

#[test]
fn repository_texts() {
    let r = repository("alice/demo");
    assert_eq!(fork_text("bob", "demo", &r), "\u{2713} Forked bob/demo \u{2192} alice/demo\nhttps://gb/alice/demo\n");
    assert_eq!(
        web_fork_text("bob", "demo", "carol", "https://gb/carol/demo"),
        "\u{2713} Forked bob/demo \u{2192} carol/demo\nhttps://gb/carol/demo\n"
    );
    assert_eq!(created_repo_text(&r), "\u{2713} Created repository alice/demo\nhttps://gb/alice/demo\n");
    assert_eq!(repo_list_row(&r), ("alice/demo".to_string(), "public".to_string()));
    let mut v = r;
    v.fork = true;
    v.is_private = true;
    let segments = repo_view(&v, Some("https://gb/git/alice/demo.git"));
    assert_eq!(
        render(&segments),
        "<b>alice/demo</b>\nA demo\n\n<d>Visibility: Private</d>  <d>Default branch: main</d>  <d>(fork)</d>\n\
URL: https://gb/alice/demo\nClone: https://gb/git/alice/demo.git\n\nStars: 2  Forks: 0  Issues: 1\n"
    );
}

#[test]
fn repository_arguments() {
    assert_eq!(repo_argument(Some("a/b".into()), Some("c/d".into()), None), Some("a/b".into()));
    assert_eq!(repo_argument(None, Some("c/d".into()), Some("e/f".into())), Some("c/d".into()));
    assert_eq!(repo_argument(None, None, Some("e/f".into())), Some("e/f".into()));
    assert_eq!(
        delete_target(None).unwrap_err().message(),
        "Refusing to delete without an explicit repository. Pass OWNER/REPO or -R/--repo."
    );
    assert_eq!(delete_target(Some("a/b".into())).unwrap(), ("a".to_string(), "b".to_string()));
    assert!(is_direct_clone_url("https://gb/a/b.git"));
    assert!(is_direct_clone_url("git@gb:a/b.git"));
    assert!(!is_direct_clone_url("a/b"));
    assert_eq!(clone_error("", " out ").message(), "git clone failed. out");
}

#[test]
fn issue_texts_and_requests() {
    let issue = Issue {
        number: 5,
        title: "Bug".into(),
        state: "open".into(),
        body: None,
        user_login: None,
        created_at: None,
        labels: vec!["bug".into(), "p1".into()],
        assignees: Vec::new(),
        milestone: None,
        html_url: Some("https://gb/i/5".into()),
    };
    assert_eq!(created_issue_text(&issue), "\u{2713} Created issue #5: Bug\nhttps://gb/i/5\n");
    assert_eq!(issue_list_row(&issue), ("#5".to_string(), String::new(), "bug, p1".to_string()));
    let req = issue_create_request("T".into(), None, Vec::new(), vec!["al".into()]);
    assert!(req.labels.is_none());
    assert_eq!(req.assignees, Some(vec!["al".to_string()]));
}
