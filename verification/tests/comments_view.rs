use gb::models::Comment;
use gb::pr_view::{format_comments_block, Style};

#[test]
fn comments_block_lists_author_date_and_body() {
    assert!(format_comments_block(&vec![]).is_empty());
    let comments = vec![
        Comment { id: 1, user_login: Some("alice".into()), created_at: Some("2024-01-02".into()), body: Some("Looks good".into()) },
        Comment { id: 2, user_login: None, created_at: None, body: None },
    ];
    let segs: Vec<(Style, String)> = format_comments_block(&comments).into_iter().map(|s| (s.style, s.text)).collect();
    let expected: Vec<(Style, String)> = vec![
        (Style::Plain, "\n".into()),
        (Style::Dimmed, "--- Comments ---".into()),
        (Style::Plain, "\n".into()),
        (Style::Plain, "\n".into()),
        (Style::Bold, "alice".into()),
        (Style::Plain, " (".into()),
        (Style::Dimmed, "2024-01-02".into()),
        (Style::Plain, ")\n".into()),
        (Style::Plain, "Looks good\n".into()),
        (Style::Plain, "\n".into()),
        (Style::Bold, "unknown".into()),
        (Style::Plain, " (".into()),
        (Style::Dimmed, "".into()),
        (Style::Plain, ")\n".into()),
    ];
    assert_eq!(segs, expected);
}
