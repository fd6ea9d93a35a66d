use issue_search::driver::{issues_from, page_text, Driver, Phase, RunError};
use issue_search::http::{search_url, IssueDto, IssueLabel, ResponseParseError};
use issue_search::model::{Issue, TimestampParseError};

fn run(pages: Option<i32>) -> Driver {
    Driver::new("abc123".to_string(), "rust".to_string(), "bug".to_string(), pages)
}

fn item(n: u32, created_at: &str) -> String {
    format!(
        r#"{{"url":"https://api.github.com/repos/o/r/issues/{n}","title":"t{n}","state":"open","created_at":"{created_at}","updated_at":"2020-01-02T00:00:00Z","labels":[]}}"#
    )
}

fn body(from: u32, len: u32) -> String {
    let items: Vec<String> = (from..from + len).map(|n| item(n, "2020-01-01T00:00:00Z")).collect();
    format!(r#"{{"total_count":{},"items":[{}]}}"#, len, items.join(","))
}

fn dto(title: &str, created_at: &str, updated_at: &str) -> IssueDto {
    IssueDto {
        url: "https://api.github.com/repos/o/r/issues/1".to_string(),
        title: title.to_string(),
        state: "open".to_string(),
        created_at: created_at.to_string(),
        updated_at: updated_at.to_string(),
        labels: vec![IssueLabel { name: "bug".to_string() }],
    }
}

fn numbers(text: &str) -> Vec<String> {
    text.lines()
        .filter(|l| l.contains(" Description: "))
        .map(|l| l.split(' ').next().unwrap().to_string())
        .collect()
}

#[test]
fn two_pages_are_asked_for_in_order() {
    let mut run = run(Some(2));
    assert_eq!(run.phase(), Phase::Ready);
    let first = run.next_request().unwrap();
    assert_eq!(first.url, search_url("bug", "rust", 1));
    assert!(first.url.ends_with("&page=1"));
    assert_eq!(run.phase(), Phase::Awaiting);
    run.page_received(body(1, 1)).unwrap();
    assert_eq!(run.phase(), Phase::Ready);
    let second = run.next_request().unwrap();
    assert_eq!(second.url, search_url("bug", "rust", 2));
    assert!(second.url.ends_with("&page=2"));
    run.page_received(body(2, 1)).unwrap();
    assert_eq!(run.next_request(), None);
    assert_eq!(run.phase(), Phase::Ready);
    assert_eq!(run.next_request(), None);
}

#[test]
fn numbers_go_on_over_the_end_of_a_page() {
    let mut run = run(Some(2));
    run.next_request().unwrap();
    let first = run.page_received(body(1, 100)).unwrap();
    let first_numbers = numbers(&first);
    assert_eq!(first_numbers.len(), 100);
    assert_eq!(first_numbers[0], "1");
    assert_eq!(first_numbers[99], "100");
    run.next_request().unwrap();
    let second = run.page_received(body(101, 3)).unwrap();
    assert_eq!(numbers(&second), vec!["101", "102", "103"]);
    assert!(second.starts_with("101 Description: t101\n"));
}

#[test]
fn one_page_is_asked_for_where_none_is_given() {
    let mut run = run(None);
    assert!(run.next_request().unwrap().url.ends_with("&page=1"));
    run.page_received(body(1, 2)).unwrap();
    assert_eq!(run.next_request(), None);
}

#[test]
fn no_page_is_asked_for_where_none_is_wanted() {
    assert_eq!(run(Some(0)).next_request(), None);
    assert_eq!(run(Some(-3)).next_request(), None);
    assert_eq!(run(Some(i32::MIN)).next_request(), None);
}

#[test]
fn every_request_carries_the_token() {
    let mut run = run(Some(3));
    for page in 1..=3 {
        let request = run.next_request().unwrap();
        run.page_received(body(1, 0)).unwrap();
        assert_eq!(request.url, search_url("bug", "rust", page));
        assert_eq!(
            request.headers,
            vec![
                ("Accept".to_string(), "application/vnd.github+json".to_string()),
                ("Authorization".to_string(), "Bearer abc123".to_string()),
                ("X-GitHub-Api-Version".to_string(), "2022-11-28".to_string()),
            ]
        );
    }
    assert_eq!(run.next_request(), None);
}

#[test]
fn a_page_as_it_is_printed() {
    let mut run = run(None);
    run.next_request().unwrap();
    let body = r#"{"total_count":2,"items":[
        {"url":"https://api.github.com/repos/o/r/issues/5","title":"First","state":"open",
         "created_at":"2020-01-01T10:00:00Z","updated_at":"2020-01-02T11:30:00Z",
         "labels":[{"name":"bug"},{"name":"help wanted"}]},
        {"url":"https://api.github.com/repos/o/r/issues/6","title":"Second","state":"open",
         "created_at":"2020-02-01T10:00:00Z","updated_at":"2020-02-02T11:30:00Z",
         "labels":[]}]}"#;
    assert_eq!(
        run.page_received(body.to_string()).unwrap(),
        "1 Description: First\n\
         created: 2020-01-01 10:00:00 UTC\n\
         Last updated: 2020-01-02 11:30:00 UTC\n\
         URL: https://github.com/o/r/issues/5\n\
         Tags: [bug]\n\
         [help wanted]\n\
         \n\
         2 Description: Second\n\
         created: 2020-02-01 10:00:00 UTC\n\
         Last updated: 2020-02-02 11:30:00 UTC\n\
         URL: https://github.com/o/r/issues/6\n\
         Tags: \n"
    );
}

#[test]
fn an_empty_page_prints_nothing_and_keeps_the_count() {
    let mut run = run(Some(2));
    run.next_request().unwrap();
    assert_eq!(run.page_received(body(1, 0)).unwrap(), "");
    run.next_request().unwrap();
    assert_eq!(numbers(&run.page_received(body(1, 2)).unwrap()), vec!["1", "2"]);
}

#[test]
fn a_body_that_is_no_json_ends_the_run() {
    let mut run = run(Some(2));
    run.next_request().unwrap();
    assert_eq!(
        run.page_received("Bad credentials".to_string()),
        Err(RunError::Response(ResponseParseError::Syntax))
    );
    assert_eq!(run.phase(), Phase::Failed);
}

#[test]
fn a_body_of_another_shape_ends_the_run() {
    let mut run = run(None);
    run.next_request().unwrap();
    assert_eq!(
        run.page_received(r#"{"message":"Validation Failed"}"#.to_string()),
        Err(RunError::Response(ResponseParseError::Shape))
    );
    assert_eq!(run.phase(), Phase::Failed);
}

#[test]
fn a_bad_date_ends_the_run_and_nothing_of_the_page_is_printed() {
    let mut run = run(Some(2));
    run.next_request().unwrap();
    run.page_received(body(1, 4)).unwrap();
    run.next_request().unwrap();
    let bad = format!(
        r#"{{"total_count":2,"items":[{},{}]}}"#,
        item(5, "2020-01-01T00:00:00Z"),
        item(6, "soon")
    );
    assert_eq!(
        run.page_received(bad),
        Err(RunError::Timestamp(TimestampParseError::CreatedAt))
    );
    assert_eq!(run.phase(), Phase::Failed);
}

#[test]
fn issues_are_made_in_the_order_of_the_records() {
    let issues = issues_from(vec![
        dto("b", "2020-01-01T00:00:00Z", "2020-01-01T00:00:00Z"),
        dto("a", "2020-01-01T00:00:00Z", "2020-01-01T00:00:00Z"),
        dto("c", "2020-01-01T00:00:00Z", "2020-01-01T00:00:00Z"),
    ])
    .unwrap();
    let titles: Vec<&str> = issues.iter().map(|i| i.description()).collect();
    assert_eq!(titles, vec!["b", "a", "c"]);
    assert_eq!(issues_from(vec![]), Ok(vec![]));
}

#[test]
fn the_first_bad_record_gives_the_error() {
    assert_eq!(
        issues_from(vec![
            dto("a", "2020-01-01T00:00:00Z", "2020-01-01T00:00:00Z"),
            dto("b", "2020-01-01T00:00:00Z", "later"),
            dto("c", "never", "2020-01-01T00:00:00Z"),
        ]),
        Err(TimestampParseError::UpdatedAt)
    );
    assert_eq!(
        issues_from(vec![
            dto("c", "never", "2020-01-01T00:00:00Z"),
            dto("b", "2020-01-01T00:00:00Z", "later"),
        ]),
        Err(TimestampParseError::CreatedAt)
    );
}

#[test]
fn page_text_numbers_from_the_given_number() {
    let issues: Vec<Issue> = vec![
        Issue::from(dto("a", "2020-01-01T00:00:00Z", "2020-01-01T00:00:00Z")).unwrap(),
        Issue::from(dto("b", "2020-01-01T00:00:00Z", "2020-01-01T00:00:00Z")).unwrap(),
    ];
    let text = page_text(&issues, 99);
    assert_eq!(
        text,
        format!("99 {}\n100 {}\n", issues[0].to_string(), issues[1].to_string())
    );
    assert_eq!(page_text(&vec![], 1), "");
    let far = u128::MAX - 2;
    assert!(page_text(&issues, far).starts_with("340282366920938463463374607431768211453 "));
}

#[test]
fn two_pages_print_as_their_issues_in_one_row() {
    let make = |t: &str| Issue::from(dto(t, "2020-01-01T00:00:00Z", "2020-01-01T00:00:00Z")).unwrap();
    let all = vec![make("a"), make("b"), make("c")];
    let first = vec![make("a")];
    let second = vec![make("b"), make("c")];
    assert_eq!(
        page_text(&all, 7),
        format!("{}{}", page_text(&first, 7), page_text(&second, 8))
    );
}
