use pcr_util::classify::{no_team, partition_by_ownership, team_scoped};
use pcr_util::compiler_tracking_issue;
use pcr_util::config::{
    Cmd, CommonTriageConfig, CompilerTrackingIssueTriage, LogLevel, NoTeamTrackingIssueTriage,
    PHighTriage,
};
use pcr_util::issue_metadata::{
    normalize, normalize_batch, simplify_repr, sort_by_number, Assignee, Author, IssueMetadata,
    IssueMetadataRepr, Label, NormalizeError,
};
use pcr_util::markdown::RenderError;
use pcr_util::p_high::{render_document, render_markdown_stub, ReviewInfo, NO_OWNER_URL, NO_TEAM_URL};
use pcr_util::timestamp::Timestamp;

fn midnight_2024() -> Timestamp {
    Timestamp {
        year: 2024,
        month: 1,
        day: 1,
        hour: 0,
        minute: 0,
        second: 0,
        nanosecond: 0,
        offset_seconds: 0,
    }
}

fn issue(number: u64, title: &str, labels: &[&str], assignees: &[&str]) -> IssueMetadata {
    IssueMetadata {
        assignees: assignees.iter().map(|s| s.to_string()).collect(),
        author: "alice".to_string(),
        created_at: midnight_2024(),
        labels: labels.iter().map(|s| s.to_string()).collect(),
        number,
        title: title.to_string(),
        updated_at: midnight_2024(),
        url: format!("https://x/{number}"),
    }
}

fn raw(number: u64, labels: &[&str], assignees: &[&str], created_at: &str) -> IssueMetadataRepr {
    IssueMetadataRepr {
        assignees: assignees.iter().map(|s| Assignee { login: s.to_string() }).collect(),
        author: Author { login: "alice".to_string() },
        created_at: created_at.to_string(),
        labels: labels.iter().map(|s| Label { name: s.to_string() }).collect(),
        number,
        title: format!("issue {number}"),
        updated_at: "2024-11-08T05:00:16Z".to_string(),
        url: format!("https://x/{number}"),
    }
}

fn numbers(v: &[&IssueMetadata]) -> Vec<u64> {
    v.iter().map(|i| i.number).collect()
}

fn empty_document(title: &str, stamp: &str) -> String {
    format!(
        "<!-- stubs generated with pcr-util -->\n\n# {title}\n\n*Issues snapshot collected on {stamp}*\n\n\n\
         ## P-high missing team label\n\n[P-high issues without team label]({NO_TEAM_URL})\n\n\n\
         **Did not find P-high issues without a team label**\n\n\n\
         ## P-high T-compiler issues missing owner (no WG and no assignee)\n\n\
         [P-high issues with no owner]({NO_OWNER_URL})\n\n\n\n\n\
         ## P-high T-compiler issues with owner (WG or assignee)\n\n\n\n"
    )
}

#[test]
fn single_record_is_classified_as_no_owner() {
    let batch = vec![issue(42, "Hang on overflow", &["T-compiler", "P-high"], &[])];
    let info = ReviewInfo::new(&batch);
    assert!(info.p_high_no_team().is_empty());
    assert_eq!(numbers(&team_scoped(&batch, "T-compiler")), vec![42]);
    let (no_owner, has_owner) = info.t_compiler_p_high_partition_by_ownership();
    assert_eq!(numbers(&no_owner), vec![42]);
    assert!(has_owner.is_empty());
}

#[test]
fn single_record_renders_one_block_in_no_owner_section() {
    let batch = vec![issue(42, "Hang on overflow", &["T-compiler", "P-high"], &[])];
    let doc = render_document("Review", "2024-01-01T00:00:00Z", &ReviewInfo::new(&batch));
    let block = "### #42: Hang on overflow\nLink: <https://x/42>\nCreation date: 2024-01-01\n\
                 Labels: `T-compiler`, `P-high`\nAuthor: `alice`\nWorking groups: \nAssignees: \n\
                 \n**TODO**\n\n\n";
    let no_owner_start = doc.find("## P-high T-compiler issues missing owner").unwrap();
    let has_owner_start = doc.find("## P-high T-compiler issues with owner").unwrap();
    assert_eq!(doc.matches("### #").count(), 1);
    assert!(doc[no_owner_start..has_owner_start].contains(block));
    assert_eq!(&doc[has_owner_start..], "## P-high T-compiler issues with owner (WG or assignee)\n\n\n\n");
    assert!(doc.contains("**Did not find P-high issues without a team label**"));
}

#[test]
fn empty_batch_renders_all_headings() {
    let batch: Vec<IssueMetadata> = vec![];
    let doc = render_document("Empty", "2024-01-01T00:00:00Z", &ReviewInfo::new(&batch));
    assert_eq!(doc, empty_document("Empty", "2024-01-01T00:00:00Z"));
    assert!(!doc.contains("### #"));
}

#[test]
fn rendering_twice_gives_identical_text() {
    let batch = vec![
        issue(1, "a", &["P-high"], &[]),
        issue(2, "b", &["T-compiler", "WG-llvm"], &["bob"]),
    ];
    let info = ReviewInfo::new(&batch);
    let first = render_document("T", "now", &info);
    let second = render_document("T", "now", &info);
    assert_eq!(first.as_bytes(), second.as_bytes());
}

#[test]
fn no_team_and_team_scoped_are_disjoint() {
    let batch = vec![
        issue(1, "a", &["P-high"], &[]),
        issue(2, "b", &["T-compiler"], &[]),
        issue(3, "c", &["T-libs"], &[]),
        issue(4, "d", &[], &[]),
    ];
    let nt = numbers(&no_team(&batch));
    let ts = numbers(&team_scoped(&batch, "T-compiler"));
    assert_eq!(nt, vec![1, 4]);
    assert_eq!(ts, vec![2]);
    assert!(nt.iter().all(|n| !ts.contains(n)));
}

#[test]
fn ownership_partitions_team_scoped_issues() {
    let batch = vec![
        issue(1, "a", &["T-compiler"], &[]),
        issue(2, "b", &["T-compiler", "WG-llvm"], &[]),
        issue(3, "c", &["T-compiler"], &["bob"]),
        issue(4, "d", &["T-compiler", "A-x"], &[]),
        issue(5, "e", &["P-high"], &[]),
    ];
    let scoped = team_scoped(&batch, "T-compiler");
    let (no_owner, has_owner) = partition_by_ownership(&scoped);
    assert_eq!(numbers(&no_owner), vec![1, 4]);
    assert_eq!(numbers(&has_owner), vec![2, 3]);
    assert_eq!(no_owner.len() + has_owner.len(), scoped.len());
}

#[test]
fn classification_keeps_input_order() {
    let batch = vec![
        issue(9, "a", &["A-x"], &[]),
        issue(3, "b", &["T-compiler"], &[]),
        issue(7, "c", &[], &[]),
        issue(1, "d", &["T-compiler"], &["bob"]),
        issue(5, "e", &["T-compiler"], &[]),
    ];
    assert_eq!(numbers(&no_team(&batch)), vec![9, 7]);
    let scoped = team_scoped(&batch, "T-compiler");
    assert_eq!(numbers(&scoped), vec![3, 1, 5]);
    let (no_owner, has_owner) = partition_by_ownership(&scoped);
    assert_eq!(numbers(&no_owner), vec![3, 5]);
    assert_eq!(numbers(&has_owner), vec![1]);
}

#[test]
fn issue_block_lists_labels_working_groups_and_assignees() {
    let batch = vec![issue(7, "x", &["T-compiler", "WG-async", "WG-llvm"], &["bob", "carol"])];
    let doc = render_document("T", "s", &ReviewInfo::new(&batch));
    assert!(doc.contains("Labels: `T-compiler`, `WG-async`, `WG-llvm`\n"));
    assert!(doc.contains("Working groups: `WG-async`, `WG-llvm`\n"));
    assert!(doc.contains("Assignees: `bob`, `carol`\n"));
    let has_owner_start = doc.find("## P-high T-compiler issues with owner").unwrap();
    assert!(doc[has_owner_start..].contains("### #7: x\n"));
}

#[test]
fn no_team_section_lists_issues_without_team() {
    let batch = vec![issue(132673, "Hang", &["P-high", "C-bug"], &[])];
    let doc = render_document("T", "s", &ReviewInfo::new(&batch));
    let no_owner_start = doc.find("## P-high T-compiler issues missing owner").unwrap();
    assert!(doc[..no_owner_start].contains("### #132673: Hang\n"));
    assert!(!doc.contains("**Did not find"));
}

#[test]
fn creation_date_is_zero_padded() {
    let mut one = issue(1, "a", &[], &[]);
    one.created_at = Timestamp { year: 987, month: 3, day: 4, ..midnight_2024() };
    let doc = render_document("T", "s", &ReviewInfo::new(&[one]));
    assert!(doc.contains("Creation date: 0987-03-04\n"));
}

#[test]
fn stub_header_states_generation_time_as_rfc3339() {
    let config = CommonTriageConfig {
        persist_path: "out.json".to_string(),
        markdown_stub_title: "P-high review".to_string(),
        markdown_stub_path: "out.md".to_string(),
    };
    let batch: Vec<IssueMetadata> = vec![];
    let stamp = Timestamp { hour: 13, minute: 5, second: 9, ..midnight_2024() };
    let doc = render_markdown_stub(&config, &stamp, &ReviewInfo::new(&batch)).unwrap();
    assert_eq!(doc, empty_document("P-high review", "2024-01-01T13:05:09Z"));
}

#[test]
fn stub_rejects_unformattable_generation_time() {
    let config = CommonTriageConfig {
        persist_path: String::new(),
        markdown_stub_title: "t".to_string(),
        markdown_stub_path: String::new(),
    };
    let batch: Vec<IssueMetadata> = vec![];
    let stamp = Timestamp { offset_seconds: 30, ..midnight_2024() };
    let r = render_markdown_stub(&config, &stamp, &ReviewInfo::new(&batch));
    assert_eq!(r, Err(RenderError::UnformattableTimestamp));
}

#[test]
fn normalize_flattens_and_parses() {
    let r = raw(42, &["T-compiler", "P-high", "T-compiler"], &["bob", "bob", "carol"], "2024-11-06T02:24:31+02:00");
    let m = normalize(&r).unwrap();
    assert_eq!(m.number, 42);
    assert_eq!(m.title, "issue 42");
    assert_eq!(m.url, "https://x/42");
    assert_eq!(m.author, "alice");
    assert_eq!(m.labels, vec!["T-compiler".to_string(), "P-high".to_string()]);
    assert_eq!(m.assignees, vec!["bob".to_string(), "carol".to_string()]);
    assert_eq!(
        m.created_at,
        Timestamp {
            year: 2024,
            month: 11,
            day: 6,
            hour: 2,
            minute: 24,
            second: 31,
            nanosecond: 0,
            offset_seconds: 7200,
        }
    );
    assert_eq!(m.updated_at.second, 16);
}

#[test]
fn normalize_keeps_subsecond_precision() {
    let m = normalize(&raw(1, &[], &[], "2024-01-01T00:00:00.123456789Z")).unwrap();
    assert_eq!(m.created_at.nanosecond, 123_456_789);
}

#[test]
fn malformed_timestamp_fails_the_batch() {
    let batch = vec![
        raw(1, &[], &[], "2024-01-01T00:00:00Z"),
        raw(2, &[], &[], "yesterday"),
        raw(3, &[], &[], "2024-13-01T00:00:00Z"),
    ];
    assert_eq!(simplify_repr(&batch).err(), Some(NormalizeError::MalformedTimestamp { number: 2 }));
    assert_eq!(normalize_batch(&batch).err(), Some(NormalizeError::MalformedTimestamp { number: 2 }));
}

#[test]
fn batch_is_sorted_oldest_first() {
    let batch = vec![
        raw(30, &[], &[], "2024-01-01T00:00:00Z"),
        raw(10, &[], &[], "2024-01-01T00:00:00Z"),
        raw(20, &[], &[], "2024-01-01T00:00:00Z"),
    ];
    let v = normalize_batch(&batch).unwrap();
    assert_eq!(v.iter().map(|i| i.number).collect::<Vec<_>>(), vec![10, 20, 30]);
}

#[test]
fn sort_by_number_orders_records() {
    let mut v = vec![issue(5, "e", &[], &[]), issue(2, "b", &[], &[]), issue(9, "i", &[], &[]), issue(1, "a", &[], &[])];
    sort_by_number(&mut v);
    assert_eq!(v.iter().map(|i| i.number).collect::<Vec<_>>(), vec![1, 2, 5, 9]);
    assert_eq!(v[2].title, "e");
}

#[test]
fn empty_batch_normalizes_to_empty() {
    let v = normalize_batch(&[]).unwrap();
    assert!(v.is_empty());
}

#[test]
fn tracking_document_uses_tables() {
    let config = CommonTriageConfig {
        persist_path: String::new(),
        markdown_stub_title: "Tracking".to_string(),
        markdown_stub_path: String::new(),
    };
    let batch = vec![issue(7, "Track x", &["T-compiler", "WG-llvm"], &["bob"])];
    let doc = compiler_tracking_issue::render_markdown_stub(&config, &midnight_2024(), &batch).unwrap();
    assert_eq!(
        doc,
        "<!-- stubs generated with pcr-util -->\n# Tracking\n\n*Issues snapshot collected on 2024-01-01T00:00:00Z*\n\n\
         ## T-compiler-only tracking issues\n\n### #7: Track x\n| Kind | Value |\n| - | - |\n\
         | Link | <https://x/7> |\n| Creation date | 2024-01-01 |\n| Labels | `T-compiler`, `WG-llvm`|\n\
         | Author | `alice` |\n| Working groups | `WG-llvm`|\n| Assignees | `bob`|\n\n**TODO**\n\n\n"
    );
}

#[test]
fn triage_kind_names() {
    let common = || CommonTriageConfig {
        persist_path: String::new(),
        markdown_stub_title: String::new(),
        markdown_stub_path: String::new(),
    };
    assert_eq!(Cmd::PHighTriage(PHighTriage { common: common() }).triage_kind(), "P-high triage");
    assert_eq!(
        Cmd::CompilerTrackingIssueTriage(CompilerTrackingIssueTriage { common: common() }).triage_kind(),
        "T-compiler tracking issue triage"
    );
    assert_eq!(
        Cmd::NoTeamTrackingIssueTriage(NoTeamTrackingIssueTriage { common: common() }).triage_kind(),
        "No-team tracking issue triage"
    );
    assert_eq!(LogLevel::default(), LogLevel::Info);
}
