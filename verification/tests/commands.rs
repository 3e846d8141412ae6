use zonerec::DelPlan;
use zonerec::DestPlan;
use zonerec::Entry;
use zonerec::SetPlan;
use zonerec::del_rec;
use zonerec::find_rec;
use zonerec::resolve_dest;
use zonerec::resolved_ip;
use zonerec::set_rec;
use zonerec::show_rec;

fn entry(id: &str, name: &str, rtype: &str, content: &str) -> Entry {
    Entry {
        id: id.to_string(),
        name: name.to_string(),
        rtype: rtype.to_string(),
        content: content.to_string(),
    }
}

fn sample() -> Vec<Entry> {
    vec![
        entry("1", "a.example.com", "A", "1.2.3.4"),
        entry("2", "b.example.com", "CNAME", "a.example.com"),
        entry("3", "c.example.com", "A", "5.6.7.8"),
    ]
}

#[test]
fn show_all_keeps_every_record_in_order() {
    let records = sample();
    let lines = show_rec(&records, "all");
    assert_eq!(
        lines,
        vec![
            "A\ta.example.com\t1.2.3.4\t1".to_string(),
            "CNAME\tb.example.com\ta.example.com\t2".to_string(),
            "A\tc.example.com\t5.6.7.8\t3".to_string(),
        ]
    );
}

#[test]
fn show_filter_keeps_exactly_matching_types() {
    let records = sample();
    let lines = show_rec(&records, "A");
    assert_eq!(
        lines,
        vec![
            "A\ta.example.com\t1.2.3.4\t1".to_string(),
            "A\tc.example.com\t5.6.7.8\t3".to_string(),
        ]
    );
    let cname = show_rec(&records, "CNAME");
    assert_eq!(cname, vec!["CNAME\tb.example.com\ta.example.com\t2".to_string()]);
}

#[test]
fn show_filter_without_match_outputs_nothing() {
    let records = sample();
    let lines = show_rec(&records, "TXT");
    assert!(lines.is_empty());
}

#[test]
fn show_of_empty_list_outputs_nothing() {
    let records: Vec<Entry> = Vec::new();
    assert!(show_rec(&records, "all").is_empty());
    assert!(show_rec(&records, "A").is_empty());
}

#[test]
fn find_returns_first_match_in_list_order() {
    let records = vec![
        entry("1", "dup.example.com", "A", "1.1.1.1"),
        entry("2", "dup.example.com", "A", "2.2.2.2"),
    ];
    let found = find_rec(&records, "dup.example.com").expect("record expected");
    assert_eq!(found.id, "1");
    assert_eq!(found.content, "1.1.1.1");
}

#[test]
fn find_absent_name_returns_none() {
    let records = sample();
    assert!(find_rec(&records, "missing.example.com").is_none());
    assert!(find_rec(&Vec::new(), "a.example.com").is_none());
}

#[test]
fn find_is_case_sensitive() {
    let records = sample();
    assert!(find_rec(&records, "A.example.com").is_none());
    assert!(find_rec(&records, "a.example.com").is_some());
}

#[test]
fn set_absent_name_creates_with_given_type_and_empty_id() {
    let records = sample();
    match set_rec(&records, "new.example.com", "9.9.9.9", "CNAME") {
        SetPlan::Create { record } => {
            assert_eq!(record.id, "");
            assert_eq!(record.name, "new.example.com");
            assert_eq!(record.rtype, "CNAME");
            assert_eq!(record.content, "9.9.9.9");
        }
        SetPlan::Update { .. } => panic!("expected a create"),
    }
}

#[test]
fn set_present_name_updates_preserving_id_and_type() {
    let records = sample();
    match set_rec(&records, "b.example.com", "9.9.9.9", "A") {
        SetPlan::Update { record } => {
            assert_eq!(record.id, "2");
            assert_eq!(record.name, "b.example.com");
            // the existing type wins over the argument
            assert_eq!(record.rtype, "CNAME");
            assert_eq!(record.content, "9.9.9.9");
        }
        SetPlan::Create { .. } => panic!("expected an update"),
    }
}

#[test]
fn resolve_dest_sentinel_queries_the_resolver() {
    match resolve_dest("this_machine_ip") {
        DestPlan::QueryPublicIp => {}
        DestPlan::Literal { .. } => panic!("expected a public-IP query"),
    }
}

#[test]
fn resolve_dest_literal_is_used_verbatim() {
    match resolve_dest("203.0.113.9") {
        DestPlan::Literal { dest } => assert_eq!(dest, "203.0.113.9"),
        DestPlan::QueryPublicIp => panic!("expected the literal destination"),
    }
}

#[test]
fn resolved_ip_trims_the_response_body() {
    assert_eq!(resolved_ip("  198.51.100.7\n"), "198.51.100.7");
    assert_eq!(resolved_ip("198.51.100.7"), "198.51.100.7");
}

#[test]
fn del_present_name_deletes_by_that_records_id() {
    let records = sample();
    match del_rec(&records, "c.example.com") {
        DelPlan::Delete { id, name } => {
            assert_eq!(id, "3");
            assert_eq!(name, "c.example.com");
        }
        DelPlan::NotFound => panic!("expected a delete"),
    }
}

#[test]
fn del_absent_name_plans_no_call() {
    let records = sample();
    match del_rec(&records, "missing.example.com") {
        DelPlan::NotFound => {}
        DelPlan::Delete { .. } => panic!("expected no delete"),
    }
}

#[test]
fn end_to_end_example() {
    let records = vec![entry("1", "home.example.com", "A", "1.2.3.4")];

    let lines = show_rec(&records, "A");
    assert_eq!(lines, vec!["A\thome.example.com\t1.2.3.4\t1".to_string()]);

    match set_rec(&records, "home.example.com", "5.6.7.8", "A") {
        SetPlan::Update { record } => {
            assert_eq!(record.id, "1");
            assert_eq!(record.rtype, "A");
            assert_eq!(record.content, "5.6.7.8");
        }
        SetPlan::Create { .. } => panic!("expected an update"),
    }

    match del_rec(&records, "other.example.com") {
        DelPlan::NotFound => {}
        DelPlan::Delete { .. } => panic!("expected no delete"),
    }

    match set_rec(&records, "new.example.com", "9.9.9.9", "CNAME") {
        SetPlan::Create { record } => {
            assert_eq!(record.id, "");
            assert_eq!(record.name, "new.example.com");
            assert_eq!(record.rtype, "CNAME");
            assert_eq!(record.content, "9.9.9.9");
        }
        SetPlan::Update { .. } => panic!("expected a create"),
    }
}
