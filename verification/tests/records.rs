use jobflow::db::{
    create_autofill, create_autofill_failed, create_job, create_job_failed, get_autofill,
    parse_date, update_autofill, update_autofill_failed, update_job_status,
    update_job_status_failed, Argument, DateInfo, JobCardData, Location, Statement, Status,
    StatusType, WorkType,
};
use jobflow::error::{DatabaseError, Error};

fn card() -> JobCardData {
    JobCardData {
        idx: 3,
        card_title: String::from("Full Stack Engineer (Verified job)"),
        job_title: String::from("Full Stack Engineer"),
        company_name: String::from("Nityo Infotech"),
        location: Location::from_text("New South Wales, Australia"),
        work_type: WorkType::Hybrid,
        is_actively_reviewing: true,
        already_viewed: false,
        posted_date: parse_date("Posted on January 19, 2026, 10:43 AM", "1 week ago"),
        has_easy_apply: true,
    }
}

#[test]
fn location_is_state_then_country() {
    assert_eq!(
        Location::from_text("New South Wales, Australia"),
        Location { state: String::from("New South Wales"), country: String::from("Australia") }
    );
}

#[test]
fn location_parts_lose_the_white_space_around_them() {
    assert_eq!(
        Location::from_text("  Victoria ,\tAustralia \n"),
        Location { state: String::from("Victoria"), country: String::from("Australia") }
    );
    assert_eq!(
        Location::from_parts(" Bavaria ", Some("  Germany")),
        Location { state: String::from("Bavaria"), country: String::from("Germany") }
    );
}

#[test]
fn location_without_a_comma_has_no_country() {
    assert_eq!(
        Location::from_text("Remote"),
        Location { state: String::from("Remote"), country: String::new() }
    );
    assert_eq!(Location::from_text(""), Location { state: String::new(), country: String::new() });
    assert_eq!(Location::from_parts("x", None), Location { state: String::from("x"), country: String::new() });
}

#[test]
fn location_ignores_what_follows_the_second_comma() {
    assert_eq!(
        Location::from_text("Sydney, New South Wales, Australia"),
        Location { state: String::from("Sydney"), country: String::from("New South Wales") }
    );
    assert_eq!(Location::from_text(","), Location { state: String::new(), country: String::new() });
    assert_eq!(Location::from_text("a,"), Location { state: String::from("a"), country: String::new() });
}

#[test]
fn location_is_written_with_comma_and_blank() {
    assert_eq!(Location::from_text("New South Wales,Australia").to_string(), "New South Wales, Australia");
    assert_eq!(Location::from_text("Remote").to_string(), "Remote, ");
}

#[test]
fn work_type_words() {
    assert_eq!(WorkType::OnSite.as_str(), "on-site");
    assert_eq!(WorkType::Remote.as_str(), "remote");
    assert_eq!(WorkType::Hybrid.as_str(), "hybrid");
}

#[test]
fn work_type_is_parsed_whatever_the_case() {
    assert_eq!(WorkType::parse("on-site"), Some(WorkType::OnSite));
    assert_eq!(WorkType::parse("On-Site"), Some(WorkType::OnSite));
    assert_eq!(WorkType::parse("REMOTE"), Some(WorkType::Remote));
    assert_eq!(WorkType::parse("Hybrid"), Some(WorkType::Hybrid));
    assert_eq!(WorkType::parse("onsite"), None);
    assert_eq!(WorkType::parse("(Hybrid)"), None);
    assert_eq!(WorkType::parse(""), None);
    assert_eq!(WorkType::from_lowercase("hybrid"), Some(WorkType::Hybrid));
    assert_eq!(WorkType::from_lowercase("Hybrid"), None);
}

#[test]
fn work_type_word_is_parsed_back() {
    for kind in [WorkType::OnSite, WorkType::Remote, WorkType::Hybrid] {
        assert_eq!(WorkType::parse(kind.as_str()), Some(kind));
    }
}

#[test]
fn status_words() {
    assert_eq!(StatusType::Pending.as_str(), "pending");
    assert_eq!(StatusType::InProgress.as_str(), "in_progress");
    assert_eq!(StatusType::Completed.as_str(), "completed");
    assert_eq!(StatusType::Failed.as_str(), "failed");
}

#[test]
fn status_is_parsed_whatever_the_case() {
    assert_eq!(StatusType::parse("pending"), Some(StatusType::Pending));
    assert_eq!(StatusType::parse("IN_PROGRESS"), Some(StatusType::InProgress));
    assert_eq!(StatusType::parse("Completed"), Some(StatusType::Completed));
    assert_eq!(StatusType::parse("FaIlEd"), Some(StatusType::Failed));
    assert_eq!(StatusType::parse("in progress"), None);
    assert_eq!(StatusType::parse("done"), None);
    assert_eq!(StatusType::from_lowercase("failed"), Some(StatusType::Failed));
    assert_eq!(StatusType::from_lowercase("FAILED"), None);
}

#[test]
fn status_word_is_parsed_back() {
    for status in [StatusType::Pending, StatusType::InProgress, StatusType::Completed, StatusType::Failed] {
        assert_eq!(StatusType::parse(status.as_str()), Some(status));
    }
    assert_eq!(Status { id: 7, status: StatusType::Pending }.status.as_str(), "pending");
}

#[test]
fn date_loses_its_lead_in_and_the_white_space_around_it() {
    assert_eq!(
        parse_date("Posted on January 19, 2026, 10:43 AM", " 1 week ago\n"),
        DateInfo { full_date: String::from("January 19, 2026, 10:43 AM"), relative: String::from("1 week ago") }
    );
    assert_eq!(
        parse_date("  Posted on January 19, 2026  ", "2 days ago"),
        DateInfo { full_date: String::from("January 19, 2026"), relative: String::from("2 days ago") }
    );
}

#[test]
fn date_without_the_lead_in_is_only_trimmed() {
    assert_eq!(
        parse_date(" January 19, 2026 ", ""),
        DateInfo { full_date: String::from("January 19, 2026"), relative: String::new() }
    );
    assert_eq!(parse_date("", "  "), DateInfo { full_date: String::new(), relative: String::new() });
    assert_eq!(parse_date("posted on Monday", "x").full_date, "posted on Monday");
}

fn text(value: &str) -> Argument {
    Argument::Text(String::from(value))
}

const INSERT_JOB: &str = "INSERT INTO jobs ( idx, card_title, job_title, company_name, state, country, work_type_fk, is_actively_reviewing, already_viewed, full_date, relative_date, has_easy_apply, status_type_fk) VALUES (?, ?, ?, ?, ?, ?, ?, ?, ?, ?, ?, ?, 'pending')";

#[test]
fn statement_that_inserts_a_job_card() {
    assert_eq!(
        create_job(&card()),
        Statement {
            sql: INSERT_JOB,
            arguments: vec![
                Argument::Integer(3),
                text("Full Stack Engineer (Verified job)"),
                text("Full Stack Engineer"),
                text("Nityo Infotech"),
                text("New South Wales"),
                text("Australia"),
                text("hybrid"),
                Argument::Integer(1),
                Argument::Integer(0),
                text("January 19, 2026, 10:43 AM"),
                text("1 week ago"),
                Argument::Integer(1),
            ],
        }
    );
}

#[test]
fn statement_has_one_value_for_each_placeholder() {
    let statements = [
        create_job(&card()),
        create_autofill("phone", "0400 000 000"),
        get_autofill("phone"),
        update_job_status(7, StatusType::Completed),
        update_autofill("phone", "0400 000 001"),
    ];
    for statement in statements {
        assert_eq!(statement.sql.matches('?').count(), statement.arguments.len());
    }
}

#[test]
fn job_flags_are_written_as_one_and_zero() {
    let mut data = card();
    data.is_actively_reviewing = false;
    data.already_viewed = true;
    data.has_easy_apply = false;
    data.work_type = WorkType::OnSite;
    data.idx = 0;
    let arguments = create_job(&data).arguments;
    assert_eq!(arguments[0], Argument::Integer(0));
    assert_eq!(arguments[6], text("on-site"));
    assert_eq!(arguments[7], Argument::Integer(0));
    assert_eq!(arguments[8], Argument::Integer(1));
    assert_eq!(arguments[11], Argument::Integer(0));
    data.work_type = WorkType::Remote;
    assert_eq!(create_job(&data).arguments[6], text("remote"));
}

#[test]
fn statements_for_autofill_data() {
    assert_eq!(
        create_autofill("phone", "0400 000 000"),
        Statement {
            sql: "INSERT INTO autofill ( input_key, data ) VALUES (?, ?)",
            arguments: vec![text("phone"), text("0400 000 000")],
        }
    );
    assert_eq!(
        get_autofill("phone"),
        Statement { sql: "SELECT data FROM autofill where input_key = ?", arguments: vec![text("phone")] }
    );
    assert_eq!(
        update_autofill("phone", "0400 000 001"),
        Statement {
            sql: "INSERT OR REPLACE INTO autofill ( input_key, data ) VALUES (?, ?)",
            arguments: vec![text("phone"), text("0400 000 001")],
        }
    );
}

#[test]
fn statement_that_changes_the_status_of_a_job() {
    assert_eq!(
        update_job_status(42, StatusType::InProgress),
        Statement {
            sql: "UPDATE jobs SET status_type_fk = ? WHERE id = ?",
            arguments: vec![text("in_progress"), Argument::Integer(42)],
        }
    );
    assert_eq!(
        update_job_status(-1, StatusType::Failed).arguments,
        vec![text("failed"), Argument::Integer(-1)]
    );
}

#[test]
fn database_failures_say_what_was_attempted() {
    assert_eq!(
        create_job_failed(12, "UNIQUE constraint failed"),
        Error::DatabaseError(DatabaseError::Create(String::from(
            "Failed to insert job idx 12: UNIQUE constraint failed"
        )))
    );
    assert_eq!(
        create_autofill_failed("phone", "disk full"),
        Error::DatabaseError(DatabaseError::Create(String::from(
            "Failed to insert autofill data for key phone: disk full"
        )))
    );
    assert_eq!(
        update_job_status_failed(-5, "no such row"),
        Error::DatabaseError(DatabaseError::Update(String::from(
            "Failed to update job status for job_id -5: no such row"
        )))
    );
    assert_eq!(
        update_job_status_failed(42, "locked").to_string(),
        "Database error: Update error: Failed to update job status for job_id 42: locked"
    );
    assert_eq!(
        update_autofill_failed("phone", "locked"),
        Error::DatabaseError(DatabaseError::Update(String::from(
            "Failed to update autofill for key phone: locked"
        )))
    );
}
