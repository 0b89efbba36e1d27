use spotifier_core::models::derive_task_status;
use spotifier_core::routes::{
    classify_delete_status, classify_period_change_status, classify_submit_status,
    course_detail_path, period_change_path, profile_path, task_delete_path, task_form_fields,
    task_store_path, topic_detail_path,
};
use spotifier_core::{Answer, Period, ScraperError, Semester, TaskStatus};

#[test]
fn request_paths_are_id_derived() {
    assert_eq!(profile_path(), "/mhs");
    assert_eq!(course_detail_path(42), "/mhs/kuliah/42");
    assert_eq!(topic_detail_path(42, 101), "/mhs/topik/42/101");
    assert_eq!(task_store_path(), "/mhs/store_tugas");
    assert_eq!(task_delete_path(42, 101, 900), "/mhs/hapus_tugas/42/101/900");
    let p = Period::new(2025, Semester::Odd);
    assert_eq!(period_change_path(&p), "/mhs/ganti_periode/20251");
}

#[test]
fn task_form_fields_carry_the_triple_and_content() {
    let fields = task_form_fields(42, 101, 55, "tok", "hello");
    assert_eq!(fields.len(), 5);
    assert_eq!(fields[0], ("token".to_string(), "tok".to_string()));
    assert_eq!(fields[1], ("course_id".to_string(), "42".to_string()));
    assert_eq!(fields[2], ("topic_id".to_string(), "101".to_string()));
    assert_eq!(fields[3], ("task_id".to_string(), "55".to_string()));
    assert_eq!(fields[4], ("content".to_string(), "hello".to_string()));
}

#[test]
fn only_success_and_redirection_statuses_are_accepted() {
    for status in [200u16, 204, 302, 303, 399] {
        assert!(classify_submit_status(status).is_ok());
        assert!(classify_delete_status(status).is_ok());
        assert!(classify_period_change_status(status).is_ok());
    }
    for status in [0u16, 199, 400, 404, 500] {
        assert!(matches!(
            classify_submit_status(status),
            Err(ScraperError::TaskSubmissionFailed)
        ));
        assert!(matches!(
            classify_delete_status(status),
            Err(ScraperError::TaskDeletionFailed)
        ));
        assert!(matches!(
            classify_period_change_status(status),
            Err(ScraperError::InvalidPeriod)
        ));
    }
}

fn answer(graded: bool) -> Answer {
    Answer {
        id: Some(1),
        content: "text".to_string(),
        file_href: None,
        is_graded: graded,
        lecturer_notes: String::new(),
        score: 0,
        date_submitted: None,
    }
}

#[test]
fn status_derivation_follows_the_exact_precedence() {
    let now = 1000;
    // No answer, due in the past
    assert_eq!(derive_task_status(&None, &Some(999), now), TaskStatus::NotSubmitted);
    // No answer, due in the future
    assert_eq!(derive_task_status(&None, &Some(1001), now), TaskStatus::Pending);
    // No answer, due right now: not yet passed
    assert_eq!(derive_task_status(&None, &Some(1000), now), TaskStatus::Pending);
    // No answer, no deadline
    assert_eq!(derive_task_status(&None, &None, now), TaskStatus::Pending);
    // Ungraded answer wins over any deadline
    assert_eq!(derive_task_status(&Some(answer(false)), &Some(999), now), TaskStatus::Submitted);
    assert_eq!(derive_task_status(&Some(answer(false)), &None, now), TaskStatus::Submitted);
    // Graded answer wins over everything
    assert_eq!(derive_task_status(&Some(answer(true)), &Some(999), now), TaskStatus::Graded);
    assert_eq!(derive_task_status(&Some(answer(true)), &Some(1001), now), TaskStatus::Graded);
}

#[test]
fn error_messages_name_their_cause() {
    assert_eq!(
        ScraperError::TransportError("timed out".to_string()).message(),
        "Request to SPOT failed: timed out"
    );
    assert_eq!(
        ScraperError::TokenNotFound.message(),
        "Could not find the login CSRF token on the page"
    );
    assert_eq!(
        ScraperError::ParsingError("x".to_string()).message(),
        "Failed to parse HTML: x"
    );
    assert_eq!(
        ScraperError::SessionExpired.message(),
        "The SPOT session appears to have expired"
    );
    assert_eq!(
        ScraperError::AuthenticationFailed.message(),
        "Authentication failed. Please check your credentials."
    );
    assert_eq!(
        ScraperError::ElementNotFound("profile".to_string()).message(),
        "Could not find required element on the page: profile"
    );
    assert_eq!(
        ScraperError::InvalidPeriod.message(),
        "The requested academic period was rejected"
    );
    assert_eq!(
        ScraperError::TaskSubmissionFailed.message(),
        "The server did not accept the task submission"
    );
    assert_eq!(
        ScraperError::TaskDeletionFailed.message(),
        "The server did not accept the submission deletion"
    );
}
