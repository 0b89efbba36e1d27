use spotifier_core::auth::{
    auth_step, credential_form, extract_execution_token, verify_fetch_path, verify_login_host,
};
use spotifier_core::parsers::courses::{parse_course_detail, parse_courses_from_html};
use spotifier_core::parsers::topic::parse_topic_detail;
use spotifier_core::routes::{
    classify_delete_status, classify_submit_status, task_form_fields, topic_detail_path,
};
use spotifier_core::{AuthEvent, AuthState, TaskStatus};

const LOGIN_PAGE: &str = "<html><body><form method=\"post\">\
    <input type=\"hidden\" name=\"execution\" value=\"e1s1\"/>\
    <input name=\"username\"/><input name=\"password\" type=\"password\"/>\
    </form></body></html>";

const DASHBOARD: &str = "<html><body><div class=\"course-item\">\
    <span class=\"course-code\">IK410</span>\
    <span class=\"course-name\">Algorithms</span>\
    <span class=\"course-credits\">3</span>\
    <span class=\"course-lecturer\">Dr. Example</span>\
    <span class=\"course-period\">2025/2026 - Ganjil</span>\
    <a class=\"course-link\" href=\"/mhs/kuliah/42\">open</a>\
    </div></body></html>";

const COURSE_DETAIL: &str = "<html><body>\
    <div class=\"course-description\">About algorithms.</div>\
    <div class=\"topic-item\" data-href=\"/mhs/topik/42/101\" data-locked=\"0\"></div>\
    </body></html>";

fn topic_html(answer_attrs: &str) -> String {
    format!(
        "<html><body>\
        <div class=\"topic-header\" data-locked=\"0\"></div>\
        <div class=\"task-item\" data-id=\"55\" data-due=\"10-01-2025 23:59\"{}>\
          <h3 class=\"task-title\">Essay</h3>\
          <div class=\"task-description\">Write an essay.</div>\
          <input name=\"submission_token\" value=\"tok55\"/>\
        </div></body></html>",
        answer_attrs
    )
}

// Noon of the twelfth of January 2025, after the task's deadline.
const NOW: i64 = 1736683200;

/// The whole flow over the pure pipeline: authenticate, list the courses,
/// open a course and a topic, submit the task, see it submitted, delete the
/// submission, see it gone.
#[test]
fn end_to_end_flow_over_the_extraction_pipeline() {
    // Authenticate
    let mut state = AuthState::Anonymous;
    let token = extract_execution_token(LOGIN_PAGE).unwrap();
    assert_eq!(token, "e1s1");
    state = auth_step(&state, &AuthEvent::LoginPageFetched { token_found: true });
    assert_eq!(state, AuthState::TokenAcquired);

    let form = credential_form("1900001", "secret", &token);
    assert_eq!(form.len(), 4);
    state = auth_step(&state, &AuthEvent::CredentialsPosted);

    let host_ok = verify_login_host("spot.upi.edu").is_ok();
    state = auth_step(&state, &AuthEvent::LoginResolved { host_is_portal: host_ok });
    assert_eq!(state, AuthState::Authenticated);

    // Fetch the course list; the resolved path matches, so the session holds.
    assert!(verify_fetch_path("/mhs", "/mhs").is_ok());
    let courses = parse_courses_from_html(DASHBOARD).unwrap();
    assert_eq!(courses.len(), 1);
    let course = &courses[0];
    assert_eq!(course.id, 42);

    // Fetch the course detail by the course's id, then the first topic.
    let detail = parse_course_detail(course, COURSE_DETAIL).unwrap();
    let topic = detail.topics.iter().find(|t| t.is_accessible).unwrap();
    assert_eq!(topic.id, Some(101));
    let path = topic_detail_path(course.id, topic.id.unwrap());
    assert_eq!(path, "/mhs/topik/42/101");

    // The task has no submission and its deadline has passed.
    let before = parse_topic_detail(42, 101, &topic_html(""), NOW).unwrap();
    let task = &before.tasks[0];
    assert_eq!(task.status, TaskStatus::NotSubmitted);
    assert!(task.answer.is_none());

    // Submit with the task's token; the server answers with a redirect.
    let fields = task_form_fields(42, 101, 55, &task.token, "my essay");
    assert_eq!(fields[0], ("token".to_string(), "tok55".to_string()));
    assert!(classify_submit_status(302).is_ok());

    // Re-fetch: the task now carries the submission.
    let after_submit = parse_topic_detail(
        42,
        101,
        &topic_html(" data-answer-id=\"900\" data-answer-graded=\"0\""),
        NOW,
    )
    .unwrap();
    let task = &after_submit.tasks[0];
    assert_eq!(task.status, TaskStatus::Submitted);
    assert_eq!(task.answer.as_ref().unwrap().id, Some(900));

    // Delete the submission; the server accepts.
    assert!(classify_delete_status(302).is_ok());

    // Re-fetch: the submission is gone and the deadline has passed.
    let after_delete = parse_topic_detail(42, 101, &topic_html(""), NOW).unwrap();
    let task = &after_delete.tasks[0];
    assert_eq!(task.status, TaskStatus::NotSubmitted);
    assert!(task.answer.is_none());
}
