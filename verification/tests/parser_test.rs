use spotifier_core::parsers::courses::{parse_course_detail, parse_courses_from_html};
use spotifier_core::parsers::topic::parse_topic_detail;
use spotifier_core::parsers::user::parse_profile_text;
use spotifier_core::{parse_user_from_html, Course, ScraperError, TaskStatus};

fn sample_course() -> Course {
    Course {
        id: 42,
        code: "IK410".to_string(),
        name: "Algorithms".to_string(),
        credits: 3,
        lecturer: "Dr. Example".to_string(),
        academic_year: "2025/2026 - Ganjil".to_string(),
        href: "/mhs/kuliah/42".to_string(),
    }
}

#[test]
fn user_extraction_from_profile_node() {
    let html = "<html><body><div class=\"user-profile\">\
        <span class=\"profile-text\">Jane Doe 1234567</span>\
        </div></body></html>";
    let user = parse_user_from_html(html).unwrap();
    assert_eq!(user.name, "Jane Doe");
    assert_eq!(user.nim, "1234567");
}

#[test]
fn user_extraction_collapses_extra_whitespace() {
    let user = parse_profile_text("  Jane   van  Doe   1234567 ").unwrap();
    assert_eq!(user.name, "Jane van Doe");
    assert_eq!(user.nim, "1234567");
}

#[test]
fn empty_profile_node_is_a_parsing_error() {
    let html = "<html><body><div class=\"user-profile\">\
        <span class=\"profile-text\">   </span>\
        </div></body></html>";
    assert!(matches!(parse_user_from_html(html), Err(ScraperError::ParsingError(_))));
}

#[test]
fn single_token_profile_has_no_name() {
    assert!(matches!(parse_profile_text("1234567"), Err(ScraperError::ParsingError(_))));
}

#[test]
fn missing_profile_node_is_element_not_found() {
    let html = "<html><body><p>welcome</p></body></html>";
    assert!(matches!(parse_user_from_html(html), Err(ScraperError::ElementNotFound(_))));
}

fn course_row(id: u64, code: &str) -> String {
    format!(
        "<div class=\"course-item\">\
         <span class=\"course-code\">{}</span>\
         <span class=\"course-name\"> Algorithms </span>\
         <span class=\"course-credits\"> 3 </span>\
         <span class=\"course-lecturer\">Dr. Example</span>\
         <span class=\"course-period\">2025/2026 - Ganjil</span>\
         <a class=\"course-link\" href=\"/mhs/kuliah/{}\">open</a>\
         </div>",
        code, id
    )
}

#[test]
fn course_list_extraction_maps_rows() {
    let html = format!("<html><body>{}{}</body></html>", course_row(42, "IK410"), course_row(77, "IK520"));
    let courses = parse_courses_from_html(&html).unwrap();
    assert_eq!(courses.len(), 2);
    assert_eq!(courses[0].id, 42);
    assert_eq!(courses[0].code, "IK410");
    assert_eq!(courses[0].name, "Algorithms");
    assert_eq!(courses[0].credits, 3);
    assert_eq!(courses[0].lecturer, "Dr. Example");
    assert_eq!(courses[0].academic_year, "2025/2026 - Ganjil");
    assert_eq!(courses[0].href, "/mhs/kuliah/42");
    assert_eq!(courses[1].id, 77);
    assert_eq!(courses[1].code, "IK520");
}

#[test]
fn empty_dashboard_yields_no_courses() {
    let courses = parse_courses_from_html("<html><body></body></html>").unwrap();
    assert!(courses.is_empty());
}

#[test]
fn course_row_without_numeric_link_is_a_parsing_error() {
    let html = "<html><body><div class=\"course-item\">\
         <span class=\"course-code\">IK410</span>\
         <span class=\"course-name\">Algorithms</span>\
         <span class=\"course-credits\">3</span>\
         <span class=\"course-lecturer\">Dr. Example</span>\
         <span class=\"course-period\">2025/2026 - Ganjil</span>\
         <a class=\"course-link\" href=\"/mhs/kuliah/detail\">open</a>\
         </div></body></html>";
    assert!(matches!(parse_courses_from_html(html), Err(ScraperError::ParsingError(_))));
}

#[test]
fn misaligned_course_rows_are_a_parsing_error() {
    // a row without a credit column
    let html = "<html><body><div class=\"course-item\">\
         <span class=\"course-code\">IK410</span>\
         <span class=\"course-name\">Algorithms</span>\
         <span class=\"course-lecturer\">Dr. Example</span>\
         <span class=\"course-period\">2025/2026 - Ganjil</span>\
         <a class=\"course-link\" href=\"/mhs/kuliah/42\">open</a>\
         </div></body></html>";
    assert!(matches!(parse_courses_from_html(html), Err(ScraperError::ParsingError(_))));
}

#[test]
fn course_detail_merges_description_rps_and_topics() {
    let html = "<html><body>\
        <div class=\"course-description\"> All about algorithms. </div>\
        <a class=\"rps-link\" href=\"/files/rps/9\">syllabus</a>\
        <div class=\"topic-item\" data-href=\"/mhs/topik/42/101\" data-locked=\"0\" \
             data-access-time=\"02-01-2025 13:00\"></div>\
        <div class=\"topic-item\" data-locked=\"1\"></div>\
        </body></html>";
    let course = sample_course();
    let detail = parse_course_detail(&course, html).unwrap();
    assert_eq!(detail.course_info.id, 42);
    assert_eq!(detail.description, "All about algorithms.");
    assert_eq!(detail.rps.id, Some(9));
    assert_eq!(detail.rps.href, Some("/files/rps/9".to_string()));
    assert_eq!(detail.topics.len(), 2);

    let t0 = &detail.topics[0];
    assert_eq!(t0.id, Some(101));
    assert_eq!(t0.course_id, Some(42));
    assert!(t0.is_accessible);
    assert_eq!(t0.href, Some("/mhs/topik/42/101".to_string()));
    let expected = chrono::NaiveDateTime::parse_from_str("02-01-2025 13:00", "%d-%m-%Y %H:%M")
        .unwrap()
        .and_utc()
        .timestamp();
    assert_eq!(t0.access_time, Some(expected));
    assert_eq!(t0.access_time, Some(1735822800));

    let t1 = &detail.topics[1];
    assert_eq!(t1.id, None);
    assert!(!t1.is_accessible);
    assert_eq!(t1.href, None);
    assert_eq!(t1.access_time, None);
}

#[test]
fn course_detail_without_description_is_element_not_found() {
    let course = sample_course();
    assert!(matches!(
        parse_course_detail(&course, "<html><body></body></html>"),
        Err(ScraperError::ElementNotFound(_))
    ));
}

#[test]
fn course_detail_without_rps_is_fine() {
    let html = "<html><body><div class=\"course-description\">d</div></body></html>";
    let course = sample_course();
    let detail = parse_course_detail(&course, html).unwrap();
    assert_eq!(detail.rps.id, None);
    assert_eq!(detail.rps.href, None);
    assert!(detail.topics.is_empty());
}

fn topic_page(task_extra_attrs: &str) -> String {
    format!(
        "<html><body>\
        <div class=\"topic-header\" data-locked=\"0\" data-access-time=\"02-01-2025 13:00\"></div>\
        <div class=\"topic-description\"> Week one. </div>\
        <div class=\"content-item\" data-id=\"7\" data-youtube=\"vid123\">\
          <div class=\"content-body\"><p>Hello</p></div>\
        </div>\
        <div class=\"task-item\" data-id=\"55\" data-due=\"10-01-2025 23:59\"{}>\
          <h3 class=\"task-title\"> Essay </h3>\
          <div class=\"task-description\">Write an essay.</div>\
          <input name=\"submission_token\" value=\"tok55\"/>\
        </div>\
        </body></html>",
        task_extra_attrs
    )
}

// Noon of the ninth of January 2025, before the task's deadline.
const BEFORE_DUE: i64 = 1736424000;
// Noon of the twelfth of January 2025, after the task's deadline.
const AFTER_DUE: i64 = 1736683200;

#[test]
fn topic_detail_extraction_maps_header_contents_and_tasks() {
    let html = topic_page("");
    let d = parse_topic_detail(42, 101, &html, BEFORE_DUE).unwrap();
    assert_eq!(d.id, 101);
    assert_eq!(d.href, "/mhs/topik/42/101");
    assert!(d.is_accessible);
    assert_eq!(d.access_time, Some(1735822800));
    assert_eq!(d.description, Some("Week one.".to_string()));

    assert_eq!(d.contents.len(), 1);
    assert_eq!(d.contents[0].id, 7);
    assert_eq!(d.contents[0].youtube_id, Some("vid123".to_string()));
    assert_eq!(d.contents[0].raw_html, "<p>Hello</p>");

    assert_eq!(d.tasks.len(), 1);
    let t = &d.tasks[0];
    assert_eq!(t.id, Some(55));
    assert_eq!(t.course_id, 42);
    assert_eq!(t.topic_id, 101);
    assert_eq!(t.token, "tok55");
    assert_eq!(t.title, "Essay");
    assert_eq!(t.description, "Write an essay.");
    assert_eq!(t.due_date, Some(1736553540));
    assert!(t.answer.is_none());
    assert_eq!(t.status, TaskStatus::Pending);
}

#[test]
fn task_status_is_derived_from_answer_and_deadline() {
    // No answer, deadline passed
    let d = parse_topic_detail(42, 101, &topic_page(""), AFTER_DUE).unwrap();
    assert_eq!(d.tasks[0].status, TaskStatus::NotSubmitted);

    // Ungraded answer: submitted, whatever the deadline
    let with_answer = topic_page(
        " data-answer-id=\"900\" data-answer-graded=\"0\" data-answer-content=\"my essay\" \
          data-answer-file=\"/files/up/900.pdf\" data-answer-date=\"09-01-2025 10:00\"",
    );
    let d = parse_topic_detail(42, 101, &with_answer, AFTER_DUE).unwrap();
    let t = &d.tasks[0];
    assert_eq!(t.status, TaskStatus::Submitted);
    let a = t.answer.as_ref().unwrap();
    assert_eq!(a.id, Some(900));
    assert!(!a.is_graded);
    assert_eq!(a.content, "my essay");
    assert_eq!(a.file_href, Some("/files/up/900.pdf".to_string()));

    // Graded answer: graded, whatever the deadline
    let graded = topic_page(
        " data-answer-id=\"900\" data-answer-graded=\"1\" data-answer-score=\"85.5\" \
          data-answer-notes=\"good work\"",
    );
    let d = parse_topic_detail(42, 101, &graded, BEFORE_DUE).unwrap();
    let t = &d.tasks[0];
    assert_eq!(t.status, TaskStatus::Graded);
    let a = t.answer.as_ref().unwrap();
    assert!(a.is_graded);
    assert_eq!(a.score, 8550);
    assert_eq!(a.lecturer_notes, "good work");
}

#[test]
fn task_without_submission_token_is_a_parsing_error() {
    let html = "<html><body>\
        <div class=\"task-item\" data-id=\"55\">\
          <h3 class=\"task-title\">Essay</h3>\
          <div class=\"task-description\">Write.</div>\
        </div>\
        </body></html>";
    assert!(matches!(
        parse_topic_detail(42, 101, html, BEFORE_DUE),
        Err(ScraperError::ParsingError(_))
    ));
}

#[test]
fn locked_topic_header_marks_the_topic_inaccessible() {
    let html = "<html><body>\
        <div class=\"topic-header\" data-locked=\"1\"></div>\
        </body></html>";
    let d = parse_topic_detail(42, 101, html, BEFORE_DUE).unwrap();
    assert!(!d.is_accessible);
    assert_eq!(d.access_time, None);
    assert_eq!(d.description, None);
    assert!(d.contents.is_empty());
    assert!(d.tasks.is_empty());
}
