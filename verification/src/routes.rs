use vstd::prelude::*;

use crate::error::ScraperError;
use crate::models::{Period, period_format_spec};
use crate::text::{dec_string, u64_to_string, push_char};
use vstd::string::{StringExecFns};

verus! {

/// The fixed path of the profile and course-list page.
pub open spec fn profile_path_spec() -> Seq<char> {
    "/mhs"@
}

/// The path of the page that lists the profile and the courses.
pub fn profile_path() -> (r: String)
    ensures
        r@ == profile_path_spec(),
{
    String::from_str("/mhs")
}

/// The path of a course's detail page, derived from its id.
pub open spec fn course_detail_path_spec(course_id: u64) -> Seq<char> {
    "/mhs/kuliah/"@ + dec_string(course_id as nat)
}

/// Builds the detail-page path of a course from its id.
pub fn course_detail_path(course_id: u64) -> (r: String)
    ensures
        r@ == course_detail_path_spec(course_id),
{
    let r = String::from_str("/mhs/kuliah/").concat(u64_to_string(course_id).as_str());
    r
}

/// The path of a topic's detail page: course id, then topic id.
pub open spec fn topic_detail_path_spec(course_id: u64, topic_id: u64) -> Seq<char> {
    "/mhs/topik/"@ + dec_string(course_id as nat) + seq!['/'] + dec_string(topic_id as nat)
}

/// Builds the detail-page path of a topic.
pub fn topic_detail_path(course_id: u64, topic_id: u64) -> (r: String)
    ensures
        r@ == topic_detail_path_spec(course_id, topic_id),
{
    let mut s = String::from_str("/mhs/topik/").concat(u64_to_string(course_id).as_str());
    push_char(&mut s, '/');
    let r = s.concat(u64_to_string(topic_id).as_str());
    assert(r@ =~= topic_detail_path_spec(course_id, topic_id));
    r
}

/// The path that switches the active period, parameterized by its encoding.
pub open spec fn period_change_path_spec(p: Period) -> Seq<char> {
    "/mhs/ganti_periode/"@ + period_format_spec(p)
}

/// Builds the period-change path for a period.
pub fn period_change_path(p: &Period) -> (r: String)
    ensures
        r@ == period_change_path_spec(*p),
{
    String::from_str("/mhs/ganti_periode/").concat(p.format().as_str())
}

/// The fixed action path that stores a task submission.
pub open spec fn task_store_path_spec() -> Seq<char> {
    "/mhs/store_tugas"@
}

/// The action path of a task submission.
pub fn task_store_path() -> (r: String)
    ensures
        r@ == task_store_path_spec(),
{
    String::from_str("/mhs/store_tugas")
}

/// The path that deletes a submission, parameterized by the id triple.
pub open spec fn task_delete_path_spec(course_id: u64, topic_id: u64, answer_id: u64) -> Seq<char> {
    "/mhs/hapus_tugas/"@ + dec_string(course_id as nat) + seq!['/'] + dec_string(topic_id as nat)
        + seq!['/'] + dec_string(answer_id as nat)
}

/// Builds the deletion path of a submission.
pub fn task_delete_path(course_id: u64, topic_id: u64, answer_id: u64) -> (r: String)
    ensures
        r@ == task_delete_path_spec(course_id, topic_id, answer_id),
{
    let mut s = String::from_str("/mhs/hapus_tugas/").concat(u64_to_string(course_id).as_str());
    push_char(&mut s, '/');
    let mut s2 = s.concat(u64_to_string(topic_id).as_str());
    push_char(&mut s2, '/');
    let r = s2.concat(u64_to_string(answer_id).as_str());
    assert(r@ =~= task_delete_path_spec(course_id, topic_id, answer_id));
    r
}

/// The form fields of a task submission, in order: the one-time submission
/// token, the id triple, and the free-text content. An uploaded file is a
/// separate named part beside these fields.
pub fn task_form_fields(
    course_id: u64,
    topic_id: u64,
    task_id: u64,
    token: &str,
    content: &str,
) -> (r: Vec<(String, String)>)
    ensures
        r.deep_view() =~= seq![
            ("token"@, token@),
            ("course_id"@, dec_string(course_id as nat)),
            ("topic_id"@, dec_string(topic_id as nat)),
            ("task_id"@, dec_string(task_id as nat)),
            ("content"@, content@),
        ],
{
    let mut r: Vec<(String, String)> = Vec::new();
    r.push((String::from_str("token"), token.to_owned()));
    r.push((String::from_str("course_id"), u64_to_string(course_id)));
    r.push((String::from_str("topic_id"), u64_to_string(topic_id)));
    r.push((String::from_str("task_id"), u64_to_string(task_id)));
    r.push((String::from_str("content"), content.to_owned()));
    r
}

/// Whether an HTTP status code counts as success or redirection.
pub open spec fn status_accepted(status: u16) -> bool {
    200 <= status < 400
}

/// Classifies the server's answer to a task submission: anything but a
/// success or redirection status is a submission failure.
pub fn classify_submit_status(status: u16) -> (r: Result<(), ScraperError>)
    ensures
        r is Ok <==> status_accepted(status),
        r is Err ==> r matches Err(ScraperError::TaskSubmissionFailed),
{
    if 200 <= status && status < 400 {
        Ok(())
    } else {
        Err(ScraperError::TaskSubmissionFailed)
    }
}

/// Classifies the server's answer to a submission deletion: anything but a
/// success or redirection status is a deletion failure.
pub fn classify_delete_status(status: u16) -> (r: Result<(), ScraperError>)
    ensures
        r is Ok <==> status_accepted(status),
        r is Err ==> r matches Err(ScraperError::TaskDeletionFailed),
{
    if 200 <= status && status < 400 {
        Ok(())
    } else {
        Err(ScraperError::TaskDeletionFailed)
    }
}

/// Classifies the server's answer to a period change: anything but a success
/// or redirection status means the period was rejected.
pub fn classify_period_change_status(status: u16) -> (r: Result<(), ScraperError>)
    ensures
        r is Ok <==> status_accepted(status),
        r is Err ==> r matches Err(ScraperError::InvalidPeriod),
{
    if 200 <= status && status < 400 {
        Ok(())
    } else {
        Err(ScraperError::InvalidPeriod)
    }
}

} // verus!
