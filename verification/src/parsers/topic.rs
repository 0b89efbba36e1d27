use vstd::prelude::*;

use crate::dates::{parse_portal_datetime, parsed_datetime, portal_datetime_format};
use crate::error::ScraperError;
use crate::models::{Answer, Content, Task, TaskStatus, TopicDetail, status_of};
use crate::models::derive_task_status;
use crate::routes::{topic_detail_path, topic_detail_path_spec};
use crate::scrape::{selected_attrs, selected_htmls, selected_texts, select_attrs, select_htmls, select_texts};
use crate::text::{all_digits, dec_value, opt_view, score_of, trimmed, parse_score, parse_u64, str_eq, trim};
use vstd::string::{StrSliceExecFns, StringExecFns};

verus! {

pub open spec fn topic_header_sel() -> Seq<char> {
    ".topic-header"@
}

pub open spec fn topic_description_sel() -> Seq<char> {
    ".topic-description"@
}

pub open spec fn content_row_sel() -> Seq<char> {
    ".content-item"@
}

pub open spec fn content_body_sel() -> Seq<char> {
    ".content-item .content-body"@
}

pub open spec fn task_row_sel() -> Seq<char> {
    ".task-item"@
}

pub open spec fn task_title_sel() -> Seq<char> {
    ".task-item .task-title"@
}

pub open spec fn task_description_sel() -> Seq<char> {
    ".task-item .task-description"@
}

pub open spec fn task_token_sel() -> Seq<char> {
    ".task-item input[name=\"submission_token\"]"@
}

/// An attribute list over the task rows.
pub open spec fn task_attr(html: Seq<char>, attr: Seq<char>) -> Seq<Option<Seq<char>>> {
    selected_attrs(html, task_row_sel(), attr)
}

/// The digits of an id attribute read as a `u64`, if they are one.
pub open spec fn digits_id(t: Seq<char>) -> Option<u64> {
    if t.len() > 0 && all_digits(t) && dec_value(t) <= u64::MAX {
        Some(dec_value(t) as u64)
    } else {
        None
    }
}

/// The instant an optional date-time attribute denotes.
pub open spec fn opt_datetime(o: Option<Seq<char>>) -> Option<i64> {
    match o {
        Some(t) => parsed_datetime(trimmed(t), portal_datetime_format()),
        None => None,
    }
}

/// The submission at task row `i`, read from the row's answer attributes.
pub open spec fn answer_matches(html: Seq<char>, i: int, a: Answer) -> bool {
    &&& a.id == (match task_attr(html, "data-answer-id"@)[i] {
        Some(t) => digits_id(t),
        None => None::<u64>,
    })
    &&& a.content@ == (match task_attr(html, "data-answer-content"@)[i] {
        Some(t) => t,
        None => Seq::<char>::empty(),
    })
    &&& opt_view(a.file_href) == task_attr(html, "data-answer-file"@)[i]
    &&& a.is_graded == (task_attr(html, "data-answer-graded"@)[i] == Some("1"@))
    &&& a.lecturer_notes@ == (match task_attr(html, "data-answer-notes"@)[i] {
        Some(t) => t,
        None => Seq::<char>::empty(),
    })
    &&& a.score == (match task_attr(html, "data-answer-score"@)[i] {
        Some(t) => match score_of(trimmed(t)) {
            Some(v) => if v <= u64::MAX {
                v as u64
            } else {
                0
            },
            None => 0,
        },
        None => 0,
    })
    &&& a.date_submitted == opt_datetime(task_attr(html, "data-answer-date"@)[i])
}

/// The task at row `i`: titles, descriptions and the submission token come
/// from child nodes; ids, dates and the answer from the row's attributes; the
/// status is derived from the answer and the deadline, never read.
pub open spec fn task_matches(
    html: Seq<char>,
    i: int,
    course_id: u64,
    topic_id: u64,
    now: i64,
    t: Task,
) -> bool {
    &&& t.course_id == course_id
    &&& t.topic_id == topic_id
    &&& t.title@ == trimmed(selected_texts(html, task_title_sel())[i])
    &&& t.description@ == trimmed(selected_texts(html, task_description_sel())[i])
    &&& selected_attrs(html, task_token_sel(), "value"@)[i] matches Some(tok) && t.token@ == tok
    &&& t.id == (match task_attr(html, "data-id"@)[i] {
        Some(v) => digits_id(v),
        None => None::<u64>,
    })
    &&& opt_view(t.file) == task_attr(html, "data-file"@)[i]
    &&& t.start_date == opt_datetime(task_attr(html, "data-start"@)[i])
    &&& t.due_date == opt_datetime(task_attr(html, "data-due"@)[i])
    &&& (t.answer is Some <==> task_attr(html, "data-answer-id"@)[i] is Some)
    &&& (t.answer matches Some(a) ==> answer_matches(html, i, a))
    &&& t.status == status_of(
        t.answer is Some,
        t.answer matches Some(a) && a.is_graded,
        t.due_date,
        now,
    )
}

/// What a submission leaves behind on the page: any task row that carries a
/// numeric answer id and no graded flag is extracted as a task whose status
/// is `Submitted` and whose answer is present with its id populated, whatever
/// the deadline — on every page, so in particular on the one re-fetched after
/// a successful submission.
pub proof fn lemma_submitted_row_extracts_submitted(
    html: Seq<char>,
    i: int,
    course_id: u64,
    topic_id: u64,
    now: i64,
    t: Task,
)
    requires
        task_matches(html, i, course_id, topic_id, now, t),
        task_attr(html, "data-answer-id"@)[i] matches Some(v) && digits_id(v) is Some,
        task_attr(html, "data-answer-graded"@)[i] != Some("1"@),
    ensures
        t.status == TaskStatus::Submitted,
        t.answer matches Some(a) && a.id is Some && !a.is_graded,
{
}

/// What a deletion leaves behind on the page: any task row without an answer
/// id whose deadline lies in the past is extracted as a task whose status is
/// `NotSubmitted` and whose answer is absent — deletion inverts the
/// observable effect of submission on every re-fetched page.
pub proof fn lemma_deleted_row_extracts_not_submitted(
    html: Seq<char>,
    i: int,
    course_id: u64,
    topic_id: u64,
    now: i64,
    t: Task,
)
    requires
        task_matches(html, i, course_id, topic_id, now, t),
        task_attr(html, "data-answer-id"@)[i] is None,
        opt_datetime(task_attr(html, "data-due"@)[i]) matches Some(d) && d < now,
    ensures
        t.status == TaskStatus::NotSubmitted,
        t.answer is None,
{
}

/// The instructional unit at content row `i`.
pub open spec fn content_matches(html: Seq<char>, i: int, c: Content) -> bool {
    &&& selected_attrs(html, content_row_sel(), "data-id"@)[i] matches Some(t) && c.id
        == dec_value(t)
    &&& opt_view(c.youtube_id) == selected_attrs(html, content_row_sel(), "data-youtube"@)[i]
    &&& c.raw_html@ == selected_htmls(html, content_body_sel())[i]
}

/// Every per-task list has one entry per task row.
pub open spec fn task_lists_aligned(html: Seq<char>) -> bool {
    let n = task_attr(html, "data-id"@).len();
    &&& selected_texts(html, task_title_sel()).len() == n
    &&& selected_texts(html, task_description_sel()).len() == n
    &&& selected_attrs(html, task_token_sel(), "value"@).len() == n
    &&& task_attr(html, "data-file"@).len() == n
    &&& task_attr(html, "data-start"@).len() == n
    &&& task_attr(html, "data-due"@).len() == n
    &&& task_attr(html, "data-answer-id"@).len() == n
    &&& task_attr(html, "data-answer-content"@).len() == n
    &&& task_attr(html, "data-answer-file"@).len() == n
    &&& task_attr(html, "data-answer-graded"@).len() == n
    &&& task_attr(html, "data-answer-notes"@).len() == n
    &&& task_attr(html, "data-answer-score"@).len() == n
    &&& task_attr(html, "data-answer-date"@).len() == n
}

/// Every per-content list has one entry per content row.
pub open spec fn content_lists_aligned(html: Seq<char>) -> bool {
    let m = selected_attrs(html, content_row_sel(), "data-id"@).len();
    &&& selected_attrs(html, content_row_sel(), "data-youtube"@).len() == m
    &&& selected_htmls(html, content_body_sel()).len() == m
}

/// A content row carries a numeric id in range.
pub open spec fn content_row_ok(html: Seq<char>, i: int) -> bool {
    selected_attrs(html, content_row_sel(), "data-id"@)[i] matches Some(t) && t.len() > 0
        && all_digits(t) && dec_value(t) <= u32::MAX
}

/// A task row carries the submission token its later submission needs.
pub open spec fn task_row_ok(html: Seq<char>, i: int) -> bool {
    selected_attrs(html, task_token_sel(), "value"@)[i] is Some
}

/// A topic page yields a `TopicDetail`.
pub open spec fn topic_extraction_ok(html: Seq<char>) -> bool {
    &&& task_lists_aligned(html)
    &&& content_lists_aligned(html)
    &&& forall|i: int| 0 <= i < task_attr(html, "data-id"@).len() ==> task_row_ok(html, i)
    &&& forall|i: int|
        0 <= i < selected_attrs(html, content_row_sel(), "data-id"@).len() ==> content_row_ok(
            html,
            i,
        )
}

/// The topic's own header data.
pub open spec fn topic_head_matches(
    html: Seq<char>,
    course_id: u64,
    topic_id: u64,
    d: TopicDetail,
) -> bool {
    let locked = selected_attrs(html, topic_header_sel(), "data-locked"@);
    let times = selected_attrs(html, topic_header_sel(), "data-access-time"@);
    let descs = selected_texts(html, topic_description_sel());
    &&& d.id == topic_id
    &&& d.href@ == topic_detail_path_spec(course_id, topic_id)
    &&& d.is_accessible == !(locked.len() > 0 && locked[0] == Some("1"@))
    &&& d.access_time == (if times.len() > 0 {
        opt_datetime(times[0])
    } else {
        None::<i64>
    })
    &&& (match d.description {
        Some(t) => descs.len() > 0 && t@ == trimmed(descs[0]),
        None => descs.len() == 0,
    })
}

/// Parses a topic page into its full detail: header data, ordered contents,
/// and tasks whose status is derived from their submission and deadline at
/// the given time. Misaligned rows, a missing submission token or an
/// unreadable content id are parsing errors.
pub fn parse_topic_detail(course_id: u64, topic_id: u64, html: &str, now_secs: i64) -> (r: Result<
    TopicDetail,
    ScraperError,
>)
    ensures
        r matches Ok(d) ==> {
            &&& topic_head_matches(html@, course_id, topic_id, d)
            &&& d.contents@.len() == selected_attrs(html@, content_row_sel(), "data-id"@).len()
            &&& forall|i: int|
                0 <= i < d.contents@.len() ==> content_matches(html@, i, #[trigger] d.contents@[i])
            &&& d.tasks@.len() == task_attr(html@, "data-id"@).len()
            &&& forall|i: int|
                0 <= i < d.tasks@.len() ==> task_matches(
                    html@,
                    i,
                    course_id,
                    topic_id,
                    now_secs,
                    #[trigger] d.tasks@[i],
                )
        },
        r is Ok <==> topic_extraction_ok(html@),
        r is Err ==> r matches Err(ScraperError::ParsingError(_)),
{
    // Header and description
    let locked = select_attrs(html, ".topic-header", "data-locked");
    let times = select_attrs(html, ".topic-header", "data-access-time");
    let descs = select_texts(html, ".topic-description");

    let is_accessible = if locked.len() > 0 {
        assert(locked.deep_view()[0] == locked@[0].deep_view());
        match &locked[0] {
            Some(l) => !str_eq(l.as_str(), "1"),
            None => true,
        }
    } else {
        true
    };
    let access_time: Option<i64> = if times.len() > 0 {
        assert(times.deep_view()[0] == times@[0].deep_view());
        match &times[0] {
            Some(t) => parse_portal_datetime(trim(t.as_str())),
            None => None,
        }
    } else {
        None
    };
    let description: Option<String> = if descs.len() > 0 {
        assert(descs.deep_view()[0] == descs@[0]@);
        Some(trim(descs[0].as_str()).to_owned())
    } else {
        None
    };

    // Contents
    let content_ids = select_attrs(html, ".content-item", "data-id");
    let youtubes = select_attrs(html, ".content-item", "data-youtube");
    let bodies = select_htmls(html, ".content-item .content-body");
    let m = content_ids.len();
    if youtubes.len() != m || bodies.len() != m {
        return Err(ScraperError::ParsingError(String::from_str("content rows are misaligned")));
    }
    let mut contents: Vec<Content> = Vec::new();
    let mut i: usize = 0;
    while i < m
        invariant
            m == content_ids@.len() == selected_attrs(html@, content_row_sel(), "data-id"@).len(),
            content_ids.deep_view() == selected_attrs(html@, content_row_sel(), "data-id"@),
            youtubes.deep_view() == selected_attrs(html@, content_row_sel(), "data-youtube"@),
            bodies.deep_view() == selected_htmls(html@, content_body_sel()),
            youtubes@.len() == m && bodies@.len() == m,
            0 <= i <= m,
            contents@.len() == i,
            forall|j: int| 0 <= j < i ==> content_matches(html@, j, #[trigger] contents@[j]),
            forall|j: int| 0 <= j < i ==> content_row_ok(html@, j),
        decreases m - i,
    {
        assert(content_ids.deep_view()[i as int] == content_ids@[i as int].deep_view());
        assert(youtubes.deep_view()[i as int] == youtubes@[i as int].deep_view());
        assert(bodies.deep_view()[i as int] == bodies@[i as int]@);
        let id_u64 = match &content_ids[i] {
            Some(t) => match parse_u64(t.as_str()) {
                Some(v) => v,
                None => {
                    assert(!content_row_ok(html@, i as int));
                    return Err(ScraperError::ParsingError(String::from_str("content id is not numeric")));
                },
            },
            None => {
                assert(!content_row_ok(html@, i as int));
                return Err(ScraperError::ParsingError(String::from_str("content row has no id")));
            },
        };
        if id_u64 > u32::MAX as u64 {
            assert(!content_row_ok(html@, i as int));
            return Err(ScraperError::ParsingError(String::from_str("content id is out of range")));
        }
        let youtube_id: Option<String> = match &youtubes[i] {
            Some(y) => Some(y.clone()),
            None => None,
        };
        let c = Content { id: id_u64 as u32, youtube_id, raw_html: bodies[i].clone() };
        contents.push(c);
        i = i + 1;
    }

    // Tasks
    let task_ids = select_attrs(html, ".task-item", "data-id");
    let titles = select_texts(html, ".task-item .task-title");
    let task_descs = select_texts(html, ".task-item .task-description");
    let tokens = select_attrs(html, ".task-item input[name=\"submission_token\"]", "value");
    let files = select_attrs(html, ".task-item", "data-file");
    let starts = select_attrs(html, ".task-item", "data-start");
    let dues = select_attrs(html, ".task-item", "data-due");
    let ans_ids = select_attrs(html, ".task-item", "data-answer-id");
    let ans_contents = select_attrs(html, ".task-item", "data-answer-content");
    let ans_files = select_attrs(html, ".task-item", "data-answer-file");
    let ans_graded = select_attrs(html, ".task-item", "data-answer-graded");
    let ans_notes = select_attrs(html, ".task-item", "data-answer-notes");
    let ans_scores = select_attrs(html, ".task-item", "data-answer-score");
    let ans_dates = select_attrs(html, ".task-item", "data-answer-date");
    let n = task_ids.len();
    if titles.len() != n || task_descs.len() != n || tokens.len() != n || files.len() != n
        || starts.len() != n || dues.len() != n || ans_ids.len() != n || ans_contents.len() != n
        || ans_files.len() != n || ans_graded.len() != n || ans_notes.len() != n
        || ans_scores.len() != n || ans_dates.len() != n {
        return Err(ScraperError::ParsingError(String::from_str("task rows are misaligned")));
    }
    let mut tasks: Vec<Task> = Vec::new();
    let mut i: usize = 0;
    while i < n
        invariant
            n == task_ids@.len() == task_attr(html@, "data-id"@).len(),
            task_ids.deep_view() == task_attr(html@, "data-id"@),
            titles.deep_view() == selected_texts(html@, task_title_sel()),
            task_descs.deep_view() == selected_texts(html@, task_description_sel()),
            tokens.deep_view() == selected_attrs(html@, task_token_sel(), "value"@),
            files.deep_view() == task_attr(html@, "data-file"@),
            starts.deep_view() == task_attr(html@, "data-start"@),
            dues.deep_view() == task_attr(html@, "data-due"@),
            ans_ids.deep_view() == task_attr(html@, "data-answer-id"@),
            ans_contents.deep_view() == task_attr(html@, "data-answer-content"@),
            ans_files.deep_view() == task_attr(html@, "data-answer-file"@),
            ans_graded.deep_view() == task_attr(html@, "data-answer-graded"@),
            ans_notes.deep_view() == task_attr(html@, "data-answer-notes"@),
            ans_scores.deep_view() == task_attr(html@, "data-answer-score"@),
            ans_dates.deep_view() == task_attr(html@, "data-answer-date"@),
            titles@.len() == n && task_descs@.len() == n && tokens@.len() == n && files@.len() == n
                && starts@.len() == n && dues@.len() == n && ans_ids@.len() == n
                && ans_contents@.len() == n && ans_files@.len() == n && ans_graded@.len() == n
                && ans_notes@.len() == n && ans_scores@.len() == n && ans_dates@.len() == n,
            0 <= i <= n,
            tasks@.len() == i,
            forall|j: int|
                0 <= j < i ==> task_matches(
                    html@,
                    j,
                    course_id,
                    topic_id,
                    now_secs,
                    #[trigger] tasks@[j],
                ),
            forall|j: int| 0 <= j < i ==> task_row_ok(html@, j),
        decreases n - i,
    {
        assert(task_ids.deep_view()[i as int] == task_ids@[i as int].deep_view());
        assert(titles.deep_view()[i as int] == titles@[i as int]@);
        assert(task_descs.deep_view()[i as int] == task_descs@[i as int]@);
        assert(tokens.deep_view()[i as int] == tokens@[i as int].deep_view());
        assert(files.deep_view()[i as int] == files@[i as int].deep_view());
        assert(starts.deep_view()[i as int] == starts@[i as int].deep_view());
        assert(dues.deep_view()[i as int] == dues@[i as int].deep_view());
        assert(ans_ids.deep_view()[i as int] == ans_ids@[i as int].deep_view());
        assert(ans_contents.deep_view()[i as int] == ans_contents@[i as int].deep_view());
        assert(ans_files.deep_view()[i as int] == ans_files@[i as int].deep_view());
        assert(ans_graded.deep_view()[i as int] == ans_graded@[i as int].deep_view());
        assert(ans_notes.deep_view()[i as int] == ans_notes@[i as int].deep_view());
        assert(ans_scores.deep_view()[i as int] == ans_scores@[i as int].deep_view());
        assert(ans_dates.deep_view()[i as int] == ans_dates@[i as int].deep_view());

        let token = match &tokens[i] {
            Some(t) => t.clone(),
            None => {
                assert(!task_row_ok(html@, i as int));
                return Err(ScraperError::ParsingError(String::from_str("task row has no submission token")));
            },
        };
        let id: Option<u64> = match &task_ids[i] {
            Some(t) => parse_u64(t.as_str()),
            None => None,
        };
        let file: Option<String> = match &files[i] {
            Some(f) => Some(f.clone()),
            None => None,
        };
        let start_date: Option<i64> = match &starts[i] {
            Some(t) => parse_portal_datetime(trim(t.as_str())),
            None => None,
        };
        let due_date: Option<i64> = match &dues[i] {
            Some(t) => parse_portal_datetime(trim(t.as_str())),
            None => None,
        };
        let answer: Option<Answer> = match &ans_ids[i] {
            Some(aid_text) => {
                let aid = parse_u64(aid_text.as_str());
                let content = match &ans_contents[i] {
                    Some(t) => t.clone(),
                    None => String::new(),
                };
                let file_href: Option<String> = match &ans_files[i] {
                    Some(f) => Some(f.clone()),
                    None => None,
                };
                let is_graded = match &ans_graded[i] {
                    Some(g) => str_eq(g.as_str(), "1"),
                    None => false,
                };
                let lecturer_notes = match &ans_notes[i] {
                    Some(t) => t.clone(),
                    None => String::new(),
                };
                let score = match &ans_scores[i] {
                    Some(t) => match parse_score(trim(t.as_str())) {
                        Some(v) => v,
                        None => 0,
                    },
                    None => 0,
                };
                let date_submitted: Option<i64> = match &ans_dates[i] {
                    Some(t) => parse_portal_datetime(trim(t.as_str())),
                    None => None,
                };
                Some(
                    Answer {
                        id: aid,
                        content,
                        file_href,
                        is_graded,
                        lecturer_notes,
                        score,
                        date_submitted,
                    },
                )
            },
            None => None,
        };
        let status = derive_task_status(&answer, &due_date, now_secs);
        let t = Task {
            id,
            course_id,
            topic_id,
            token,
            title: trim(titles[i].as_str()).to_owned(),
            description: trim(task_descs[i].as_str()).to_owned(),
            file,
            start_date,
            due_date,
            status,
            answer,
        };
        tasks.push(t);
        i = i + 1;
    }

    Ok(
        TopicDetail {
            id: topic_id,
            access_time,
            is_accessible,
            href: topic_detail_path(course_id, topic_id),
            description,
            contents,
            tasks,
        },
    )
}

} // verus!
