use vstd::prelude::*;

use crate::dates::{parse_portal_datetime, parsed_datetime, portal_datetime_format};
use crate::error::ScraperError;
use crate::models::{Course, DetailCourse, Rps, TopicInfo};
use crate::scrape::{selected_attrs, selected_texts, select_attrs, select_texts};
use crate::text::{opt_view, seg_id, trimmed, parse_path_id, parse_u8, trim};
use vstd::string::{StrSliceExecFns, StringExecFns};

verus! {

// The column selectors of one course row on the dashboard.
pub open spec fn course_code_sel() -> Seq<char> {
    ".course-item .course-code"@
}

pub open spec fn course_name_sel() -> Seq<char> {
    ".course-item .course-name"@
}

pub open spec fn course_credits_sel() -> Seq<char> {
    ".course-item .course-credits"@
}

pub open spec fn course_lecturer_sel() -> Seq<char> {
    ".course-item .course-lecturer"@
}

pub open spec fn course_period_sel() -> Seq<char> {
    ".course-item .course-period"@
}

pub open spec fn course_link_sel() -> Seq<char> {
    ".course-item a.course-link"@
}

/// Every column list of the dashboard has one entry per course row.
pub open spec fn course_lists_aligned(html: Seq<char>) -> bool {
    let n = selected_texts(html, course_code_sel()).len();
    &&& selected_texts(html, course_name_sel()).len() == n
    &&& selected_texts(html, course_credits_sel()).len() == n
    &&& selected_texts(html, course_lecturer_sel()).len() == n
    &&& selected_texts(html, course_period_sel()).len() == n
    &&& selected_attrs(html, course_link_sel(), "href"@).len() == n
}

/// One course row holds what a `Course` needs: a credit count in range, and a
/// detail link whose path ends in the course's numeric id.
pub open spec fn course_row_ok(html: Seq<char>, i: int) -> bool {
    let cred = trimmed(selected_texts(html, course_credits_sel())[i]);
    let href = selected_attrs(html, course_link_sel(), "href"@)[i];
    &&& cred.len() > 0
    &&& crate::text::all_digits(cred)
    &&& crate::text::dec_value(cred) <= u8::MAX
    &&& href matches Some(h) && seg_id(h) is Some
}

/// The dashboard HTML yields a course list.
pub open spec fn course_extraction_ok(html: Seq<char>) -> bool {
    &&& course_lists_aligned(html)
    &&& forall|i: int|
        0 <= i < selected_texts(html, course_code_sel()).len() ==> course_row_ok(html, i)
}

/// The course at row `i`: each field comes from its column, trimmed, and the
/// id is read from the tail of the detail link.
pub open spec fn course_matches(html: Seq<char>, i: int, c: Course) -> bool {
    &&& c.code@ == trimmed(selected_texts(html, course_code_sel())[i])
    &&& c.name@ == trimmed(selected_texts(html, course_name_sel())[i])
    &&& c.credits == crate::text::dec_value(trimmed(selected_texts(html, course_credits_sel())[i]))
    &&& c.lecturer@ == trimmed(selected_texts(html, course_lecturer_sel())[i])
    &&& c.academic_year@ == trimmed(selected_texts(html, course_period_sel())[i])
    &&& selected_attrs(html, course_link_sel(), "href"@)[i] matches Some(h) && c.href@ == h
        && Some(c.id) == seg_id(h)
}

/// Extracts the course list from the dashboard HTML: one `Course` per row,
/// in document order. Misaligned rows, an unreadable credit count or a
/// missing or non-numeric detail link are parsing errors.
pub fn parse_courses_from_html(html: &str) -> (r: Result<Vec<Course>, ScraperError>)
    ensures
        r matches Ok(cs) ==> cs@.len() == selected_texts(html@, course_code_sel()).len()
            && forall|i: int| 0 <= i < cs@.len() ==> course_matches(html@, i, #[trigger] cs@[i]),
        r is Ok <==> course_extraction_ok(html@),
        r is Err ==> r matches Err(ScraperError::ParsingError(_)),
{
    let codes = select_texts(html, ".course-item .course-code");
    let names = select_texts(html, ".course-item .course-name");
    let credits = select_texts(html, ".course-item .course-credits");
    let lecturers = select_texts(html, ".course-item .course-lecturer");
    let periods = select_texts(html, ".course-item .course-period");
    let hrefs = select_attrs(html, ".course-item a.course-link", "href");
    let n = codes.len();
    if names.len() != n || credits.len() != n || lecturers.len() != n || periods.len() != n
        || hrefs.len() != n {
        return Err(ScraperError::ParsingError(String::from_str("course rows are misaligned")));
    }
    let mut cs: Vec<Course> = Vec::new();
    let mut i: usize = 0;
    while i < n
        invariant
            n == codes@.len() == selected_texts(html@, course_code_sel()).len(),
            codes.deep_view() == selected_texts(html@, course_code_sel()),
            names.deep_view() == selected_texts(html@, course_name_sel()),
            credits.deep_view() == selected_texts(html@, course_credits_sel()),
            lecturers.deep_view() == selected_texts(html@, course_lecturer_sel()),
            periods.deep_view() == selected_texts(html@, course_period_sel()),
            hrefs.deep_view() == selected_attrs(html@, course_link_sel(), "href"@),
            course_lists_aligned(html@),
            names@.len() == n && credits@.len() == n && lecturers@.len() == n && periods@.len()
                == n && hrefs@.len() == n,
            0 <= i <= n,
            cs@.len() == i,
            forall|j: int| 0 <= j < i ==> course_matches(html@, j, #[trigger] cs@[j]),
            forall|j: int| 0 <= j < i ==> course_row_ok(html@, j),
        decreases n - i,
    {
        assert(credits.deep_view()[i as int] == credits@[i as int]@);
        let cred_text = trim(credits[i].as_str());
        let cred = match parse_u8(cred_text) {
            Some(c) => c,
            None => {
                assert(!course_row_ok(html@, i as int));
                return Err(ScraperError::ParsingError(String::from_str("cannot parse the credit count")));
            },
        };
        assert(hrefs.deep_view()[i as int] == hrefs@[i as int].deep_view());
        let href = match &hrefs[i] {
            Some(h) => h.clone(),
            None => {
                assert(!course_row_ok(html@, i as int));
                return Err(ScraperError::ParsingError(String::from_str("course row has no detail link")));
            },
        };
        let id = match parse_path_id(href.as_str()) {
            Some(v) => v,
            None => {
                assert(!course_row_ok(html@, i as int));
                return Err(ScraperError::ParsingError(String::from_str("course link has no numeric id")));
            },
        };
        assert(codes.deep_view()[i as int] == codes@[i as int]@);
        assert(names.deep_view()[i as int] == names@[i as int]@);
        assert(lecturers.deep_view()[i as int] == lecturers@[i as int]@);
        assert(periods.deep_view()[i as int] == periods@[i as int]@);
        let c = Course {
            id,
            code: trim(codes[i].as_str()).to_owned(),
            name: trim(names[i].as_str()).to_owned(),
            credits: cred,
            lecturer: trim(lecturers[i].as_str()).to_owned(),
            academic_year: trim(periods[i].as_str()).to_owned(),
            href,
        };
        cs.push(c);
        i = i + 1;
    }
    Ok(cs)
}

// ---------------------------------------------------------------------------
// Course detail
// ---------------------------------------------------------------------------

pub open spec fn course_description_sel() -> Seq<char> {
    ".course-description"@
}

pub open spec fn rps_link_sel() -> Seq<char> {
    ".rps-link"@
}

pub open spec fn topic_row_sel() -> Seq<char> {
    ".topic-item"@
}

/// The syllabus reference a detail page yields: the first syllabus link, its
/// id read from the tail of its path, or nothing at all.
pub open spec fn rps_matches(html: Seq<char>, rps: Rps) -> bool {
    let links = selected_attrs(html, rps_link_sel(), "href"@);
    if links.len() > 0 && links[0] is Some {
        &&& opt_view(rps.href) == links[0]
        &&& rps.id == seg_id(links[0]->0)
    } else {
        rps.href is None && rps.id is None
    }
}

/// The topic summary at row `i` of a detail page: its link, lock flag and
/// last-access time come from the row's attributes; its id is read from the
/// tail of the link; the owning course is the page's course.
pub open spec fn topic_matches(html: Seq<char>, i: int, course_id: u64, t: TopicInfo) -> bool {
    let href = selected_attrs(html, topic_row_sel(), "data-href"@)[i];
    let locked = selected_attrs(html, topic_row_sel(), "data-locked"@)[i];
    let time = selected_attrs(html, topic_row_sel(), "data-access-time"@)[i];
    &&& t.course_id == Some(course_id)
    &&& t.is_accessible == !(locked == Some("1"@))
    &&& opt_view(t.href) == href
    &&& t.id == (match href {
        Some(h) => seg_id(h),
        None => None::<u64>,
    })
    &&& t.access_time == (match time {
        Some(ts) => parsed_datetime(trimmed(ts), portal_datetime_format()),
        None => None::<i64>,
    })
}

/// The per-topic attribute lists of a detail page are aligned.
pub open spec fn topic_lists_aligned(html: Seq<char>) -> bool {
    let n = selected_attrs(html, topic_row_sel(), "data-href"@).len();
    &&& selected_attrs(html, topic_row_sel(), "data-locked"@).len() == n
    &&& selected_attrs(html, topic_row_sel(), "data-access-time"@).len() == n
}

/// A detail page yields a `DetailCourse`: it has a description node and
/// aligned topic rows.
pub open spec fn detail_extraction_ok(html: Seq<char>) -> bool {
    &&& selected_texts(html, course_description_sel()).len() > 0
    &&& topic_lists_aligned(html)
}

/// Merges a course's detail page into a `DetailCourse`: the known summary,
/// the description, the syllabus reference, and the ordered topic list.
pub fn parse_course_detail(course: &Course, html: &str) -> (r: Result<DetailCourse, ScraperError>)
    ensures
        r matches Ok(d) ==> {
            &&& d.course_info == *course
            &&& selected_texts(html@, course_description_sel()).len() > 0
            &&& d.description@ == trimmed(selected_texts(html@, course_description_sel())[0])
            &&& rps_matches(html@, d.rps)
            &&& d.topics@.len() == selected_attrs(html@, topic_row_sel(), "data-href"@).len()
            &&& forall|i: int|
                0 <= i < d.topics@.len() ==> topic_matches(
                    html@,
                    i,
                    course.id,
                    #[trigger] d.topics@[i],
                )
        },
        r is Ok <==> detail_extraction_ok(html@),
        r is Err ==> (r matches Err(ScraperError::ElementNotFound(_)) || r matches Err(
            ScraperError::ParsingError(_),
        )),
{
    let descriptions = select_texts(html, ".course-description");
    if descriptions.len() == 0 {
        return Err(ScraperError::ElementNotFound(String::from_str("course description")));
    }
    assert(descriptions.deep_view()[0] == descriptions@[0]@);
    let description = trim(descriptions[0].as_str()).to_owned();

    let rps_links = select_attrs(html, ".rps-link", "href");
    let rps = if rps_links.len() > 0 {
        assert(rps_links.deep_view()[0] == rps_links@[0].deep_view());
        match &rps_links[0] {
            Some(h) => Rps { id: parse_path_id(h.as_str()), href: Some(h.clone()) },
            None => Rps { id: None, href: None },
        }
    } else {
        Rps { id: None, href: None }
    };

    let hrefs = select_attrs(html, ".topic-item", "data-href");
    let locks = select_attrs(html, ".topic-item", "data-locked");
    let times = select_attrs(html, ".topic-item", "data-access-time");
    let n = hrefs.len();
    if locks.len() != n || times.len() != n {
        return Err(ScraperError::ParsingError(String::from_str("topic rows are misaligned")));
    }
    let mut topics: Vec<TopicInfo> = Vec::new();
    let mut i: usize = 0;
    while i < n
        invariant
            n == hrefs@.len() == selected_attrs(html@, topic_row_sel(), "data-href"@).len(),
            hrefs.deep_view() == selected_attrs(html@, topic_row_sel(), "data-href"@),
            locks.deep_view() == selected_attrs(html@, topic_row_sel(), "data-locked"@),
            times.deep_view() == selected_attrs(html@, topic_row_sel(), "data-access-time"@),
            locks@.len() == n && times@.len() == n,
            0 <= i <= n,
            topics@.len() == i,
            forall|j: int|
                0 <= j < i ==> topic_matches(html@, j, course.id, #[trigger] topics@[j]),
        decreases n - i,
    {
        assert(hrefs.deep_view()[i as int] == hrefs@[i as int].deep_view());
        assert(locks.deep_view()[i as int] == locks@[i as int].deep_view());
        assert(times.deep_view()[i as int] == times@[i as int].deep_view());
        let href: Option<String> = match &hrefs[i] {
            Some(h) => Some(h.clone()),
            None => None,
        };
        let id: Option<u64> = match &href {
            Some(h) => parse_path_id(h.as_str()),
            None => None,
        };
        let is_accessible = match &locks[i] {
            Some(l) => !crate::text::str_eq(l.as_str(), "1"),
            None => true,
        };
        proof {
            let locked = selected_attrs(html@, topic_row_sel(), "data-locked"@)[i as int];
            if locks@[i as int] is Some {
                assert(locked == Some(locks@[i as int]->0@));
            }
        }
        let access_time: Option<i64> = match &times[i] {
            Some(t) => parse_portal_datetime(trim(t.as_str())),
            None => None,
        };
        let topic = TopicInfo { id, course_id: Some(course.id), access_time, is_accessible, href };
        topics.push(topic);
        i = i + 1;
    }

    let course_info = Course {
        id: course.id,
        code: course.code.clone(),
        name: course.name.clone(),
        credits: course.credits,
        lecturer: course.lecturer.clone(),
        academic_year: course.academic_year.clone(),
        href: course.href.clone(),
    };
    Ok(DetailCourse { course_info, description, rps, topics })
}

} // verus!
