use vstd::prelude::*;

use crate::error::ScraperError;
use crate::text::{
    all_digits, dec_string, dec_value, digit_char, eq_ci, find_idx, trimmed,
    eq_ignore_case, find_char, parse_u16, push_char, trim, u64_to_string,
};
use vstd::string::{StrSliceExecFns, StringExecFns};

verus! {

/// A user profile on the platform.
#[derive(Debug, Clone)]
pub struct User {
    /// The full name of the student.
    pub name: String,
    /// The unique student identification number (NIM).
    pub nim: String,
}

/// A course the student is or was enrolled in.
#[derive(Debug, Clone)]
pub struct Course {
    /// Unique internal identifier for the course.
    pub id: u64,
    /// The official course code.
    pub code: String,
    /// The full name of the course.
    pub name: String,
    /// Number of academic credits awarded for the course.
    pub credits: u8,
    /// The name of the primary lecturer.
    pub lecturer: String,
    /// The academic year and semester label.
    pub academic_year: String,
    /// The URL path to the course's detail page.
    pub href: String,
}

/// Syllabus reference of a course; may be entirely absent.
#[derive(Debug, Clone)]
pub struct Rps {
    /// Unique identifier for the syllabus document.
    pub id: Option<u64>,
    /// URL path to the syllabus file.
    pub href: Option<String>,
}

/// Summary information for a learning topic within a course.
///
/// Fields are optional because not all courses expose topics, and topics may
/// be locked. Timestamps are seconds since the Unix epoch.
#[derive(Debug, Clone)]
pub struct TopicInfo {
    /// Unique identifier for the topic.
    pub id: Option<u64>,
    /// The ID of the course this topic belongs to.
    pub course_id: Option<u64>,
    /// When the user last accessed this topic, in epoch seconds.
    pub access_time: Option<i64>,
    /// Whether the topic is currently open for students.
    pub is_accessible: bool,
    /// URL path to the topic's detail page.
    pub href: Option<String>,
}

/// Detailed data for a specific course, including its list of topics.
#[derive(Debug, Clone)]
pub struct DetailCourse {
    /// Basic identification and meta-data for the course.
    pub course_info: Course,
    /// A textual description of the course.
    pub description: String,
    /// Syllabus information.
    pub rps: Rps,
    /// The ordered list of learning topics of this course.
    pub topics: Vec<TopicInfo>,
}

/// One instructional unit within a topic.
#[derive(Debug, Clone)]
pub struct Content {
    /// Unique identifier for the content piece.
    pub id: u32,
    /// The video reference, if the content is an embedded video.
    pub youtube_id: Option<String>,
    /// Raw HTML body for text-based materials.
    pub raw_html: String,
}

/// The derived status of a student's task submission.
#[derive(Debug, Clone, Copy, PartialEq, Eq, Structural)]
pub enum TaskStatus {
    /// No submission yet and the deadline has not passed (or is absent).
    Pending,
    /// A submission exists but has not been graded.
    Submitted,
    /// A submission exists and has been graded.
    Graded,
    /// No submission and the deadline has passed.
    NotSubmitted,
}

/// A student's submission for a task.
///
/// The score is held in hundredths of a point, so that a mark of 85.5 is 8550.
#[derive(Debug, Clone)]
pub struct Answer {
    /// Unique identifier for the submission.
    pub id: Option<u64>,
    /// The text content provided by the student.
    pub content: String,
    /// URL of the uploaded file, if any.
    pub file_href: Option<String>,
    /// Whether the lecturer has graded this submission.
    pub is_graded: bool,
    /// Feedback provided by the lecturer.
    pub lecturer_notes: String,
    /// The awarded score, in hundredths of a point.
    pub score: u64,
    /// When the submission was uploaded, in epoch seconds.
    pub date_submitted: Option<i64>,
}

/// A task or assignment within a topic.
#[derive(Debug, Clone)]
pub struct Task {
    /// Unique identifier for the task.
    pub id: Option<u64>,
    /// The ID of the parent course.
    pub course_id: u64,
    /// The ID of the parent topic.
    pub topic_id: u64,
    /// Security token required for submission.
    pub token: String,
    /// The title of the assignment.
    pub title: String,
    /// Detailed instructions for the task.
    pub description: String,
    /// Name of the reference file provided by the lecturer, if any.
    pub file: Option<String>,
    /// When the task opens for submission, in epoch seconds.
    pub start_date: Option<i64>,
    /// The submission deadline, in epoch seconds.
    pub due_date: Option<i64>,
    /// The derived submission status.
    pub status: TaskStatus,
    /// The student's submission, if any.
    pub answer: Option<Answer>,
}

/// Full details of a topic: instructional content and assignments.
#[derive(Debug, Clone)]
pub struct TopicDetail {
    /// Unique identifier for the topic.
    pub id: u64,
    /// When the topic was last accessed, in epoch seconds.
    pub access_time: Option<i64>,
    /// Whether students can currently view this topic.
    pub is_accessible: bool,
    /// The direct URL path to the topic page.
    pub href: String,
    /// General description of the topic.
    pub description: Option<String>,
    /// The ordered instructional materials.
    pub contents: Vec<Content>,
    /// The assignments of this topic.
    pub tasks: Vec<Task>,
}

// ---------------------------------------------------------------------------
// Task status derivation
// ---------------------------------------------------------------------------

/// The status a task must carry, derived from its submission and deadline.
///
/// The source data never states the status as a single field; it is computed
/// with this exact precedence: grading first, then submission presence, then
/// the deadline.
pub open spec fn status_of(has_answer: bool, is_graded: bool, due_date: Option<i64>, now: i64) -> TaskStatus {
    if has_answer {
        if is_graded {
            TaskStatus::Graded
        } else {
            TaskStatus::Submitted
        }
    } else if due_date matches Some(d) && d < now {
        TaskStatus::NotSubmitted
    } else {
        TaskStatus::Pending
    }
}

/// Computes the status of a task from its submission state and deadline.
pub fn derive_task_status(answer: &Option<Answer>, due_date: &Option<i64>, now: i64) -> (st: TaskStatus)
    ensures
        st == status_of(
            answer is Some,
            answer matches Some(a) && a.is_graded,
            *due_date,
            now,
        ),
{
    match answer {
        Some(a) => {
            if a.is_graded {
                TaskStatus::Graded
            } else {
                TaskStatus::Submitted
            }
        },
        None => {
            match due_date {
                Some(d) => {
                    if *d < now {
                        TaskStatus::NotSubmitted
                    } else {
                        TaskStatus::Pending
                    }
                },
                None => TaskStatus::Pending,
            }
        },
    }
}

// ---------------------------------------------------------------------------
// Semester and Period
// ---------------------------------------------------------------------------

/// The type of an academic semester.
#[derive(Debug, Clone, Copy, PartialEq, Eq, Structural)]
pub enum Semester {
    /// Odd semester, typically September to January.
    Odd,
    /// Even semester, typically February to June.
    Even,
    /// Short semester, typically July to August.
    Short,
}

/// The numeric code of a semester in the portal's URL scheme.
pub open spec fn sem_num(s: Semester) -> nat {
    match s {
        Semester::Odd => 1,
        Semester::Even => 2,
        Semester::Short => 3,
    }
}

impl Semester {
    /// Converts the semester to its numeric code used in the URL format.
    pub fn as_num(&self) -> (n: u8)
        ensures
            n == sem_num(*self),
    {
        match self {
            Semester::Odd => 1,
            Semester::Even => 2,
            Semester::Short => 3,
        }
    }
}

/// An academic period: a starting year and a semester.
#[derive(Debug, Clone, Copy, PartialEq, Eq, Structural)]
pub struct Period {
    /// The starting year of the academic period.
    pub year: u16,
    /// The semester within that year.
    pub semester: Semester,
}

/// The compact numeric path segment that encodes a period.
pub open spec fn period_format_spec(p: Period) -> Seq<char> {
    dec_string(p.year as nat) + seq![digit_char(sem_num(p.semester))]
}

/// Inversion of the compact numeric path segment.
pub open spec fn parse_path_spec(s: Seq<char>) -> Option<Period> {
    let ypart = s.subrange(0, s.len() - 1);
    if s.len() >= 2 && all_digits(ypart) && dec_value(ypart) <= u16::MAX && (
        s.last() == '1' || s.last() == '2' || s.last() == '3'
    ) {
        Some(Period {
            year: dec_value(ypart) as u16,
            semester: if s.last() == '1' { Semester::Odd }
                      else if s.last() == '2' { Semester::Even }
                      else { Semester::Short },
        })
    } else {
        None
    }
}

/// The two dash-separated halves of a label, trimmed; `None` unless the dash
/// count is exactly one.
pub open spec fn label_parts(s: Seq<char>) -> Option<(Seq<char>, Seq<char>)> {
    let i = find_idx(s, '-');
    if i == s.len() {
        None
    } else {
        let a = s.subrange(0, i);
        let b = s.subrange(i + 1, s.len() as int);
        if find_idx(b, '-') == b.len() {
            Some((trimmed(a), trimmed(b)))
        } else {
            None
        }
    }
}

/// The starting year read from the first slash-segment of a label half.
pub open spec fn year_of_part(a: Seq<char>) -> Option<u16> {
    let seg = a.subrange(0, find_idx(a, '/'));
    if seg.len() > 0 && all_digits(seg) && dec_value(seg) <= u16::MAX {
        Some(dec_value(seg) as u16)
    } else {
        None
    }
}

/// The semester named by a label token, compared without regard to ASCII case.
pub open spec fn semester_of_token(t: Seq<char>) -> Option<Semester> {
    if eq_ci(t, "genap"@) {
        Some(Semester::Even)
    } else if eq_ci(t, "ganjil"@) {
        Some(Semester::Odd)
    } else if eq_ci(t, "sp"@) || eq_ci(t, "semester pendek"@) {
        Some(Semester::Short)
    } else {
        None
    }
}

/// Inversion of the human label form `"YYYY/YYYY - <SemesterName>"`.
pub open spec fn parse_label_spec(s: Seq<char>) -> Option<Period> {
    match label_parts(s) {
        None => None,
        Some((a, b)) => match (year_of_part(a), semester_of_token(b)) {
            (Some(y), Some(m)) => Some(Period { year: y, semester: m }),
            _ => None,
        },
    }
}

impl Period {
    /// Creates a new `Period`.
    pub fn new(year: u16, semester: Semester) -> (p: Self)
        ensures
            p.year == year,
            p.semester == semester,
    {
        Self { year, semester }
    }

    /// Formats the period into the compact numeric form of the URL scheme,
    /// the year followed by the semester's numeric code.
    pub fn format(&self) -> (r: String)
        ensures
            r@ == period_format_spec(*self),
    {
        let mut s = u64_to_string(self.year as u64);
        let n = self.semester.as_num();
        push_char(&mut s, if n == 1 { '1' } else if n == 2 { '2' } else { '3' });
        assert(s@ =~= period_format_spec(*self));
        s
    }

    /// Parses the compact numeric form back into a period.
    ///
    /// Fails closed, with a parsing error, on anything but a digit string
    /// followed by a semester code.
    pub fn from_path_segment(s: &str) -> (r: Result<Self, ScraperError>)
        ensures
            r matches Ok(p) ==> parse_path_spec(s@) == Some(p),
            r is Ok <==> parse_path_spec(s@) is Some,
            r is Err ==> r matches Err(ScraperError::ParsingError(_)),
    {
        let len = s.unicode_len();
        if len < 2 {
            return Err(ScraperError::ParsingError(String::from_str("period segment too short")));
        }
        let ypart = s.substring_char(0, len - 1);
        let year = match parse_u16(ypart) {
            Some(y) => y,
            None => {
                return Err(ScraperError::ParsingError(String::from_str("cannot parse year digits")));
            },
        };
        let sem = match s.get_char(len - 1) {
            '1' => Semester::Odd,
            '2' => Semester::Even,
            '3' => Semester::Short,
            _ => {
                return Err(ScraperError::ParsingError(String::from_str("unknown semester code")));
            },
        };
        Ok(Period { year, semester: sem })
    }

    /// Parses a human-readable academic year label into a `Period`.
    ///
    /// The label must split into exactly two dash-separated parts; the year is
    /// the first slash-segment of the first part; the second part must name
    /// one of the three known semesters, compared without regard to ASCII
    /// letter case. Anything else is rejected with a parsing error, never
    /// defaulted.
    pub fn from_academic_year_string(s: &str) -> (r: Result<Self, ScraperError>)
        ensures
            r matches Ok(p) ==> parse_label_spec(s@) == Some(p),
            r is Ok <==> parse_label_spec(s@) is Some,
            r is Err ==> r matches Err(ScraperError::ParsingError(_)),
    {
        let len = s.unicode_len();
        let i = find_char(s, '-');
        if i == len {
            return Err(ScraperError::ParsingError(String::from_str("label has no dash separator")));
        }
        let part_a = s.substring_char(0, i);
        let part_b = s.substring_char(i + 1, len);
        assert(part_a@ =~= s@.subrange(0, i as int));
        assert(part_b@ =~= s@.subrange(i + 1, s@.len() as int));
        let blen = part_b.unicode_len();
        if find_char(part_b, '-') != blen {
            return Err(ScraperError::ParsingError(String::from_str("label has more than one dash")));
        }
        let a = trim(part_a);
        let b = trim(part_b);

        let k = find_char(a, '/');
        let alen = a.unicode_len();
        let seg = if k < alen { a.substring_char(0, k) } else { a };
        assert(seg@ =~= a@.subrange(0, find_idx(a@, '/')));
        let year = match parse_u16(seg) {
            Some(y) => y,
            None => {
                return Err(ScraperError::ParsingError(String::from_str("cannot parse year")));
            },
        };

        let semester = if eq_ignore_case(b, "genap") {
            Semester::Even
        } else if eq_ignore_case(b, "ganjil") {
            Semester::Odd
        } else if eq_ignore_case(b, "sp") || eq_ignore_case(b, "semester pendek") {
            Semester::Short
        } else {
            return Err(ScraperError::ParsingError(String::from_str("unknown semester type")));
        };

        Ok(Period { year, semester })
    }
}

/// Parsing the compact numeric form undoes formatting: the round trip over
/// every period returns the period itself.
pub proof fn lemma_period_round_trip(p: Period)
    ensures
        parse_path_spec(period_format_spec(p)) == Some(p),
{
    let s = period_format_spec(p);
    let y = dec_string(p.year as nat);
    crate::text::lemma_dec_string_digits(p.year as nat);
    crate::text::lemma_dec_round_trip(p.year as nat);
    assert(s.subrange(0, s.len() - 1) =~= y);
    assert(s.last() == digit_char(sem_num(p.semester)));
}

/// A label that parses yields, through formatting, the canonical numeric form
/// of its own year segment and semester: formatting then re-parsing the
/// numeric segment returns the same period.
pub proof fn lemma_label_then_format_canonical(s: Seq<char>, p: Period)
    requires
        parse_label_spec(s) == Some(p),
    ensures
        parse_path_spec(period_format_spec(p)) == Some(p),
{
    lemma_period_round_trip(p);
}

// ---------------------------------------------------------------------------
// Delay configuration
// ---------------------------------------------------------------------------

/// Process-wide pacing policy for outbound calls.
#[derive(Debug, Clone)]
pub struct DelayConfig {
    /// Minimum sleep duration in milliseconds between requests.
    pub min_delay_ms: u64,
    /// Maximum sleep duration in milliseconds between requests.
    pub max_delay_ms: u64,
    /// Whether the randomized delay logic is active.
    pub enabled: bool,
}

impl Default for DelayConfig {
    /// Default configuration: 1000 to 3000 milliseconds, enabled.
    fn default() -> (c: Self)
        ensures
            c.min_delay_ms == 1000,
            c.max_delay_ms == 3000,
            c.enabled,
    {
        Self { min_delay_ms: 1000, max_delay_ms: 3000, enabled: true }
    }
}

} // verus!

