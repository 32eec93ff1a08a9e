//! What is kept of a job: the card as it was read from the page, and the
//! state of the application.

use vstd::prelude::*;
use vstd::string::*;

use crate::text::{after, before, lowercased, replaced, trimmed};

verus! {

#[derive(Debug, Clone, PartialEq, Eq)]
pub struct JobCardData {
    pub idx: usize,
    pub card_title: String,
    pub job_title: String,
    pub company_name: String,
    pub location: Location,
    pub work_type: WorkType,
    pub is_actively_reviewing: bool,
    pub already_viewed: bool,
    pub posted_date: DateInfo,
    pub has_easy_apply: bool,
}

pub struct JobCardDataView {
    pub idx: usize,
    pub card_title: Seq<char>,
    pub job_title: Seq<char>,
    pub company_name: Seq<char>,
    pub location: LocationView,
    pub work_type: WorkType,
    pub is_actively_reviewing: bool,
    pub already_viewed: bool,
    pub posted_date: DateInfoView,
    pub has_easy_apply: bool,
}

impl View for JobCardData {
    type V = JobCardDataView;

    open spec fn view(&self) -> JobCardDataView {
        JobCardDataView {
            idx: self.idx,
            card_title: self.card_title@,
            job_title: self.job_title@,
            company_name: self.company_name@,
            location: self.location@,
            work_type: self.work_type,
            is_actively_reviewing: self.is_actively_reviewing,
            already_viewed: self.already_viewed,
            posted_date: self.posted_date@,
            has_easy_apply: self.has_easy_apply,
        }
    }
}

#[derive(Debug, Clone, PartialEq, Eq)]
pub struct Location {
    pub state: String,
    pub country: String,
}

pub struct LocationView {
    pub state: Seq<char>,
    pub country: Seq<char>,
}

impl View for Location {
    type V = LocationView;

    open spec fn view(&self) -> LocationView {
        LocationView { state: self.state@, country: self.country@ }
    }
}

impl LocationView {
    /// The location that `text` names: the state is what stands before
    /// the first comma, the country what stands between the first comma
    /// and the second, each without the white space around it. A text
    /// without a comma names no country.
    pub open spec fn named(text: Seq<char>) -> LocationView {
        LocationView {
            state: trimmed(before(text, ',')),
            country: if text.contains(',') {
                trimmed(before(after(text, ','), ','))
            } else {
                Seq::empty()
            },
        }
    }

    /// The location, written as state, comma, blank, country.
    pub open spec fn text(self) -> Seq<char> {
        self.state + ", "@ + self.country
    }
}

impl Location {
    /// The location made of the two parts of a text, each without the
    /// white space around it; `country` is `None` where the text had no
    /// second part.
    pub fn from_parts(state: &str, country: Option<&str>) -> (location: Location)
        ensures
            location@ == (LocationView {
                state: trimmed(state@),
                country: match country {
                    Some(country) => trimmed(country@),
                    None => Seq::empty(),
                },
            }),
    {
        Location {
            state: String::from_str(crate::text::trim(state)),
            country: match country {
                Some(country) => String::from_str(crate::text::trim(country)),
                None => String::new(),
            },
        }
    }

    /// The location that `text` names.
    pub fn from_text(text: &str) -> (location: Location)
        ensures
            location@ == LocationView::named(text@),
    {
        let (state, rest) = crate::text::split_once(text, ',');
        match rest {
            Some(rest) => {
                let (country, _) = crate::text::split_once(rest, ',');
                Location::from_parts(state, Some(country))
            },
            None => Location::from_parts(state, None),
        }
    }

    /// The location, written as state, comma, blank, country.
    pub fn to_string(&self) -> (text: String)
        ensures
            text@ == self@.text(),
    {
        let mut text = self.state.clone();
        text.append(", ");
        text.append(self.country.as_str());
        text
    }
}

#[derive(Debug, Clone, Copy, PartialEq, Eq, Structural)]
pub enum WorkType {
    OnSite,
    Remote,
    Hybrid,
}

impl WorkType {
    /// The word a work type is written with.
    pub open spec fn word(self) -> Seq<char> {
        match self {
            WorkType::OnSite => "on-site"@,
            WorkType::Remote => "remote"@,
            WorkType::Hybrid => "hybrid"@,
        }
    }

    /// The work type that the lowercase word `lower` stands for.
    pub open spec fn named(lower: Seq<char>) -> Option<WorkType> {
        if lower == "on-site"@ {
            Some(WorkType::OnSite)
        } else if lower == "remote"@ {
            Some(WorkType::Remote)
        } else if lower == "hybrid"@ {
            Some(WorkType::Hybrid)
        } else {
            None
        }
    }

    /// The word this work type is written with.
    pub fn as_str(&self) -> (word: &'static str)
        ensures
            word@ == self.word(),
    {
        match self {
            WorkType::OnSite => "on-site",
            WorkType::Remote => "remote",
            WorkType::Hybrid => "hybrid",
        }
    }

    /// The work type that `lower` stands for, where `lower` is in
    /// lowercase already: `on-site`, `remote` or `hybrid`, and no other
    /// word.
    pub fn from_lowercase(lower: &str) -> (kind: Option<WorkType>)
        ensures
            kind == WorkType::named(lower@),
    {
        if crate::text::same_text(lower, "on-site") {
            Some(WorkType::OnSite)
        } else if crate::text::same_text(lower, "remote") {
            Some(WorkType::Remote)
        } else if crate::text::same_text(lower, "hybrid") {
            Some(WorkType::Hybrid)
        } else {
            None
        }
    }

    /// The work type that `word` stands for in any mix of upper and lower
    /// case, or `None` where it stands for none.
    pub fn parse(word: &str) -> (kind: Option<WorkType>)
        ensures
            kind == WorkType::named(lowercased(word@)),
    {
        let lower = crate::text::lowercase(word);
        WorkType::from_lowercase(lower.as_str())
    }
}

#[derive(Debug, Clone, PartialEq, Eq)]
pub struct DateInfo {
    pub full_date: String,
    pub relative: String,
}

pub struct DateInfoView {
    pub full_date: Seq<char>,
    pub relative: Seq<char>,
}

impl View for DateInfo {
    type V = DateInfoView;

    open spec fn view(&self) -> DateInfoView {
        DateInfoView { full_date: self.full_date@, relative: self.relative@ }
    }
}

/// The date of a job card: the full date without the words `Posted on`
/// that lead it in, and the relative date, each without the white space
/// around it.
pub fn parse_date(full: &str, relative: &str) -> (date: DateInfo)
    ensures
        date@ == (DateInfoView {
            full_date: trimmed(replaced(full@, "Posted on "@, ""@)),
            relative: trimmed(relative@),
        }),
{
    let bare = crate::text::replace(full, "Posted on ", "");
    DateInfo {
        full_date: String::from_str(crate::text::trim(bare.as_str())),
        relative: String::from_str(crate::text::trim(relative)),
    }
}

#[derive(Debug, Clone, Copy, PartialEq, Eq, Structural)]
pub enum StatusType {
    Pending,
    InProgress,
    Completed,
    Failed,
}

impl StatusType {
    /// The word a status is written with.
    pub open spec fn word(self) -> Seq<char> {
        match self {
            StatusType::Pending => "pending"@,
            StatusType::InProgress => "in_progress"@,
            StatusType::Completed => "completed"@,
            StatusType::Failed => "failed"@,
        }
    }

    /// The status that the lowercase word `lower` stands for.
    pub open spec fn named(lower: Seq<char>) -> Option<StatusType> {
        if lower == "pending"@ {
            Some(StatusType::Pending)
        } else if lower == "in_progress"@ {
            Some(StatusType::InProgress)
        } else if lower == "completed"@ {
            Some(StatusType::Completed)
        } else if lower == "failed"@ {
            Some(StatusType::Failed)
        } else {
            None
        }
    }

    /// The word this status is written with.
    pub fn as_str(&self) -> (word: &'static str)
        ensures
            word@ == self.word(),
    {
        match self {
            StatusType::Pending => "pending",
            StatusType::InProgress => "in_progress",
            StatusType::Completed => "completed",
            StatusType::Failed => "failed",
        }
    }

    /// The status that `lower` stands for, where `lower` is in lowercase
    /// already: `pending`, `in_progress`, `completed` or `failed`, and no
    /// other word.
    pub fn from_lowercase(lower: &str) -> (status: Option<StatusType>)
        ensures
            status == StatusType::named(lower@),
    {
        if crate::text::same_text(lower, "pending") {
            Some(StatusType::Pending)
        } else if crate::text::same_text(lower, "in_progress") {
            Some(StatusType::InProgress)
        } else if crate::text::same_text(lower, "completed") {
            Some(StatusType::Completed)
        } else if crate::text::same_text(lower, "failed") {
            Some(StatusType::Failed)
        } else {
            None
        }
    }

    /// The status that `word` stands for in any mix of upper and lower
    /// case, or `None` where it stands for none.
    pub fn parse(word: &str) -> (status: Option<StatusType>)
        ensures
            status == StatusType::named(lowercased(word@)),
    {
        let lower = crate::text::lowercase(word);
        StatusType::from_lowercase(lower.as_str())
    }
}

/// The state of the application for the job with the row number `id`.
#[derive(Debug, Clone, Copy, PartialEq, Eq, Structural)]
pub struct Status {
    pub id: i64,
    pub status: StatusType,
}

} // verus!
