//! Issues as they are shown, and how one is made from the record of the wire
//! format.

use crate::http::{views_of, IssueDto, IssueDtoView};
use crate::text::{lemma_without_absent, occurs, remove_all, without};
use crate::timestamp::{text_of_timestamp, timestamp_of_text, Timestamp};
use vstd::prelude::*;

verus! {

/// The tags of an issue, in the order of its labels.
#[derive(Debug, PartialEq, Eq)]
pub struct Tags(pub Vec<String>);

impl View for Tags {
    type V = Seq<Seq<char>>;

    open spec fn view(&self) -> Seq<Seq<char>> {
        views_of(self.0@)
    }
}

/// An issue as it is shown.
#[derive(Debug, PartialEq, Eq)]
pub struct Issue {
    description: String,
    tags: Tags,
    url: String,
    create_date_time: Timestamp,
    update_date_time: Timestamp,
}

/// What an [`Issue`] holds.
pub struct IssueView {
    pub description: Seq<char>,
    pub tags: Seq<Seq<char>>,
    pub url: Seq<char>,
    pub create_date_time: Timestamp,
    pub update_date_time: Timestamp,
}

impl View for Issue {
    type V = IssueView;

    closed spec fn view(&self) -> IssueView {
        IssueView {
            description: self.description@,
            tags: self.tags@,
            url: self.url@,
            create_date_time: self.create_date_time,
            update_date_time: self.update_date_time,
        }
    }
}

/// Which of the two dates of a record is no timestamp.
#[derive(Debug, Clone, Copy, PartialEq, Eq)]
pub enum TimestampParseError {
    CreatedAt,
    UpdatedAt,
}

/// The address of an issue for a reader: that of the API with every `api.`
/// taken out, and then every `/repos`, wherever they stand in it.
pub open spec fn rewrite_url(url: Seq<char>) -> Seq<char> {
    without(without(url, "api."@), "/repos"@)
}

/// The tags as text: each in square brackets on a line of its own, nothing
/// for no tags.
pub open spec fn tags_text(tags: Seq<Seq<char>>) -> Seq<char>
    decreases tags.len(),
{
    if tags.len() == 0 {
        Seq::empty()
    } else {
        tags_text(tags.drop_last()) + seq!['['] + tags.last() + seq![']', '\n']
    }
}

/// The five lines of an issue, with the two instants as the texts `created`
/// and `updated`, and after `Tags: ` the tags.
pub open spec fn issue_layout(
    description: Seq<char>,
    created: Seq<char>,
    updated: Seq<char>,
    url: Seq<char>,
    tags: Seq<Seq<char>>,
) -> Seq<char> {
    "Description: "@ + description + "\ncreated: "@ + created + "\nLast updated: "@ + updated
        + "\nURL: "@ + url + "\nTags: "@ + tags_text(tags)
}

/// An issue as text: its five lines, each instant as `chrono` prints it.
pub open spec fn issue_text(issue: IssueView) -> Seq<char> {
    issue_layout(
        issue.description,
        text_of_timestamp(issue.create_date_time),
        text_of_timestamp(issue.update_date_time),
        issue.url,
        issue.tags,
    )
}

/// The issue that is made of a record and the two instants of its dates: the
/// title as description, the names of the labels as tags in their order, the
/// address rewritten.
pub open spec fn issue_with(
    dto: IssueDtoView,
    created: Timestamp,
    updated: Timestamp,
) -> IssueView {
    IssueView {
        description: dto.title,
        tags: dto.labels,
        url: rewrite_url(dto.url),
        create_date_time: created,
        update_date_time: updated,
    }
}

/// The issue that is made of a record, its two dates read as instants. Fails
/// on the first of the two dates that is no timestamp.
pub open spec fn issue_of_dto(dto: IssueDtoView) -> Result<IssueView, TimestampParseError> {
    match timestamp_of_text(dto.created_at) {
        None => Err(TimestampParseError::CreatedAt),
        Some(created) => match timestamp_of_text(dto.updated_at) {
            None => Err(TimestampParseError::UpdatedAt),
            Some(updated) => Ok(issue_with(dto, created, updated)),
        },
    }
}

/// The tags of an issue are the names of the record's labels, as many and in
/// the same order, whatever its dates are.
pub proof fn lemma_tags_keep_label_order(dto: IssueDtoView, created: Timestamp, updated: Timestamp)
    ensures
        issue_with(dto, created, updated).tags.len() == dto.labels.len(),
        forall|i: int|
            0 <= i < dto.labels.len() ==> issue_with(dto, created, updated).tags[i]
                == dto.labels[i],
        issue_of_dto(dto) matches Ok(issue) ==> issue.tags == dto.labels,
{
}

/// An address that holds neither `api.` nor `/repos` is left as it is.
pub proof fn lemma_plain_url_unchanged(url: Seq<char>)
    requires
        !occurs(url, "api."@),
        !occurs(url, "/repos"@),
    ensures
        rewrite_url(url) == url,
{
    lemma_without_absent(url, "api."@);
    lemma_without_absent(url, "/repos"@);
}

/// Once a rewritten address holds neither `api.` nor `/repos`, to rewrite it
/// again changes nothing.
pub proof fn lemma_rewrite_url_settles(url: Seq<char>)
    requires
        !occurs(rewrite_url(url), "api."@),
        !occurs(rewrite_url(url), "/repos"@),
    ensures
        rewrite_url(rewrite_url(url)) == rewrite_url(url),
{
    lemma_plain_url_unchanged(rewrite_url(url));
}

/// A record without labels gives an issue whose tags are the empty text:
/// the text of the issue ends with `Tags: `, and no bracket follows.
pub proof fn lemma_no_labels_no_tag_text(dto: IssueDtoView, created: Timestamp, updated: Timestamp)
    requires
        dto.labels.len() == 0,
    ensures
        tags_text(issue_with(dto, created, updated).tags) == Seq::<char>::empty(),
        issue_text(issue_with(dto, created, updated)) == "Description: "@ + dto.title
            + "\ncreated: "@ + text_of_timestamp(created) + "\nLast updated: "@
            + text_of_timestamp(updated) + "\nURL: "@ + rewrite_url(dto.url) + "\nTags: "@,
{
}

impl Tags {
    /// The tags as text: each in square brackets on a line of its own.
    pub fn to_string(&self) -> (text: String)
        ensures
            text@ == tags_text(self@),
    {
        let mut text = String::new();
        let mut at: usize = 0;
        while at < self.0.len()
            invariant
                at <= self.0.len(),
                text@ == tags_text(self@.take(at as int)),
            decreases self.0.len() - at,
        {
            assert(self@.take(at + 1).drop_last() == self@.take(at as int));
            text.push('[');
            text.append(self.0[at].as_str());
            text.push(']');
            text.push('\n');
            at += 1;
        }
        assert(self@.take(at as int) == self@);
        text
    }
}

impl Issue {
    /// Makes the issue to show from a record of the wire format and the two
    /// instants that were read from its dates.
    pub fn new(
        value: IssueDto,
        create_date_time: Timestamp,
        update_date_time: Timestamp,
    ) -> (issue: Issue)
        ensures
            issue@ == issue_with(value@, create_date_time, update_date_time),
    {
        let hostless = remove_all(value.url.as_str(), "api.");
        let url = remove_all(hostless.as_str(), "/repos");
        let ghost labels = value.labels@;
        let mut names: Vec<String> = Vec::new();
        for label in it: value.labels
            invariant
                it.seq() == labels,
                names.len() == it.index(),
                forall|i: int| 0 <= i < it.index() ==> (#[trigger] names@[i])@ == labels[i]@,
        {
            names.push(label.name);
        }
        let issue = Issue {
            description: value.title,
            tags: Tags(names),
            url,
            create_date_time,
            update_date_time,
        };
        assert(issue@.tags =~= value@.labels);
        issue
    }

    /// Makes the issue to show from a record of the wire format. Fails where
    /// one of its two dates is no timestamp, on the creation date first.
    pub fn from(value: IssueDto) -> (r: Result<Issue, TimestampParseError>)
        ensures
            issue_of_dto(value@) == match r {
                Ok(issue) => Ok(issue@),
                Err(e) => Err(e),
            },
    {
        let create_date_time = match Timestamp::parse(value.created_at.as_str()) {
            Some(at) => at,
            None => {
                return Err(TimestampParseError::CreatedAt);
            },
        };
        let update_date_time = match Timestamp::parse(value.updated_at.as_str()) {
            Some(at) => at,
            None => {
                return Err(TimestampParseError::UpdatedAt);
            },
        };
        Ok(Issue::new(value, create_date_time, update_date_time))
    }

    /// The five lines of the issue, with `created` and `updated` as the
    /// texts of its two instants.
    pub fn text_with(&self, created: &str, updated: &str) -> (text: String)
        ensures
            text@ == issue_layout(
                self@.description,
                created@,
                updated@,
                self@.url,
                self@.tags,
            ),
    {
        let mut text = String::from_str("Description: ");
        text.append(self.description.as_str());
        text.append("\ncreated: ");
        text.append(created);
        text.append("\nLast updated: ");
        text.append(updated);
        text.append("\nURL: ");
        text.append(self.url.as_str());
        text.append("\nTags: ");
        text.append(self.tags.to_string().as_str());
        text
    }

    /// The issue as text: description, the two instants, address and tags.
    pub fn to_string(&self) -> (text: String)
        ensures
            text@ == issue_text(self@),
    {
        let created = self.create_date_time.to_string();
        let updated = self.update_date_time.to_string();
        self.text_with(created.as_str(), updated.as_str())
    }

    pub fn description(&self) -> (s: &str)
        ensures
            s@ == self@.description,
    {
        self.description.as_str()
    }

    pub fn tags(&self) -> (tags: &Tags)
        ensures
            tags@ == self@.tags,
    {
        &self.tags
    }

    pub fn url(&self) -> (s: &str)
        ensures
            s@ == self@.url,
    {
        self.url.as_str()
    }

    pub fn create_date_time(&self) -> (at: Timestamp)
        ensures
            at == self@.create_date_time,
    {
        self.create_date_time
    }

    pub fn update_date_time(&self) -> (at: Timestamp)
        ensures
            at == self@.update_date_time,
    {
        self.update_date_time
    }
}

} // verus!
