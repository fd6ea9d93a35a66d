//! The search request and the response of the issue search API.
//!
//! A request is built here and sent elsewhere; the body that comes back is
//! read here into the records of the wire format.

use crate::json::{json_document, json_from_text, Json};
use crate::text::{decimal_text, push_integer};
use vstd::prelude::*;

verus! {

/// Where the search is asked; the query follows.
pub const API_PATH: &'static str = "https://api.github.com/search/issues?q=";

/// One page of search results, as the API sends it.
#[derive(Debug, PartialEq, Eq)]
pub struct GitHubIssueResponse {
    pub total_count: i32,
    pub items: Vec<IssueDto>,
}

/// One issue, as the API sends it.
#[derive(Debug, PartialEq, Eq)]
pub struct IssueDto {
    pub url: String,
    pub title: String,
    pub state: String,
    pub created_at: String,
    pub updated_at: String,
    pub labels: Vec<IssueLabel>,
}

/// One label of an issue, as the API sends it.
#[derive(Debug, PartialEq, Eq)]
pub struct IssueLabel {
    pub name: String,
}

/// What an [`IssueDto`] holds: each string by its characters, each label by
/// its name.
pub struct IssueDtoView {
    pub url: Seq<char>,
    pub title: Seq<char>,
    pub state: Seq<char>,
    pub created_at: Seq<char>,
    pub updated_at: Seq<char>,
    pub labels: Seq<Seq<char>>,
}

/// What a [`GitHubIssueResponse`] holds.
pub struct GitHubIssueResponseView {
    pub total_count: int,
    pub items: Seq<IssueDtoView>,
}

/// Each of `items` by its view, in their order.
pub open spec fn views_of<T: View>(items: Seq<T>) -> Seq<T::V> {
    Seq::new(items.len(), |i: int| items[i]@)
}

impl View for IssueLabel {
    type V = Seq<char>;

    open spec fn view(&self) -> Seq<char> {
        self.name@
    }
}

impl View for IssueDto {
    type V = IssueDtoView;

    open spec fn view(&self) -> IssueDtoView {
        IssueDtoView {
            url: self.url@,
            title: self.title@,
            state: self.state@,
            created_at: self.created_at@,
            updated_at: self.updated_at@,
            labels: views_of(self.labels@),
        }
    }
}

impl View for GitHubIssueResponse {
    type V = GitHubIssueResponseView;

    open spec fn view(&self) -> GitHubIssueResponseView {
        GitHubIssueResponseView {
            total_count: self.total_count as int,
            items: views_of(self.items@),
        }
    }
}

/// Why a body could not be read as a page of search results.
#[derive(Debug, Clone, Copy, PartialEq, Eq)]
pub enum ResponseParseError {
    /// The text is no JSON document.
    Syntax,
    /// The document is JSON, but a field that is read is missing or holds a
    /// value of another type.
    Shape,
}

/// A GET request: where to send it, and the headers to set, in order.
#[derive(Debug, PartialEq, Eq)]
pub struct Request {
    pub url: String,
    pub headers: Vec<(String, String)>,
}

/// What a [`Request`] holds.
pub struct RequestView {
    pub url: Seq<char>,
    pub headers: Seq<(Seq<char>, Seq<char>)>,
}

impl View for Request {
    type V = RequestView;

    open spec fn view(&self) -> RequestView {
        RequestView {
            url: self.url@,
            headers: Seq::new(
                self.headers@.len(),
                |i: int| (self.headers@[i].0@, self.headers@[i].1@),
            ),
        }
    }
}

/// The address that asks for page `page` of the open issues with that label
/// in that language, oldest first, a hundred to the page. Label and language
/// stand in it as they are given.
pub open spec fn search_url_text(label: Seq<char>, lang: Seq<char>, page: int) -> Seq<char> {
    API_PATH@ + "label:"@ + label + "+language:"@ + lang
        + "+state:open&sort=created&order=asc&per_page=100&page="@ + decimal_text(page)
}

/// The request for page `page`: the search address and the three headers.
pub open spec fn issues_request_view(
    token: Seq<char>,
    lang: Seq<char>,
    label: Seq<char>,
    page: int,
) -> RequestView {
    RequestView {
        url: search_url_text(label, lang, page),
        headers: seq![
            ("Accept"@, "application/vnd.github+json"@),
            ("Authorization"@, "Bearer "@ + token),
            ("X-GitHub-Api-Version"@, "2022-11-28"@),
        ],
    }
}

/// The string member of an object under `key`.
pub open spec fn text_member(json: Json, key: Seq<char>) -> Option<Seq<char>> {
    match json.member(key) {
        Some(member) => member.text(),
        None => None,
    }
}

/// The array member of an object under `key`.
pub open spec fn list_member(json: Json, key: Seq<char>) -> Option<Seq<Json>> {
    match json.member(key) {
        Some(member) => member.elements(),
        None => None,
    }
}

/// Whether `json` has the shape of a label: an object with a string `name`.
pub open spec fn is_label(json: Json) -> bool {
    text_member(json, "name"@) is Some
}

/// The label that `json` holds, where it has the shape of one.
pub open spec fn label_of(json: Json) -> Seq<char>
    recommends
        is_label(json),
{
    text_member(json, "name"@).unwrap()
}

/// Whether `json` has the shape of an issue: an object with the five string
/// fields and an array `labels` of labels.
pub open spec fn is_issue(json: Json) -> bool {
    &&& text_member(json, "url"@) is Some
    &&& text_member(json, "title"@) is Some
    &&& text_member(json, "state"@) is Some
    &&& text_member(json, "created_at"@) is Some
    &&& text_member(json, "updated_at"@) is Some
    &&& list_member(json, "labels"@) matches Some(labels)
    &&& forall|i: int| 0 <= i < labels.len() ==> is_label(#[trigger] labels[i])
}

/// The issue that `json` holds, where it has the shape of one: the labels
/// are those of the array, in its order.
pub open spec fn issue_of(json: Json) -> IssueDtoView
    recommends
        is_issue(json),
{
    let labels = list_member(json, "labels"@).unwrap();
    IssueDtoView {
        url: text_member(json, "url"@).unwrap(),
        title: text_member(json, "title"@).unwrap(),
        state: text_member(json, "state"@).unwrap(),
        created_at: text_member(json, "created_at"@).unwrap(),
        updated_at: text_member(json, "updated_at"@).unwrap(),
        labels: Seq::new(labels.len(), |i: int| label_of(labels[i])),
    }
}

/// The integer member `total_count` of an object, where it fits `i32`.
pub open spec fn total_count_of(json: Json) -> Option<int> {
    match json.member("total_count"@) {
        Some(member) => match member.integer() {
            Some(n) => if i32::MIN <= n <= i32::MAX {
                Some(n as int)
            } else {
                None
            },
            None => None,
        },
        None => None,
    }
}

/// Whether `json` has the shape of a page of results: an object with an
/// integer `total_count` that fits `i32` and an array `items` of issues.
pub open spec fn is_response(json: Json) -> bool {
    &&& total_count_of(json) is Some
    &&& list_member(json, "items"@) matches Some(items)
    &&& forall|i: int| 0 <= i < items.len() ==> is_issue(#[trigger] items[i])
}

/// The page of results that `json` holds, where it has the shape of one: the
/// issues are those of the array `items`, in its order.
pub open spec fn response_of(json: Json) -> GitHubIssueResponseView
    recommends
        is_response(json),
{
    let items = list_member(json, "items"@).unwrap();
    GitHubIssueResponseView {
        total_count: total_count_of(json).unwrap(),
        items: Seq::new(items.len(), |i: int| issue_of(items[i])),
    }
}

/// What reading `text` as a page of results gives.
pub open spec fn parsed_response(text: Seq<char>) -> Result<
    GitHubIssueResponseView,
    ResponseParseError,
> {
    match json_document(text) {
        None => Err(ResponseParseError::Syntax),
        Some(json) => if is_response(json) {
            Ok(response_of(json))
        } else {
            Err(ResponseParseError::Shape)
        },
    }
}

/// A document with the shape of a page gives every element of `items` as
/// one issue: as many issues as the array has elements, the i-th from the
/// i-th. So does every body that holds the document.
pub proof fn lemma_every_item_once_in_order(json: Json)
    requires
        is_response(json),
    ensures
        ({
            let items = list_member(json, "items"@).unwrap();
            let page = response_of(json);
            &&& page.items.len() == items.len()
            &&& forall|i: int| 0 <= i < items.len() ==> page.items[i] == issue_of(items[i])
        }),
        forall|text: Seq<char>|
            json_document(text) == Some(json) ==> (#[trigger] parsed_response(text) matches Ok(page)
                && page == response_of(json)),
{
}

/// A body is read as a page only where it is a JSON document with the whole
/// shape of one. Text that is no JSON fails, and so does a document without
/// the array `items`: no empty page stands in for it.
pub proof fn lemma_malformed_body_fails(text: Seq<char>)
    ensures
        parsed_response(text) is Ok <==> (json_document(text) matches Some(json) && is_response(
            json,
        )),
        json_document(text) is None ==> parsed_response(text).err() == Some(
            ResponseParseError::Syntax,
        ),
        json_document(text) matches Some(json) && list_member(json, "items"@) is None
            ==> parsed_response(text).err() == Some(ResponseParseError::Shape),
{
}

/// The address of the search for that label and language, page `page`.
pub fn search_url(label: &str, lang: &str, page: i32) -> (url: String)
    ensures
        url@ == search_url_text(label@, lang@, page as int),
{
    let mut url = String::from_str(API_PATH);
    url.append("label:");
    url.append(label);
    url.append("+language:");
    url.append(lang);
    url.append("+state:open&sort=created&order=asc&per_page=100&page=");
    push_integer(&mut url, page);
    url
}

/// The request that asks for page `page` of the search, with the token as
/// bearer.
pub fn issues_request(token: &str, lang: &str, label: &str, page: i32) -> (request: Request)
    ensures
        request@ == issues_request_view(token@, lang@, label@, page as int),
{
    let mut bearer = String::from_str("Bearer ");
    bearer.append(token);
    let mut headers: Vec<(String, String)> = Vec::new();
    headers.push((String::from_str("Accept"), String::from_str("application/vnd.github+json")));
    headers.push((String::from_str("Authorization"), bearer));
    headers.push((String::from_str("X-GitHub-Api-Version"), String::from_str("2022-11-28")));
    let request = Request { url: search_url(label, lang, page), headers };
    assert(request@.headers =~= issues_request_view(token@, lang@, label@, page as int).headers);
    request
}

/// The string that the object `json` holds under `key`.
fn text_field(json: &Json, key: &str) -> (found: Option<String>)
    ensures
        match found {
            Some(s) => text_member(*json, key@) == Some(s@),
            None => text_member(*json, key@) is None,
        },
{
    match json.get(key) {
        Some(member) => match member.as_str() {
            Some(s) => Some(s.to_owned()),
            None => None,
        },
        None => None,
    }
}

/// The array that the object `json` holds under `key`.
fn list_field<'a>(json: &'a Json, key: &str) -> (found: Option<&'a Vec<Json>>)
    ensures
        match found {
            Some(items) => list_member(*json, key@) == Some(items@),
            None => list_member(*json, key@) is None,
        },
{
    match json.get(key) {
        Some(member) => member.as_array(),
        None => None,
    }
}

/// Reads one label; `None` where `json` has not the shape of one.
pub fn label_from_json(json: &Json) -> (found: Option<IssueLabel>)
    ensures
        found is Some <==> is_label(*json),
        found matches Some(label) ==> label@ == label_of(*json),
{
    match text_field(json, "name") {
        Some(name) => Some(IssueLabel { name }),
        None => None,
    }
}

/// Reads one issue; `None` where `json` has not the shape of one.
pub fn issue_from_json(json: &Json) -> (found: Option<IssueDto>)
    ensures
        found is Some <==> is_issue(*json),
        found matches Some(issue) ==> issue@ == issue_of(*json),
{
    let url = text_field(json, "url");
    let title = text_field(json, "title");
    let state = text_field(json, "state");
    let created_at = text_field(json, "created_at");
    let updated_at = text_field(json, "updated_at");
    let listed = list_field(json, "labels");
    match (url, title, state, created_at, updated_at, listed) {
        (Some(url), Some(title), Some(state), Some(created_at), Some(updated_at), Some(listed)) => {
            let mut labels: Vec<IssueLabel> = Vec::new();
            let mut at: usize = 0;
            while at < listed.len()
                invariant
                    at <= listed.len(),
                    labels.len() == at,
                    list_member(*json, "labels"@) == Some(listed@),
                    forall|i: int| 0 <= i < at ==> is_label(#[trigger] listed@[i]),
                    forall|i: int| 0 <= i < at ==> (#[trigger] labels@[i])@ == label_of(listed@[i]),
                decreases listed.len() - at,
            {
                match label_from_json(&listed[at]) {
                    Some(label) => labels.push(label),
                    None => {
                        assert(list_member(*json, "labels"@) matches Some(labels) && !is_label(
                            labels[at as int],
                        ));
                        return None;
                    },
                }
                at += 1;
            }
            let issue = IssueDto { url, title, state, created_at, updated_at, labels };
            assert(issue@.labels =~= issue_of(*json).labels);
            Some(issue)
        },
        _ => None,
    }
}

/// Reads a page of results from a document: every element of `items`
/// becomes one issue, in the order of the array. Fails where the document
/// has not the shape of a page.
pub fn response_from_json(json: &Json) -> (r: Result<GitHubIssueResponse, ResponseParseError>)
    ensures
        match r {
            Ok(response) => is_response(*json) && response@ == response_of(*json),
            Err(e) => !is_response(*json) && e == ResponseParseError::Shape,
        },
{
    let total_count: i32 = match json.get("total_count") {
        Some(member) => match member.as_i64() {
            Some(n) => if i32::MIN as i64 <= n && n <= i32::MAX as i64 {
                n as i32
            } else {
                return Err(ResponseParseError::Shape);
            },
            None => {
                return Err(ResponseParseError::Shape);
            },
        },
        None => {
            return Err(ResponseParseError::Shape);
        },
    };
    let listed = match list_field(json, "items") {
        Some(listed) => listed,
        None => {
            return Err(ResponseParseError::Shape);
        },
    };
    let mut items: Vec<IssueDto> = Vec::new();
    let mut at: usize = 0;
    while at < listed.len()
        invariant
            at <= listed.len(),
            items.len() == at,
            list_member(*json, "items"@) == Some(listed@),
            forall|i: int| 0 <= i < at ==> is_issue(#[trigger] listed@[i]),
            forall|i: int| 0 <= i < at ==> (#[trigger] items@[i])@ == issue_of(listed@[i]),
        decreases listed.len() - at,
    {
        match issue_from_json(&listed[at]) {
            Some(issue) => items.push(issue),
            None => {
                assert(list_member(*json, "items"@) matches Some(items) && !is_issue(
                    items[at as int],
                ));
                return Err(ResponseParseError::Shape);
            },
        }
        at += 1;
    }
    let response = GitHubIssueResponse { total_count, items };
    assert(response@.items =~= response_of(*json).items);
    Ok(response)
}

/// Reads the body of a response as a page of results. Either the whole page
/// is read or the call fails: with `Syntax` where the text is no JSON, with
/// `Shape` where a field that is read is missing or of another type. Fields
/// that are not read are passed over.
pub fn parse_response(response: String) -> (r: Result<GitHubIssueResponse, ResponseParseError>)
    ensures
        parsed_response(response@) == match r {
            Ok(page) => Ok(page@),
            Err(e) => Err(e),
        },
{
    match json_from_text(response.as_str()) {
        Some(json) => response_from_json(&json),
        None => Err(ResponseParseError::Syntax),
    }
}

} // verus!
