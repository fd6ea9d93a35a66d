//! The run over the pages of a search: which request comes next, and what
//! is printed for the page that came back.
//!
//! Nothing is sent or printed here. The caller sends each request, hands the
//! body back and prints what it gets for it.

use crate::http::{
    issues_request, issues_request_view, parse_response, parsed_response, views_of, IssueDto,
    IssueDtoView, Request, RequestView, ResponseParseError,
};
use crate::model::{issue_of_dto, issue_text, Issue, IssueView, TimestampParseError};
use crate::text::{decimal_digits, push_decimal};
use vstd::prelude::*;

verus! {

/// Why a run ends before its last page.
#[derive(Debug, Clone, Copy, PartialEq, Eq)]
pub enum RunError {
    /// The body of a page could not be read.
    Response(ResponseParseError),
    /// A date of an issue on the page is no timestamp.
    Timestamp(TimestampParseError),
}

/// The issues that are made of the records of one page, in their order; the
/// error of the first record that gives none.
pub open spec fn issues_of(dtos: Seq<IssueDtoView>) -> Result<Seq<IssueView>, TimestampParseError>
    decreases dtos.len(),
{
    if dtos.len() == 0 {
        Ok(Seq::empty())
    } else {
        match issues_of(dtos.drop_last()) {
            Err(e) => Err(e),
            Ok(issues) => match issue_of_dto(dtos.last()) {
                Err(e) => Err(e),
                Ok(issue) => Ok(issues.push(issue)),
            },
        }
    }
}

/// Where a page gives issues, it gives one for each record and in the order
/// of the records: the i-th issue is made of the i-th record.
pub proof fn lemma_one_issue_for_each_record(dtos: Seq<IssueDtoView>)
    ensures
        issues_of(dtos) matches Ok(issues) ==> ({
            &&& issues.len() == dtos.len()
            &&& forall|i: int|
                0 <= i < dtos.len() ==> (issue_of_dto(#[trigger] dtos[i]) matches Ok(issue)
                    && issue == issues[i])
        }),
    decreases dtos.len(),
{
    if dtos.len() > 0 {
        let front = dtos.drop_last();
        lemma_one_issue_for_each_record(front);
        if issues_of(dtos) is Ok {
            let issues = issues_of(dtos).unwrap();
            assert forall|i: int| 0 <= i < dtos.len() implies (issue_of_dto(
                #[trigger] dtos[i],
            ) matches Ok(issue) && issue == issues[i]) by {
                if i < front.len() {
                    assert(dtos[i] == front[i]);
                }
            }
        }
    }
}

/// The issues that the body of one page gives, or why it gives none.
pub open spec fn page_of(body: Seq<char>) -> Result<Seq<IssueView>, RunError> {
    match parsed_response(body) {
        Err(e) => Err(RunError::Response(e)),
        Ok(page) => match issues_of(page.items) {
            Err(e) => Err(RunError::Timestamp(e)),
            Ok(issues) => Ok(issues),
        },
    }
}

/// One issue as it is printed: its number, a space, its text, a line end.
pub open spec fn numbered_issue(issue: IssueView, number: nat) -> Seq<char> {
    decimal_digits(number) + seq![' '] + issue_text(issue) + seq!['\n']
}

/// The issues as they are printed, one after the other, numbered from
/// `first` upwards.
pub open spec fn numbered_text(issues: Seq<IssueView>, first: nat) -> Seq<char>
    decreases issues.len(),
{
    if issues.len() == 0 {
        Seq::empty()
    } else {
        numbered_text(issues.drop_last(), first) + numbered_issue(
            issues.last(),
            (first + issues.len() - 1) as nat,
        )
    }
}

/// The numbers go on over the end of a page: to print one page and then the
/// next, numbered from where the first ended, is to print the issues of both
/// in one row.
pub proof fn lemma_numbering_continues(a: Seq<IssueView>, b: Seq<IssueView>, first: nat)
    ensures
        numbered_text(a + b, first) == numbered_text(a, first) + numbered_text(
            b,
            first + a.len(),
        ),
    decreases b.len(),
{
    if b.len() == 0 {
    } else {
        assert((a + b).drop_last() == a + b.drop_last());
        lemma_numbering_continues(a, b.drop_last(), first);
    }
}

/// Makes the issues to show from the records of one page, in their order.
/// Fails with the error of the first record that gives none.
pub fn issues_from(items: Vec<IssueDto>) -> (r: Result<Vec<Issue>, TimestampParseError>)
    ensures
        issues_of(views_of(items@)) == match r {
            Ok(issues) => Ok(views_of(issues@)),
            Err(e) => Err(e),
        },
{
    let ghost dtos = views_of(items@);
    let mut issues: Vec<Issue> = Vec::new();
    assert(views_of(issues@) == Seq::<IssueView>::empty());
    for dto in it: items
        invariant
            views_of(it.seq()) == dtos,
            issues_of(dtos.take(it.index())) == Ok::<Seq<IssueView>, TimestampParseError>(
                views_of(issues@),
            ),
    {
        let ghost done = views_of(issues@);
        assert(dtos.take(it.index() + 1).drop_last() == dtos.take(it.index()));
        match Issue::from(dto) {
            Ok(issue) => {
                issues.push(issue);
                assert(views_of(issues@) == done.push(issue@));
            },
            Err(e) => {
                proof {
                    lemma_issues_of_fails(dtos, it.index() + 1);
                }
                return Err(e);
            },
        }
    }
    assert(dtos.take(dtos.len() as int) == dtos);
    Ok(issues)
}

/// Where the first `n` records give an error, all of them give that error.
proof fn lemma_issues_of_fails(dtos: Seq<IssueDtoView>, n: int)
    requires
        0 <= n <= dtos.len(),
        issues_of(dtos.take(n)) is Err,
    ensures
        issues_of(dtos) == issues_of(dtos.take(n)),
    decreases dtos.len() - n,
{
    if n == dtos.len() {
        assert(dtos.take(n) == dtos);
    } else {
        assert(dtos.take(n + 1).drop_last() == dtos.take(n));
        lemma_issues_of_fails(dtos, n + 1);
    }
}

/// The issues as they are printed, numbered from `first` upwards.
pub fn page_text(issues: &Vec<Issue>, first: u128) -> (text: String)
    requires
        first + issues.len() <= u128::MAX,
    ensures
        text@ == numbered_text(views_of(issues@), first as nat),
{
    let ghost shown = views_of(issues@);
    let mut text = String::new();
    let mut at: usize = 0;
    while at < issues.len()
        invariant
            at <= issues.len(),
            first + issues.len() <= u128::MAX,
            shown == views_of(issues@),
            text@ == numbered_text(shown.take(at as int), first as nat),
        decreases issues.len() - at,
    {
        assert(shown.take(at + 1).drop_last() == shown.take(at as int));
        push_decimal(&mut text, first + at as u128);
        text.push(' ');
        text.append(issues[at].to_string().as_str());
        text.push('\n');
        at += 1;
    }
    assert(shown.take(at as int) == shown);
    text
}

/// Where a run stands between its requests and its pages.
#[derive(Debug, Clone, Copy, PartialEq, Eq)]
pub enum Phase {
    /// No page is awaited: the next request can be asked for.
    Ready,
    /// A page was asked for and has not been handed in.
    Awaiting,
    /// A page could not be shown: the run is over.
    Failed,
}

/// A run over the pages of one search: one page after the other, each asked
/// for when the one before it has been handed in.
#[derive(Debug)]
pub struct Driver {
    token: String,
    language: String,
    label: String,
    pages: i32,
    asked: i32,
    phase: Phase,
    count: u128,
}

/// What a [`Driver`] holds.
pub struct DriverView {
    pub token: Seq<char>,
    pub language: Seq<char>,
    pub label: Seq<char>,
    /// How many pages the run is for.
    pub pages: int,
    /// How many pages have been asked for: the last request was for this page.
    pub asked: int,
    pub phase: Phase,
    /// The number of the next issue to print.
    pub count: nat,
}

/// The request that comes next in this state, where one does.
pub open spec fn request_after(run: DriverView) -> Option<RequestView> {
    if run.asked < run.pages {
        Some(issues_request_view(run.token, run.language, run.label, run.asked + 1))
    } else {
        None
    }
}

/// The state after the next request was asked for: the page is awaited,
/// where there was one to ask for.
pub open spec fn after_request(run: DriverView) -> DriverView {
    if run.asked < run.pages {
        DriverView { asked: run.asked + 1, phase: Phase::Awaiting, ..run }
    } else {
        run
    }
}

/// The state after the awaited page was handed in and gave `issues` issues.
pub open spec fn after_page(run: DriverView, issues: nat) -> DriverView {
    DriverView { phase: Phase::Ready, count: run.count + issues, ..run }
}

/// The state after the awaited page could not be shown.
pub open spec fn after_failure(run: DriverView) -> DriverView {
    DriverView { phase: Phase::Failed, ..run }
}

/// The count goes on over the end of a page: the page after a page of
/// `first` is numbered from where that page ended, so that after a page of a
/// hundred issues the next page starts with number 101 where the run started
/// with 1.
pub proof fn lemma_count_goes_on(run: DriverView, first: Seq<IssueView>, second: Seq<IssueView>)
    ensures
        after_page(run, first.len()).count == run.count + first.len(),
        numbered_text(first, run.count) + numbered_text(
            second,
            after_page(run, first.len()).count,
        ) == numbered_text(first + second, run.count),
{
    lemma_numbering_continues(first, second, run.count);
}

/// The requests that are still to come from this state on, in their order.
pub open spec fn requests_to_come(run: DriverView) -> Seq<RequestView>
    decreases run.pages - run.asked,
{
    if run.asked < run.pages {
        seq![request_after(run).unwrap()] + requests_to_come(after_request(run))
    } else {
        Seq::empty()
    }
}

/// A run asks for each of its pages once and in order, and for no other: from
/// its start the requests are those for the pages 1, 2 and so on up to the
/// number of pages, so that a run for two pages asks for page 1 and then for
/// page 2, and a run for no page asks for nothing.
pub proof fn lemma_every_page_asked_once(run: DriverView)
    ensures
        requests_to_come(run).len() == if run.asked < run.pages {
            run.pages - run.asked
        } else {
            0
        },
        forall|i: int|
            0 <= i < requests_to_come(run).len() ==> #[trigger] requests_to_come(run)[i]
                == issues_request_view(run.token, run.language, run.label, run.asked + 1 + i),
    decreases run.pages - run.asked,
{
    if run.asked < run.pages {
        lemma_every_page_asked_once(after_request(run));
    }
}

impl View for Driver {
    type V = DriverView;

    closed spec fn view(&self) -> DriverView {
        DriverView {
            token: self.token@,
            language: self.language@,
            label: self.label@,
            pages: self.pages as int,
            asked: self.asked as int,
            phase: self.phase,
            count: self.count as nat,
        }
    }
}

impl Driver {
    /// The count stays in reach of `u128`: each page that was handed in has
    /// added at most `usize::MAX` to it, and there are fewer pages than `asked`
    /// says.
    #[verifier::type_invariant]
    spec fn well_formed(self) -> bool {
        &&& 0 <= self.asked
        &&& 1 <= self.count
        &&& self.phase is Ready ==> self.count <= 1 + self.asked * 0xffff_ffff_ffff_ffff
        &&& !(self.phase is Ready) ==> 1 <= self.asked && self.count <= 1 + (self.asked - 1)
            * 0xffff_ffff_ffff_ffff
    }

    /// A run for `pages` pages, for one page where none is given. No page is
    /// asked for yet, and the first issue will be number 1.
    pub fn new(token: String, language: String, label: String, pages: Option<i32>) -> (run: Driver)
        ensures
            run@ == (DriverView {
                token: token@,
                language: language@,
                label: label@,
                pages: match pages {
                    Some(n) => n as int,
                    None => 1,
                },
                asked: 0,
                phase: Phase::Ready,
                count: 1,
            }),
    {
        let pages: i32 = match pages {
            Some(n) => n,
            None => 1,
        };
        Driver { token, language, label, pages, asked: 0, phase: Phase::Ready, count: 1 }
    }

    /// Where the run stands.
    pub fn phase(&self) -> (phase: Phase)
        ensures
            phase == self@.phase,
    {
        self.phase
    }

    /// The request for the next page, which is then awaited, or `None` when
    /// every page of the run has been asked for. The first request is for
    /// page 1, each later one for the page after the last.
    pub fn next_request(&mut self) -> (r: Option<Request>)
        requires
            old(self)@.phase is Ready,
        ensures
            final(self)@ == after_request(old(self)@),
            match r {
                Some(request) => request_after(old(self)@) == Some(request@),
                None => request_after(old(self)@) is None,
            },
    {
        proof {
            use_type_invariant(&*self);
        }
        if self.asked < self.pages {
            self.asked = self.asked + 1;
            self.phase = Phase::Awaiting;
            Some(
                issues_request(
                    self.token.as_str(),
                    self.language.as_str(),
                    self.label.as_str(),
                    self.asked,
                ),
            )
        } else {
            None
        }
    }

    /// Takes the body of the awaited page and gives the text to print for
    /// it: its issues in their order, numbered on from the page before. Where
    /// the body cannot be read or an issue of it cannot be made, nothing is
    /// to be printed for the page, and the run has failed.
    pub fn page_received(&mut self, body: String) -> (r: Result<String, RunError>)
        requires
            old(self)@.phase is Awaiting,
        ensures
            match r {
                Ok(text) => page_of(body@) matches Ok(issues) && text@ == numbered_text(
                    issues,
                    old(self)@.count,
                ) && final(self)@ == after_page(old(self)@, issues.len()),
                Err(e) => page_of(body@).err() == Some(e) && final(self)@ == after_failure(
                    old(self)@,
                ),
            },
    {
        proof {
            use_type_invariant(&*self);
        }
        let page = match parse_response(body) {
            Ok(page) => page,
            Err(e) => {
                self.phase = Phase::Failed;
                return Err(RunError::Response(e));
            },
        };
        let issues = match issues_from(page.items) {
            Ok(issues) => issues,
            Err(e) => {
                self.phase = Phase::Failed;
                return Err(RunError::Timestamp(e));
            },
        };
        let text = page_text(&issues, self.count);
        self.phase = Phase::Ready;
        self.count = self.count + issues.len() as u128;
        Ok(text)
    }
}

} // verus!
