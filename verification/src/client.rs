//! The decisions of the VTN client: which query a listing sends, how listings
//! are paged through, when a token is renewed, and which objects a program
//! or event may create.

use vstd::prelude::*;

use crate::event::{Event, EventContent};
use crate::identifier::{decimal_text, push_decimal};
use crate::ids::ProgramId;
use crate::priority::Priority;
use crate::report::ReportContent;
use crate::wire_enums::{target_label_text, EventObjectType, ReportObjectType, TargetLabel};

verus! {

/// What can go wrong in the client's own logic.
#[derive(Debug, Clone, Copy, PartialEq, Eq, Structural)]
pub enum ClientError {
    /// No object matched.
    ObjectNotFound,
    /// More than one object matched where one was expected.
    DuplicateObject,
    /// The object to create belongs to another program or event.
    InvalidParentObject,
    /// Some interval of the events has no period.
    InvalidInterval,
    /// The token endpoint handed out a token that is not a bearer token.
    OAuthTokenNotBearer,
}

/// Which page of a listing to request.
#[derive(Debug, Clone, Copy, PartialEq, Eq, Structural)]
pub struct PaginationOptions {
    pub skip: usize,
    pub limit: usize,
}

/// A filter of a listing: none (everything), or by a target type and its values.
#[derive(Debug)]
pub enum Filter {
    All,
    By(TargetLabel, Vec<String>),
}

/// A query parameter as texts.
pub open spec fn pair(name: Seq<char>, value: Seq<char>) -> (Seq<char>, Seq<char>) {
    (name, value)
}

/// The query parameters of a listing: the target type and each target value,
/// the program, then `skip` and `limit`.
pub open spec fn query_spec(
    program_id: Option<Seq<char>>,
    filter_type: Option<(nat, Seq<char>)>,
    filter_values: Seq<Seq<char>>,
    skip: usize,
    limit: usize,
) -> Seq<(Seq<char>, Seq<char>)> {
    let targets = match filter_type {
        None => Seq::empty(),
        Some(t) => seq![pair("targetType"@, target_label_text(t))] + filter_values.map_values(
            |v: Seq<char>| pair("targetValues"@, v),
        ),
    };
    let program = match program_id {
        None => Seq::empty(),
        Some(p) => seq![pair("programID"@, p)],
    };
    targets + program + seq![
        pair("skip"@, decimal_text(skip as nat)),
        pair("limit"@, decimal_text(limit as nat)),
    ]
}

/// The views of a list of query parameters.
pub open spec fn pairs_view(q: Seq<(String, String)>) -> Seq<(Seq<char>, Seq<char>)> {
    q.map_values(|p: (String, String)| (p.0@, p.1@))
}

/// The views of a list of texts.
pub open spec fn texts_view(v: Seq<String>) -> Seq<Seq<char>> {
    v.map_values(|s: String| s@)
}

fn decimal(n: usize) -> (r: String)
    ensures
        r@ == decimal_text(n as nat),
{
    let mut s = String::new();
    push_decimal(&mut s, n);
    assert(s@ =~= decimal_text(n as nat));
    s
}

/// The query parameters of a listing of events (of a program, if given) or,
/// without program, of programs.
pub fn query_pairs(program_id: Option<&ProgramId>, filter: &Filter, pagination: &PaginationOptions) -> (r: Vec<(String, String)>)
    ensures
        pairs_view(r@) == query_spec(
            match program_id {
                None => None,
                Some(p) => Some(p@),
            },
            match filter {
                Filter::All => None,
                Filter::By(t, _) => Some(t@),
            },
            match filter {
                Filter::All => Seq::empty(),
                Filter::By(_, values) => texts_view(values@),
            },
            pagination.skip,
            pagination.limit,
        ),
{
    let mut query: Vec<(String, String)> = Vec::new();
    let ghost targets: Seq<(Seq<char>, Seq<char>)> = Seq::empty();
    if let Filter::By(label, values) = filter {
        query.push((String::from_str("targetType"), label.as_str().to_owned()));
        let mut i: usize = 0;
        while i < values.len()
            invariant
                i <= values@.len(),
                pairs_view(query@) == seq![pair("targetType"@, target_label_text(label@))] + texts_view(values@).subrange(0, i as int).map_values(
                    |v: Seq<char>| pair("targetValues"@, v),
                ),
            decreases values@.len() - i,
        {
            let ghost before = query@;
            query.push((String::from_str("targetValues"), values[i].clone()));
            proof {
                assert(pairs_view(query@) =~= pairs_view(before).push(pair("targetValues"@, values@[i as int]@)));
                assert(texts_view(values@).subrange(0, i + 1) =~= texts_view(values@).subrange(0, i as int).push(values@[i as int]@));
                assert(texts_view(values@).subrange(0, i + 1).map_values(|v: Seq<char>| pair("targetValues"@, v)) =~= texts_view(values@).subrange(0, i as int).map_values(|v: Seq<char>| pair("targetValues"@, v)).push(pair("targetValues"@, values@[i as int]@)));
            }
            i = i + 1;
        }
        proof {
            assert(texts_view(values@).subrange(0, values@.len() as int) =~= texts_view(values@));
        }
    } else {
        assert(pairs_view(query@) =~= Seq::<(Seq<char>, Seq<char>)>::empty());
    }
    let ghost after_targets = pairs_view(query@);
    if let Some(p) = program_id {
        query.push((String::from_str("programID"), p.as_str().to_owned()));
    }
    let ghost after_program = pairs_view(query@);
    query.push((String::from_str("skip"), decimal(pagination.skip)));
    query.push((String::from_str("limit"), decimal(pagination.limit)));
    proof {
        reveal_strlit("targetType");
        reveal_strlit("targetValues");
        reveal_strlit("programID");
        reveal_strlit("skip");
        reveal_strlit("limit");
        assert(after_program =~= after_targets + match program_id {
            None => Seq::<(Seq<char>, Seq<char>)>::empty(),
            Some(p) => seq![pair("programID"@, p@)],
        });
        assert(pairs_view(query@) =~= after_program + seq![
            pair("skip"@, decimal_text(pagination.skip as nat)),
            pair("limit"@, decimal_text(pagination.limit as nat)),
        ]);
    }
    query
}

/// The query parameters of a listing of an event's reports: its program, the
/// event, `skip` and `limit`, and the client's name where one is asked for.
pub open spec fn report_query_spec(
    program_id: Seq<char>,
    event_id: Seq<char>,
    client_name: Option<Seq<char>>,
    skip: usize,
    limit: usize,
) -> Seq<(Seq<char>, Seq<char>)> {
    seq![
        pair("programID"@, program_id),
        pair("eventID"@, event_id),
        pair("skip"@, decimal_text(skip as nat)),
        pair("limit"@, decimal_text(limit as nat)),
    ] + match client_name {
        None => Seq::empty(),
        Some(c) => seq![pair("clientName"@, c)],
    }
}

/// The query parameters of a listing of the event's reports, of all clients
/// or of the one named.
pub fn report_query_pairs(event: &Event, client_name: Option<&str>, pagination: &PaginationOptions) -> (r: Vec<(String, String)>)
    ensures
        pairs_view(r@) == report_query_spec(
            event.content.program_id@,
            event.id@,
            match client_name {
                None => None,
                Some(c) => Some(c@),
            },
            pagination.skip,
            pagination.limit,
        ),
{
    let mut query: Vec<(String, String)> = Vec::new();
    query.push((String::from_str("programID"), event.content.program_id.as_str().to_owned()));
    query.push((String::from_str("eventID"), event.id.as_str().to_owned()));
    query.push((String::from_str("skip"), decimal(pagination.skip)));
    query.push((String::from_str("limit"), decimal(pagination.limit)));
    if let Some(c) = client_name {
        query.push((String::from_str("clientName"), c.to_owned()));
    }
    proof {
        reveal_strlit("programID");
        reveal_strlit("eventID");
        reveal_strlit("skip");
        reveal_strlit("limit");
        reveal_strlit("clientName");
        assert(pairs_view(query@) =~= report_query_spec(
            event.content.program_id@,
            event.id@,
            match client_name {
                None => None,
                Some(c) => Some(c@),
            },
            pagination.skip,
            pagination.limit,
        ));
    }
    query
}

/// A position in paging through a listing: the page and the page size.
#[derive(Debug, Clone, Copy, PartialEq, Eq, Structural)]
pub struct PageCursor {
    pub page: usize,
    pub page_size: usize,
}

impl PageCursor {
    /// The first page.
    pub fn first(page_size: usize) -> (c: PageCursor)
        ensures
            c == (PageCursor { page: 0, page_size }),
    {
        PageCursor { page: 0, page_size }
    }

    /// The window to request for this page: `page * page_size` passed over,
    /// `page_size` taken; none where the position does not fit a `usize`.
    pub fn window(&self) -> (r: Option<PaginationOptions>)
        ensures
            self.page * self.page_size <= usize::MAX ==> r == Some(
                PaginationOptions { skip: (self.page * self.page_size) as usize, limit: self.page_size },
            ),
            self.page * self.page_size > usize::MAX ==> r is None,
    {
        match self.page.checked_mul(self.page_size) {
            Some(skip) => Some(PaginationOptions { skip, limit: self.page_size }),
            None => None,
        }
    }

    /// After a page came back with `received` objects: the listing is complete
    /// when the page was not full; else the next page follows.
    pub fn after_page(&self, received: usize) -> (r: Option<PageCursor>)
        ensures
            received < self.page_size ==> r is None,
            received >= self.page_size && self.page < usize::MAX ==> r == Some(
                PageCursor { page: (self.page + 1) as usize, page_size: self.page_size },
            ),
            received >= self.page_size && self.page == usize::MAX ==> r is None,
    {
        if received < self.page_size {
            None
        } else if self.page < usize::MAX {
            Some(PageCursor { page: self.page + 1, page_size: self.page_size })
        } else {
            None
        }
    }
}

/// The one object of a lookup by name: none is not found, more than one a duplicate.
pub fn single_match<T>(found: Vec<T>) -> (r: Result<T, ClientError>)
    ensures
        found@.len() == 0 ==> r == Err::<T, ClientError>(ClientError::ObjectNotFound),
        found@.len() == 1 ==> r == Ok::<T, ClientError>(found@[0]),
        found@.len() > 1 ==> r == Err::<T, ClientError>(ClientError::DuplicateObject),
{
    let mut found = found;
    if found.len() == 0 {
        Err(ClientError::ObjectNotFound)
    } else if found.len() == 1 {
        Ok(found.remove(0))
    } else {
        Err(ClientError::DuplicateObject)
    }
}

/// A program creates only its own events.
pub fn check_event_parent(program_id: &ProgramId, event: &EventContent) -> (r: Result<(), ClientError>)
    ensures
        r is Ok <==> event.program_id@ == program_id@,
        r matches Err(e) ==> e == ClientError::InvalidParentObject,
{
    if !event.program_id.same_as(program_id) {
        return Err(ClientError::InvalidParentObject);
    }
    Ok(())
}

/// An event creates only reports on itself, within its program.
pub fn check_report_parent(event: &Event, report: &ReportContent) -> (r: Result<(), ClientError>)
    ensures
        r is Ok <==> (report.program_id@ == event.content.program_id@ && report.event_id@ == event.id@),
        r matches Err(e) ==> e == ClientError::InvalidParentObject,
{
    if !report.program_id.same_as(&event.content.program_id) {
        return Err(ClientError::InvalidParentObject);
    }
    if !report.event_id.same_as(&event.id) {
        return Err(ClientError::InvalidParentObject);
    }
    Ok(())
}

/// A new, empty event of the program.
pub fn new_event(program_id: &ProgramId) -> (e: EventContent)
    ensures
        e.object_type == Some(EventObjectType::Event),
        e.program_id@ == program_id@,
        e.event_name is None,
        e.priority == Priority(None),
        e.targets is None,
        e.report_descriptors is None,
        e.payload_descriptors is None,
        e.interval_period is None,
        e.intervals@.len() == 0,
{
    EventContent {
        object_type: Some(EventObjectType::Event),
        program_id: program_id.clone(),
        event_name: None,
        priority: Priority::unspecified(),
        targets: None,
        report_descriptors: None,
        payload_descriptors: None,
        interval_period: None,
        intervals: Vec::new(),
    }
}

/// A new, empty report on the event, from no client in particular.
pub fn new_report(event: &Event) -> (r: ReportContent)
    ensures
        r.object_type == Some(ReportObjectType::Report),
        r.program_id@ == event.content.program_id@,
        r.event_id@ == event.id@,
        r.client_name@ == Seq::<char>::empty(),
        r.report_name is None,
        r.payload_descriptors is None,
        r.resources@.len() == 0,
{
    ReportContent {
        object_type: Some(ReportObjectType::Report),
        program_id: event.content.program_id.clone(),
        event_id: event.id.clone(),
        client_name: String::new(),
        report_name: None,
        payload_descriptors: None,
        resources: Vec::new(),
    }
}

/// The lower case form of a text, as Unicode defines it.
pub uninterp spec fn unicode_lowercase(s: Seq<char>) -> Seq<char>;

/// `str::to_lowercase`. Claimed: the result is a function of the text (named
/// `unicode_lowercase`).
#[verifier::external_body]
fn lowercase(s: &str) -> (r: String)
    ensures
        r@ == unicode_lowercase(s@),
{
    s.to_lowercase()
}

/// A token type names a bearer token, in any case.
pub fn check_bearer(token_type: &str) -> (r: Result<(), ClientError>)
    ensures
        r is Ok <==> unicode_lowercase(token_type@) == "bearer"@,
        r matches Err(e) ==> e == ClientError::OAuthTokenNotBearer,
{
    let lower = lowercase(token_type);
    if !crate::text::str_eq(lower.as_str(), "bearer") {
        return Err(ClientError::OAuthTokenNotBearer);
    }
    Ok(())
}

/// A token is renewed when there are credentials and no token that stays
/// valid for longer than the refresh margin. Times in nanoseconds; `token`
/// gives the time since the token was issued and its lifetime. A token whose
/// lifetime is shorter than the margin is always due.
pub fn needs_token(has_credentials: bool, token: Option<(u128, u128)>, refresh_margin: u128) -> (r: bool)
    ensures
        r == (has_credentials && match token {
            None => true,
            Some(t) => t.0 + refresh_margin >= t.1,
        }),
{
    if !has_credentials {
        return false;
    }
    match token {
        None => true,
        Some((elapsed, expires_in)) => !(refresh_margin < expires_in && elapsed < expires_in - refresh_margin),
    }
}

/// The lifetime of a new token: what the token endpoint says, else the default.
pub fn token_lifetime(expires_in: Option<u64>, default_expires_in: u64) -> (r: u64)
    ensures
        r == match expires_in {
            Some(e) => e,
            None => default_expires_in,
        },
{
    match expires_in {
        Some(e) => e,
        None => default_expires_in,
    }
}

} // verus!
