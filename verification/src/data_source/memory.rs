//! Stores held in memory, in the order objects were created.

use vstd::prelude::*;

use crate::api::event::{event_matches, QueryParams as EventQuery};
use crate::api::program::{program_matches, QueryParams as ProgramQuery};
use crate::api::report::{report_matches, QueryParams as ReportQuery};
use crate::event::{Event, EventContent};
use crate::ids::{EventId, ReportId};
use crate::report::{Report, ReportContent};
use crate::copy::DeepCopy;
use crate::data_source::{AuthInfo, AuthSource, Crud, DataSource, EventCrud, ProgramCrud, ReportCrud};
use crate::jwt::AuthRoleView;
use crate::error::AppError;
use crate::identifier::{valid_identifier, Identifier};
use crate::ids::ProgramId;
use crate::jwt::Claims;
use crate::program::{Program, ProgramContent};
use crate::text::str_eq;
use crate::time::Timestamp;
use vstd::utf8::{encode_utf8, is_ascii_chars, is_ascii_chars_encode_utf8};

verus! {

/// The current time, `chrono::Utc::now()`, as seconds and nanoseconds since
/// the Unix epoch. Nothing is claimed of it.
#[verifier::external_body]
fn now() -> (r: Timestamp) {
    let t = chrono::Utc::now();
    Timestamp { secs: t.timestamp(), nanos: t.timestamp_subsec_nanos() }
}

/// A character of the hyphenated form of a UUID: a lower case hex digit or `-`.
pub open spec fn uuid_char(c: char) -> bool {
    ('0' <= c <= '9') || ('a' <= c <= 'f') || c == '-'
}

/// The hyphenated text of a fresh random UUID, `uuid::Uuid::new_v4()`.
/// Claimed, as the uuid documentation gives the hyphenated form: 36
/// characters, each a lower case hex digit or `-`.
#[verifier::external_body]
fn fresh_uuid() -> (r: String)
    ensures
        r@.len() == 36,
        forall|i: int| 0 <= i < r@.len() ==> uuid_char(#[trigger] r@[i]),
{
    uuid::Uuid::new_v4().hyphenated().to_string()
}

/// A character that may start an object id: a lower case letter or `-`.
pub open spec fn prefix_char(c: char) -> bool {
    ('a' <= c <= 'z') || c == '-'
}

/// A fresh random id: `prefix` followed by the text of a fresh UUID.
pub fn fresh_id(prefix: &str) -> (r: Identifier)
    requires
        1 <= prefix@.len() <= 64,
        forall|i: int| 0 <= i < prefix@.len() ==> prefix_char(#[trigger] prefix@[i]),
    ensures
        r@.len() == prefix@.len() + 36,
        r@.subrange(0, prefix@.len() as int) == prefix@,
{
    let uuid = fresh_uuid();
    let mut text = String::from_str(prefix);
    text.append(uuid.as_str());
    proof {
        let t = text@;
        assert(t =~= prefix@ + uuid@);
        assert forall|i: int| 0 <= i < t.len() implies '\0' <= #[trigger] t[i] <= '\u{7f}' by {
            if i < prefix@.len() {
                assert(t[i] == prefix@[i]);
            } else {
                assert(t[i] == uuid@[i - prefix@.len()]);
            }
        }
        assert(is_ascii_chars(t));
        is_ascii_chars_encode_utf8(t);
        let bytes = encode_utf8(t);
        assert forall|i: int| 0 <= i < bytes.len() implies crate::identifier::is_identifier_byte(#[trigger] bytes[i]) by {
            assert(t[i] as u8 == bytes[i]);
            if i < prefix@.len() {
                assert(t[i] == prefix@[i]);
            } else {
                assert(t[i] == uuid@[i - prefix@.len()]);
            }
        }
        assert(valid_identifier(t));
    }
    let id = Identifier::from_valid(text);
    proof {
        assert(id@.subrange(0, prefix@.len() as int) =~= prefix@);
    }
    id
}

/// Where a listing's page starts and ends among `len` candidates: `skip`
/// passed over, at most `limit` taken.
pub open spec fn page_start(len: nat, skip: usize) -> int {
    if skip < len { skip as int } else { len as int }
}

pub open spec fn page_end(len: nat, skip: usize, limit: usize) -> int {
    if skip + limit < len { skip + limit } else { len as int }
}

/// The first error among the results, or all the values.
pub open spec fn collect_results<T>(c: Seq<Result<T, AppError>>) -> Result<Seq<T>, AppError>
    decreases c.len(),
{
    if c.len() == 0 {
        Ok(Seq::empty())
    } else {
        match collect_results(c.drop_last()) {
            Err(e) => Err(e),
            Ok(v) => match c.last() {
                Ok(x) => Ok(v.push(x)),
                Err(e) => Err(e),
            },
        }
    }
}

/// The listing of stored objects (given by position) that a filter lets
/// through, a page of it: the first error on the page, or the objects on it.
pub open spec fn paged<T>(candidates: Seq<Result<int, AppError>>, skip: usize, limit: usize) -> Result<Seq<int>, AppError> {
    collect_results(candidates.subrange(page_start(candidates.len(), skip), page_end(candidates.len(), skip, limit)))
}

/// Walks a page of candidates: the first error on it, or the positions on it.
fn collect_page(candidates: &Vec<Result<usize, AppError>>, skip: usize, limit: usize) -> (r: Result<Vec<usize>, AppError>)
    ensures
        match (r, collect_results(candidates@.subrange(page_start(candidates@.len(), skip), page_end(candidates@.len(), skip, limit)))) {
            (Ok(v), Ok(expected)) => v@.len() == expected.len() && forall|i: int| 0 <= i < v@.len() ==> v@[i] == expected[i],
            (Err(e), Err(x)) => e == x,
            _ => false,
        },
{
    let n = candidates.len();
    let start = if skip < n { skip } else { n };
    let end = if skip < n && limit < n - skip { skip + limit } else { n };
    let ghost window = candidates@.subrange(start as int, end as int);
    assert(window == candidates@.subrange(page_start(candidates@.len(), skip), page_end(candidates@.len(), skip, limit)));
    let mut out: Vec<usize> = Vec::new();
    let mut i = start;
    while i < end
        invariant
            start <= i <= end <= n,
            n == candidates@.len(),
            window == candidates@.subrange(start as int, end as int),
            window == candidates@.subrange(page_start(candidates@.len(), skip), page_end(candidates@.len(), skip, limit)),
            collect_results(candidates@.subrange(start as int, i as int)) matches Ok(v) && v.len() == out@.len() && forall|j: int| 0 <= j < out@.len() ==> out@[j] == v[j],
        decreases end - i,
    {
        proof {
            assert(candidates@.subrange(start as int, i + 1).drop_last() =~= candidates@.subrange(start as int, i as int));
        }
        match &candidates[i] {
            Ok(p) => {
                out.push(*p);
            },
            Err(e) => {
                proof {
                    assert(window.subrange(0, i - start + 1) =~= candidates@.subrange(start as int, i + 1));
                    assert(candidates@.subrange(start as int, i + 1).last() == candidates@[i as int]);
                    lemma_collect_error_stays(window, i - start + 1);
                }
                return Err(e.clone());
            },
        }
        i = i + 1;
    }
    Ok(out)
}

/// Once a prefix of results holds an error, the whole collection is that error.
pub proof fn lemma_collect_error_stays<T>(c: Seq<Result<T, AppError>>, m: int)
    requires
        0 <= m <= c.len(),
        collect_results(c.subrange(0, m)) is Err,
    ensures
        collect_results(c) == collect_results(c.subrange(0, m)),
    decreases c.len(),
{
    if m == c.len() {
        assert(c.subrange(0, m) =~= c);
    } else {
        assert(c.drop_last().subrange(0, m) =~= c.subrange(0, m));
        lemma_collect_error_stays(c.drop_last(), m);
    }
}

/// Some stored program has the id.
pub open spec fn program_with_id(items: Seq<Program>, id: Seq<char>) -> bool {
    exists|i: int| 0 <= i < items.len() && (#[trigger] items[i]).id@ == id
}

/// Some stored program has the name.
pub open spec fn program_name_taken(items: Seq<Program>, name: Seq<char>) -> bool {
    exists|i: int| 0 <= i < items.len() && (#[trigger] items[i]).content.program_name@ == name
}

/// Some stored program other than the one with the id has the name.
pub open spec fn program_name_taken_by_other(items: Seq<Program>, id: Seq<char>, name: Seq<char>) -> bool {
    exists|i: int|
        0 <= i < items.len() && (#[trigger] items[i]).id@ != id && items[i].content.program_name@ == name
}

/// Ids and names of the stored programs are unique.
pub open spec fn programs_wf(items: Seq<Program>) -> bool {
    &&& forall|i: int, j: int| 0 <= i < j < items.len() ==> (#[trigger] items[i]).id@ != (#[trigger] items[j]).id@
    &&& forall|i: int, j: int|
        0 <= i < j < items.len() ==> (#[trigger] items[i]).content.program_name@ != (#[trigger] items[j]).content.program_name@
}

/// Each program matched against the filter, in order: its position where it
/// passes, the error where matching fails.
pub open spec fn program_candidates(items: Seq<Program>, q: ProgramQuery) -> Seq<Result<int, AppError>>
    decreases items.len(),
{
    if items.len() == 0 {
        Seq::empty()
    } else {
        let rest = program_candidates(items.drop_last(), q);
        match program_matches(q, items.last().content) {
            Ok(true) => rest.push(Ok(items.len() - 1)),
            Ok(false) => rest,
            Err(e) => rest.push(Err(e)),
        }
    }
}

/// Programs held in memory, in the order they were created.
pub struct ProgramStore {
    programs: Vec<Program>,
}

fn find_program(programs: &Vec<Program>, id: &ProgramId) -> (r: Option<usize>)
    ensures
        r matches Some(i) ==> i < programs@.len() && programs@[i as int].id@ == id@,
        r is None ==> !program_with_id(programs@, id@),
{
    let mut i: usize = 0;
    while i < programs.len()
        invariant
            i <= programs@.len(),
            forall|j: int| 0 <= j < i ==> (#[trigger] programs@[j]).id@ != id@,
        decreases programs@.len() - i,
    {
        if programs[i].id.same_as(id) {
            return Some(i);
        }
        i = i + 1;
    }
    None
}

fn find_program_name(programs: &Vec<Program>, skip_id: Option<&ProgramId>, name: &str) -> (r: Option<usize>)
    ensures
        r matches Some(i) ==> i < programs@.len() && programs@[i as int].content.program_name@ == name@
            && (skip_id matches Some(sid) ==> programs@[i as int].id@ != sid@),
        r is None ==> match skip_id {
            None => !program_name_taken(programs@, name@),
            Some(sid) => !program_name_taken_by_other(programs@, sid@, name@),
        },
{
    let mut i: usize = 0;
    while i < programs.len()
        invariant
            i <= programs@.len(),
            forall|j: int|
                0 <= j < i ==> (#[trigger] programs@[j]).content.program_name@ != name@ || (skip_id matches Some(sid)
                    && programs@[j].id@ == sid@),
        decreases programs@.len() - i,
    {
        let other = match skip_id {
            None => true,
            Some(sid) => !programs[i].id.same_as(sid),
        };
        if other && str_eq(programs[i].content.program_name.as_str(), name) {
            return Some(i);
        }
        i = i + 1;
    }
    None
}

/// The message of a name conflict with the program of the given id.
pub open spec fn program_conflict_message(id: Seq<char>) -> Seq<char> {
    "Program with id "@ + id + " has the same name"@
}

/// The error is a name conflict with a stored program other than the one with
/// id `skip` (if given) that has the name, and names that program's id.
pub open spec fn conflicts_with_stored(items: Seq<Program>, skip: Option<Seq<char>>, name: Seq<char>, e: AppError) -> bool {
    exists|i: int|
        0 <= i < items.len() && {
            &&& (#[trigger] items[i]).content.program_name@ == name
            &&& (skip matches Some(sid) ==> items[i].id@ != sid)
            &&& e matches AppError::Conflict(m) && m@ == program_conflict_message(items[i].id@)
        }
}

/// The message of a name conflict with the program of the given id.
fn program_conflict(id: &ProgramId) -> (r: AppError)
    ensures
        r matches AppError::Conflict(m) && m@ == program_conflict_message(id@),
{
    let mut m = String::from_str("Program with id ");
    m.append(id.as_str());
    m.append(" has the same name");
    AppError::Conflict(m)
}


impl ProgramStore {
    #[verifier::type_invariant]
    spec fn inv(self) -> bool {
        programs_wf(self.programs@)
    }

    /// The stored programs, in the order they were created.
    pub closed spec fn items(self) -> Seq<Program> {
        self.programs@
    }

    /// An empty store.
    pub fn new() -> (s: ProgramStore)
        ensures
            s.items() == Seq::<Program>::empty(),
    {
        ProgramStore { programs: Vec::new() }
    }
}

/// The store after `p` was put in: in place of the program with its id if
/// there is one, else after the others.
pub open spec fn put_program(items: Seq<Program>, p: Program) -> Seq<Program> {
    if program_with_id(items, p.id@) {
        items.update(choose|i: int| 0 <= i < items.len() && (#[trigger] items[i]).id@ == p.id@, p)
    } else {
        items.push(p)
    }
}

impl ProgramCrud for ProgramStore {

}

impl Crud for ProgramStore {
    type Type = Program;
    type Id = ProgramId;
    type NewType = ProgramContent;
    type Error = AppError;
    type Filter = ProgramQuery;
    type PermissionFilter = Claims;

    /// Stores a new program under a fresh id, unless its name is taken.
    fn create(&mut self, new: ProgramContent, permission_filter: &Claims) -> (r: Result<Program, AppError>)
        ensures
            program_name_taken(old(self).items(), new.program_name@) <==> r is Err,
            r is Err ==> final(self).items() == old(self).items() && r matches Err(AppError::Conflict(_)),
            r matches Err(e) ==> conflicts_with_stored(old(self).items(), None, new.program_name@, e),
            programs_wf(final(self).items()),
            r matches Ok(p) ==> exists|stored: Program|
                {
                    &&& #[trigger] final(self).items() == put_program(old(self).items(), stored)
                    &&& stored.content == new
                    &&& stored.created_date_time == stored.modification_date_time
                    &&& p.deep_view() == stored.deep_view()
                },
    {
        proof {
            use_type_invariant(&*self);
        }
        if let Some(i) = find_program_name(&self.programs, None, new.program_name.as_str()) {
            return Err(program_conflict(&self.programs[i].id));
        }
        proof {
            reveal_strlit("program-");
        }
        let id = ProgramId::from_identifier(fresh_id("program-"));
        let time = now();
        let stored = Program { id, created_date_time: time, modification_date_time: time, content: new };
        let result = stored.deep_copy();
        let ghost before = self.programs@;
        match find_program(&self.programs, &stored.id) {
            Some(i) => {
                proof {
                    assert(put_program(before, stored) == before.update(i as int, stored)) by {
                        let c = choose|j: int| 0 <= j < before.len() && (#[trigger] before[j]).id@ == stored.id@;
                        if c != i as int {
                            assert(before[c].id@ != before[i as int].id@);
                        }
                    }
                    assert forall|a: int, b: int| 0 <= a < b < before.len() implies
                        (#[trigger] before.update(i as int, stored)[a]).content.program_name@
                            != (#[trigger] before.update(i as int, stored)[b]).content.program_name@ by {
                        if a != i as int {
                            assert(before[a].content.program_name@ != stored.content.program_name@);
                        }
                        if b != i as int {
                            assert(before[b].content.program_name@ != stored.content.program_name@);
                        }
                    }
                }
                let mut programs: Vec<Program> = Vec::new();
                std::mem::swap(&mut programs, &mut self.programs);
                programs.set(i, stored);
                std::mem::swap(&mut programs, &mut self.programs);
            },
            None => {
                proof {
                    assert forall|a: int| 0 <= a < before.len() implies (#[trigger] before[a]).content.program_name@
                        != stored.content.program_name@ && before[a].id@ != stored.id@ by {}
                }
                let mut programs: Vec<Program> = Vec::new();
                std::mem::swap(&mut programs, &mut self.programs);
                programs.push(stored);
                std::mem::swap(&mut programs, &mut self.programs);
            },
        }
        Ok(result)
    }

    /// The stored program with the id.
    fn retrieve(&self, id: &ProgramId, permission_filter: &Claims) -> (r: Result<Program, AppError>)
        ensures
            r is Ok <==> program_with_id(self.items(), id@),
            r matches Ok(p) ==> exists|i: int|
                0 <= i < self.items().len() && (#[trigger] self.items()[i]).id@ == id@ && p.deep_view()
                    == self.items()[i].deep_view(),
            r matches Err(e) ==> e == AppError::NotFound,
    {
        match find_program(&self.programs, id) {
            Some(i) => Ok(self.programs[i].deep_copy()),
            None => Err(AppError::NotFound),
        }
    }

    /// The page of stored programs that pass the filter.
    fn retrieve_all(&self, filter: &ProgramQuery, permission_filter: &Claims) -> (r: Result<Vec<Program>, AppError>)
        ensures
            match (r, paged::<Program>(program_candidates(self.items(), *filter), filter.skip as usize, filter.limit as usize)) {
                (Ok(v), Ok(pos)) => v@.len() == pos.len() && forall|i: int|
                    0 <= i < v@.len() ==> 0 <= pos[i] < self.items().len() && (#[trigger] v@[i]).deep_view()
                        == self.items()[pos[i]].deep_view(),
                (Err(e), Err(x)) => e == x,
                _ => false,
            },
    {
        let mut candidates: Vec<Result<usize, AppError>> = Vec::new();
        let mut i: usize = 0;
        while i < self.programs.len()
            invariant
                i <= self.programs@.len(),
                candidates@.len() == program_candidates(self.programs@.subrange(0, i as int), *filter).len(),
                forall|j: int| 0 <= j < candidates@.len() ==> match (#[trigger] candidates@[j], program_candidates(self.programs@.subrange(0, i as int), *filter)[j]) {
                    (Ok(a), Ok(b)) => a == b && 0 <= b < i,
                    (Err(a), Err(b)) => a == b,
                    _ => false,
                },
            decreases self.programs@.len() - i,
        {
            proof {
                assert(self.programs@.subrange(0, i + 1).drop_last() =~= self.programs@.subrange(0, i as int));
                assert(self.programs@.subrange(0, i + 1).last() == self.programs@[i as int]);
            }
            match filter.matches(&self.programs[i].content) {
                Ok(true) => candidates.push(Ok(i)),
                Ok(false) => {},
                Err(e) => candidates.push(Err(e)),
            }
            i = i + 1;
        }
        proof {
            assert(self.programs@.subrange(0, self.programs@.len() as int) =~= self.programs@);
        }
        let skip = #[verifier::truncate] (filter.skip as usize);
        let limit = #[verifier::truncate] (filter.limit as usize);
        let ghost cands = program_candidates(self.programs@, *filter);
        let ghost mine: Seq<Result<int, AppError>> = candidates@.map_values(|c: Result<usize, AppError>| match c { Ok(a) => Ok(a as int), Err(e) => Err(e) });
        assert(mine =~= cands);
        match collect_page(&candidates, skip, limit) {
            Err(e) => {
                proof {
                    lemma_collect_map(candidates@.subrange(page_start(candidates@.len(), skip), page_end(candidates@.len(), skip, limit)));
                    assert(cands.subrange(page_start(cands.len(), skip), page_end(cands.len(), skip, limit)) =~= candidates@.subrange(page_start(candidates@.len(), skip), page_end(candidates@.len(), skip, limit)).map_values(|c: Result<usize, AppError>| match c { Ok(a) => Ok(a as int), Err(e) => Err(e) }));
                }
                Err(e)
            },
            Ok(positions) => {
                proof {
                    let window = candidates@.subrange(page_start(candidates@.len(), skip), page_end(candidates@.len(), skip, limit));
                    lemma_collect_map(window);
                    assert(cands.subrange(page_start(cands.len(), skip), page_end(cands.len(), skip, limit)) =~= window.map_values(|c: Result<usize, AppError>| match c { Ok(a) => Ok(a as int), Err(e) => Err(e) }));
                    lemma_collect_values(window);
                    assert forall|j: int| 0 <= j < positions@.len() implies (#[trigger] positions@[j]) < self.programs@.len() by {
                        let v = collect_results(window).get_Ok_0();
                        let w = choose|w: int| 0 <= w < window.len() && window[w] == Ok::<usize, AppError>(v[j]);
                        assert(window[w] == candidates@[w + page_start(candidates@.len(), skip)]);
                    }
                }
                let mut out: Vec<Program> = Vec::new();
                let mut k: usize = 0;
                while k < positions.len()
                    invariant
                        k <= positions@.len(),
                        out@.len() == k,
                        forall|j: int| 0 <= j < positions@.len() ==> (#[trigger] positions@[j]) < self.programs@.len(),
                        forall|j: int| 0 <= j < k ==> (#[trigger] out@[j]).deep_view() == self.programs@[positions@[j] as int].deep_view(),
                    decreases positions@.len() - k,
                {
                    out.push(self.programs[positions[k]].deep_copy());
                    k = k + 1;
                }
                Ok(out)
            },
        }
    }

    /// Replaces the content of the stored program with the id, unless another
    /// program has the new name.
    fn update(&mut self, id: &ProgramId, new: ProgramContent, permission_filter: &Claims) -> (r: Result<Program, AppError>)
        ensures
            program_name_taken_by_other(old(self).items(), id@, new.program_name@) ==> (r matches Err(AppError::Conflict(_))
                && final(self).items() == old(self).items()
                && conflicts_with_stored(old(self).items(), Some(id@), new.program_name@, r->Err_0)),
            !program_name_taken_by_other(old(self).items(), id@, new.program_name@) && !program_with_id(old(self).items(), id@)
                ==> (r == Err::<Program, AppError>(AppError::NotFound) && final(self).items() == old(self).items()),
            !program_name_taken_by_other(old(self).items(), id@, new.program_name@) && program_with_id(old(self).items(), id@)
                ==> (r matches Ok(p) && exists|i: int| 0 <= i < old(self).items().len() && (#[trigger] old(self).items()[i]).id@ == id@ && {
                    let stored = final(self).items()[i];
                    &&& final(self).items().len() == old(self).items().len()
                    &&& forall|j: int| 0 <= j < old(self).items().len() && j != i ==> (#[trigger] final(self).items()[j]) == old(self).items()[j]
                    &&& stored.id@ == id@
                    &&& stored.created_date_time == old(self).items()[i].created_date_time
                    &&& stored.content == new
                    &&& p.deep_view() == stored.deep_view()
                }),
    {
        proof {
            use_type_invariant(&*self);
        }
        if let Some(c) = find_program_name(&self.programs, Some(id), new.program_name.as_str()) {
            return Err(program_conflict(&self.programs[c].id));
        }
        match find_program(&self.programs, id) {
            None => Err(AppError::NotFound),
            Some(i) => {
                let ghost before = self.programs@;
                let stored = Program {
                    id: self.programs[i].id.clone(),
                    created_date_time: self.programs[i].created_date_time,
                    modification_date_time: now(),
                    content: new,
                };
                let result = stored.deep_copy();
                proof {
                    let after = before.update(i as int, stored);
                    assert forall|a: int, b: int| 0 <= a < b < after.len() implies
                        (#[trigger] after[a]).id@ != (#[trigger] after[b]).id@
                        && after[a].content.program_name@ != after[b].content.program_name@ by {
                        if a == i as int {
                            assert(before[b].id@ != id@);
                        } else if b == i as int {
                            assert(before[a].id@ != id@);
                        }
                    }
                }
                let mut programs: Vec<Program> = Vec::new();
                std::mem::swap(&mut programs, &mut self.programs);
                programs.set(i, stored);
                std::mem::swap(&mut programs, &mut self.programs);
                Ok(result)
            },
        }
    }

    /// Removes the stored program with the id.
    fn delete(&mut self, id: &ProgramId, permission_filter: &Claims) -> (r: Result<Program, AppError>)
        ensures
            r is Ok <==> program_with_id(old(self).items(), id@),
            r matches Ok(p) ==> exists|i: int|
                0 <= i < old(self).items().len() && (#[trigger] old(self).items()[i]).id@ == id@ && p == old(self).items()[i]
                    && final(self).items() == old(self).items().remove(i),
            r is Err ==> r == Err::<Program, AppError>(AppError::NotFound) && final(self).items() == old(self).items(),
    {
        proof {
            use_type_invariant(&*self);
        }
        match find_program(&self.programs, id) {
            None => Err(AppError::NotFound),
            Some(i) => {
                let ghost before = self.programs@;
                proof {
                    let after = before.remove(i as int);
                    assert forall|a: int, b: int| 0 <= a < b < after.len() implies
                        (#[trigger] after[a]).id@ != (#[trigger] after[b]).id@
                        && after[a].content.program_name@ != after[b].content.program_name@ by {
                        let oa = if a < i { a } else { a + 1 };
                        let ob = if b < i { b } else { b + 1 };
                        assert(after[a] == before[oa] && after[b] == before[ob]);
                    }
                }
                let mut programs: Vec<Program> = Vec::new();
                std::mem::swap(&mut programs, &mut self.programs);
                let p = programs.remove(i);
                std::mem::swap(&mut programs, &mut self.programs);
                Ok(p)
            },
        }
    }
}

/// Every value collected is one of the results.
pub proof fn lemma_collect_values<T>(c: Seq<Result<T, AppError>>)
    ensures
        collect_results(c) matches Ok(v) ==> forall|k: int| 0 <= k < v.len() ==> exists|w: int| 0 <= w < c.len() && c[w] == Ok::<T, AppError>(#[trigger] v[k]),
    decreases c.len(),
{
    if c.len() > 0 {
        lemma_collect_values(c.drop_last());
        if let Ok(v) = collect_results(c) {
            let u = collect_results(c.drop_last()).get_Ok_0();
            assert forall|k: int| 0 <= k < v.len() implies exists|w: int| 0 <= w < c.len() && c[w] == Ok::<T, AppError>(#[trigger] v[k]) by {
                if k < u.len() {
                    let w = choose|w: int| 0 <= w < c.drop_last().len() && c.drop_last()[w] == Ok::<T, AppError>(u[k]);
                    assert(c[w] == c.drop_last()[w]);
                } else {
                    assert(c[c.len() - 1] == Ok::<T, AppError>(v[k]));
                }
            }
        }
    }
}

/// Mapping positions to integers keeps the first error or maps the values.
pub proof fn lemma_collect_map(c: Seq<Result<usize, AppError>>)
    ensures
        match (collect_results(c), collect_results(c.map_values(|x: Result<usize, AppError>| match x { Ok(a) => Ok(a as int), Err(e) => Err(e) }))) {
            (Ok(v), Ok(w)) => v.len() == w.len() && forall|i: int| 0 <= i < v.len() ==> v[i] as int == w[i],
            (Err(e), Err(f)) => e == f,
            _ => false,
        },
    decreases c.len(),
{
    let f = |x: Result<usize, AppError>| match x { Ok(a) => Ok(a as int), Err(e) => Err(e) };
    if c.len() > 0 {
        lemma_collect_map(c.drop_last());
        assert(c.map_values(f).drop_last() =~= c.drop_last().map_values(f));
    }
}

/// Some stored event has the id.
pub open spec fn event_with_id(items: Seq<Event>, id: Seq<char>) -> bool {
    exists|i: int| 0 <= i < items.len() && (#[trigger] items[i]).id@ == id
}

/// Ids of the stored events are unique.
pub open spec fn events_wf(items: Seq<Event>) -> bool {
    forall|i: int, j: int| 0 <= i < j < items.len() ==> (#[trigger] items[i]).id@ != (#[trigger] items[j]).id@
}

/// Each event matched against the filter, in order: its position where it
/// passes, the error where matching fails.
pub open spec fn event_candidates(items: Seq<Event>, q: EventQuery) -> Seq<Result<int, AppError>>
    decreases items.len(),
{
    if items.len() == 0 {
        Seq::empty()
    } else {
        let rest = event_candidates(items.drop_last(), q);
        match event_matches(q, items.last().content) {
            Ok(true) => rest.push(Ok(items.len() - 1)),
            Ok(false) => rest,
            Err(e) => rest.push(Err(e)),
        }
    }
}

/// Events held in memory, in the order they were created.
pub struct EventStore {
    events: Vec<Event>,
}

fn find_event(events: &Vec<Event>, id: &EventId) -> (r: Option<usize>)
    ensures
        r matches Some(i) ==> i < events@.len() && events@[i as int].id@ == id@,
        r is None ==> !event_with_id(events@, id@),
{
    let mut i: usize = 0;
    while i < events.len()
        invariant
            i <= events@.len(),
            forall|j: int| 0 <= j < i ==> (#[trigger] events@[j]).id@ != id@,
        decreases events@.len() - i,
    {
        if events[i].id.same_as(id) {
            return Some(i);
        }
        i = i + 1;
    }
    None
}

impl EventStore {
    #[verifier::type_invariant]
    spec fn inv(self) -> bool {
        events_wf(self.events@)
    }

    /// The stored events, in the order they were created.
    pub closed spec fn items(self) -> Seq<Event> {
        self.events@
    }

    /// An empty store.
    pub fn new() -> (s: EventStore)
        ensures
            s.items() == Seq::<Event>::empty(),
    {
        EventStore { events: Vec::new() }
    }
}

/// The store after `x` was put in: in place of the event with its id if
/// there is one, else after the others.
pub open spec fn put_event(items: Seq<Event>, x: Event) -> Seq<Event> {
    if event_with_id(items, x.id@) {
        items.update(choose|i: int| 0 <= i < items.len() && (#[trigger] items[i]).id@ == x.id@, x)
    } else {
        items.push(x)
    }
}

impl EventCrud for EventStore {

}

impl Crud for EventStore {
    type Type = Event;
    type Id = EventId;
    type NewType = EventContent;
    type Error = AppError;
    type Filter = EventQuery;
    type PermissionFilter = Claims;

    /// Stores a new event under a fresh id.
    fn create(&mut self, new: EventContent, permission_filter: &Claims) -> (r: Result<Event, AppError>)
        ensures
            r matches Ok(x) && exists|stored: Event|
                {
                    &&& #[trigger] final(self).items() == put_event(old(self).items(), stored)
                    &&& stored.content == new
                    &&& stored.created_date_time == stored.modification_date_time
                    &&& x.deep_view() == stored.deep_view()
                },
    {
        proof {
            use_type_invariant(&*self);
            reveal_strlit("event-");
        }
        let id = EventId::from_identifier(fresh_id("event-"));
        let time = now();
        let stored = Event { id, created_date_time: time, modification_date_time: time, content: new };
        let result = stored.deep_copy();
        let ghost before = self.events@;
        let mut events: Vec<Event> = Vec::new();
        std::mem::swap(&mut events, &mut self.events);
        match find_event(&events, &stored.id) {
            Some(i) => {
                proof {
                    assert(put_event(before, stored) == before.update(i as int, stored)) by {
                        let c = choose|j: int| 0 <= j < before.len() && (#[trigger] before[j]).id@ == stored.id@;
                        if c != i as int {
                            assert(before[c].id@ != before[i as int].id@);
                        }
                    }
                }
                events.set(i, stored);
            },
            None => {
                events.push(stored);
            },
        }
        std::mem::swap(&mut events, &mut self.events);
        Ok(result)
    }

    /// The stored event with the id.
    fn retrieve(&self, id: &EventId, permission_filter: &Claims) -> (r: Result<Event, AppError>)
        ensures
            r is Ok <==> event_with_id(self.items(), id@),
            r matches Ok(x) ==> exists|i: int|
                0 <= i < self.items().len() && (#[trigger] self.items()[i]).id@ == id@ && x.deep_view()
                    == self.items()[i].deep_view(),
            r matches Err(e) ==> e == AppError::NotFound,
    {
        match find_event(&self.events, id) {
            Some(i) => Ok(self.events[i].deep_copy()),
            None => Err(AppError::NotFound),
        }
    }

    /// The page of stored events that pass the filter.
    fn retrieve_all(&self, filter: &EventQuery, permission_filter: &Claims) -> (r: Result<Vec<Event>, AppError>)
        ensures
            match (r, paged::<Event>(event_candidates(self.items(), *filter), filter.skip as usize, filter.limit as usize)) {
                (Ok(v), Ok(pos)) => v@.len() == pos.len() && forall|i: int|
                    0 <= i < v@.len() ==> 0 <= pos[i] < self.items().len() && (#[trigger] v@[i]).deep_view()
                        == self.items()[pos[i]].deep_view(),
                (Err(e), Err(x)) => e == x,
                _ => false,
            },
    {
        let mut candidates: Vec<Result<usize, AppError>> = Vec::new();
        let mut i: usize = 0;
        while i < self.events.len()
            invariant
                i <= self.events@.len(),
                candidates@.len() == event_candidates(self.events@.subrange(0, i as int), *filter).len(),
                forall|j: int| 0 <= j < candidates@.len() ==> match (#[trigger] candidates@[j], event_candidates(self.events@.subrange(0, i as int), *filter)[j]) {
                    (Ok(a), Ok(b)) => a == b && 0 <= b < i,
                    (Err(a), Err(b)) => a == b,
                    _ => false,
                },
            decreases self.events@.len() - i,
        {
            proof {
                assert(self.events@.subrange(0, i + 1).drop_last() =~= self.events@.subrange(0, i as int));
                assert(self.events@.subrange(0, i + 1).last() == self.events@[i as int]);
            }
            match filter.matches(&self.events[i].content) {
                Ok(true) => candidates.push(Ok(i)),
                Ok(false) => {},
                Err(e) => candidates.push(Err(e)),
            }
            i = i + 1;
        }
        proof {
            assert(self.events@.subrange(0, self.events@.len() as int) =~= self.events@);
        }
        let skip = #[verifier::truncate] (filter.skip as usize);
        let limit = #[verifier::truncate] (filter.limit as usize);
        let ghost cands = event_candidates(self.events@, *filter);
        let ghost mine: Seq<Result<int, AppError>> = candidates@.map_values(|c: Result<usize, AppError>| match c { Ok(a) => Ok(a as int), Err(e) => Err(e) });
        assert(mine =~= cands);
        match collect_page(&candidates, skip, limit) {
            Err(e) => {
                proof {
                    lemma_collect_map(candidates@.subrange(page_start(candidates@.len(), skip), page_end(candidates@.len(), skip, limit)));
                    assert(cands.subrange(page_start(cands.len(), skip), page_end(cands.len(), skip, limit)) =~= candidates@.subrange(page_start(candidates@.len(), skip), page_end(candidates@.len(), skip, limit)).map_values(|c: Result<usize, AppError>| match c { Ok(a) => Ok(a as int), Err(e) => Err(e) }));
                }
                Err(e)
            },
            Ok(positions) => {
                proof {
                    let window = candidates@.subrange(page_start(candidates@.len(), skip), page_end(candidates@.len(), skip, limit));
                    lemma_collect_map(window);
                    assert(cands.subrange(page_start(cands.len(), skip), page_end(cands.len(), skip, limit)) =~= window.map_values(|c: Result<usize, AppError>| match c { Ok(a) => Ok(a as int), Err(e) => Err(e) }));
                    lemma_collect_values(window);
                    assert forall|j: int| 0 <= j < positions@.len() implies (#[trigger] positions@[j]) < self.events@.len() by {
                        let v = collect_results(window).get_Ok_0();
                        let w = choose|w: int| 0 <= w < window.len() && window[w] == Ok::<usize, AppError>(v[j]);
                        assert(window[w] == candidates@[w + page_start(candidates@.len(), skip)]);
                    }
                }
                let mut out: Vec<Event> = Vec::new();
                let mut k: usize = 0;
                while k < positions.len()
                    invariant
                        k <= positions@.len(),
                        out@.len() == k,
                        forall|j: int| 0 <= j < positions@.len() ==> (#[trigger] positions@[j]) < self.events@.len(),
                        forall|j: int| 0 <= j < k ==> (#[trigger] out@[j]).deep_view() == self.events@[positions@[j] as int].deep_view(),
                    decreases positions@.len() - k,
                {
                    out.push(self.events[positions[k]].deep_copy());
                    k = k + 1;
                }
                Ok(out)
            },
        }
    }

    /// Replaces the content of the stored event with the id.
    fn update(&mut self, id: &EventId, new: EventContent, permission_filter: &Claims) -> (r: Result<Event, AppError>)
        ensures
            !event_with_id(old(self).items(), id@) ==> (r == Err::<Event, AppError>(AppError::NotFound) && final(self).items() == old(self).items()),
            event_with_id(old(self).items(), id@) ==> (r matches Ok(x) && exists|i: int| 0 <= i < old(self).items().len() && (#[trigger] old(self).items()[i]).id@ == id@ && {
                    let stored = final(self).items()[i];
                    &&& final(self).items().len() == old(self).items().len()
                    &&& forall|j: int| 0 <= j < old(self).items().len() && j != i ==> (#[trigger] final(self).items()[j]) == old(self).items()[j]
                    &&& stored.id@ == id@
                    &&& stored.created_date_time == old(self).items()[i].created_date_time
                    &&& stored.content == new
                    &&& x.deep_view() == stored.deep_view()
                }),
    {
        proof {
            use_type_invariant(&*self);
        }
        match find_event(&self.events, id) {
            None => Err(AppError::NotFound),
            Some(i) => {
                let stored = Event {
                    id: self.events[i].id.clone(),
                    created_date_time: self.events[i].created_date_time,
                    modification_date_time: now(),
                    content: new,
                };
                let result = stored.deep_copy();
                let ghost before = self.events@;
                proof {
                    let after = before.update(i as int, stored);
                    assert forall|a: int, b: int| 0 <= a < b < after.len() implies
                        (#[trigger] after[a]).id@ != (#[trigger] after[b]).id@ by {
                        if a == i as int {
                            assert(before[b].id@ != id@);
                        } else if b == i as int {
                            assert(before[a].id@ != id@);
                        }
                    }
                }
                let mut events: Vec<Event> = Vec::new();
                std::mem::swap(&mut events, &mut self.events);
                events.set(i, stored);
                std::mem::swap(&mut events, &mut self.events);
                Ok(result)
            },
        }
    }

    /// Removes the stored event with the id.
    fn delete(&mut self, id: &EventId, permission_filter: &Claims) -> (r: Result<Event, AppError>)
        ensures
            r is Ok <==> event_with_id(old(self).items(), id@),
            r matches Ok(x) ==> exists|i: int|
                0 <= i < old(self).items().len() && (#[trigger] old(self).items()[i]).id@ == id@ && x == old(self).items()[i]
                    && final(self).items() == old(self).items().remove(i),
            r is Err ==> r == Err::<Event, AppError>(AppError::NotFound) && final(self).items() == old(self).items(),
    {
        proof {
            use_type_invariant(&*self);
        }
        match find_event(&self.events, id) {
            None => Err(AppError::NotFound),
            Some(i) => {
                let ghost before = self.events@;
                proof {
                    let after = before.remove(i as int);
                    assert forall|a: int, b: int| 0 <= a < b < after.len() implies
                        (#[trigger] after[a]).id@ != (#[trigger] after[b]).id@ by {
                        let oa = if a < i { a } else { a + 1 };
                        let ob = if b < i { b } else { b + 1 };
                        assert(after[a] == before[oa] && after[b] == before[ob]);
                    }
                }
                let mut events: Vec<Event> = Vec::new();
                std::mem::swap(&mut events, &mut self.events);
                let x = events.remove(i);
                std::mem::swap(&mut events, &mut self.events);
                Ok(x)
            },
        }
    }
}

/// Some stored report has the id.
pub open spec fn report_with_id(items: Seq<Report>, id: Seq<char>) -> bool {
    exists|i: int| 0 <= i < items.len() && (#[trigger] items[i]).id@ == id
}

/// Ids of the stored reports are unique.
pub open spec fn reports_wf(items: Seq<Report>) -> bool {
    forall|i: int, j: int| 0 <= i < j < items.len() ==> (#[trigger] items[i]).id@ != (#[trigger] items[j]).id@
}

/// Each report matched against the filter, in order: its position where it
/// passes.
pub open spec fn report_candidates(items: Seq<Report>, q: ReportQuery) -> Seq<Result<int, AppError>>
    decreases items.len(),
{
    if items.len() == 0 {
        Seq::empty()
    } else {
        let rest = report_candidates(items.drop_last(), q);
        if report_matches(q, items.last().content) {
            rest.push(Ok(items.len() - 1))
        } else {
            rest
        }
    }
}

/// Reports held in memory, in the order they were created.
pub struct ReportStore {
    reports: Vec<Report>,
}

fn find_report(reports: &Vec<Report>, id: &ReportId) -> (r: Option<usize>)
    ensures
        r matches Some(i) ==> i < reports@.len() && reports@[i as int].id@ == id@,
        r is None ==> !report_with_id(reports@, id@),
{
    let mut i: usize = 0;
    while i < reports.len()
        invariant
            i <= reports@.len(),
            forall|j: int| 0 <= j < i ==> (#[trigger] reports@[j]).id@ != id@,
        decreases reports@.len() - i,
    {
        if reports[i].id.same_as(id) {
            return Some(i);
        }
        i = i + 1;
    }
    None
}

impl ReportStore {
    #[verifier::type_invariant]
    spec fn inv(self) -> bool {
        reports_wf(self.reports@)
    }

    /// The stored reports, in the order they were created.
    pub closed spec fn items(self) -> Seq<Report> {
        self.reports@
    }

    /// An empty store.
    pub fn new() -> (s: ReportStore)
        ensures
            s.items() == Seq::<Report>::empty(),
    {
        ReportStore { reports: Vec::new() }
    }
}

/// The store after `x` was put in: in place of the report with its id if
/// there is one, else after the others.
pub open spec fn put_report(items: Seq<Report>, x: Report) -> Seq<Report> {
    if report_with_id(items, x.id@) {
        items.update(choose|i: int| 0 <= i < items.len() && (#[trigger] items[i]).id@ == x.id@, x)
    } else {
        items.push(x)
    }
}

impl ReportCrud for ReportStore {

}

impl Crud for ReportStore {
    type Type = Report;
    type Id = ReportId;
    type NewType = ReportContent;
    type Error = AppError;
    type Filter = ReportQuery;
    type PermissionFilter = Claims;

    /// Stores a new report under a fresh id.
    fn create(&mut self, new: ReportContent, permission_filter: &Claims) -> (r: Result<Report, AppError>)
        ensures
            r matches Ok(x) && exists|stored: Report|
                {
                    &&& #[trigger] final(self).items() == put_report(old(self).items(), stored)
                    &&& stored.content == new
                    &&& stored.created_date_time == stored.modification_date_time
                    &&& x.deep_view() == stored.deep_view()
                },
    {
        proof {
            use_type_invariant(&*self);
            reveal_strlit("report-");
        }
        let id = ReportId::from_identifier(fresh_id("report-"));
        let time = now();
        let stored = Report { id, created_date_time: time, modification_date_time: time, content: new };
        let result = stored.deep_copy();
        let ghost before = self.reports@;
        let mut reports: Vec<Report> = Vec::new();
        std::mem::swap(&mut reports, &mut self.reports);
        match find_report(&reports, &stored.id) {
            Some(i) => {
                proof {
                    assert(put_report(before, stored) == before.update(i as int, stored)) by {
                        let c = choose|j: int| 0 <= j < before.len() && (#[trigger] before[j]).id@ == stored.id@;
                        if c != i as int {
                            assert(before[c].id@ != before[i as int].id@);
                        }
                    }
                }
                reports.set(i, stored);
            },
            None => {
                reports.push(stored);
            },
        }
        std::mem::swap(&mut reports, &mut self.reports);
        Ok(result)
    }

    /// The stored report with the id.
    fn retrieve(&self, id: &ReportId, permission_filter: &Claims) -> (r: Result<Report, AppError>)
        ensures
            r is Ok <==> report_with_id(self.items(), id@),
            r matches Ok(x) ==> exists|i: int|
                0 <= i < self.items().len() && (#[trigger] self.items()[i]).id@ == id@ && x.deep_view()
                    == self.items()[i].deep_view(),
            r matches Err(e) ==> e == AppError::NotFound,
    {
        match find_report(&self.reports, id) {
            Some(i) => Ok(self.reports[i].deep_copy()),
            None => Err(AppError::NotFound),
        }
    }

    /// The page of stored reports that pass the filter.
    fn retrieve_all(&self, filter: &ReportQuery, permission_filter: &Claims) -> (r: Result<Vec<Report>, AppError>)
        ensures
            match (r, paged::<Report>(report_candidates(self.items(), *filter), filter.skip as usize, filter.limit as usize)) {
                (Ok(v), Ok(pos)) => v@.len() == pos.len() && forall|i: int|
                    0 <= i < v@.len() ==> 0 <= pos[i] < self.items().len() && (#[trigger] v@[i]).deep_view()
                        == self.items()[pos[i]].deep_view(),
                (Err(e), Err(x)) => e == x,
                _ => false,
            },
    {
        let mut candidates: Vec<Result<usize, AppError>> = Vec::new();
        let mut i: usize = 0;
        while i < self.reports.len()
            invariant
                i <= self.reports@.len(),
                candidates@.len() == report_candidates(self.reports@.subrange(0, i as int), *filter).len(),
                forall|j: int| 0 <= j < candidates@.len() ==> match (#[trigger] candidates@[j], report_candidates(self.reports@.subrange(0, i as int), *filter)[j]) {
                    (Ok(a), Ok(b)) => a == b && 0 <= b < i,
                    (Err(a), Err(b)) => a == b,
                    _ => false,
                },
            decreases self.reports@.len() - i,
        {
            proof {
                assert(self.reports@.subrange(0, i + 1).drop_last() =~= self.reports@.subrange(0, i as int));
                assert(self.reports@.subrange(0, i + 1).last() == self.reports@[i as int]);
            }
            if filter.matches(&self.reports[i].content) {
                candidates.push(Ok(i));
            }
            i = i + 1;
        }
        proof {
            assert(self.reports@.subrange(0, self.reports@.len() as int) =~= self.reports@);
        }
        let skip = #[verifier::truncate] (filter.skip as usize);
        let limit = #[verifier::truncate] (filter.limit as usize);
        let ghost cands = report_candidates(self.reports@, *filter);
        let ghost mine: Seq<Result<int, AppError>> = candidates@.map_values(|c: Result<usize, AppError>| match c { Ok(a) => Ok(a as int), Err(e) => Err(e) });
        assert(mine =~= cands);
        match collect_page(&candidates, skip, limit) {
            Err(e) => {
                proof {
                    lemma_collect_map(candidates@.subrange(page_start(candidates@.len(), skip), page_end(candidates@.len(), skip, limit)));
                    assert(cands.subrange(page_start(cands.len(), skip), page_end(cands.len(), skip, limit)) =~= candidates@.subrange(page_start(candidates@.len(), skip), page_end(candidates@.len(), skip, limit)).map_values(|c: Result<usize, AppError>| match c { Ok(a) => Ok(a as int), Err(e) => Err(e) }));
                }
                Err(e)
            },
            Ok(positions) => {
                proof {
                    let window = candidates@.subrange(page_start(candidates@.len(), skip), page_end(candidates@.len(), skip, limit));
                    lemma_collect_map(window);
                    assert(cands.subrange(page_start(cands.len(), skip), page_end(cands.len(), skip, limit)) =~= window.map_values(|c: Result<usize, AppError>| match c { Ok(a) => Ok(a as int), Err(e) => Err(e) }));
                    lemma_collect_values(window);
                    assert forall|j: int| 0 <= j < positions@.len() implies (#[trigger] positions@[j]) < self.reports@.len() by {
                        let v = collect_results(window).get_Ok_0();
                        let w = choose|w: int| 0 <= w < window.len() && window[w] == Ok::<usize, AppError>(v[j]);
                        assert(window[w] == candidates@[w + page_start(candidates@.len(), skip)]);
                    }
                }
                let mut out: Vec<Report> = Vec::new();
                let mut k: usize = 0;
                while k < positions.len()
                    invariant
                        k <= positions@.len(),
                        out@.len() == k,
                        forall|j: int| 0 <= j < positions@.len() ==> (#[trigger] positions@[j]) < self.reports@.len(),
                        forall|j: int| 0 <= j < k ==> (#[trigger] out@[j]).deep_view() == self.reports@[positions@[j] as int].deep_view(),
                    decreases positions@.len() - k,
                {
                    out.push(self.reports[positions[k]].deep_copy());
                    k = k + 1;
                }
                Ok(out)
            },
        }
    }

    /// Replaces the content of the stored report with the id.
    fn update(&mut self, id: &ReportId, new: ReportContent, permission_filter: &Claims) -> (r: Result<Report, AppError>)
        ensures
            !report_with_id(old(self).items(), id@) ==> (r == Err::<Report, AppError>(AppError::NotFound) && final(self).items() == old(self).items()),
            report_with_id(old(self).items(), id@) ==> (r matches Ok(x) && exists|i: int| 0 <= i < old(self).items().len() && (#[trigger] old(self).items()[i]).id@ == id@ && {
                    let stored = final(self).items()[i];
                    &&& final(self).items().len() == old(self).items().len()
                    &&& forall|j: int| 0 <= j < old(self).items().len() && j != i ==> (#[trigger] final(self).items()[j]) == old(self).items()[j]
                    &&& stored.id@ == id@
                    &&& stored.created_date_time == old(self).items()[i].created_date_time
                    &&& stored.content == new
                    &&& x.deep_view() == stored.deep_view()
                }),
    {
        proof {
            use_type_invariant(&*self);
        }
        match find_report(&self.reports, id) {
            None => Err(AppError::NotFound),
            Some(i) => {
                let stored = Report {
                    id: self.reports[i].id.clone(),
                    created_date_time: self.reports[i].created_date_time,
                    modification_date_time: now(),
                    content: new,
                };
                let result = stored.deep_copy();
                let ghost before = self.reports@;
                proof {
                    let after = before.update(i as int, stored);
                    assert forall|a: int, b: int| 0 <= a < b < after.len() implies
                        (#[trigger] after[a]).id@ != (#[trigger] after[b]).id@ by {
                        if a == i as int {
                            assert(before[b].id@ != id@);
                        } else if b == i as int {
                            assert(before[a].id@ != id@);
                        }
                    }
                }
                let mut reports: Vec<Report> = Vec::new();
                std::mem::swap(&mut reports, &mut self.reports);
                reports.set(i, stored);
                std::mem::swap(&mut reports, &mut self.reports);
                Ok(result)
            },
        }
    }

    /// Removes the stored report with the id.
    fn delete(&mut self, id: &ReportId, permission_filter: &Claims) -> (r: Result<Report, AppError>)
        ensures
            r is Ok <==> report_with_id(old(self).items(), id@),
            r matches Ok(x) ==> exists|i: int|
                0 <= i < old(self).items().len() && (#[trigger] old(self).items()[i]).id@ == id@ && x == old(self).items()[i]
                    && final(self).items() == old(self).items().remove(i),
            r is Err ==> r == Err::<Report, AppError>(AppError::NotFound) && final(self).items() == old(self).items(),
    {
        proof {
            use_type_invariant(&*self);
        }
        match find_report(&self.reports, id) {
            None => Err(AppError::NotFound),
            Some(i) => {
                let ghost before = self.reports@;
                proof {
                    let after = before.remove(i as int);
                    assert forall|a: int, b: int| 0 <= a < b < after.len() implies
                        (#[trigger] after[a]).id@ != (#[trigger] after[b]).id@ by {
                        let oa = if a < i { a } else { a + 1 };
                        let ob = if b < i { b } else { b + 1 };
                        assert(after[a] == before[oa] && after[b] == before[ob]);
                    }
                }
                let mut reports: Vec<Report> = Vec::new();
                std::mem::swap(&mut reports, &mut self.reports);
                let x = reports.remove(i);
                std::mem::swap(&mut reports, &mut self.reports);
                Ok(x)
            },
        }
    }
}

impl DeepView for AuthInfo {
    type V = (Seq<char>, Seq<char>, Seq<AuthRoleView>);

    open spec fn deep_view(&self) -> Self::V {
        (self.client_id@, self.client_secret@, self.roles.deep_view())
    }
}

impl DeepCopy for AuthInfo {
    fn deep_copy(&self) -> (r: Self) {
        AuthInfo {
            client_id: self.client_id.clone(),
            client_secret: self.client_secret.clone(),
            roles: self.roles.deep_copy(),
        }
    }
}

/// The position of the first client with the credentials, if any.
pub open spec fn first_with_credentials(users: Seq<AuthInfo>, id: Seq<char>, secret: Seq<char>) -> Option<int> {
    if exists|i: int| 0 <= i < users.len() && (#[trigger] users[i]).client_id@ == id && users[i].client_secret@ == secret {
        Some(choose|i: int|
            0 <= i < users.len() && (#[trigger] users[i]).client_id@ == id && users[i].client_secret@ == secret
                && forall|j: int| 0 <= j < i ==> !((#[trigger] users[j]).client_id@ == id && users[j].client_secret@ == secret))
    } else {
        None
    }
}

/// Client credentials held in memory, in the order they were added.
pub struct AuthStore {
    pub users: Vec<AuthInfo>,
}

impl AuthStore {
    /// A store without clients.
    pub fn new() -> (s: AuthStore)
        ensures
            s.users@ == Seq::<AuthInfo>::empty(),
    {
        AuthStore { users: Vec::new() }
    }

    /// Adds a client.
    pub fn add(&mut self, info: AuthInfo)
        ensures
            final(self).users@ == old(self).users@.push(info),
    {
        self.users.push(info);
    }
}

impl AuthSource for AuthStore {
    /// The first client with the credentials, if any.
    fn get_user(&self, client_id: &str, client_secret: &str) -> (r: Option<AuthInfo>)
        ensures
            match (r, first_with_credentials(self.users@, client_id@, client_secret@)) {
                (None, None) => true,
                (Some(u), Some(i)) => u.deep_view() == self.users@[i].deep_view(),
                _ => false,
            },
    {
        let mut i: usize = 0;
        while i < self.users.len()
            invariant
                i <= self.users@.len(),
                forall|j: int| 0 <= j < i ==> !((#[trigger] self.users@[j]).client_id@ == client_id@ && self.users@[j].client_secret@ == client_secret@),
            decreases self.users@.len() - i,
        {
            if str_eq(self.users[i].client_id.as_str(), client_id) && str_eq(self.users[i].client_secret.as_str(), client_secret) {
                proof {
                    let users = self.users@;
                    let c = choose|k: int|
                        0 <= k < users.len() && (#[trigger] users[k]).client_id@ == client_id@ && users[k].client_secret@ == client_secret@
                            && forall|j: int| 0 <= j < k ==> !((#[trigger] users[j]).client_id@ == client_id@ && users[j].client_secret@ == client_secret@);
                    assert(users[i as int].client_id@ == client_id@);
                    if c < i { } else if c > i { }
                }
                return Some(self.users[i].deep_copy());
            }
            i = i + 1;
        }
        None
    }
}

/// All stores of the VTN, held in memory.
pub struct InMemoryStorage {
    pub programs: ProgramStore,
    pub reports: ReportStore,
    pub events: EventStore,
    pub auth: AuthStore,
}

impl InMemoryStorage {
    /// Empty stores.
    pub fn new() -> (s: InMemoryStorage)
        ensures
            s.programs.items() == Seq::<Program>::empty(),
            s.reports.items() == Seq::<Report>::empty(),
            s.events.items() == Seq::<Event>::empty(),
            s.auth.users@ == Seq::<AuthInfo>::empty(),
    {
        InMemoryStorage {
            programs: ProgramStore::new(),
            reports: ReportStore::new(),
            events: EventStore::new(),
            auth: AuthStore::new(),
        }
    }
}

impl DataSource for InMemoryStorage {
    type Programs = ProgramStore;
    type Reports = ReportStore;
    type Events = EventStore;
    type Auth = AuthStore;

    fn programs(&self) -> (r: &ProgramStore)
        ensures
            r == &self.programs,
    {
        &self.programs
    }

    fn reports(&self) -> (r: &ReportStore)
        ensures
            r == &self.reports,
    {
        &self.reports
    }

    fn events(&self) -> (r: &EventStore)
        ensures
            r == &self.events,
    {
        &self.events
    }

    fn auth(&self) -> (r: &AuthStore)
        ensures
            r == &self.auth,
    {
        &self.auth
    }
}

/// What is created can be read back: after the store puts in a new program
/// under its id, that program is the one stored program with the id.
pub proof fn lemma_program_read_after_create(items: Seq<Program>, stored: Program)
    requires
        programs_wf(items),
        !program_name_taken(items, stored.content.program_name@),
    ensures
        program_with_id(put_program(items, stored), stored.id@),
        forall|i: int|
            0 <= i < put_program(items, stored).len() && (#[trigger] put_program(items, stored)[i]).id@ == stored.id@
                ==> put_program(items, stored)[i] == stored,
        programs_wf(put_program(items, stored)),
{
    let after = put_program(items, stored);
    if program_with_id(items, stored.id@) {
        let c = choose|i: int| 0 <= i < items.len() && (#[trigger] items[i]).id@ == stored.id@;
        assert(after[c] == stored);
        assert forall|i: int| 0 <= i < after.len() && (#[trigger] after[i]).id@ == stored.id@ implies after[i] == stored by {
            if i != c {
                assert(items[i].id@ != items[c].id@);
            }
        }
        assert forall|a: int, b: int| 0 <= a < b < after.len() implies (#[trigger] after[a]).id@ != (#[trigger] after[b]).id@
            && after[a].content.program_name@ != after[b].content.program_name@ by {
            if a != c && b != c {
                assert(after[a] == items[a] && after[b] == items[b]);
            } else if a == c {
                assert(items[b].id@ != items[c].id@);
            } else {
                assert(items[a].id@ != items[c].id@);
            }
        }
    } else {
        assert(after[items.len() as int] == stored);
        assert forall|i: int| 0 <= i < after.len() && (#[trigger] after[i]).id@ == stored.id@ implies after[i] == stored by {
            if i < items.len() {
                assert(after[i] == items[i]);
            }
        }
        assert forall|a: int, b: int| 0 <= a < b < after.len() implies (#[trigger] after[a]).id@ != (#[trigger] after[b]).id@
            && after[a].content.program_name@ != after[b].content.program_name@ by {
            assert(after[a] == items[a]);
            if b < items.len() {
                assert(after[b] == items[b]);
            }
        }
    }
}

/// What is deleted is gone: once the program at position `i` is removed, no
/// stored program has its id, and every other program is still there.
pub proof fn lemma_program_gone_after_delete(items: Seq<Program>, i: int)
    requires
        programs_wf(items),
        0 <= i < items.len(),
    ensures
        !program_with_id(items.remove(i), items[i].id@),
        forall|j: int| 0 <= j < items.len() && j != i ==> items.remove(i).contains(#[trigger] items[j]),
{
    let after = items.remove(i);
    assert forall|k: int| 0 <= k < after.len() implies (#[trigger] after[k]).id@ != items[i].id@ by {
        if k < i {
            assert(after[k] == items[k]);
        } else {
            assert(after[k] == items[k + 1]);
        }
    }
    assert forall|j: int| 0 <= j < items.len() && j != i implies after.contains(#[trigger] items[j]) by {
        if j < i {
            assert(after[j] == items[j]);
        } else {
            assert(after[j - 1] == items[j]);
        }
    }
}

/// What is created can be read back: after the store puts in a new event
/// under its id, that event is the one stored event with the id.
pub proof fn lemma_event_read_after_create(items: Seq<Event>, stored: Event)
    requires
        events_wf(items),
    ensures
        event_with_id(put_event(items, stored), stored.id@),
        forall|i: int|
            0 <= i < put_event(items, stored).len() && (#[trigger] put_event(items, stored)[i]).id@ == stored.id@
                ==> put_event(items, stored)[i] == stored,
        events_wf(put_event(items, stored)),
{
    let after = put_event(items, stored);
    if event_with_id(items, stored.id@) {
        let c = choose|i: int| 0 <= i < items.len() && (#[trigger] items[i]).id@ == stored.id@;
        assert(after[c] == stored);
        assert forall|i: int| 0 <= i < after.len() && (#[trigger] after[i]).id@ == stored.id@ implies after[i] == stored by {
            if i != c {
                assert(items[i].id@ != items[c].id@);
            }
        }
        assert forall|a: int, b: int| 0 <= a < b < after.len() implies (#[trigger] after[a]).id@ != (#[trigger] after[b]).id@ by {
            if a != c && b != c {
                assert(after[a] == items[a] && after[b] == items[b]);
            } else if a == c {
                assert(items[b].id@ != items[c].id@);
            } else {
                assert(items[a].id@ != items[c].id@);
            }
        }
    } else {
        assert(after[items.len() as int] == stored);
        assert forall|i: int| 0 <= i < after.len() && (#[trigger] after[i]).id@ == stored.id@ implies after[i] == stored by {
            if i < items.len() {
                assert(after[i] == items[i]);
            }
        }
        assert forall|a: int, b: int| 0 <= a < b < after.len() implies (#[trigger] after[a]).id@ != (#[trigger] after[b]).id@ by {
            assert(after[a] == items[a]);
            if b < items.len() {
                assert(after[b] == items[b]);
            }
        }
    }
}

/// What is deleted is gone: once the event at position `i` is removed, no
/// stored event has its id, and every other event is still there.
pub proof fn lemma_event_gone_after_delete(items: Seq<Event>, i: int)
    requires
        events_wf(items),
        0 <= i < items.len(),
    ensures
        !event_with_id(items.remove(i), items[i].id@),
        forall|j: int| 0 <= j < items.len() && j != i ==> items.remove(i).contains(#[trigger] items[j]),
{
    let after = items.remove(i);
    assert forall|k: int| 0 <= k < after.len() implies (#[trigger] after[k]).id@ != items[i].id@ by {
        if k < i {
            assert(after[k] == items[k]);
        } else {
            assert(after[k] == items[k + 1]);
        }
    }
    assert forall|j: int| 0 <= j < items.len() && j != i implies after.contains(#[trigger] items[j]) by {
        if j < i {
            assert(after[j] == items[j]);
        } else {
            assert(after[j - 1] == items[j]);
        }
    }
}

/// What is created can be read back: after the store puts in a new report
/// under its id, that report is the one stored report with the id.
pub proof fn lemma_report_read_after_create(items: Seq<Report>, stored: Report)
    requires
        reports_wf(items),
    ensures
        report_with_id(put_report(items, stored), stored.id@),
        forall|i: int|
            0 <= i < put_report(items, stored).len() && (#[trigger] put_report(items, stored)[i]).id@ == stored.id@
                ==> put_report(items, stored)[i] == stored,
        reports_wf(put_report(items, stored)),
{
    let after = put_report(items, stored);
    if report_with_id(items, stored.id@) {
        let c = choose|i: int| 0 <= i < items.len() && (#[trigger] items[i]).id@ == stored.id@;
        assert(after[c] == stored);
        assert forall|i: int| 0 <= i < after.len() && (#[trigger] after[i]).id@ == stored.id@ implies after[i] == stored by {
            if i != c {
                assert(items[i].id@ != items[c].id@);
            }
        }
        assert forall|a: int, b: int| 0 <= a < b < after.len() implies (#[trigger] after[a]).id@ != (#[trigger] after[b]).id@ by {
            if a != c && b != c {
                assert(after[a] == items[a] && after[b] == items[b]);
            } else if a == c {
                assert(items[b].id@ != items[c].id@);
            } else {
                assert(items[a].id@ != items[c].id@);
            }
        }
    } else {
        assert(after[items.len() as int] == stored);
        assert forall|i: int| 0 <= i < after.len() && (#[trigger] after[i]).id@ == stored.id@ implies after[i] == stored by {
            if i < items.len() {
                assert(after[i] == items[i]);
            }
        }
        assert forall|a: int, b: int| 0 <= a < b < after.len() implies (#[trigger] after[a]).id@ != (#[trigger] after[b]).id@ by {
            assert(after[a] == items[a]);
            if b < items.len() {
                assert(after[b] == items[b]);
            }
        }
    }
}

/// What is deleted is gone: once the report at position `i` is removed, no
/// stored report has its id, and every other report is still there.
pub proof fn lemma_report_gone_after_delete(items: Seq<Report>, i: int)
    requires
        reports_wf(items),
        0 <= i < items.len(),
    ensures
        !report_with_id(items.remove(i), items[i].id@),
        forall|j: int| 0 <= j < items.len() && j != i ==> items.remove(i).contains(#[trigger] items[j]),
{
    let after = items.remove(i);
    assert forall|k: int| 0 <= k < after.len() implies (#[trigger] after[k]).id@ != items[i].id@ by {
        if k < i {
            assert(after[k] == items[k]);
        } else {
            assert(after[k] == items[k + 1]);
        }
    }
    assert forall|j: int| 0 <= j < items.len() && j != i implies after.contains(#[trigger] items[j]) by {
        if j < i {
            assert(after[j] == items[j]);
        } else {
            assert(after[j - 1] == items[j]);
        }
    }
}


/// A value of a result is among the collected values.
proof fn lemma_collect_contains<T>(c: Seq<Result<T, AppError>>, w: int)
    requires
        0 <= w < c.len(),
        c[w] is Ok,
        collect_results(c) is Ok,
    ensures
        collect_results(c).get_Ok_0().contains(c[w].get_Ok_0()),
    decreases c.len(),
{
    let v = collect_results(c).get_Ok_0();
    if w < c.len() - 1 {
        assert(c.drop_last()[w] == c[w]);
        lemma_collect_contains(c.drop_last(), w);
        let u = collect_results(c.drop_last()).get_Ok_0();
        let i = choose|i: int| 0 <= i < u.len() && u[i] == c[w].get_Ok_0();
        assert(v[i] == u[i]);
    } else {
        let u = collect_results(c.drop_last()).get_Ok_0();
        assert(v[u.len() as int] == c[w].get_Ok_0());
    }
}

/// Results that never fail collect to all their values.
proof fn lemma_collect_all_ok<T>(c: Seq<Result<T, AppError>>)
    requires
        forall|w: int| 0 <= w < c.len() ==> (#[trigger] c[w]) is Ok,
    ensures
        collect_results(c) is Ok,
    decreases c.len(),
{
    if c.len() > 0 {
        lemma_collect_all_ok(c.drop_last());
        assert(c[c.len() - 1] is Ok);
    }
}

/// The candidates of a report listing are the positions of the reports that
/// the filter lets through.
proof fn lemma_report_candidates(items: Seq<Report>, q: ReportQuery)
    ensures
        forall|w: int|
            0 <= w < report_candidates(items, q).len() ==> (#[trigger] report_candidates(items, q)[w]) is Ok
                && 0 <= report_candidates(items, q)[w].get_Ok_0() < items.len() && report_matches(
                q,
                items[report_candidates(items, q)[w].get_Ok_0()].content,
            ),
        forall|k: int|
            0 <= k < items.len() && report_matches(q, #[trigger] items[k].content) ==> report_candidates(items, q).contains(
                Ok(k),
            ),
    decreases items.len(),
{
    if items.len() > 0 {
        let rest = items.drop_last();
        lemma_report_candidates(rest, q);
        let rc = report_candidates(rest, q);
        let c = report_candidates(items, q);
        assert forall|w: int| 0 <= w < c.len() implies (#[trigger] c[w]) is Ok && 0 <= c[w].get_Ok_0() < items.len()
            && report_matches(q, items[c[w].get_Ok_0()].content) by {
            if w < rc.len() {
                assert(c[w] == rc[w]);
                assert(items[rc[w].get_Ok_0()] == rest[rc[w].get_Ok_0()]);
            }
        }
        assert forall|k: int| 0 <= k < items.len() && report_matches(q, #[trigger] items[k].content) implies c.contains(Ok(k)) by {
            if k < items.len() - 1 {
                assert(rest[k] == items[k]);
                assert(report_matches(q, rest[k].content));
                let w = choose|w: int| 0 <= w < rc.len() && rc[w] == Ok::<int, AppError>(k);
                assert(c[w] == rc[w]);
            } else {
                assert(c[rc.len() as int] == Ok::<int, AppError>(k));
            }
        }
    }
}

/// A listing of reports never fails, lists only reports of the program, the
/// event and the client that the query gives (where it gives them), and a
/// page that starts at the first and holds all of them lists every such
/// report.
pub proof fn lemma_report_listing(items: Seq<Report>, q: ReportQuery, skip: usize, limit: usize)
    ensures
        paged::<Report>(report_candidates(items, q), skip, limit) is Ok,
        paged::<Report>(report_candidates(items, q), skip, limit) matches Ok(pos) ==> forall|i: int|
            0 <= i < pos.len() ==> {
                let r = items[#[trigger] pos[i]];
                &&& 0 <= pos[i] < items.len()
                &&& q.program_id matches Some(p) ==> r.content.program_id@ == p@
                &&& q.event_id matches Some(e) ==> r.content.event_id@ == e@
                &&& q.client_name matches Some(n) ==> r.content.client_name@ == n@
            },
        skip == 0 && limit >= items.len() ==> forall|k: int|
            0 <= k < items.len() && (q.program_id matches Some(p) ==> (#[trigger] items[k]).content.program_id@ == p@)
                && (q.event_id matches Some(e) ==> items[k].content.event_id@ == e@)
                && (q.client_name matches Some(n) ==> items[k].content.client_name@ == n@)
                ==> paged::<Report>(report_candidates(items, q), skip, limit).get_Ok_0().contains(k),
{
    lemma_report_candidates(items, q);
    let c = report_candidates(items, q);
    let window = c.subrange(page_start(c.len(), skip), page_end(c.len(), skip, limit));
    assert forall|w: int| 0 <= w < window.len() implies (#[trigger] window[w]) is Ok by {
        assert(window[w] == c[w + page_start(c.len(), skip)]);
    }
    lemma_collect_all_ok(window);
    lemma_collect_values(window);
    let pos = collect_results(window).get_Ok_0();
    assert forall|i: int| 0 <= i < pos.len() implies 0 <= #[trigger] pos[i] < items.len() && report_matches(q, items[pos[i]].content) by {
        let w = choose|w: int| 0 <= w < window.len() && window[w] == Ok::<int, AppError>(pos[i]);
        assert(window[w] == c[w + page_start(c.len(), skip)]);
    }
    if skip == 0 && limit >= items.len() {
        assert forall|k: int|
            0 <= k < items.len() && (q.program_id matches Some(p) ==> (#[trigger] items[k]).content.program_id@ == p@)
                && (q.event_id matches Some(e) ==> items[k].content.event_id@ == e@)
                && (q.client_name matches Some(n) ==> items[k].content.client_name@ == n@)
                implies pos.contains(k) by {
            assert(report_matches(q, items[k].content));
            let w = choose|w: int| 0 <= w < c.len() && c[w] == Ok::<int, AppError>(k);
            assert(c.len() <= items.len()) by {
                lemma_report_candidates_len(items, q);
            }
            assert(window =~= c);
            lemma_collect_contains(window, w);
        }
    }
}

/// There are no more candidates than reports.
proof fn lemma_report_candidates_len(items: Seq<Report>, q: ReportQuery)
    ensures
        report_candidates(items, q).len() <= items.len(),
    decreases items.len(),
{
    if items.len() > 0 {
        lemma_report_candidates_len(items.drop_last(), q);
    }
}


/// The event passes the query's filter: of the program given, and, where
/// the query asks for events by name, named one of the names given.
pub open spec fn event_fits(q: EventQuery, c: EventContent) -> bool {
    &&& q.program_id matches Some(p) ==> c.program_id@ == p@
    &&& (q.target_type is Some ==> (q.target_type->0 is EventName && q.target_values is Some && c.event_name is Some
                    && exists|j: int| 0 <= j < (q.target_values->0)@.len() && (#[trigger] (q.target_values->0)@[j])@ == (c.event_name->0)@))
}

/// What the filter answers for an event: whether it passes, where it
/// answers at all.
proof fn lemma_event_matches_fits(q: EventQuery, c: EventContent)
    ensures
        event_matches(q, c) matches Ok(b) ==> b == event_fits(q, c),
        event_fits(q, c) ==> event_matches(q, c) == Ok::<bool, AppError>(true),
{
}

/// The candidates of an event listing: each passing event by position, or an
/// error of the filter.
proof fn lemma_event_candidates(items: Seq<Event>, q: EventQuery)
    ensures
        forall|w: int|
            0 <= w < event_candidates(items, q).len() && (#[trigger] event_candidates(items, q)[w]) is Ok ==> 0
                <= event_candidates(items, q)[w].get_Ok_0() < items.len() && event_fits(
                q,
                items[event_candidates(items, q)[w].get_Ok_0()].content,
            ),
        forall|k: int|
            0 <= k < items.len() && event_fits(q, #[trigger] items[k].content) ==> event_candidates(items, q).contains(Ok(k)),
        event_candidates(items, q).len() <= items.len(),
    decreases items.len(),
{
    if items.len() > 0 {
        let rest = items.drop_last();
        lemma_event_candidates(rest, q);
        lemma_event_matches_fits(q, items.last().content);
        let rc = event_candidates(rest, q);
        let c = event_candidates(items, q);
        assert forall|w: int| 0 <= w < c.len() && (#[trigger] c[w]) is Ok implies 0 <= c[w].get_Ok_0() < items.len()
            && event_fits(q, items[c[w].get_Ok_0()].content) by {
            if w < rc.len() {
                assert(c[w] == rc[w]);
                assert(items[rc[w].get_Ok_0()] == rest[rc[w].get_Ok_0()]);
            }
        }
        assert forall|k: int| 0 <= k < items.len() && event_fits(q, #[trigger] items[k].content) implies c.contains(Ok(k)) by {
            if k < items.len() - 1 {
                assert(rest[k] == items[k]);
                assert(event_fits(q, rest[k].content));
                let w = choose|w: int| 0 <= w < rc.len() && rc[w] == Ok::<int, AppError>(k);
                assert(c[w] == rc[w]);
            } else {
                assert(c[rc.len() as int] == Ok::<int, AppError>(k));
            }
        }
    }
}

/// A listing of events lists only events of the program the query gives,
/// and, where it asks for events by name, only events named one of the
/// names given; a page that starts at the first and holds all of them lists
/// every such event.
pub proof fn lemma_event_listing(items: Seq<Event>, q: EventQuery, skip: usize, limit: usize)
    ensures
        paged::<Event>(event_candidates(items, q), skip, limit) matches Ok(pos) ==> forall|i: int|
            0 <= i < pos.len() ==> {
                let e = items[#[trigger] pos[i]];
                &&& 0 <= pos[i] < items.len()
                &&& q.program_id matches Some(p) ==> e.content.program_id@ == p@
                &&& (q.target_type is Some ==> (q.target_type->0 is EventName && q.target_values is Some && e.content.event_name is Some
                    && exists|j: int| 0 <= j < (q.target_values->0)@.len() && (#[trigger] (q.target_values->0)@[j])@ == (e.content.event_name->0)@))
            },
        skip == 0 && limit >= items.len() ==> (paged::<Event>(event_candidates(items, q), skip, limit) matches Ok(pos)
            ==> forall|k: int|
            0 <= k < items.len() && (q.program_id matches Some(p) ==> (#[trigger] items[k]).content.program_id@ == p@)
                && (q.target_type is Some ==> (q.target_type->0 is EventName && q.target_values is Some && items[k].content.event_name is Some
                    && exists|j: int| 0 <= j < (q.target_values->0)@.len() && (#[trigger] (q.target_values->0)@[j])@ == (items[k].content.event_name->0)@))
                ==> pos.contains(k)),
{
    lemma_event_candidates(items, q);
    let c = event_candidates(items, q);
    let window = c.subrange(page_start(c.len(), skip), page_end(c.len(), skip, limit));
    lemma_collect_values(window);
    if let Ok(pos) = collect_results(window) {
        assert forall|i: int| 0 <= i < pos.len() implies 0 <= #[trigger] pos[i] < items.len() && event_fits(q, items[pos[i]].content) by {
            let w = choose|w: int| 0 <= w < window.len() && window[w] == Ok::<int, AppError>(pos[i]);
            assert(window[w] == c[w + page_start(c.len(), skip)]);
        }
        if skip == 0 && limit >= items.len() {
            assert(window =~= c);
            assert forall|k: int|
                0 <= k < items.len() && (q.program_id matches Some(p) ==> (#[trigger] items[k]).content.program_id@ == p@)
                    && (q.target_type is Some ==> (q.target_type->0 is EventName && q.target_values is Some && items[k].content.event_name is Some
                    && exists|j: int| 0 <= j < (q.target_values->0)@.len() && (#[trigger] (q.target_values->0)@[j])@ == (items[k].content.event_name->0)@))
                    implies pos.contains(k) by {
                assert(event_fits(q, items[k].content));
                let w = choose|w: int| 0 <= w < c.len() && c[w] == Ok::<int, AppError>(k);
                lemma_collect_contains(window, w);
            }
        }
    }
}


/// The program passes the query's filter: where the query asks for programs
/// by name, it is named one of the names given.
pub open spec fn program_fits(q: ProgramQuery, c: ProgramContent) -> bool {
    &&& (q.target_type is Some ==> (q.target_type->0 is ProgramName && q.target_values is Some && exists|j: int| 0 <= j < (q.target_values->0)@.len() && (#[trigger] (q.target_values->0)@[j])@ == c.program_name@))
}

/// What the filter answers for a program: whether it passes, where it
/// answers at all.
proof fn lemma_program_matches_fits(q: ProgramQuery, c: ProgramContent)
    ensures
        program_matches(q, c) matches Ok(b) ==> b == program_fits(q, c),
        program_fits(q, c) ==> program_matches(q, c) == Ok::<bool, AppError>(true),
{
}

/// The candidates of a program listing: each passing program by position, or
/// an error of the filter.
proof fn lemma_program_candidates(items: Seq<Program>, q: ProgramQuery)
    ensures
        forall|w: int|
            0 <= w < program_candidates(items, q).len() && (#[trigger] program_candidates(items, q)[w]) is Ok ==> 0
                <= program_candidates(items, q)[w].get_Ok_0() < items.len() && program_fits(
                q,
                items[program_candidates(items, q)[w].get_Ok_0()].content,
            ),
        forall|k: int|
            0 <= k < items.len() && program_fits(q, #[trigger] items[k].content) ==> program_candidates(items, q).contains(Ok(k)),
        program_candidates(items, q).len() <= items.len(),
    decreases items.len(),
{
    if items.len() > 0 {
        let rest = items.drop_last();
        lemma_program_candidates(rest, q);
        lemma_program_matches_fits(q, items.last().content);
        let rc = program_candidates(rest, q);
        let c = program_candidates(items, q);
        assert forall|w: int| 0 <= w < c.len() && (#[trigger] c[w]) is Ok implies 0 <= c[w].get_Ok_0() < items.len()
            && program_fits(q, items[c[w].get_Ok_0()].content) by {
            if w < rc.len() {
                assert(c[w] == rc[w]);
                assert(items[rc[w].get_Ok_0()] == rest[rc[w].get_Ok_0()]);
            }
        }
        assert forall|k: int| 0 <= k < items.len() && program_fits(q, #[trigger] items[k].content) implies c.contains(Ok(k)) by {
            if k < items.len() - 1 {
                assert(rest[k] == items[k]);
                assert(program_fits(q, rest[k].content));
                let w = choose|w: int| 0 <= w < rc.len() && rc[w] == Ok::<int, AppError>(k);
                assert(c[w] == rc[w]);
            } else {
                assert(c[rc.len() as int] == Ok::<int, AppError>(k));
            }
        }
    }
}

/// A listing of programs, where the query asks for programs by name, lists
/// only programs named one of the names given; a page that starts at the
/// first and holds all of them lists every such program.
pub proof fn lemma_program_listing(items: Seq<Program>, q: ProgramQuery, skip: usize, limit: usize)
    ensures
        paged::<Program>(program_candidates(items, q), skip, limit) matches Ok(pos) ==> forall|i: int|
            0 <= i < pos.len() ==> {
                let prog = items[#[trigger] pos[i]];
                &&& 0 <= pos[i] < items.len()
                &&& (q.target_type is Some ==> (q.target_type->0 is ProgramName && q.target_values is Some && exists|j: int| 0 <= j < (q.target_values->0)@.len() && (#[trigger] (q.target_values->0)@[j])@ == prog.content.program_name@))
            },
        skip == 0 && limit >= items.len() ==> (paged::<Program>(program_candidates(items, q), skip, limit) matches Ok(pos)
            ==> forall|k: int|
            0 <= k < items.len() && (q.target_type is Some ==> (q.target_type->0 is ProgramName && q.target_values is Some && exists|j: int| 0 <= j < (q.target_values->0)@.len() && (#[trigger] (q.target_values->0)@[j])@ == items[k].content.program_name@))
                ==> pos.contains(k)),
{
    lemma_program_candidates(items, q);
    let c = program_candidates(items, q);
    let window = c.subrange(page_start(c.len(), skip), page_end(c.len(), skip, limit));
    lemma_collect_values(window);
    if let Ok(pos) = collect_results(window) {
        assert forall|i: int| 0 <= i < pos.len() implies 0 <= #[trigger] pos[i] < items.len() && program_fits(q, items[pos[i]].content) by {
            let w = choose|w: int| 0 <= w < window.len() && window[w] == Ok::<int, AppError>(pos[i]);
            assert(window[w] == c[w + page_start(c.len(), skip)]);
        }
        if skip == 0 && limit >= items.len() {
            assert(window =~= c);
            assert forall|k: int|
                0 <= k < items.len() && (q.target_type is Some ==> (q.target_type->0 is ProgramName && q.target_values is Some && exists|j: int| 0 <= j < (q.target_values->0)@.len() && (#[trigger] (q.target_values->0)@[j])@ == items[k].content.program_name@))
                    implies pos.contains(k) by {
                assert(program_fits(q, items[k].content));
                let w = choose|w: int| 0 <= w < c.len() && c[w] == Ok::<int, AppError>(k);
                lemma_collect_contains(window, w);
            }
        }
    }
}

} // verus!
