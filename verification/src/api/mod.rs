//! Request handling of the VTN: validation of what requests carry, the
//! access rules of the endpoints and the token endpoint's decisions.

use vstd::prelude::*;

use crate::error::AppError;
use crate::identifier::decimal_text;

pub mod auth;
pub mod event;
pub mod program;
pub mod report;
pub mod resource;
pub mod user;
pub mod ven;

verus! {

#[verifier::external_type_specification]
#[verifier::external_body]
pub struct ExValidationErrors(validator::ValidationErrors);

#[verifier::external_type_specification]
#[verifier::external_body]
pub struct ExValidationError(validator::ValidationError);

/// What an error records: its code and its parameters, each an integer
/// (`None` for a parameter of another kind); nothing where it carries a
/// message of its own, which is then shown in place of code and parameters.
pub uninterp spec fn validation_error_entry(e: validator::ValidationError) -> Option<
    (Seq<char>, Map<Seq<char>, Option<i64>>),
>;

/// What a collection of validation errors holds: for each field, what its
/// errors record, in the order they were added (`None` where the field holds
/// nested errors).
pub uninterp spec fn validation_errors_fields(e: validator::ValidationErrors) -> Map<
    Seq<char>,
    Option<Seq<Option<(Seq<char>, Map<Seq<char>, Option<i64>>)>>>,
>;

/// A collection that holds no errors.
pub open spec fn no_field_errors() -> Map<Seq<char>, Option<Seq<Option<(Seq<char>, Map<Seq<char>, Option<i64>>)>>>> {
    Map::empty()
}

/// The errors held under `field`; none where it holds none or nested errors.
pub open spec fn errors_under(
    m: Map<Seq<char>, Option<Seq<Option<(Seq<char>, Map<Seq<char>, Option<i64>>)>>>>,
    field: Seq<char>,
) -> Seq<Option<(Seq<char>, Map<Seq<char>, Option<i64>>)>> {
    if m.contains_key(field) {
        match m[field] {
            Some(errors) => errors,
            None => Seq::empty(),
        }
    } else {
        Seq::empty()
    }
}

/// A name that shows as itself between quotes: letters, digits and `_`.
pub open spec fn plain_name(s: Seq<char>) -> bool {
    forall|i: int|
        0 <= i < s.len() ==> {
            let c = #[trigger] s[i];
            ('a' <= c <= 'z') || ('A' <= c <= 'Z') || ('0' <= c <= '9') || c == '_'
        }
}

/// An error that records its code and integer parameters with plain names.
pub open spec fn plain_entry(e: Option<(Seq<char>, Map<Seq<char>, Option<i64>>)>) -> bool {
    e is Some && {
        let params = (e->0).1;
        forall|n: Seq<char>| #[trigger] params.contains_key(n) ==> params[n] is Some && plain_name(n)
    }
}

/// Every field holds plain field errors, none nested ones.
pub open spec fn only_plain_errors(m: Map<Seq<char>, Option<Seq<Option<(Seq<char>, Map<Seq<char>, Option<i64>>)>>>>) -> bool {
    forall|f: Seq<char>|
        #[trigger] m.contains_key(f) ==> m[f] is Some && forall|j: int|
            0 <= j < m[f]->0.len() ==> plain_entry(#[trigger] m[f]->0[j])
}

/// The parts, with `sep` between each two.
pub open spec fn joined(parts: Seq<Seq<char>>, sep: Seq<char>) -> Seq<char>
    decreases parts.len(),
{
    if parts.len() == 0 {
        Seq::empty()
    } else if parts.len() == 1 {
        parts[0]
    } else {
        joined(parts.drop_last(), sep) + sep + parts.last()
    }
}

/// The decimal text of an integer.
pub open spec fn int_text(i: int) -> Seq<char> {
    if i < 0 {
        "-"@ + decimal_text((-i) as nat)
    } else {
        decimal_text(i as nat)
    }
}

/// How an integer parameter shows: its quoted name and its JSON number.
pub open spec fn param_text(name: Seq<char>, value: i64) -> Seq<char> {
    "\""@ + name + "\": Number("@ + int_text(value as int) + ")"@
}

/// The parameters shown in the given order, as a map shows.
pub open spec fn params_text(params: Map<Seq<char>, Option<i64>>, order: Seq<Seq<char>>) -> Seq<char> {
    "{"@ + joined(order.map_values(|n: Seq<char>| param_text(n, params[n]->0)), ", "@) + "}"@
}

/// How an error shows: its code and its parameters in some order, for they
/// are kept in a hash map.
pub open spec fn shows_error(e: (Seq<char>, Map<Seq<char>, Option<i64>>), text: Seq<char>) -> bool {
    exists|order: Seq<Seq<char>>|
        order.no_duplicates() && order.to_set() == e.1.dom() && text == "Validation error: "@ + e.0 + " ["@
            + #[trigger] params_text(e.1, order) + "]"@
}

/// How a field shows: its name, then its errors separated by commas.
pub open spec fn shows_field(
    field: Seq<char>,
    errors: Seq<Option<(Seq<char>, Map<Seq<char>, Option<i64>>)>>,
    text: Seq<char>,
) -> bool {
    exists|parts: Seq<Seq<char>>|
        parts.len() == errors.len() && (forall|j: int| 0 <= j < errors.len() ==> shows_error(errors[j]->0, #[trigger] parts[j]))
            && text == field + ": "@ + joined(parts, ", "@)
}

/// The text shows every field on a line of its own, in some order: the
/// fields are kept in a hash map, so the order varies from run to run.
pub open spec fn shows_fields(
    m: Map<Seq<char>, Option<Seq<Option<(Seq<char>, Map<Seq<char>, Option<i64>>)>>>>,
    text: Seq<char>,
) -> bool {
    exists|order: Seq<Seq<char>>, lines: Seq<Seq<char>>|
        order.no_duplicates() && order.to_set() == m.dom() && lines.len() == order.len() && (forall|i: int|
            0 <= i < order.len() ==> shows_field(order[i], errors_under(m, order[i]), #[trigger] lines[i]))
            && text == joined(lines, "\n"@)
}

/// `validator::ValidationError::new(code)`: an error with the code, no
/// parameters and no message.
#[verifier::external_body]
fn validation_error_new(code: &'static str) -> (r: validator::ValidationError)
    ensures
        validation_error_entry(r) == Some((code@, Map::<Seq<char>, Option<i64>>::empty())),
{
    validator::ValidationError::new(code)
}

/// `validator::ValidationError::add_param` of an integer: the parameter is
/// set, replacing one of the same name.
#[verifier::external_body]
fn validation_error_add_param(error: &mut validator::ValidationError, name: &'static str, value: i64)
    ensures
        validation_error_entry(*final(error)) == match validation_error_entry(*old(error)) {
            None => None,
            Some(x) => Some((x.0, x.1.insert(name@, Some(value)))),
        },
{
    error.add_param(std::borrow::Cow::from(name), &value)
}

/// `validator::ValidationErrors::new`: an empty collection of validation errors.
#[verifier::external_body]
fn validation_errors_new() -> (r: validator::ValidationErrors)
    ensures
        validation_errors_fields(r) == no_field_errors(),
{
    validator::ValidationErrors::new()
}

/// `validator::ValidationErrors::add` of an error under `field`: the error is
/// appended to the field's errors. `add` panics where the field holds nested
/// errors, so that is left out.
#[verifier::external_body]
fn validation_errors_add(errors: &mut validator::ValidationErrors, field: &'static str, error: validator::ValidationError)
    requires
        !(validation_errors_fields(*old(errors)).contains_key(field@)
            && validation_errors_fields(*old(errors))[field@] is None),
    ensures
        validation_errors_fields(*final(errors)) == validation_errors_fields(*old(errors)).insert(
            field@,
            Some(errors_under(validation_errors_fields(*old(errors)), field@).push(validation_error_entry(error))),
        ),
{
    errors.add(field, error)
}

/// The `Display` text of a collection of validation errors: one line per
/// field, `field: ` and its errors separated by `, `, each
/// `Validation error: code [params]` with the parameters shown as a map
/// (`{"name": Number(n), ..}`). Claimed where every field holds errors with a
/// code and integer parameters with plain names, as here; the order of the
/// lines and of the parameters is left open, since both are kept in hash maps.
#[verifier::external_body]
fn validation_errors_text(errors: &validator::ValidationErrors) -> (r: String)
    ensures
        only_plain_errors(validation_errors_fields(*errors)) ==> shows_fields(
            validation_errors_fields(*errors),
            r@,
        ),
{
    errors.to_string()
}

/// A failed rule of a field: the field, the rule's code and its integer
/// parameters.
#[derive(Debug, Clone)]
pub struct FieldFailure {
    pub field: &'static str,
    pub code: &'static str,
    pub params: Vec<(&'static str, i64)>,
}

/// A failed rule as texts: field, code and parameters.
pub open spec fn failure_view(f: FieldFailure) -> (Seq<char>, Seq<char>, Seq<(Seq<char>, i64)>) {
    (f.field@, f.code@, f.params@.map_values(|p: (&'static str, i64)| (p.0@, p.1)))
}

/// The failed rules as texts.
pub open spec fn failures_view(fs: Seq<FieldFailure>) -> Seq<(Seq<char>, Seq<char>, Seq<(Seq<char>, i64)>)> {
    fs.map_values(|f: FieldFailure| failure_view(f))
}

/// The parameters as a map; of two of the same name the later one counts.
pub open spec fn params_map(ps: Seq<(Seq<char>, i64)>) -> Map<Seq<char>, Option<i64>>
    decreases ps.len(),
{
    if ps.len() == 0 {
        Map::empty()
    } else {
        params_map(ps.drop_last()).insert(ps.last().0, Some(ps.last().1))
    }
}

/// The failed rules gathered by field, in the order they failed.
pub open spec fn failure_fields(fs: Seq<(Seq<char>, Seq<char>, Seq<(Seq<char>, i64)>)>) -> Map<
    Seq<char>,
    Option<Seq<Option<(Seq<char>, Map<Seq<char>, Option<i64>>)>>>,
>
    decreases fs.len(),
{
    if fs.len() == 0 {
        Map::empty()
    } else {
        let m = failure_fields(fs.drop_last());
        let f = fs.last();
        m.insert(f.0, Some(errors_under(m, f.0).push(Some((f.1, params_map(f.2))))))
    }
}

/// All parameter names of the failed rules are plain.
pub open spec fn failures_plain(fs: Seq<FieldFailure>) -> bool {
    forall|i: int, j: int|
        0 <= i < fs.len() && 0 <= j < fs[i].params@.len() ==> plain_name((#[trigger] fs[i].params@[j]).0@)
}

/// The error of one failed rule.
fn failure_error(f: &FieldFailure) -> (r: validator::ValidationError)
    ensures
        validation_error_entry(r) == Some((f.code@, params_map(failure_view(*f).2))),
{
    let mut error = validation_error_new(f.code);
    let ghost ps = failure_view(*f).2;
    let mut j: usize = 0;
    while j < f.params.len()
        invariant
            j <= f.params@.len(),
            ps == failure_view(*f).2,
            ps.len() == f.params@.len(),
            validation_error_entry(error) == Some((f.code@, params_map(ps.take(j as int)))),
        decreases f.params@.len() - j,
    {
        let (name, value) = f.params[j];
        proof {
            assert(ps.take(j + 1).drop_last() =~= ps.take(j as int));
            assert(ps.take(j + 1).last() == (name@, value));
        }
        validation_error_add_param(&mut error, name, value);
        j = j + 1;
    }
    proof {
        assert(ps.take(f.params@.len() as int) =~= ps);
    }
    error
}

proof fn lemma_params_map_plain(ps: Seq<(Seq<char>, i64)>)
    requires
        forall|j: int| 0 <= j < ps.len() ==> plain_name((#[trigger] ps[j]).0),
    ensures
        forall|n: Seq<char>| #[trigger] params_map(ps).contains_key(n) ==> params_map(ps)[n] is Some && plain_name(n),
    decreases ps.len(),
{
    if ps.len() > 0 {
        lemma_params_map_plain(ps.drop_last());
        assert forall|j: int| 0 <= j < ps.len() - 1 implies plain_name((#[trigger] ps.drop_last()[j]).0) by {
            assert(ps.drop_last()[j] == ps[j]);
        }
    }
}

/// A failed validation: the failed rules are rendered the way the validation
/// library renders them, a line per field in some order, where the
/// parameters have plain names.
pub fn validation_error(failures: &Vec<FieldFailure>) -> (r: AppError)
    ensures
        r is Validation,
        failures_plain(failures@) ==> (r matches AppError::Validation(m) && shows_fields(
            failure_fields(failures_view(failures@)),
            m@,
        )),
{
    let mut errors = validation_errors_new();
    let ghost fs = failures_view(failures@);
    let mut i: usize = 0;
    while i < failures.len()
        invariant
            i <= failures@.len(),
            fs == failures_view(failures@),
            validation_errors_fields(errors) == failure_fields(fs.take(i as int)),
            failures_plain(failures@) ==> only_plain_errors(validation_errors_fields(errors)),
            forall|f: Seq<char>| #[trigger] validation_errors_fields(errors).contains_key(f) ==> validation_errors_fields(errors)[f] is Some,
        decreases failures@.len() - i,
    {
        let error = failure_error(&failures[i]);
        let field = failures[i].field;
        proof {
            assert(fs.take(i + 1).drop_last() =~= fs.take(i as int));
            assert(fs.take(i + 1).last() == failure_view(failures@[i as int]));
            if failures_plain(failures@) {
                let ps = failure_view(failures@[i as int]).2;
                assert forall|j: int| 0 <= j < ps.len() implies plain_name((#[trigger] ps[j]).0) by {
                    assert(ps[j].0 == failures@[i as int].params@[j].0@);
                }
                lemma_params_map_plain(ps);
            }
        }
        let ghost before = validation_errors_fields(errors);
        validation_errors_add(&mut errors, field, error);
        proof {
            let after = validation_errors_fields(errors);
            if failures_plain(failures@) {
                assert forall|f: Seq<char>| #[trigger] after.contains_key(f) implies after[f] is Some && forall|j: int|
                    0 <= j < after[f]->0.len() ==> plain_entry(#[trigger] after[f]->0[j]) by {
                    if f != field@ {
                        assert(before.contains_key(f));
                    } else {
                        let es = after[f]->0;
                        assert forall|j: int| 0 <= j < es.len() implies plain_entry(#[trigger] es[j]) by {
                            if j < es.len() - 1 {
                                assert(es[j] == errors_under(before, f)[j]);
                            }
                        }
                    }
                }
            }
        }
        i = i + 1;
    }
    proof {
        assert(fs.take(failures@.len() as int) =~= fs);
    }
    AppError::Validation(validation_errors_text(&errors))
}

/// Values that can be checked against the constraints of the wire format.
pub trait Validate {
    /// The value meets its constraints.
    spec fn valid(&self) -> bool;

    /// Checks the constraints; a violation is a validation error.
    fn validate(&self) -> (r: Result<(), AppError>)
        ensures
            r is Ok <==> self.valid(),
            r matches Err(e) ==> e is Validation;
}

/// A form body that passed validation.
#[derive(Debug, Clone)]
pub struct ValidatedForm<T>(T);

/// Query parameters that passed validation.
#[derive(Debug, Clone)]
pub struct ValidatedQuery<T>(pub T);

/// A JSON body that passed validation.
#[derive(Debug, Clone)]
pub struct ValidatedJson<T>(pub T);

impl<T: Validate> ValidatedForm<T> {
    /// Accepts a form body if it is valid.
    pub fn check(value: T) -> (r: Result<ValidatedForm<T>, AppError>)
        ensures
            r is Ok <==> value.valid(),
            r matches Ok(v) ==> v.inner() == value,
            r matches Err(e) ==> e is Validation,
    {
        match value.validate() {
            Ok(()) => Ok(ValidatedForm(value)),
            Err(e) => Err(e),
        }
    }

    pub closed spec fn inner(self) -> T {
        self.0
    }

    /// The validated form body.
    pub fn into_inner(self) -> (r: T)
        ensures
            r == self.inner(),
    {
        self.0
    }
}

impl<T: Validate> ValidatedQuery<T> {
    /// Accepts query parameters if they are valid.
    pub fn check(value: T) -> (r: Result<ValidatedQuery<T>, AppError>)
        ensures
            r is Ok <==> value.valid(),
            r matches Ok(v) ==> v.0 == value,
            r matches Err(e) ==> e is Validation,
    {
        match value.validate() {
            Ok(()) => Ok(ValidatedQuery(value)),
            Err(e) => Err(e),
        }
    }
}

impl<T: Validate> ValidatedJson<T> {
    /// Accepts a JSON body if it is valid.
    pub fn check(value: T) -> (r: Result<ValidatedJson<T>, AppError>)
        ensures
            r is Ok <==> value.valid(),
            r matches Ok(v) ==> v.0 == value,
            r matches Err(e) ==> e is Validation,
    {
        match value.validate() {
            Ok(()) => Ok(ValidatedJson(value)),
            Err(e) => Err(e),
        }
    }
}

/// A paging window: `skip` at least 0 and `limit` in 1..=50.
pub open spec fn paging_valid(skip: i64, limit: i64) -> bool {
    skip >= 0 && 1 <= limit <= 50
}

/// A failed range rule of a field as texts: its bounds where given, then the
/// value found.
pub open spec fn range_failure_view(field: Seq<char>, min: Option<i64>, max: Option<i64>, value: i64) -> (
    Seq<char>,
    Seq<char>,
    Seq<(Seq<char>, i64)>,
) {
    let bounds = match min {
        Some(m) => seq![("min"@, m)],
        None => Seq::empty(),
    } + match max {
        Some(m) => seq![("max"@, m)],
        None => Seq::empty(),
    };
    (field, "range"@, bounds.push(("value"@, value)))
}

/// A failed range rule of a field: its bounds where given, and the value found.
pub fn range_failure(field: &'static str, min: Option<i64>, max: Option<i64>, value: i64) -> (r: FieldFailure)
    ensures
        failure_view(r) == range_failure_view(field@, min, max, value),
        forall|j: int| 0 <= j < r.params@.len() ==> plain_name((#[trigger] r.params@[j]).0@),
{
    let mut params: Vec<(&'static str, i64)> = Vec::new();
    if let Some(m) = min {
        params.push(("min", m));
    }
    if let Some(m) = max {
        params.push(("max", m));
    }
    params.push(("value", value));
    let r = FieldFailure { field, code: "range", params };
    proof {
        reveal_strlit("min");
        reveal_strlit("max");
        reveal_strlit("value");
        reveal_strlit("range");
        assert(failure_view(r).2 =~= range_failure_view(field@, min, max, value).2);
        assert forall|j: int| 0 <= j < r.params@.len() implies plain_name((#[trigger] r.params@[j]).0@) by {
            let n = r.params@[j].0@;
            assert(n == "min"@ || n == "max"@ || n == "value"@);
        }
    }
    r
}

/// The failed field rules of a paging window, in field order: `skip` at
/// least 0, `limit` in 1..=50.
pub open spec fn paging_failures_spec(skip: i64, limit: i64) -> Seq<(Seq<char>, Seq<char>, Seq<(Seq<char>, i64)>)> {
    (if skip < 0 {
        seq![range_failure_view("skip"@, Some(0), None, skip)]
    } else {
        Seq::empty()
    }) + (if limit < 1 || limit > 50 {
        seq![range_failure_view("limit"@, Some(1), Some(50), limit)]
    } else {
        Seq::empty()
    })
}

/// The failed field rules of a paging window, in field order.
pub fn paging_failures(skip: i64, limit: i64) -> (r: Vec<FieldFailure>)
    ensures
        r@.len() == 0 <==> paging_valid(skip, limit),
        failures_view(r@) == paging_failures_spec(skip, limit),
        failures_plain(r@),
{
    let mut failures: Vec<FieldFailure> = Vec::new();
    if skip < 0 {
        failures.push(range_failure("skip", Some(0), None, skip));
    }
    if limit < 1 || limit > 50 {
        failures.push(range_failure("limit", Some(1), Some(50), limit));
    }
    proof {
        reveal_strlit("skip");
        reveal_strlit("limit");
        assert(failures_view(failures@) =~= paging_failures_spec(skip, limit));
    }
    failures
}

/// The message of a query whose target type and target values do not come together.
pub fn target_pair_message() -> (r: &'static str)
    ensures
        r@ == "targetType and targetValues query parameter must either both be set or not set at the same time."@,
{
    "targetType and targetValues query parameter must either both be set or not set at the same time."
}

/// The failed rules of a query: those of its paging window, or, where none
/// failed and a target type comes without values or the other way round, the
/// rule of the whole query, whose code is its message.
pub open spec fn paged_target_failures(skip: i64, limit: i64, has_type: bool, has_values: bool) -> Seq<
    (Seq<char>, Seq<char>, Seq<(Seq<char>, i64)>),
> {
    if paging_failures_spec(skip, limit).len() == 0 && has_type != has_values {
        seq![("__all__"@, "targetType and targetValues query parameter must either both be set or not set at the same time."@, Seq::empty())]
    } else {
        paging_failures_spec(skip, limit)
    }
}

/// Validates a paging window and, where no field failed, that a target type
/// comes with target values and the other way round.
pub fn validate_paged_targets(skip: i64, limit: i64, has_type: bool, has_values: bool) -> (r:
    Result<(), AppError>)
    ensures
        r is Ok <==> (paging_valid(skip, limit) && has_type == has_values),
        r matches Err(e) ==> e matches AppError::Validation(m) && shows_fields(
            failure_fields(paged_target_failures(skip, limit, has_type, has_values)),
            m@,
        ),
{
    let mut failures = paging_failures(skip, limit);
    if failures.len() == 0 && has_type != has_values {
        let ghost before = failures@;
        let whole = FieldFailure { field: "__all__", code: target_pair_message(), params: Vec::new() };
        failures.push(whole);
        proof {
            reveal_strlit("__all__");
            assert(before.len() == 0);
            assert(paging_failures_spec(skip, limit).len() == 0);
            assert(failure_view(whole).2 =~= Seq::<(Seq<char>, i64)>::empty());
            assert(failures@ =~= seq![whole]);
            assert(failures_view(failures@) =~= seq![failure_view(whole)]);
            assert(failures_view(failures@) =~= paged_target_failures(skip, limit, has_type, has_values));
        }
    }
    if failures.len() == 0 {
        Ok(())
    } else {
        Err(validation_error(&failures))
    }
}

} // verus!
