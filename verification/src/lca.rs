//! The activity model of a life cycle assessment and the errors of its
//! computation.
use vstd::prelude::*;

verus! {

/// A database and its version, as an exchange names it.
#[derive(Debug)]
pub struct DatabaseInfos {
    pub name: String,
    pub version: String,
}

impl DatabaseInfos {
    /// The identifier of the database: `<name>_<version>`.
    pub fn to_string(&self) -> (r: String)
        ensures
            r@ == self.name@ + "_"@ + self.version@,
    {
        let mut r = self.name.clone();
        r.append("_");
        r.append(self.version.as_str());
        r
    }
}

/// What identifies an activity or an exchange: its name, optional location
/// and unit filters, the amount, and where it was written (`L`).
#[derive(Debug)]
pub struct ActivityInfos<L, A> {
    pub name: String,
    pub location: Option<String>,
    pub unit: Option<String>,
    pub amount: A,
    pub locator: L,
}

/// An exchange either comes from a database or is an activity of its own.
#[derive(Debug)]
pub enum ExchangeLink<L, A> {
    Database { database_infos: DatabaseInfos, activity_infos: ActivityInfos<L, A> },
    Activity(Activity<L, A>),
}

/// An activity and the exchanges it is made of.
#[derive(Debug)]
pub struct Activity<L, A> {
    pub activity_infos: ActivityInfos<L, A>,
    pub exchanges: Vec<ExchangeLink<L, A>>,
}

/// Errors of a life cycle assessment, located by `L`.
#[derive(Debug)]
pub enum ComputError<L> {
    /// An error of the engine, by its message.
    OdysseyError(String),
    /// An input or output error, by its message.
    IoError(String),
    /// An error of the search index, by its message.
    SearchError(String),
    NameError(L),
    DatabaseError(L),
    LocationError(L),
    UnitError(L),
    MissingExchange(L),
    MultipleExchange(L),
    UnknownDatabase(L),
    InternalError(L),
}

/// A database exchange reached from an activity, with the amounts of the
/// activities that lead to it, outermost first: its reference flow is the
/// product of those amounts, its own amount and its unit conversion factor.
pub struct Demand<'a, L, A> {
    pub database_infos: &'a DatabaseInfos,
    pub activity_infos: &'a ActivityInfos<L, A>,
    pub factors: Vec<A>,
}

/// The database exchanges reached from `e`, depth first in the order the
/// exchanges are written, with the amounts of the activities on the way.
pub open spec fn exchange_demands<L, A>(e: ExchangeLink<L, A>, factors: Seq<A>) -> Seq<
    (DatabaseInfos, ActivityInfos<L, A>, Seq<A>),
>
    decreases e, 1nat,
{
    match e {
        ExchangeLink::Database { database_infos, activity_infos } => seq![
            (database_infos, activity_infos, factors),
        ],
        ExchangeLink::Activity(a) => exchanges_demands(
            a.exchanges@,
            factors.push(a.activity_infos.amount),
        ),
    }
}

/// The database exchanges reached from the exchanges `es`, in order.
pub open spec fn exchanges_demands<L, A>(es: Seq<ExchangeLink<L, A>>, factors: Seq<A>) -> Seq<
    (DatabaseInfos, ActivityInfos<L, A>, Seq<A>),
>
    decreases es, 0nat,
{
    if es.len() == 0 {
        Seq::empty()
    } else {
        exchanges_demands(es.drop_last(), factors) + exchange_demands(es.last(), factors)
    }
}

/// What a list of demands stands for.
pub open spec fn demands_view<'a, L, A>(out: Seq<Demand<'a, L, A>>) -> Seq<
    (DatabaseInfos, ActivityInfos<L, A>, Seq<A>),
> {
    out.map_values(|d: Demand<'a, L, A>| (*d.database_infos, *d.activity_infos, d.factors@))
}

/// A copy of `v`.
fn copy_amounts<A: Copy>(v: &Vec<A>) -> (r: Vec<A>)
    ensures
        r@ == v@,
{
    let mut r: Vec<A> = Vec::new();
    let mut i: usize = 0;
    while i < v.len()
        invariant
            i <= v@.len(),
            r@ == v@.take(i as int),
        decreases v@.len() - i,
    {
        r.push(v[i]);
        i = i + 1;
        assert(r@ =~= v@.take(i as int));
    }
    assert(v@.take(v@.len() as int) =~= v@);
    r
}

/// Appends the database exchanges reached from `exchange` to `out`.
fn collect_exchange<'a, L, A: Copy>(
    exchange: &'a ExchangeLink<L, A>,
    factors: &Vec<A>,
    out: &mut Vec<Demand<'a, L, A>>,
)
    ensures
        demands_view(final(out)@) == demands_view(old(out)@) + exchange_demands(
            *exchange,
            factors@,
        ),
    decreases exchange, 1nat,
{
    match exchange {
        ExchangeLink::Database { database_infos, activity_infos } => {
            out.push(Demand { database_infos, activity_infos, factors: copy_amounts(factors) });
        },
        ExchangeLink::Activity(a) => {
            let mut inner = copy_amounts(factors);
            inner.push(a.activity_infos.amount);
            collect_exchanges(&a.exchanges, &inner, out);
        },
    }
}

/// Appends the database exchanges reached from `exchanges` to `out`.
fn collect_exchanges<'a, L, A: Copy>(
    exchanges: &'a Vec<ExchangeLink<L, A>>,
    factors: &Vec<A>,
    out: &mut Vec<Demand<'a, L, A>>,
)
    ensures
        demands_view(final(out)@) == demands_view(old(out)@) + exchanges_demands(
            exchanges@,
            factors@,
        ),
    decreases exchanges, 0nat,
{
    let ghost start = demands_view(out@);
    let mut i: usize = 0;
    assert(exchanges@.take(0) =~= Seq::<ExchangeLink<L, A>>::empty());
    assert(start =~= start + exchanges_demands(exchanges@.take(0), factors@));
    while i < exchanges.len()
        invariant
            i <= exchanges@.len(),
            demands_view(out@) == start + exchanges_demands(exchanges@.take(i as int), factors@),
        decreases exchanges@.len() - i,
    {
        collect_exchange(&exchanges[i], factors, out);
        assert(exchanges@.take(i + 1).drop_last() =~= exchanges@.take(i as int));
        assert(exchanges@.take(i + 1).last() == exchanges@[i as int]);
        i = i + 1;
        assert(demands_view(out@) =~= start + exchanges_demands(exchanges@.take(i as int), factors@));
    }
    assert(exchanges@.take(exchanges@.len() as int) =~= exchanges@);
}

/// The database exchanges reached from `activity`, depth first in the
/// order its exchanges are written, each with the amounts of the nested
/// activities that lead to it (the activity's own amount is not one).
pub fn get_activity_reference_flows<'a, L, A: Copy>(activity: &'a Activity<L, A>) -> (r: Vec<
    Demand<'a, L, A>,
>)
    ensures
        demands_view(r@) == exchanges_demands(activity.exchanges@, Seq::<A>::empty()),
{
    let mut out: Vec<Demand<'a, L, A>> = Vec::new();
    let factors: Vec<A> = Vec::new();
    collect_exchanges(&activity.exchanges, &factors, &mut out);
    assert(demands_view(Seq::<Demand<'a, L, A>>::empty()) =~= Seq::empty());
    out
}

/// The database exchanges reached from `exchange`, depth first, each with
/// the amounts of the nested activities that lead to it.
pub fn get_exchange_reference_flow<'a, L, A: Copy>(exchange: &'a ExchangeLink<L, A>) -> (r: Vec<
    Demand<'a, L, A>,
>)
    ensures
        demands_view(r@) == exchange_demands(*exchange, Seq::<A>::empty()),
{
    let mut out: Vec<Demand<'a, L, A>> = Vec::new();
    let factors: Vec<A> = Vec::new();
    collect_exchange(exchange, &factors, &mut out);
    assert(demands_view(Seq::<Demand<'a, L, A>>::empty()) =~= Seq::empty());
    out
}

/// The identifier of a database: `<name>_<version>`.
pub open spec fn database_id(d: DatabaseInfos) -> Seq<char> {
    d.name@ + "_"@ + d.version@
}

/// The first database exchange of each database, in the order in which
/// the databases are first reached.
pub open spec fn first_requests<L, A>(ds: Seq<(DatabaseInfos, ActivityInfos<L, A>, Seq<A>)>) -> Seq<
    (DatabaseInfos, ActivityInfos<L, A>),
>
    decreases ds.len(),
{
    if ds.len() == 0 {
        Seq::empty()
    } else {
        let prev = first_requests(ds.drop_last());
        let d = ds.last();
        if exists|i: int| 0 <= i < prev.len() && database_id(#[trigger] prev[i].0) == database_id(d.0) {
            prev
        } else {
            prev.push((d.0, d.1))
        }
    }
}

/// A database to load, by its identifier, and the first exchange that
/// needs it.
pub struct DatabaseRequest<'a, L, A> {
    pub id: String,
    pub database_infos: &'a DatabaseInfos,
    pub activity_infos: &'a ActivityInfos<L, A>,
}

/// The databases that `activity` needs, each once, in the order in which
/// its exchanges first reach them, depth first; each comes with the first
/// exchange that reaches it, whose locator reports a database that fails
/// to load.
pub fn list_databases<'a, L, A: Copy>(activity: &'a Activity<L, A>) -> (r: Vec<
    DatabaseRequest<'a, L, A>,
>)
    ensures
        r@.len() == first_requests(exchanges_demands(activity.exchanges@, Seq::<A>::empty())).len(),
        forall|i: int|
            0 <= i < r@.len() ==> {
                let req = first_requests(exchanges_demands(activity.exchanges@, Seq::<A>::empty()))[i];
                &&& *(#[trigger] r@[i]).database_infos == req.0
                &&& *r@[i].activity_infos == req.1
                &&& r@[i].id@ == database_id(req.0)
            },
{
    let demands = get_activity_reference_flows(activity);
    let ghost ds = demands_view(demands@);
    let mut r: Vec<DatabaseRequest<'a, L, A>> = Vec::new();
    let mut k: usize = 0;
    while k < demands.len()
        invariant
            k <= demands@.len(),
            ds == demands_view(demands@),
            r@.len() == first_requests(ds.take(k as int)).len(),
            forall|i: int|
                0 <= i < r@.len() ==> {
                    let req = first_requests(ds.take(k as int))[i];
                    &&& *(#[trigger] r@[i]).database_infos == req.0
                    &&& *r@[i].activity_infos == req.1
                    &&& r@[i].id@ == database_id(req.0)
                },
        decreases demands@.len() - k,
    {
        let d = &demands[k];
        let id = d.database_infos.to_string();
        let mut seen = false;
        let mut j: usize = 0;
        while j < r.len()
            invariant
                j <= r@.len(),
                seen == (exists|i: int| 0 <= i < j && r@[i].id@ == id@),
            decreases r@.len() - j,
        {
            if r[j].id == id {
                seen = true;
            }
            j = j + 1;
        }
        let ghost prev = first_requests(ds.take(k as int));
        assert(ds.take(k + 1).drop_last() =~= ds.take(k as int));
        assert(ds.take(k + 1).last() == ds[k as int]);
        assert(ds[k as int].0 == *d.database_infos);
        assert(ds[k as int].1 == *d.activity_infos);
        if !seen {
            assert forall|i: int| 0 <= i < prev.len() implies database_id(#[trigger] prev[i].0)
                != database_id(ds[k as int].0) by {
                assert(r@[i].id@ == database_id(prev[i].0));
            }
            r.push(
                DatabaseRequest {
                    id,
                    database_infos: d.database_infos,
                    activity_infos: d.activity_infos,
                },
            );
        } else {
            proof {
                let i = choose|i: int| 0 <= i < r@.len() && r@[i].id@ == id@;
                assert(database_id(prev[i].0) == database_id(ds[k as int].0));
            }
        }
        k = k + 1;
    }
    assert(ds.take(demands@.len() as int) =~= ds);
    r
}

/// A search of the inventory index: an exchange name and optional
/// database, location and unit filters.
#[derive(Debug)]
pub struct SearchQuery {
    pub name: String,
    pub database: Option<String>,
    pub location: Option<String>,
    pub unit: Option<String>,
}

/// Where the diagnosis of an exchange that was not found stands: the next
/// search to run, or the error to report.
#[derive(Debug)]
pub enum Diagnosis {
    Search(SearchQuery),
    NameError,
    DatabaseError,
    LocationError,
    UnitError,
    MissingExchange,
}

/// `q` searches `name` with these filters.
pub open spec fn is_query(
    q: SearchQuery,
    name: Seq<char>,
    database: Option<Seq<char>>,
    location: Option<Seq<char>>,
    unit: Option<Seq<char>>,
) -> bool {
    &&& q.name@ == name
    &&& match (q.database, database) {
        (Some(a), Some(b)) => a@ == b,
        (None, None) => true,
        _ => false,
    }
    &&& match (q.location, location) {
        (Some(a), Some(b)) => a@ == b,
        (None, None) => true,
        _ => false,
    }
    &&& match (q.unit, unit) {
        (Some(a), Some(b)) => a@ == b,
        (None, None) => true,
        _ => false,
    }
}

/// The view of an optional text.
pub open spec fn text_of(o: Option<String>) -> Option<Seq<char>> {
    match o {
        Some(s) => Some(s@),
        None => None,
    }
}

/// `r` is the next step of diagnosing why the exchange `a` of database `d`
/// was not found, given whether each search run so far found anything.
/// The searches are, in order: the name alone; the name in the database;
/// then the name in the database at the exchange's location, if it gives
/// one; then with its unit, if it gives one.  The first search that finds
/// nothing names the error; when all find something the exchange is
/// reported missing.
pub open spec fn diagnosis_step<L, A>(
    r: Diagnosis,
    d: DatabaseInfos,
    a: ActivityInfos<L, A>,
    found: Seq<bool>,
) -> bool {
    let db = Some(database_id(d));
    let loc_at: int = 2;
    let unit_at: int = if a.location is Some { 3 } else { 2 };
    if found.len() == 0 {
        r matches Diagnosis::Search(q) && is_query(q, a.name@, None, None, None)
    } else if !found[0] {
        r is NameError
    } else if found.len() == 1 {
        r matches Diagnosis::Search(q) && is_query(q, a.name@, db, None, None)
    } else if !found[1] {
        r is DatabaseError
    } else if a.location is Some && found.len() == loc_at {
        r matches Diagnosis::Search(q) && is_query(q, a.name@, db, text_of(a.location), None)
    } else if a.location is Some && !found[loc_at] {
        r is LocationError
    } else if a.unit is Some && found.len() == unit_at {
        r matches Diagnosis::Search(q) && is_query(q, a.name@, db, None, text_of(a.unit))
    } else if a.unit is Some && !found[unit_at] {
        r is UnitError
    } else {
        r is MissingExchange
    }
}

/// A copy of an optional text.
fn copy_text(o: &Option<String>) -> (r: Option<String>)
    ensures
        r == *o,
{
    match o {
        Some(s) => Some(s.clone()),
        None => None,
    }
}

/// The next step of diagnosing why the exchange `activity_infos` of
/// `database_infos` was not found, given whether each search run so far
/// (in the order this function asked for them) found anything.
pub fn diagnose_missing_exchange_error<L, A>(
    database_infos: &DatabaseInfos,
    activity_infos: &ActivityInfos<L, A>,
    found: &Vec<bool>,
) -> (r: Diagnosis)
    ensures
        diagnosis_step(r, *database_infos, *activity_infos, found@),
{
    let name = &activity_infos.name;
    let n = found.len();
    if n == 0 {
        return Diagnosis::Search(
            SearchQuery { name: name.clone(), database: None, location: None, unit: None },
        );
    }
    if !found[0] {
        return Diagnosis::NameError;
    }
    if n == 1 {
        return Diagnosis::Search(
            SearchQuery {
                name: name.clone(),
                database: Some(database_infos.to_string()),
                location: None,
                unit: None,
            },
        );
    }
    if !found[1] {
        return Diagnosis::DatabaseError;
    }
    let mut next: usize = 2;
    if activity_infos.location.is_some() {
        if n == 2 {
            return Diagnosis::Search(
                SearchQuery {
                    name: name.clone(),
                    database: Some(database_infos.to_string()),
                    location: copy_text(&activity_infos.location),
                    unit: None,
                },
            );
        }
        if !found[2] {
            return Diagnosis::LocationError;
        }
        next = 3;
    }
    if activity_infos.unit.is_some() {
        if n == next {
            return Diagnosis::Search(
                SearchQuery {
                    name: name.clone(),
                    database: Some(database_infos.to_string()),
                    location: None,
                    unit: copy_text(&activity_infos.unit),
                },
            );
        }
        if !found[next] {
            return Diagnosis::UnitError;
        }
    }
    Diagnosis::MissingExchange
}

impl Diagnosis {
    /// The error this step reports, located at `locator`; `None` while a
    /// search remains to be run.
    pub fn into_error<L>(self, locator: L) -> (r: Option<ComputError<L>>)
        ensures
            match self {
                Diagnosis::Search(_) => r is None,
                Diagnosis::NameError => r == Some(ComputError::NameError(locator)),
                Diagnosis::DatabaseError => r == Some(ComputError::DatabaseError(locator)),
                Diagnosis::LocationError => r == Some(ComputError::LocationError(locator)),
                Diagnosis::UnitError => r == Some(ComputError::UnitError(locator)),
                Diagnosis::MissingExchange => r == Some(ComputError::MissingExchange(locator)),
            },
    {
        match self {
            Diagnosis::Search(_) => None,
            Diagnosis::NameError => Some(ComputError::NameError(locator)),
            Diagnosis::DatabaseError => Some(ComputError::DatabaseError(locator)),
            Diagnosis::LocationError => Some(ComputError::LocationError(locator)),
            Diagnosis::UnitError => Some(ComputError::UnitError(locator)),
            Diagnosis::MissingExchange => Some(ComputError::MissingExchange(locator)),
        }
    }
}

/// What the search for the entry of a database exchange leads to, by the
/// number of entries found: none calls for a diagnosis, one is the entry,
/// more is an ambiguous exchange.
#[derive(PartialEq, Eq, Structural, Clone, Copy, Debug)]
pub enum Lookup {
    Diagnose,
    Found,
    Ambiguous,
}

/// What finding `count` entries for a database exchange leads to.
pub fn classify_search(count: usize) -> (r: Lookup)
    ensures
        count == 0 ==> r == Lookup::Diagnose,
        count == 1 ==> r == Lookup::Found,
        count > 1 ==> r == Lookup::Ambiguous,
{
    if count == 0 {
        Lookup::Diagnose
    } else if count == 1 {
        Lookup::Found
    } else {
        Lookup::Ambiguous
    }
}

/// The database exchanges reached from a list of exchanges are those of
/// its first part followed by those of the rest: the reference flows of an
/// activity are the sum of those of its exchanges taken one by one.
pub proof fn law_demands_split<L, A>(
    first: Seq<ExchangeLink<L, A>>,
    rest: Seq<ExchangeLink<L, A>>,
    factors: Seq<A>,
)
    ensures
        exchanges_demands(first + rest, factors) == exchanges_demands(first, factors)
            + exchanges_demands(rest, factors),
    decreases rest.len(),
{
    if rest.len() == 0 {
        assert(first + rest =~= first);
        assert(exchanges_demands(first, factors) + exchanges_demands(rest, factors) =~= exchanges_demands(first, factors));
    } else {
        law_demands_split(first, rest.drop_last(), factors);
        assert((first + rest).drop_last() =~= first + rest.drop_last());
        assert((first + rest).last() == rest.last());
        assert(exchanges_demands(first + rest, factors) =~= exchanges_demands(first, factors)
            + exchanges_demands(rest, factors));
    }
}

/// The searches run in a fixed order, each named error coming from the
/// first search that finds nothing: first the name alone (nothing found: a
/// name error), then the name in the database (a database error), then,
/// when the exchange gives a location, the name in the database at that
/// location (a location error).
pub proof fn law_diagnosis_order<L, A>(d: DatabaseInfos, a: ActivityInfos<L, A>, r: Diagnosis, found: Seq<bool>)
    requires
        diagnosis_step(r, d, a, found),
    ensures
        found == Seq::<bool>::empty() ==> (r matches Diagnosis::Search(q) && is_query(q, a.name@, None, None, None)),
        found == seq![false] ==> r is NameError,
        found == seq![true] ==> (r matches Diagnosis::Search(q) && is_query(
            q,
            a.name@,
            Some(database_id(d)),
            None,
            None,
        )),
        found == seq![true, false] ==> r is DatabaseError,
        a.location is Some && found == seq![true, true] ==> (r matches Diagnosis::Search(q) && is_query(
            q,
            a.name@,
            Some(database_id(d)),
            text_of(a.location),
            None,
        )),
        a.location is Some && found == seq![true, true, false] ==> r is LocationError,
        a.location is None && a.unit is None && found == seq![true, true] ==> r is MissingExchange,
{
}

/// The unit of an exchange is checked whether or not the exchange gives a
/// location: once the name, the name in the database and (when a location
/// is given) the name at that location were all found, the next search is
/// the name in the database filtered by the unit, and when that search
/// finds nothing the error reported is a unit error.
pub proof fn law_unit_checked<L, A>(
    d: DatabaseInfos,
    a: ActivityInfos<L, A>,
    next: Diagnosis,
    after_miss: Diagnosis,
)
    requires
        a.unit is Some,
        diagnosis_step(
            next,
            d,
            a,
            if a.location is Some { seq![true, true, true] } else { seq![true, true] },
        ),
        diagnosis_step(
            after_miss,
            d,
            a,
            if a.location is Some { seq![true, true, true, false] } else { seq![true, true, false] },
        ),
    ensures
        next matches Diagnosis::Search(q) && is_query(
            q,
            a.name@,
            Some(database_id(d)),
            None,
            text_of(a.unit),
        ),
        after_miss is UnitError,
{
}

/// `p` is a prefix of `s`.
pub open spec fn starts_with<A>(s: Seq<A>, p: Seq<A>) -> bool {
    p.len() <= s.len() && s.subrange(0, p.len() as int) == p
}

proof fn lemma_push_prefix<A>(s: Seq<A>, p: Seq<A>, x: A)
    requires
        starts_with(s, p.push(x)),
    ensures
        starts_with(s, p),
{
    assert(s.subrange(0, p.len() as int) =~= s.subrange(0, p.len() as int + 1).subrange(0, p.len() as int));
    assert(p.push(x).subrange(0, p.len() as int) =~= p);
}

proof fn lemma_exchange_factors<L, A>(e: ExchangeLink<L, A>, f: Seq<A>)
    ensures
        forall|k: int|
            0 <= k < exchange_demands(e, f).len() ==> starts_with(
                (#[trigger] exchange_demands(e, f)[k]).2,
                f,
            ),
        e is Activity ==> forall|k: int|
            0 <= k < exchange_demands(e, f).len() ==> starts_with(
                (#[trigger] exchange_demands(e, f)[k]).2,
                f.push(e->0.activity_infos.amount),
            ),
    decreases e, 1nat,
{
    match e {
        ExchangeLink::Database { database_infos, activity_infos } => {
            assert(f.subrange(0, f.len() as int) =~= f);
        },
        ExchangeLink::Activity(a) => {
            let g = f.push(a.activity_infos.amount);
            lemma_exchanges_factors(a.exchanges@, g);
            assert(exchange_demands(e, f) == exchanges_demands(a.exchanges@, g));
            assert forall|k: int| 0 <= k < exchange_demands(e, f).len() implies starts_with(
                (#[trigger] exchange_demands(e, f)[k]).2,
                f,
            ) by {
                lemma_push_prefix(exchange_demands(e, f)[k].2, f, a.activity_infos.amount);
            }
        },
    }
}

proof fn lemma_exchanges_factors<L, A>(es: Seq<ExchangeLink<L, A>>, f: Seq<A>)
    ensures
        forall|k: int|
            0 <= k < exchanges_demands(es, f).len() ==> starts_with(
                (#[trigger] exchanges_demands(es, f)[k]).2,
                f,
            ),
    decreases es, 0nat,
{
    if es.len() > 0 {
        lemma_exchanges_factors(es.drop_last(), f);
        lemma_exchange_factors(es.last(), f);
        let front = exchanges_demands(es.drop_last(), f);
        let back = exchange_demands(es.last(), f);
        assert forall|k: int| 0 <= k < exchanges_demands(es, f).len() implies starts_with(
            (#[trigger] exchanges_demands(es, f)[k]).2,
            f,
        ) by {
            if k < front.len() {
                assert(exchanges_demands(es, f)[k] == front[k]);
            } else {
                assert(exchanges_demands(es, f)[k] == back[k - front.len()]);
            }
        }
    }
}

proof fn lemma_database_member<L, A>(es: Seq<ExchangeLink<L, A>>, g: Seq<A>, i: int)
    requires
        0 <= i < es.len(),
        es[i] is Database,
    ensures
        exists|k: int|
            0 <= k < exchanges_demands(es, g).len() && #[trigger] exchanges_demands(es, g)[k] == (
                es[i]->database_infos,
                es[i]->activity_infos,
                g,
            ),
    decreases es.len(),
{
    let front = exchanges_demands(es.drop_last(), g);
    assert(exchanges_demands(es, g) == front + exchange_demands(es.last(), g));
    if i == es.len() - 1 {
        assert(es.last() == es[i]);
        assert(exchange_demands(es.last(), g) == seq![(es[i]->database_infos, es[i]->activity_infos, g)]);
        assert(exchanges_demands(es, g)[front.len() as int] == (
            es[i]->database_infos,
            es[i]->activity_infos,
            g,
        ));
    } else {
        assert(es.drop_last()[i] == es[i]);
        lemma_database_member(es.drop_last(), g, i);
        let k = choose|k: int|
            0 <= k < front.len() && #[trigger] front[k] == (
                es[i]->database_infos,
                es[i]->activity_infos,
                g,
            );
        assert(exchanges_demands(es, g)[k] == front[k]);
    }
}

/// The amounts of the activities on the way to a database exchange come
/// outermost first: every exchange reached under the amounts `factors`
/// carries `factors` followed by the amounts of the activities nested
/// below; through a nested activity, `factors` followed by that activity's
/// own amount; and a database exchange written directly in a nested
/// activity carries exactly `factors` and that activity's amount, so that
/// its reference flow multiplies every enclosing amount.
pub proof fn law_nested_factors<L, A>(e: ExchangeLink<L, A>, factors: Seq<A>)
    ensures
        e matches ExchangeLink::Database { database_infos, activity_infos } ==> exchange_demands(
            e,
            factors,
        ) == seq![(database_infos, activity_infos, factors)],
        forall|k: int|
            0 <= k < exchange_demands(e, factors).len() ==> starts_with(
                (#[trigger] exchange_demands(e, factors)[k]).2,
                factors,
            ),
        e matches ExchangeLink::Activity(a) ==> {
            &&& forall|k: int|
                0 <= k < exchange_demands(e, factors).len() ==> starts_with(
                    (#[trigger] exchange_demands(e, factors)[k]).2,
                    factors.push(a.activity_infos.amount),
                )
            &&& forall|i: int|
                0 <= i < a.exchanges@.len() && (#[trigger] a.exchanges@[i]) is Database ==> exists|k: int|
                    0 <= k < exchange_demands(e, factors).len() && #[trigger] exchange_demands(
                        e,
                        factors,
                    )[k] == (
                        a.exchanges@[i]->database_infos,
                        a.exchanges@[i]->activity_infos,
                        factors.push(a.activity_infos.amount),
                    )
        },
{
    lemma_exchange_factors(e, factors);
    if let ExchangeLink::Activity(a) = e {
        assert forall|i: int|
            0 <= i < a.exchanges@.len() && (#[trigger] a.exchanges@[i]) is Database implies exists|k: int|
                0 <= k < exchange_demands(e, factors).len() && #[trigger] exchange_demands(
                    e,
                    factors,
                )[k] == (
                    a.exchanges@[i]->database_infos,
                    a.exchanges@[i]->activity_infos,
                    factors.push(a.activity_infos.amount),
                ) by {
            lemma_database_member(a.exchanges@, factors.push(a.activity_infos.amount), i);
            assert(exchange_demands(e, factors) == exchanges_demands(
                a.exchanges@,
                factors.push(a.activity_infos.amount),
            ));
        }
    }
}

/// Every database that an activity reaches is loaded exactly once: the
/// requests have distinct identifiers, each is the first exchange of its
/// database, and every database exchange has its database among them.
#[verifier::spinoff_prover]
#[verifier::rlimit(40)]
pub proof fn law_first_requests<L, A>(ds: Seq<(DatabaseInfos, ActivityInfos<L, A>, Seq<A>)>)
    ensures
        forall|k: int, l: int|
            0 <= k < l < first_requests(ds).len() ==> database_id(
                (#[trigger] first_requests(ds)[k]).0,
            ) != database_id((#[trigger] first_requests(ds)[l]).0),
        forall|i: int|
            0 <= i < ds.len() ==> exists|k: int|
                0 <= k < first_requests(ds).len() && database_id(
                    (#[trigger] first_requests(ds)[k]).0,
                ) == database_id((#[trigger] ds[i]).0),
        forall|k: int|
            0 <= k < first_requests(ds).len() ==> exists|i: int|
                0 <= i < ds.len() && (#[trigger] first_requests(ds)[k]).0 == (#[trigger] ds[i]).0
                    && first_requests(ds)[k].1 == ds[i].1,
    decreases ds.len(),
{
    if ds.len() > 0 {
        let prev = first_requests(ds.drop_last());
        law_first_requests(ds.drop_last());
        let d = ds.last();
        let fr = first_requests(ds);
        assert forall|i: int| 0 <= i < ds.len() implies exists|k: int|
            0 <= k < fr.len() && database_id((#[trigger] fr[k]).0) == database_id(
                (#[trigger] ds[i]).0,
            ) by {
            if i < ds.len() - 1 {
                assert(ds[i] == ds.drop_last()[i]);
                let k = choose|k: int|
                    0 <= k < prev.len() && database_id((#[trigger] prev[k]).0) == database_id(
                        (#[trigger] ds.drop_last()[i]).0,
                    );
                assert(fr[k] == prev[k]);
            } else if exists|j: int| 0 <= j < prev.len() && database_id(#[trigger] prev[j].0) == database_id(d.0) {
                let j = choose|j: int| 0 <= j < prev.len() && database_id(#[trigger] prev[j].0) == database_id(d.0);
                assert(fr[j] == prev[j]);
            } else {
                assert(fr[fr.len() - 1] == (d.0, d.1));
            }
        }
        assert forall|k: int| 0 <= k < fr.len() implies exists|i: int|
            0 <= i < ds.len() && (#[trigger] fr[k]).0 == (#[trigger] ds[i]).0 && fr[k].1 == ds[i].1 by {
            if k < prev.len() {
                let i = choose|i: int|
                    0 <= i < ds.drop_last().len() && (#[trigger] prev[k]).0 == (#[trigger] ds.drop_last()[i]).0
                        && prev[k].1 == ds.drop_last()[i].1;
                assert(ds[i] == ds.drop_last()[i]);
                assert(fr[k] == prev[k]);
            } else {
                assert(fr[k] == (d.0, d.1));
                assert(ds[ds.len() - 1] == d);
            }
        }
    }
}

/// A diagnosis asks for at most four searches: once four have been run it
/// names an error; and when every search it asked for found something, the
/// exchange is reported missing.
pub proof fn law_diagnosis_concludes<L, A>(
    r: Diagnosis,
    d: DatabaseInfos,
    a: ActivityInfos<L, A>,
    found: Seq<bool>,
)
    requires
        diagnosis_step(r, d, a, found),
    ensures
        found.len() >= 4 ==> !(r is Search),
        (found.len() >= 4 && forall|i: int| 0 <= i < found.len() ==> found[i]) ==> r is MissingExchange,
{
}

/// The name of an exchange: that of the database entry or of the activity
/// it links to.
pub open spec fn exchange_name<L, A>(e: ExchangeLink<L, A>) -> String {
    match e {
        ExchangeLink::Database { activity_infos, .. } => activity_infos.name,
        ExchangeLink::Activity(a) => a.activity_infos.name,
    }
}

/// The name of an exchange: that of the database entry or of the activity
/// it links to.
pub fn get_exchange_name<L, A>(exchange: ExchangeLink<L, A>) -> (r: String)
    ensures
        r == exchange_name(exchange),
{
    match exchange {
        ExchangeLink::Database { database_infos: _, activity_infos } => activity_infos.name,
        ExchangeLink::Activity(activity) => activity.activity_infos.name,
    }
}

} // verus!
