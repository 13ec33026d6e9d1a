//! The list envelope and the two helpers that turn a list request into SQL:
//! pagination into `LIMIT`/`OFFSET`, a filter into a `WHERE` clause.

use crate::builder::{byte_len, placeholder, Bound, QueryBuilder, Statement, MAX_VALUE_BYTES};
use serde_json::Number;
use vstd::prelude::*;

verus! {

/// One page of a listing, with the number of rows that match in all.
#[derive(Debug)]
pub struct ListResponse<T> {
    /// The rows of this page, in the order the store returned them.
    pub results: Vec<T>,
    /// How many rows match the filter, whatever the page.
    pub total: u64,
    /// The page that was asked for.
    pub page: u64,
}

/// A request for one page of a listing.
#[derive(Debug)]
pub struct ListRequest<T> {
    /// The criteria that a row must meet, if any.
    pub filter: Option<T>,
    /// The page, counted from 1.
    pub current_page: u64,
    /// The number of rows on a page.
    pub page_size: u64,
}

/// The page of a request that names none.
pub fn default_page() -> (page: u64)
    ensures
        page == 1,
{
    1
}

/// The page size of a request that names none.
pub fn default_page_size() -> (size: u64)
    ensures
        size == 10,
{
    10
}

impl<T> ListResponse<T> {
    /// The envelope for `results`, the rows of page `page`, where the store
    /// counted `total` matching rows.
    pub fn new(results: Vec<T>, total: i64, page: u64) -> (response: Self)
        ensures
            response.results == results,
            response.total == total as u64,
            total >= 0 ==> response.total == total,
            response.page == page,
    {
        ListResponse { results, total: total as u64, page }
    }
}

/// Why a page cannot be turned into `LIMIT` and `OFFSET`.
#[derive(Debug, Clone, Copy, PartialEq, Eq, Structural)]
pub enum PaginationError {
    /// Pages are counted from 1: there is no page 0.
    PageZero,
    /// The limit or the offset does not fit the store's 64-bit signed integer.
    OutOfRange,
}

/// Pagination as `LIMIT` and `OFFSET`.
pub struct Pagination;

impl Pagination {
    /// The most rows that a page holds.
    pub open spec fn limit(page_size: u64) -> int {
        page_size as int
    }

    /// The number of rows that come before page `current_page`.
    pub open spec fn offset(current_page: u64, page_size: u64) -> int {
        (current_page - 1) * page_size
    }

    /// Whether the page can be expressed, and why not.
    pub open spec fn check(current_page: u64, page_size: u64) -> Result<(), PaginationError> {
        if current_page == 0 {
            Err(PaginationError::PageZero)
        } else if Self::limit(page_size) > i64::MAX || Self::offset(current_page, page_size)
            > i64::MAX {
            Err(PaginationError::OutOfRange)
        } else {
            Ok(())
        }
    }

    /// The statement with the page's clauses appended: limit first, then
    /// offset, each as a bound parameter.
    pub open spec fn applied(st: Statement, current_page: u64, page_size: u64) -> Statement {
        st.push(" LIMIT "@).bind(Bound::Int(Self::limit(page_size))).push(" OFFSET "@).bind(
            Bound::Int(Self::offset(current_page, page_size)),
        )
    }

    /// How many of `total` matching rows page `current_page` shows: the rows
    /// from the page's offset on, and no more than its limit.
    pub open spec fn rows_on_page(total: nat, current_page: u64, page_size: u64) -> nat {
        let offset = Self::offset(current_page, page_size);
        let limit = Self::limit(page_size);
        if offset >= total {
            0
        } else if total - offset < limit {
            (total - offset) as nat
        } else {
            limit as nat
        }
    }

    /// How many of `total` matching rows the pages from 1 to `pages` show
    /// together.
    pub open spec fn rows_on_pages(total: nat, pages: u64, page_size: u64) -> nat
        decreases pages,
    {
        if pages == 0 {
            0
        } else {
            Self::rows_on_pages(total, (pages - 1) as u64, page_size) + Self::rows_on_page(
                total,
                pages,
                page_size,
            )
        }
    }

    /// Appends ` LIMIT $n OFFSET $n+1` to the statement and binds to them the
    /// page size and the number of rows before the page.
    ///
    /// Page 0, and a page whose limit or offset exceeds `i64::MAX`, is refused,
    /// and the statement is then left as it was.
    pub fn to_query(current_page: u64, page_size: u64, qb: &mut QueryBuilder) -> (result: Result<
        (),
        PaginationError,
    >)
        requires
            old(qb).is_open(),
        ensures
            result == Self::check(current_page, page_size),
            final(qb).is_open(),
            result is Ok ==> final(qb)@ == Self::applied(old(qb)@, current_page, page_size),
            result is Err ==> *final(qb) == *old(qb),
    {
        if current_page == 0 {
            return Err(PaginationError::PageZero);
        }
        if page_size > 0x7fff_ffff_ffff_ffff {
            return Err(PaginationError::OutOfRange);
        }
        let offset: u64 = match (current_page - 1).checked_mul(page_size) {
            Some(offset) => offset,
            None => {
                return Err(PaginationError::OutOfRange);
            },
        };
        if offset > 0x7fff_ffff_ffff_ffff {
            return Err(PaginationError::OutOfRange);
        }
        let limit: u64 = page_size;
        qb.push(" LIMIT ");
        qb.push_bind_int(limit as i64);
        qb.push(" OFFSET ");
        qb.push_bind_int(offset as i64);
        Ok(())
    }
}

/// The value of one filter field.
#[derive(Debug)]
pub enum FilterValue {
    /// The field is absent: it narrows nothing.
    Null,
    /// A boolean to compare the column with.
    Bool(bool),
    /// A number to compare the column with, as a double.
    Number(Number),
    /// A string to compare the column with.
    String(String),
    /// A list: no scalar, so the field narrows nothing.
    Array,
    /// A nested structure: no scalar, so the field narrows nothing.
    Object,
}

/// One named criterion of a filter.
#[derive(Debug)]
pub struct FilterField {
    /// The column that the field speaks of.
    pub name: String,
    /// What the column is compared with.
    pub value: FilterValue,
}

/// A filter, taken apart into its fields.
#[derive(Debug)]
pub enum FilterPayload {
    /// The named fields, in the order in which the filter declares them.
    Object(Vec<FilterField>),
    /// A payload without named fields; it asks for no `WHERE` clause at all.
    Other,
}

/// One equality that a filter asks for: `column = value`.
pub struct Comparison {
    /// The column's name, as written into the statement.
    pub column: Seq<char>,
    /// The value, as bound to the statement.
    pub value: Bound,
}

impl FilterValue {
    /// The parameter that the value is bound as; `None` for a value that is
    /// absent or no scalar.
    pub open spec fn bound(self) -> Option<Bound> {
        match self {
            FilterValue::Null => None,
            FilterValue::Bool(value) => Some(Bound::Bool(value)),
            FilterValue::Number(value) => Some(Bound::Number(value)),
            FilterValue::String(value) => Some(Bound::Text(value@)),
            FilterValue::Array => None,
            FilterValue::Object => None,
        }
    }

    /// Whether the value, if it is a string, is short enough to be bound.
    pub open spec fn bindable(self) -> bool {
        self matches FilterValue::String(value) ==> byte_len(value@) <= MAX_VALUE_BYTES
    }
}

impl FilterField {
    /// The comparison that the field asks for, if it holds a scalar.
    pub open spec fn comparison(self) -> Option<Comparison> {
        match self.value.bound() {
            Some(value) => Some(Comparison { column: self.name@, value }),
            None => None,
        }
    }
}

/// The comparisons that `fields` ask for, in the order of the fields.
pub open spec fn comparisons(fields: Seq<FilterField>) -> Seq<Comparison> {
    fields.filter_map(|field: FilterField| field.comparison())
}

impl FilterPayload {
    /// The fields of the payload; none where it has no named fields.
    pub open spec fn fields(self) -> Seq<FilterField> {
        match self {
            FilterPayload::Object(fields) => fields@,
            FilterPayload::Other => Seq::empty(),
        }
    }

    /// Whether every string in the payload is short enough to be bound.
    pub open spec fn bindable(self) -> bool {
        forall|i: int|
            0 <= i < self.fields().len() ==> (#[trigger] self.fields()[i]).value.bindable()
    }

    /// Tells whether every string in the payload is short enough to be bound.
    pub fn is_bindable(&self) -> (ok: bool)
        ensures
            ok == self.bindable(),
    {
        match self {
            FilterPayload::Object(fields) => {
                let mut i: usize = 0;
                while i < fields.len()
                    invariant
                        i <= fields.len(),
                        *self == FilterPayload::Object(*fields),
                        forall|j: int| 0 <= j < i ==> (#[trigger] fields@[j]).value.bindable(),
                    decreases fields.len() - i,
                {
                    if let FilterValue::String(value) = &fields[i].value {
                        if value.as_str().len() > MAX_VALUE_BYTES {
                            assert(!self.fields()[i as int].value.bindable());
                            return false;
                        }
                    }
                    i += 1;
                }
                true
            },
            FilterPayload::Other => true,
        }
    }
}

/// A filter as a `WHERE` clause.
pub struct Filter;

impl Filter {
    /// The conjunct for one comparison: ` AND <column> = $<number>`.
    pub open spec fn conjunct(comparison: Comparison, number: nat) -> Seq<char> {
        " AND "@ + comparison.column + " = "@ + placeholder(number)
    }

    /// The conjuncts for `comparisons`, one after the other; the first takes
    /// parameter number `first`, each next one the next number.
    pub open spec fn conjuncts(comparisons: Seq<Comparison>, first: nat) -> Seq<char>
        decreases comparisons.len(),
    {
        if comparisons.len() == 0 {
            Seq::empty()
        } else {
            Self::conjuncts(comparisons.drop_last(), first) + Self::conjunct(
                comparisons.last(),
                (first + comparisons.len() - 1) as nat,
            )
        }
    }

    /// The values of `comparisons`, in their order.
    pub open spec fn values(comparisons: Seq<Comparison>) -> Seq<Bound> {
        comparisons.map_values(|comparison: Comparison| comparison.value)
    }

    /// The filter's clause where its first parameter takes number `first`:
    /// ` WHERE TRUE`, then one conjunct for each field that holds a scalar.
    /// A payload without named fields has no clause.
    pub open spec fn clause(filter: FilterPayload, first: nat) -> Seq<char> {
        match filter {
            FilterPayload::Object(fields) => " WHERE "@ + "TRUE"@ + Self::conjuncts(
                comparisons(fields@),
                first,
            ),
            FilterPayload::Other => Seq::empty(),
        }
    }

    /// The parameters that the filter binds, in the order of its fields.
    pub open spec fn params(filter: FilterPayload) -> Seq<Bound> {
        Self::values(comparisons(filter.fields()))
    }

    /// The statement with the filter's clause appended and its values bound.
    pub open spec fn applied(st: Statement, filter: FilterPayload) -> Statement {
        Statement {
            sql: st.sql + Self::clause(filter, st.params.len() + 1),
            params: st.params + Self::params(filter),
        }
    }

    /// What one more comparison adds to the conjuncts and to the values.
    proof fn lemma_push(comparisons: Seq<Comparison>, last: Comparison, first: nat)
        ensures
            Self::conjuncts(comparisons.push(last), first) == Self::conjuncts(comparisons, first)
                + Self::conjunct(last, first + comparisons.len()),
            Self::values(comparisons.push(last)) == Self::values(comparisons).push(last.value),
    {
        assert(comparisons.push(last).drop_last() == comparisons);
    }

    /// What the field at `i` adds to the comparisons of the fields before it.
    proof fn lemma_step(fields: Seq<FilterField>, i: int)
        requires
            0 <= i < fields.len(),
        ensures
            comparisons(fields.take(i + 1)) == (match fields[i].comparison() {
                Some(comparison) => comparisons(fields.take(i)).push(comparison),
                None => comparisons(fields.take(i)),
            }),
    {
        assert(fields.take(i + 1).drop_last() == fields.take(i));
        assert(fields.take(i + 1).last() == fields[i]);
    }

    /// Appends ` AND <name> = ` to the statement.
    fn push_column(qb: &mut QueryBuilder, name: &str)
        requires
            old(qb).is_open(),
        ensures
            final(qb).is_open(),
            final(qb)@ == old(qb)@.push(" AND "@ + name@ + " = "@),
    {
        qb.push(" AND ");
        qb.push(name);
        qb.push(" = ");
        assert(old(qb)@.sql + " AND "@ + name@ + " = "@ == old(qb)@.sql + (" AND "@ + name@
            + " = "@));
    }

    /// Appends the filter's `WHERE` clause to the statement.
    ///
    /// The clause opens with `TRUE`, so it is valid whatever follows. Each
    /// field that holds a boolean, a number or a string adds
    /// ` AND <name> = $n` and binds its value; an absent field, a list and a
    /// nested structure add nothing. A string of more than `MAX_VALUE_BYTES`
    /// bytes cannot be bound: `is_bindable` tells whether a payload holds one.
    pub fn to_query(qb: &mut QueryBuilder, filter: &FilterPayload)
        requires
            old(qb).is_open(),
            filter.bindable(),
        ensures
            final(qb).is_open(),
            final(qb)@ == Self::applied(old(qb)@, *filter),
    {
        if let FilterPayload::Object(fields) = filter {
            qb.push(" WHERE ");
            qb.push("TRUE");
            let ghost start = qb@;
            let ghost first = start.params.len() + 1;
            let mut i: usize = 0;
            while i < fields.len()
                invariant
                    i <= fields.len(),
                    qb.is_open(),
                    filter.bindable(),
                    *filter == FilterPayload::Object(*fields),
                    first == start.params.len() + 1,
                    qb@.sql == start.sql + Self::conjuncts(
                        comparisons(fields@.take(i as int)),
                        first,
                    ),
                    qb@.params == start.params + Self::values(
                        comparisons(fields@.take(i as int)),
                    ),
                decreases fields.len() - i,
            {
                let field = &fields[i];
                let ghost before = comparisons(fields@.take(i as int));
                proof {
                    Self::lemma_step(fields@, i as int);
                    assert(filter.fields()[i as int].value.bindable());
                    if let Some(comparison) = field.comparison() {
                        Self::lemma_push(before, comparison, first);
                    }
                }
                match &field.value {
                    FilterValue::Null => {},
                    FilterValue::Bool(value) => {
                        Self::push_column(qb, field.name.as_str());
                        qb.push_bind_bool(*value);
                    },
                    FilterValue::Number(value) => {
                        Self::push_column(qb, field.name.as_str());
                        qb.push_bind_number(value);
                    },
                    FilterValue::String(value) => {
                        Self::push_column(qb, field.name.as_str());
                        qb.push_bind_text(value.clone());
                    },
                    FilterValue::Array => {},
                    FilterValue::Object => {},
                }
                i += 1;
            }
            proof {
                assert(fields@.take(fields.len() as int) == fields@);
                assert(qb@.sql == Self::applied(old(qb)@, *filter).sql);
                assert(qb@.params == Self::applied(old(qb)@, *filter).params);
            }
        } else {
            proof {
                assert(comparisons(filter.fields()) == Seq::<Comparison>::empty());
                assert(qb@.sql == Self::applied(old(qb)@, *filter).sql);
                assert(qb@.params == Self::applied(old(qb)@, *filter).params);
            }
        }
    }
}

/// Fields that are all absent ask for no comparison.
proof fn lemma_absent_fields(fields: Seq<FilterField>)
    requires
        forall|i: int| 0 <= i < fields.len() ==> fields[i].value is Null,
    ensures
        comparisons(fields) == Seq::<Comparison>::empty(),
    decreases fields.len(),
{
    if fields.len() > 0 {
        lemma_absent_fields(fields.drop_last());
    }
}

/// The comparisons of the first `n` fields, where only field `k` is present.
proof fn lemma_single_field(fields: Seq<FilterField>, k: int, n: int)
    requires
        0 <= k < fields.len(),
        0 <= n <= fields.len(),
        fields[k].comparison() is Some,
        forall|i: int| 0 <= i < fields.len() && i != k ==> fields[i].value is Null,
    ensures
        comparisons(fields.take(n)) == (if n <= k {
            Seq::<Comparison>::empty()
        } else {
            seq![fields[k].comparison().unwrap()]
        }),
    decreases n,
{
    if n > 0 {
        lemma_single_field(fields, k, n - 1);
        Filter::lemma_step(fields, n - 1);
    }
}

/// A filter whose fields are all absent adds exactly ` WHERE TRUE` to the
/// statement and binds nothing.
pub proof fn lemma_absent_filter(st: Statement, fields: Vec<FilterField>)
    requires
        forall|i: int| 0 <= i < fields@.len() ==> fields@[i].value is Null,
    ensures
        Filter::applied(st, FilterPayload::Object(fields)) == (Statement {
            sql: st.sql + " WHERE TRUE"@,
            params: st.params,
        }),
{
    let after = Filter::applied(st, FilterPayload::Object(fields));
    lemma_absent_fields(fields@);
    reveal_strlit(" WHERE ");
    reveal_strlit("TRUE");
    reveal_strlit(" WHERE TRUE");
    assert(" WHERE "@ + "TRUE"@ == " WHERE TRUE"@);
    assert(after.sql == st.sql + " WHERE TRUE"@);
    assert(after.params == st.params);
}

/// A filter in which one field holds a string, and every other field is
/// absent, adds ` WHERE TRUE AND <name> = $n` to the statement, `n` being the
/// next parameter number, and binds exactly that string.
pub proof fn lemma_single_string_filter(
    st: Statement,
    fields: Vec<FilterField>,
    k: int,
    value: String,
)
    requires
        0 <= k < fields@.len(),
        fields@[k].value == FilterValue::String(value),
        forall|i: int| 0 <= i < fields@.len() && i != k ==> fields@[i].value is Null,
    ensures
        Filter::applied(st, FilterPayload::Object(fields)) == (Statement {
            sql: st.sql + " WHERE TRUE AND "@ + fields@[k].name@ + " = "@ + placeholder(
                st.params.len() + 1,
            ),
            params: st.params.push(Bound::Text(value@)),
        }),
{
    let after = Filter::applied(st, FilterPayload::Object(fields));
    let only = fields@[k].comparison().unwrap();
    lemma_single_field(fields@, k, fields@.len() as int);
    assert(fields@.take(fields@.len() as int) == fields@);
    Filter::lemma_push(Seq::empty(), only, st.params.len() + 1);
    assert(Seq::<Comparison>::empty().push(only) == seq![only]);
    reveal_strlit(" WHERE ");
    reveal_strlit("TRUE");
    reveal_strlit(" AND ");
    reveal_strlit(" WHERE TRUE AND ");
    assert(" WHERE "@ + "TRUE"@ + " AND "@ == " WHERE TRUE AND "@);
    assert(after.sql == st.sql + " WHERE TRUE AND "@ + fields@[k].name@ + " = "@ + placeholder(
        st.params.len() + 1,
    ));
    assert(after.params == st.params.push(Bound::Text(value@)));
}

/// The conjunct of comparison `j` carries parameter number `first + j`: the
/// numbers in a filter's clause go up by one from each conjunct to the next.
pub proof fn lemma_conjunct_number(comparisons: Seq<Comparison>, first: nat, j: int)
    requires
        0 <= j < comparisons.len(),
    ensures
        Filter::conjuncts(comparisons.take(j + 1), first) == Filter::conjuncts(
            comparisons.take(j),
            first,
        ) + Filter::conjunct(comparisons[j], (first + j) as nat),
{
    assert(comparisons.take(j + 1).drop_last() == comparisons.take(j));
}

/// A filter followed by pagination on the same statement: the text is the
/// filter's clause, then the limit, then the offset, and the parameter
/// numbers rise in that order. The filter's parameters take the numbers from
/// `n + 1` on, the limit the next one, and the offset the one after.
pub proof fn lemma_filter_then_pagination(
    st: Statement,
    filter: FilterPayload,
    current_page: u64,
    page_size: u64,
)
    ensures
        ({
            let n = st.params.len();
            let k = Filter::params(filter).len();
            let paged = Pagination::applied(Filter::applied(st, filter), current_page, page_size);
            &&& paged.sql == st.sql + Filter::clause(filter, n + 1) + " LIMIT "@ + placeholder(
                n + k + 1,
            ) + " OFFSET "@ + placeholder(n + k + 2)
            &&& paged.params == st.params + Filter::params(filter) + seq![
                Bound::Int(Pagination::limit(page_size)),
                Bound::Int(Pagination::offset(current_page, page_size)),
            ]
            &&& n + 1 <= n + k + 1 < n + k + 2 == paged.params.len()
        }),
{
    let paged = Pagination::applied(Filter::applied(st, filter), current_page, page_size);
    assert(paged.params == st.params + Filter::params(filter) + seq![
        Bound::Int(Pagination::limit(page_size)),
        Bound::Int(Pagination::offset(current_page, page_size)),
    ]);
}

/// For every page from 1 on and every page size above 0 that the store can
/// hold, pagination adds ` LIMIT $a OFFSET $b`, `a` and `b` being the next two
/// parameter numbers, and binds the page size to the first and the number of
/// rows on the pages before to the second. Neither value enters the text.
pub proof fn lemma_pagination(st: Statement, current_page: u64, page_size: u64)
    requires
        current_page >= 1,
        page_size > 0,
        page_size <= i64::MAX,
        (current_page - 1) * page_size <= i64::MAX,
    ensures
        Pagination::check(current_page, page_size) is Ok,
        Pagination::applied(st, current_page, page_size).sql == st.sql + " LIMIT "@ + placeholder(
            st.params.len() + 1,
        ) + " OFFSET "@ + placeholder(st.params.len() + 2),
        Pagination::applied(st, current_page, page_size).params == st.params + seq![
            Bound::Int(page_size as int),
            Bound::Int((current_page - 1) * page_size),
        ],
{
    assert(Pagination::applied(st, current_page, page_size).params == st.params + seq![
        Bound::Int(page_size as int),
        Bound::Int((current_page - 1) * page_size),
    ]);
}

/// Pages do not overlap and leave no gap: of `total` matching rows, the pages
/// from 1 to `pages` show the first `pages * page_size`, or all of them where
/// there are fewer. So the rows of all pages never sum to more than `total`,
/// and a single page that is at least as large as `total` shows every row.
pub proof fn lemma_pages_partition_rows(total: nat, pages: u64, page_size: u64)
    ensures
        Pagination::rows_on_pages(total, pages, page_size) <= total,
        pages * page_size >= total ==> Pagination::rows_on_pages(total, pages, page_size) == total,
        pages * page_size < total ==> Pagination::rows_on_pages(total, pages, page_size) == pages
            * page_size,
    decreases pages,
{
    if pages > 0 {
        let before = (pages - 1) as u64;
        lemma_pages_partition_rows(total, before, page_size);
        assert(pages * page_size == before * page_size + page_size) by (nonlinear_arith)
            requires
                before == pages - 1,
        ;
        assert(Pagination::offset(pages, page_size) == before * page_size);
    } else {
        assert(pages * page_size == 0) by (nonlinear_arith)
            requires
                pages == 0,
        ;
    }
}

} // verus!
