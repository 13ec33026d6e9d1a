//! The statement under construction: SQL text plus the parameters bound to it.
//!
//! The text and the parameters live in an `sqlx::QueryBuilder` for Postgres.
//! Verus cannot look inside it, so this module gives its contents two names,
//! [`builder_sql`] and [`builder_params`], and states what each builder method
//! that the library calls does to them. Those statements are trusted: they are
//! read off the source of `sqlx`, not proved. Everything else in the crate is
//! proved against them.

use serde_json::Number;
use sqlx::Postgres;
use uuid::Uuid;
use vstd::prelude::*;

verus! {

/// `serde_json::Number`, carried through unread: a JSON number of a filter.
#[verifier::external_type_specification]
#[verifier::external_body]
pub struct ExNumber(Number);

/// `uuid::Uuid`, carried through unread: the identifier of a record.
#[verifier::external_type_specification]
#[verifier::external_body]
pub struct ExUuid(Uuid);

/// What one bound parameter holds.
pub enum Bound {
    /// A boolean, sent as `BOOL`.
    Bool(bool),
    /// The double-precision value of a JSON number, sent as `FLOAT8`.
    Number(Number),
    /// A string, sent as `TEXT`.
    Text(Seq<char>),
    /// A 64-bit signed integer, sent as `INT8`.
    Int(int),
    /// An identifier, sent as `UUID`.
    Uuid(Uuid),
}

/// The model of a builder that still accepts text and parameters.
pub struct Statement {
    /// The SQL text so far.
    pub sql: Seq<char>,
    /// The bound parameters so far; parameter `i` answers placeholder `$i+1`.
    pub params: Seq<Bound>,
}

/// The decimal digit for `d < 10`.
pub open spec fn decimal_digit(d: nat) -> char {
    if d == 0 {
        '0'
    } else if d == 1 {
        '1'
    } else if d == 2 {
        '2'
    } else if d == 3 {
        '3'
    } else if d == 4 {
        '4'
    } else if d == 5 {
        '5'
    } else if d == 6 {
        '6'
    } else if d == 7 {
        '7'
    } else if d == 8 {
        '8'
    } else {
        '9'
    }
}

/// `n` in decimal, most significant digit first, without leading zeros.
pub open spec fn decimal(n: nat) -> Seq<char>
    decreases n,
{
    if n < 10 {
        seq![decimal_digit(n)]
    } else {
        decimal(n / 10).push(decimal_digit(n % 10))
    }
}

/// The text that stands in a statement for parameter number `n`: `$n`.
pub open spec fn placeholder(n: nat) -> Seq<char> {
    seq!['$'] + decimal(n)
}

/// The length of `text` in bytes of UTF-8, as `str::len` gives it.
pub open spec fn byte_len(text: Seq<char>) -> usize {
    vstd::utf8::encode_utf8(text).len() as usize
}

/// The longest value, in bytes, that the wire protocol can carry.
pub const MAX_VALUE_BYTES: usize = 0x7fff_ffff;

impl Statement {
    /// The statement with `text` appended.
    pub open spec fn push(self, text: Seq<char>) -> Statement {
        Statement { sql: self.sql + text, params: self.params }
    }

    /// The statement with `value` bound and its placeholder appended.
    pub open spec fn bind(self, value: Bound) -> Statement {
        Statement {
            sql: self.sql + placeholder(self.params.len() + 1),
            params: self.params.push(value),
        }
    }
}

/// A statement under construction, held in an `sqlx::QueryBuilder`.
///
/// `inner` is public so that a caller can make a builder from the text of its
/// choice and, when the statement is complete, build and run it.
#[verifier::external_body]
pub struct QueryBuilder {
    pub inner: sqlx::QueryBuilder<'static, Postgres>,
}

/// The SQL text that the builder holds.
pub uninterp spec fn builder_sql(qb: QueryBuilder) -> Seq<char>;

/// The parameters bound so far, in order; `None` once the statement was built
/// and the parameters were handed to it.
pub uninterp spec fn builder_params(qb: QueryBuilder) -> Option<Seq<Bound>>;

impl View for QueryBuilder {
    type V = Statement;

    open spec fn view(&self) -> Statement {
        Statement { sql: builder_sql(*self), params: builder_params(*self).unwrap() }
    }
}

impl QueryBuilder {
    /// Whether the builder still accepts text and parameters.
    pub open spec fn is_open(&self) -> bool {
        builder_params(*self) is Some
    }

    /// `sqlx::QueryBuilder::new`: a builder that holds `init` and no parameter.
    #[verifier::external_body]
    pub(crate) fn new(init: &str) -> (qb: QueryBuilder)
        ensures
            builder_sql(qb) == init@,
            builder_params(qb) == Some(Seq::<Bound>::empty()),
    {
        QueryBuilder { inner: sqlx::QueryBuilder::new(init) }
    }

    /// `sqlx::QueryBuilder::push`: appends `sql` to the text as it is and leaves
    /// the parameters alone. It panics on a builder that was built and not reset.
    #[verifier::external_body]
    pub(crate) fn push(&mut self, sql: &str)
        requires
            builder_params(*old(self)) is Some,
        ensures
            builder_sql(*final(self)) == builder_sql(*old(self)) + sql@,
            builder_params(*final(self)) == builder_params(*old(self)),
    {
        self.inner.push(sql);
    }

    /// `sqlx::QueryBuilder::push_bind` on a `bool`: adds the parameter, then
    /// appends `$n`, `n` being the number of parameters after the addition.
    #[verifier::external_body]
    pub(crate) fn push_bind_bool(&mut self, value: bool)
        requires
            builder_params(*old(self)) is Some,
        ensures
            builder_params(*final(self)) is Some,
            final(self)@ == old(self)@.bind(Bound::Bool(value)),
    {
        self.inner.push_bind(value);
    }

    /// `sqlx::QueryBuilder::push_bind` on an `i64`: adds the parameter, then
    /// appends `$n`, `n` being the number of parameters after the addition.
    #[verifier::external_body]
    pub(crate) fn push_bind_int(&mut self, value: i64)
        requires
            builder_params(*old(self)) is Some,
        ensures
            builder_params(*final(self)) is Some,
            final(self)@ == old(self)@.bind(Bound::Int(value as int)),
    {
        self.inner.push_bind(value);
    }

    /// `sqlx::QueryBuilder::push_bind` on a `String`: adds the parameter, then
    /// appends `$n`, `n` being the number of parameters after the addition. The
    /// call panics on a value of more than `i32::MAX` bytes.
    #[verifier::external_body]
    pub(crate) fn push_bind_text(&mut self, value: String)
        requires
            builder_params(*old(self)) is Some,
            byte_len(value@) <= MAX_VALUE_BYTES,
        ensures
            builder_params(*final(self)) is Some,
            final(self)@ == old(self)@.bind(Bound::Text(value@)),
    {
        self.inner.push_bind(value);
    }

    /// `serde_json::Number::as_f64`, then `sqlx::QueryBuilder::push_bind` on the
    /// double: adds the parameter, then appends `$n`, `n` being the number of
    /// parameters after the addition. Without arbitrary precision, which this
    /// crate does not switch on, every JSON number has a double.
    #[verifier::external_body]
    pub(crate) fn push_bind_number(&mut self, value: &Number)
        requires
            builder_params(*old(self)) is Some,
        ensures
            builder_params(*final(self)) is Some,
            final(self)@ == old(self)@.bind(Bound::Number(*value)),
    {
        self.inner.push_bind(value.as_f64().unwrap());
    }

    /// `sqlx::QueryBuilder::push_bind` on a `Uuid`: adds the parameter, then
    /// appends `$n`, `n` being the number of parameters after the addition.
    #[verifier::external_body]
    pub(crate) fn push_bind_uuid(&mut self, value: Uuid)
        requires
            builder_params(*old(self)) is Some,
        ensures
            builder_params(*final(self)) is Some,
            final(self)@ == old(self)@.bind(Bound::Uuid(value)),
    {
        self.inner.push_bind(value);
    }
}

} // verus!
