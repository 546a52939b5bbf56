//! Fetching the labels of an enum type, in sort order.
use vstd::prelude::*;
use crate::client::Client;
use crate::error::{error_has_code, has_code, Error, UNDEFINED_COLUMN};
use crate::row::{get_text, text_field};
use crate::simple_query::Row;
use crate::statement::Statement;
use crate::Oid;

verus! {

/// The catalog query for the labels of an enum.
pub const TYPEINFO_ENUM_QUERY: &'static str = "
SELECT enumlabel
FROM pg_catalog.pg_enum
WHERE enumtypid = $1
ORDER BY enumsortorder
";

/// The same query for servers without `enumsortorder`.
pub const TYPEINFO_ENUM_FALLBACK_QUERY: &'static str = "
SELECT enumlabel
FROM pg_catalog.pg_enum
WHERE enumtypid = $1
ORDER BY oid
";

/// The states of an enum-label fetch.
pub enum TypeinfoEnum {
    Start { oid: Oid },
    /// The label query (or, with `fallback`, its older form) is being prepared.
    PreparingTypeinfoEnum { oid: Oid, fallback: bool },
    /// The label query runs.
    QueryingEnumVariants,
    Done,
}

/// What the caller does next for an enum-label fetch.
pub enum EnumStep {
    /// Prepare this catalog query and hand the outcome to `prepared`.
    Prepare(&'static str),
    /// Run the statement with `$1` the OID and hand the rows to `rows`.
    Query(Statement, Oid),
}

/// The labels that the rows of the label query hold: the first field of
/// each, as text; or the first failure to read one.
pub open spec fn labels_of(rows: Seq<Row>) -> Result<Seq<Seq<char>>, Error>
    decreases rows.len(),
{
    if rows.len() == 0 {
        Ok(Seq::empty())
    } else {
        match labels_of(rows.drop_last()) {
            Err(e) => Err(e),
            Ok(ls) => match text_field(rows.last()@, 0) {
                Err(e) => Err(e),
                Ok(l) => Ok(ls.push(l)),
            },
        }
    }
}

/// A fetch of the labels of one enum type.
pub struct TypeinfoEnumFuture {
    pub state: TypeinfoEnum,
}

impl TypeinfoEnumFuture {
    pub fn new(oid: Oid) -> (r: TypeinfoEnumFuture)
        ensures
            r.state == (TypeinfoEnum::Start { oid }),
    {
        TypeinfoEnumFuture { state: TypeinfoEnum::Start { oid } }
    }

    /// Runs the cached label query, or asks for it to be prepared.
    pub fn start(&mut self, client: &Client) -> (r: EnumStep)
        requires
            old(self).state is Start,
        ensures
            match client.typeinfo_enum {
                Some(s) => r == EnumStep::Query(s, old(self).state->Start_oid) && final(self).state
                    is QueryingEnumVariants,
                None => (r matches EnumStep::Prepare(q) && q@ == TYPEINFO_ENUM_QUERY@) && final(
                    self).state == (TypeinfoEnum::PreparingTypeinfoEnum {
                    oid: old(self).state->Start_oid,
                    fallback: false,
                }),
            },
    {
        let oid = match &self.state {
            TypeinfoEnum::Start { oid } => *oid,
            _ => 0,
        };
        match &client.typeinfo_enum {
            Some(statement) => {
                self.state = TypeinfoEnum::QueryingEnumVariants;
                EnumStep::Query(statement.share(), oid)
            },
            None => {
                self.state = TypeinfoEnum::PreparingTypeinfoEnum { oid, fallback: false };
                EnumStep::Prepare(TYPEINFO_ENUM_QUERY)
            },
        }
    }

    /// Takes the outcome of preparing the label query. A server without
    /// `enumsortorder` (SQLSTATE `42703`) gets the older form; the prepared
    /// statement is cached on the client.
    pub fn prepared(&mut self, client: &mut Client, prepared: Result<Statement, Error>) -> (r: Result<
        EnumStep,
        Error,
    >)
        requires
            old(self).state is PreparingTypeinfoEnum,
        ensures
            ({
                let oid = old(self).state->PreparingTypeinfoEnum_oid;
                let fallback = old(self).state->fallback;
                match prepared {
                    Ok(s) => r == Result::<EnumStep, Error>::Ok(EnumStep::Query(s, oid)) && final(
                        client).typeinfo_enum == Some(s) && final(self).state is QueryingEnumVariants,
                    Err(e) => if !fallback && has_code(e, UNDEFINED_COLUMN@) {
                        (r matches Ok(EnumStep::Prepare(q)) && q@ == TYPEINFO_ENUM_FALLBACK_QUERY@)
                            && final(self).state == (TypeinfoEnum::PreparingTypeinfoEnum {
                            oid,
                            fallback: true,
                        }) && final(client).typeinfo_enum == old(client).typeinfo_enum
                    } else {
                        r == Result::<EnumStep, Error>::Err(e) && final(self).state is Done && final(
                            client).typeinfo_enum == old(client).typeinfo_enum
                    },
                }
            }),
            final(client).types == old(client).types,
            final(client).closed == old(client).closed,
            final(client).typeinfo == old(client).typeinfo,
            final(client).typeinfo_composite == old(client).typeinfo_composite,
    {
        let (oid, fallback) = match &self.state {
            TypeinfoEnum::PreparingTypeinfoEnum { oid, fallback } => (*oid, *fallback),
            _ => (0, true),
        };
        match prepared {
            Ok(statement) => {
                client.typeinfo_enum = Some(statement.share());
                self.state = TypeinfoEnum::QueryingEnumVariants;
                Ok(EnumStep::Query(statement, oid))
            },
            Err(e) => {
                if !fallback && error_has_code(&e, UNDEFINED_COLUMN) {
                    self.state = TypeinfoEnum::PreparingTypeinfoEnum { oid, fallback: true };
                    Ok(EnumStep::Prepare(TYPEINFO_ENUM_FALLBACK_QUERY))
                } else {
                    self.state = TypeinfoEnum::Done;
                    Err(e)
                }
            },
        }
    }

    /// Takes the rows of the label query and returns the labels in order.
    pub fn rows(&mut self, rows: Result<Vec<Row>, Error>) -> (r: Result<Vec<String>, Error>)
        requires
            old(self).state is QueryingEnumVariants,
        ensures
            final(self).state is Done,
            match rows {
                Err(e) => r == Result::<Vec<String>, Error>::Err(e),
                Ok(rs) => match labels_of(rs@) {
                    Err(e) => r == Result::<Vec<String>, Error>::Err(e),
                    Ok(ls) => r matches Ok(v) && v@.len() == ls.len() && forall|i: int|
                        0 <= i < ls.len() ==> #[trigger] v@[i]@ == ls[i],
                },
            },
    {
        self.state = TypeinfoEnum::Done;
        let ghost given = rows;
        let rs = match rows {
            Ok(rs) => rs,
            Err(e) => return Err(e),
        };
        let mut labels: Vec<String> = Vec::new();
        let mut i: usize = 0;
        while i < rs.len()
            invariant
                i <= rs@.len(),
                given == Result::<Vec<Row>, Error>::Ok(rs),
                given == rows,
                self.state is Done,
                labels_of(rs@.subrange(0, i as int)) matches Ok(ls) && labels@.len() == ls.len()
                    && forall|j: int| 0 <= j < ls.len() ==> #[trigger] labels@[j]@ == ls[j],
            decreases rs@.len() - i,
        {
            let ghost pre = rs@.subrange(0, i as int);
            let ghost next = rs@.subrange(0, i + 1);
            assert(next.drop_last() =~= pre);
            match get_text(&rs[i], 0) {
                Ok(label) => {
                    assert(next.last() == rs@[i as int]);
                    labels.push(label);
                },
                Err(e) => {
                    assert(next.last() == rs@[i as int]);
                    assert(labels_of(next) == Result::<Seq<Seq<char>>, Error>::Err(e));
                    proof {
                        lemma_labels_err_extends(rs@, i as int + 1);
                    }
                    return Err(e);
                },
            }
            i = i + 1;
        }
        assert(rs@.subrange(0, rs@.len() as int) =~= rs@);
        Ok(labels)
    }
}

/// A failure to read the labels of a prefix of the rows is the failure to
/// read the labels of all of them.
proof fn lemma_labels_err_extends(rows: Seq<Row>, k: int)
    requires
        0 <= k <= rows.len(),
        labels_of(rows.subrange(0, k)) is Err,
    ensures
        labels_of(rows) == labels_of(rows.subrange(0, k)),
    decreases rows.len() - k,
{
    if k < rows.len() {
        assert(rows.subrange(0, k + 1).drop_last() =~= rows.subrange(0, k));
        lemma_labels_err_extends(rows, k + 1);
    } else {
        assert(rows.subrange(0, k) =~= rows);
    }
}

} // verus!
