//! Fetching the fields of a composite type, each resolved in turn.
use vstd::prelude::*;
use crate::client::Client;
use crate::error::Error;
use crate::row::{get_oid, get_text, oid_field, text_field};
use crate::simple_query::Row;
use crate::statement::Statement;
use crate::types::{Field, Type};
use crate::Oid;

verus! {

/// The catalog query for the columns of a relation.
pub const TYPEINFO_COMPOSITE_QUERY: &'static str =
    "SELECT attname, atttypid FROM pg_attribute WHERE attrelid=$1 AND NOT attisdropped AND attnum > 0 ORDER BY attnum";

/// The name and type OID that a row of the column query holds, or the
/// first failure to read them.
pub open spec fn attr_of(row: Row) -> Result<(Seq<char>, Oid), Error> {
    match text_field(row@, 0) {
        Err(e) => Err(e),
        Ok(n) => match oid_field(row@, 1) {
            Err(e) => Err(e),
            Ok(o) => Ok((n, o)),
        },
    }
}

/// The columns that the rows of the column query hold, or the first
/// failure to read one.
pub open spec fn attrs_of(rows: Seq<Row>) -> Result<Seq<(Seq<char>, Oid)>, Error>
    decreases rows.len(),
{
    if rows.len() == 0 {
        Ok(Seq::empty())
    } else {
        match attrs_of(rows.drop_last()) {
            Err(e) => Err(e),
            Ok(xs) => match attr_of(rows.last()) {
                Err(e) => Err(e),
                Ok(x) => Ok(xs.push(x)),
            },
        }
    }
}

/// Whether `attrs` holds the columns `xs`.
pub open spec fn holds_attrs(attrs: Seq<(String, Oid)>, xs: Seq<(Seq<char>, Oid)>) -> bool {
    &&& attrs.len() == xs.len()
    &&& forall|i: int|
        #![trigger attrs[i]]
        0 <= i < xs.len() ==> attrs[i].0@ == xs[i].0 && attrs[i].1 == xs[i].1
}

/// The states of a composite-field fetch.
pub enum TypeinfoComposite {
    Start { relid: Oid },
    /// The column query is being prepared.
    PreparingTypeinfoComposite { relid: Oid },
    /// The column query runs.
    QueryingCompositeFields,
    /// The columns are known; the type of column `next` is being resolved.
    ResolvingFields { attrs: Vec<(String, Oid)>, next: usize, fields: Vec<Field> },
    Done,
}

/// What the caller does next for a composite-field fetch.
pub enum CompositeStep {
    /// Prepare this catalog query and hand the outcome to `prepared`.
    Prepare(&'static str),
    /// Run the statement with `$1` the relation and hand the rows to `rows`.
    Query(Statement, Oid),
    /// Resolve this type OID and hand the type to `field_resolved`.
    Resolve(Oid),
    /// The fields, in column order.
    Finished(Vec<Field>),
}

/// A fetch of the fields of one composite type.
pub struct TypeinfoCompositeFuture {
    pub state: TypeinfoComposite,
}

impl TypeinfoCompositeFuture {
    pub fn new(relid: Oid) -> (r: TypeinfoCompositeFuture)
        ensures
            r.state == (TypeinfoComposite::Start { relid }),
    {
        TypeinfoCompositeFuture { state: TypeinfoComposite::Start { relid } }
    }

    /// Runs the cached column query, or asks for it to be prepared.
    pub fn start(&mut self, client: &Client) -> (r: CompositeStep)
        requires
            old(self).state is Start,
        ensures
            match client.typeinfo_composite {
                Some(s) => r == CompositeStep::Query(s, old(self).state->Start_relid) && final(
                    self).state is QueryingCompositeFields,
                None => (r matches CompositeStep::Prepare(q) && q@ == TYPEINFO_COMPOSITE_QUERY@)
                    && final(self).state == (TypeinfoComposite::PreparingTypeinfoComposite {
                    relid: old(self).state->Start_relid,
                }),
            },
    {
        let relid = match &self.state {
            TypeinfoComposite::Start { relid } => *relid,
            _ => 0,
        };
        match &client.typeinfo_composite {
            Some(statement) => {
                self.state = TypeinfoComposite::QueryingCompositeFields;
                CompositeStep::Query(statement.share(), relid)
            },
            None => {
                self.state = TypeinfoComposite::PreparingTypeinfoComposite { relid };
                CompositeStep::Prepare(TYPEINFO_COMPOSITE_QUERY)
            },
        }
    }

    /// Takes the outcome of preparing the column query, which is cached on
    /// the client.
    pub fn prepared(&mut self, client: &mut Client, prepared: Result<Statement, Error>) -> (r: Result<
        CompositeStep,
        Error,
    >)
        requires
            old(self).state is PreparingTypeinfoComposite,
        ensures
            match prepared {
                Ok(s) => r == Result::<CompositeStep, Error>::Ok(
                    CompositeStep::Query(s, old(self).state->PreparingTypeinfoComposite_relid),
                ) && final(client).typeinfo_composite == Some(s) && final(self).state
                    is QueryingCompositeFields,
                Err(e) => r == Result::<CompositeStep, Error>::Err(e) && final(self).state is Done
                    && final(client).typeinfo_composite == old(client).typeinfo_composite,
            },
            final(client).types == old(client).types,
            final(client).closed == old(client).closed,
            final(client).typeinfo == old(client).typeinfo,
            final(client).typeinfo_enum == old(client).typeinfo_enum,
    {
        let relid = match &self.state {
            TypeinfoComposite::PreparingTypeinfoComposite { relid } => *relid,
            _ => 0,
        };
        match prepared {
            Ok(statement) => {
                client.typeinfo_composite = Some(statement.share());
                self.state = TypeinfoComposite::QueryingCompositeFields;
                Ok(CompositeStep::Query(statement, relid))
            },
            Err(e) => {
                self.state = TypeinfoComposite::Done;
                Err(e)
            },
        }
    }

    /// Takes the rows of the column query: a type without columns is
    /// finished at once, otherwise the type of the first column is asked for.
    pub fn rows(&mut self, rows: Result<Vec<Row>, Error>) -> (r: Result<CompositeStep, Error>)
        requires
            old(self).state is QueryingCompositeFields,
        ensures
            match rows {
                Err(e) => r == Result::<CompositeStep, Error>::Err(e) && final(self).state is Done,
                Ok(rs) => match attrs_of(rs@) {
                    Err(e) => r == Result::<CompositeStep, Error>::Err(e) && final(self).state
                        is Done,
                    Ok(xs) => if xs.len() == 0 {
                        (r matches Ok(CompositeStep::Finished(f)) && f@.len() == 0) && final(
                            self).state is Done
                    } else {
                        r == Result::<CompositeStep, Error>::Ok(CompositeStep::Resolve(xs[0].1))
                            && (final(self).state matches TypeinfoComposite::ResolvingFields {
                            attrs,
                            next,
                            fields,
                        } && holds_attrs(attrs@, xs) && next == 0 && fields@.len() == 0)
                    },
                },
            },
    {
        self.state = TypeinfoComposite::Done;
        let ghost given = rows;
        let rs = match rows {
            Ok(rs) => rs,
            Err(e) => return Err(e),
        };
        let mut attrs: Vec<(String, Oid)> = Vec::new();
        let mut i: usize = 0;
        while i < rs.len()
            invariant
                i <= rs@.len(),
                given == rows,
                given == Result::<Vec<Row>, Error>::Ok(rs),
                self.state is Done,
                attrs_of(rs@.subrange(0, i as int)) matches Ok(xs) && holds_attrs(attrs@, xs),
            decreases rs@.len() - i,
        {
            let ghost next = rs@.subrange(0, i + 1);
            assert(next.drop_last() =~= rs@.subrange(0, i as int));
            assert(next.last() == rs@[i as int]);
            let name = match get_text(&rs[i], 0) {
                Ok(n) => n,
                Err(e) => {
                    assert(attrs_of(next) == Result::<Seq<(Seq<char>, Oid)>, Error>::Err(e));
                    proof {
                        lemma_attrs_err_extends(rs@, i as int + 1);
                    }
                    return Err(e);
                },
            };
            let oid = match get_oid(&rs[i], 1) {
                Ok(o) => o,
                Err(e) => {
                    assert(attrs_of(next) == Result::<Seq<(Seq<char>, Oid)>, Error>::Err(e));
                    proof {
                        lemma_attrs_err_extends(rs@, i as int + 1);
                    }
                    return Err(e);
                },
            };
            attrs.push((name, oid));
            i = i + 1;
        }
        assert(rs@.subrange(0, rs@.len() as int) =~= rs@);
        if attrs.len() == 0 {
            return Ok(CompositeStep::Finished(Vec::new()));
        }
        let first = attrs[0].1;
        let ghost xs = attrs_of(rs@)->Ok_0;
        assert(attrs@[0].1 == xs[0].1);
        self.state = TypeinfoComposite::ResolvingFields { attrs, next: 0, fields: Vec::new() };
        Ok(CompositeStep::Resolve(first))
    }

    /// Takes the type of the column being resolved: the next column's type
    /// is asked for, or, after the last column, the fields are finished.
    pub fn field_resolved(&mut self, ty: Type) -> (r: CompositeStep)
        requires
            old(self).state matches TypeinfoComposite::ResolvingFields { attrs, next, fields }
                && next < attrs@.len() && fields@.len() == next,
        ensures
            ({
                let attrs = old(self).state->attrs;
                let next = old(self).state->next;
                let fields = old(self).state->fields;
                if next + 1 == attrs@.len() {
                    (r matches CompositeStep::Finished(f) && f@.len() == next + 1 && f@.drop_last()
                        == fields@ && f@.last().name@ == attrs@[next as int].0@ && f@.last().type_
                        == ty) && final(self).state is Done
                } else {
                    r == CompositeStep::Resolve(attrs@[next + 1].1) && (final(
                        self).state matches TypeinfoComposite::ResolvingFields {
                        attrs: a,
                        next: n,
                        fields: f,
                    } && a == attrs && n == next + 1 && f@.drop_last() == fields@ && f@.len() == n
                        && f@.last().name@ == attrs@[next as int].0@ && f@.last().type_ == ty)
                }
            }),
    {
        let mut st = TypeinfoComposite::Done;
        std::mem::swap(&mut self.state, &mut st);
        match st {
            TypeinfoComposite::ResolvingFields { attrs, next, mut fields } => {
                let ghost before = fields@;
                fields.push(Field { name: attrs[next].0.clone(), type_: ty });
                assert(fields@.drop_last() =~= before);
                let n = attrs.len();
                if next + 1 == n {
                    CompositeStep::Finished(fields)
                } else {
                    let oid = attrs[next + 1].1;
                    self.state = TypeinfoComposite::ResolvingFields { attrs, next: next + 1, fields };
                    CompositeStep::Resolve(oid)
                }
            },
            _ => CompositeStep::Finished(Vec::new()),
        }
    }
}

/// A failure to read the columns of a prefix of the rows is the failure to
/// read the columns of all of them.
proof fn lemma_attrs_err_extends(rows: Seq<Row>, k: int)
    requires
        0 <= k <= rows.len(),
        attrs_of(rows.subrange(0, k)) is Err,
    ensures
        attrs_of(rows) == attrs_of(rows.subrange(0, k)),
    decreases rows.len() - k,
{
    if k < rows.len() {
        assert(rows.subrange(0, k + 1).drop_last() =~= rows.subrange(0, k));
        lemma_attrs_err_extends(rows, k + 1);
    } else {
        assert(rows.subrange(0, k) =~= rows);
    }
}

} // verus!
