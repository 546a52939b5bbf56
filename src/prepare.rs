//! Preparing a statement: reading its description, then resolving the
//! types of its parameters and columns.
use vstd::prelude::*;
use crate::error::Error;
use crate::message::{BackendMessage, FieldDescription};
use crate::statement::{Column, Statement};
use crate::types::Type;
use crate::Oid;

verus! {

/// The states of a prepare.
pub enum Prepare {
    /// `ParseComplete` is awaited.
    ReadParseComplete { name: String },
    /// `ParameterDescription` is awaited.
    ReadParameterDescription { name: String },
    /// `RowDescription` or `NoData` is awaited.
    ReadRowDescription { name: String, param_oids: Vec<Oid> },
    /// The types of the parameters, then of the columns, are being resolved.
    ResolvingTypes {
        name: String,
        param_oids: Vec<Oid>,
        fields: Vec<FieldDescription>,
        params: Vec<Type>,
        columns: Vec<Column>,
    },
    /// The server reported `error`; the rest of the response is read up to
    /// `ReadyForQuery`, where the error is reported.
    Failing { error: Error },
    Done,
}

/// What the caller does next for a prepare.
#[derive(Debug)]
pub enum PrepareStep {
    /// Hand over the next backend message.
    Read,
    /// Resolve this type OID and hand the type to `type_resolved`.
    Resolve(Oid),
    /// The statement is prepared.
    Finished(Statement),
}

/// Whether `st` is resolving types with these parts, still awaiting one:
/// the parameters' types come first, then the columns'.
pub open spec fn resolving_as(
    st: Prepare,
    name: String,
    param_oids: Seq<Oid>,
    fields: Seq<FieldDescription>,
    params: Seq<Type>,
    columns: Seq<Column>,
) -> bool {
    &&& st matches Prepare::ResolvingTypes { name: n, param_oids: po, fields: fs, params: ps, columns: cs }
        && n == name && po@ == param_oids && fs@ == fields && ps@ == params && cs@ == columns
    &&& params.len() <= param_oids.len()
    &&& columns.len() <= fields.len()
    &&& columns.len() > 0 ==> params.len() == param_oids.len()
    &&& params.len() < param_oids.len() || columns.len() < fields.len()
}

/// The step once the types `params`, then `columns`, of a statement with
/// these parameter OIDs and result fields are resolved: the next parameter
/// type, then the next column type, then the statement; and the state that
/// follows it.
pub open spec fn step_after(
    name: String,
    param_oids: Seq<Oid>,
    fields: Seq<FieldDescription>,
    params: Seq<Type>,
    columns: Seq<Column>,
    r: PrepareStep,
    next: Prepare,
) -> bool {
    if params.len() < param_oids.len() {
        r == PrepareStep::Resolve(param_oids[params.len() as int]) && resolving_as(
            next,
            name,
            param_oids,
            fields,
            params,
            columns,
        )
    } else if columns.len() < fields.len() {
        r == PrepareStep::Resolve(fields[columns.len() as int].type_oid) && resolving_as(
            next,
            name,
            param_oids,
            fields,
            params,
            columns,
        )
    } else {
        (r matches PrepareStep::Finished(s) && s.inner.name == name && s.inner.params@ == params
            && s.inner.columns@ == columns) && next is Done
    }
}

/// A prepare of the statement `name`, driven by the backend's messages and
/// by the resolutions of the types they mention.
pub struct PrepareFuture {
    pub state: Prepare,
}

impl PrepareFuture {
    pub fn new(name: String) -> (r: PrepareFuture)
        ensures
            r.state == (Prepare::ReadParseComplete { name }),
    {
        PrepareFuture { state: Prepare::ReadParseComplete { name } }
    }

    fn next_type(&mut self) -> (r: PrepareStep)
        requires
            old(self).state matches Prepare::ResolvingTypes { param_oids, fields, params, columns, .. }
                && params@.len() <= param_oids@.len() && columns@.len() <= fields@.len() && (
            columns@.len() > 0 ==> params@.len() == param_oids@.len()),
        ensures
            step_after(
                old(self).state->ResolvingTypes_name,
                old(self).state->ResolvingTypes_param_oids@,
                old(self).state->ResolvingTypes_fields@,
                old(self).state->ResolvingTypes_params@,
                old(self).state->ResolvingTypes_columns@,
                r,
                final(self).state,
            ),
    {
        let mut st = Prepare::Done;
        std::mem::swap(&mut self.state, &mut st);
        match st {
            Prepare::ResolvingTypes { name, param_oids, fields, params, columns } => {
                if params.len() < param_oids.len() {
                    let o = param_oids[params.len()];
                    self.state = Prepare::ResolvingTypes { name, param_oids, fields, params, columns };
                    PrepareStep::Resolve(o)
                } else if columns.len() < fields.len() {
                    let o = fields[columns.len()].type_oid;
                    self.state = Prepare::ResolvingTypes { name, param_oids, fields, params, columns };
                    PrepareStep::Resolve(o)
                } else {
                    PrepareStep::Finished(Statement::new(name, params, columns))
                }
            },
            _ => PrepareStep::Read,
        }
    }

    /// Consumes the next message of the description: `ParseComplete`, then
    /// `ParameterDescription`, then `RowDescription` or `NoData`, after which
    /// the types are resolved. A server error is kept and reported once the
    /// response has been read to `ReadyForQuery`.
    pub fn poll_message(&mut self, m: Option<BackendMessage>) -> (r: Result<PrepareStep, Error>)
        requires
            old(self).state is ReadParseComplete || old(self).state is ReadParameterDescription
                || old(self).state is ReadRowDescription || old(self).state is Failing,
        ensures
            old(self).state is Failing ==> match m {
                Some(BackendMessage::ReadyForQuery(_)) => r == Result::<PrepareStep, Error>::Err(
                    old(self).state->Failing_error) && final(self).state is Done,
                Some(_) => r == Result::<PrepareStep, Error>::Ok(PrepareStep::Read) && final(
                    self).state == old(self).state,
                None => r == Result::<PrepareStep, Error>::Err(Error::Closed) && final(self).state
                    is Done,
            },
            !(old(self).state is Failing) ==> match m {
                None => r == Result::<PrepareStep, Error>::Err(Error::Closed) && final(self).state
                    is Done,
                Some(BackendMessage::ErrorResponse(e)) => r == Result::<PrepareStep, Error>::Ok(
                    PrepareStep::Read) && final(self).state == (Prepare::Failing {
                    error: Error::Db(e),
                }),
                Some(BackendMessage::ParseComplete) if old(self).state is ReadParseComplete => r
                    == Result::<PrepareStep, Error>::Ok(PrepareStep::Read) && final(self).state == (
                Prepare::ReadParameterDescription { name: old(self).state->ReadParseComplete_name }),
                Some(BackendMessage::ParameterDescription(oids)) if old(
                    self).state is ReadParameterDescription => r == Result::<PrepareStep, Error>::Ok(
                    PrepareStep::Read) && final(self).state == (Prepare::ReadRowDescription {
                    name: old(self).state->ReadParameterDescription_name,
                    param_oids: oids,
                }),
                Some(BackendMessage::RowDescription(fs)) if old(self).state is ReadRowDescription => r
                    matches Ok(step) && step_after(
                    old(self).state->ReadRowDescription_name,
                    old(self).state->ReadRowDescription_param_oids@,
                    fs@,
                    Seq::empty(),
                    Seq::empty(),
                    step,
                    final(self).state,
                ),
                Some(BackendMessage::NoData) if old(self).state is ReadRowDescription => r matches Ok(
                    step,
                ) && step_after(
                    old(self).state->ReadRowDescription_name,
                    old(self).state->ReadRowDescription_param_oids@,
                    Seq::empty(),
                    Seq::empty(),
                    Seq::empty(),
                    step,
                    final(self).state,
                ),
                _ => r == Result::<PrepareStep, Error>::Err(Error::UnexpectedMessage) && final(
                    self).state is Done,
            },
    {
        let mut st = Prepare::Done;
        std::mem::swap(&mut self.state, &mut st);
        if let Prepare::Failing { error } = st {
            return match m {
                Some(BackendMessage::ReadyForQuery(_)) => Err(error),
                Some(_) => {
                    self.state = Prepare::Failing { error };
                    Ok(PrepareStep::Read)
                },
                None => Err(Error::Closed),
            };
        }
        match m {
            None => Err(Error::Closed),
            Some(BackendMessage::ErrorResponse(e)) => {
                self.state = Prepare::Failing { error: Error::Db(e) };
                Ok(PrepareStep::Read)
            },
            Some(BackendMessage::ParseComplete) => match st {
                Prepare::ReadParseComplete { name } => {
                    self.state = Prepare::ReadParameterDescription { name };
                    Ok(PrepareStep::Read)
                },
                _ => Err(Error::UnexpectedMessage),
            },
            Some(BackendMessage::ParameterDescription(oids)) => match st {
                Prepare::ReadParameterDescription { name } => {
                    self.state = Prepare::ReadRowDescription { name, param_oids: oids };
                    Ok(PrepareStep::Read)
                },
                _ => Err(Error::UnexpectedMessage),
            },
            Some(BackendMessage::RowDescription(fields)) => match st {
                Prepare::ReadRowDescription { name, param_oids } => {
                    self.state = Prepare::ResolvingTypes {
                        name,
                        param_oids,
                        fields,
                        params: Vec::new(),
                        columns: Vec::new(),
                    };
                    Ok(self.next_type())
                },
                _ => Err(Error::UnexpectedMessage),
            },
            Some(BackendMessage::NoData) => match st {
                Prepare::ReadRowDescription { name, param_oids } => {
                    self.state = Prepare::ResolvingTypes {
                        name,
                        param_oids,
                        fields: Vec::new(),
                        params: Vec::new(),
                        columns: Vec::new(),
                    };
                    Ok(self.next_type())
                },
                _ => Err(Error::UnexpectedMessage),
            },
            Some(_) => Err(Error::UnexpectedMessage),
        }
    }

    /// Takes the type of the parameter or column being resolved: it becomes
    /// the next parameter type while any is missing, else the next column's.
    pub fn type_resolved(&mut self, ty: Type) -> (r: PrepareStep)
        requires
            resolving_as(
                old(self).state,
                old(self).state->ResolvingTypes_name,
                old(self).state->ResolvingTypes_param_oids@,
                old(self).state->ResolvingTypes_fields@,
                old(self).state->ResolvingTypes_params@,
                old(self).state->ResolvingTypes_columns@,
            ),
        ensures
            ({
                let name = old(self).state->ResolvingTypes_name;
                let param_oids = old(self).state->ResolvingTypes_param_oids@;
                let fields = old(self).state->ResolvingTypes_fields@;
                let params = old(self).state->ResolvingTypes_params@;
                let columns = old(self).state->ResolvingTypes_columns@;
                if params.len() < param_oids.len() {
                    step_after(name, param_oids, fields, params.push(ty), columns, r, final(self).state)
                } else {
                    exists|c: Column|
                        c.name@ == fields[columns.len() as int].name@ && c.type_ == ty
                            && #[trigger] step_after(
                            name,
                            param_oids,
                            fields,
                            params,
                            columns.push(c),
                            r,
                            final(self).state,
                        )
                }
            }),
    {
        let mut st = Prepare::Done;
        std::mem::swap(&mut self.state, &mut st);
        match st {
            Prepare::ResolvingTypes { name, param_oids, fields, mut params, mut columns } => {
                if params.len() < param_oids.len() {
                    params.push(ty);
                } else {
                    let n = fields[columns.len()].name.clone();
                    let c = Column { name: n, type_: ty };
                    columns.push(c);
                }
                self.state = Prepare::ResolvingTypes { name, param_oids, fields, params, columns };
                self.next_type()
            },
            _ => PrepareStep::Read,
        }
    }
}

} // verus!
