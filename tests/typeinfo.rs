use tokio_postgres::client::Client;
use tokio_postgres::error::{DbError, Error};
use tokio_postgres::statement::Statement;
use tokio_postgres::typeinfo::{
    classify_row, decode_typeinfo_row, Resolution, TypeinfoFuture, TypeinfoRow, TypeinfoStep,
    TYPEINFO_FALLBACK_QUERY, TYPEINFO_QUERY,
};
use tokio_postgres::typeinfo_enum::{
    EnumStep, TypeinfoEnumFuture, TYPEINFO_ENUM_FALLBACK_QUERY, TYPEINFO_ENUM_QUERY,
};
use tokio_postgres::resolve::{start_nested, Nested};
use tokio_postgres::types::{from_oid, Kind, TypeCache};
use tokio_postgres::typeinfo::{cycle_placeholder, in_progress};
use tokio_postgres::typeinfo_composite::{CompositeStep, TypeinfoCompositeFuture, TYPEINFO_COMPOSITE_QUERY};

fn text(s: &str) -> Option<Vec<u8>> {
    Some(s.as_bytes().to_vec())
}

fn oid(v: u32) -> Option<Vec<u8>> {
    Some(v.to_be_bytes().to_vec())
}

fn catalog_row(name: &str, typtype: u8, elem: u32, rng: Option<u32>, base: u32, relid: u32) -> Vec<Option<Vec<u8>>> {
    vec![text(name), Some(vec![typtype]), oid(elem), rng.and_then(oid), oid(base), text("public"), oid(relid)]
}

fn statement(name: &str) -> Statement {
    Statement::new(name.to_string(), vec![], vec![])
}

fn undefined(code: &str) -> Error {
    Error::Db(DbError { code: code.to_string(), message: String::new() })
}

#[test]
fn builtin_types_need_no_query() {
    let client = Client::new(0, 0);
    let mut f = TypeinfoFuture::new(23);
    match f.start(&client) {
        TypeinfoStep::Finished(t) => {
            assert_eq!(t.name(), "int4");
            assert_eq!(t.oid(), 23);
            assert_eq!(t.schema(), "pg_catalog");
            assert!(matches!(t.kind(), Kind::Simple));
        }
        _ => panic!("int4 is built in"),
    }
    assert!(matches!(from_oid(2278).unwrap().kind(), Kind::Pseudo));
    assert!(from_oid(90000).is_none());
}

#[test]
fn classification_order() {
    let r = |t: u8, elem: u32, rng: Option<u32>, base: u32, relid: u32| {
        classify_row(&TypeinfoRow {
            name: String::new(),
            typtype: t as i8,
            elem,
            rngsubtype: rng,
            basetype: base,
            schema: String::new(),
            relid,
        })
    };
    assert_eq!(r(b'e', 1, Some(2), 3, 4), Resolution::Enum);
    assert_eq!(r(b'p', 1, Some(2), 3, 4), Resolution::Pseudo);
    assert_eq!(r(b'd', 1, Some(2), 3, 4), Resolution::Domain(3));
    assert_eq!(r(b'b', 1, Some(2), 0, 4), Resolution::Array(1));
    assert_eq!(r(b'c', 0, Some(2), 0, 4), Resolution::Composite(4));
    assert_eq!(r(b'r', 0, Some(2), 0, 0), Resolution::Range(2));
    assert_eq!(r(b'b', 0, None, 0, 0), Resolution::Simple);
}

#[test]
fn catalog_row_decoding_errors() {
    let mut row = catalog_row("t", b'b', 0, None, 0, 0);
    assert!(decode_typeinfo_row(&row).is_ok());
    row[2] = Some(vec![1, 2]);
    assert!(matches!(decode_typeinfo_row(&row), Err(Error::FromSql(2))));
    row.truncate(6);
    row[2] = oid(0);
    assert!(matches!(decode_typeinfo_row(&row), Err(Error::UnexpectedMessage)));
    let mut row = catalog_row("t", b'b', 0, None, 0, 0);
    row[0] = Some(vec![0xff]);
    assert!(matches!(decode_typeinfo_row(&row), Err(Error::FromSql(0))));
    for col in [0usize, 1, 2, 4, 5, 6] {
        let mut row = catalog_row("t", b'b', 0, Some(3), 0, 0);
        row[col] = None;
        assert!(matches!(decode_typeinfo_row(&row), Err(Error::UnexpectedMessage)));
    }
    let row = catalog_row("t", b'b', 0, None, 0, 0);
    assert!(decode_typeinfo_row(&row).unwrap().rngsubtype.is_none());
}

#[test]
fn resolve_enum_type() {
    let mut client = Client::new(0, 0);
    let mut f = TypeinfoFuture::new(16400);
    match f.start(&client) {
        TypeinfoStep::Prepare(q) => assert_eq!(q, TYPEINFO_QUERY),
        _ => panic!("the catalog query is prepared first"),
    }
    let step = f.prepared(&mut client, Ok(statement("s0"))).unwrap();
    assert!(matches!(step, TypeinfoStep::Query(ref s, 16400) if s.name() == "s0"));
    assert!(client.typeinfo.is_some());
    let step = f.rows(&mut client, Ok(vec![catalog_row("color", b'e', 0, None, 0, 0)])).unwrap();
    assert!(matches!(step, TypeinfoStep::ResolveEnum(16400)));

    let mut e = TypeinfoEnumFuture::new(16400);
    match e.start(&client) {
        EnumStep::Prepare(q) => assert_eq!(q, TYPEINFO_ENUM_QUERY),
        _ => panic!("the label query is prepared first"),
    }
    let step = e.prepared(&mut client, Ok(statement("s1"))).unwrap();
    assert!(matches!(step, EnumStep::Query(_, 16400)));
    let labels = e.rows(Ok(vec![vec![text("red")], vec![text("green")], vec![text("blue")]])).unwrap();
    assert_eq!(labels, vec!["red".to_string(), "green".to_string(), "blue".to_string()]);

    let ty = f.enum_resolved(&mut client, labels);
    assert_eq!(ty.name(), "color");
    assert_eq!(ty.schema(), "public");
    match ty.kind() {
        Kind::Enum(v) => assert_eq!(v, &vec!["red".to_string(), "green".to_string(), "blue".to_string()]),
        _ => panic!("expected an enum"),
    }

    let mut again = TypeinfoFuture::new(16400);
    match again.start(&client) {
        TypeinfoStep::Finished(t) => {
            assert_eq!(t.name(), "color");
            assert!(matches!(t.kind(), Kind::Enum(v) if v.len() == 3));
        }
        _ => panic!("the second resolution is answered from the cache"),
    }
}

#[test]
fn cached_statements_are_reused() {
    let mut client = Client::new(0, 0);
    client.typeinfo = Some(statement("s9"));
    client.typeinfo_enum = Some(statement("s8"));
    let mut f = TypeinfoFuture::new(17000);
    assert!(matches!(f.start(&client), TypeinfoStep::Query(ref s, 17000) if s.name() == "s9"));
    let mut e = TypeinfoEnumFuture::new(17000);
    assert!(matches!(e.start(&client), EnumStep::Query(ref s, 17000) if s.name() == "s8"));
}

#[test]
fn older_servers_get_fallback_queries() {
    let mut client = Client::new(0, 0);
    let mut f = TypeinfoFuture::new(17001);
    f.start(&client);
    match f.prepared(&mut client, Err(undefined("42P01"))) {
        Ok(TypeinfoStep::Prepare(q)) => assert_eq!(q, TYPEINFO_FALLBACK_QUERY),
        _ => panic!("expected the fallback query"),
    }
    assert!(matches!(f.prepared(&mut client, Err(undefined("42P01"))), Err(Error::Db(_))));

    let mut e = TypeinfoEnumFuture::new(17001);
    e.start(&client);
    match e.prepared(&mut client, Err(undefined("42703"))) {
        Ok(EnumStep::Prepare(q)) => assert_eq!(q, TYPEINFO_ENUM_FALLBACK_QUERY),
        _ => panic!("expected the fallback query"),
    }
    let mut e = TypeinfoEnumFuture::new(17001);
    e.start(&client);
    assert!(matches!(e.prepared(&mut client, Err(undefined("42P01"))), Err(Error::Db(_))));
}

#[test]
fn array_of_builtin() {
    let mut client = Client::new(0, 0);
    client.typeinfo = Some(statement("s0"));
    let mut f = TypeinfoFuture::new(17002);
    f.start(&client);
    let step = f.rows(&mut client, Ok(vec![catalog_row("_int4", b'b', 23, None, 0, 0)])).unwrap();
    assert!(matches!(step, TypeinfoStep::Resolve(23)));
    let ty = f.type_resolved(&mut client, from_oid(23).unwrap());
    match ty.kind() {
        Kind::Array(inner) => assert_eq!(inner.oid(), 23),
        _ => panic!("expected an array"),
    }
    assert_eq!(client.cached_type(17002).unwrap().name(), "_int4");
}

#[test]
fn simple_and_missing_rows() {
    let mut client = Client::new(0, 0);
    client.typeinfo = Some(statement("s0"));
    let mut f = TypeinfoFuture::new(17003);
    f.start(&client);
    match f.rows(&mut client, Ok(vec![catalog_row("money2", b'b', 0, None, 0, 0)])) {
        Ok(TypeinfoStep::Finished(t)) => assert!(matches!(t.kind(), Kind::Simple)),
        _ => panic!("expected a simple type"),
    }
    let mut f = TypeinfoFuture::new(17004);
    f.start(&client);
    assert!(matches!(f.rows(&mut client, Ok(vec![])), Err(Error::UnexpectedMessage)));
}

#[test]
fn cache_keeps_first_entry() {
    let mut cache = TypeCache::new();
    assert!(cache.get(5).is_none());
    let a = tokio_postgres::types::Type::new("a".to_string(), 5, Kind::Simple, "s".to_string());
    let b = tokio_postgres::types::Type::new("b".to_string(), 5, Kind::Pseudo, "s".to_string());
    cache.insert(a);
    cache.insert(b);
    assert_eq!(cache.get(5).unwrap().name(), "a");
}

#[test]
fn enum_label_errors() {
    let mut e = TypeinfoEnumFuture::new(1);
    let client = Client::new(0, 0);
    e.start(&client);
    let mut client = client;
    e.prepared(&mut client, Ok(statement("s0"))).unwrap();
    assert!(matches!(e.rows(Ok(vec![vec![text("a")], vec![None]])), Err(Error::UnexpectedMessage)));
    let mut e = TypeinfoEnumFuture::new(1);
    assert!(matches!(e.start(&client), EnumStep::Query(_, 1)));
    assert!(matches!(e.rows(Ok(vec![vec![Some(vec![0xff])]])), Err(Error::FromSql(0))));
}

#[test]
fn composite_fields_resolve_in_order() {
    let mut client = Client::new(0, 0);
    let mut f = TypeinfoCompositeFuture::new(500);
    match f.start(&client) {
        CompositeStep::Prepare(q) => assert_eq!(
            q,
            "SELECT attname, atttypid FROM pg_attribute WHERE attrelid=$1 AND NOT attisdropped AND attnum > 0 ORDER BY attnum"
        ),
        _ => panic!("the column query is prepared first"),
    }
    assert_eq!(TYPEINFO_COMPOSITE_QUERY.len(), 112);
    assert!(matches!(f.prepared(&mut client, Ok(statement("s2"))), Ok(CompositeStep::Query(_, 500))));
    let step = f.rows(Ok(vec![vec![text("x"), oid(23)], vec![text("label"), oid(25)]])).unwrap();
    assert!(matches!(step, CompositeStep::Resolve(23)));
    assert!(matches!(f.field_resolved(from_oid(23).unwrap()), CompositeStep::Resolve(25)));
    match f.field_resolved(from_oid(25).unwrap()) {
        CompositeStep::Finished(fields) => {
            assert_eq!(fields.len(), 2);
            assert_eq!(fields[0].name, "x");
            assert_eq!(fields[0].type_.name(), "int4");
            assert_eq!(fields[1].name, "label");
            assert_eq!(fields[1].type_.name(), "text");
        }
        _ => panic!("expected the fields"),
    }
}

#[test]
fn composite_without_columns() {
    let mut client = Client::new(0, 0);
    client.typeinfo_composite = Some(statement("s3"));
    let mut f = TypeinfoCompositeFuture::new(501);
    assert!(matches!(f.start(&client), CompositeStep::Query(_, 501)));
    assert!(matches!(f.rows(Ok(vec![])), Ok(CompositeStep::Finished(v)) if v.is_empty()));
    let mut f = TypeinfoCompositeFuture::new(502);
    f.start(&client);
    assert!(matches!(f.rows(Ok(vec![vec![text("x")]])), Err(Error::UnexpectedMessage)));
    let _ = &mut client;
}

#[test]
fn cycles_are_cut() {
    assert!(in_progress(&[1, 2, 3], 2));
    assert!(!in_progress(&[1, 2, 3], 4));
    let t = cycle_placeholder(9);
    assert_eq!(t.oid(), 9);
    assert!(matches!(t.kind(), Kind::Simple));
}

#[test]
fn nested_resolutions_cut_cycles() {
    match start_nested(&TypeinfoStep::Resolve(40), &[30, 40]) {
        Nested::Cycle(t) => {
            assert_eq!(t.oid(), 40);
            assert!(matches!(t.kind(), Kind::Simple));
        }
        _ => panic!("40 is being resolved already"),
    }
    assert!(matches!(start_nested(&TypeinfoStep::Resolve(41), &[30, 40]), Nested::Type(_)));
    assert!(matches!(start_nested(&TypeinfoStep::ResolveEnum(42), &[]), Nested::Enum(_)));
    assert!(matches!(start_nested(&TypeinfoStep::ResolveComposite(43), &[43]), Nested::Composite(_)));
}
