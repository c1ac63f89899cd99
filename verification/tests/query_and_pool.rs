use duroxide_turso::errors::{Error, TursoError, TursoErrorKind};
use duroxide_turso::pool::{
    commit_statement, pool_closed_error, pool_size, pool_wide_timeout_error, rollback_statement,
    ConnectionState, IdleConnections, Sqlite, TransactionState,
};
use duroxide_turso::query::{
    first_row, mapped_from_rows, one_row, optional_mapped_from_rows, optional_scalar_from_rows,
    query, query_as, query_scalar, scalar_from_rows, Done,
};
use duroxide_turso::values::{DbRow, DbValue};

fn row(v: i64) -> DbRow {
    DbRow::new(vec![DbValue::Integer(v)], vec!["v".to_string()])
}

#[test]
fn binding_appends_parameters_in_order() {
    let q = query("SELECT ?1, ?2").bind(5i64).bind("x").bind(None::<String>);
    assert_eq!(q.sql(), "SELECT ?1, ?2");
    let (sql, params) = q.into_parts();
    assert_eq!(sql, "SELECT ?1, ?2");
    assert_eq!(params, vec![DbValue::Integer(5), DbValue::Text("x".into()), DbValue::Null]);
    let s = query_scalar::<Sqlite, i64>("SELECT 1").bind(2u64);
    assert_eq!(s.into_query().into_parts().1, vec![DbValue::Integer(2)]);
    let a = query_as::<Sqlite, (i64,)>("SELECT 1").bind(&3i64);
    assert_eq!(a.into_query().into_parts().1, vec![DbValue::Integer(3)]);
    assert_eq!(Done::new(4).rows_affected(), 4);
}

#[test]
fn fetch_results_take_the_first_row() {
    assert!(first_row(vec![]).is_none());
    assert_eq!(first_row(vec![row(1), row(2)]).unwrap().try_get::<i64, usize>(0).unwrap(), 1);
    assert!(matches!(one_row(vec![]), Err(Error::RowNotFound)));
    assert_eq!(scalar_from_rows::<i64>(vec![row(7), row(8)]).unwrap(), 7);
    assert!(matches!(scalar_from_rows::<i64>(vec![]), Err(Error::RowNotFound)));
    assert_eq!(optional_scalar_from_rows::<i64>(vec![]).unwrap(), None);
    assert_eq!(optional_scalar_from_rows::<String>(vec![row(9)]).unwrap(), Some("9".to_string()));
    assert_eq!(mapped_from_rows::<(i64,)>(vec![row(3)]).unwrap(), (3,));
    assert!(matches!(mapped_from_rows::<(i64,)>(vec![]), Err(Error::RowNotFound)));
    assert_eq!(optional_mapped_from_rows::<(i64,)>(vec![]).unwrap(), None);
}

#[test]
fn pool_opens_at_least_one_connection() {
    assert_eq!(pool_size(0), 1);
    assert_eq!(pool_size(5), 5);
    assert_eq!(commit_statement(), "COMMIT");
    assert_eq!(rollback_statement(), "ROLLBACK");
    assert_eq!(pool_closed_error().message(), "Turso connection pool closed");
    assert_eq!(
        pool_wide_timeout_error().message(),
        "Timed out acquiring Turso connection for pool-wide initialization"
    );
}

#[test]
fn idle_connections_are_last_in_first_out() {
    let mut idle: IdleConnections<u32> = IdleConnections::new();
    idle.checkin(ConnectionState::fresh(1));
    idle.checkin(ConnectionState::fresh(2));
    assert_eq!(idle.len(), 2);
    assert_eq!(idle.checkout().unwrap().conn, 2);
    idle.checkin(ConnectionState::fresh(3));
    assert_eq!(idle.checkout().unwrap().conn, 3);
    assert_eq!(idle.checkout().unwrap().conn, 1);
    match idle.checkout() {
        Err(e) => assert_eq!(e.message(), "Turso connection pool exhausted"),
        Ok(_) => panic!("an empty pool handed out a connection"),
    }
}

#[test]
fn abandoned_transaction_is_rolled_back_before_reuse() {
    let mut conn = ConnectionState::fresh(());
    let tx = TransactionState::begun();
    assert!(tx.active());
    tx.release(&mut conn);
    assert!(conn.needs_rollback());
    let failure = TursoError::new(TursoErrorKind::Busy, "locked");
    assert!(conn.settle_rollback(Err(failure)).is_err());
    assert!(conn.needs_rollback());
    let no_tx = TursoError::new(TursoErrorKind::Error, "cannot rollback - no transaction is active");
    assert!(conn.settle_rollback(Err(no_tx)).is_ok());
    assert!(!conn.needs_rollback());
}

#[test]
fn finished_transaction_leaves_no_debt() {
    let mut conn = ConnectionState::fresh(());
    let mut tx = TransactionState::begun();
    let failed = tx.settle(Err(TursoError::new(TursoErrorKind::BusySnapshot, "conflict")));
    assert!(matches!(failed, Err(Error::Turso(_))));
    assert!(tx.active());
    assert!(tx.settle(Ok(())).is_ok());
    assert!(!tx.active());
    tx.release(&mut conn);
    assert!(!conn.needs_rollback());
    let mut owed = ConnectionState { conn: (), rollback_needed: true };
    assert!(owed.settle_rollback(Ok(())).is_ok());
    assert!(!owed.needs_rollback());
}
