use pmc_ledger::composition::{select_portfolio_relationships, PortfolioRelationshipRow};
use pmc_ledger::versions::CompositionSnapshotReadError;

fn row(id: &str, b_id: &str, version: i64) -> PortfolioRelationshipRow {
    PortfolioRelationshipRow {
        id: id.to_string(),
        kind: "product_initiative".to_string(),
        a_type: "initiative".to_string(),
        a_id: "ini-1".to_string(),
        b_type: "product".to_string(),
        b_id: b_id.to_string(),
        version,
        classification: "internal".to_string(),
    }
}

#[test]
fn well_formed_relationships_are_kept_in_row_order() {
    let selected = select_portfolio_relationships(vec![row("rel-1", "prod-1", 1), row("rel-2", "prod-2", 3)]).unwrap();
    let ids: Vec<(&str, &str, u64)> = selected.iter().map(|r| (r.id.as_str(), r.b_id.as_str(), r.version)).collect();
    assert_eq!(ids, vec![("rel-1", "prod-1", 1), ("rel-2", "prod-2", 3)]);
    assert_eq!(selected[0].kind, "product_initiative");
    assert_eq!(selected[0].a_type, "initiative");
}

#[test]
fn a_relationship_with_several_rows_is_dropped() {
    let selected = select_portfolio_relationships(vec![
        row("rel-1", "prod-1", 1),
        row("rel-2", "prod-2", 1),
        row("rel-2", "prod-3", 1),
        row("rel-2", "prod-4", 1),
        row("rel-3", "prod-5", 2),
    ])
    .unwrap();
    let ids: Vec<&str> = selected.iter().map(|r| r.id.as_str()).collect();
    assert_eq!(ids, vec!["rel-1", "rel-3"]);
    assert!(select_portfolio_relationships(Vec::new()).unwrap().is_empty());
}

#[test]
fn a_non_positive_version_fails_the_read() {
    assert_eq!(
        select_portfolio_relationships(vec![row("rel-1", "prod-1", 0)]).map(|_| ()),
        Err(CompositionSnapshotReadError::ReadFailed)
    );
    // The version of a second row of the same relationship is not read.
    assert_eq!(select_portfolio_relationships(vec![row("rel-1", "prod-1", 1), row("rel-1", "prod-2", 0)]).unwrap().len(), 0);
}
