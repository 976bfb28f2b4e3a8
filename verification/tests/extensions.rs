use consensus_select::chain_spec::Extensions;

#[test]
fn extensions_hold_relay_chain_and_para_id() {
    let ext = Extensions::new("rococo-local", 1000);
    assert_eq!(ext.relay_chain, "rococo-local");
    assert_eq!(ext.para_id, 1000);
}

#[test]
fn extensions_compare_by_fields() {
    let a = Extensions::new("westend", 2000);
    let b = Extensions::new("westend", 2000);
    let c = Extensions::new("westend", 2001);
    assert_eq!(a, b);
    assert_ne!(a, c);
}
