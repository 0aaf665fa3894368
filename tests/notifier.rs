use intent_router::{settlement_line, Deployment, IntentRouter, RouterError};

fn s(x: &str) -> String {
    x.to_string()
}

#[test]
fn example_notice_line() {
    let mut d = Deployment::new();
    assert_eq!(d.initialize(), Ok(()));
    assert_eq!(
        d.notify_settlement(s("intent-42"), s("ethereum"), s("USDC"), s("0xabc123")),
        Ok(())
    );
    assert_eq!(
        d.events(),
        &vec![s("INTENT_SETTLED intent_id=intent-42 dest=ethereum/USDC txid=0xabc123")]
    );
}

#[test]
fn router_returns_line() {
    let r = IntentRouter::new();
    let line = r.on_intent_settled(s("i-1"), s("near"), s("wNEAR"), s("tx9"));
    assert_eq!(line, "INTENT_SETTLED intent_id=i-1 dest=near/wNEAR txid=tx9");
}

#[test]
fn empty_fields_are_accepted() {
    assert_eq!(settlement_line("", "", "", ""), "INTENT_SETTLED intent_id= dest=/ txid=");
}

#[test]
fn fields_are_not_validated() {
    assert_eq!(
        settlement_line("a b=c", "x/y", "é", " "),
        "INTENT_SETTLED intent_id=a b=c dest=x/y/é txid= "
    );
}

#[test]
fn one_event_per_notice() {
    let mut d = Deployment::new();
    d.initialize().unwrap();
    assert_eq!(d.notify_settlement(s("a"), s("b"), s("c"), s("d")), Ok(()));
    assert_eq!(d.events().len(), 1);
    assert_eq!(d.events()[0], "INTENT_SETTLED intent_id=a dest=b/c txid=d");
}

#[test]
fn second_initialize_fails() {
    let mut d = Deployment::new();
    assert!(!d.is_initialized());
    assert_eq!(d.initialize(), Ok(()));
    assert!(d.is_initialized());
    assert_eq!(d.initialize(), Err(RouterError::InitializationError));
    assert!(d.is_initialized());
    assert!(d.events().is_empty());
}

#[test]
fn notify_before_initialize_is_rejected() {
    let mut d = Deployment::new();
    assert_eq!(
        d.notify_settlement(s("a"), s("b"), s("c"), s("d")),
        Err(RouterError::NotInitialized)
    );
    assert!(!d.is_initialized());
    assert!(d.events().is_empty());
}

#[test]
fn duplicates_are_not_merged() {
    let mut d = Deployment::new();
    d.initialize().unwrap();
    d.notify_settlement(s("x"), s("y"), s("z"), s("t")).unwrap();
    d.notify_settlement(s("x"), s("y"), s("z"), s("t")).unwrap();
    let line = s("INTENT_SETTLED intent_id=x dest=y/z txid=t");
    assert_eq!(d.events(), &vec![line.clone(), line]);
}

#[test]
fn events_keep_call_order() {
    let mut d = Deployment::new();
    d.initialize().unwrap();
    d.notify_settlement(s("first"), s("c1"), s("a1"), s("t1")).unwrap();
    d.notify_settlement(s("second"), s("c2"), s("a2"), s("t2")).unwrap();
    assert_eq!(
        d.events(),
        &vec![
            s("INTENT_SETTLED intent_id=first dest=c1/a1 txid=t1"),
            s("INTENT_SETTLED intent_id=second dest=c2/a2 txid=t2"),
        ]
    );
}
