use vstd::prelude::*;

use crate::notice::{notice_line, settlement_line};

verus! {

/// The notifier instance. It holds no state of its own: its existence is
/// what marks a deployment as initialized.
pub struct IntentRouter {}

/// Why the hosting runtime rejected a call.
#[derive(Debug, Clone, Copy, PartialEq, Eq, Structural)]
pub enum RouterError {
    /// `initialize` was called on a deployment that already holds an instance.
    InitializationError,
    /// A call reached a deployment that holds no instance yet.
    NotInitialized,
}

impl IntentRouter {
    /// Creates the instance.
    pub fn new() -> (r: Self)
        ensures
            r == (IntentRouter {}),
    {
        IntentRouter {  }
    }

    /// Records a settlement notice: returns the one event line that the
    /// call emits. No authorization or deduplication is performed.
    pub fn on_intent_settled(
        &self,
        intent_id: String,
        dest_chain: String,
        dest_asset: String,
        txid: String,
    ) -> (r: String)
        ensures
            r@ == notice_line(intent_id@, dest_chain@, dest_asset@, txid@),
    {
        settlement_line(intent_id.as_str(), dest_chain.as_str(), dest_asset.as_str(), txid.as_str())
    }
}

/// What a deployment is, abstractly: whether it holds an initialized
/// instance, and the event lines it has emitted, oldest first.
pub struct DeploymentModel {
    pub initialized: bool,
    pub events: Seq<Seq<char>>,
}

/// The deployment after an `initialize` call, and the call's outcome.
pub open spec fn initialize_step(d: DeploymentModel) -> (DeploymentModel, Result<(), RouterError>) {
    if d.initialized {
        (d, Err(RouterError::InitializationError))
    } else {
        (DeploymentModel { initialized: true, events: d.events }, Ok(()))
    }
}

/// The deployment after a `notify_settlement` call, and the call's outcome.
pub open spec fn notify_step(
    d: DeploymentModel,
    intent_id: Seq<char>,
    dest_chain: Seq<char>,
    dest_asset: Seq<char>,
    txid: Seq<char>,
) -> (DeploymentModel, Result<(), RouterError>) {
    if !d.initialized {
        (d, Err(RouterError::NotInitialized))
    } else {
        (
            DeploymentModel {
                initialized: true,
                events: d.events.push(notice_line(intent_id, dest_chain, dest_asset, txid)),
            },
            Ok(()),
        )
    }
}

/// A hosting account: at most one instance, created once and never
/// removed, and the append-only stream of events its calls emitted.
pub struct Deployment {
    instance: Option<IntentRouter>,
    events: Vec<String>,
}

impl View for Deployment {
    type V = DeploymentModel;

    closed spec fn view(&self) -> DeploymentModel {
        DeploymentModel {
            initialized: self.instance is Some,
            events: self.events@.map_values(|s: String| s@),
        }
    }
}

impl Deployment {
    /// An account with no instance and no events.
    pub fn new() -> (r: Self)
        ensures
            r@ == fresh(),
    {
        let r = Deployment { instance: None, events: Vec::new() };
        assert(r@.events =~= fresh().events);
        r
    }

    /// Whether the account holds an initialized instance.
    pub fn is_initialized(&self) -> (r: bool)
        ensures
            r == self@.initialized,
    {
        self.instance.is_some()
    }

    /// The event lines emitted so far, oldest first.
    pub fn events(&self) -> (r: &Vec<String>)
        ensures
            r@.map_values(|s: String| s@) == self@.events,
    {
        &self.events
    }

    /// Creates the instance; fails, changing nothing, if there is one already.
    pub fn initialize(&mut self) -> (r: Result<(), RouterError>)
        ensures
            (final(self)@, r) == initialize_step(old(self)@),
    {
        if self.instance.is_some() {
            Err(RouterError::InitializationError)
        } else {
            self.instance = Some(IntentRouter::new());
            Ok(())
        }
    }

    /// Dispatches a settlement notice to the instance and appends the line it
    /// emits to the event stream; rejected, changing nothing, before
    /// initialization.
    pub fn notify_settlement(
        &mut self,
        intent_id: String,
        dest_chain: String,
        dest_asset: String,
        txid: String,
    ) -> (r: Result<(), RouterError>)
        ensures
            (final(self)@, r) == notify_step(old(self)@, intent_id@, dest_chain@, dest_asset@, txid@),
    {
        match &self.instance {
            None => Err(RouterError::NotInitialized),
            Some(router) => {
                let line = router.on_intent_settled(intent_id, dest_chain, dest_asset, txid);
                let ghost before = self.events@;
                let ghost l = line@;
                self.events.push(line);
                assert(self.events@.map_values(|s: String| s@) =~= before.map_values(
                    |s: String| s@,
                ).push(l));
                Ok(())
            }
        }
    }
}

/// The deployment that a fresh account starts as.
pub open spec fn fresh() -> DeploymentModel {
    DeploymentModel { initialized: false, events: Seq::empty() }
}

/// After initialization, every notice succeeds and emits exactly one event,
/// the notice's line.
pub proof fn lemma_notify_after_initialize(
    intent_id: Seq<char>,
    dest_chain: Seq<char>,
    dest_asset: Seq<char>,
    txid: Seq<char>,
)
    ensures
        ({
            let (d1, r1) = initialize_step(fresh());
            let (d2, r2) = notify_step(d1, intent_id, dest_chain, dest_asset, txid);
            &&& r1 is Ok
            &&& r2 is Ok
            &&& d2.events == seq![notice_line(intent_id, dest_chain, dest_asset, txid)]
        }),
{
    let (d1, r1) = initialize_step(fresh());
    let (d2, r2) = notify_step(d1, intent_id, dest_chain, dest_asset, txid);
    assert(d2.events =~= seq![notice_line(intent_id, dest_chain, dest_asset, txid)]);
}

/// A second initialization fails with an initialization error and leaves the
/// deployment as the first one made it.
pub proof fn lemma_initialize_twice(d: DeploymentModel)
    requires
        !d.initialized,
    ensures
        ({
            let (d1, r1) = initialize_step(d);
            let (d2, r2) = initialize_step(d1);
            &&& r1 is Ok
            &&& d1.initialized
            &&& r2 == Err::<(), RouterError>(RouterError::InitializationError)
            &&& d2 == d1
        }),
{
}

/// Before initialization a notice is rejected and nothing is emitted.
pub proof fn lemma_notify_before_initialize(
    d: DeploymentModel,
    intent_id: Seq<char>,
    dest_chain: Seq<char>,
    dest_asset: Seq<char>,
    txid: Seq<char>,
)
    requires
        !d.initialized,
    ensures
        notify_step(d, intent_id, dest_chain, dest_asset, txid) == (d, Err::<(), RouterError>(
            RouterError::NotInitialized,
        )),
{
}

/// The same notice sent twice emits two identical events: nothing is
/// deduplicated.
pub proof fn lemma_no_deduplication(
    d: DeploymentModel,
    intent_id: Seq<char>,
    dest_chain: Seq<char>,
    dest_asset: Seq<char>,
    txid: Seq<char>,
)
    requires
        d.initialized,
    ensures
        ({
            let line = notice_line(intent_id, dest_chain, dest_asset, txid);
            let (d1, r1) = notify_step(d, intent_id, dest_chain, dest_asset, txid);
            let (d2, r2) = notify_step(d1, intent_id, dest_chain, dest_asset, txid);
            &&& r1 is Ok
            &&& r2 is Ok
            &&& d2.events.len() == d.events.len() + 2
            &&& d2.events == d.events + seq![line, line]
        }),
{
    let line = notice_line(intent_id, dest_chain, dest_asset, txid);
    let (d1, r1) = notify_step(d, intent_id, dest_chain, dest_asset, txid);
    let (d2, r2) = notify_step(d1, intent_id, dest_chain, dest_asset, txid);
    assert(d2.events =~= d.events + seq![line, line]);
}

/// Two notices emit their events in the order the calls were made, after
/// every event emitted before them.
pub proof fn lemma_order_kept(
    d: DeploymentModel,
    first: (Seq<char>, Seq<char>, Seq<char>, Seq<char>),
    second: (Seq<char>, Seq<char>, Seq<char>, Seq<char>),
)
    requires
        d.initialized,
    ensures
        ({
            let (d1, r1) = notify_step(d, first.0, first.1, first.2, first.3);
            let (d2, r2) = notify_step(d1, second.0, second.1, second.2, second.3);
            d2.events == d.events + seq![
                notice_line(first.0, first.1, first.2, first.3),
                notice_line(second.0, second.1, second.2, second.3),
            ]
        }),
{
    let (d1, r1) = notify_step(d, first.0, first.1, first.2, first.3);
    let (d2, r2) = notify_step(d1, second.0, second.1, second.2, second.3);
    assert(d2.events =~= d.events + seq![
        notice_line(first.0, first.1, first.2, first.3),
        notice_line(second.0, second.1, second.2, second.3),
    ]);
}

} // verus!
