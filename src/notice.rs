use vstd::prelude::*;

verus! {

/// The event line of one settlement notice:
/// `INTENT_SETTLED intent_id=<id> dest=<chain>/<asset> txid=<tx>`.
pub open spec fn notice_line(
    intent_id: Seq<char>,
    dest_chain: Seq<char>,
    dest_asset: Seq<char>,
    txid: Seq<char>,
) -> Seq<char> {
    "INTENT_SETTLED intent_id="@ + intent_id + " dest="@ + dest_chain + "/"@ + dest_asset
        + " txid="@ + txid
}

/// Builds the event line of a settlement notice. The four fields are taken
/// as they are: no length, charset or format is checked.
pub fn settlement_line(intent_id: &str, dest_chain: &str, dest_asset: &str, txid: &str) -> (r:
    String)
    ensures
        r@ == notice_line(intent_id@, dest_chain@, dest_asset@, txid@),
{
    let mut line = String::new();
    line.append("INTENT_SETTLED intent_id=");
    line.append(intent_id);
    line.append(" dest=");
    line.append(dest_chain);
    line.append("/");
    line.append(dest_asset);
    line.append(" txid=");
    line.append(txid);
    line
}

} // verus!
