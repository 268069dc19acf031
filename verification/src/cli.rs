//! The pure parts of the `star-escrow` command-line client: the argument list
//! handed to the Stellar CLI, and the selection of the escrows a payer created
//! among the contract's events.

use vstd::prelude::*;

verus! {

/// The arguments of `stellar contract invoke` for calling `function` on a
/// contract, signed with `secret`, followed by the function's own arguments.
pub open spec fn invoke_arguments(
    rpc_url: Seq<char>,
    network_passphrase: Seq<char>,
    contract_id: Seq<char>,
    secret: Seq<char>,
    function: Seq<char>,
    extra_args: Seq<Seq<char>>,
) -> Seq<Seq<char>> {
    seq![
        "contract"@,
        "invoke"@,
        "--id"@,
        contract_id,
        "--rpc-url"@,
        rpc_url,
        "--network-passphrase"@,
        network_passphrase,
        "--source"@,
        secret,
        "--"@,
        function,
    ] + extra_args
}

/// The texts of a list of strings.
pub open spec fn texts(strings: Seq<String>) -> Seq<Seq<char>> {
    strings.map_values(|s: String| s@)
}

/// The texts of a list of string slices.
pub open spec fn slice_texts(strings: Seq<&str>) -> Seq<Seq<char>> {
    strings.map_values(|s: &str| s@)
}

/// The layout of the `stellar contract invoke` arguments: the contract id,
/// RPC URL, network passphrase and secret each follow their flag, the function
/// name follows `--`, and the function's own arguments come last, in order.
pub proof fn lemma_invoke_arguments_layout(
    rpc_url: Seq<char>,
    network_passphrase: Seq<char>,
    contract_id: Seq<char>,
    secret: Seq<char>,
    function: Seq<char>,
    extra_args: Seq<Seq<char>>,
)
    ensures
        ({
            let args = invoke_arguments(
                rpc_url,
                network_passphrase,
                contract_id,
                secret,
                function,
                extra_args,
            );
            &&& args.len() == 12 + extra_args.len()
            &&& args[0] == "contract"@ && args[1] == "invoke"@
            &&& args[2] == "--id"@ && args[3] == contract_id
            &&& args[4] == "--rpc-url"@ && args[5] == rpc_url
            &&& args[6] == "--network-passphrase"@ && args[7] == network_passphrase
            &&& args[8] == "--source"@ && args[9] == secret
            &&& args[10] == "--"@ && args[11] == function
            &&& forall|i: int| 0 <= i < extra_args.len() ==> args[12 + i] == extra_args[i]
        }),
{
}

/// Builds the argument list of `stellar contract invoke` for calling
/// `function` on `contract_id`, followed by `extra_args`.
pub fn invoke_args(
    rpc_url: &str,
    network_passphrase: &str,
    contract_id: &str,
    secret: &str,
    function: &str,
    extra_args: &[&str],
) -> (res: Vec<String>)
    ensures
        texts(res@) == invoke_arguments(
            rpc_url@,
            network_passphrase@,
            contract_id@,
            secret@,
            function@,
            slice_texts(extra_args@),
        ),
{
    let mut args: Vec<String> = Vec::new();
    args.push(String::from_str("contract"));
    args.push(String::from_str("invoke"));
    args.push(String::from_str("--id"));
    args.push(String::from_str(contract_id));
    args.push(String::from_str("--rpc-url"));
    args.push(String::from_str(rpc_url));
    args.push(String::from_str("--network-passphrase"));
    args.push(String::from_str(network_passphrase));
    args.push(String::from_str("--source"));
    args.push(String::from_str(secret));
    args.push(String::from_str("--"));
    args.push(String::from_str(function));
    let ghost head = texts(args@);
    assert(head =~= invoke_arguments(
        rpc_url@,
        network_passphrase@,
        contract_id@,
        secret@,
        function@,
        Seq::empty(),
    ));
    let mut i: usize = 0;
    while i < extra_args.len()
        invariant
            i <= extra_args@.len(),
            texts(args@) =~= head + slice_texts(extra_args@).take(i as int),
            head.len() == 12,
        decreases extra_args@.len() - i,
    {
        let ghost before = args@;
        args.push(String::from_str(extra_args[i]));
        proof {
            assert(texts(args@) =~= texts(before).push(extra_args@[i as int]@));
            assert(slice_texts(extra_args@).take(i + 1) =~= slice_texts(extra_args@).take(
                i as int,
            ).push(extra_args@[i as int]@));
        }
        i = i + 1;
    }
    proof {
        assert(slice_texts(extra_args@).take(i as int) =~= slice_texts(extra_args@));
    }
    args
}

/// A JSON value as the client reads it: its string, where it is a JSON string,
/// and its compact JSON text.
#[derive(Debug)]
pub struct JsonItem {
    pub text: Option<String>,
    pub json: String,
}

impl Clone for JsonItem {
    fn clone(&self) -> (res: Self)
        ensures
            res == *self,
    {
        let text = match &self.text {
            Some(t) => Some(t.clone()),
            None => None,
        };
        JsonItem { text, json: self.json.clone() }
    }
}

/// A contract event as the Stellar CLI lists it: the elements of its `topic`
/// array and of its `value` array.
#[derive(Debug)]
pub struct EventRecord {
    pub topics: Vec<JsonItem>,
    pub values: Vec<JsonItem>,
}

/// An escrow that a payer created, as the client lists it.
#[derive(Debug)]
pub struct EscrowListing {
    pub contract_id: String,
    pub payer: JsonItem,
    pub freelancer: JsonItem,
    pub amount: JsonItem,
    pub milestone: JsonItem,
}

/// The view of a JSON item: its string, if any, and its JSON text.
pub type ItemView = (Option<Seq<char>>, Seq<char>);

/// The view of an event: its topics and its values.
pub type EventView = (Seq<ItemView>, Seq<ItemView>);

/// The view of a listing: contract id, payer, freelancer, amount, milestone.
pub type ListingView = (Seq<char>, ItemView, ItemView, ItemView, ItemView);

pub open spec fn item_view(item: JsonItem) -> ItemView {
    (
        match item.text {
            Some(t) => Some(t@),
            None => None,
        },
        item.json@,
    )
}

pub open spec fn items_view(items: Seq<JsonItem>) -> Seq<ItemView> {
    items.map_values(|item: JsonItem| item_view(item))
}

pub open spec fn record_view(record: EventRecord) -> EventView {
    (items_view(record.topics@), items_view(record.values@))
}

pub open spec fn records_view(records: Seq<EventRecord>) -> Seq<EventView> {
    records.map_values(|record: EventRecord| record_view(record))
}

pub open spec fn listing_view(listing: EscrowListing) -> ListingView {
    (
        listing.contract_id@,
        item_view(listing.payer),
        item_view(listing.freelancer),
        item_view(listing.amount),
        item_view(listing.milestone),
    )
}

pub open spec fn listings_view(listings: Seq<EscrowListing>) -> Seq<ListingView> {
    listings.map_values(|listing: EscrowListing| listing_view(listing))
}

/// What `serde_json::from_str::<Vec<serde_json::Value>>` makes of `raw`, read
/// as events: for each element of the array, the elements of its `topic` and
/// of its `value` arrays (none where the field is missing or not an array),
/// each as its string and its compact JSON text. `None` where `raw` is not a
/// JSON array.
pub uninterp spec fn json_events(raw: Seq<char>) -> Option<Seq<EventView>>;

/// Trusted: parses `raw` with `serde_json::from_str` into a list of JSON values
/// and reads each as an event; the result is named by `json_events`.
#[verifier::external_body]
pub fn parse_events(raw: &str) -> (res: Option<Vec<EventRecord>>)
    ensures
        match res {
            Some(records) => json_events(raw@) == Some(records_view(records@)),
            None => json_events(raw@) is None,
        },
{
    let events: Vec<serde_json::Value> = serde_json::from_str(raw).ok()?;
    let items = |v: &serde_json::Value| -> Vec<JsonItem> {
        match v {
            serde_json::Value::Array(a) => a.iter().map(
                |x| JsonItem { text: x.as_str().map(String::from), json: x.to_string() },
            ).collect(),
            _ => Vec::new(),
        }
    };
    Some(events.iter().map(|e| EventRecord { topics: items(&e["topic"]), values: items(&e["value"]) }).collect())
}

/// JSON `null`, what indexing past the end of an array gives.
pub open spec fn null_view() -> ItemView {
    (None, "null"@)
}

/// Element `k` of an array, or `null` past its end.
pub open spec fn item_at(items: Seq<ItemView>, k: int) -> ItemView {
    if 0 <= k < items.len() {
        items[k]
    } else {
        null_view()
    }
}

/// The string of an item, or the empty string where it is not a string.
pub open spec fn text_or_empty(item: ItemView) -> Seq<char> {
    match item.0 {
        Some(t) => t,
        None => Seq::empty(),
    }
}

/// Whether the event records an escrow created by `payer`: its first topic is
/// the string `escrow_created` and its first value, the payer, reads `payer`.
pub open spec fn created_by(event: EventView, payer: Seq<char>) -> bool {
    &&& item_at(event.0, 0).0 == Some("escrow_created"@)
    &&& text_or_empty(item_at(event.1, 0)) == payer
}

/// The listing of an `escrow_created` event, whose values are payer,
/// freelancer, amount and milestone.
pub open spec fn listing_of(event: EventView, contract_id: Seq<char>) -> ListingView {
    (
        contract_id,
        item_at(event.1, 0),
        item_at(event.1, 1),
        item_at(event.1, 2),
        item_at(event.1, 3),
    )
}

/// The listings, in order, of the escrows among `events` that `payer` created.
pub open spec fn listings(events: Seq<EventView>, contract_id: Seq<char>, payer: Seq<char>) -> Seq<
    ListingView,
>
    decreases events.len(),
{
    if events.len() == 0 {
        Seq::empty()
    } else {
        let earlier = listings(events.drop_last(), contract_id, payer);
        if created_by(events.last(), payer) {
            earlier.push(listing_of(events.last(), contract_id))
        } else {
            earlier
        }
    }
}

/// Every escrow listed for `payer` was created by `payer`: the payer field of
/// each listing reads as `payer` (a non-string payer only when `payer` is
/// empty), and each carries the contract id asked for.
pub proof fn lemma_listed_only_for_payer(
    events: Seq<EventView>,
    contract_id: Seq<char>,
    payer: Seq<char>,
)
    ensures
        forall|k: int|
            0 <= k < listings(events, contract_id, payer).len() ==> text_or_empty(
                (#[trigger] listings(events, contract_id, payer)[k]).1,
            ) == payer && listings(events, contract_id, payer)[k].0 == contract_id,
    decreases events.len(),
{
    if events.len() > 0 {
        let earlier = listings(events.drop_last(), contract_id, payer);
        lemma_listed_only_for_payer(events.drop_last(), contract_id, payer);
        let all = listings(events, contract_id, payer);
        assert forall|k: int| 0 <= k < all.len() implies text_or_empty((#[trigger] all[k]).1)
            == payer && all[k].0 == contract_id by {
            if k < earlier.len() {
                assert(all[k] == earlier[k]);
            }
        }
    }
}

/// How one more event changes the listing: an `escrow_created` event whose
/// first value is the string `payer` adds, at the end, its payer, freelancer,
/// amount and milestone (its first four values); an event whose first value
/// is another string, or whose first topic is not `escrow_created`, adds
/// nothing, whatever its other values.
pub proof fn lemma_listing_of_one_more_event(
    events: Seq<EventView>,
    event: EventView,
    contract_id: Seq<char>,
    payer: Seq<char>,
)
    ensures
        event.0.len() > 0 && event.0[0].0 == Some("escrow_created"@) && event.1.len() >= 4
            && event.1[0].0 == Some(payer) ==> listings(events.push(event), contract_id, payer)
            == listings(events, contract_id, payer).push(
            (contract_id, event.1[0], event.1[1], event.1[2], event.1[3]),
        ),
        event.1.len() > 0 && event.1[0].0 is Some && event.1[0].0 != Some(payer) ==> listings(
            events.push(event),
            contract_id,
            payer,
        ) == listings(events, contract_id, payer),
        event.0.len() == 0 || event.0[0].0 != Some("escrow_created"@) ==> listings(
            events.push(event),
            contract_id,
            payer,
        ) == listings(events, contract_id, payer),
{
    assert(events.push(event).drop_last() =~= events);
    assert(events.push(event).last() == event);
}

/// Element `k` of an array, or `null` past its end.
fn json_item_at(items: &Vec<JsonItem>, k: usize) -> (res: JsonItem)
    ensures
        item_view(res) == item_at(items_view(items@), k as int),
{
    if k < items.len() {
        items[k].clone()
    } else {
        JsonItem { text: None, json: String::from_str("null") }
    }
}

/// The listings of the escrows that `payer` created, among the events read
/// from the Stellar CLI's output; no events where the output could not be read.
pub fn listings_from(events: Option<Vec<EventRecord>>, contract_id: &str, payer: &str) -> (res: Vec<
    EscrowListing,
>)
    ensures
        listings_view(res@) == match events {
            Some(records) => listings(records_view(records@), contract_id@, payer@),
            None => Seq::<ListingView>::empty(),
        },
{
    let mut res: Vec<EscrowListing> = Vec::new();
    let records = match events {
        Some(records) => records,
        None => {
            assert(listings_view(res@) =~= Seq::<ListingView>::empty());
            return res;
        },
    };
    let topic = String::from_str("escrow_created");
    let payer_text = String::from_str(payer);
    let empty = String::new();
    let ghost all = records_view(records@);
    let mut i: usize = 0;
    while i < records.len()
        invariant
            i <= records@.len(),
            all == records_view(records@),
            topic@ == "escrow_created"@,
            payer_text@ == payer@,
            empty@ == Seq::<char>::empty(),
            listings_view(res@) == listings(all.take(i as int), contract_id@, payer@),
        decreases records@.len() - i,
    {
        let record = &records[i];
        let first_topic = json_item_at(&record.topics, 0);
        let first_value = json_item_at(&record.values, 0);
        let topic_matches = match &first_topic.text {
            Some(t) => *t == topic,
            None => false,
        };
        let payer_matches = match &first_value.text {
            Some(t) => *t == payer_text,
            None => payer_text == empty,
        };
        proof {
            assert(all.take(i + 1).drop_last() =~= all.take(i as int));
            assert(all.take(i + 1).last() == record_view(*record));
            assert(payer_matches == (text_or_empty(item_view(first_value)) == payer@));
        }
        if topic_matches && payer_matches {
            let listing = EscrowListing {
                contract_id: String::from_str(contract_id),
                payer: first_value,
                freelancer: json_item_at(&record.values, 1),
                amount: json_item_at(&record.values, 2),
                milestone: json_item_at(&record.values, 3),
            };
            let ghost before = res@;
            res.push(listing);
            proof {
                assert(listings_view(res@) =~= listings_view(before).push(listing_view(listing)));
            }
        }
        i = i + 1;
    }
    proof {
        assert(all.take(i as int) =~= all);
    }
    res
}

/// The escrows that `payer` created, listed from the raw JSON that
/// `stellar contract events --output json` prints for the contract.
pub fn escrows_listed(raw: &str, contract_id: &str, payer: &str) -> (res: Vec<EscrowListing>)
    ensures
        listings_view(res@) == match json_events(raw@) {
            Some(events) => listings(events, contract_id@, payer@),
            None => Seq::<ListingView>::empty(),
        },
{
    listings_from(parse_events(raw), contract_id, payer)
}

} // verus!
