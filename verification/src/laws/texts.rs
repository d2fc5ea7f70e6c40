//! What is written down and what is read of a value: the text for each message, the
//! numerals in an address, what each value shows of itself, and what a container holds.
use crate::broker::{BrokerEvent, EpicboxBroker};
use crate::channel::{teardown, ChannelSettings};
use crate::controller::{is_onion_order, EpicboxController, Publisher, SubscriptionHandler};
use crate::effect::{Effect, EffectView, FinalizedSlate, Reply, Step, StepView};
use crate::error::{outcome_view, CloseReason, Error, ErrorView};
use crate::listener::{
    own_address_query, relay_url_text, ContainerView, EpicboxListener,
    EpicboxPublisher, Listener, ListenerInterface,
};
use crate::protocol::{
    ProtocolError, ProtocolRequest, ProtocolRequestV2, ProtocolResponse, ProtocolResponseV2,
    RequestV2View, RequestView,
};
use crate::subscribe::EpicboxClient;
use crate::text::{decimal, numeral_value};
use crate::wallet::{EpicboxAddress, EpicboxConfig, Slate};
use uuid::Uuid;
use vstd::prelude::*;

verus! {

/// The two protocol versions describe a request that both know alike. The text names the
/// addresses and the transaction, and whatever is signed or sent with it stays out of it.
pub proof fn law_requests_are_described_alike(
    address: String,
    from: String,
    to: String,
    epicboxtxid: Option<String>,
    first: (String, String, Option<String>),
    second: (String, String, Option<String>),
    ver: String,
)
    ensures
        ProtocolRequest::Challenge.text() == "Challenge"@,
        ProtocolRequestV2::Challenge.text() == "Challenge"@,
        (ProtocolRequest::Subscribe { address, signature: first.0 }).text() == "Subscribe to "@
            + address@,
        (ProtocolRequestV2::Subscribe { address, ver, signature: second.0 }).text()
            == "Subscribe to "@ + address@,
        (ProtocolRequest::Unsubscribe { address }).text() == "Unsubscribe from "@ + address@,
        (ProtocolRequestV2::Unsubscribe { address }).text() == "Unsubscribe from "@ + address@,
        ({
            let v1 = ProtocolRequest::PostSlate {
                from,
                to,
                str: first.0,
                signature: first.1,
                epicboxtxid,
                epicboxtxidsig: first.2,
            };
            let v2 = ProtocolRequestV2::PostSlate {
                from,
                to,
                str: second.0,
                signature: second.1,
                epicboxtxid,
                epicboxtxidsig: second.2,
            };
            let route = "PostSlate from "@ + from@ + " to "@ + to@;
            &&& v1.text() == v2.text()
            &&& epicboxtxid is None ==> v1.text() == route
            &&& epicboxtxid matches Some(txid) ==> v1.text() == route + " for epicboxtxid "@ + txid@
        }),
{
}

/// The requests that only the second version knows name their identifier or their client,
/// and no signature.
pub proof fn law_later_requests_are_described(
    address: String,
    signature: String,
    ver: String,
    epicboxmsgid: String,
    epicboxtxid: String,
    wallet_version: String,
    wallet_mode: String,
    protocol_version: String,
)
    ensures
        (ProtocolRequestV2::Made { address, signature, ver, epicboxmsgid }).text()
            == "Made for epicboxmsgid "@ + epicboxmsgid@,
        (ProtocolRequestV2::ClientDetails { wallet_version, wallet_mode, protocol_version }).text()
            == "Wallet Version "@ + wallet_version@ + ", Wallet Mode "@ + wallet_mode@
            + ", Protocol Version "@ + protocol_version@,
        (ProtocolRequestV2::CancelTx { address, epicboxtxid, signature }).text()
            == "CancelTx for epicboxtxid "@ + epicboxtxid@ + " as "@ + address@,
{
}

/// Each relay error has its own words, and a response that brings one says no more, in
/// either version.
pub proof fn law_relay_errors_are_described(kind: ProtocolError, first: String, second: String)
    ensures
        kind.text() == (match kind {
            ProtocolError::UnknownError => "unknown error!"@,
            ProtocolError::InvalidRequest => "invalid request!"@,
            ProtocolError::InvalidSignature => "invalid signature!"@,
            ProtocolError::InvalidChallenge => "invalid challenge!"@,
            ProtocolError::TooManySubscriptions => "too many subscriptions!"@,
        }),
        (ProtocolResponse::Error { kind, description: first }).text() == "error: "@ + kind.text(),
        (ProtocolResponseV2::Error { kind, description: second }).text() == "error: "@
            + kind.text(),
{
}

/// A response names what it identifies and whom it is from; the sealed Slate, its
/// signature and its challenge stay out of the text.
pub proof fn law_responses_are_described(
    text: String,
    from: String,
    hidden: (String, String, String, String),
    epicboxmsgid: String,
    epicboxtxid: String,
)
    ensures
        ProtocolResponse::Okay.text() == "Ok"@,
        (ProtocolResponse::Challenge { str: text }).text() == "Challenge "@ + text@,
        (ProtocolResponse::Slate {
            from,
            str: hidden.0,
            signature: hidden.1,
            challenge: hidden.2,
        }).text() == "Slate from "@ + from@,
        (ProtocolResponseV2::Okay { epicboxmsgid: None, epicboxtxid: None }).text() == "Ok"@,
        (ProtocolResponseV2::Okay {
            epicboxmsgid: Some(epicboxmsgid),
            epicboxtxid: None,
        }).text() == "Ok (epicboxmsgid "@ + epicboxmsgid@ + ")"@,
        (ProtocolResponseV2::Okay {
            epicboxmsgid: None,
            epicboxtxid: Some(epicboxtxid),
        }).text() == "Ok (epicboxtxid "@ + epicboxtxid@ + ")"@,
        (ProtocolResponseV2::Okay {
            epicboxmsgid: Some(epicboxmsgid),
            epicboxtxid: Some(epicboxtxid),
        }).text() == "Ok (epicboxmsgid "@ + epicboxmsgid@ + ", epicboxtxid "@ + epicboxtxid@ + ")"@,
        (ProtocolResponseV2::Challenge { str: text }).text() == "Challenge "@ + text@,
        (ProtocolResponseV2::GetVersion { str: text }).text() == "Version "@ + text@,
        (ProtocolResponseV2::TransactionCancelled { epicboxtxid }).text() == "transaction "@
            + epicboxtxid@ + " cancelled on relay"@,
        ({
            let new = ProtocolResponseV2::Slate {
                from,
                str: hidden.0,
                challenge: hidden.1,
                signature: hidden.2,
                ver: hidden.3,
                epicboxmsgid,
                epicboxtxid: None,
            };
            let known = ProtocolResponseV2::Slate {
                from,
                str: hidden.0,
                challenge: hidden.1,
                signature: hidden.2,
                ver: hidden.3,
                epicboxmsgid,
                epicboxtxid: Some(epicboxtxid),
            };
            &&& new.text() == "Slate from "@ + from@ + " with epicboxmsgid "@ + epicboxmsgid@
            &&& known.text() == new.text() + " for epicboxtxid "@ + epicboxtxid@
        }),
{
}

/// A numeral is made of decimal digits, does not begin with a zero unless it is the
/// numeral of zero, and reads back as its number.
pub proof fn law_numerals_are_decimal(n: nat)
    ensures
        decimal(n).len() > 0,
        forall|i: int| 0 <= i < decimal(n).len() ==> '0' <= #[trigger] decimal(n)[i] <= '9',
        n > 0 ==> decimal(n)[0] != '0',
        n == 0 ==> decimal(n) == seq!['0'],
        numeral_value(decimal(n)) == n,
    decreases n,
{
    crate::text::decimal_reads_back(n);
    if n >= 10 {
        law_numerals_are_decimal(n / 10);
    }
}

/// A relay is reached without TLS exactly where the settings say so, and on the address's
/// own port where it has one. The wallet's own address is the first that it derives.
pub proof fn law_relay_is_reached_as_set(config: EpicboxConfig, address: EpicboxAddress)
    ensures
        ({
            let plain = config.epicbox_protocol_unsecure == Some(true);
            let at = |port: nat|
                (if plain {
                    "ws://"@
                } else {
                    "wss://"@
                }) + address.domain@ + ":"@ + decimal(port);
            &&& address.port matches Some(port) ==> relay_url_text(config, address) == at(
                port as nat,
            )
            &&& address.port is None && plain ==> relay_url_text(config, address) == at(80)
            &&& address.port is None && !plain ==> relay_url_text(config, address) == at(443)
        }),
        own_address_query(config) matches EffectView::DeriveAddress { index, domain, port }
            && index == 0 && port == config.epicbox_port && (match config.epicbox_domain {
            Some(text) => domain == Some(text@),
            None => domain is None,
        }),
{
}

/// Requests show all that they carry.
pub proof fn law_requests_show_their_fields(
    address: String,
    signature: String,
    ver: String,
    from: String,
    to: String,
    str: String,
    epicboxtxid: Option<String>,
    epicboxtxidsig: Option<String>,
    id: String,
)
    ensures
        ({
            let opened = |text: Option<String>|
                match text {
                    Some(inner) => Some(inner@),
                    None => None::<Seq<char>>,
                };
            &&& ProtocolRequest::Challenge@ == RequestView::Challenge
            &&& (ProtocolRequest::Subscribe { address, signature })@ == (RequestView::Subscribe {
                address: address@,
                signature: signature@,
            })
            &&& (ProtocolRequest::PostSlate {
                from,
                to,
                str,
                signature,
                epicboxtxid,
                epicboxtxidsig,
            })@ == (RequestView::PostSlate {
                from: from@,
                to: to@,
                str: str@,
                signature: signature@,
                epicboxtxid: opened(epicboxtxid),
                epicboxtxidsig: opened(epicboxtxidsig),
            })
            &&& (ProtocolRequest::Unsubscribe { address })@ == (RequestView::Unsubscribe {
                address: address@,
            })
            &&& ProtocolRequestV2::Challenge@ == RequestV2View::Challenge
            &&& (ProtocolRequestV2::Subscribe { address, ver, signature })@ == (
            RequestV2View::Subscribe { address: address@, ver: ver@, signature: signature@ })
            &&& (ProtocolRequestV2::PostSlate {
                from,
                to,
                str,
                signature,
                epicboxtxid,
                epicboxtxidsig,
            })@ == (RequestV2View::PostSlate {
                from: from@,
                to: to@,
                str: str@,
                signature: signature@,
                epicboxtxid: opened(epicboxtxid),
                epicboxtxidsig: opened(epicboxtxidsig),
            })
            &&& (ProtocolRequestV2::Unsubscribe { address })@ == (RequestV2View::Unsubscribe {
                address: address@,
            })
            &&& (ProtocolRequestV2::Made { address, signature, ver, epicboxmsgid: id })@ == (
            RequestV2View::Made {
                address: address@,
                signature: signature@,
                ver: ver@,
                epicboxmsgid: id@,
            })
            &&& (ProtocolRequestV2::ClientDetails {
                wallet_version: from,
                wallet_mode: to,
                protocol_version: ver,
            })@ == (RequestV2View::ClientDetails {
                wallet_version: from@,
                wallet_mode: to@,
                protocol_version: ver@,
            })
            &&& (ProtocolRequestV2::CancelTx { address, epicboxtxid: id, signature })@ == (
            RequestV2View::CancelTx {
                address: address@,
                epicboxtxid: id@,
                signature: signature@,
            })
        }),
{
}

/// Errors show their kind and their text, and an outcome shows its value or its error.
pub proof fn law_errors_show_their_text<T>(text: String, value: T, error: Error)
    ensures
        Error::EpicboxTungstenite(text)@ == ErrorView::EpicboxTungstenite(text@),
        Error::EpicboxReceiveTx(text)@ == ErrorView::EpicboxReceiveTx(text@),
        Error::EpicboxWebsocketAbnormalTermination@
            == ErrorView::EpicboxWebsocketAbnormalTermination,
        Error::NoListener(text)@ == ErrorView::NoListener(text@),
        Error::Wallet(text)@ == ErrorView::Wallet(text@),
        outcome_view(Ok::<T, Error>(value)) == Ok::<T, ErrorView>(value),
        outcome_view(Err::<T, Error>(error)) == Err::<T, ErrorView>(error@),
{
}

/// The effects on a connection show all that they carry.
pub proof fn law_connection_effects_show_their_fields(
    request: ProtocolRequest,
    request_v2: ProtocolRequestV2,
    reason: CloseReason,
    error: Error,
    event: BrokerEvent,
    text: String,
    secs: u64,
    nanos: u128,
    timeout: Option<u64>,
    client: EpicboxClient<EpicboxPublisher>,
)
    ensures
        Effect::CheckNode@ == EffectView::CheckNode,
        Effect::Sleep(secs)@ == EffectView::Sleep(secs),
        Effect::Read@ == EffectView::Read,
        Effect::Send(request_v2)@ == EffectView::Send(request_v2@),
        Effect::Post(request)@ == EffectView::Post(request@),
        Effect::CloseSocket@ == EffectView::CloseSocket,
        Effect::OnClose(reason)@ == EffectView::OnClose(reason),
        Effect::Report(error)@ == EffectView::Report(error@),
        Effect::Emit(event)@ == EffectView::Emit(event),
        (Effect::Connect { url: text, read_timeout_secs: timeout })@ == (EffectView::Connect {
            url: text@,
            read_timeout_secs: timeout,
        }),
        Effect::RunSubscriber(client)@ == EffectView::RunSubscriber(client),
        Effect::SetDeadline(secs)@ == EffectView::SetDeadline(secs),
        Effect::Clock@ == EffectView::Clock,
        Effect::Receive(nanos)@ == EffectView::Receive(nanos),
        Effect::JoinListener@ == EffectView::JoinListener,
{
}

/// The effects on the wallet show all that they carry.
pub proof fn law_wallet_effects_show_their_fields(
    slate: Slate,
    to: EpicboxAddress,
    version: u16,
    fluff: bool,
    texts: (String, String, String),
    numbers: (u64, u64, u32),
    id: Uuid,
    known: Option<Uuid>,
    port: Option<u16>,
)
    ensures
        Effect::Sign(texts.0)@ == EffectView::Sign(texts.0@),
        (Effect::Seal { slate, to, version })@ == (EffectView::Seal { slate, to, version }),
        (Effect::Decode { from: texts.0, str: texts.1, signature: texts.2 })@ == (
        EffectView::Decode { from: texts.0@, str: texts.1@, signature: texts.2@ }),
        (Effect::ReceiveTx { slate, address: Some(texts.0) })@ == (EffectView::ReceiveTx {
            slate,
            address: Some(texts.0@),
        }),
        (Effect::ReceiveTx { slate, address: None })@ == (EffectView::ReceiveTx {
            slate,
            address: None,
        }),
        Effect::FinalizeTx(slate)@ == EffectView::FinalizeTx(slate),
        (Effect::PostTxTor { slate, url: texts.0 })@ == (EffectView::PostTxTor {
            slate,
            url: texts.0@,
        }),
        (Effect::PostTx { slate, fluff })@ == (EffectView::PostTx { slate, fluff }),
        (Effect::WaitForTxInMempool {
            slate_id: id,
            interval_secs: numbers.0,
            attempts: numbers.1,
        })@ == (EffectView::WaitForTxInMempool {
            slate_id: id,
            interval_secs: numbers.0,
            attempts: numbers.1,
        }),
        Effect::UpdateMempoolStatus(slate)@ == EffectView::UpdateMempoolStatus(slate),
        (Effect::StoreTxId { slate_id: id, candidate: texts.0 })@ == (EffectView::StoreTxId {
            slate_id: id,
            candidate: texts.0@,
        }),
        (Effect::CancelLocally { epicboxtxid: texts.0, slate_id: known })@ == (
        EffectView::CancelLocally { epicboxtxid: texts.0@, slate_id: known }),
        (Effect::DeriveAddress { index: numbers.2, domain: Some(texts.0), port })@ == (
        EffectView::DeriveAddress { index: numbers.2, domain: Some(texts.0@), port }),
        (Effect::DeriveAddress { index: numbers.2, domain: None, port })@ == (
        EffectView::DeriveAddress { index: numbers.2, domain: None, port }),
        Effect::ParseAddress(texts.0)@ == EffectView::ParseAddress(texts.0@),
        (Effect::HandBack { slate, version })@ == (EffectView::HandBack { slate, version }),
{
}

/// A step shows its effects one by one, in their order, and its outcome.
pub proof fn law_step_shows_its_effects<T>(step: Step<T>)
    ensures
        step@.effects.len() == step.effects@.len(),
        forall|i: int|
            0 <= i < step.effects@.len() ==> #[trigger] step@.effects[i] == step.effects@[i]@,
        step.done is None ==> step@.done is None,
        step.done matches Some(Ok(value)) ==> step@.done == Some(Ok::<T, ErrorView>(value)),
        step.done matches Some(Err(error)) ==> step@.done == Some(Err::<T, ErrorView>(error@)),
{
}

/// The four plain steps: one that does nothing, those with one effect and with two, and
/// one that is only an outcome.
pub proof fn law_plain_steps_do_what_they_say<T>(
    first: EffectView,
    second: EffectView,
    outcome: Result<T, ErrorView>,
)
    ensures
        StepView::<T>::idle().effects.len() == 0,
        StepView::<T>::idle().done is None,
        StepView::<T>::ask(first).effects.len() == 1,
        StepView::<T>::ask(first).effects[0] == first,
        StepView::<T>::ask(first).done is None,
        StepView::<T>::tell_and_ask(first, second).effects.len() == 2,
        StepView::<T>::tell_and_ask(first, second).effects[0] == first,
        StepView::<T>::tell_and_ask(first, second).effects[1] == second,
        StepView::<T>::tell_and_ask(first, second).done is None,
        StepView::over(outcome).effects.len() == 0,
        StepView::over(outcome).done == Some(outcome),
{
}

/// A new container holds its settings and the default account, and no listener: asked for
/// one, it names the interface.
pub proof fn law_new_container_has_no_listener(config: EpicboxConfig)
    ensures
        ContainerView::fresh(config).config == config,
        ContainerView::fresh(config).account == "default"@,
        forall|key: u64| !#[trigger] ContainerView::fresh(config).listeners.contains_key(key),
        ContainerView::fresh(config).listener(ListenerInterface::Epicbox) == Err::<
            EpicboxListener,
            ErrorView,
        >(ErrorView::NoListener("Epicbox"@)),
        ListenerInterface::Epicbox.text() == "Epicbox"@,
{
}

/// Putting a listener in replaces one on the same interface and touches nothing else;
/// taking it out again leaves what was there without it.
pub proof fn law_container_changes_one_interface(
    container: ContainerView,
    interface: ListenerInterface,
    first: EpicboxListener,
    second: EpicboxListener,
)
    ensures
        container.with(interface, first).with(interface, second) == container.with(
            interface,
            second,
        ),
        container.with(interface, first).without(interface) == container.without(interface),
        container.with(interface, first).config == container.config,
        container.with(interface, first).account == container.account,
        container.without(interface).config == container.config,
        container.without(interface).account == container.account,
        container.with(interface, first).listener(interface) == Ok::<EpicboxListener, ErrorView>(
            first,
        ),
        container.without(interface).listener(interface) is Err,
        forall|key: u64|
            key != interface.key() ==> (#[trigger] container.listeners.contains_key(key)
                == container.with(interface, first).listeners.contains_key(key)),
        forall|key: u64|
            key != interface.key() && container.listeners.contains_key(key)
                ==> #[trigger] container.with(interface, first).listeners[key]
                == container.listeners[key],
{
    assert(container.with(interface, first).with(interface, second).listeners
        =~= container.with(interface, second).listeners);
    assert(container.with(interface, first).without(interface).listeners =~= container.without(
        interface,
    ).listeners);
}

/// Where no listener runs, a teardown closes and stops nothing.
pub proof fn law_teardown_of_nothing(
    container: ContainerView,
    broker: EpicboxBroker,
    last: Seq<EffectView>,
    outcome: Result<(), ErrorView>,
)
    requires
        container.listener(ListenerInterface::Epicbox) is Err,
    ensures
        ({
            let (after, stopped, step) = teardown(container, broker, last, outcome);
            &&& after.listener(ListenerInterface::Epicbox) is Err
            &&& stopped == broker
            &&& step.effects =~= last
            &&& step.done == Some(outcome)
        }),
{
}

/// A listener listens for its own address on Epicbox and publishes in the name of its
/// publisher; a controller answers in the name of its publisher, with its own Tor settings.
pub proof fn law_each_side_speaks_for_its_address(
    listener: EpicboxListener,
    controller: EpicboxController<EpicboxPublisher>,
)
    ensures
        listener.listens_on() == ListenerInterface::Epicbox,
        listener.own_address() == listener.address,
        listener.publishes_as() == listener.publisher.address,
        listener.publisher.sender() == listener.publisher.address,
        controller.responder() == controller.publisher.address,
        controller.tor() == controller.tor_config,
{
}

/// A channel's own settings go before the default ones.
pub proof fn law_channel_settings_go_first(settings: ChannelSettings, config: EpicboxConfig)
    ensures
        settings.channel.epicbox_config is None ==> settings.config() == settings.default_config
            && settings.channel.effective_config(config) == config,
        settings.channel.epicbox_config matches Some(own) ==> settings.config() == own
            && settings.channel.effective_config(config) == own,
{
}

/// A Slate is incomplete exactly while fewer participants have added their data than the
/// transaction is for.
pub proof fn law_slate_is_incomplete_until_all_added(slate: Slate)
    ensures
        slate.is_incomplete() <==> slate.participant_data < slate.num_participants,
{
}

/// The Tor nodes are tried in an order that has each known node as often as it is known,
/// and no other; where they could not be asked for there is none.
pub proof fn law_onion_order_loses_and_adds_none(
    slate: Slate,
    known: Vec<String>,
    order: Seq<String>,
)
    ensures
        is_onion_order(
            Reply::Finalized(Ok(FinalizedSlate { slate, onion_addresses: Some(known) })),
            order,
        ) <==> order.to_multiset() == known@.to_multiset(),
        is_onion_order(
            Reply::Finalized(Ok(FinalizedSlate { slate, onion_addresses: None })),
            order,
        ) <==> order.len() == 0,
{
    broadcast use vstd::seq_lib::group_to_multiset_ensures;

    let none = Seq::<String>::empty();
    assert(none.to_multiset().len() == none.len());
    assert(order.to_multiset().len() == order.len());
    if order.len() == 0 {
        assert(order =~= none);
    }
}

} // verus!
