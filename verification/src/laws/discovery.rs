//! What comes of calls in discovery.

use vstd::prelude::*;

use crate::cluster::discovery::{
    announced, Discovered, DiscoveryService, DiscoveryView, ListenEvent, ListenEventView,
};
use crate::cluster::node::NodeAddr;
use crate::config::ClusterConfig;
use crate::laws::text::{
    decimal_is_number, fields_make_up_text, is_number, with_separators,
};
use crate::text;
use crate::text::{fields_of_joined, fields_of_plain};

verus! {

/// Whether `message` announces a node of this name and port: the magic word, the name and
/// the port, with `|` between them, and perhaps more behind another `|`.
pub open spec fn announces(message: Seq<char>, name: Seq<char>, port: Seq<char>) -> bool {
    &&& !name.contains('|')
    &&& !port.contains('|')
    &&& exists|rest: Seq<char>| #[trigger] announces_before(message, name, port, rest)
}

/// Whether `message` is an announcement of this name and port with `rest` behind it.
pub open spec fn announces_before(
    message: Seq<char>,
    name: Seq<char>,
    port: Seq<char>,
    rest: Seq<char>,
) -> bool {
    &&& rest.len() == 0 || rest[0] == '|'
    &&& message == "ZEROCLAW|"@ + name + seq!['|'] + port + rest
}

/// Whether nothing that a service was made with differs.
pub open spec fn same_service(a: DiscoveryService, b: DiscoveryService) -> bool {
    &&& a@.node_name == b@.node_name
    &&& a@.ws_port == b@.ws_port
    &&& a@.discovery_port == b@.discovery_port
    &&& a@.bind_addr == b@.bind_addr
    &&& a@.node_token == b@.node_token
    &&& a@.discovery_interval_secs == b@.discovery_interval_secs
}

/// Three fields or more make up a text that starts with the first three.
proof fn first_three_fields(parts: Seq<Seq<char>>, sep: char) -> (rest: Seq<char>)
    requires
        parts.len() >= 3,
    ensures
        rest.len() == 0 || rest[0] == sep,
        with_separators(parts, sep) == parts[0].push(sep) + parts[1].push(sep) + parts[2] + rest,
    decreases parts.len(),
{
    let init = parts.drop_last();
    if parts.len() == 3 {
        assert(init.drop_last() =~= seq![parts[0]]);
        assert(with_separators(init.drop_last(), sep) == parts[0]);
        assert(with_separators(init, sep) == parts[0].push(sep) + parts[1]);
        let whole = parts[0].push(sep) + parts[1].push(sep) + parts[2] + Seq::<char>::empty();
        assert(with_separators(parts, sep) =~= whole);
        Seq::empty()
    } else {
        let before = first_three_fields(init, sep);
        let rest = before.push(sep) + parts.last();
        let whole = parts[0].push(sep) + parts[1].push(sep) + parts[2] + rest;
        assert(with_separators(parts, sep) =~= whole);
        rest
    }
}

/// What a message announces is what it says in its second and third place.
proof fn announced_is_what_it_says(message: Seq<char>)
    ensures
        forall|name: Seq<char>, port: Seq<char>|
            announces(message, name, port) <==> announced(message) == Some((name, port)),
{
    reveal_strlit("ZEROCLAW");
    reveal_strlit("ZEROCLAW|");
    let magic = "ZEROCLAW"@;
    let parts = text::fields(message, '|');
    assert forall|name: Seq<char>, port: Seq<char>| announces(message, name, port) implies announced(
        message,
    ) == Some((name, port)) by {
        let rest = choose|rest: Seq<char>| #[trigger] announces_before(message, name, port, rest);
        fields_of_plain(magic, '|');
        fields_of_plain(name, '|');
        fields_of_plain(port, '|');
        if rest.len() == 0 {
            let tail = name.push('|') + port;
            assert(message =~= magic.push('|') + tail);
            fields_of_joined(magic, tail, '|');
            fields_of_joined(name, port, '|');
        } else {
            let more = rest.skip(1);
            let end = port.push('|') + more;
            let tail = name.push('|') + end;
            assert(message =~= magic.push('|') + tail);
            fields_of_joined(magic, tail, '|');
            fields_of_joined(name, end, '|');
            fields_of_joined(port, more, '|');
            text::fields_is_not_empty(more, '|');
        }
    }
    assert forall|name: Seq<char>, port: Seq<char>|
        announced(message) == Some((name, port)) implies announces(message, name, port) by {
        fields_make_up_text(message, '|');
        assert(!parts[1].contains('|') && !parts[2].contains('|'));
        let rest = first_three_fields(parts, '|');
        assert(message =~= "ZEROCLAW|"@ + name + seq!['|'] + port + rest);
        assert(announces_before(message, name, port, rest));
    }
}

/// A new service has what it is configured with. It listens on the port of its own or
/// else on that of the cluster, and announces at the configured interval or else every
/// second.
pub proof fn law_new_service_is_as_configured(
    config: ClusterConfig,
    name: String,
    service: DiscoveryService,
)
    requires
        call_ensures(DiscoveryService::new, (&config, name), service),
    ensures
        service@.node_name == name@,
        service@.ws_port == config.bind_port,
        config.discovery_port matches Some(port) ==> service@.discovery_port == port,
        config.discovery_port is None ==> service@.discovery_port == config.bind_port,
        service@.bind_addr == config.bind_host@,
        service@.node_token == config.node_token.deep_view(),
        config.discovery_interval_secs >= 1 ==> service@.discovery_interval_secs
            == config.discovery_interval_secs,
        config.discovery_interval_secs == 0 ==> service@.discovery_interval_secs == 1,
        forall|addr: Seq<char>| !service@.known_nodes.contains_key(addr),
{
}

/// A service listens at the host and port it was made with.
pub proof fn law_service_listens_where_configured(service: DiscoveryService, addr: String)
    requires
        call_ensures(DiscoveryService::listen_addr, (&service,), addr),
    ensures
        addr@.len() > service@.bind_addr.len() + 1,
        addr@.take(service@.bind_addr.len() as int) == service@.bind_addr,
        addr@[service@.bind_addr.len() as int] == ':',
        is_number(
            addr@.skip(service@.bind_addr.len() as int + 1),
            service@.discovery_port as int,
        ),
{
    decimal_is_number(service@.discovery_port as nat);
    assert(addr@.take(service@.bind_addr.len() as int) =~= service@.bind_addr);
    assert(addr@.skip(service@.bind_addr.len() as int + 1) =~= text::decimal(
        service@.discovery_port as nat,
    ));
}

/// A service announces its own name, whole, and the port that the node listens on.
pub proof fn law_service_announces_its_name_and_port(service: DiscoveryService, message: String)
    requires
        call_ensures(DiscoveryService::announcement, (&service,), message),
    ensures
        message@.len() > 9 + service@.node_name.len() + 1,
        message@.take(9) == "ZEROCLAW|"@,
        message@.subrange(9, 9int + service@.node_name.len()) == service@.node_name,
        message@[9int + service@.node_name.len()] == '|',
        is_number(message@.skip(10int + service@.node_name.len()), service@.ws_port as int),
{
    reveal_strlit("ZEROCLAW");
    reveal_strlit("ZEROCLAW|");
    decimal_is_number(service@.ws_port as nat);
    assert(message@.take(9) =~= "ZEROCLAW|"@);
    assert(message@.subrange(9, 9int + service@.node_name.len()) =~= service@.node_name);
    assert(message@.skip(10int + service@.node_name.len()) =~= text::decimal(
        service@.ws_port as nat,
    ));
}

/// A broadcast goes to every address of the network: `127.255.255.255` from a loopback
/// address, `255.255.255.255` from any other, at port 65535.
pub proof fn law_broadcast_goes_to_the_whole_network(loopback: bool, addr: NodeAddr)
    requires
        call_ensures(DiscoveryService::broadcast_addr, (loopback,), addr),
    ensures
        addr matches NodeAddr::V4 { ip, port } && port == 65535 && ip == (if loopback {
            127 * 0x100_0000 + 255 * 0x1_0000 + 255 * 0x100 + 255int
        } else {
            255 * 0x100_0000 + 255 * 0x1_0000 + 255 * 0x100 + 255int
        }),
{
}

/// A node is forgotten after a silence of three intervals, whatever the interval.
pub proof fn law_silence_lasts_three_intervals(service: DiscoveryService, timeout: u128)
    requires
        service@.discovery_interval_secs * 3 <= u64::MAX,
        call_ensures(DiscoveryService::stale_timeout, (&service,), timeout),
    ensures
        timeout == service@.discovery_interval_secs * 3 * 1_000_000_000,
{
}

/// An announcement by another node is noted, at the moment it is heard, under the address
/// that it came from and the port that it gives; the node is new exactly if that address
/// was unknown, and then is to be connected to there. What is known of other addresses
/// stays.
pub proof fn law_announcing_node_is_noted(
    service: &mut DiscoveryService,
    message: &str,
    sender_ip: &str,
    now: u128,
    name: Seq<char>,
    port: Seq<char>,
    found: Discovered,
)
    requires
        announces(message@, name, port),
        name != old(service)@.node_name,
        call_ensures(
            DiscoveryService::handle_discovery_message,
            (service, message, sender_ip, now),
            found,
        ),
    ensures
        ({
            let addr = sender_ip@ + seq![':'] + port;
            let known = old(service)@.known_nodes;
            let after = final(service)@.known_nodes;
            &&& known.contains_key(addr) ==> found is Known
            &&& !known.contains_key(addr) ==> (found matches Discovered::New(at) && at@ == addr)
            &&& after.contains_key(addr)
            &&& after[addr].1 == now
            &&& known.contains_key(addr) ==> after[addr].0 == known[addr].0
            &&& !known.contains_key(addr) ==> after[addr].0 == name
            &&& forall|other: Seq<char>|
                other != addr ==> (#[trigger] after.contains_key(other) <==> known.contains_key(
                    other,
                )) && (known.contains_key(other) ==> after[other] == known[other])
        }),
        same_service(*final(service), *old(service)),
{
    announced_is_what_it_says(message@);
    assert(announced(message@) == Some((name, port)));
    assert(sender_ip@ + seq![':'] + port =~= text::host_port_text(sender_ip@, port));
}

/// Every announcement of another node counts, and nothing else does: a message that
/// announces nobody, or the node itself, changes nothing.
pub proof fn law_only_announcements_of_others_count(
    service: &mut DiscoveryService,
    message: &str,
    sender_ip: &str,
    now: u128,
    found: Discovered,
)
    requires
        call_ensures(
            DiscoveryService::handle_discovery_message,
            (service, message, sender_ip, now),
            found,
        ),
    ensures
        !(found is Nothing) <==> exists|name: Seq<char>, port: Seq<char>| #[trigger]
            announces(message@, name, port) && name != old(service)@.node_name,
        found is Nothing ==> final(service)@ == old(service)@,
{
    announced_is_what_it_says(message@);
    if let Some((name, port)) = announced(message@) {
        assert(announces(message@, name, port));
    }
}

/// A datagram that encodes a message is heard as the message; one that is no text changes
/// nothing.
pub proof fn law_datagram_is_heard_as_its_text(
    service: &mut DiscoveryService,
    direct: &mut DiscoveryService,
    datagram: Vec<u8>,
    message: &str,
    sender_ip: &str,
    now: u128,
    found: Discovered,
    told: Discovered,
)
    requires
        old(direct)@ == old(service)@,
        call_ensures(
            DiscoveryService::handle_datagram,
            (service, datagram, sender_ip, now),
            found,
        ),
        call_ensures(
            DiscoveryService::handle_discovery_message,
            (direct, message, sender_ip, now),
            told,
        ),
    ensures
        datagram@ == vstd::utf8::encode_utf8(message@) ==> final(service)@ == final(direct)@
            && found@ == told@,
        vstd::utf8::valid_utf8(datagram@) && message@ == vstd::utf8::decode_utf8(datagram@)
            ==> final(service)@ == final(direct)@ && found@ == told@,
        !vstd::utf8::valid_utf8(datagram@) ==> found is Nothing && final(service)@ == old(
            service,
        )@,
{
    vstd::utf8::encode_utf8_valid_utf8(message@);
    vstd::utf8::encode_utf8_decode_utf8(message@);
}

/// Cleaning up keeps exactly the nodes that were heard at most `timeout` ago, as they are.
pub proof fn law_cleanup_keeps_whoever_was_heard(
    service: &mut DiscoveryService,
    now: u128,
    timeout: u128,
)
    requires
        call_ensures(DiscoveryService::cleanup_stale_nodes, (service, now, timeout), ()),
    ensures
        forall|addr: Seq<char>| #[trigger]
            final(service)@.known_nodes.contains_key(addr) <==> old(
                service,
            )@.known_nodes.contains_key(addr) && now <= old(service)@.known_nodes[addr].1
                + timeout,
        forall|addr: Seq<char>| #[trigger]
            final(service)@.known_nodes.contains_key(addr) ==> final(service)@.known_nodes[addr]
                == old(service)@.known_nodes[addr],
        same_service(*final(service), *old(service)),
{
}

/// A second without a datagram forgets exactly the nodes that were silent for more than
/// three intervals, whatever the interval of the service; a failure changes nothing.
pub proof fn law_tick_forgets_after_three_intervals(
    service: &mut DiscoveryService,
    failed: &mut DiscoveryService,
    now: u128,
    on_tick: Discovered,
    on_failure: Discovered,
)
    requires
        old(service)@.discovery_interval_secs * 3 <= u64::MAX,
        call_ensures(
            DiscoveryService::listen_and_connect_step,
            (service, ListenEvent::Tick, now),
            on_tick,
        ),
        call_ensures(
            DiscoveryService::listen_and_connect_step,
            (failed, ListenEvent::Failed, now),
            on_failure,
        ),
    ensures
        on_tick is Nothing,
        forall|addr: Seq<char>| #[trigger]
            final(service)@.known_nodes.contains_key(addr) <==> old(
                service,
            )@.known_nodes.contains_key(addr) && now - old(service)@.known_nodes[addr].1 <= old(
                service,
            )@.discovery_interval_secs * 3 * 1_000_000_000,
        forall|addr: Seq<char>| #[trigger]
            final(service)@.known_nodes.contains_key(addr) ==> final(service)@.known_nodes[addr]
                == old(service)@.known_nodes[addr],
        same_service(*final(service), *old(service)),
        on_failure is Nothing,
        final(failed)@ == old(failed)@,
{
}

/// A datagram in the loop is taken as it is outside of it.
pub proof fn law_loop_takes_datagrams(
    service: &mut DiscoveryService,
    direct: &mut DiscoveryService,
    bytes: Vec<u8>,
    sender_ip: String,
    ip: &str,
    now: u128,
    found: Discovered,
    told: Discovered,
)
    requires
        old(direct)@ == old(service)@,
        ip@ == sender_ip@,
        call_ensures(
            DiscoveryService::listen_and_connect_step,
            (service, ListenEvent::Datagram { bytes, sender_ip }, now),
            found,
        ),
        call_ensures(DiscoveryService::handle_datagram, (direct, bytes, ip, now), told),
    ensures
        final(service)@ == final(direct)@,
        found@ == told@,
{
}

/// A node that is heard, then not heard until a clean-up of the loop, then heard again is
/// known the second time exactly if the clean-up came at most three intervals after the
/// first, whatever the interval; otherwise it is new, and is connected to again.
pub proof fn law_node_is_known_for_three_intervals(
    service: &mut DiscoveryService,
    waiting: &mut DiscoveryService,
    again: &mut DiscoveryService,
    message: &str,
    sender_ip: &str,
    name: Seq<char>,
    port: Seq<char>,
    first: u128,
    tick: u128,
    second: u128,
    found: Discovered,
    nothing: Discovered,
    found_again: Discovered,
)
    requires
        announces(message@, name, port),
        name != old(service)@.node_name,
        old(service)@.discovery_interval_secs * 3 <= u64::MAX,
        call_ensures(
            DiscoveryService::handle_discovery_message,
            (service, message, sender_ip, first),
            found,
        ),
        *old(waiting) == *final(service),
        call_ensures(
            DiscoveryService::listen_and_connect_step,
            (waiting, ListenEvent::Tick, tick),
            nothing,
        ),
        *old(again) == *final(waiting),
        call_ensures(
            DiscoveryService::handle_discovery_message,
            (again, message, sender_ip, second),
            found_again,
        ),
    ensures
        found_again is Known <==> tick <= first + old(service)@.discovery_interval_secs * 3
            * 1_000_000_000,
        found_again is Known || (found_again matches Discovered::New(at) && at@ == sender_ip@
            + seq![':'] + port),
{
    law_announcing_node_is_noted(service, message, sender_ip, first, name, port, found);
    law_announcing_node_is_noted(again, message, sender_ip, second, name, port, found_again);
}

/// One turn of the discovery loop: an event and when it comes.
pub struct ListenTurn {
    pub event: ListenEventView,
    pub now: u128,
}

/// What a service knows after a series of turns.
pub open spec fn after_turns(service: DiscoveryView, turns: Seq<ListenTurn>) -> DiscoveryView
    decreases turns.len(),
{
    if turns.len() == 0 {
        service
    } else {
        after_turns(service, turns.drop_last()).listen(turns.last().event, turns.last().now).0
    }
}

/// Whether the turn brings an announcement, by another node than `own`, under the address
/// `addr`.
pub open spec fn is_heard_from(own: Seq<char>, addr: Seq<char>, turn: ListenTurn) -> bool {
    turn.event matches ListenEventView::Datagram { bytes, sender_ip }
        && vstd::utf8::valid_utf8(bytes) && exists|name: Seq<char>, port: Seq<char>| #[trigger]
        announces(vstd::utf8::decode_utf8(bytes), name, port) && name != own && sender_ip
            + seq![':'] + port == addr
}

/// A node that announces itself often enough is never forgotten: as long as at every
/// clean-up it has been heard, at `start` or in the series, within the last three
/// intervals, it stays known, whatever else is heard and whatever the interval.
#[verifier::rlimit(40)]
pub proof fn law_announcing_node_is_never_forgotten(
    service: DiscoveryView,
    turns: Seq<ListenTurn>,
    addr: Seq<char>,
    start: u128,
)
    requires
        service.discovery_interval_secs * 3 <= u64::MAX,
        service.known_nodes.contains_key(addr),
        service.known_nodes[addr].1 >= start,
        forall|i: int, j: int|
            0 <= i <= j < turns.len() ==> service.known_nodes[addr].1 <= (#[trigger] turns[i]).now
                <= (#[trigger] turns[j]).now,
        forall|j: int|
            0 <= j < turns.len() && (#[trigger] turns[j]).event is Tick ==> turns[j].now - start
                <= service.discovery_interval_secs * 3 * 1_000_000_000 || exists|i: int|
                0 <= i < j && is_heard_from(service.node_name, addr, #[trigger] turns[i])
                    && turns[j].now - turns[i].now <= service.discovery_interval_secs * 3
                    * 1_000_000_000,
    ensures
        after_turns(service, turns).known_nodes.contains_key(addr),
        after_turns(service, turns).known_nodes[addr].1 >= start,
        after_turns(service, turns).node_name == service.node_name,
        after_turns(service, turns).discovery_interval_secs == service.discovery_interval_secs,
        forall|i: int|
            0 <= i < turns.len() && is_heard_from(service.node_name, addr, #[trigger] turns[i])
                ==> after_turns(service, turns).known_nodes[addr].1 >= turns[i].now,
    decreases turns.len(),
{
    if turns.len() > 0 {
        let init = turns.drop_last();
        let last = turns.last();
        let n = turns.len() - 1;
        assert(turns[n] == last);
        assert forall|i: int, j: int| 0 <= i <= j < init.len() implies service.known_nodes[addr].1
            <= (#[trigger] init[i]).now <= (#[trigger] init[j]).now by {
            assert(turns[i].now <= turns[j].now);
        }
        assert forall|j: int| 0 <= j < init.len() && (#[trigger] init[j]).event is Tick implies init[j].now
            - start <= service.discovery_interval_secs * 3 * 1_000_000_000 || exists|i: int|
            0 <= i < j && is_heard_from(service.node_name, addr, #[trigger] init[i]) && init[j].now
                - init[i].now <= service.discovery_interval_secs * 3 * 1_000_000_000 by {
            assert(turns[j] == init[j]);
            if !(turns[j].now - start <= service.discovery_interval_secs * 3 * 1_000_000_000) {
                let i = choose|i: int|
                    0 <= i < j && is_heard_from(service.node_name, addr, #[trigger] turns[i])
                        && turns[j].now - turns[i].now <= service.discovery_interval_secs * 3
                        * 1_000_000_000;
                assert(init[i] == turns[i]);
            }
        }
        law_announcing_node_is_never_forgotten(service, init, addr, start);
        let before = after_turns(service, init);
        let after = after_turns(service, turns);
        assert(after == before.listen(last.event, last.now).0);
        match last.event {
            ListenEventView::Datagram { bytes, sender_ip } => {
                if vstd::utf8::valid_utf8(bytes) {
                    let message = vstd::utf8::decode_utf8(bytes);
                    announced_is_what_it_says(message);
                    if let Some((name, port)) = announced(message) {
                        assert(announces(message, name, port));
                        assert(text::host_port_text(sender_ip, port) =~= sender_ip + seq![':']
                            + port);
                    }
                }
            },
            ListenEventView::Failed => {},
            ListenEventView::Tick => {
                assert(turns[n].event is Tick);
                if !(last.now - start <= service.discovery_interval_secs * 3 * 1_000_000_000) {
                    let i = choose|i: int|
                        0 <= i < n && is_heard_from(service.node_name, addr, #[trigger] turns[i])
                            && turns[n].now - turns[i].now <= service.discovery_interval_secs * 3
                            * 1_000_000_000;
                    assert(init[i] == turns[i]);
                }
            },
        }
        assert forall|i: int|
            0 <= i < turns.len() && is_heard_from(
                service.node_name,
                addr,
                #[trigger] turns[i],
            ) implies after.known_nodes[addr].1 >= turns[i].now by {
            if i < n {
                assert(init[i] == turns[i]);
                assert(turns[i].now <= turns[n].now);
            }
        }
    }
}

} // verus!
