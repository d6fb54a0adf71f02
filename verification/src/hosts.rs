//! The `Host` header allow-list: for every bound port the two loopback
//! names, and nothing else.

use vstd::prelude::*;
use crate::text::{contains_text, lemma_texts_push, texts};

verus! {

/// The character of one decimal digit.
pub open spec fn digit_char(d: nat) -> char
    recommends
        d < 10,
{
    ((48 + d) as u8) as char
}

/// The decimal numeral of `n`, without leading zeros.
pub open spec fn decimal_digits(n: nat) -> Seq<char>
    decreases n,
{
    if n < 10 {
        seq![digit_char(n)]
    } else {
        decimal_digits(n / 10) + seq![digit_char(n % 10)]
    }
}

/// `localhost:<port>`.
pub open spec fn localhost_entry(port: u16) -> Seq<char> {
    "localhost:"@ + decimal_digits(port as nat)
}

/// `127.0.0.1:<port>`.
pub open spec fn loopback_entry(port: u16) -> Seq<char> {
    "127.0.0.1:"@ + decimal_digits(port as nat)
}

/// The allow-list for the given ports: two entries per port, in the order
/// of the ports, the `localhost` entry first.
pub open spec fn allowed_hosts(ports: Seq<u16>) -> Seq<Seq<char>> {
    Seq::new(
        2 * ports.len(),
        |k: int|
            if k % 2 == 0 {
                localhost_entry(ports[k / 2])
            } else {
                loopback_entry(ports[k / 2])
            },
    )
}

/// The exact `host:port` values that a request's `Host` header may carry.
#[derive(Debug, Clone)]
pub struct HostAllowList {
    /// The permitted header values.
    pub entries: Vec<String>,
}

impl View for HostAllowList {
    type V = Seq<Seq<char>>;

    open spec fn view(&self) -> Seq<Seq<char>> {
        texts(self.entries@)
    }
}

impl HostAllowList {
    /// Whether this `Host` header is on the list: only where the header
    /// equals an entry. The server itself decides by the filter that
    /// `host_filter` makes of the same entries.
    pub fn permits(&self, host: &str) -> (ok: bool)
        ensures
            ok == self@.contains(host@),
    {
        contains_text(&self.entries, host)
    }
}

/// One decimal digit as text.
fn digit_text(d: u16) -> (text: &'static str)
    requires
        d < 10,
    ensures
        text@ == seq![digit_char(d as nat)],
{
    proof {
        reveal_strlit("0");
        reveal_strlit("1");
        reveal_strlit("2");
        reveal_strlit("3");
        reveal_strlit("4");
        reveal_strlit("5");
        reveal_strlit("6");
        reveal_strlit("7");
        reveal_strlit("8");
        reveal_strlit("9");
    }
    let text = if d == 0 {
        "0"
    } else if d == 1 {
        "1"
    } else if d == 2 {
        "2"
    } else if d == 3 {
        "3"
    } else if d == 4 {
        "4"
    } else if d == 5 {
        "5"
    } else if d == 6 {
        "6"
    } else if d == 7 {
        "7"
    } else if d == 8 {
        "8"
    } else {
        "9"
    };
    assert(text@ =~= seq![digit_char(d as nat)]);
    text
}

/// Appends the decimal numeral of `n` to `text`.
fn push_decimal(text: &mut String, n: u16)
    ensures
        final(text)@ == old(text)@ + decimal_digits(n as nat),
    decreases n,
{
    if n >= 10 {
        push_decimal(text, n / 10);
    }
    text.append(digit_text(n % 10));
    proof {
        let tail = seq![digit_char((n % 10) as nat)];
        if n >= 10 {
            assert(old(text)@ + decimal_digits((n / 10) as nat) + tail =~= old(text)@ + (
            decimal_digits((n / 10) as nat) + tail));
        }
    }
}

/// `prefix` followed by the decimal numeral of `port`.
fn host_entry(prefix: &str, port: u16) -> (entry: String)
    ensures
        entry@ == prefix@ + decimal_digits(port as nat),
{
    let mut entry = prefix.to_owned();
    push_decimal(&mut entry, port);
    entry
}

/// Builds the allow-list for a server bound to the given ports: for each
/// port `localhost:<port>` and `127.0.0.1:<port>`, whatever the address
/// that the port was bound on.
pub fn format_allowed_hosts(ports: &[u16]) -> (list: HostAllowList)
    ensures
        list@ == allowed_hosts(ports@),
{
    let mut hosts: Vec<String> = Vec::new();
    let mut i: usize = 0;
    while i < ports.len()
        invariant
            i <= ports.len(),
            texts(hosts@) == allowed_hosts(ports@.take(i as int)),
        decreases ports.len() - i,
    {
        let port = ports[i];
        let ghost before = hosts@;
        hosts.push(host_entry("localhost:", port));
        let ghost middle = hosts@;
        hosts.push(host_entry("127.0.0.1:", port));
        proof {
            lemma_texts_push(before, middle.last());
            lemma_texts_push(middle, hosts@.last());
            assert(ports@.take(i + 1) =~= ports@.take(i as int).push(port));
            lemma_allowed_hosts_push(ports@.take(i as int), port);
        }
        i += 1;
    }
    assert(ports@.take(i as int) =~= ports@);
    HostAllowList { entries: hosts }
}

/// One more port adds its two entries at the end of the list.
pub proof fn lemma_allowed_hosts_push(ports: Seq<u16>, port: u16)
    ensures
        allowed_hosts(ports.push(port)) == allowed_hosts(ports).push(localhost_entry(port)).push(
            loopback_entry(port),
        ),
{
    assert(allowed_hosts(ports.push(port)) =~= allowed_hosts(ports).push(
        localhost_entry(port),
    ).push(loopback_entry(port)));
}

/// The numeral of any number is not empty and holds decimal digits only.
pub proof fn lemma_decimal_digits_are_digits(n: nat)
    ensures
        decimal_digits(n).len() >= 1,
        forall|i: int|
            0 <= i < decimal_digits(n).len() ==> '0' <= #[trigger] decimal_digits(n)[i] <= '9',
    decreases n,
{
    if n >= 10 {
        lemma_decimal_digits_are_digits(n / 10);
    }
}

/// The list for `ports` holds the two loopback names of each of the ports,
/// and no other value.
pub proof fn lemma_allow_list_members(ports: Seq<u16>, host: Seq<char>)
    ensures
        allowed_hosts(ports).contains(host) <==> exists|i: int|
            0 <= i < ports.len() && (host == localhost_entry(#[trigger] ports[i]) || host
                == loopback_entry(ports[i])),
{
    let list = allowed_hosts(ports);
    if list.contains(host) {
        let k = choose|k: int| 0 <= k < list.len() && list[k] == host;
        assert(host == localhost_entry(ports[k / 2]) || host == loopback_entry(ports[k / 2]));
    }
    if exists|i: int|
        0 <= i < ports.len() && (host == localhost_entry(#[trigger] ports[i]) || host
            == loopback_entry(ports[i])) {
        let i = choose|i: int|
            0 <= i < ports.len() && (host == localhost_entry(#[trigger] ports[i]) || host
                == loopback_entry(ports[i]));
        assert(list[2 * i] == localhost_entry(ports[i]));
        assert(list[2 * i + 1] == loopback_entry(ports[i]));
    }
}

/// A header made of a host name, a colon and a port number equals a
/// loopback entry only where the host name is that entry's own.
proof fn lemma_entry_name(prefix: Seq<char>, name: Seq<char>, port: nat, bound: nat)
    requires
        prefix.len() >= 1,
        prefix.last() == ':',
        forall|i: int| 0 <= i < prefix.len() - 1 ==> prefix[i] != ':',
        name + seq![':'] + decimal_digits(port) == prefix + decimal_digits(bound),
    ensures
        name == prefix.drop_last(),
{
    lemma_decimal_digits_are_digits(port);
    lemma_decimal_digits_are_digits(bound);
    let header = name + seq![':'] + decimal_digits(port);
    let entry = prefix + decimal_digits(bound);
    let at = name.len() as int;
    assert(header == entry);
    assert(header.len() == name.len() + 1 + decimal_digits(port).len());
    assert(entry.len() == prefix.len() + decimal_digits(bound).len());
    assert(header[at] == ':');
    if at < prefix.len() - 1 {
        assert(entry[at] == prefix[at]);
    } else if at >= prefix.len() {
        assert(entry[at] == decimal_digits(bound)[at - prefix.len()]);
    }
    assert(at == prefix.len() - 1);
    assert forall|i: int| 0 <= i < at implies name[i] == prefix.drop_last()[i] by {
        assert(header[i] == name[i]);
        assert(entry[i] == prefix[i]);
    }
    assert(name =~= prefix.drop_last());
}

/// A `Host` header that names any host but `localhost` and `127.0.0.1` is
/// on no allow-list, whatever its port and whatever ports are bound.
pub proof fn lemma_foreign_host_rejected(ports: Seq<u16>, name: Seq<char>, port: u16)
    requires
        name != "localhost"@,
        name != "127.0.0.1"@,
    ensures
        !allowed_hosts(ports).contains(name + seq![':'] + decimal_digits(port as nat)),
{
    reveal_strlit("localhost:");
    reveal_strlit("127.0.0.1:");
    reveal_strlit("localhost");
    reveal_strlit("127.0.0.1");
    let header = name + seq![':'] + decimal_digits(port as nat);
    lemma_allow_list_members(ports, header);
    if allowed_hosts(ports).contains(header) {
        let i = choose|i: int|
            0 <= i < ports.len() && (header == localhost_entry(#[trigger] ports[i]) || header
                == loopback_entry(ports[i]));
        if header == localhost_entry(ports[i]) {
            lemma_entry_name("localhost:"@, name, port as nat, ports[i] as nat);
            assert("localhost:"@.drop_last() =~= "localhost"@);
        } else {
            lemma_entry_name("127.0.0.1:"@, name, port as nat, ports[i] as nat);
            assert("127.0.0.1:"@.drop_last() =~= "127.0.0.1"@);
        }
    }
}

} // verus!
