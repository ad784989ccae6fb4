//! Redemption of the auth token: the loopback listener's callback URL, the
//! reading of a token out of a callback or deep-link URL, and what each
//! listener outcome does to the token store.

use vstd::prelude::*;
use vstd::string::*;
use crate::external::{percent_decode, percent_decoded, random_in_range};
use crate::session::AppState;
use crate::text::{
    append_decimal, decimal, find_first, first_occurrence, occurs_at, occurs_at_index, opt_view,
};

verus! {

/// Lowest port the listener may take.
pub const PORT_LOW: u16 = 19000;

/// One past the highest port the listener may take.
pub const PORT_HIGH: u16 = 20000;

/// The URL the identity provider is sent back to.
pub open spec fn callback_url_text(port: nat) -> Seq<char> {
    "http://localhost:"@ + decimal(port) + "/callback"@
}

/// The loopback address the listener binds.
pub open spec fn listen_address_text(port: nat) -> Seq<char> {
    "127.0.0.1:"@ + decimal(port)
}

/// `http://localhost:<port>/callback`.
pub fn callback_url(port: u16) -> (r: String)
    ensures
        r@ == callback_url_text(port as nat),
{
    let mut url = String::from_str("http://localhost:");
    append_decimal(&mut url, port);
    url.append("/callback");
    url
}

/// `127.0.0.1:<port>`.
pub fn listen_address(port: u16) -> (r: String)
    ensures
        r@ == listen_address_text(port as nat),
{
    let mut addr = String::from_str("127.0.0.1:");
    append_decimal(&mut addr, port);
    addr
}

/// A port drawn from the listener's range.
pub fn choose_callback_port() -> (p: u16)
    ensures
        PORT_LOW <= p < PORT_HIGH,
{
    random_in_range(PORT_LOW, PORT_HIGH)
}

/// Where a new loopback listener is to wait for the callback.
#[derive(Debug)]
pub struct AuthServer {
    pub port: u16,
    pub callback_url: String,
    pub address: String,
}

/// Picks the port of a new listener, with the URL handed to the caller and
/// the address to bind.
pub fn prepare_auth_server() -> (r: AuthServer)
    ensures
        PORT_LOW <= r.port < PORT_HIGH,
        r.callback_url@ == callback_url_text(r.port as nat),
        r.address@ == listen_address_text(r.port as nat),
{
    let port = choose_callback_port();
    AuthServer { port, callback_url: callback_url(port), address: listen_address(port) }
}

/// The text up to the first `&`, or all of it.
pub open spec fn until_amp(t: Seq<char>) -> Seq<char>
    decreases t.len(),
{
    if t.len() == 0 {
        t
    } else if t[0] == '&' {
        Seq::empty()
    } else {
        seq![t[0]] + until_amp(t.drop_first())
    }
}

/// The raw value of the first `token=` in a URL: what follows it, up to the
/// next `&` or the end.
pub open spec fn token_field(url: Seq<char>) -> Option<Seq<char>> {
    if exists|i: int| first_occurrence(url, "token="@, i) {
        let i = choose|i: int| first_occurrence(url, "token="@, i);
        Some(until_amp(url.subrange(i + "token="@.len(), url.len() as int)))
    } else {
        None
    }
}

/// The token made of a raw value: its decoding where there is one, else the
/// raw value itself.
pub open spec fn token_text(raw: Seq<char>, decoded: Option<Seq<char>>) -> Seq<char> {
    match decoded {
        Some(d) => d,
        None => raw,
    }
}

/// The token a callback URL carries, if it names one.
pub open spec fn redeemed_token(url: Seq<char>) -> Option<Seq<char>> {
    match token_field(url) {
        Some(raw) => Some(token_text(raw, percent_decoded(raw))),
        None => None,
    }
}

proof fn lemma_until_amp(t: Seq<char>, k: int)
    requires
        0 <= k <= t.len(),
        forall|j: int| 0 <= j < k ==> t[j] != '&',
        k == t.len() || t[k] == '&',
    ensures
        until_amp(t) == t.take(k),
    decreases t.len(),
{
    if t.len() == 0 {
        assert(t.take(k) =~= t);
    } else if k == 0 {
        assert(t.take(k) =~= Seq::<char>::empty());
    } else {
        let u = t.drop_first();
        assert forall|j: int| 0 <= j < k - 1 implies u[j] != '&' by {
            assert(u[j] == t[j + 1]);
        }
        lemma_until_amp(u, k - 1);
        assert(t.take(k) =~= seq![t[0]] + u.take(k - 1));
    }
}

proof fn lemma_first_occurrence_unique(s: Seq<char>, pat: Seq<char>, i: int, j: int)
    requires
        first_occurrence(s, pat, i),
        first_occurrence(s, pat, j),
    ensures
        i == j,
{
}

/// The raw value of the first `token=` in `url`.
pub fn token_field_of(url: &str) -> (r: Option<String>)
    ensures
        opt_view(r) == token_field(url@),
{
    proof { reveal_strlit("token="); }
    match find_first(url, "token=") {
        None => {
            assert(!exists|i: int| first_occurrence(url@, "token="@, i));
            None
        },
        Some(i) => {
            let n = url.unicode_len();
            let start = i + 6;
            let mut e: usize = start;
            while e < n && url.get_char(e) != '&'
                invariant
                    n == url@.len(),
                    start <= e <= n,
                    forall|j: int| start <= j < e ==> url@[j] != '&',
                decreases n - e,
            {
                e += 1;
            }
            proof {
                let t = url@.subrange(start as int, n as int);
                assert forall|j: int| 0 <= j < e - start implies t[j] != '&' by {
                    assert(t[j] == url@[start + j]);
                }
                lemma_until_amp(t, e - start);
                assert(t.take(e - start) =~= url@.subrange(start as int, e as int));
                let c = choose|c: int| first_occurrence(url@, "token="@, c);
                lemma_first_occurrence_unique(url@, "token="@, c, i as int);
            }
            Some(String::from_str(url.substring_char(start, e)))
        },
    }
}

/// The token made of a raw value and the outcome of decoding it.
pub fn decoded_or_raw(raw: String, decoded: Option<String>) -> (r: String)
    ensures
        r@ == token_text(raw@, opt_view(decoded)),
{
    match decoded {
        Some(d) => d,
        None => raw,
    }
}

/// The token that a callback URL carries: the first `token=` value,
/// percent-decoded where that succeeds and taken as it stands where not.
pub fn extract_token(url: &str) -> (r: Option<String>)
    ensures
        opt_view(r) == redeemed_token(url@),
{
    match token_field_of(url) {
        None => None,
        Some(raw) => {
            let decoded = percent_decode(raw.as_str());
            Some(decoded_or_raw(raw, decoded))
        },
    }
}

/// The host `auth` begins at index `h` of a URL and ends there with the URL,
/// a `?` or a `/`.
pub open spec fn auth_host_at(url: Seq<char>, h: int) -> bool {
    &&& occurs_at(url, "auth"@, h)
    &&& {
        let end = h + "auth"@.len();
        end == url.len() || url[end] == '?' || url[end] == '/'
    }
}

/// A deep link of the auth callback: `<scheme>://auth`, then the end, a
/// query or a path.
pub open spec fn is_auth_link(url: Seq<char>) -> bool {
    exists|i: int| first_occurrence(url, "://"@, i) && auth_host_at(url, i + "://"@.len())
}

/// The token a deep link delivers: that of an auth callback link, none for
/// any other.
pub open spec fn deep_link_token_of(url: Seq<char>) -> Option<Seq<char>> {
    if is_auth_link(url) {
        redeemed_token(url)
    } else {
        None
    }
}

/// Whether `url` is a deep link of the auth callback.
pub fn is_auth_deep_link(url: &str) -> (r: bool)
    ensures
        r == is_auth_link(url@),
{
    proof {
        reveal_strlit("://");
        reveal_strlit("auth");
    }
    match find_first(url, "://") {
        None => false,
        Some(i) => {
            let n = url.unicode_len();
            let h = i + 3;
            let found = occurs_at_index(url, n, "auth", 4, h) && (h + 4 == n || url.get_char(h + 4)
                == '?' || url.get_char(h + 4) == '/');
            proof {
                if found {
                    assert(first_occurrence(url@, "://"@, i as int) && auth_host_at(url@, h as int));
                } else {
                    assert forall|c: int| first_occurrence(url@, "://"@, c) implies !auth_host_at(
                        url@,
                        c + "://"@.len(),
                    ) by {
                        lemma_first_occurrence_unique(url@, "://"@, c, i as int);
                    }
                }
            }
            found
        },
    }
}

/// The token that an OS-delivered deep link carries, if it is an auth
/// callback link that names one.
pub fn deep_link_token(url: &str) -> (r: Option<String>)
    ensures
        opt_view(r) == deep_link_token_of(url@),
{
    if is_auth_deep_link(url) {
        extract_token(url)
    } else {
        None
    }
}

/// The ways a token reaches the store.
#[derive(Debug, Clone, Copy, PartialEq, Eq, Structural)]
pub enum Channel {
    /// The caller sets it.
    Direct,
    /// The loopback listener receives a callback URL.
    Listener,
    /// The OS delivers a deep link.
    DeepLink,
}

/// The token that `text` delivers through `channel`, if any.
pub open spec fn delivered_via(channel: Channel, text: Seq<char>) -> Option<Seq<char>> {
    match channel {
        Channel::Direct => Some(text),
        Channel::Listener => redeemed_token(text),
        Channel::DeepLink => deep_link_token_of(text),
    }
}

/// The store after a delivery: the delivered token replaces what it held;
/// no delivery leaves it as it was.
pub open spec fn store_after(store: Option<Seq<char>>, delivered: Option<Seq<char>>) -> Option<
    Seq<char>,
> {
    match delivered {
        Some(t) => Some(t),
        None => store,
    }
}

/// The store after a series of writes, each through some channel.
pub open spec fn store_after_all(store: Option<Seq<char>>, writes: Seq<(Channel, Seq<char>)>) -> Option<
    Seq<char>,
>
    decreases writes.len(),
{
    if writes.len() == 0 {
        store
    } else {
        let w = writes.last();
        store_after(store_after_all(store, writes.drop_last()), delivered_via(w.0, w.1))
    }
}

/// Whatever channels the writes came through, the store holds the token of
/// the last write that delivered one, and is untouched where none did.
pub proof fn lemma_last_delivery_wins(store: Option<Seq<char>>, writes: Seq<(Channel, Seq<char>)>)
    ensures
        (forall|k: int| 0 <= k < writes.len() ==> delivered_via(writes[k].0, writes[k].1) is None)
            ==> store_after_all(store, writes) == store,
        forall|k: int|
            0 <= k < writes.len() && delivered_via(writes[k].0, writes[k].1) is Some && (forall|
                j: int,
            |
                k < j < writes.len() ==> delivered_via(writes[j].0, writes[j].1) is None) ==> (
            store_after_all(store, writes) == delivered_via(writes[k].0, writes[k].1)),
    decreases writes.len(),
{
    if writes.len() > 0 {
        let init = writes.drop_last();
        lemma_last_delivery_wins(store, init);
        assert forall|k: int| 0 <= k < init.len() implies init[k] == writes[k] by {}
    }
}

/// What an outcome of the loopback listener calls for.
#[derive(Debug)]
pub enum ListenerEvent {
    /// The port could not be bound.
    BindFailed,
    /// No request came before the deadline.
    TimedOut,
    /// A request came for this URL.
    Request(String),
}

/// What the host does after a listener outcome: the token to announce, if
/// any, and whether a confirmation page goes back to the browser.
#[derive(Debug)]
pub struct ListenerReply {
    pub notify: Option<String>,
    pub respond: bool,
}

impl AppState {
    /// Handles one outcome of the loopback listener. A request that carries
    /// a token stores it and has it announced; every request is answered;
    /// a failed bind or a timeout changes nothing.
    pub fn on_listener_event(&mut self, event: ListenerEvent) -> (r: ListenerReply)
        requires
            old(self).wf(),
        ensures
            final(self).wf(),
            match event {
                ListenerEvent::Request(url) => {
                    &&& r.respond
                    &&& opt_view(r.notify) == delivered_via(Channel::Listener, url@)
                    &&& opt_view(final(self).auth_token) == store_after(
                        opt_view(old(self).auth_token),
                        delivered_via(Channel::Listener, url@),
                    )
                },
                _ => !r.respond && r.notify is None && final(self).auth_token == old(self).auth_token,
            },
            final(self).is_recording == old(self).is_recording,
            final(self).current_brief_id == old(self).current_brief_id,
            final(self).session_start == old(self).session_start,
            final(self).screenshots == old(self).screenshots,
    {
        match event {
            ListenerEvent::Request(url) => {
                let token = extract_token(url.as_str());
                let notify = match token {
                    Some(t) => {
                        self.set_auth_token(t.clone());
                        Some(t)
                    },
                    None => None,
                };
                ListenerReply { notify, respond: true }
            },
            _ => ListenerReply { notify: None, respond: false },
        }
    }

    /// Handles one batch of OS-delivered deep links, in order: each auth
    /// link that carries a token stores it, and the tokens come back to be
    /// announced.
    pub fn redeem_deep_links(&mut self, urls: &Vec<String>) -> (r: Vec<String>)
        requires
            old(self).wf(),
        ensures
            final(self).wf(),
            r.deep_view() == link_tokens(urls.deep_view()),
            opt_view(final(self).auth_token) == store_after_all(
                opt_view(old(self).auth_token),
                deep_link_writes(urls.deep_view()),
            ),
            final(self).is_recording == old(self).is_recording,
            final(self).current_brief_id == old(self).current_brief_id,
            final(self).session_start == old(self).session_start,
            final(self).screenshots == old(self).screenshots,
    {
        let mut tokens: Vec<String> = Vec::new();
        let mut i: usize = 0;
        while i < urls.len()
            invariant
                self.wf(),
                i <= urls@.len(),
                tokens.deep_view() == link_tokens(urls.deep_view().take(i as int)),
                opt_view(self.auth_token) == store_after_all(
                    opt_view(old(self).auth_token),
                    deep_link_writes(urls.deep_view().take(i as int)),
                ),
                self.is_recording == old(self).is_recording,
                self.current_brief_id == old(self).current_brief_id,
                self.session_start == old(self).session_start,
                self.screenshots == old(self).screenshots,
            decreases urls@.len() - i,
        {
            let ghost before = urls.deep_view().take(i as int);
            let ghost after = urls.deep_view().take(i + 1);
            proof {
                assert(after.drop_last() =~= before);
                assert(deep_link_writes(after).drop_last() =~= deep_link_writes(before));
            }
            let token = deep_link_token(urls[i].as_str());
            match token {
                Some(t) => {
                    self.set_auth_token(t.clone());
                    tokens.push(t);
                    assert(tokens.deep_view() =~= link_tokens(before).push(t@));
                },
                None => {},
            }
            i += 1;
        }
        proof {
            assert(urls.deep_view().take(i as int) =~= urls.deep_view());
        }
        tokens
    }
}

/// The tokens a batch of deep links delivers, in order.
pub open spec fn link_tokens(urls: Seq<Seq<char>>) -> Seq<Seq<char>>
    decreases urls.len(),
{
    if urls.len() == 0 {
        Seq::empty()
    } else {
        match deep_link_token_of(urls.last()) {
            Some(t) => link_tokens(urls.drop_last()).push(t),
            None => link_tokens(urls.drop_last()),
        }
    }
}

/// A batch of deep links as writes to the store.
pub open spec fn deep_link_writes(urls: Seq<Seq<char>>) -> Seq<(Channel, Seq<char>)> {
    urls.map_values(|u: Seq<char>| (Channel::DeepLink, u))
}

} // verus!
