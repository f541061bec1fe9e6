//! Handles and the registry that maps them to live connections.

use crate::error::{Result, WebSocketStateError};
use dashmap::DashMap;
use tide_websockets::WebSocketConnection;
use vstd::prelude::*;
use vstd::string::StringExecFns;

verus! {

#[verifier::external_type_specification]
#[verifier::external_body]
pub struct ExWebSocketConnection(WebSocketConnection);

#[verifier::external_type_specification]
#[verifier::external_body]
#[verifier::reject_recursive_types(K)]
#[verifier::reject_recursive_types(V)]
#[verifier::reject_recursive_types(S)]
pub struct ExDashMap<K, V, S>(DashMap<K, V, S>);

/// An opaque, unique, totally ordered token that addresses one registered
/// connection. Equality and order are those of its text.
#[derive(Debug, PartialEq, Eq, PartialOrd, Ord, Hash)]
pub struct WebSocketHandle(String);

impl View for WebSocketHandle {
    type V = Seq<char>;

    closed spec fn view(&self) -> Seq<char> {
        self.0@
    }
}

impl Clone for WebSocketHandle {
    fn clone(&self) -> (r: Self)
        ensures
            r@ == self@,
    {
        WebSocketHandle(self.0.clone())
    }
}

/// Relies on uuid::Uuid::new_v4 for a random 128-bit token, rendered by its
/// `Display` impl.
#[verifier::external_body]
fn random_token() -> String {
    uuid::Uuid::new_v4().to_string()
}

impl WebSocketHandle {
    /// A handle with a fresh random token.
    pub(crate) fn random() -> WebSocketHandle {
        WebSocketHandle(random_token())
    }

    /// The handle's text.
    pub fn as_str(&self) -> (r: &str)
        ensures
            r@ == self@,
    {
        self.0.as_str()
    }

    /// The handle's text, as an owned string.
    pub fn to_string(&self) -> (r: String)
        ensures
            r@ == self@,
    {
        self.0.clone()
    }
}

/// The handles of the connections that `m` holds.
pub uninterp spec fn members(m: DashMap<WebSocketHandle, WebSocketConnection>) -> Set<Seq<char>>;

/// Relies on DashMap::new: a map with no entries.
#[verifier::external_body]
fn map_new() -> (r: DashMap<WebSocketHandle, WebSocketConnection>)
    ensures
        members(r) == Set::<Seq<char>>::empty(),
{
    DashMap::new()
}

/// Relies on DashMap::contains_key: whether `h` is a key of the map.
#[verifier::external_body]
fn map_contains(m: &DashMap<WebSocketHandle, WebSocketConnection>, h: &WebSocketHandle) -> (r:
    bool)
    ensures
        r == members(*m).contains(h@),
{
    m.contains_key(h)
}

/// Relies on DashMap::get: the entry of `h`, if there is one, whose
/// connection is cloned out.
#[verifier::external_body]
fn map_get(m: &DashMap<WebSocketHandle, WebSocketConnection>, h: &WebSocketHandle) -> (r: Option<
    WebSocketConnection,
>)
    ensures
        r is Some <==> members(*m).contains(h@),
{
    m.get(h).map(|e| e.value().clone())
}

/// Relies on DashMap::insert: afterwards `h` is a key, holding a clone of
/// `c`, and no other key comes or goes.
#[verifier::external_body]
fn map_insert(
    m: &mut DashMap<WebSocketHandle, WebSocketConnection>,
    h: &WebSocketHandle,
    c: &WebSocketConnection,
)
    ensures
        members(*final(m)) == members(*old(m)).insert(h@),
{
    m.insert(h.clone(), c.clone());
}

/// Relies on DashMap::remove: the entry of `h` leaves the map, and its
/// connection is handed back if there was one.
#[verifier::external_body]
fn map_remove(m: &mut DashMap<WebSocketHandle, WebSocketConnection>, h: &WebSocketHandle) -> (r:
    Option<WebSocketConnection>)
    ensures
        r is Some <==> members(*old(m)).contains(h@),
        members(*final(m)) == members(*old(m)).remove(h@),
{
    m.remove(h).map(|(_, v)| v)
}

/// Relies on DashMap::iter: it visits each entry once; each is copied out
/// as a handle and a clone of its connection.
#[verifier::external_body]
fn map_entries(m: &DashMap<WebSocketHandle, WebSocketConnection>) -> (r: Vec<
    (WebSocketHandle, WebSocketConnection),
>)
    ensures
        forall|k: Seq<char>|
            members(*m).contains(k) <==> exists|i: int| 0 <= i < r@.len() && r@[i].0@ == k,
        forall|i: int, j: int| 0 <= i < j < r@.len() ==> r@[i].0@ != r@[j].0@,
{
    m.iter().map(|e| (e.key().clone(), e.value().clone())).collect()
}

/// The registry: which handles currently address a live connection.
pub struct WebSocketState {
    map: DashMap<WebSocketHandle, WebSocketConnection>,
}

impl View for WebSocketState {
    type V = Set<Seq<char>>;

    closed spec fn view(&self) -> Set<Seq<char>> {
        members(self.map)
    }
}

impl Default for WebSocketState {
    fn default() -> (r: Self)
        ensures
            r@ == Set::<Seq<char>>::empty(),
    {
        WebSocketState { map: map_new() }
    }
}

impl WebSocketState {
    /// An empty registry.
    pub fn new() -> (r: Self)
        ensures
            r@ == Set::<Seq<char>>::empty(),
    {
        WebSocketState { map: map_new() }
    }

    /// Whether `handle` currently addresses a registered connection.
    pub fn contains(&self, handle: &WebSocketHandle) -> (r: bool)
        ensures
            r == self@.contains(handle@),
    {
        map_contains(&self.map, handle)
    }

    /// A handle that addresses no registered connection. The random token is
    /// taken as it is unless it is already in use, which a 128-bit token makes
    /// vanishingly rare; then the keys in use are strung together behind it,
    /// which gives a text longer than any of them.
    fn fresh_handle(&self, first: WebSocketHandle) -> (h: WebSocketHandle)
        ensures
            !self@.contains(h@),
    {
        if !map_contains(&self.map, &first) {
            return first;
        }
        let entries = map_entries(&self.map);
        let mut text = first.0;
        text.append("-");
        let mut i: usize = 0;
        while i < entries.len()
            invariant
                0 <= i <= entries@.len(),
                forall|j: int| 0 <= j < i ==> text@.len() > entries@[j].0@.len(),
            decreases entries@.len() - i,
        {
            proof {
                reveal_strlit("-");
            }
            text.append(entries[i].0.as_str());
            text.append("-");
            i = i + 1;
        }
        let h = WebSocketHandle(text);
        assert(!self@.contains(h@)) by {
            if self@.contains(h@) {
                let j = choose|j: int| 0 <= j < entries@.len() && entries@[j].0@ == h@;
                assert(h@.len() > entries@[j].0@.len());
            }
        }
        h
    }

    /// Registers `conn` under a freshly minted handle and returns that handle.
    pub fn insert(&mut self, conn: &WebSocketConnection) -> (h: WebSocketHandle)
        ensures
            !old(self)@.contains(h@),
            final(self)@ == old(self)@.insert(h@),
    {
        let h = self.fresh_handle(WebSocketHandle::random());
        map_insert(&mut self.map, &h, conn);
        h
    }

    /// Removes the entry of `handle`, handing back its connection, or `None`
    /// where there was none; removing an absent handle changes nothing.
    pub fn delete(&mut self, handle: &WebSocketHandle) -> (r: Option<WebSocketConnection>)
        ensures
            r is Some <==> old(self)@.contains(handle@),
            final(self)@ == old(self)@.remove(handle@),
            !old(self)@.contains(handle@) ==> final(self)@ == old(self)@,
    {
        let r = map_remove(&mut self.map, handle);
        proof {
            if !old(self)@.contains(handle@) {
                assert(final(self)@ =~= old(self)@);
            }
        }
        r
    }

    /// The connection that a unicast send to `handle` goes to, or
    /// `NoSuchWebSocketClient(handle)` where none is registered under it.
    pub fn target(&self, handle: &WebSocketHandle) -> (r: Result<WebSocketConnection>)
        ensures
            r is Ok <==> self@.contains(handle@),
            match r {
                Ok(_) => true,
                Err(WebSocketStateError::NoSuchWebSocketClient(h)) => h@ == handle@,
                Err(_) => false,
            },
    {
        match map_get(&self.map, handle) {
            Some(conn) => Ok(conn),
            None => Err(WebSocketStateError::NoSuchWebSocketClient(handle.clone())),
        }
    }

    /// Every registered connection with its handle, each once: the recipients
    /// of a broadcast.
    pub fn recipients(&self) -> (r: Vec<(WebSocketHandle, WebSocketConnection)>)
        ensures
            forall|k: Seq<char>|
                self@.contains(k) <==> exists|i: int| 0 <= i < r@.len() && r@[i].0@ == k,
            forall|i: int, j: int| 0 <= i < j < r@.len() ==> r@[i].0@ != r@[j].0@,
    {
        map_entries(&self.map)
    }
}

} // verus!
