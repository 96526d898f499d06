//! Announcing the toplevels of a compositor to clients.
//!
//! A client that binds the global is announced all toplevels, and from then on those that are
//! created. For each toplevel it has a handle, through which it is told what the toplevel looks
//! like.

use vstd::prelude::*;

use self::state::{push_changes, Event, ToplevelState};
use crate::utils::DoubleBuffered;

pub mod laws;
pub mod state;

verus! {

/// The version of the protocol.
pub const VERSION: u32 = 1;

/// The text of the error that is posted to a client which destroys its object too early.
pub const DEFUNCT_TOPLEVELS: &'static str =
    "ext_foreign_toplevel_info_v1 was destroyed with defunct handles";

/// The object is dead.
#[derive(Debug, Clone, Copy, PartialEq, Eq)]
pub struct DeadResource;

/// A client that toplevels are announced to.
#[derive(Debug, Clone, Copy, PartialEq, Eq)]
pub struct ForeignToplevelClient {
    /// The client.
    pub client: u64,
    /// The object of the client that announces toplevels.
    pub object: u64,
    /// Whether no more toplevels are announced.
    pub stop: bool,
}

impl ForeignToplevelClient {
    /// The object of the client that announces toplevels.
    pub fn info(&self) -> (r: u64)
        ensures
            r == self.object,
    {
        self.object
    }

    /// Tells the client that the compositor will no longer announce toplevels to it, unless it has
    /// been told, or has asked for it.
    pub fn finish(&mut self) -> (r: Option<Event>)
        ensures
            *final(self) == (ForeignToplevelClient { stop: true, ..*old(self) }),
            r == if old(self).stop {
                None::<Event>
            } else {
                Some(Event::Finished { info: old(self).object })
            },
    {
        if self.stop {
            None
        } else {
            self.stop = true;
            Some(Event::Finished { info: self.object })
        }
    }
}

/// A handle of a client for a toplevel.
#[derive(Debug, Clone, Copy, PartialEq, Eq)]
pub struct HandleEntry {
    /// The object of the handle.
    pub object: u64,
    /// The object of the client that announced the toplevel.
    pub info: u64,
    /// The client, unless it is gone.
    pub client: Option<u64>,
}

/// A toplevel.
pub struct ToplevelEntry {
    /// Whether the toplevel is announced to new clients.
    pub listed: bool,
    /// The handles of clients.
    pub handles: Vec<HandleEntry>,
    /// What the toplevel looks like.
    pub state: DoubleBuffered<ToplevelState>,
    /// Whether the state has been sent.
    pub initialized: bool,
}

/// The toplevel that a number stands for.
#[derive(Debug, Clone, Copy, PartialEq, Eq)]
pub struct ToplevelHandle {
    /// The number of the toplevel.
    pub index: usize,
}

/// The clients and the toplevels.
pub struct ForeignToplevelInfo {
    /// The global.
    pub global: u64,
    /// The clients.
    pub clients: Vec<ForeignToplevelClient>,
    /// The toplevels.
    pub toplevels: Vec<ToplevelEntry>,
    /// The object of the next handle.
    pub next_handle: u64,
}

/// A request of a client to the object that announces toplevels.
#[derive(Debug, Clone, Copy, PartialEq, Eq)]
pub enum InfoRequest {
    /// No more toplevels are to be announced.
    Stop,
    /// Destroy the object.
    Destroy,
}

/// How a request is answered.
#[derive(Debug, Clone, Copy, PartialEq, Eq)]
pub enum InfoReply {
    /// There is nothing to answer.
    Accepted,
    /// The error is posted that there are toplevels still alive.
    DefunctToplevels,
}

/// What a toplevel looked like when it was last sent, if it was.
pub open spec fn current_of(toplevel: ToplevelEntry) -> Option<state::StateView> {
    match toplevel.state.current_spec() {
        Some(state) => Some(state@),
        None => None,
    }
}

/// The object of the first handle of a client in a list, if it has one.
pub open spec fn object_of_client(handles: Seq<HandleEntry>, client: u64) -> Option<u64>
    decreases handles.len(),
{
    if handles.len() == 0 {
        None
    } else if handles[0].client == Some(client) {
        Some(handles[0].object)
    } else {
        object_of_client(handles.drop_first(), client)
    }
}

/// The handle of a client for the parent of a toplevel, if there is a parent and the client has a
/// handle for it. A client that is gone has none.
pub open spec fn parent_handle(
    toplevels: Seq<ToplevelEntry>,
    parent: Option<usize>,
    client: Option<u64>,
) -> Option<u64> {
    match (parent, client) {
        (Some(index), Some(client)) => if index < toplevels.len() {
            object_of_client(toplevels[index as int].handles@, client)
        } else {
            None
        },
        _ => None,
    }
}

/// The events that tell the first `n` handles of a list of a change.
pub open spec fn sent_to_handles(
    toplevels: Seq<ToplevelEntry>,
    handles: Seq<HandleEntry>,
    from: Option<state::StateView>,
    to: state::StateView,
    n: int,
) -> Seq<state::EventView>
    decreases n,
{
    if n <= 0 {
        Seq::empty()
    } else {
        let handle = handles[n - 1];
        sent_to_handles(toplevels, handles, from, to, n - 1) + state::changes(
            handle.object,
            from,
            to,
            parent_handle(toplevels, to.parent, handle.client),
        )
    }
}

/// The handle of a client to a toplevel, with the given object. A client that is announced no more
/// toplevels gets none.
pub open spec fn created_for(client: ForeignToplevelClient, object: u64) -> Option<HandleEntry> {
    if client.stop {
        None
    } else {
        Some(HandleEntry { object, info: client.object, client: Some(client.client) })
    }
}

impl ToplevelEntry {
    /// Gives a client a handle with the given object, and returns the event that announces it.
    ///
    /// If the client is not receiving any more new toplevels, nothing is done.
    pub fn create_for_client(&mut self, client: &ForeignToplevelClient, object: u64) -> (r: Option<
        Event,
    >)
        ensures
            match created_for(*client, object) {
                Some(handle) => {
                    &&& r == Some(Event::Toplevel { info: client.object, handle: object })
                    &&& final(self).handles@ == old(self).handles@.push(handle)
                    &&& *final(self) == (ToplevelEntry {
                        handles: final(self).handles,
                        ..*old(self)
                    })
                },
                None => r is None && *final(self) == *old(self),
            },
    {
        if client.stop {
            return None;
        }
        self.handles.push(
            HandleEntry { object, info: client.object, client: Some(client.client) },
        );
        // The new resource must be sent to the client immediately to prevent client side state
        // corruption.
        Some(Event::Toplevel { info: client.object, handle: object })
    }
}

/// The handles of the first `n` clients of a list to a new toplevel, with objects from `first` on.
pub open spec fn new_handles(clients: Seq<ForeignToplevelClient>, first: u64, n: int) -> Seq<
    HandleEntry,
>
    decreases n,
{
    if n <= 0 {
        Seq::empty()
    } else {
        let before = new_handles(clients, first, n - 1);
        let client = clients[n - 1];
        if client.stop {
            before
        } else {
            before.push(
                HandleEntry {
                    object: (first + before.len()) as u64,
                    info: client.object,
                    client: Some(client.client),
                },
            )
        }
    }
}

/// The events that announce handles.
pub open spec fn announcements(handles: Seq<HandleEntry>) -> Seq<state::EventView> {
    handles.map_values(
        |handle: HandleEntry| state::EventView::Toplevel(handle.info, handle.object),
    )
}

/// How many of the first `n` toplevels of a list are announced to new clients.
pub open spec fn listed_before(toplevels: Seq<ToplevelEntry>, n: int) -> nat
    decreases n,
{
    if n <= 0 {
        0
    } else {
        listed_before(toplevels, n - 1) + if toplevels[n - 1].listed {
            1nat
        } else {
            0nat
        }
    }
}

/// The handle of a new client to toplevel `i`, with objects from `first` on.
pub open spec fn handle_of_new_client(
    toplevels: Seq<ToplevelEntry>,
    client: ForeignToplevelClient,
    first: u64,
    i: int,
) -> HandleEntry {
    HandleEntry {
        object: (first + listed_before(toplevels, i)) as u64,
        info: client.object,
        client: Some(client.client),
    }
}

/// The events that announce the first `n` toplevels to a new client.
pub open spec fn announced(
    toplevels: Seq<ToplevelEntry>,
    client: ForeignToplevelClient,
    first: u64,
    n: int,
) -> Seq<state::EventView>
    decreases n,
{
    if n <= 0 {
        Seq::empty()
    } else {
        let before = announced(toplevels, client, first, n - 1);
        if toplevels[n - 1].listed {
            let handle = handle_of_new_client(toplevels, client, first, n - 1);
            before.push(state::EventView::Toplevel(handle.info, handle.object))
        } else {
            before
        }
    }
}

/// The events that tell a new client what the first `n` toplevels look like.
pub open spec fn introduced(
    toplevels: Seq<ToplevelEntry>,
    client: ForeignToplevelClient,
    first: u64,
    n: int,
) -> Seq<state::EventView>
    decreases n,
{
    if n <= 0 {
        Seq::empty()
    } else {
        let before = introduced(toplevels, client, first, n - 1);
        let toplevel = toplevels[n - 1];
        match current_of(toplevel) {
            Some(current) if toplevel.listed && toplevel.initialized => {
                let handle = handle_of_new_client(toplevels, client, first, n - 1);
                before + state::changes(
                    handle.object,
                    None,
                    current,
                    parent_handle(toplevels, current.parent, handle.client),
                )
            },
            _ => before,
        }
    }
}

/// Some client has the given object and is still announced toplevels.
pub open spec fn announces(clients: Seq<ForeignToplevelClient>, object: u64) -> bool {
    exists|i: int|
        0 <= i < clients.len() && (#[trigger] clients[i]).object == object && !clients[i].stop
}

/// A client has no object that announces toplevels.
pub open spec fn has_no_object(clients: Seq<ForeignToplevelClient>, client: u64) -> bool {
    forall|j: int| 0 <= j < clients.len() ==> (#[trigger] clients[j]).client != client
}

/// The client with the given object.
pub open spec fn client_with(clients: Seq<ForeignToplevelClient>, object: u64) -> ForeignToplevelClient {
    clients[choose|i: int| 0 <= i < clients.len() && (#[trigger] clients[i]).object == object]
}

/// A list of clients of which the one with the given object is announced no more toplevels.
pub open spec fn stopped(clients: Seq<ForeignToplevelClient>, object: u64) -> Seq<
    ForeignToplevelClient,
> {
    clients.map_values(
        |client: ForeignToplevelClient|
            if client.object == object {
                ForeignToplevelClient { stop: true, ..client }
            } else {
                client
            },
    )
}

/// No two clients have the same object.
pub open spec fn distinct_objects(clients: Seq<ForeignToplevelClient>) -> bool {
    forall|i: int, j: int|
        0 <= i < j < clients.len() ==> (#[trigger] clients[i]).object != (
        #[trigger] clients[j]).object
}

/// The objects of the handles are all different, and below `next`.
pub open spec fn distinct_handles(toplevels: Seq<ToplevelEntry>, next: u64) -> bool {
    &&& forall|i: int, k: int|
        0 <= i < toplevels.len() && 0 <= k < toplevels[i].handles@.len() ==> (
        #[trigger] toplevels[i].handles@[k]).object < next
    &&& forall|i: int, k: int, j: int, l: int|
        0 <= i < toplevels.len() && 0 <= k < toplevels[i].handles@.len() && 0 <= j
            < toplevels.len() && 0 <= l < toplevels[j].handles@.len() && (
        #[trigger] toplevels[i].handles@[k]).object == (
        #[trigger] toplevels[j].handles@[l]).object ==> i == j && k == l
}

/// The toplevels after a new client has got a handle to each of the first `n` that are announced.
pub open spec fn joined(
    before: Seq<ToplevelEntry>,
    after: Seq<ToplevelEntry>,
    client: ForeignToplevelClient,
    first: u64,
    n: int,
) -> bool {
    &&& after.len() == before.len()
    &&& forall|i: int|
        0 <= i < before.len() ==> {
            &&& same_but_handles(before[i], #[trigger] after[i])
            &&& after[i].handles@ == if i < n && before[i].listed {
                before[i].handles@.push(handle_of_new_client(before, client, first, i))
            } else {
                before[i].handles@
            }
        }
}

proof fn lemma_listed_monotone(toplevels: Seq<ToplevelEntry>, i: int, j: int)
    requires
        0 <= i <= j,
    ensures
        listed_before(toplevels, i) <= listed_before(toplevels, j) <= listed_before(toplevels, i)
            + (j - i),
    decreases j - i,
{
    if i < j {
        lemma_listed_monotone(toplevels, i, j - 1);
    }
}

proof fn lemma_listed_same(before: Seq<ToplevelEntry>, after: Seq<ToplevelEntry>, n: int)
    requires
        n <= before.len() == after.len(),
        forall|i: int| 0 <= i < before.len() ==> before[i].listed == (#[trigger] after[i]).listed,
    ensures
        listed_before(after, n) == listed_before(before, n),
    decreases n,
{
    if n > 0 {
        lemma_listed_same(before, after, n - 1);
        assert(before[n - 1].listed == after[n - 1].listed);
    }
}

proof fn lemma_joined_distinct(
    before: Seq<ToplevelEntry>,
    after: Seq<ToplevelEntry>,
    client: ForeignToplevelClient,
    first: u64,
    next: u64,
)
    requires
        distinct_handles(before, first),
        joined(before, after, client, first, before.len() as int),
        first + before.len() <= u64::MAX,
        next == first + listed_before(before, before.len() as int),
    ensures
        distinct_handles(after, next),
{
    let count = before.len() as int;
    lemma_listed_monotone(before, 0, count);
    assert forall|i: int, k: int|
        0 <= i < after.len() && 0 <= k < after[i].handles@.len() implies (
    #[trigger] after[i].handles@[k]).object < next && (k < before[i].handles@.len()
        ==> after[i].handles@[k] == before[i].handles@[k]) && (k >= before[i].handles@.len()
        ==> before[i].listed && k == before[i].handles@.len() && after[i].handles@[k].object
        == first + listed_before(before, i)) by {
        lemma_listed_monotone(before, i, count);
        lemma_listed_monotone(before, i + 1, count);
        if k < before[i].handles@.len() {
            assert(before[i].handles@[k].object < first);
        }
    }
    assert forall|i: int, k: int, j: int, l: int|
        0 <= i < after.len() && 0 <= k < after[i].handles@.len() && 0 <= j < after.len() && 0 <= l
            < after[j].handles@.len() && (#[trigger] after[i].handles@[k]).object == (
        #[trigger] after[j].handles@[l]).object implies i == j && k == l by {
        if k < before[i].handles@.len() {
            assert(before[i].handles@[k].object < first);
            if l < before[j].handles@.len() {
                assert(before[j].handles@[l].object == before[i].handles@[k].object);
            }
        } else {
            if l < before[j].handles@.len() {
                assert(before[j].handles@[l].object < first);
            } else if i < j {
                lemma_listed_monotone(before, i + 1, j);
            } else if j < i {
                lemma_listed_monotone(before, j + 1, i);
            }
        }
    }
}

/// The first handle of a client in a list.
fn find_of_client(handles: &Vec<HandleEntry>, client: u64) -> (r: Option<u64>)
    ensures
        r == object_of_client(handles@, client),
{
    let mut i: usize = 0;
    assert(handles@.skip(0) =~= handles@);
    while i < handles.len()
        invariant
            i <= handles@.len(),
            object_of_client(handles@, client) == object_of_client(handles@.skip(i as int), client),
        decreases handles@.len() - i,
    {
        let handle: HandleEntry = handles[i];
        assert(handles@.skip(i as int)[0] == handle);
        assert(handles@.skip(i as int).drop_first() =~= handles@.skip(i + 1));
        match handle.client {
            Some(other) => {
                if other == client {
                    return Some(handle.object);
                }
            },
            None => {},
        }
        i = i + 1;
    }
    None
}

/// The handle of a client for the parent of a toplevel: see `parent_handle`.
fn find_parent_handle(
    toplevels: &Vec<ToplevelEntry>,
    parent: Option<usize>,
    client: Option<u64>,
) -> (r: Option<u64>)
    ensures
        r == parent_handle(toplevels@, parent, client),
{
    match parent {
        Some(index) => match client {
            Some(client) => {
                if index < toplevels.len() {
                    find_of_client(&toplevels[index].handles, client)
                } else {
                    None
                }
            },
            // If looking up the client for the child failed, break the parent child relationship.
            None => None,
        },
        None => None,
    }
}

/// The same toplevel but for its handles.
pub open spec fn same_but_handles(before: ToplevelEntry, after: ToplevelEntry) -> bool {
    &&& after.listed == before.listed
    &&& after.state == before.state
    &&& after.initialized == before.initialized
}

impl ForeignToplevelInfo {
    /// No two clients have the same object and no two handles do, and new handles differ from them.
    /// A state is current only once it has been sent.
    pub open spec fn wf(&self) -> bool {
        &&& distinct_objects(self.clients@)
        &&& distinct_handles(self.toplevels@, self.next_handle)
        &&& forall|i: int|
            0 <= i < self.toplevels@.len() ==> (current_of(#[trigger] self.toplevels@[i]) is Some
                <==> self.toplevels@[i].initialized)
    }

    /// No clients and no toplevels.
    pub fn new(global: u64) -> (r: ForeignToplevelInfo)
        ensures
            r.wf(),
            r.global == global,
            r.clients@.len() == 0,
            r.toplevels@.len() == 0,
            r.next_handle == 0,
    {
        ForeignToplevelInfo {
            global,
            clients: Vec::new(),
            toplevels: Vec::new(),
            next_handle: 0,
        }
    }

    /// Returns the id of the global.
    pub fn global(&self) -> (r: u64)
        ensures
            r == self.global,
    {
        self.global
    }

    /// The latest object of a client that announces toplevels, if the client has one.
    pub fn get_client(&self, client: u64) -> (r: Option<ForeignToplevelClient>)
        ensures
            match r {
                Some(entry) => exists|i: int|
                    {
                        &&& 0 <= i < self.clients@.len()
                        &&& #[trigger] self.clients@[i] == entry
                        &&& entry.client == client
                        &&& forall|j: int|
                            i < j < self.clients@.len() ==> (#[trigger] self.clients@[j]).client
                                != client
                    },
                None => has_no_object(self.clients@, client),
            },
    {
        let mut i: usize = self.clients.len();
        while i > 0
            invariant
                i <= self.clients@.len(),
                forall|j: int|
                    i <= j < self.clients@.len() ==> (#[trigger] self.clients@[j]).client != client,
            decreases i,
        {
            i = i - 1;
            let entry: ForeignToplevelClient = self.clients[i];
            if entry.client == client {
                assert(self.clients@[i as int] == entry);
                return Some(entry);
            }
        }
        None
    }

    /// The client with the given object, if there is one.
    fn find_client(&self, object: u64) -> (r: Option<usize>)
        ensures
            match r {
                Some(i) => {
                    &&& i < self.clients@.len()
                    &&& self.clients@[i as int].object == object
                    &&& forall|j: int| 0 <= j < i ==> (#[trigger] self.clients@[j]).object != object
                },
                None => forall|j: int|
                    0 <= j < self.clients@.len() ==> (#[trigger] self.clients@[j]).object != object,
            },
    {
        let mut i: usize = 0;
        while i < self.clients.len()
            invariant
                i <= self.clients@.len(),
                forall|j: int| 0 <= j < i ==> (#[trigger] self.clients@[j]).object != object,
            decreases self.clients@.len() - i,
        {
            if self.clients[i].object == object {
                return Some(i);
            }
            i = i + 1;
        }
        None
    }

    /// Creates a toplevel and announces it to all clients that are still announced toplevels.
    ///
    /// This does not tell what the toplevel looks like. The state must be set and sent.
    #[must_use]
    pub fn create_handle(&mut self) -> (r: (ToplevelHandle, Vec<Event>))
        requires
            old(self).wf(),
            old(self).next_handle + old(self).clients@.len() <= u64::MAX,
        ensures
            final(self).wf(),
            r.0.index == old(self).toplevels@.len(),
            final(self).toplevels@.len() == old(self).toplevels@.len() + 1,
            final(self).toplevels@.drop_last() == old(self).toplevels@,
            ({
                let created = final(self).toplevels@.last();
                let handles = new_handles(
                    old(self).clients@,
                    old(self).next_handle,
                    old(self).clients@.len() as int,
                );
                &&& created.listed
                &&& !created.initialized
                &&& created.state.current_spec() is None
                &&& created.state.pending_spec()@ == state::blank_state()
                &&& created.handles@ == handles
                &&& final(self).next_handle == old(self).next_handle + handles.len()
                &&& state::views(r.1@) == announcements(handles)
            }),
            final(self).clients == old(self).clients,
            final(self).global == old(self).global,
    {
        let first: u64 = self.next_handle;
        let mut toplevel = ToplevelEntry {
            listed: true,
            handles: Vec::new(),
            state: DoubleBuffered::new(),
            initialized: false,
        };
        let ghost blank = toplevel;
        let mut events: Vec<Event> = Vec::new();
        let mut i: usize = 0;
        assert(state::views(events@) =~= announcements(toplevel.handles@));
        while i < self.clients.len()
            invariant
                i <= self.clients@.len(),
                self.clients == old(self).clients,
                self.toplevels == old(self).toplevels,
                self.global == old(self).global,
                first == old(self).next_handle,
                first + self.clients@.len() <= u64::MAX,
                toplevel == (ToplevelEntry { handles: toplevel.handles, ..blank }),
                toplevel.handles@.len() <= i,
                self.next_handle == first + toplevel.handles@.len(),
                toplevel.handles@ == new_handles(self.clients@, first, i as int),
                forall|k: int|
                    0 <= k < toplevel.handles@.len() ==> (#[trigger] toplevel.handles@[k]).object
                        == first + k,
                state::views(events@) == announcements(toplevel.handles@),
            decreases self.clients@.len() - i,
        {
            let client: ForeignToplevelClient = self.clients[i];
            let ghost before = toplevel.handles@;
            match toplevel.create_for_client(&client, self.next_handle) {
                Some(event) => {
                    proof {
                        state::lemma_views_push(events@, event);
                        assert(announcements(toplevel.handles@) =~= announcements(before).push(
                            event@,
                        ));
                    }
                    self.next_handle = self.next_handle + 1;
                    events.push(event);
                },
                None => {},
            }
            i = i + 1;
        }
        let index: usize = self.toplevels.len();
        self.toplevels.push(toplevel);
        assert(self.toplevels@.drop_last() =~= old(self).toplevels@);
        (ToplevelHandle { index }, events)
    }

    /// Destroys a toplevel.
    ///
    /// When this occurs, any existing handles are told that it is gone.
    pub fn destroy_handle(&mut self, toplevel: &ToplevelHandle) -> (r: Vec<Event>)
        requires
            old(self).wf(),
            toplevel.index < old(self).toplevels@.len(),
        ensures
            final(self).wf(),
            ({
                let before = old(self).toplevels@[toplevel.index as int];
                let after = final(self).toplevels@[toplevel.index as int];
                &&& !after.listed
                &&& after.handles == before.handles
                &&& after.state == before.state
                &&& after.initialized == before.initialized
                &&& final(self).toplevels@ == old(self).toplevels@.update(
                    toplevel.index as int,
                    after,
                )
                &&& state::views(r@) == before.handles@.map_values(
                    |handle: HandleEntry| state::EventView::Closed(handle.object),
                )
            }),
            final(self).clients == old(self).clients,
            final(self).global == old(self).global,
            final(self).next_handle == old(self).next_handle,
    {
        let mut events: Vec<Event> = Vec::new();
        let index: usize = toplevel.index;
        let ghost handles = self.toplevels@[index as int].handles@;
        let ghost closed = |handle: HandleEntry| state::EventView::Closed(handle.object);
        let mut i: usize = 0;
        assert(state::views(events@) =~= handles.take(0).map_values(closed));
        while i < self.toplevels[index].handles.len()
            invariant
                index < self.toplevels@.len(),
                handles == self.toplevels@[index as int].handles@,
                i <= handles.len(),
                closed == (|handle: HandleEntry| state::EventView::Closed(handle.object)),
                state::views(events@) == handles.take(i as int).map_values(closed),
            decreases handles.len() - i,
        {
            let event = Event::Closed { handle: self.toplevels[index].handles[i].object };
            proof {
                state::lemma_views_push(events@, event);
                assert(handles.take(i + 1) =~= handles.take(i as int).push(handles[i as int]));
                assert(handles.take(i + 1).map_values(closed) =~= handles.take(i as int).map_values(
                    closed,
                ).push(event@));
            }
            events.push(event);
            i = i + 1;
        }
        assert(handles.take(i as int) =~= handles);
        self.toplevels[index].listed = false;
        assert(self.toplevels@ =~= old(self).toplevels@.update(
            index as int,
            self.toplevels@[index as int],
        ));
        events
    }

    /// Tells a client that the compositor will no longer announce toplevels to it, unless it has
    /// been told, or has asked for it.
    pub fn finish(&mut self, object: u64) -> (r: Option<Event>)
        requires
            old(self).wf(),
        ensures
            final(self).wf(),
            final(self).clients@ == stopped(old(self).clients@, object),
            r matches Some(event) ==> event == (Event::Finished { info: object }),
            r is Some <==> announces(old(self).clients@, object),
            *final(self) == (ForeignToplevelInfo { clients: final(self).clients, ..*old(self) }),
    {
        match self.find_client(object) {
            Some(i) => {
                let mut client: ForeignToplevelClient = self.clients[i];
                let event: Option<Event> = client.finish();
                self.clients.set(i, client);
                assert(event is Some ==> announces(old(self).clients@, object)) by {
                    assert(old(self).clients@[i as int].object == object);
                }
                assert(self.clients@ =~= stopped(old(self).clients@, object));
                event
            },
            None => {
                assert(stopped(self.clients@, object) =~= self.clients@);
                None
            },
        }
    }

    /// Adds a client that has bound the global. It is announced toplevels by `advertise`, after
    /// the compositor has had the occasion to finish it.
    pub fn bind(&mut self, client: u64, object: u64)
        requires
            old(self).wf(),
            forall|i: int|
                0 <= i < old(self).clients@.len() ==> (#[trigger] old(self).clients@[i]).object
                    != object,
        ensures
            final(self).wf(),
            final(self).clients@ == old(self).clients@.push(
                ForeignToplevelClient { client, object, stop: false },
            ),
            *final(self) == (ForeignToplevelInfo { clients: final(self).clients, ..*old(self) }),
    {
        self.clients.push(ForeignToplevelClient { client, object, stop: false });
    }

    /// Announces all toplevels to a client that was added, and then tells it what they look like.
    ///
    /// All handles are created first, so that a child is not told of before its parent. If the
    /// client has been finished, no toplevels may be announced any more.
    pub fn advertise(&mut self, object: u64) -> (r: Vec<Event>)
        requires
            old(self).wf(),
            old(self).next_handle + old(self).toplevels@.len() <= u64::MAX,
        ensures
            final(self).wf(),
            !announces(old(self).clients@, object) ==> r@.len() == 0 && *final(self) == *old(self),
            announces(old(self).clients@, object) ==> {
                let client = client_with(old(self).clients@, object);
                let tops = old(self).toplevels@;
                let first = old(self).next_handle;
                let count = tops.len() as int;
                &&& joined(tops, final(self).toplevels@, client, first, count)
                &&& final(self).next_handle == first + listed_before(tops, count)
                &&& final(self).clients == old(self).clients
                &&& final(self).global == old(self).global
                &&& state::views(r@) == announced(tops, client, first, count) + introduced(
                    final(self).toplevels@,
                    client,
                    first,
                    count,
                )
            },
    {
        let mut events: Vec<Event> = Vec::new();
        let client: ForeignToplevelClient = match self.find_client(object) {
            Some(i) => self.clients[i],
            None => {
                return events;
            },
        };
        // After the client was told that it is finished, no toplevels may be announced to it.
        if client.stop {
            return events;
        }
        assert(client_with(self.clients@, object) == client);
        let first: u64 = self.next_handle;
        self.announce_all(&client, &mut events);
        let ghost before = old(self).toplevels@;
        let ghost after = self.toplevels@;
        let ghost start = state::views(events@);
        let count: usize = self.toplevels.len();
        let mut handle: u64 = first;
        let mut i: usize = 0;
        proof {
            lemma_joined_distinct(before, after, client, first, self.next_handle);
        }
        assert(state::views(events@) =~= start + introduced(after, client, first, 0));
        while i < count
            invariant
                i <= count,
                count == after.len() == before.len(),
                self.toplevels@ == after,
                joined(before, after, client, first, count as int),
                first + count <= u64::MAX,
                handle == first + listed_before(after, i as int) <= first + i,
                state::views(events@) == start + introduced(after, client, first, i as int),
            decreases count - i,
        {
            if self.toplevels[i].listed {
                if self.toplevels[i].initialized {
                    match self.toplevels[i].state.current() {
                        Some(current) => {
                            let parent: Option<u64> = find_parent_handle(
                                &self.toplevels,
                                current.parent,
                                Some(client.client),
                            );
                            push_changes(handle, None, current, parent, &mut events);
                            assert(state::views(events@) =~= start + introduced(
                                after,
                                client,
                                first,
                                i + 1,
                            ));
                        },
                        None => {},
                    }
                }
                handle = handle + 1;
            }
            i = i + 1;
        }
        events
    }

    /// Gives a new client a handle to each toplevel that is announced.
    fn announce_all(&mut self, client: &ForeignToplevelClient, events: &mut Vec<Event>)
        requires
            old(self).next_handle + old(self).toplevels@.len() <= u64::MAX,
            old(events)@.len() == 0,
            !client.stop,
        ensures
            ({
                let tops = old(self).toplevels@;
                let first = old(self).next_handle;
                let count = tops.len() as int;
                &&& joined(tops, final(self).toplevels@, *client, first, count)
                &&& final(self).next_handle == first + listed_before(tops, count)
                &&& state::views(final(events)@) == announced(tops, *client, first, count)
            }),
            final(self).clients == old(self).clients,
            final(self).global == old(self).global,
    {
        let ghost before = self.toplevels@;
        let first: u64 = self.next_handle;
        let count: usize = self.toplevels.len();
        let mut i: usize = 0;
        assert(state::views(events@) =~= announced(before, *client, first, 0));
        while i < count
            invariant
                i <= count,
                count == before.len(),
                before == old(self).toplevels@,
                first + count <= u64::MAX,
                !client.stop,
                joined(before, self.toplevels@, *client, first, i as int),
                self.next_handle == first + listed_before(before, i as int) <= first + i,
                state::views(events@) == announced(before, *client, first, i as int),
                self.clients == old(self).clients,
                self.global == old(self).global,
            decreases count - i,
        {
            let ghost so_far = self.toplevels@;
            assert(same_but_handles(before[i as int], so_far[i as int]));
            if self.toplevels[i].listed {
                match self.toplevels[i].create_for_client(client, self.next_handle) {
                    Some(event) => {
                        proof {
                            state::lemma_views_push(events@, event);
                        }
                        events.push(event);
                    },
                    None => {},
                }
                self.next_handle = self.next_handle + 1;
                proof {
                    assert forall|j: int| 0 <= j < before.len() && j != i implies
                        #[trigger] self.toplevels@[j] == so_far[j] by {}
                }
            }
            i = i + 1;
        }
    }

    /// Processes a request of a client to its object that announces toplevels.
    ///
    /// Destroying the object while there are handles of it still alive is an error.
    pub fn request(&mut self, object: u64, request: &InfoRequest) -> (r: InfoReply)
        requires
            old(self).wf(),
        ensures
            final(self).wf(),
            final(self).clients@ == match request {
                InfoRequest::Stop => stopped(old(self).clients@, object),
                InfoRequest::Destroy => old(self).clients@,
            },
            *final(self) == (ForeignToplevelInfo { clients: final(self).clients, ..*old(self) }),
            r == if *request == InfoRequest::Destroy && has_handles(old(self).toplevels@, object) {
                InfoReply::DefunctToplevels
            } else {
                InfoReply::Accepted
            },
    {
        match request {
            InfoRequest::Stop => {
                match self.find_client(object) {
                    Some(i) => {
                        self.clients[i].stop = true;
                    },
                    None => {},
                }
                assert(self.clients@ =~= stopped(old(self).clients@, object));
                InfoReply::Accepted
            },
            InfoRequest::Destroy => {
                if self.has_live_handles(object) {
                    InfoReply::DefunctToplevels
                } else {
                    InfoReply::Accepted
                }
            },
        }
    }

    /// Whether there are handles alive that the given object announced.
    fn has_live_handles(&self, info: u64) -> (r: bool)
        ensures
            r == has_handles(self.toplevels@, info),
    {
        let mut i: usize = 0;
        while i < self.toplevels.len()
            invariant
                i <= self.toplevels@.len(),
                forall|j: int, k: int|
                    0 <= j < i && 0 <= k < self.toplevels@[j].handles@.len() ==> (
                    #[trigger] self.toplevels@[j].handles@[k]).info != info,
            decreases self.toplevels@.len() - i,
        {
            let mut k: usize = 0;
            while k < self.toplevels[i].handles.len()
                invariant
                    i < self.toplevels@.len(),
                    k <= self.toplevels@[i as int].handles@.len(),
                    forall|l: int|
                        0 <= l < k ==> (#[trigger] self.toplevels@[i as int].handles@[l]).info
                            != info,
                decreases self.toplevels@[i as int].handles@.len() - k,
            {
                if self.toplevels[i].handles[k].info == info {
                    assert(self.toplevels@[i as int].handles@[k as int].info == info);
                    return true;
                }
                k = k + 1;
            }
            i = i + 1;
        }
        false
    }

    /// Forgets the client whose object was destroyed, whether by a request or because the client
    /// has disconnected. Returns the client, to be told to the compositor.
    pub fn destroyed(&mut self, object: u64) -> (r: Option<ForeignToplevelClient>)
        requires
            old(self).wf(),
        ensures
            final(self).wf(),
            match r {
                Some(client) => exists|i: int|
                    {
                        &&& 0 <= i < old(self).clients@.len()
                        &&& #[trigger] old(self).clients@[i] == client
                        &&& client.object == object
                        &&& final(self).clients@ == old(self).clients@.remove(i)
                    },
                None => {
                    &&& forall|i: int|
                        0 <= i < old(self).clients@.len() ==> (
                        #[trigger] old(self).clients@[i]).object != object
                    &&& final(self).clients@ == old(self).clients@
                },
            },
            *final(self) == (ForeignToplevelInfo { clients: final(self).clients, ..*old(self) }),
    {
        match self.find_client(object) {
            Some(i) => {
                let client: ForeignToplevelClient = self.clients.remove(i);
                assert(old(self).clients@[i as int] == client);
                Some(client)
            },
            None => None,
        }
    }

    /// The place of a handle: the toplevel, and the place among its handles.
    fn find_handle(&self, object: u64) -> (r: Option<(usize, usize)>)
        ensures
            match r {
                Some((i, k)) => {
                    &&& i < self.toplevels@.len()
                    &&& k < self.toplevels@[i as int].handles@.len()
                    &&& self.toplevels@[i as int].handles@[k as int].object == object
                },
                None => forall|i: int, k: int|
                    0 <= i < self.toplevels@.len() && 0 <= k < self.toplevels@[i].handles@.len()
                        ==> (#[trigger] self.toplevels@[i].handles@[k]).object != object,
            },
    {
        let mut i: usize = 0;
        while i < self.toplevels.len()
            invariant
                i <= self.toplevels@.len(),
                forall|j: int, k: int|
                    0 <= j < i && 0 <= k < self.toplevels@[j].handles@.len() ==> (
                    #[trigger] self.toplevels@[j].handles@[k]).object != object,
            decreases self.toplevels@.len() - i,
        {
            let mut k: usize = 0;
            while k < self.toplevels[i].handles.len()
                invariant
                    i < self.toplevels@.len(),
                    k <= self.toplevels@[i as int].handles@.len(),
                    forall|l: int|
                        0 <= l < k ==> (#[trigger] self.toplevels@[i as int].handles@[l]).object
                            != object,
                decreases self.toplevels@[i as int].handles@.len() - k,
            {
                if self.toplevels[i].handles[k].object == object {
                    return Some((i, k));
                }
                k = k + 1;
            }
            i = i + 1;
        }
        None
    }

    /// Processes the request of a client to destroy a handle. Returns whether it was alive.
    pub fn destroy_client_handle(&mut self, object: u64) -> (r: bool)
        requires
            old(self).wf(),
        ensures
            final(self).wf(),
            r == is_alive(old(self).toplevels@, object),
            !is_alive(final(self).toplevels@, object),
            final(self).toplevels@.len() == old(self).toplevels@.len(),
            forall|i: int|
                0 <= i < old(self).toplevels@.len() ==> {
                    let before = old(self).toplevels@[i];
                    let after = #[trigger] final(self).toplevels@[i];
                    &&& same_but_handles(before, after)
                    &&& after.handles@ == before.handles@.filter(
                        |handle: HandleEntry| handle.object != object,
                    )
                },
            final(self).clients == old(self).clients,
            final(self).global == old(self).global,
            final(self).next_handle == old(self).next_handle,
    {
        let ghost before = self.toplevels@;
        let ghost keep = |handle: HandleEntry| handle.object != object;
        match self.find_handle(object) {
            Some((i, k)) => {
                assert(before[i as int].handles@[k as int].object == object);
                assert(is_alive(before, object));
                self.toplevels[i].handles.remove(k);
                proof {
                    let after = self.toplevels@;
                    assert forall|j: int| 0 <= j < before.len() implies same_but_handles(
                        before[j],
                        #[trigger] after[j],
                    ) && after[j].handles@ == before[j].handles@.filter(keep) by {
                        if j == i {
                            lemma_filter_one(before[j].handles@, keep, k as int);
                        } else {
                            lemma_filter_all(before[j].handles@, keep);
                        }
                    }
                    lemma_removed_distinct(before, after, i as int, k as int, self.next_handle);
                }
                true
            },
            None => {
                proof {
                    assert forall|j: int| 0 <= j < before.len() implies (
                    #[trigger] before[j]).handles@ == before[j].handles@.filter(keep) by {
                        lemma_filter_all(before[j].handles@, keep);
                    }
                }
                false
            },
        }
    }

    /// Marks the handles of a client that has disconnected. They are no longer the client's.
    pub fn client_disconnected(&mut self, client: u64)
        requires
            old(self).wf(),
        ensures
            final(self).wf(),
            final(self).toplevels@.len() == old(self).toplevels@.len(),
            forall|i: int|
                0 <= i < old(self).toplevels@.len() ==> {
                    let before = old(self).toplevels@[i];
                    let after = #[trigger] final(self).toplevels@[i];
                    same_but_handles(before, after) && after.handles@ == without_client(
                        before.handles@,
                        client,
                    )
                },
            final(self).clients == old(self).clients,
            final(self).global == old(self).global,
            final(self).next_handle == old(self).next_handle,
    {
        let ghost before = self.toplevels@;
        let count: usize = self.toplevels.len();
        let mut i: usize = 0;
        while i < count
            invariant
                i <= count,
                count == before.len() == self.toplevels@.len(),
                before == old(self).toplevels@,
                forall|j: int|
                    0 <= j < before.len() ==> {
                        let after = #[trigger] self.toplevels@[j];
                        same_but_handles(before[j], after) && after.handles@ == if j < i {
                            without_client(before[j].handles@, client)
                        } else {
                            before[j].handles@
                        }
                    },
                self.clients == old(self).clients,
                self.global == old(self).global,
                self.next_handle == old(self).next_handle,
            decreases count - i,
        {
            let ghost so_far = self.toplevels@;
            forget_client(&mut self.toplevels[i].handles, client);
            proof {
                assert forall|j: int| 0 <= j < before.len() && j != i implies
                    #[trigger] self.toplevels@[j] == so_far[j] by {}
                assert(so_far[i as int].handles@ == before[i as int].handles@);
            }
            i = i + 1;
        }
        proof {
            let after = self.toplevels@;
            assert forall|j: int, k: int|
                0 <= j < after.len() && 0 <= k < after[j].handles@.len() implies (
            #[trigger] after[j].handles@[k]).object == before[j].handles@[k].object by {}
        }
    }
}

/// The handles of a list after a client is gone.
pub open spec fn without_client(handles: Seq<HandleEntry>, client: u64) -> Seq<HandleEntry> {
    handles.map_values(
        |handle: HandleEntry|
            if handle.client == Some(client) {
                HandleEntry { client: None, ..handle }
            } else {
                handle
            },
    )
}

/// Marks the handles of a client that is gone: see `without_client`.
fn forget_client(handles: &mut Vec<HandleEntry>, client: u64)
    ensures
        final(handles)@ == without_client(old(handles)@, client),
{
    let ghost before = handles@;
    let mut k: usize = 0;
    while k < handles.len()
        invariant
            k <= handles@.len() == before.len(),
            forall|l: int| k <= l < before.len() ==> handles@[l] == before[l],
            forall|l: int|
                0 <= l < k ==> #[trigger] handles@[l] == without_client(before, client)[l],
        decreases handles@.len() - k,
    {
        let entry: HandleEntry = handles[k];
        let gone: bool = match entry.client {
            Some(other) => other == client,
            None => false,
        };
        if gone {
            handles.set(k, HandleEntry { object: entry.object, info: entry.info, client: None });
        }
        k = k + 1;
    }
    assert(handles@ =~= without_client(before, client));
}

/// There are handles alive that the given object announced.
pub open spec fn has_handles(toplevels: Seq<ToplevelEntry>, info: u64) -> bool {
    exists|i: int, k: int|
        0 <= i < toplevels.len() && 0 <= k < toplevels[i].handles@.len() && (
        #[trigger] toplevels[i].handles@[k]).info == info
}

/// A toplevel has a handle with the given object.
pub open spec fn has_handle(toplevel: ToplevelEntry, object: u64) -> bool {
    exists|k: int|
        0 <= k < toplevel.handles@.len() && (#[trigger] toplevel.handles@[k]).object == object
}

/// A handle with the given object is alive.
pub open spec fn is_alive(toplevels: Seq<ToplevelEntry>, object: u64) -> bool {
    exists|i: int, k: int|
        0 <= i < toplevels.len() && 0 <= k < toplevels[i].handles@.len() && (
        #[trigger] toplevels[i].handles@[k]).object == object
}

proof fn lemma_filter_all(handles: Seq<HandleEntry>, keep: spec_fn(HandleEntry) -> bool)
    requires
        forall|k: int| 0 <= k < handles.len() ==> keep(#[trigger] handles[k]),
    ensures
        handles.filter(keep) == handles,
    decreases handles.len(),
{
    reveal(Seq::filter);
    if handles.len() > 0 {
        let rest = handles.drop_last();
        assert forall|k: int| 0 <= k < rest.len() implies keep(#[trigger] rest[k]) by {
            assert(rest[k] == handles[k]);
        }
        lemma_filter_all(rest, keep);
        assert(keep(handles[handles.len() - 1]));
        assert(rest.push(handles.last()) =~= handles);
    } else {
        assert(handles.filter(keep) =~= handles);
    }
}

proof fn lemma_filter_one(handles: Seq<HandleEntry>, keep: spec_fn(HandleEntry) -> bool, k: int)
    requires
        0 <= k < handles.len(),
        !keep(handles[k]),
        forall|l: int| 0 <= l < handles.len() && l != k ==> keep(#[trigger] handles[l]),
    ensures
        handles.filter(keep) == handles.remove(k),
    decreases handles.len(),
{
    reveal(Seq::filter);
    let rest = handles.drop_last();
    if k == handles.len() - 1 {
        assert forall|l: int| 0 <= l < rest.len() implies keep(#[trigger] rest[l]) by {
            assert(rest[l] == handles[l]);
        }
        lemma_filter_all(rest, keep);
        assert(handles.remove(k) =~= rest);
    } else {
        assert forall|l: int| 0 <= l < rest.len() && l != k implies keep(#[trigger] rest[l]) by {
            assert(rest[l] == handles[l]);
        }
        lemma_filter_one(rest, keep, k);
        assert(keep(handles[handles.len() - 1]));
        assert(rest.remove(k).push(handles.last()) =~= handles.remove(k));
    }
}

proof fn lemma_removed_distinct(
    before: Seq<ToplevelEntry>,
    after: Seq<ToplevelEntry>,
    i: int,
    k: int,
    next: u64,
)
    requires
        distinct_handles(before, next),
        0 <= i < before.len() == after.len(),
        0 <= k < before[i].handles@.len(),
        after[i].handles@ == before[i].handles@.remove(k),
        forall|j: int| 0 <= j < before.len() && j != i ==> (#[trigger] after[j]).handles@ == before[j].handles@,
    ensures
        distinct_handles(after, next),
        !is_alive(after, before[i].handles@[k].object),
{
    let place = |j: int, l: int|
        if j == i && l >= k {
            l + 1
        } else {
            l
        };
    assert forall|j: int, l: int|
        0 <= j < after.len() && 0 <= l < after[j].handles@.len() implies (
    #[trigger] after[j].handles@[l]) == before[j].handles@[place(j, l)] && 0 <= place(j, l)
        < before[j].handles@.len() && after[j].handles@[l].object != before[i].handles@[k].object by {
        let p = place(j, l);
        assert(before[j].handles@[p] == after[j].handles@[l]);
        let one = before[i].handles@[k];
        let two = before[j].handles@[p];
        if one.object == two.object {
            assert(i == j && k == p);
        }
    }
    assert forall|j: int, l: int, m: int, n: int|
        0 <= j < after.len() && 0 <= l < after[j].handles@.len() && 0 <= m < after.len() && 0 <= n
            < after[m].handles@.len() && (#[trigger] after[j].handles@[l]).object == (
        #[trigger] after[m].handles@[n]).object implies j == m && l == n by {
        let p = place(j, l);
        let q = place(m, n);
        assert(before[j].handles@[p].object == before[m].handles@[q].object);
    }
}

impl ToplevelHandle {
    /// The toplevel that a handle is for, if the handle is alive.
    pub fn from_handle(info: &ForeignToplevelInfo, object: u64) -> (r: Result<
        ToplevelHandle,
        DeadResource,
    >)
        ensures
            match r {
                Ok(toplevel) => {
                    &&& toplevel.index < info.toplevels@.len()
                    &&& has_handle(info.toplevels@[toplevel.index as int], object)
                },
                Err(_) => !is_alive(info.toplevels@, object),
            },
    {
        match info.find_handle(object) {
            Some((i, k)) => {
                let toplevel = ToplevelHandle { index: i };
                let ghost top = info.toplevels@[i as int];
                assert(top.handles@[k as int].object == object);
                assert(has_handle(top, object));
                Ok(toplevel)
            },
            None => Err(DeadResource),
        }
    }

    /// The state that is sent next, to change it.
    pub fn pending_state<'a>(&self, info: &'a mut ForeignToplevelInfo) -> (r: &'a mut ToplevelState)
        requires
            old(info).wf(),
            self.index < old(info).toplevels@.len(),
        ensures
            final(info).wf(),
            *r == old(info).toplevels@[self.index as int].state.pending_spec(),
            ({
                let before = old(info).toplevels@[self.index as int];
                let after = final(info).toplevels@[self.index as int];
                &&& after.state.pending_spec() == *final(r)
                &&& after.state.current_spec() == before.state.current_spec()
                &&& after.listed == before.listed
                &&& after.handles == before.handles
                &&& after.initialized == before.initialized
                &&& final(info).toplevels@ == old(info).toplevels@.update(self.index as int, after)
            }),
            final(info).clients == old(info).clients,
            final(info).global == old(info).global,
            final(info).next_handle == old(info).next_handle,
    {
        self.pending_of(&mut info.toplevels)
    }

    /// The state that is sent next, of a list of toplevels.
    fn pending_of<'a>(&self, toplevels: &'a mut Vec<ToplevelEntry>) -> (r: &'a mut ToplevelState)
        requires
            self.index < old(toplevels)@.len(),
        ensures
            *r == old(toplevels)@[self.index as int].state.pending_spec(),
            ({
                let before = old(toplevels)@[self.index as int];
                let after = final(toplevels)@[self.index as int];
                &&& after.state.pending_spec() == *final(r)
                &&& after.state.current_spec() == before.state.current_spec()
                &&& after.listed == before.listed
                &&& after.handles == before.handles
                &&& after.initialized == before.initialized
                &&& final(toplevels)@ == old(toplevels)@.update(self.index as int, after)
            }),
    {
        toplevels[self.index].state.pending_mut()
    }

    /// Sends the pending state to all clients that have a handle for the toplevel. It is then
    /// current, and what new clients are told.
    pub fn send_state(&self, info: &mut ForeignToplevelInfo) -> (r: Vec<Event>)
        requires
            old(info).wf(),
            self.index < old(info).toplevels@.len(),
        ensures
            final(info).wf(),
            ({
                let before = old(info).toplevels@[self.index as int];
                let after = final(info).toplevels@[self.index as int];
                &&& after.initialized
                &&& after.listed == before.listed
                &&& after.handles == before.handles
                &&& after.state.pending_spec() == before.state.pending_spec()
                &&& current_of(after) == Some(before.state.pending_spec()@)
                &&& final(info).toplevels@ == old(info).toplevels@.update(self.index as int, after)
                &&& state::views(r@) == sent_to_handles(
                    old(info).toplevels@,
                    before.handles@,
                    current_of(before),
                    before.state.pending_spec()@,
                    before.handles@.len() as int,
                )
            }),
            final(info).clients == old(info).clients,
            final(info).global == old(info).global,
            final(info).next_handle == old(info).next_handle,
    {
        let mut events: Vec<Event> = Vec::new();
        let index: usize = self.index;
        let ghost tops = info.toplevels@;
        let ghost top = tops[index as int];
        let mut k: usize = 0;
        assert(state::views(events@) =~= Seq::<state::EventView>::empty());
        while k < info.toplevels[index].handles.len()
            invariant
                index < tops.len(),
                info.toplevels@ == tops,
                top == tops[index as int],
                k <= top.handles@.len(),
                state::views(events@) == sent_to_handles(
                    tops,
                    top.handles@,
                    current_of(top),
                    top.state.pending_spec()@,
                    k as int,
                ),
            decreases top.handles@.len() - k,
        {
            let handle: HandleEntry = info.toplevels[index].handles[k];
            let pending: &ToplevelState = info.toplevels[index].state.pending();
            let current: Option<&ToplevelState> = info.toplevels[index].state.current();
            let parent: Option<u64> = find_parent_handle(
                &info.toplevels,
                pending.parent,
                handle.client,
            );
            push_changes(handle.object, current, pending, parent, &mut events);
            k = k + 1;
        }
        // Commit the current state after updating each client.
        info.toplevels[index].initialized = true;
        info.toplevels[index].state.apply_pending();
        assert(info.toplevels@ =~= tops.update(index as int, info.toplevels@[index as int]));
        events
    }

    /// The handle of a client for the toplevel, if it has one.
    pub fn handle_for_client(&self, info: &ForeignToplevelInfo, client: u64) -> (r: Result<
        u64,
        DeadResource,
    >)
        requires
            self.index < info.toplevels@.len(),
        ensures
            r == match object_of_client(info.toplevels@[self.index as int].handles@, client) {
                Some(object) => Ok::<u64, DeadResource>(object),
                None => Err::<u64, DeadResource>(DeadResource),
            },
    {
        match find_of_client(&info.toplevels[self.index].handles, client) {
            Some(object) => Ok(object),
            None => Err(DeadResource),
        }
    }
}

proof fn lemma_told_of_another(
    mirror: state::Mirror,
    handle: u64,
    other: u64,
    from: Option<state::StateView>,
    to: state::StateView,
    parent: Option<u64>,
)
    requires
        handle != other,
    ensures
        state::told_all(mirror, handle, state::changes(other, from, to, parent)) == mirror,
{
    let events = state::changes(other, from, to, parent);
    assert forall|i: int| 0 <= i < events.len() implies state::about(#[trigger] events[i]) == Some(
        other,
    ) by {}
    state::lemma_told_nothing(mirror, handle, events);
}

proof fn lemma_sent_to_handles(
    tops: Seq<ToplevelEntry>,
    handles: Seq<HandleEntry>,
    from: Option<state::StateView>,
    to: state::StateView,
    n: int,
    k: int,
    mirror: state::Mirror,
)
    requires
        0 <= n <= handles.len(),
        0 <= k < handles.len(),
        forall|l: int|
            0 <= l < handles.len() && l != k ==> (#[trigger] handles[l]).object
                != handles[k].object,
        state::reflects(mirror, from),
    ensures
        ({
            let after = state::told_all(
                mirror,
                handles[k].object,
                sent_to_handles(tops, handles, from, to, n),
            );
            if n <= k {
                after == mirror
            } else {
                &&& state::reflects(after, Some(to))
                &&& after.parent == if to.parent == state::known_parent(from) {
                    mirror.parent
                } else {
                    parent_handle(tops, to.parent, handles[k].client)
                }
            }
        }),
    decreases n,
{
    if n > 0 {
        let handle = handles[n - 1];
        let before = sent_to_handles(tops, handles, from, to, n - 1);
        let parent = parent_handle(tops, to.parent, handle.client);
        let last = state::changes(handle.object, from, to, parent);
        let so_far = state::told_all(mirror, handles[k].object, before);
        lemma_sent_to_handles(tops, handles, from, to, n - 1, k, mirror);
        state::lemma_told_append(mirror, handles[k].object, before, last);
        if n - 1 == k {
            state::changes_reach_the_client(mirror, handle.object, from, to, parent);
        } else {
            lemma_told_of_another(so_far, handles[k].object, handle.object, from, to, parent);
        }
    }
}

/// When the state of a toplevel is sent, each client that knew it as it was then knows it as it
/// is. A client knows the new parent if that changed, and the same one as before otherwise.
pub proof fn sent_state_reaches_every_client(
    info: ForeignToplevelInfo,
    toplevel: ToplevelHandle,
    k: int,
    mirror: state::Mirror,
)
    requires
        info.wf(),
        toplevel.index < info.toplevels@.len(),
        0 <= k < info.toplevels@[toplevel.index as int].handles@.len(),
        state::reflects(mirror, current_of(info.toplevels@[toplevel.index as int])),
    ensures
        ({
            let top = info.toplevels@[toplevel.index as int];
            let to = top.state.pending_spec()@;
            let events = sent_to_handles(
                info.toplevels@,
                top.handles@,
                current_of(top),
                to,
                top.handles@.len() as int,
            );
            let after = state::told_all(mirror, top.handles@[k].object, events);
            &&& state::reflects(after, Some(to))
            &&& after.parent == if to.parent == state::known_parent(current_of(top)) {
                mirror.parent
            } else {
                parent_handle(info.toplevels@, to.parent, top.handles@[k].client)
            }
        }),
{
    let i = toplevel.index as int;
    let top = info.toplevels@[i];
    assert forall|l: int| 0 <= l < top.handles@.len() && l != k implies (
    #[trigger] top.handles@[l]).object != top.handles@[k].object by {
        let one = info.toplevels@[i].handles@[l];
        let two = info.toplevels@[i].handles@[k];
        if one.object == two.object {
            assert(l == k);
        }
    }
    lemma_sent_to_handles(
        info.toplevels@,
        top.handles@,
        current_of(top),
        top.state.pending_spec()@,
        top.handles@.len() as int,
        k,
        mirror,
    );
}

proof fn lemma_announced_tells_nothing(
    tops: Seq<ToplevelEntry>,
    client: ForeignToplevelClient,
    first: u64,
    n: int,
    handle: u64,
    mirror: state::Mirror,
)
    ensures
        state::told_all(mirror, handle, announced(tops, client, first, n)) == mirror,
    decreases n,
{
    if n > 0 {
        let before = announced(tops, client, first, n - 1);
        lemma_announced_tells_nothing(tops, client, first, n - 1, handle, mirror);
        if tops[n - 1].listed {
            let all = announced(tops, client, first, n);
            assert(all.drop_last() =~= before);
        }
    }
}

proof fn lemma_introduced(
    tops: Seq<ToplevelEntry>,
    client: ForeignToplevelClient,
    first: u64,
    n: int,
    i: int,
)
    requires
        0 <= n <= tops.len(),
        0 <= i < tops.len(),
        tops[i].listed,
        first + tops.len() <= u64::MAX,
    ensures
        ({
            let handle = handle_of_new_client(tops, client, first, i);
            let after = state::told_all(
                state::blank_mirror(),
                handle.object,
                introduced(tops, client, first, n),
            );
            match current_of(tops[i]) {
                Some(current) if i < n && tops[i].initialized => {
                    &&& state::reflects(after, Some(current))
                    &&& after.parent == if current.parent is None {
                        None
                    } else {
                        parent_handle(tops, current.parent, handle.client)
                    }
                },
                _ => after == state::blank_mirror(),
            }
        }),
    decreases n,
{
    if n > 0 {
        let object = handle_of_new_client(tops, client, first, i).object;
        let before = introduced(tops, client, first, n - 1);
        lemma_introduced(tops, client, first, n - 1, i);
        match current_of(tops[n - 1]) {
            Some(current) if tops[n - 1].listed && tops[n - 1].initialized => {
                let handle = handle_of_new_client(tops, client, first, n - 1);
                let parent = parent_handle(tops, current.parent, handle.client);
                let last = state::changes(handle.object, None, current, parent);
                state::lemma_told_append(state::blank_mirror(), object, before, last);
                let so_far = state::told_all(state::blank_mirror(), object, before);
                if n - 1 == i {
                    state::changes_reach_the_client(
                        state::blank_mirror(),
                        object,
                        None,
                        current,
                        parent,
                    );
                } else {
                    lemma_listed_monotone(tops, 0, i);
                    lemma_listed_monotone(tops, 0, n - 1);
                    if i < n - 1 {
                        lemma_listed_monotone(tops, i + 1, n - 1);
                    } else {
                        lemma_listed_monotone(tops, n, i);
                    }
                    lemma_told_of_another(so_far, object, handle.object, None, current, parent);
                }
            },
            _ => {},
        }
    }
}

/// A client that has just been announced the toplevels knows each of them as it was last sent, or
/// knows nothing of it if it was not sent yet.
pub proof fn new_client_knows_the_toplevels(
    before: ForeignToplevelInfo,
    after: ForeignToplevelInfo,
    object: u64,
    i: int,
)
    requires
        before.wf(),
        after.wf(),
        before.next_handle + before.toplevels@.len() <= u64::MAX,
        announces(before.clients@, object),
        joined(
            before.toplevels@,
            after.toplevels@,
            client_with(before.clients@, object),
            before.next_handle,
            before.toplevels@.len() as int,
        ),
        0 <= i < before.toplevels@.len(),
        before.toplevels@[i].listed,
    ensures
        ({
            let client = client_with(before.clients@, object);
            let first = before.next_handle;
            let count = before.toplevels@.len() as int;
            let handle = after.toplevels@[i].handles@.last();
            let events = announced(before.toplevels@, client, first, count) + introduced(
                after.toplevels@,
                client,
                first,
                count,
            );
            let mirror = state::told_all(state::blank_mirror(), handle.object, events);
            &&& handle.client == Some(client.client)
            &&& state::reflects(mirror, current_of(after.toplevels@[i]))
        }),
{
    let client = client_with(before.clients@, object);
    let first = before.next_handle;
    let count = before.toplevels@.len() as int;
    let (tops, later) = (before.toplevels@, after.toplevels@);
    let handle = later[i].handles@.last();
    assert(same_but_handles(tops[i], later[i]));
    assert forall|j: int| 0 <= j < tops.len() implies tops[j].listed == (
    #[trigger] later[j]).listed by {
        assert(same_but_handles(tops[j], later[j]));
    }
    lemma_listed_same(tops, later, i);
    assert(handle == handle_of_new_client(later, client, first, i));
    lemma_announced_tells_nothing(
        tops,
        client,
        first,
        count,
        handle.object,
        state::blank_mirror(),
    );
    lemma_introduced(later, client, first, count, i);
    state::lemma_told_append(
        state::blank_mirror(),
        handle.object,
        announced(tops, client, first, count),
        introduced(later, client, first, count),
    );
}

/// A client that was told that it is finished, or has asked for it, gets no handle to a toplevel,
/// whatever object the handle would have, and is announced none of the toplevels that are created
/// later.
pub proof fn finished_client_gets_no_toplevels(
    clients: Seq<ForeignToplevelClient>,
    object: u64,
    first: u64,
    n: int,
)
    requires
        0 <= n <= clients.len(),
    ensures
        !announces(stopped(clients, object), object),
        forall|i: int, handle: u64|
            0 <= i < clients.len() && clients[i].object == object ==> (#[trigger] created_for(
                stopped(clients, object)[i],
                handle,
            )) is None,
        forall|k: int|
            0 <= k < new_handles(stopped(clients, object), first, n).len() ==> (
            #[trigger] new_handles(stopped(clients, object), first, n)[k]).info != object,
        forall|handle: u64|
            !(#[trigger] announcements(new_handles(stopped(clients, object), first, n)).contains(
                state::EventView::Toplevel(object, handle),
            )),
    decreases n,
{
    let after = stopped(clients, object);
    let handles = new_handles(after, first, n);
    if n > 0 {
        finished_client_gets_no_toplevels(clients, object, first, n - 1);
        let before = new_handles(after, first, n - 1);
        assert forall|k: int| 0 <= k < handles.len() implies (#[trigger] handles[k]).info
            != object by {
            if k < before.len() {
                assert(handles[k] == before[k]);
            }
        }
    }
    assert forall|handle: u64|
        !(#[trigger] announcements(handles).contains(
            state::EventView::Toplevel(object, handle),
        )) by {
        let event = state::EventView::Toplevel(object, handle);
        if announcements(handles).contains(event) {
            let k = choose|k: int|
                0 <= k < announcements(handles).len() && announcements(handles)[k] == event;
            assert(handles[k].info == object);
        }
    }
}

} // verus!
