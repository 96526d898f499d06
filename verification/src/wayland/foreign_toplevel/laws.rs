//! What holds of every call of the functions that announce toplevels.
//!
//! Each law speaks of what a call was given and what came of it.

use vstd::prelude::*;

use super::state::{push_changes, Event, ToplevelState, ToplevelStateSet};
use super::{
    DeadResource, ForeignToplevelClient, ForeignToplevelInfo, HandleEntry, InfoReply, InfoRequest,
    ToplevelEntry, ToplevelHandle,
};

verus! {

/// A state that was set is in the set, and one that was unset is not. Other states stay as they
/// were. Whether the set changed is told.
pub proof fn states_are_set_and_unset(
    states: &mut ToplevelStateSet,
    others: &mut ToplevelStateSet,
    state: u32,
    other: u32,
    set: bool,
    unset: bool,
    had: bool,
    had_other: bool,
    has: bool,
    has_other: bool,
    lost: bool,
    kept_other: bool,
)
    requires
        *old(others) == *old(states),
        other != state,
        call_ensures(ToplevelStateSet::set, (states, state), set),
        call_ensures(ToplevelStateSet::unset, (others, state), unset),
        call_ensures(ToplevelStateSet::contains, (&*old(states), state), had),
        call_ensures(ToplevelStateSet::contains, (&*old(states), other), had_other),
        call_ensures(ToplevelStateSet::contains, (&*final(states), state), has),
        call_ensures(ToplevelStateSet::contains, (&*final(states), other), has_other),
        call_ensures(ToplevelStateSet::contains, (&*final(others), state), lost),
        call_ensures(ToplevelStateSet::contains, (&*final(others), other), kept_other),
    ensures
        set == !had,
        unset == had,
        has,
        !lost,
        has_other == had_other,
        kept_other == had_other,
        had ==> final(states)@ == old(states)@,
{
    super::state::set_and_unset(old(states)@, state, other);
}

proof fn lemma_bytes(numbers: Seq<u32>, i: int)
    requires
        0 <= i < numbers.len(),
    ensures
        ({
            let bytes = super::state::all_le_bytes(numbers);
            &&& bytes.len() == 4 * numbers.len()
            &&& bytes[4 * i] + 0x100 * bytes[4 * i + 1] + 0x1_0000 * bytes[4 * i + 2] + 0x100_0000
                * bytes[4 * i + 3] == numbers[i]
        }),
    decreases numbers.len(),
{
    let front = numbers.drop_last();
    if front.len() > 0 {
        lemma_bytes(front, if i < front.len() {
            i
        } else {
            0
        });
    }
    let n = numbers.last();
    let before = super::state::all_le_bytes(front);
    let bytes = super::state::all_le_bytes(numbers);
    assert(before.len() == 4 * front.len());
    assert((n & 0xff) <= 0xff && ((n >> 8) & 0xff) <= 0xff && ((n >> 16) & 0xff) <= 0xff && ((n
        >> 24) & 0xff) <= 0xff && (n & 0xff) + 0x100 * ((n >> 8) & 0xff) + 0x1_0000 * ((n >> 16)
        & 0xff) + 0x100_0000 * ((n >> 24) & 0xff) == n) by (bit_vector);
    if i < front.len() {
        assert(bytes[4 * i] == before[4 * i]);
        assert(bytes[4 * i + 1] == before[4 * i + 1]);
        assert(bytes[4 * i + 2] == before[4 * i + 2]);
        assert(bytes[4 * i + 3] == before[4 * i + 3]);
        assert(front[i] == numbers[i]);
    }
}

/// States are sent as four bytes each, in order, which give the number of the state, the least
/// significant first.
pub proof fn states_are_sent_as_bytes(states: ToplevelStateSet, i: int, r: Vec<u8>)
    requires
        call_ensures(ToplevelStateSet::raw, (&states,), r),
        0 <= i < states@.len(),
    ensures
        r@.len() == 4 * states@.len(),
        r@[4 * i] + 0x100 * r@[4 * i + 1] + 0x1_0000 * r@[4 * i + 2] + 0x100_0000 * r@[4 * i + 3]
            == states@[i],
{
    lemma_bytes(states@, i);
}

/// A set is within another exactly if each of its states is in the other.
pub proof fn sets_are_within_others(
    states: ToplevelStateSet,
    other: ToplevelStateSet,
    state: u32,
    r: bool,
    one: bool,
    two: bool,
)
    requires
        call_ensures(ToplevelStateSet::is_within, (&states, &other), r),
        call_ensures(ToplevelStateSet::contains, (&states, state), one),
        call_ensures(ToplevelStateSet::contains, (&other, state), two),
    ensures
        one && !two ==> !r,
        states@.len() == 0 ==> r,
        states@ == other@ ==> r,
{
}

/// Nothing is known of a toplevel by default, and a copy of a state is the same state.
pub proof fn states_start_blank(blank: ToplevelState, state: ToplevelState, same: ToplevelState)
    requires
        call_ensures(<ToplevelState as Default>::default, (), blank),
        call_ensures(ToplevelState::copied, (&state,), same),
    ensures
        blank.title@.len() == 0 && blank.app_id@.len() == 0,
        blank.outputs@.len() == 0 && blank.states@.len() == 0,
        blank.parent is None,
        same.title@ == state.title@ && same.app_id@ == state.app_id@,
        same.outputs@ == state.outputs@ && same.states@ == state.states@,
        same.parent == state.parent,
{
    reveal_strlit("");
}

/// The outputs of `list` that are not among `other`, in order.
pub open spec fn without(list: Seq<u64>, other: Seq<u64>) -> Seq<u64> {
    list.filter(|output: u64| !other.contains(output))
}

/// The outputs that a client knows a toplevel to be on.
pub open spec fn outputs_of(state: Option<ToplevelState>) -> Seq<u64> {
    match state {
        Some(state) => state.outputs@,
        None => Seq::empty(),
    }
}

/// The parent that a client knows a toplevel to have.
pub open spec fn parent_of(state: Option<ToplevelState>) -> Option<usize> {
    match state {
        Some(state) => state.parent,
        None => None,
    }
}

/// How many titles are told, of which there is one unless the client knows it.
pub open spec fn titles(from: Option<ToplevelState>, to: ToplevelState) -> int {
    if from matches Some(from) && from.title@ == to.title@ {
        0
    } else {
        1
    }
}

/// How many ids of applications are told.
pub open spec fn app_ids(from: Option<ToplevelState>, to: ToplevelState) -> int {
    if from matches Some(from) && from.app_id@ == to.app_id@ {
        0
    } else {
        1
    }
}

/// How many parents are told.
pub open spec fn parents(from: Option<ToplevelState>, to: ToplevelState) -> int {
    if parent_of(from) == to.parent {
        0
    } else {
        1
    }
}

/// How many events tell of a change.
pub open spec fn told_count(from: Option<ToplevelState>, to: ToplevelState) -> int {
    titles(from, to) + app_ids(from, to) + without(outputs_of(from), to.outputs@).len() + without(
        to.outputs@,
        outputs_of(from),
    ).len() + parents(from, to) + 1
}

/// An event tells a handle that an output was left.
pub open spec fn is_leave(event: Event, handle: u64, output: u64) -> bool {
    event matches Event::OutputLeave { handle: h, output: o } && h == handle && o == output
}

/// An event tells a handle that an output was entered.
pub open spec fn is_enter(event: Event, handle: u64, output: u64) -> bool {
    event matches Event::OutputEnter { handle: h, output: o } && h == handle && o == output
}

/// The events from place `p` on tell a handle of the outputs that were left.
pub open spec fn are_left_at(events: Seq<Event>, p: int, handle: u64, outputs: Seq<u64>) -> bool {
    forall|i: int|
        0 <= i < outputs.len() ==> is_leave(events[p + i], handle, #[trigger] outputs[i])
}

/// The events from place `p` on tell a handle of the outputs that were entered.
pub open spec fn are_entered_at(
    events: Seq<Event>,
    p: int,
    handle: u64,
    outputs: Seq<u64>,
) -> bool {
    forall|i: int|
        0 <= i < outputs.len() ==> is_enter(events[p + i], handle, #[trigger] outputs[i])
}

/// The events from place `p` on tell a handle of a change: of the title and the application where
/// they are other ones, of each output that was left and then of each that was entered, of the
/// parent where it is another one, and at last that this is all.
pub open spec fn is_told_at(
    events: Seq<Event>,
    p: int,
    handle: u64,
    from: Option<ToplevelState>,
    to: ToplevelState,
    parent: Option<u64>,
) -> bool {
    let left = without(outputs_of(from), to.outputs@);
    let entered = without(to.outputs@, outputs_of(from));
    let a = p + titles(from, to);
    let l = a + app_ids(from, to);
    let e = l + left.len();
    let q = e + entered.len();
    &&& 0 <= p && p + told_count(from, to) <= events.len()
    &&& titles(from, to) == 1 ==> (events[p] matches Event::Title { handle: h, title } && h
        == handle && title@ == to.title@)
    &&& app_ids(from, to) == 1 ==> (events[a] matches Event::AppId { handle: h, app_id } && h
        == handle && app_id@ == to.app_id@)
    &&& are_left_at(events, l, handle, left)
    &&& are_entered_at(events, e, handle, entered)
    &&& parents(from, to) == 1 ==> (events[q] matches Event::Parent { handle: h, parent: told } && h
        == handle && told == parent)
    &&& events[q + parents(from, to)] matches Event::Done { handle: h }
    &&& h == handle
}

/// What a client knows, as a state by itself.
pub open spec fn owned(state: Option<&ToplevelState>) -> Option<ToplevelState> {
    match state {
        Some(state) => Some(*state),
        None => None,
    }
}

/// What a client knows, as it is seen.
pub open spec fn seen(state: Option<ToplevelState>) -> Option<super::state::StateView> {
    match state {
        Some(state) => Some(state@),
        None => None,
    }
}

proof fn lemma_told_at(
    events: Seq<Event>,
    before: Seq<super::state::EventView>,
    after: Seq<super::state::EventView>,
    handle: u64,
    from: Option<ToplevelState>,
    to: ToplevelState,
    parent: Option<u64>,
)
    requires
        super::state::views(events) == before + super::state::changes(handle, seen(from), to@, parent)
            + after,
    ensures
        is_told_at(events, before.len() as int, handle, from, to, parent),
        super::state::changes(handle, seen(from), to@, parent).len() == told_count(from, to),
        forall|j: int|
            before.len() <= j < before.len() + told_count(from, to) ==> is_about(
                #[trigger] events[j],
                handle,
            ),
{
    let known = seen(from);
    let c1 = super::state::title_change(handle, known, to@);
    let c2 = super::state::app_id_change(handle, known, to@);
    let left = without(outputs_of(from), to.outputs@);
    let entered = without(to.outputs@, outputs_of(from));
    let c3 = super::state::leaves(handle, left);
    let c4 = super::state::enters(handle, entered);
    let c5 = super::state::parent_change(handle, known, to@, parent);
    let all = super::state::changes(handle, known, to@, parent);
    let p = before.len() as int;
    assert(super::state::outputs_not_in(super::state::known_outputs(known), to@.outputs) == left);
    assert(super::state::outputs_not_in(to@.outputs, super::state::known_outputs(known))
        == entered);
    assert(all =~= c1 + c2 + c3 + c4 + c5 + seq![super::state::EventView::Done(handle)]);
    assert(c1.len() == titles(from, to));
    assert(c2.len() == app_ids(from, to));
    assert(c5.len() == parents(from, to));
    assert(all.len() == told_count(from, to));
    let viewed = super::state::views(events);
    assert(viewed.len() == events.len());
    assert forall|j: int| 0 <= j < all.len() implies (#[trigger] events[p + j])@ == all[j] by {
        assert(viewed[p + j] == events[p + j]@);
    }
    let l = (c1.len() + c2.len()) as int;
    let e = l + left.len();
    let q = e + entered.len();
    let at_left = p + titles(from, to) + app_ids(from, to);
    let at_entered = at_left + left.len();
    if c1.len() == 1 {
        assert(events[p + 0]@ == all[0]);
        assert(all[0] == c1[0]);
    }
    if c2.len() == 1 {
        assert(events[p + c1.len()]@ == all[c1.len() as int]);
        assert(all[c1.len() as int] == c2[0]);
    }
    assert(are_left_at(events, at_left, handle, left)) by {
        assert forall|i: int| 0 <= i < left.len() implies is_leave(
            events[at_left + i],
            handle,
            #[trigger] left[i],
        ) by {
            assert(all[l + i] == c3[i]);
            assert(events[p + (l + i)]@ == all[l + i]);
            assert(p + (l + i) == at_left + i);
        }
    }
    assert(are_entered_at(events, at_entered, handle, entered)) by {
        assert forall|i: int| 0 <= i < entered.len() implies is_enter(
            events[at_entered + i],
            handle,
            #[trigger] entered[i],
        ) by {
            assert(all[e + i] == c4[i]);
            assert(events[p + (e + i)]@ == all[e + i]);
            assert(p + (e + i) == at_entered + i);
        }
    }
    if c5.len() == 1 {
        assert(all[q] == c5[0]);
        assert(events[p + q]@ == all[q]);
    }
    assert(all[q + c5.len()] == super::state::EventView::Done(handle));
    assert(events[p + (q + c5.len())]@ == all[q + c5.len()]);
    assert(titles(from, to) == 1 ==> (events[p] matches Event::Title { handle: h, title } && h
        == handle && title@ == to.title@));
    assert(app_ids(from, to) == 1 ==> (events[p + titles(from, to)] matches Event::AppId {
        handle: h,
        app_id,
    } && h == handle && app_id@ == to.app_id@));
    assert(parents(from, to) == 1 ==> (events[p + q] matches Event::Parent {
        handle: h,
        parent: told,
    } && h == handle && told == parent));
    assert(events[p + q + parents(from, to)] matches Event::Done { handle: h } && h == handle);
    assert forall|j: int| p <= j < p + all.len() implies is_about(#[trigger] events[j], handle) by {
        let k = j - p;
        assert(events[p + k]@ == all[k]);
        if k < c1.len() {
            assert(all[k] == c1[k]);
        } else if k < l {
            assert(all[k] == c2[k - c1.len()]);
        } else if k < e {
            assert(all[k] == c3[k - l]);
        } else if k < q {
            assert(all[k] == c4[k - e]);
        } else if k < q + c5.len() {
            assert(all[k] == c5[k - q]);
        }
    }
}

/// An event tells a handle of the state of its toplevel.
pub open spec fn is_about(event: Event, handle: u64) -> bool {
    match event {
        Event::Title { handle: h, .. } => h == handle,
        Event::AppId { handle: h, .. } => h == handle,
        Event::OutputEnter { handle: h, .. } => h == handle,
        Event::OutputLeave { handle: h, .. } => h == handle,
        Event::Parent { handle: h, .. } => h == handle,
        Event::Done { handle: h } => h == handle,
        _ => false,
    }
}

/// A change is told behind what was told before, and nothing else is.
pub proof fn changes_are_told_in_order(
    handle: u64,
    from: Option<&ToplevelState>,
    to: ToplevelState,
    parent: Option<u64>,
    out: &mut Vec<Event>,
)
    requires
        call_ensures(push_changes, (handle, from, &to, parent, out), ()),
    ensures
        is_told_at(final(out)@, old(out)@.len() as int, handle, owned(from), to, parent),
        final(out)@.len() == old(out)@.len() + told_count(owned(from), to),
{
    let before = super::state::views(old(out)@);
    assert(before + super::state::changes(handle, seen(owned(from)), to@, parent)
        =~= before + super::state::changes(handle, seen(owned(from)), to@, parent) + Seq::empty());
    assert(super::state::known_state(from) == seen(owned(from)));
    lemma_told_at(final(out)@, before, Seq::empty(), handle, owned(from), to, parent);
    assert(super::state::views(final(out)@).len() == final(out)@.len());
}

/// The clients of a list that are still announced toplevels, in order.
pub open spec fn live(clients: Seq<ForeignToplevelClient>) -> Seq<ForeignToplevelClient> {
    clients.filter(|client: ForeignToplevelClient| !client.stop)
}

proof fn lemma_live(clients: Seq<ForeignToplevelClient>, n: int, first: u64)
    requires
        0 <= n <= clients.len(),
        first + clients.len() <= u64::MAX,
    ensures
        ({
            let handles = super::new_handles(clients, first, n);
            let live = live(clients.take(n));
            &&& handles.len() == live.len() <= n
            &&& forall|k: int|
                0 <= k < live.len() ==> {
                    &&& (#[trigger] handles[k]).info == live[k].object
                    &&& handles[k].client == Some(live[k].client)
                    &&& handles[k].object == first + k
                }
        }),
    decreases n,
{
    reveal(Seq::filter);
    if n > 0 {
        lemma_live(clients, n - 1, first);
        assert(clients.take(n).drop_last() =~= clients.take(n - 1));
        assert(clients.take(n).last() == clients[n - 1]);
    }
}

/// A new toplevel is listed, and nothing is known of it. Each client that is still announced
/// toplevels has one handle of its own to it, which is new, and is told of it; the others have
/// none. All else stays.
pub proof fn new_toplevels_are_announced(
    info: &mut ForeignToplevelInfo,
    r: (ToplevelHandle, Vec<Event>),
    i: int,
    k: int,
)
    requires
        call_ensures(ForeignToplevelInfo::create_handle, (info,), r),
        old(info).next_handle + old(info).clients@.len() <= u64::MAX,
    ensures
        r.0.index == old(info).toplevels@.len(),
        final(info).toplevels@.len() == old(info).toplevels@.len() + 1,
        0 <= i < old(info).toplevels@.len() ==> final(info).toplevels@[i]
            == old(info).toplevels@[i],
        final(info).clients == old(info).clients && final(info).global == old(info).global,
        ({
            let created = final(info).toplevels@[r.0.index as int];
            let live = live(old(info).clients@);
            &&& created.listed && !created.initialized
            &&& created.state.current_spec() is None
            &&& created.state.pending_spec().title@.len() == 0
            &&& created.state.pending_spec().app_id@.len() == 0
            &&& created.state.pending_spec().outputs@.len() == 0
            &&& created.state.pending_spec().states@.len() == 0
            &&& created.state.pending_spec().parent is None
            &&& created.handles@.len() == live.len() == r.1@.len()
            &&& final(info).next_handle == old(info).next_handle + live.len()
            &&& 0 <= k < live.len() ==> {
                &&& created.handles@[k].info == live[k].object
                &&& created.handles@[k].client == Some(live[k].client)
                &&& created.handles@[k].object == old(info).next_handle + k
                &&& r.1@[k] matches Event::Toplevel { info: by, handle }
                &&& by == live[k].object && handle == created.handles@[k].object
            }
        }),
{
    reveal_strlit("");
    let clients = old(info).clients@;
    lemma_live(clients, clients.len() as int, old(info).next_handle);
    assert(clients.take(clients.len() as int) =~= clients);
    let handles = super::new_handles(clients, old(info).next_handle, clients.len() as int);
    let viewed = super::state::views(r.1@);
    assert(viewed.len() == r.1@.len());
    assert(final(info).toplevels@.last() == final(info).toplevels@[r.0.index as int]);
    if 0 <= i < old(info).toplevels@.len() {
        assert(final(info).toplevels@.drop_last()[i] == final(info).toplevels@[i]);
    }
    if 0 <= k < handles.len() {
        assert(viewed[k] == r.1@[k]@);
        assert(handles[k].object == old(info).next_handle + k);
    }
}

/// A toplevel that is destroyed is no longer listed, and each of its handles is told that it is
/// closed. All else stays.
pub proof fn destroyed_toplevels_are_closed(
    info: &mut ForeignToplevelInfo,
    toplevel: ToplevelHandle,
    r: Vec<Event>,
    i: int,
    k: int,
)
    requires
        call_ensures(ForeignToplevelInfo::destroy_handle, (info, &toplevel), r),
        toplevel.index < old(info).toplevels@.len(),
    ensures
        ({
            let before = old(info).toplevels@[toplevel.index as int];
            let after = final(info).toplevels@[toplevel.index as int];
            &&& !after.listed
            &&& after.handles == before.handles
            &&& after.state == before.state
            &&& after.initialized == before.initialized
            &&& r@.len() == before.handles@.len()
            &&& 0 <= k < r@.len() ==> (r@[k] matches Event::Closed { handle } && handle
                == before.handles@[k].object)
        }),
        final(info).toplevels@.len() == old(info).toplevels@.len(),
        0 <= i < old(info).toplevels@.len() && i != toplevel.index ==> final(info).toplevels@[i]
            == old(info).toplevels@[i],
        final(info).clients == old(info).clients && final(info).global == old(info).global
            && final(info).next_handle == old(info).next_handle,
{
    let viewed = super::state::views(r@);
    assert(viewed.len() == r@.len());
    if 0 <= k < r@.len() {
        assert(viewed[k] == r@[k]@);
    }
}

/// A client that is finished is announced no more toplevels, and is told so unless that was so
/// already. No other client is.
pub proof fn clients_are_finished_once(
    info: &mut ForeignToplevelInfo,
    object: u64,
    r: Option<Event>,
    i: int,
)
    requires
        call_ensures(ForeignToplevelInfo::finish, (info, object), r),
        0 <= i < old(info).clients@.len(),
    ensures
        final(info).clients@.len() == old(info).clients@.len(),
        final(info).clients@[i].client == old(info).clients@[i].client,
        final(info).clients@[i].object == old(info).clients@[i].object,
        final(info).clients@[i].stop == (old(info).clients@[i].stop || old(info).clients@[i].object
            == object),
        old(info).clients@[i].object == object && !old(info).clients@[i].stop ==> r is Some,
        r matches Some(event) ==> (event matches Event::Finished { info: by } && by == object)
            && exists|j: int|
            0 <= j < old(info).clients@.len() && (#[trigger] old(info).clients@[j]).object == object
                && !old(info).clients@[j].stop,
        final(info).toplevels == old(info).toplevels && final(info).global == old(info).global
            && final(info).next_handle == old(info).next_handle,
{
    if r is Some {
        assert(super::announces(old(info).clients@, object));
    }
}

/// The same of a client by itself: it is told at the first time, and not again.
pub proof fn a_client_is_finished_once(
    first: &mut ForeignToplevelClient,
    second: &mut ForeignToplevelClient,
    r: Option<Event>,
    again: Option<Event>,
)
    requires
        call_ensures(ForeignToplevelClient::finish, (first,), r),
        call_ensures(ForeignToplevelClient::finish, (second,), again),
        *old(second) == *final(first),
    ensures
        final(first).stop,
        final(first).client == old(first).client && final(first).object == old(first).object,
        r is Some <==> !old(first).stop,
        r matches Some(event) ==> (event matches Event::Finished { info } && info
            == old(first).object),
        again is None,
        *final(second) == *final(first),
{
}

/// The latest object of a client is found, and one is found wherever the client has one.
pub proof fn clients_are_found(
    info: ForeignToplevelInfo,
    client: u64,
    i: int,
    r: Option<ForeignToplevelClient>,
)
    requires
        call_ensures(ForeignToplevelInfo::get_client, (&info, client), r),
        0 <= i < info.clients@.len(),
    ensures
        r matches Some(entry) ==> entry.client == client && info.clients@.contains(entry),
        info.clients@[i].client == client ==> r is Some,
        info.clients@[i].client == client && (forall|j: int|
            i < j < info.clients@.len() ==> (#[trigger] info.clients@[j]).client != client) ==> r
            == Some(info.clients@[i]),
{
    match r {
        Some(entry) => {
            let k = choose|k: int|
                {
                    &&& 0 <= k < info.clients@.len()
                    &&& #[trigger] info.clients@[k] == entry
                    &&& entry.client == client
                    &&& forall|j: int|
                        k < j < info.clients@.len() ==> (#[trigger] info.clients@[j]).client
                            != client
                };
            assert(info.clients@[k] == entry);
            assert(k < i ==> info.clients@[i].client != client);
            assert(i < k ==> info.clients@[k].client == client);
        },
        None => {
            assert(info.clients@[i].client != client);
        },
    }
}

/// A client that binds the global is added at the end and is announced toplevels.
pub proof fn clients_are_bound(info: &mut ForeignToplevelInfo, client: u64, object: u64, i: int)
    requires
        call_ensures(ForeignToplevelInfo::bind, (info, client, object), ()),
    ensures
        final(info).clients@.len() == old(info).clients@.len() + 1,
        final(info).clients@.last().client == client,
        final(info).clients@.last().object == object,
        !final(info).clients@.last().stop,
        0 <= i < old(info).clients@.len() ==> final(info).clients@[i] == old(info).clients@[i],
        final(info).toplevels == old(info).toplevels && final(info).global == old(info).global
            && final(info).next_handle == old(info).next_handle,
{
}

/// A client that is still announced toplevels gets a handle to one, with the object that it was
/// given; any other gets none.
pub proof fn handles_are_given_to_live_clients(
    toplevel: &mut ToplevelEntry,
    client: ForeignToplevelClient,
    object: u64,
    r: Option<Event>,
)
    requires
        call_ensures(ToplevelEntry::create_for_client, (toplevel, &client, object), r),
    ensures
        client.stop ==> r is None && final(toplevel).handles@ == old(toplevel).handles@,
        !client.stop ==> {
            &&& final(toplevel).handles@.len() == old(toplevel).handles@.len() + 1
            &&& final(toplevel).handles@.drop_last() == old(toplevel).handles@
            &&& final(toplevel).handles@.last().object == object
            &&& final(toplevel).handles@.last().info == client.object
            &&& final(toplevel).handles@.last().client == Some(client.client)
            &&& r matches Some(event)
            &&& event matches Event::Toplevel { info, handle }
            &&& info == client.object && handle == object
        },
        final(toplevel).listed == old(toplevel).listed && final(toplevel).state
            == old(toplevel).state && final(toplevel).initialized == old(toplevel).initialized,
{
}

/// A client that asks for it is announced no more toplevels. It may destroy its object exactly if
/// no handle that the object announced is alive. Nothing else changes.
pub proof fn requests_are_answered(
    info: &mut ForeignToplevelInfo,
    object: u64,
    request: InfoRequest,
    r: InfoReply,
    i: int,
    j: int,
    k: int,
)
    requires
        call_ensures(ForeignToplevelInfo::request, (info, object, &request), r),
    ensures
        final(info).clients@.len() == old(info).clients@.len(),
        0 <= i < old(info).clients@.len() ==> {
            &&& final(info).clients@[i].client == old(info).clients@[i].client
            &&& final(info).clients@[i].object == old(info).clients@[i].object
            &&& final(info).clients@[i].stop == (old(info).clients@[i].stop || request is Stop
                && old(info).clients@[i].object == object)
        },
        request is Stop ==> r is Accepted,
        request is Destroy && 0 <= j < old(info).toplevels@.len() && 0 <= k
            < old(info).toplevels@[j].handles@.len() && old(info).toplevels@[j].handles@[k].info
            == object ==> r is DefunctToplevels,
        r is DefunctToplevels ==> exists|l: int, m: int|
            0 <= l < old(info).toplevels@.len() && 0 <= m < old(info).toplevels@[l].handles@.len()
                && (#[trigger] old(info).toplevels@[l].handles@[m]).info == object,
        final(info).toplevels == old(info).toplevels && final(info).global == old(info).global
            && final(info).next_handle == old(info).next_handle,
{
    if r is DefunctToplevels {
        assert(super::has_handles(old(info).toplevels@, object));
    }
}

/// A client whose object is destroyed is forgotten, and it alone. It is told of exactly if there is
/// one.
pub proof fn destroyed_clients_are_forgotten(
    info: &mut ForeignToplevelInfo,
    object: u64,
    r: Option<ForeignToplevelClient>,
    i: int,
)
    requires
        call_ensures(ForeignToplevelInfo::destroyed, (info, object), r),
        super::distinct_objects(old(info).clients@),
        0 <= i < old(info).clients@.len(),
    ensures
        old(info).clients@[i].object == object ==> r == Some(old(info).clients@[i])
            && final(info).clients@ == old(info).clients@.remove(i),
        r is None ==> final(info).clients@ == old(info).clients@,
        r matches Some(client) ==> client.object == object,
        final(info).toplevels == old(info).toplevels && final(info).global == old(info).global
            && final(info).next_handle == old(info).next_handle,
{
    match r {
        Some(client) => {
            let k = choose|k: int|
                {
                    &&& 0 <= k < old(info).clients@.len()
                    &&& #[trigger] old(info).clients@[k] == client
                    &&& client.object == object
                    &&& final(info).clients@ == old(info).clients@.remove(k)
                };
            assert(old(info).clients@[k] == client);
            if old(info).clients@[i].object == object {
                assert(i == k);
            }
        },
        None => {
            assert(old(info).clients@[i].object != object);
        },
    }
}

/// A handle that is destroyed is gone from its toplevel; all other handles, of all toplevels, stay.
pub proof fn destroyed_handles_are_gone(
    info: &mut ForeignToplevelInfo,
    object: u64,
    r: bool,
    i: int,
    handle: HandleEntry,
)
    requires
        call_ensures(ForeignToplevelInfo::destroy_client_handle, (info, object), r),
        0 <= i < old(info).toplevels@.len(),
    ensures
        final(info).toplevels@.len() == old(info).toplevels@.len(),
        final(info).toplevels@[i].handles@.contains(handle)
            <==> old(info).toplevels@[i].handles@.contains(handle) && handle.object != object,
        old(info).toplevels@[i].handles@.contains(handle) && handle.object == object ==> r,
        final(info).toplevels@[i].listed == old(info).toplevels@[i].listed,
        final(info).toplevels@[i].state == old(info).toplevels@[i].state,
        final(info).toplevels@[i].initialized == old(info).toplevels@[i].initialized,
        final(info).clients == old(info).clients && final(info).global == old(info).global
            && final(info).next_handle == old(info).next_handle,
{
    let keep = |handle: HandleEntry| handle.object != object;
    let before = old(info).toplevels@[i].handles@;
    let after = final(info).toplevels@[i].handles@;
    assert(super::same_but_handles(old(info).toplevels@[i], final(info).toplevels@[i]));
    if before.contains(handle) {
        let k = choose|k: int| 0 <= k < before.len() && before[k] == handle;
        assert(old(info).toplevels@[i].handles@[k].object == handle.object);
        if keep(handle) {
            before.lemma_filter_contains(keep, k);
        }
    }
    if after.contains(handle) {
        let k = choose|k: int| 0 <= k < after.len() && after[k] == handle;
        before.lemma_filter_pred(keep, k);
        before.lemma_filter_contains_rev(keep, handle);
    }
}

/// The handles of a client that has disconnected are no longer the client's. Otherwise they stay,
/// and so do those of all other clients.
pub proof fn disconnected_clients_have_no_handles(
    info: &mut ForeignToplevelInfo,
    client: u64,
    i: int,
    k: int,
)
    requires
        call_ensures(ForeignToplevelInfo::client_disconnected, (info, client), ()),
        0 <= i < old(info).toplevels@.len(),
        0 <= k < old(info).toplevels@[i].handles@.len(),
    ensures
        final(info).toplevels@.len() == old(info).toplevels@.len(),
        ({
            let before = old(info).toplevels@[i];
            let after = final(info).toplevels@[i];
            &&& after.handles@.len() == before.handles@.len()
            &&& after.handles@[k].object == before.handles@[k].object
            &&& after.handles@[k].info == before.handles@[k].info
            &&& before.handles@[k].client == Some(client) ==> after.handles@[k].client is None
            &&& before.handles@[k].client != Some(client) ==> after.handles@[k].client
                == before.handles@[k].client
            &&& after.listed == before.listed
            &&& after.state == before.state
            &&& after.initialized == before.initialized
        }),
        final(info).clients == old(info).clients && final(info).global == old(info).global
            && final(info).next_handle == old(info).next_handle,
{
    assert(super::same_but_handles(old(info).toplevels@[i], final(info).toplevels@[i]));
}

proof fn lemma_object_of_client(handles: Seq<HandleEntry>, client: u64, k: int)
    requires
        0 <= k < handles.len(),
    ensures
        ({
            let r = super::object_of_client(handles, client);
            &&& handles[k].client == Some(client) ==> r is Some
            &&& handles[k].client == Some(client) && (forall|l: int|
                0 <= l < k ==> (#[trigger] handles[l]).client != Some(client)) ==> r == Some(
                handles[k].object,
            )
        }),
    decreases handles.len(),
{
    if handles[0].client != Some(client) && k > 0 {
        let rest = handles.drop_first();
        lemma_object_of_client(rest, client, k - 1);
        assert(rest[k - 1] == handles[k]);
        if forall|l: int| 0 <= l < k ==> (#[trigger] handles[l]).client != Some(client) {
            assert forall|l: int| 0 <= l < k - 1 implies (#[trigger] rest[l]).client != Some(
                client,
            ) by {
                assert(rest[l] == handles[l + 1]);
            }
        }
    }
}

proof fn lemma_object_is_of_client(handles: Seq<HandleEntry>, client: u64)
    ensures
        super::object_of_client(handles, client) matches Some(object) ==> exists|k: int|
            0 <= k < handles.len() && (#[trigger] handles[k]).client == Some(client)
                && handles[k].object == object,
    decreases handles.len(),
{
    if handles.len() > 0 && handles[0].client != Some(client) {
        let rest = handles.drop_first();
        lemma_object_is_of_client(rest, client);
        match super::object_of_client(rest, client) {
            Some(object) => {
                let k = choose|k: int|
                    0 <= k < rest.len() && (#[trigger] rest[k]).client == Some(client)
                        && rest[k].object == object;
                assert(handles[k + 1] == rest[k]);
            },
            None => {},
        }
    }
}

/// The handle of a client for a toplevel is its first one. There is one exactly if the client has
/// one.
pub proof fn clients_have_their_first_handle(
    toplevel: ToplevelHandle,
    info: ForeignToplevelInfo,
    client: u64,
    k: int,
    r: Result<u64, DeadResource>,
)
    requires
        call_ensures(ToplevelHandle::handle_for_client, (&toplevel, &info, client), r),
        toplevel.index < info.toplevels@.len(),
        0 <= k < info.toplevels@[toplevel.index as int].handles@.len(),
    ensures
        ({
            let handles = info.toplevels@[toplevel.index as int].handles@;
            &&& handles[k].client == Some(client) ==> r is Ok
            &&& handles[k].client == Some(client) && (forall|l: int|
                0 <= l < k ==> (#[trigger] handles[l]).client != Some(client)) ==> r == Ok::<
                u64,
                DeadResource,
            >(handles[k].object)
            &&& r matches Ok(object) ==> exists|l: int|
                0 <= l < handles.len() && (#[trigger] handles[l]).client == Some(client)
                    && handles[l].object == object
        }),
{
    let handles = info.toplevels@[toplevel.index as int].handles@;
    lemma_object_of_client(handles, client, k);
    lemma_object_is_of_client(handles, client);
}

/// The toplevel that is found for a handle has that handle. One is found exactly if the handle is
/// alive.
pub proof fn toplevels_are_found_by_their_handles(
    info: ForeignToplevelInfo,
    object: u64,
    i: int,
    k: int,
    r: Result<ToplevelHandle, DeadResource>,
)
    requires
        info.wf(),
        call_ensures(ToplevelHandle::from_handle, (&info, object), r),
    ensures
        0 <= i < info.toplevels@.len() && 0 <= k < info.toplevels@[i].handles@.len()
            && info.toplevels@[i].handles@[k].object == object ==> (r matches Ok(toplevel)
            && toplevel.index == i),
        r matches Ok(toplevel) ==> toplevel.index < info.toplevels@.len() && exists|l: int|
            0 <= l < info.toplevels@[toplevel.index as int].handles@.len() && (
            #[trigger] info.toplevels@[toplevel.index as int].handles@[l]).object == object,
{
    match r {
        Ok(toplevel) => {
            let top = info.toplevels@[toplevel.index as int];
            assert(super::has_handle(top, object));
            let l = choose|l: int|
                0 <= l < top.handles@.len() && (#[trigger] top.handles@[l]).object == object;
            assert(info.toplevels@[toplevel.index as int].handles@[l].object == object);
        },
        Err(_) => {},
    }
}

/// The handle of a client for the parent of a toplevel is that client's own for it, if it has one.
/// A client that is gone has none.
pub open spec fn is_parent_handle(
    info: ForeignToplevelInfo,
    parent: Option<usize>,
    client: Option<u64>,
    told: Option<u64>,
) -> bool {
    match (parent, client) {
        (Some(index), Some(client)) if index < info.toplevels@.len() => {
            let handles = info.toplevels@[index as int].handles@;
            match told {
                Some(object) => exists|k: int|
                    {
                        &&& 0 <= k < handles.len()
                        &&& (#[trigger] handles[k]).client == Some(client)
                        &&& handles[k].object == object
                        &&& forall|l: int|
                            0 <= l < k ==> (#[trigger] handles[l]).client != Some(client)
                    },
                None => forall|k: int|
                    0 <= k < handles.len() ==> (#[trigger] handles[k]).client != Some(client),
            }
        },
        _ => told is None,
    }
}

proof fn lemma_first_object(handles: Seq<HandleEntry>, client: u64)
    ensures
        match super::object_of_client(handles, client) {
            Some(object) => exists|k: int|
                {
                    &&& 0 <= k < handles.len()
                    &&& (#[trigger] handles[k]).client == Some(client)
                    &&& handles[k].object == object
                    &&& forall|l: int|
                        0 <= l < k ==> (#[trigger] handles[l]).client != Some(client)
                },
            None => forall|k: int|
                0 <= k < handles.len() ==> (#[trigger] handles[k]).client != Some(client),
        },
    decreases handles.len(),
{
    if handles.len() > 0 {
        if handles[0].client == Some(client) {
            assert(handles[0].object == super::object_of_client(handles, client)->0);
        } else {
            let rest = handles.drop_first();
            lemma_first_object(rest, client);
            match super::object_of_client(rest, client) {
                Some(object) => {
                    let k = choose|k: int|
                        {
                            &&& 0 <= k < rest.len()
                            &&& (#[trigger] rest[k]).client == Some(client)
                            &&& rest[k].object == object
                            &&& forall|l: int|
                                0 <= l < k ==> (#[trigger] rest[l]).client != Some(client)
                        };
                    assert(handles[k + 1] == rest[k]);
                    assert forall|l: int| 0 <= l < k + 1 implies (#[trigger] handles[l]).client
                        != Some(client) by {
                        if l > 0 {
                            assert(rest[l - 1] == handles[l]);
                        }
                    }
                },
                None => {
                    assert forall|k: int| 0 <= k < handles.len() implies (
                    #[trigger] handles[k]).client != Some(client) by {
                        if k > 0 {
                            assert(rest[k - 1] == handles[k]);
                        }
                    }
                },
            }
        }
    }
}

proof fn lemma_parent_handle(
    info: ForeignToplevelInfo,
    parent: Option<usize>,
    client: Option<u64>,
)
    ensures
        is_parent_handle(
            info,
            parent,
            client,
            super::parent_handle(info.toplevels@, parent, client),
        ),
{
    match (parent, client) {
        (Some(index), Some(client)) => {
            if index < info.toplevels@.len() {
                lemma_first_object(info.toplevels@[index as int].handles@, client);
            }
        },
        _ => {},
    }
}

/// What a toplevel looked like when it was last sent.
pub open spec fn last_sent(toplevel: ToplevelEntry) -> Option<ToplevelState> {
    toplevel.state.current_spec()
}

/// The events tell a handle of a change, somewhere among them, and of the parent that is its own.
pub open spec fn is_told(
    events: Seq<Event>,
    info: ForeignToplevelInfo,
    handle: HandleEntry,
    from: Option<ToplevelState>,
    to: ToplevelState,
) -> bool {
    exists|p: int, parent: Option<u64>| #[trigger]
        is_told_at(events, p, handle.object, from, to, parent) && is_parent_handle(
            info,
            to.parent,
            handle.client,
            parent,
        )
}

proof fn lemma_sent(
    events: Seq<Event>,
    after: Seq<super::state::EventView>,
    info: ForeignToplevelInfo,
    handles: Seq<HandleEntry>,
    from: Option<ToplevelState>,
    to: ToplevelState,
    n: int,
    k: int,
)
    requires
        0 <= k < n <= handles.len(),
        super::state::views(events) == super::sent_to_handles(
            info.toplevels@,
            handles,
            seen(from),
            to@,
            n,
        ) + after,
    ensures
        is_told(events, info, handles[k], from, to),
    decreases n,
{
    let handle = handles[n - 1];
    let before = super::sent_to_handles(info.toplevels@, handles, seen(from), to@, n - 1);
    let parent = super::parent_handle(info.toplevels@, to.parent, handle.client);
    let last = super::state::changes(handle.object, seen(from), to@, parent);
    if k == n - 1 {
        assert(super::state::views(events) =~= before + last + after);
        lemma_told_at(events, before, after, handle.object, from, to, parent);
        lemma_parent_handle(info, to.parent, handle.client);
        assert(is_told_at(events, before.len() as int, handle.object, from, to, parent));
    } else {
        assert(super::state::views(events) =~= before + (last + after));
        lemma_sent(events, last + after, info, handles, from, to, n - 1, k);
    }
}

proof fn lemma_sent_count(
    info: ForeignToplevelInfo,
    handles: Seq<HandleEntry>,
    from: Option<ToplevelState>,
    to: ToplevelState,
    n: int,
    events: Seq<Event>,
)
    requires
        0 <= n <= handles.len(),
        super::state::views(events) == super::sent_to_handles(
            info.toplevels@,
            handles,
            seen(from),
            to@,
            n,
        ),
    ensures
        events.len() == n * told_count(from, to),
    decreases n,
{
    assert(super::state::views(events).len() == events.len());
    if n > 0 {
        let handle = handles[n - 1];
        let before = super::sent_to_handles(info.toplevels@, handles, seen(from), to@, n - 1);
        let parent = super::parent_handle(info.toplevels@, to.parent, handle.client);
        let last = super::state::changes(handle.object, seen(from), to@, parent);
        let front = events.take(before.len() as int);
        assert(super::state::views(events) == before + last);
        assert forall|j: int| 0 <= j < before.len() implies (#[trigger] super::state::views(
            front,
        )[j]) == before[j] by {
            assert(super::state::views(events)[j] == events[j]@);
            assert((before + last)[j] == before[j]);
        }
        assert(super::state::views(front) =~= before);
        lemma_sent_count(info, handles, from, to, n - 1, front);
        assert(super::state::views(events) =~= before + last + Seq::empty());
        lemma_told_at(events, before, Seq::empty(), handle.object, from, to, parent);
        assert(n * told_count(from, to) == (n - 1) * told_count(from, to) + told_count(from, to))
            by (nonlinear_arith);
    } else {
        assert(n * told_count(from, to) == 0) by (nonlinear_arith)
            requires
                n == 0,
        ;
    }
}

/// Sending the pending state of a toplevel tells every handle of it what changed since it was last
/// sent, and nothing else. What was pending is then what was last sent, and stays pending. All else
/// stays.
pub proof fn sent_states_are_told_to_all_handles(
    toplevel: ToplevelHandle,
    info: &mut ForeignToplevelInfo,
    r: Vec<Event>,
    i: int,
    k: int,
)
    requires
        call_ensures(ToplevelHandle::send_state, (&toplevel, info), r),
        toplevel.index < old(info).toplevels@.len(),
    ensures
        ({
            let before = old(info).toplevels@[toplevel.index as int];
            let after = final(info).toplevels@[toplevel.index as int];
            let pending = before.state.pending_spec();
            &&& 0 <= k < before.handles@.len() ==> is_told(
                r@,
                *old(info),
                before.handles@[k],
                last_sent(before),
                pending,
            )
            &&& r@.len() == before.handles@.len() * told_count(last_sent(before), pending)
            &&& after.state.pending_spec() == pending
            &&& last_sent(after) matches Some(sent)
            &&& sent.title@ == pending.title@ && sent.app_id@ == pending.app_id@
            &&& sent.outputs@ == pending.outputs@ && sent.states@ == pending.states@
            &&& sent.parent == pending.parent
            &&& after.initialized
            &&& after.listed == before.listed
            &&& after.handles == before.handles
        }),
        final(info).toplevels@.len() == old(info).toplevels@.len(),
        0 <= i < old(info).toplevels@.len() && i != toplevel.index ==> final(info).toplevels@[i]
            == old(info).toplevels@[i],
        final(info).clients == old(info).clients && final(info).global == old(info).global
            && final(info).next_handle == old(info).next_handle,
{
    let before = old(info).toplevels@[toplevel.index as int];
    let after = final(info).toplevels@[toplevel.index as int];
    let pending = before.state.pending_spec();
    let handles = before.handles@;
    let sent = super::sent_to_handles(
        old(info).toplevels@,
        handles,
        seen(last_sent(before)),
        pending@,
        handles.len() as int,
    );
    assert(super::current_of(before) == seen(last_sent(before)));
    assert(super::current_of(after) == seen(last_sent(after)));
    assert(super::state::views(r@) == sent);
    assert(sent =~= sent + Seq::empty());
    if 0 <= k < handles.len() {
        lemma_sent(
            r@,
            Seq::empty(),
            *old(info),
            handles,
            last_sent(before),
            pending,
            handles.len() as int,
            k,
        );
    }
    lemma_sent_count(
        *old(info),
        handles,
        last_sent(before),
        pending,
        handles.len() as int,
        r@,
    );
}

/// Changing the pending state of a toplevel changes it alone: what was last sent stays.
pub proof fn pending_states_are_changed_alone<'a>(
    toplevel: ToplevelHandle,
    info: &'a mut ForeignToplevelInfo,
    r: &'a mut ToplevelState,
    i: int,
)
    requires
        call_ensures(ToplevelHandle::pending_state, (&toplevel, info), r),
        toplevel.index < old(info).toplevels@.len(),
    ensures
        ({
            let before = old(info).toplevels@[toplevel.index as int];
            let after = final(info).toplevels@[toplevel.index as int];
            &&& *old(r) == before.state.pending_spec()
            &&& after.state.pending_spec() == *final(r)
            &&& last_sent(after) == last_sent(before)
            &&& after.initialized == before.initialized
            &&& after.listed == before.listed
            &&& after.handles == before.handles
        }),
        final(info).toplevels@.len() == old(info).toplevels@.len(),
        0 <= i < old(info).toplevels@.len() && i != toplevel.index ==> final(info).toplevels@[i]
            == old(info).toplevels@[i],
        final(info).clients == old(info).clients && final(info).global == old(info).global
            && final(info).next_handle == old(info).next_handle,
{
}

/// How many of the first `n` toplevels of a list are listed.
pub open spec fn listed(toplevels: Seq<ToplevelEntry>, n: int) -> int {
    toplevels.take(n).filter(|toplevel: ToplevelEntry| toplevel.listed).len() as int
}

proof fn lemma_listed(toplevels: Seq<ToplevelEntry>, n: int)
    requires
        0 <= n <= toplevels.len(),
    ensures
        listed(toplevels, n) == super::listed_before(toplevels, n),
    decreases n,
{
    reveal(Seq::filter);
    if n > 0 {
        lemma_listed(toplevels, n - 1);
        assert(toplevels.take(n).drop_last() =~= toplevels.take(n - 1));
        assert(toplevels.take(n).last() == toplevels[n - 1]);
    }
}

proof fn lemma_announced(
    toplevels: Seq<ToplevelEntry>,
    client: ForeignToplevelClient,
    first: u64,
    n: int,
    i: int,
)
    requires
        0 <= i < n <= toplevels.len(),
    ensures
        super::announced(toplevels, client, first, n).len() == super::listed_before(toplevels, n),
        toplevels[i].listed ==> super::listed_before(toplevels, i) < super::listed_before(
            toplevels,
            n,
        ) && super::announced(toplevels, client, first, n)[super::listed_before(toplevels, i) as int]
            == super::state::EventView::Toplevel(
            client.object,
            (first + super::listed_before(toplevels, i)) as u64,
        ),
    decreases n,
{
    if n > 1 {
        lemma_announced(toplevels, client, first, n - 1, if i < n - 1 {
            i
        } else {
            0
        });
    } else {
        assert(super::announced(toplevels, client, first, 0).len() == 0);
        assert(super::listed_before(toplevels, 0) == 0);
    }
}

proof fn lemma_introduced_at(
    events: Seq<Event>,
    before: Seq<super::state::EventView>,
    after: Seq<super::state::EventView>,
    info: ForeignToplevelInfo,
    client: ForeignToplevelClient,
    first: u64,
    n: int,
    i: int,
)
    requires
        0 <= i < n <= info.toplevels@.len(),
        info.toplevels@[i].listed,
        info.toplevels@[i].initialized,
        last_sent(info.toplevels@[i]) is Some,
        super::state::views(events) == before + super::introduced(
            info.toplevels@,
            client,
            first,
            n,
        ) + after,
    ensures
        is_told(
            events,
            info,
            super::handle_of_new_client(info.toplevels@, client, first, i),
            None,
            last_sent(info.toplevels@[i])->0,
        ),
    decreases n,
{
    let tops = info.toplevels@;
    let rest = super::introduced(tops, client, first, n - 1);
    let top = tops[n - 1];
    assert(super::current_of(top) == seen(last_sent(top)));
    match last_sent(top) {
        Some(current) if top.listed && top.initialized => {
            let handle = super::handle_of_new_client(tops, client, first, n - 1);
            let parent = super::parent_handle(tops, current.parent, handle.client);
            let last = super::state::changes(handle.object, None, current@, parent);
            assert(super::introduced(tops, client, first, n) == rest + last);
            if i == n - 1 {
                assert(super::state::views(events) =~= (before + rest) + last + after);
                lemma_told_at(events, before + rest, after, handle.object, None, current, parent);
                lemma_parent_handle(info, current.parent, handle.client);
                assert(is_told_at(
                    events,
                    (before + rest).len() as int,
                    handle.object,
                    None,
                    current,
                    parent,
                ));
            } else {
                assert(super::state::views(events) =~= before + rest + (last + after));
                lemma_introduced_at(events, before, last + after, info, client, first, n - 1, i);
            }
        },
        _ => {
            lemma_introduced_at(events, before, after, info, client, first, n - 1, i);
        },
    }
}

/// A client that is still announced toplevels, and to which all of them are announced, gets a new
/// handle of its own to each that is listed. It is told of all handles first, in order, and then
/// what each of the toplevels looked like when it was last sent. All else stays.
pub proof fn new_clients_are_told_of_all_toplevels(
    info: &mut ForeignToplevelInfo,
    object: u64,
    r: Vec<Event>,
    c: int,
    i: int,
)
    requires
        call_ensures(ForeignToplevelInfo::advertise, (info, object), r),
        old(info).wf(),
        old(info).next_handle + old(info).toplevels@.len() <= u64::MAX,
        0 <= c < old(info).clients@.len(),
        old(info).clients@[c].object == object,
    ensures
        old(info).clients@[c].stop ==> r@.len() == 0 && *final(info) == *old(info),
        !old(info).clients@[c].stop ==> {
            let before = old(info).toplevels@;
            let after = final(info).toplevels@;
            let first = old(info).next_handle;
            &&& after.len() == before.len()
            &&& final(info).next_handle == first + listed(before, before.len() as int)
            &&& 0 <= i < before.len() ==> {
                let handle = HandleEntry {
                    object: (first + listed(before, i)) as u64,
                    info: object,
                    client: Some(old(info).clients@[c].client),
                };
                &&& after[i].listed == before[i].listed && after[i].state == before[i].state
                &&& after[i].initialized == before[i].initialized
                &&& !before[i].listed ==> after[i].handles@ == before[i].handles@
                &&& before[i].listed ==> {
                    &&& after[i].handles@ == before[i].handles@.push(handle)
                    &&& listed(before, i) < r@.len()
                    &&& r@[listed(before, i)] matches Event::Toplevel { info: by, handle: given }
                    &&& by == object && given == handle.object
                }
                &&& before[i].listed && before[i].initialized ==> {
                    &&& last_sent(before[i]) matches Some(sent)
                    &&& is_told(r@, *final(info), handle, None, sent)
                }
            }
        },
        final(info).clients == old(info).clients && final(info).global == old(info).global,
{
    let clients = old(info).clients@;
    let client = clients[c];
    if !client.stop {
        assert(super::announces(clients, object));
        let d = choose|d: int| 0 <= d < clients.len() && (#[trigger] clients[d]).object == object;
        assert(clients[c].object == object);
        assert(d == c);
        assert(super::client_with(clients, object) == client);
        let (before, after) = (old(info).toplevels@, final(info).toplevels@);
        let first = old(info).next_handle;
        let count = before.len() as int;
        lemma_listed(before, count);
        if 0 <= i < count {
            lemma_listed(before, i);
            super::lemma_listed_monotone(before, 0, i);
            assert(super::same_but_handles(before[i], after[i]));
            let start = super::announced(before, client, first, count);
            let rest = super::introduced(after, client, first, count);
            let viewed = super::state::views(r@);
            assert(viewed.len() == r@.len());
            lemma_announced(before, client, first, count, i);
            if before[i].listed {
                let k = listed(before, i);
                assert(viewed[k] == r@[k]@);
                assert(viewed[k] == start[k]);
            }
            assert forall|j: int| 0 <= j < before.len() implies before[j].listed == (
            #[trigger] after[j]).listed by {
                assert(super::same_but_handles(before[j], after[j]));
            }
            super::lemma_listed_same(before, after, i);
            if before[i].listed && before[i].initialized {
                assert(super::current_of(before[i]) == seen(last_sent(before[i])));
                assert(viewed =~= start + rest + Seq::empty());
                lemma_introduced_at(
                    r@,
                    start,
                    Seq::empty(),
                    *final(info),
                    client,
                    first,
                    count,
                    i,
                );
            }
        }
    } else {
        if super::announces(clients, object) {
            let d = choose|d: int|
                0 <= d < clients.len() && (#[trigger] clients[d]).object == object
                    && !clients[d].stop;
            assert(clients[c].object == object);
            assert(d == c);
        }
    }
}

/// Nothing is announced to an object that no client has.
pub proof fn nothing_is_told_to_unknown_objects(
    info: &mut ForeignToplevelInfo,
    object: u64,
    r: Vec<Event>,
)
    requires
        call_ensures(ForeignToplevelInfo::advertise, (info, object), r),
        forall|c: int|
            0 <= c < old(info).clients@.len() ==> (#[trigger] old(info).clients@[c]).object
                != object,
    ensures
        r@.len() == 0,
        *final(info) == *old(info),
{
}

/// There are no clients and no toplevels at first, and the global is the one that was given.
pub proof fn nothing_is_announced_at_first(global: u64, info: ForeignToplevelInfo, same: u64)
    requires
        call_ensures(ForeignToplevelInfo::new, (global,), info),
        call_ensures(ForeignToplevelInfo::global, (&info,), same),
    ensures
        same == global,
        info.clients@.len() == 0,
        info.toplevels@.len() == 0,
        super::VERSION == 1,
        super::DEFUNCT_TOPLEVELS@
            == "ext_foreign_toplevel_info_v1 was destroyed with defunct handles"@,
{
}

} // verus!
