//! The state of a toplevel, and how changes of it are sent.

use vstd::prelude::*;

use crate::utils::text::copy;
use crate::utils::DoubleBufferable;

verus! {

/// A set of states of a toplevel, by their numbers in the protocol.
#[derive(Debug)]
pub struct ToplevelStateSet {
    inner: Vec<u32>,
}

/// Every one of a list of states is in the other list too.
pub open spec fn all_among(states: Seq<u32>, other: Seq<u32>) -> bool {
    forall|state: u32| #[trigger] states.contains(state) ==> other.contains(state)
}

/// The bytes of a number, the least significant first.
pub open spec fn le_bytes(n: u32) -> Seq<u8> {
    seq![
        (n & 0xff) as u8,
        ((n >> 8) & 0xff) as u8,
        ((n >> 16) & 0xff) as u8,
        ((n >> 24) & 0xff) as u8,
    ]
}

/// The bytes of a list of numbers, one after the other.
pub open spec fn all_le_bytes(numbers: Seq<u32>) -> Seq<u8>
    decreases numbers.len(),
{
    if numbers.len() == 0 {
        Seq::empty()
    } else {
        all_le_bytes(numbers.drop_last()) + le_bytes(numbers.last())
    }
}

impl View for ToplevelStateSet {
    type V = Seq<u32>;

    closed spec fn view(&self) -> Seq<u32> {
        self.inner@
    }
}

impl Default for ToplevelStateSet {
    fn default() -> (r: Self)
        ensures
            r@ == Seq::<u32>::empty(),
    {
        ToplevelStateSet { inner: Vec::new() }
    }
}

impl ToplevelStateSet {
    /// No state is in the set twice.
    pub open spec fn wf(&self) -> bool {
        self@.no_duplicates()
    }

    /// Returns `true` if the states contain a state.
    pub fn contains(&self, state: u32) -> (r: bool)
        ensures
            r == self@.contains(state),
    {
        let mut i: usize = 0;
        while i < self.inner.len()
            invariant
                i <= self.inner@.len(),
                forall|j: int| 0 <= j < i ==> self.inner@[j] != state,
            decreases self.inner@.len() - i,
        {
            if self.inner[i] == state {
                return true;
            }
            i = i + 1;
        }
        false
    }

    /// Adds a state to the states.
    ///
    /// If the states did not have this state present, `true` is returned.
    ///
    /// If the states did have this state present, `false` is returned.
    pub fn set(&mut self, state: u32) -> (r: bool)
        ensures
            r == !old(self)@.contains(state),
            final(self)@ == if r {
                old(self)@.push(state)
            } else {
                old(self)@
            },
            old(self).wf() ==> final(self).wf(),
    {
        if self.contains(state) {
            false
        } else {
            self.inner.push(state);
            true
        }
    }

    /// Removes a state from the states. Returns whether the state was present in the states.
    pub fn unset(&mut self, state: u32) -> (r: bool)
        ensures
            r == old(self)@.contains(state),
            final(self)@ == old(self)@.filter(|s: u32| s != state),
            old(self).wf() ==> final(self).wf(),
    {
        reveal(Seq::filter);
        let present: bool = self.contains(state);
        let ghost others = |s: u32| s != state;
        let mut kept: Vec<u32> = Vec::new();
        let mut i: usize = 0;
        while i < self.inner.len()
            invariant
                i <= self.inner@.len(),
                self@ == old(self)@,
                others == (|s: u32| s != state),
                kept@ == self@.take(i as int).filter(others),
            decreases self.inner@.len() - i,
        {
            reveal(Seq::filter);
            assert(self@.take(i + 1).drop_last() =~= self@.take(i as int));
            let s: u32 = self.inner[i];
            if s != state {
                kept.push(s);
            }
            i = i + 1;
        }
        proof {
            assert(self@.take(i as int) =~= self@);
            if old(self).wf() {
                lemma_filter_keeps_unique(self@, others);
            }
        }
        self.inner = kept;
        present
    }

    /// The states as they are sent: the bytes of each, the least significant first.
    pub fn raw(&self) -> (r: Vec<u8>)
        ensures
            r@ == all_le_bytes(self@),
    {
        let mut bytes: Vec<u8> = Vec::new();
        let mut i: usize = 0;
        while i < self.inner.len()
            invariant
                i <= self.inner@.len(),
                bytes@ == all_le_bytes(self@.take(i as int)),
            decreases self.inner@.len() - i,
        {
            let n: u32 = self.inner[i];
            assert(self@.take(i + 1).drop_last() =~= self@.take(i as int));
            assert(n & 0xff <= 0xff && (n >> 8) & 0xff <= 0xff && (n >> 16) & 0xff <= 0xff && (n
                >> 24) & 0xff <= 0xff) by (bit_vector);
            bytes.push((n & 0xff) as u8);
            bytes.push(((n >> 8) & 0xff) as u8);
            bytes.push(((n >> 16) & 0xff) as u8);
            bytes.push(((n >> 24) & 0xff) as u8);
            i = i + 1;
            assert(bytes@ =~= all_le_bytes(self@.take(i as int)));
        }
        assert(self@.take(i as int) =~= self@);
        bytes
    }

    /// Whether every one of the states is in the other set too.
    pub fn is_within(&self, other: &ToplevelStateSet) -> (r: bool)
        ensures
            r == all_among(self@, other@),
    {
        let mut i: usize = 0;
        while i < self.inner.len()
            invariant
                i <= self.inner@.len(),
                forall|j: int| 0 <= j < i ==> other@.contains(#[trigger] self.inner@[j]),
            decreases self.inner@.len() - i,
        {
            if !other.contains(self.inner[i]) {
                assert(self@.contains(self.inner@[i as int]));
                return false;
            }
            i = i + 1;
        }
        true
    }

    /// A copy of the set.
    fn copied(&self) -> (r: Self)
        ensures
            r@ == self@,
    {
        let mut inner: Vec<u32> = Vec::new();
        let mut i: usize = 0;
        while i < self.inner.len()
            invariant
                i <= self.inner@.len(),
                inner@ == self.inner@.take(i as int),
            decreases self.inner@.len() - i,
        {
            inner.push(self.inner[i]);
            i = i + 1;
            assert(inner@ =~= self.inner@.take(i as int));
        }
        assert(inner@ =~= self.inner@);
        ToplevelStateSet { inner }
    }
}

/// A set equals another if every one of its states is in the other too.
impl PartialEq for ToplevelStateSet {
    fn eq(&self, other: &Self) -> (r: bool) {
        self.is_within(other)
    }
}

impl vstd::std_specs::cmp::PartialEqSpecImpl for ToplevelStateSet {
    open spec fn obeys_eq_spec() -> bool {
        true
    }

    open spec fn eq_spec(&self, other: &Self) -> bool {
        forall|state: u32| #[trigger] self@.contains(state) ==> other@.contains(state)
    }
}

proof fn lemma_filter_keeps_unique(s: Seq<u32>, keep: spec_fn(u32) -> bool)
    requires
        s.no_duplicates(),
    ensures
        s.filter(keep).no_duplicates(),
    decreases s.len(),
{
    reveal(Seq::filter);
    if s.len() > 0 {
        let rest = s.drop_last();
        lemma_filter_keeps_unique(rest, keep);
        if keep(s.last()) {
            if rest.filter(keep).contains(s.last()) {
                rest.lemma_filter_contains_rev(keep, s.last());
                let i = choose|i: int| 0 <= i < rest.len() && rest[i] == s.last();
                assert(s[i] == s[s.len() - 1]);
            }
        }
    }
}

/// A state that was set is there, and a state that was unset is not there. Other states stay as
/// they were.
pub proof fn set_and_unset(states: Seq<u32>, state: u32, other: u32)
    requires
        other != state,
    ensures
        states.push(state).contains(state),
        states.push(state).contains(other) == states.contains(other),
        !states.filter(|s: u32| s != state).contains(state),
        states.filter(|s: u32| s != state).contains(other) == states.contains(other),
{
    let keep = |s: u32| s != state;
    assert(states.push(state)[states.len() as int] == state);
    if states.contains(other) {
        let i = choose|i: int| 0 <= i < states.len() && states[i] == other;
        assert(states.push(state)[i] == other);
        states.lemma_filter_contains(keep, i);
    }
    if states.filter(keep).contains(state) {
        let i = choose|i: int|
            0 <= i < states.filter(keep).len() && states.filter(keep)[i] == state;
        states.lemma_filter_pred(keep, i);
    }
    if states.filter(keep).contains(other) {
        states.lemma_filter_contains_rev(keep, other);
    }
}

/// What a toplevel looks like to other clients.
#[non_exhaustive]
#[derive(Debug)]
pub struct ToplevelState {
    /// The title.
    pub title: String,
    /// The id of the application.
    pub app_id: String,
    /// The outputs that the toplevel is on.
    pub outputs: Vec<u64>,
    /// The states.
    pub states: ToplevelStateSet,
    /// The toplevel that is the parent, if there is one.
    pub parent: Option<usize>,
}

/// What a toplevel looks like to other clients.
pub struct StateView {
    /// The title.
    pub title: Seq<char>,
    /// The id of the application.
    pub app_id: Seq<char>,
    /// The outputs that the toplevel is on.
    pub outputs: Seq<u64>,
    /// The states.
    pub states: Seq<u32>,
    /// The toplevel that is the parent, if there is one.
    pub parent: Option<usize>,
}

impl View for ToplevelState {
    type V = StateView;

    open spec fn view(&self) -> StateView {
        StateView {
            title: self.title@,
            app_id: self.app_id@,
            outputs: self.outputs@,
            states: self.states@,
            parent: self.parent,
        }
    }
}

/// Nothing is known of a toplevel.
pub open spec fn blank_state() -> StateView {
    StateView {
        title: ""@,
        app_id: ""@,
        outputs: Seq::empty(),
        states: Seq::empty(),
        parent: None,
    }
}

impl Default for ToplevelState {
    fn default() -> (r: Self)
        ensures
            r@ == blank_state(),
    {
        let state = ToplevelState {
            title: "".to_owned(),
            app_id: "".to_owned(),
            outputs: Vec::new(),
            states: ToplevelStateSet::default(),
            parent: None,
        };
        assert(state.outputs@ =~= Seq::<u64>::empty());
        state
    }
}

/// Whether a list of outputs has the given one.
fn has_output(outputs: &Vec<u64>, output: u64) -> (r: bool)
    ensures
        r == outputs@.contains(output),
{
    let mut i: usize = 0;
    while i < outputs.len()
        invariant
            i <= outputs@.len(),
            forall|j: int| 0 <= j < i ==> outputs@[j] != output,
        decreases outputs@.len() - i,
    {
        if outputs[i] == output {
            return true;
        }
        i = i + 1;
    }
    false
}

impl ToplevelState {
    /// A copy of the state.
    pub fn copied(&self) -> (r: Self)
        ensures
            r@ == self@,
    {
        let mut outputs: Vec<u64> = Vec::new();
        let mut i: usize = 0;
        while i < self.outputs.len()
            invariant
                i <= self.outputs@.len(),
                outputs@ == self.outputs@.take(i as int),
            decreases self.outputs@.len() - i,
        {
            outputs.push(self.outputs[i]);
            i = i + 1;
            assert(outputs@ =~= self.outputs@.take(i as int));
        }
        assert(outputs@ =~= self.outputs@);
        ToplevelState {
            title: copy(&self.title),
            app_id: copy(&self.app_id),
            outputs,
            states: self.states.copied(),
            parent: self.parent,
        }
    }
}

impl DoubleBufferable for ToplevelState {
    open spec fn merges(&self, before: &Self, after: &Self) -> bool {
        after@ == self@
    }

    fn merge_into(&self, into: &mut Self) {
        *into = self.copied();
    }
}

/// An event that is sent to a client.
#[derive(Debug)]
pub enum Event {
    /// A toplevel was announced.
    Toplevel {
        /// The object of the client that announces toplevels.
        info: u64,
        /// The handle of the client for the toplevel.
        handle: u64,
    },
    /// No more toplevels are announced.
    Finished {
        /// The object of the client that announces toplevels.
        info: u64,
    },
    /// The toplevel is gone.
    Closed {
        /// The handle.
        handle: u64,
    },
    /// The title of the toplevel.
    Title {
        /// The handle.
        handle: u64,
        /// The title.
        title: String,
    },
    /// The id of the application of the toplevel.
    AppId {
        /// The handle.
        handle: u64,
        /// The id.
        app_id: String,
    },
    /// The toplevel is on an output.
    OutputEnter {
        /// The handle.
        handle: u64,
        /// The output.
        output: u64,
    },
    /// The toplevel is no longer on an output.
    OutputLeave {
        /// The handle.
        handle: u64,
        /// The output.
        output: u64,
    },
    /// The parent of the toplevel.
    Parent {
        /// The handle.
        handle: u64,
        /// The handle of the parent, if there is one.
        parent: Option<u64>,
    },
    /// All changes of the toplevel have been sent.
    Done {
        /// The handle.
        handle: u64,
    },
}

/// An event that is sent to a client.
pub enum EventView {
    /// A toplevel was announced: the object that announces it, and the handle.
    Toplevel(u64, u64),
    /// No more toplevels are announced.
    Finished(u64),
    /// The toplevel is gone.
    Closed(u64),
    /// The title of the toplevel.
    Title(u64, Seq<char>),
    /// The id of the application of the toplevel.
    AppId(u64, Seq<char>),
    /// The toplevel is on an output.
    OutputEnter(u64, u64),
    /// The toplevel is no longer on an output.
    OutputLeave(u64, u64),
    /// The parent of the toplevel.
    Parent(u64, Option<u64>),
    /// All changes of the toplevel have been sent.
    Done(u64),
}

impl View for Event {
    type V = EventView;

    open spec fn view(&self) -> EventView {
        match self {
            Event::Toplevel { info, handle } => EventView::Toplevel(*info, *handle),
            Event::Finished { info } => EventView::Finished(*info),
            Event::Closed { handle } => EventView::Closed(*handle),
            Event::Title { handle, title } => EventView::Title(*handle, title@),
            Event::AppId { handle, app_id } => EventView::AppId(*handle, app_id@),
            Event::OutputEnter { handle, output } => EventView::OutputEnter(*handle, *output),
            Event::OutputLeave { handle, output } => EventView::OutputLeave(*handle, *output),
            Event::Parent { handle, parent } => EventView::Parent(*handle, *parent),
            Event::Done { handle } => EventView::Done(*handle),
        }
    }
}

/// A list of events.
pub open spec fn views(events: Seq<Event>) -> Seq<EventView> {
    events.map_values(|event: Event| event@)
}

pub(crate) proof fn lemma_views_push(events: Seq<Event>, event: Event)
    ensures
        views(events.push(event)) == views(events).push(event@),
{
    assert(views(events.push(event)) =~= views(events).push(event@));
}

/// The outputs of `list` that are not in `other`, in order.
pub open spec fn outputs_not_in(list: Seq<u64>, other: Seq<u64>) -> Seq<u64> {
    list.filter(|output: u64| !other.contains(output))
}

/// The events that outputs were left.
pub open spec fn leaves(handle: u64, outputs: Seq<u64>) -> Seq<EventView> {
    outputs.map_values(|output: u64| EventView::OutputLeave(handle, output))
}

/// The events that outputs were entered.
pub open spec fn enters(handle: u64, outputs: Seq<u64>) -> Seq<EventView> {
    outputs.map_values(|output: u64| EventView::OutputEnter(handle, output))
}

/// The event that a toplevel has another title, if it has.
pub open spec fn title_change(handle: u64, from: Option<StateView>, to: StateView) -> Seq<
    EventView,
> {
    match from {
        Some(from) if from.title == to.title => Seq::empty(),
        _ => seq![EventView::Title(handle, to.title)],
    }
}

/// The event that a toplevel is of another application, if it is.
pub open spec fn app_id_change(handle: u64, from: Option<StateView>, to: StateView) -> Seq<
    EventView,
> {
    match from {
        Some(from) if from.app_id == to.app_id => Seq::empty(),
        _ => seq![EventView::AppId(handle, to.app_id)],
    }
}

/// The outputs of a state, if there is a state.
pub open spec fn known_outputs(state: Option<StateView>) -> Seq<u64> {
    match state {
        Some(state) => state.outputs,
        None => Seq::empty(),
    }
}

/// The parent of a state, if there is a state and it has one.
pub open spec fn known_parent(state: Option<StateView>) -> Option<usize> {
    match state {
        Some(state) => state.parent,
        None => None,
    }
}

/// The event that a toplevel has another parent, if it has. `parent` is the handle of the client
/// for the new parent.
pub open spec fn parent_change(
    handle: u64,
    from: Option<StateView>,
    to: StateView,
    parent: Option<u64>,
) -> Seq<EventView> {
    if to.parent == known_parent(from) {
        Seq::empty()
    } else {
        seq![EventView::Parent(handle, parent)]
    }
}

/// The events that tell a client, which knows a toplevel as `from`, that it is as `to`.
///
/// A client that knows nothing is told everything. `parent` is the handle of the client for the
/// parent.
pub open spec fn changes(
    handle: u64,
    from: Option<StateView>,
    to: StateView,
    parent: Option<u64>,
) -> Seq<EventView> {
    title_change(handle, from, to) + app_id_change(handle, from, to) + leaves(
        handle,
        outputs_not_in(known_outputs(from), to.outputs),
    ) + enters(handle, outputs_not_in(to.outputs, known_outputs(from))) + parent_change(
        handle,
        from,
        to,
        parent,
    ) + seq![EventView::Done(handle)]
}

/// Sends what changed in the outputs: those that were left, or those that were entered.
fn push_outputs(
    handle: u64,
    list: &Vec<u64>,
    other: Option<&ToplevelState>,
    enter: bool,
    out: &mut Vec<Event>,
)
    ensures
        ({
            let known = match other {
                Some(state) => state.outputs@,
                None => Seq::empty(),
            };
            let changed = outputs_not_in(list@, known);
            views(final(out)@) == views(old(out)@) + if enter {
                enters(handle, changed)
            } else {
                leaves(handle, changed)
            }
        }),
{
    reveal(Seq::filter);
    let ghost known = match other {
        Some(state) => state.outputs@,
        None => Seq::empty(),
    };
    let ghost before = views(out@);
    let mut i: usize = 0;
    assert(views(out@) =~= before + leaves(handle, outputs_not_in(list@.take(0), known)));
    assert(views(out@) =~= before + enters(handle, outputs_not_in(list@.take(0), known)));
    while i < list.len()
        invariant
            i <= list@.len(),
            known == match other {
                Some(state) => state.outputs@,
                None => Seq::<u64>::empty(),
            },
            enter ==> views(out@) == before + enters(
                handle,
                outputs_not_in(list@.take(i as int), known),
            ),
            !enter ==> views(out@) == before + leaves(
                handle,
                outputs_not_in(list@.take(i as int), known),
            ),
        decreases list@.len() - i,
    {
        reveal(Seq::filter);
        let output: u64 = list[i];
        let ghost done = list@.take(i as int);
        let ghost next = list@.take(i + 1);
        assert(next.drop_last() =~= done);
        assert(next.last() == output);
        let is_known: bool = match other {
            Some(state) => has_output(&state.outputs, output),
            None => false,
        };
        if !is_known {
            let event = if enter {
                Event::OutputEnter { handle, output }
            } else {
                Event::OutputLeave { handle, output }
            };
            proof {
                lemma_views_push(out@, event);
                assert(outputs_not_in(next, known) == outputs_not_in(done, known).push(output));
                assert(enters(handle, outputs_not_in(next, known)) =~= enters(
                    handle,
                    outputs_not_in(done, known),
                ).push(EventView::OutputEnter(handle, output)));
                assert(leaves(handle, outputs_not_in(next, known)) =~= leaves(
                    handle,
                    outputs_not_in(done, known),
                ).push(EventView::OutputLeave(handle, output)));
            }
            out.push(event);
            assert(enter ==> views(out@) =~= before + enters(handle, outputs_not_in(next, known)));
            assert(!enter ==> views(out@) =~= before + leaves(handle, outputs_not_in(next, known)));
        } else {
            assert(outputs_not_in(next, known) == outputs_not_in(done, known));
        }
        i = i + 1;
    }
    assert(list@.take(i as int) =~= list@);
}

/// The state that a client knows, if it knows one.
pub open spec fn known_state(state: Option<&ToplevelState>) -> Option<StateView> {
    match state {
        Some(state) => Some(state@),
        None => None,
    }
}

/// Sends what changed: see `changes`.
pub fn push_changes(
    handle: u64,
    from: Option<&ToplevelState>,
    to: &ToplevelState,
    parent: Option<u64>,
    out: &mut Vec<Event>,
)
    ensures
        views(final(out)@) == views(old(out)@) + changes(handle, known_state(from), to@, parent),
{
    let ghost before = views(out@);
    let ghost known = known_state(from);
    let same_title: bool = match from {
        Some(state) => state.title == to.title,
        None => false,
    };
    if !same_title {
        let event = Event::Title { handle, title: copy(&to.title) };
        proof {
            lemma_views_push(out@, event);
        }
        out.push(event);
    }
    let ghost parts = title_change(handle, known, to@);
    assert(views(out@) =~= before + parts);
    let same_app_id: bool = match from {
        Some(state) => state.app_id == to.app_id,
        None => false,
    };
    if !same_app_id {
        let event = Event::AppId { handle, app_id: copy(&to.app_id) };
        proof {
            lemma_views_push(out@, event);
        }
        out.push(event);
    }
    let ghost parts = parts + app_id_change(handle, known, to@);
    assert(views(out@) =~= before + parts);
    match from {
        Some(state) => {
            push_outputs(handle, &state.outputs, Some(to), false, out);
        },
        None => {
            assert(leaves(handle, outputs_not_in(Seq::empty(), to@.outputs)) =~= Seq::empty()) by {
                Seq::<u64>::empty().lemma_filter_len(|output: u64| !to@.outputs.contains(output));
            }
        },
    }
    let ghost parts = parts + leaves(handle, outputs_not_in(known_outputs(known), to@.outputs));
    assert(views(out@) =~= before + parts);
    push_outputs(handle, &to.outputs, from, true, out);
    let ghost parts = parts + enters(handle, outputs_not_in(to@.outputs, known_outputs(known)));
    assert(views(out@) =~= before + parts);
    let old_parent: Option<usize> = match from {
        Some(state) => state.parent,
        None => None,
    };
    let same_parent: bool = match (old_parent, to.parent) {
        (Some(a), Some(b)) => a == b,
        (None, None) => true,
        _ => false,
    };
    if !same_parent {
        let event = Event::Parent { handle, parent };
        proof {
            lemma_views_push(out@, event);
        }
        out.push(event);
    }
    let ghost parts = parts + parent_change(handle, known, to@, parent);
    assert(views(out@) =~= before + parts);
    let event = Event::Done { handle };
    proof {
        lemma_views_push(out@, event);
    }
    out.push(event);
    assert(views(out@) =~= before + changes(handle, known, to@, parent));
}

/// What a client knows of a toplevel from the events that it was sent.
pub struct Mirror {
    /// The title, if it was told.
    pub title: Option<Seq<char>>,
    /// The id of the application, if it was told.
    pub app_id: Option<Seq<char>>,
    /// The outputs that the toplevel is on.
    pub outputs: Set<u64>,
    /// The handle of the parent, if there is one.
    pub parent: Option<u64>,
}

/// What a client knows that was told nothing.
pub open spec fn blank_mirror() -> Mirror {
    Mirror { title: None, app_id: None, outputs: Set::empty(), parent: None }
}

/// What a client knows after an event, by its handle for the toplevel.
pub open spec fn told(mirror: Mirror, handle: u64, event: EventView) -> Mirror {
    match event {
        EventView::Title(h, title) if h == handle => Mirror { title: Some(title), ..mirror },
        EventView::AppId(h, app_id) if h == handle => Mirror { app_id: Some(app_id), ..mirror },
        EventView::OutputEnter(h, output) if h == handle => Mirror {
            outputs: mirror.outputs.insert(output),
            ..mirror
        },
        EventView::OutputLeave(h, output) if h == handle => Mirror {
            outputs: mirror.outputs.remove(output),
            ..mirror
        },
        EventView::Parent(h, parent) if h == handle => Mirror { parent, ..mirror },
        _ => mirror,
    }
}

/// What a client knows after a list of events.
pub open spec fn told_all(mirror: Mirror, handle: u64, events: Seq<EventView>) -> Mirror
    decreases events.len(),
{
    if events.len() == 0 {
        mirror
    } else {
        told(told_all(mirror, handle, events.drop_last()), handle, events.last())
    }
}

/// A client knows a toplevel as it is, its parent aside. A client that was told nothing knows
/// nothing.
pub open spec fn reflects(mirror: Mirror, state: Option<StateView>) -> bool {
    match state {
        Some(state) => {
            &&& mirror.title == Some(state.title)
            &&& mirror.app_id == Some(state.app_id)
            &&& mirror.outputs == state.outputs.to_set()
        },
        None => mirror == blank_mirror(),
    }
}

pub(crate) proof fn lemma_told_append(mirror: Mirror, handle: u64, a: Seq<EventView>, b: Seq<EventView>)
    ensures
        told_all(mirror, handle, a + b) == told_all(told_all(mirror, handle, a), handle, b),
    decreases b.len(),
{
    if b.len() == 0 {
        assert(a + b =~= a);
    } else {
        assert((a + b).drop_last() =~= a + b.drop_last());
        lemma_told_append(mirror, handle, a, b.drop_last());
    }
}

/// The handle that an event tells something of, if it does.
pub open spec fn about(event: EventView) -> Option<u64> {
    match event {
        EventView::Title(handle, _) => Some(handle),
        EventView::AppId(handle, _) => Some(handle),
        EventView::OutputEnter(handle, _) => Some(handle),
        EventView::OutputLeave(handle, _) => Some(handle),
        EventView::Parent(handle, _) => Some(handle),
        EventView::Done(handle) => Some(handle),
        _ => None,
    }
}

pub(crate) proof fn lemma_told_nothing(mirror: Mirror, handle: u64, events: Seq<EventView>)
    requires
        forall|i: int| 0 <= i < events.len() ==> about(#[trigger] events[i]) != Some(handle),
    ensures
        told_all(mirror, handle, events) == mirror,
    decreases events.len(),
{
    if events.len() > 0 {
        let rest = events.drop_last();
        assert forall|i: int| 0 <= i < rest.len() implies about(#[trigger] rest[i]) != Some(
            handle,
        ) by {
            assert(rest[i] == events[i]);
        }
        lemma_told_nothing(mirror, handle, rest);
        assert(about(events[events.len() - 1]) != Some(handle));
    }
}

proof fn lemma_told_leaves(mirror: Mirror, handle: u64, outputs: Seq<u64>)
    ensures
        told_all(mirror, handle, leaves(handle, outputs)) == (Mirror {
            outputs: mirror.outputs.difference(outputs.to_set()),
            ..mirror
        }),
    decreases outputs.len(),
{
    let events = leaves(handle, outputs);
    if outputs.len() == 0 {
        assert(mirror.outputs.difference(outputs.to_set()) =~= mirror.outputs);
    } else {
        let rest = outputs.drop_last();
        lemma_told_leaves(mirror, handle, rest);
        assert(events.drop_last() =~= leaves(handle, rest));
        assert(outputs =~= rest.push(outputs.last()));
        assert forall|o: u64| outputs.to_set().contains(o) <==> (rest.to_set().contains(o) || o
            == outputs.last()) by {
            if rest.contains(o) {
                let i = choose|i: int| 0 <= i < rest.len() && rest[i] == o;
                assert(outputs[i] == o);
            }
            if o == outputs.last() {
                assert(outputs[outputs.len() - 1] == o);
            }
        }
        assert(mirror.outputs.difference(rest.to_set()).remove(outputs.last())
            =~= mirror.outputs.difference(outputs.to_set()));
    }
}

proof fn lemma_told_enters(mirror: Mirror, handle: u64, outputs: Seq<u64>)
    ensures
        told_all(mirror, handle, enters(handle, outputs)) == (Mirror {
            outputs: mirror.outputs.union(outputs.to_set()),
            ..mirror
        }),
    decreases outputs.len(),
{
    let events = enters(handle, outputs);
    if outputs.len() == 0 {
        assert(mirror.outputs.union(outputs.to_set()) =~= mirror.outputs);
    } else {
        let rest = outputs.drop_last();
        lemma_told_enters(mirror, handle, rest);
        assert(events.drop_last() =~= enters(handle, rest));
        assert(outputs =~= rest.push(outputs.last()));
        assert forall|o: u64| outputs.to_set().contains(o) <==> (rest.to_set().contains(o) || o
            == outputs.last()) by {
            if rest.contains(o) {
                let i = choose|i: int| 0 <= i < rest.len() && rest[i] == o;
                assert(outputs[i] == o);
            }
            if o == outputs.last() {
                assert(outputs[outputs.len() - 1] == o);
            }
        }
        assert(mirror.outputs.union(rest.to_set()).insert(outputs.last())
            =~= mirror.outputs.union(outputs.to_set()));
    }
}

proof fn lemma_told_one(mirror: Mirror, handle: u64, event: EventView)
    ensures
        told_all(mirror, handle, seq![event]) == told(mirror, handle, event),
{
    assert(seq![event].drop_last() =~= Seq::<EventView>::empty());
    assert(told_all(mirror, handle, Seq::<EventView>::empty()) == mirror);
}

/// A client that knows a toplevel as `from` and is told the changes knows it as `to`. It knows the
/// new parent if that changed, and the same one as before otherwise.
pub proof fn changes_reach_the_client(
    mirror: Mirror,
    handle: u64,
    from: Option<StateView>,
    to: StateView,
    parent: Option<u64>,
)
    requires
        reflects(mirror, from),
    ensures
        ({
            let after = told_all(mirror, handle, changes(handle, from, to, parent));
            &&& reflects(after, Some(to))
            &&& after.parent == if to.parent == known_parent(from) {
                mirror.parent
            } else {
                parent
            }
        }),
{
    let left = outputs_not_in(known_outputs(from), to.outputs);
    let entered = outputs_not_in(to.outputs, known_outputs(from));
    let c1 = title_change(handle, from, to);
    let c2 = app_id_change(handle, from, to);
    let c3 = leaves(handle, left);
    let c4 = enters(handle, entered);
    let c5 = parent_change(handle, from, to, parent);
    let c6 = seq![EventView::Done(handle)];
    let m1 = told_all(mirror, handle, c1);
    let m2 = told_all(m1, handle, c2);
    let m3 = told_all(m2, handle, c3);
    let m4 = told_all(m3, handle, c4);
    let m5 = told_all(m4, handle, c5);
    let m6 = told_all(m5, handle, c6);
    lemma_told_append(mirror, handle, c1, c2);
    lemma_told_append(mirror, handle, c1 + c2, c3);
    lemma_told_append(mirror, handle, c1 + c2 + c3, c4);
    lemma_told_append(mirror, handle, c1 + c2 + c3 + c4, c5);
    lemma_told_append(mirror, handle, c1 + c2 + c3 + c4 + c5, c6);
    lemma_told_one(mirror, handle, EventView::Title(handle, to.title));
    lemma_told_one(m1, handle, EventView::AppId(handle, to.app_id));
    lemma_told_leaves(m2, handle, left);
    lemma_told_enters(m3, handle, entered);
    lemma_told_one(m4, handle, EventView::Parent(handle, parent));
    lemma_told_one(m5, handle, EventView::Done(handle));
    assert(m1.title == Some(to.title));
    assert(m2.app_id == Some(to.app_id));
    let known = known_outputs(from);
    assert(mirror.outputs =~= known.to_set()) by {
        if from is None {
            assert(known.to_set() =~= Set::<u64>::empty());
        }
    }
    let gone = |output: u64| !to.outputs.contains(output);
    let new = |output: u64| !known.contains(output);
    assert forall|o: u64| m4.outputs.contains(o) <==> to.outputs.to_set().contains(o) by {
        if known.contains(o) {
            let i = choose|i: int| 0 <= i < known.len() && known[i] == o;
            if gone(o) {
                known.lemma_filter_contains(gone, i);
            }
        }
        if left.contains(o) {
            let i = choose|i: int| 0 <= i < left.len() && left[i] == o;
            known.lemma_filter_pred(gone, i);
        }
        if to.outputs.contains(o) {
            let i = choose|i: int| 0 <= i < to.outputs.len() && to.outputs[i] == o;
            if new(o) {
                to.outputs.lemma_filter_contains(new, i);
            }
        }
        if entered.contains(o) {
            to.outputs.lemma_filter_contains_rev(new, o);
        }
    }
    assert(m4.outputs =~= to.outputs.to_set());
}

} // verus!
