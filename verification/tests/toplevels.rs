use std::collections::BTreeSet;

use smithay::utils::double_buffer::DoubleBuffered;
use smithay::wayland::foreign_toplevel::state::{Event, ToplevelStateSet};
use smithay::wayland::foreign_toplevel::{
    DeadResource, ForeignToplevelClient, ForeignToplevelInfo, InfoReply, InfoRequest,
    ToplevelEntry, ToplevelHandle,
};

/// What a client knows of a toplevel from the events for its handle.
#[derive(Debug, Default, PartialEq)]
struct Mirror {
    title: Option<String>,
    app_id: Option<String>,
    outputs: BTreeSet<u64>,
    parent: Option<u64>,
    done: u32,
}

impl Mirror {
    fn tell(&mut self, mine: u64, events: &[Event]) {
        for event in events {
            match event {
                Event::Title { handle, title } if *handle == mine => {
                    self.title = Some(title.clone());
                }
                Event::AppId { handle, app_id } if *handle == mine => {
                    self.app_id = Some(app_id.clone());
                }
                Event::OutputEnter { handle, output } if *handle == mine => {
                    self.outputs.insert(*output);
                }
                Event::OutputLeave { handle, output } if *handle == mine => {
                    self.outputs.remove(output);
                }
                Event::Parent { handle, parent } if *handle == mine => self.parent = *parent,
                Event::Done { handle } if *handle == mine => self.done += 1,
                _ => {}
            }
        }
    }
}

fn announced(events: &[Event]) -> Vec<(u64, u64)> {
    events
        .iter()
        .filter_map(|event| match event {
            Event::Toplevel { info, handle } => Some((*info, *handle)),
            _ => None,
        })
        .collect()
}

fn set_title(info: &mut ForeignToplevelInfo, toplevel: ToplevelHandle, title: &str) {
    toplevel.pending_state(info).title = title.to_string();
}

#[test]
fn toplevels_are_announced_to_clients() {
    let mut info = ForeignToplevelInfo::new(99);
    assert_eq!(info.global(), 99);
    info.bind(1, 101);
    info.bind(2, 102);
    let (first, events) = info.create_handle();
    assert_eq!(announced(&events), vec![(101, 0), (102, 1)]);
    assert_eq!(first.handle_for_client(&info, 2), Ok(1));
    assert_eq!(first.handle_for_client(&info, 3), Err(DeadResource));
    info.bind(3, 103);
    let events = info.advertise(103);
    assert_eq!(announced(&events), vec![(103, 2)]);
    // Nothing was sent of the toplevel yet.
    assert_eq!(events.len(), 1);
    assert_eq!(first.handle_for_client(&info, 3), Ok(2));
    assert_eq!(info.get_client(3).unwrap().object, 103);
    assert_eq!(info.get_client(3).unwrap().info(), 103);
    assert!(info.get_client(4).is_none());
}

#[test]
fn changes_reach_every_client() {
    let mut info = ForeignToplevelInfo::new(0);
    info.bind(1, 101);
    let (parent, _) = info.create_handle();
    let (child, _) = info.create_handle();
    let mut mirror = Mirror::default();
    set_title(&mut info, child, "one");
    child.pending_state(&mut info).outputs = vec![5, 6];
    mirror.tell(1, &child.send_state(&mut info));
    assert_eq!(mirror.title.as_deref(), Some("one"));
    assert_eq!(mirror.app_id.as_deref(), Some(""));
    assert_eq!(mirror.outputs, BTreeSet::from([5, 6]));
    assert_eq!((mirror.parent, mirror.done), (None, 1));
    child.pending_state(&mut info).outputs = vec![6, 7];
    child.pending_state(&mut info).parent = Some(parent.index);
    child.pending_state(&mut info).app_id = "app".to_string();
    let events = child.send_state(&mut info);
    assert!(!events.iter().any(|event| matches!(event, Event::Title { .. })));
    mirror.tell(1, &events);
    assert_eq!(mirror.outputs, BTreeSet::from([6, 7]));
    assert_eq!(mirror.parent, Some(0));
    assert_eq!(mirror.app_id.as_deref(), Some("app"));
    // A client that comes later knows the same.
    info.bind(2, 102);
    let events = info.advertise(102);
    assert_eq!(announced(&events), vec![(102, 2), (102, 3)]);
    let mut other = Mirror::default();
    other.tell(3, &events);
    assert_eq!(other.title.as_deref(), Some("one"));
    assert_eq!(other.outputs, BTreeSet::from([6, 7]));
    assert_eq!((other.parent, other.done), (Some(2), 1));
    // Nothing changed, so there is only the end.
    let events = child.send_state(&mut info);
    assert!(matches!(events[..], [Event::Done { handle: 1 }, Event::Done { handle: 3 }]));
}

#[test]
fn parent_is_gone_with_its_client() {
    let mut info = ForeignToplevelInfo::new(0);
    info.bind(1, 101);
    let (parent, _) = info.create_handle();
    let (child, _) = info.create_handle();
    child.send_state(&mut info);
    child.pending_state(&mut info).parent = Some(parent.index);
    info.client_disconnected(1);
    let events = child.send_state(&mut info);
    assert!(matches!(
        events[..],
        [Event::Parent { handle: 1, parent: None }, Event::Done { handle: 1 }]
    ));
    assert_eq!(parent.handle_for_client(&info, 1), Err(DeadResource));
}

#[test]
fn finished_client_gets_no_handle() {
    let mut toplevel = ToplevelEntry {
        listed: true,
        handles: Vec::new(),
        state: DoubleBuffered::new(),
        initialized: false,
    };
    let mut client = ForeignToplevelClient { client: 1, object: 101, stop: false };
    let event = toplevel.create_for_client(&client, u64::MAX);
    assert!(matches!(event, Some(Event::Toplevel { info: 101, handle: u64::MAX })));
    assert_eq!(toplevel.handles.len(), 1);
    assert_eq!((toplevel.handles[0].info, toplevel.handles[0].client), (101, Some(1)));
    assert!(client.finish().is_some());
    assert!(toplevel.create_for_client(&client, 7).is_none());
    assert_eq!(toplevel.handles.len(), 1);
}

#[test]
fn finished_clients_are_announced_nothing() {
    let mut info = ForeignToplevelInfo::new(0);
    info.bind(1, 101);
    info.bind(2, 102);
    assert!(matches!(info.finish(101), Some(Event::Finished { info: 101 })));
    assert!(info.finish(101).is_none());
    assert!(info.finish(777).is_none());
    assert_eq!(info.request(102, &InfoRequest::Stop), InfoReply::Accepted);
    let (_, events) = info.create_handle();
    assert!(events.is_empty());
    assert!(info.advertise(101).is_empty());
    assert!(info.finish(102).is_none());
}

#[test]
fn destroying_too_early_is_an_error() {
    let mut info = ForeignToplevelInfo::new(0);
    info.bind(1, 101);
    let (toplevel, _) = info.create_handle();
    assert_eq!(info.request(101, &InfoRequest::Destroy), InfoReply::DefunctToplevels);
    let events = info.destroy_handle(&toplevel);
    assert!(matches!(events[..], [Event::Closed { handle: 0 }]));
    assert_eq!(info.request(101, &InfoRequest::Destroy), InfoReply::DefunctToplevels);
    assert_eq!(ToplevelHandle::from_handle(&info, 0), Ok(toplevel));
    assert!(info.destroy_client_handle(0));
    assert!(!info.destroy_client_handle(0));
    assert_eq!(ToplevelHandle::from_handle(&info, 0), Err(DeadResource));
    assert_eq!(info.request(101, &InfoRequest::Destroy), InfoReply::Accepted);
    assert_eq!(info.destroyed(101).unwrap().client, 1);
    assert!(info.destroyed(101).is_none());
    assert!(info.get_client(1).is_none());
    // A toplevel that was destroyed is not announced any more.
    info.bind(2, 102);
    assert!(info.advertise(102).is_empty());
}

#[test]
fn state_sets() {
    let mut states = ToplevelStateSet::default();
    assert!(!states.contains(2));
    assert!(states.set(2));
    assert!(!states.set(2));
    assert!(states.set(0x0102_0304));
    assert!(states.contains(2));
    assert_eq!(states.raw(), vec![2, 0, 0, 0, 4, 3, 2, 1]);
    assert!(states.unset(2));
    assert!(!states.unset(2));
    assert!(!states.contains(2));
    assert_eq!(states.raw(), vec![4, 3, 2, 1]);
    let mut more = ToplevelStateSet::default();
    more.set(0x0102_0304);
    more.set(7);
    assert!(states == more);
    assert!(more != states);
}
