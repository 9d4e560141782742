use vstd::prelude::*;

verus! {

/// The closed, enumerable set of connection-lifecycle notifications the
/// external presence client can emit about its own connection. Mirrors the
/// client library's event set one for one.
#[derive(Clone, Copy, Debug, PartialEq, Eq, Hash, Structural)]
pub enum EventKind {
    /// The client finished its handshake and is ready.
    Ready,
    /// The client connected, or re-connected, to the service.
    Connected,
    /// The client was connected and lost the connection.
    Disconnected,
    /// The client ran into an error; overrides `Ready`.
    Error,
    /// The running activity was joined by another player.
    ActivityJoin,
    /// A spectate request arrived for the running activity.
    ActivitySpectate,
    /// A join request arrived for the running activity.
    ActivityJoinRequest,
}

/// Every known lifecycle event kind, each exactly once, in a fixed order.
/// The startup routine iterates this list to register one callback per kind.
pub fn all_event_kinds() -> (kinds: Vec<EventKind>)
    ensures
        kinds@ =~= seq![
            EventKind::Ready,
            EventKind::Connected,
            EventKind::Disconnected,
            EventKind::Error,
            EventKind::ActivityJoin,
            EventKind::ActivitySpectate,
            EventKind::ActivityJoinRequest,
        ],
        forall|k: EventKind| kinds@.contains(k),
{
    let kinds = vec![
        EventKind::Ready,
        EventKind::Connected,
        EventKind::Disconnected,
        EventKind::Error,
        EventKind::ActivityJoin,
        EventKind::ActivitySpectate,
        EventKind::ActivityJoinRequest,
    ];
    proof {
        assert forall|k: EventKind| kinds@.contains(k) by {
            match k {
                EventKind::Ready => assert(kinds@[0] == k),
                EventKind::Connected => assert(kinds@[1] == k),
                EventKind::Disconnected => assert(kinds@[2] == k),
                EventKind::Error => assert(kinds@[3] == k),
                EventKind::ActivityJoin => assert(kinds@[4] == k),
                EventKind::ActivitySpectate => assert(kinds@[5] == k),
                EventKind::ActivityJoinRequest => assert(kinds@[6] == k),
            }
        }
    }
    kinds
}

} // verus!
