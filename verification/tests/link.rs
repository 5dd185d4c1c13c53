use wifi_tank::link::{
    LinkAction, LinkEvent, LinkPhase, NetworkLink, ASSOC_ATTEMPT_LIMIT, ASSOC_RETRY_DELAY_MS,
};

#[test]
fn new_link_is_idle() {
    let l = NetworkLink::new();
    assert_eq!(l.phase, LinkPhase::Idle);
}

#[test]
fn starting_schedules_the_first_attempt_after_the_fixed_delay() {
    let mut l = NetworkLink::new();
    let a = l.step(LinkEvent::Started);
    assert_eq!(l.phase, LinkPhase::Associating { attempts: 0 });
    assert_eq!(a, LinkAction::ConnectAfter { delay_ms: ASSOC_RETRY_DELAY_MS });
}

#[test]
fn twenty_failures_make_exactly_twenty_attempts_then_proceed() {
    let mut l = NetworkLink::new();
    let mut scheduled_attempts: u32 = 0;

    let a = l.step(LinkEvent::Started);
    assert_eq!(a, LinkAction::ConnectAfter { delay_ms: 1000 });
    scheduled_attempts += 1;

    loop {
        let a = l.step(LinkEvent::ConnectResult { ok: false });
        match a {
            LinkAction::ConnectAfter { delay_ms } => {
                // Every retry is separated by the same fixed delay.
                assert_eq!(delay_ms, 1000);
                scheduled_attempts += 1;
            }
            LinkAction::AwaitLease => break,
            other => panic!("unexpected action {:?}", other),
        }
    }

    // Exactly the budgeted number of attempts was scheduled, and the
    // machine proceeded to the address-pending phase regardless.
    assert_eq!(scheduled_attempts, ASSOC_ATTEMPT_LIMIT);
    assert_eq!(l.phase, LinkPhase::AddressPending);
}

#[test]
fn success_after_some_failures_moves_to_address_pending() {
    let mut l = NetworkLink::new();
    l.step(LinkEvent::Started);
    l.step(LinkEvent::ConnectResult { ok: false });
    l.step(LinkEvent::ConnectResult { ok: false });
    assert_eq!(l.phase, LinkPhase::Associating { attempts: 2 });
    let a = l.step(LinkEvent::ConnectResult { ok: true });
    assert_eq!(a, LinkAction::AwaitLease);
    assert_eq!(l.phase, LinkPhase::AddressPending);
}

#[test]
fn lease_with_an_address_makes_the_link_ready() {
    let mut l = NetworkLink::new();
    l.step(LinkEvent::Started);
    l.step(LinkEvent::ConnectResult { ok: true });
    let a = l.step(LinkEvent::LeaseResult { addr: Some(0xC0A80142) });
    assert_eq!(a, LinkAction::Listen);
    assert_eq!(l.phase, LinkPhase::Ready { addr: 0xC0A80142 });
}

#[test]
fn lease_without_an_address_is_fatal() {
    let mut l = NetworkLink::new();
    l.step(LinkEvent::Started);
    l.step(LinkEvent::ConnectResult { ok: true });
    let a = l.step(LinkEvent::LeaseResult { addr: None });
    assert_eq!(a, LinkAction::Halt);
    assert_eq!(l.phase, LinkPhase::Fatal);
}

#[test]
fn events_from_the_wrong_phase_are_ignored() {
    let mut l = NetworkLink::new();
    let a = l.step(LinkEvent::ConnectResult { ok: true });
    assert_eq!(a, LinkAction::Ignore);
    assert_eq!(l.phase, LinkPhase::Idle);

    l.step(LinkEvent::Started);
    let a = l.step(LinkEvent::Started);
    assert_eq!(a, LinkAction::Ignore);
    assert_eq!(l.phase, LinkPhase::Associating { attempts: 0 });

    l.step(LinkEvent::ConnectResult { ok: true });
    l.step(LinkEvent::LeaseResult { addr: Some(7) });
    let ready = l.phase;
    let a = l.step(LinkEvent::ConnectResult { ok: false });
    assert_eq!(a, LinkAction::Ignore);
    assert_eq!(l.phase, ready);
}

fn rank(p: &LinkPhase) -> u32 {
    match p {
        LinkPhase::Idle => 0,
        LinkPhase::Associating { .. } => 1,
        LinkPhase::AddressPending => 2,
        LinkPhase::Ready { .. } => 3,
        LinkPhase::Fatal => 3,
    }
}

#[test]
fn the_link_never_moves_backward() {
    let events = [
        LinkEvent::Started,
        LinkEvent::ConnectResult { ok: false },
        LinkEvent::Started,
        LinkEvent::ConnectResult { ok: true },
        LinkEvent::ConnectResult { ok: false },
        LinkEvent::LeaseResult { addr: Some(1) },
        LinkEvent::LeaseResult { addr: None },
    ];
    let mut l = NetworkLink::new();
    let mut prev = rank(&l.phase);
    for ev in events {
        l.step(ev);
        let cur = rank(&l.phase);
        assert!(cur >= prev);
        prev = cur;
    }
}
