use lankm::capture::hook_verdict;
use lankm::capture::is_keyboard_device;
use lankm::capture::windows_hook_step;
use lankm::capture::HookEvent;
use lankm::capture::HookVerdict;
use lankm::data::Event;
use lankm::data::KeyEvent;
use lankm::data::KeyEventKind;
use lankm::data::Modifiers;
use lankm::mode::coordinator_step;
use lankm::mode::mode_step;
use lankm::mode::release_all_modifiers;
use lankm::mode::Mode;
use lankm::transport::ClientDirective;
use lankm::transport::ClientIo;
use lankm::transport::ClientTransport;
use lankm::transport::ServerDirective;
use lankm::transport::ServerIo;
use lankm::transport::ServerTransport;
use lankm::transport::CONNECT_TIMEOUT_SECS;
use lankm::transport::RETRY_DELAY_SECS;

fn none() -> Modifiers {
    Modifiers { ctrl: false, alt: false, shift: false }
}

fn release(hid: u16) -> KeyEvent {
    KeyEvent { hid, kind: KeyEventKind::Release, mods: none() }
}

fn key(hid: u16) -> Event {
    Event::Key(KeyEvent { hid, kind: KeyEventKind::Press, mods: none() })
}

#[test]
fn hotkey_arms_remote_then_returns_local_with_releases() {
    // First hotkey: Local -> Remote, consumed, nothing synthesized.
    let (mode, handled, forwarded) = mode_step(Mode::Local, Event::Hotkey);
    assert_eq!(mode, Mode::Remote);
    assert!(handled);
    assert!(forwarded.is_empty());

    // Second hotkey: Remote -> Local, consumed, exactly the four
    // modifier-alias releases go to the network peer.
    let (mode, handled, forwarded) = mode_step(mode, Event::Hotkey);
    assert_eq!(mode, Mode::Local);
    assert!(handled);
    assert_eq!(forwarded, vec![release(0xE0), release(0xE4), release(0xE2), release(0xE6)]);
}

#[test]
fn local_key_stays_local() {
    let (mode, handled, forwarded) = mode_step(Mode::Local, key(4));
    assert_eq!(mode, Mode::Local);
    assert!(!handled);
    assert!(forwarded.is_empty());
}

#[test]
fn remote_key_is_forwarded_and_suppressed() {
    let e = KeyEvent { hid: 4, kind: KeyEventKind::Press, mods: none() };
    let (mode, handled, forwarded) = mode_step(Mode::Remote, Event::Key(e));
    assert_eq!(mode, Mode::Remote);
    assert!(handled);
    assert_eq!(forwarded, vec![e]);
}

#[test]
fn release_list_is_the_four_aliases() {
    assert_eq!(
        release_all_modifiers(),
        vec![release(0xE0), release(0xE4), release(0xE2), release(0xE6)]
    );
}

#[test]
fn coordinator_reinjects_local_keys() {
    let e = KeyEvent { hid: 4, kind: KeyEventKind::Press, mods: none() };
    let (mode, inject, forward) = coordinator_step(Mode::Local, Event::Key(e));
    assert_eq!(mode, Mode::Local);
    assert_eq!(inject, vec![e]);
    assert!(forward.is_empty());
}

#[test]
fn coordinator_releases_locally_when_arming_remote() {
    let (mode, inject, forward) = coordinator_step(Mode::Local, Event::Hotkey);
    assert_eq!(mode, Mode::Remote);
    assert_eq!(inject, release_all_modifiers());
    assert!(forward.is_empty());
}

#[test]
fn coordinator_forwards_remote_keys_without_injection() {
    let e = KeyEvent { hid: 4, kind: KeyEventKind::Press, mods: none() };
    let (mode, inject, forward) = coordinator_step(Mode::Remote, Event::Key(e));
    assert_eq!(mode, Mode::Remote);
    assert!(inject.is_empty());
    assert_eq!(forward, vec![e]);
}

#[test]
fn coordinator_disarming_releases_on_peer_only() {
    let (mode, inject, forward) = coordinator_step(Mode::Remote, Event::Hotkey);
    assert_eq!(mode, Mode::Local);
    assert!(inject.is_empty());
    assert_eq!(forward, release_all_modifiers());
}

#[test]
fn server_discards_stale_queue_at_accept() {
    let mut s = ServerTransport::new();
    assert!(!s.connected);
    let d = s.step(ServerIo::Accepted);
    assert_eq!(d, ServerDirective::DiscardQueued);
    assert!(s.connected);
}

#[test]
fn server_transmits_encoded_events_while_connected() {
    let mut s = ServerTransport::new();
    s.step(ServerIo::Accepted);
    let e = KeyEvent { hid: 0x1234, kind: KeyEventKind::Press, mods: none() };
    let d = s.step(ServerIo::Event(e));
    assert_eq!(d, ServerDirective::Transmit(e));
    assert_eq!(e.to_bytes(), [0x34, 0x12, 0, 0]);
    let d = s.step(ServerIo::WriteOk);
    assert_eq!(d, ServerDirective::AwaitEvent);
}

#[test]
fn server_write_failure_reenters_waiting_and_accepts_again() {
    let mut s = ServerTransport::new();
    s.step(ServerIo::Accepted);
    let d = s.step(ServerIo::WriteFailed);
    assert_eq!(d, ServerDirective::AwaitClient);
    assert!(!s.connected);
    // The same process accepts the next client and discards the gap's
    // queue again.
    let d = s.step(ServerIo::Accepted);
    assert_eq!(d, ServerDirective::DiscardQueued);
    assert!(s.connected);
}

#[test]
fn client_retries_after_delay_on_connect_failure() {
    let mut c = ClientTransport::new();
    assert!(!c.connected);
    let d = c.step(ClientIo::ConnectFailed);
    assert_eq!(d, ClientDirective::RetryAfterDelay(RETRY_DELAY_SECS));
    assert!(!c.connected);
    // The process is still in the loop: the next attempt may succeed.
    let d = c.step(ClientIo::ConnectSucceeded);
    assert_eq!(d, ClientDirective::ReadFrame);
    assert!(c.connected);
}

#[test]
fn client_injects_decoded_frames() {
    let mut c = ClientTransport::new();
    c.step(ClientIo::ConnectSucceeded);
    let d = c.step(ClientIo::Frame([0x34, 0x12, 0, 1]));
    assert_eq!(
        d,
        ClientDirective::Inject(KeyEvent {
            hid: 0x1234,
            kind: KeyEventKind::Press,
            mods: Modifiers { ctrl: true, alt: false, shift: false },
        })
    );
    assert!(c.connected);
}

#[test]
fn client_read_failure_restarts_reconnect_loop() {
    let mut c = ClientTransport::new();
    c.step(ClientIo::ConnectSucceeded);
    let d = c.step(ClientIo::ReadFailed);
    assert_eq!(d, ClientDirective::Connect);
    assert!(!c.connected);
}

#[test]
fn client_tears_down_on_undecodable_frame() {
    let mut c = ClientTransport::new();
    c.step(ClientIo::ConnectSucceeded);
    let d = c.step(ClientIo::Frame([0, 0, 9, 0]));
    assert_eq!(d, ClientDirective::Connect);
    assert!(!c.connected);
}

#[test]
fn transport_timing_constants() {
    assert_eq!(CONNECT_TIMEOUT_SECS, 2);
    assert_eq!(RETRY_DELAY_SECS, 1);
}

#[test]
fn keyboard_device_needs_keys_and_repeat() {
    assert!(is_keyboard_device(true, true));
    assert!(!is_keyboard_device(true, false));
    assert!(!is_keyboard_device(false, true));
    assert!(!is_keyboard_device(false, false));
}

#[test]
fn hook_passes_injected_events_untouched() {
    let m = Modifiers { ctrl: true, alt: false, shift: false };
    let (m2, e) = windows_hook_step(m, 0x1D, 0x10, 0x100);
    assert_eq!(e, HookEvent::Injected);
    assert_eq!(m2, m);
}

#[test]
fn hook_rejects_unknown_message_and_scancode() {
    let (m, e) = windows_hook_step(none(), 0x1D, 0, 0x200);
    assert_eq!(e, HookEvent::InvalidMessage);
    assert_eq!(m, none());
    let (m, e) = windows_hook_step(none(), 256, 0, 0x100);
    assert_eq!(e, HookEvent::UnknownKey);
    assert_eq!(m, none());
}

#[test]
fn hook_classifies_through_flag_selected_table() {
    // Left Ctrl down (scancode 0x1D, base table) then right Alt down
    // (0x38 extended is HID 230) then Tab down: the chord arms.
    let (m, e) = windows_hook_step(none(), 0x1D, 0, 0x100);
    assert!(matches!(e, HookEvent::Classified(Event::Key(k)) if k.hid == 224));
    assert!(m.ctrl);
    let (m, e) = windows_hook_step(m, 0x38, 1, 0x104);
    assert!(matches!(e, HookEvent::Classified(Event::Key(k)) if k.hid == 230));
    assert!(m.alt);
    let (_, e) = windows_hook_step(m, 0x0F, 0, 0x100);
    assert_eq!(e, HookEvent::Classified(Event::Hotkey));
}

#[test]
fn hook_release_messages_classify_as_release() {
    let (_, e) = windows_hook_step(none(), 0x1D, 0, 0x101);
    assert!(matches!(
        e,
        HookEvent::Classified(Event::Key(k)) if k.kind == KeyEventKind::Release
    ));
    let (_, e) = windows_hook_step(none(), 0x1D, 0, 0x105);
    assert!(matches!(
        e,
        HookEvent::Classified(Event::Key(k)) if k.kind == KeyEventKind::Release
    ));
}

#[test]
fn hook_verdict_follows_policy() {
    let k = key(4);
    assert_eq!(hook_verdict(k, true), HookVerdict::Consume);
    assert_eq!(hook_verdict(k, false), HookVerdict::Chain);
    assert_eq!(hook_verdict(Event::Hotkey, false), HookVerdict::Chain);
    assert_eq!(hook_verdict(Event::Hotkey, true), HookVerdict::ConsumeReleasingModifiers);
}
