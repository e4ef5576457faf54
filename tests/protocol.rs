use ksway::codec::{decode_header, is_event, HEADER_LEN};
use ksway::command::{exec, raw};
use ksway::criteria::{
    app_id, class, con_id, con_mark, floating, focused, id, instance, shell, tiling, title,
    urgent, window_role, window_type, workspace, OrFocused,
};
use ksway::dispatch::is_no_data;
use ksway::ipc_command;
use ksway::{Command, Dispatcher, Error, IpcCommand, IpcEvent};

fn verify_buffer(buf: &[u8], code: u32, payload: &[u8]) {
    let prefix = b"i3-ipc";
    assert_eq!(&buf[0..prefix.len()], prefix);
    assert_eq!(
        buf[prefix.len()..prefix.len() + 4],
        (payload.len() as u32).to_ne_bytes()
    );
    assert_eq!(buf[prefix.len() + 4..prefix.len() + 8], code.to_ne_bytes());
    assert_eq!(&buf[prefix.len() + 8..], payload);
}

#[test]
fn ipc_command_write() {
    {
        let buffer = ipc_command::run("exec st").encode().unwrap();
        verify_buffer(&buffer, 0, b"exec st");
    }
    {
        let buffer = ipc_command::tick("HELLO WORLD".as_bytes()).encode().unwrap();
        verify_buffer(&buffer, 10, b"HELLO WORLD");
    }
    {
        let buffer = ipc_command::subscribe(vec![IpcEvent::Window, IpcEvent::Tick])
            .encode()
            .unwrap();
        verify_buffer(&buffer, 2, b"[\"window\",\"tick\"]");
    }
}

#[test]
fn criteria_command() {
    assert_eq!(&exec("st").to_string(), "exec st");
    assert_eq!(
        &exec("st").with_criteria(vec![con_id(123.into())]).to_string(),
        r#"[con_id="123"] exec st"#
    );
    assert_eq!(
        &raw("123123")
            .with_criteria(vec![
                con_mark("123".into()),
                con_id(123.into()),
                workspace(focused()),
            ])
            .to_string(),
        r#"[con_mark="123" con_id="123" workspace="__focused__"] 123123"#
    );
}

#[test]
fn raw_command_with_criteria_renders_exactly() {
    let c = raw("exec st").with_criteria(vec![con_id(123.into())]);
    assert_eq!(c.to_string(), r#"[con_id="123"] exec st"#);
}

#[test]
fn header_round_trip_for_every_command_kind() {
    let commands = vec![
        ipc_command::run("focus left"),
        ipc_command::get_bar_config(),
        ipc_command::get_binding_modes(),
        ipc_command::get_config(),
        ipc_command::get_marks(),
        ipc_command::get_outputs(),
        ipc_command::get_tree(),
        ipc_command::get_version(),
        ipc_command::get_workspaces(),
        ipc_command::tick(&[1, 2, 3, 0, 255]),
        ipc_command::subscribe(vec![IpcEvent::Workspace, IpcEvent::Mode]),
    ];
    for c in commands {
        let frame = c.encode().unwrap();
        let (len, code) = decode_header(&frame[0..HEADER_LEN]).unwrap();
        assert_eq!(len as usize, frame.len() - HEADER_LEN);
        assert_eq!(code, c.code());
    }
}

#[test]
fn structural_requests_have_empty_payload_and_their_op_code() {
    let expected: Vec<(IpcCommand, u32)> = vec![
        (ipc_command::get_workspaces(), 1),
        (ipc_command::get_outputs(), 3),
        (ipc_command::get_tree(), 4),
        (ipc_command::get_marks(), 5),
        (ipc_command::get_bar_config(), 6),
        (ipc_command::get_version(), 7),
        (ipc_command::get_binding_modes(), 8),
        (ipc_command::get_config(), 9),
    ];
    for (c, code) in expected {
        let frame = c.encode().unwrap();
        assert_eq!(frame.len(), HEADER_LEN);
        verify_buffer(&frame, code, b"");
    }
}

#[test]
fn tick_frame_has_code_ten_and_eleven_bytes() {
    let frame = ipc_command::tick("HELLO WORLD".as_bytes()).encode().unwrap();
    let (len, code) = decode_header(&frame[0..HEADER_LEN]).unwrap();
    assert_eq!(len, 11);
    assert_eq!(code, 10);
    assert_eq!(&frame[HEADER_LEN..], b"HELLO WORLD");
}

#[test]
fn subscribe_payload_is_json_array_of_names() {
    let frame = ipc_command::subscribe(vec![IpcEvent::Window, IpcEvent::Tick])
        .encode()
        .unwrap();
    assert_eq!(&frame[HEADER_LEN..], b"[\"window\",\"tick\"]");
    let all = ipc_command::subscribe(vec![
        IpcEvent::BarconfigUpdate,
        IpcEvent::BarStatusUpdate,
        IpcEvent::Binding,
        IpcEvent::Shutdown,
    ])
    .encode()
    .unwrap();
    assert_eq!(
        &all[HEADER_LEN..],
        b"[\"barconfig_update\",\"bar_status_update\",\"binding\",\"shutdown\"]"
    );
}

#[test]
fn decode_header_reads_native_fields() {
    let mut h = b"i3-ipc".to_vec();
    h.extend_from_slice(&7u32.to_ne_bytes());
    h.extend_from_slice(&0x8000_0003u32.to_ne_bytes());
    assert_eq!(decode_header(&h).unwrap(), (7, 0x8000_0003));
}

#[test]
fn decode_header_rejects_bad_magic() {
    let mut h = b"i3-ipx".to_vec();
    h.extend_from_slice(&[0u8; 8]);
    assert!(matches!(decode_header(&h), Err(Error::Io(_))));
}

#[test]
fn event_codes_have_bit_31_and_op_codes_do_not() {
    let events = [
        IpcEvent::Workspace,
        IpcEvent::Mode,
        IpcEvent::Window,
        IpcEvent::BarconfigUpdate,
        IpcEvent::Binding,
        IpcEvent::Shutdown,
        IpcEvent::Tick,
        IpcEvent::BarStatusUpdate,
    ];
    for e in events {
        assert!(is_event(e.code()));
        assert_eq!(IpcEvent::from_code(e.code()), Some(e));
    }
    assert_eq!(IpcEvent::Workspace.code(), 0x8000_0000);
    assert_eq!(IpcEvent::BarStatusUpdate.code(), 0x8000_0014);
    for code in 0u32..=10 {
        assert!(!is_event(code));
    }
    assert_eq!(IpcEvent::from_code(0x8000_0001), None);
    assert_eq!(ipc_command::run("x").code(), 0);
    assert_eq!(ipc_command::tick(b"").code(), 10);
    assert_eq!(ipc_command::subscribe(vec![]).code(), 2);
}

#[test]
fn with_criteria_twice_equals_once_with_both_lists() {
    let twice = exec("st")
        .with_criteria(vec![floating(), title("a".to_string().into())])
        .with_criteria(vec![id(42), tiling()]);
    let once = exec("st").with_criteria(vec![
        floating(),
        title("a".to_string().into()),
        id(42),
        tiling(),
    ]);
    assert_eq!(twice.to_string(), once.to_string());
    assert_eq!(
        twice.to_string(),
        r#"[floating title="a" id="42" tiling] exec st"#
    );
    match twice {
        Command::WithCriteria(cc) => {
            assert_eq!(cc.criteria.len(), 4);
            assert!(matches!(*cc.command, Command::Exec(_)));
        }
        _ => panic!("expected one criteria node"),
    }
}

#[test]
fn empty_criteria_render_the_inner_command() {
    assert_eq!(raw("nop").with_criteria(vec![]).to_string(), "nop");
}

#[test]
fn every_criteria_kind_renders() {
    let c = raw("kill").with_criteria(vec![
        app_id("firefox".to_string().into()),
        class(focused()),
        instance(Some("i".to_string()).into()),
        shell(None::<String>.into()),
        urgent("latest".to_string()),
        window_role("pop-up".to_string().into()),
        window_type("dialog".to_string()),
        con_id(OrFocused::Focused),
        id(0),
        con_id(18446744073709551615u64.into()),
    ]);
    assert_eq!(
        c.to_string(),
        "[app_id=\"firefox\" class=\"__focused__\" instance=\"i\" shell=\"__focused__\" \
         urgent=\"latest\" window_role=\"pop-up\" window_type=\"dialog\" con_id=\"__focused__\" \
         id=\"0\" con_id=\"18446744073709551615\"] kill"
    );
}

#[test]
fn or_focused_map_keeps_the_sentinel() {
    let v: OrFocused<u64> = OrFocused::Value(5);
    assert!(matches!(v.map(|x| x + 1), OrFocused::Value(6)));
    let f: OrFocused<u64> = focused();
    assert!(matches!(f.map(|x| x + 1), OrFocused::Focused));
}

#[test]
fn second_subscribe_is_refused_and_first_queue_kept() {
    let mut d = Dispatcher::new();
    assert!(!d.is_subscribed());
    let rx = d.subscribe().unwrap();
    assert!(matches!(d.subscribe(), Err(Error::AlreadySubscribed)));
    assert!(d.is_subscribed());
    d.accept_polled(0x8000_0007, b"t".to_vec()).unwrap();
    let (event, payload) = rx.try_recv().unwrap();
    assert_eq!(event, IpcEvent::Tick);
    assert_eq!(payload, b"t".to_vec());
}

#[test]
fn events_before_reply_reach_the_queue_in_order() {
    let mut d = Dispatcher::new();
    let rx = d.subscribe().unwrap();
    assert!(d.accept_awaited(0x8000_0003, b"w1".to_vec()).unwrap().is_none());
    assert!(d.accept_awaited(0x8000_0000, b"ws".to_vec()).unwrap().is_none());
    assert!(d.accept_awaited(0x8000_0003, b"w2".to_vec()).unwrap().is_none());
    let reply = d.accept_awaited(0, b"[{\"success\":true}]".to_vec()).unwrap();
    assert_eq!(reply, Some(b"[{\"success\":true}]".to_vec()));
    let got: Vec<(IpcEvent, Vec<u8>)> = rx.try_iter().collect();
    assert_eq!(
        got,
        vec![
            (IpcEvent::Window, b"w1".to_vec()),
            (IpcEvent::Workspace, b"ws".to_vec()),
            (IpcEvent::Window, b"w2".to_vec()),
        ]
    );
}

#[test]
fn event_without_subscription_is_an_error() {
    let mut d = Dispatcher::new();
    assert!(matches!(
        d.accept_awaited(0x8000_0003, vec![]),
        Err(Error::SubscriptionError)
    ));
    assert!(matches!(
        d.accept_polled(0x8000_0003, vec![]),
        Err(Error::SubscriptionError)
    ));
}

#[test]
fn unknown_event_code_is_an_error() {
    let mut d = Dispatcher::new();
    let _rx = d.subscribe().unwrap();
    assert!(matches!(
        d.accept_awaited(0x8000_0001, vec![]),
        Err(Error::SubscriptionError)
    ));
}

#[test]
fn dropped_receiver_is_a_subscription_error() {
    let mut d = Dispatcher::new();
    let rx = d.subscribe().unwrap();
    drop(rx);
    assert!(matches!(
        d.accept_polled(0x8000_0005, vec![1]),
        Err(Error::SubscriptionError)
    ));
}

#[test]
fn unsolicited_reply_while_polling_is_a_protocol_error() {
    let mut d = Dispatcher::new();
    let _rx = d.subscribe().unwrap();
    assert!(matches!(d.accept_polled(4, vec![]), Err(Error::Io(_))));
}

#[test]
fn reply_needs_no_subscription() {
    let mut d = Dispatcher::new();
    assert_eq!(d.accept_awaited(7, b"v".to_vec()).unwrap(), Some(b"v".to_vec()));
}

#[test]
fn only_eagain_counts_as_no_data() {
    assert!(is_no_data(Some(11)));
    assert!(!is_no_data(Some(4)));
    assert!(!is_no_data(None));
}
