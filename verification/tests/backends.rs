use kanata_ime_observer::fcitx::{
    classify_failure, find_fcitx_item, split_item_name, BusError, BusFailure, FcitxImeReceiver,
    FcitxImeReceiverConfig,
};
use kanata_ime_observer::ibus::{
    bus_address, engine_changed, IbusImeReceiver, IbusImeReceiverConfig,
};
use kanata_ime_observer::mac::{
    input_source, runs_another_slice, MacImeReceiver, MacImeReceiverConfig,
};
use kanata_ime_observer::win::{
    initialize_locale_map, lang_id, locale_name_len, WindowsImeReceiver, WindowsImeReceiverConfig,
};
use kanata_ime_observer::win_onoff::{
    get_window_ime_status, ime_status, win_main_loop_stopped, OpenStatusQuery, QueryStep,
    WindowsImeOnOffReceiver, WindowsImeOnOffReceiverConfig,
};
use kanata_ime_observer::worker::{keeps_working, WorkerAction};
use kanata_ime_observer::{fcitx, ibus, win, win_onoff, AppError, Message};

#[test]
fn receive_reports_changes_only() {
    let mut receiver = IbusImeReceiver::new(&IbusImeReceiverConfig::default());
    assert_eq!(receiver.receive(Some("mozc-jp".to_string())), Ok(Some("mozc-jp".to_string())));
    assert_eq!(receiver.receive(Some("mozc-jp".to_string())), Ok(None));
    assert_eq!(
        receiver.receive(Some("xkb:us::eng".to_string())),
        Ok(Some("xkb:us::eng".to_string()))
    );
}

#[test]
fn closed_inner_channel_names_the_receiver() {
    let mut ibus = IbusImeReceiver::new(&IbusImeReceiverConfig::default());
    assert_eq!(
        ibus.receive(None),
        Err(AppError::InnerReceiverError {
            receiver_name: "IbusImeReceiver inner receiver".to_string()
        })
    );
    let mut fcitx = FcitxImeReceiver::new(&FcitxImeReceiverConfig::default());
    assert_eq!(
        fcitx.receive(None),
        Err(AppError::InnerReceiverError {
            receiver_name: "FcitxImeReceiver inner receiver".to_string()
        })
    );
    let mut mac = MacImeReceiver::new(&MacImeReceiverConfig::default());
    assert_eq!(
        mac.receive(None),
        Err(AppError::InnerReceiverError {
            receiver_name: "MacImeReceiver inner receiver".to_string()
        })
    );
    let mut win = WindowsImeReceiver::new(&WindowsImeReceiverConfig::default());
    assert_eq!(
        win.receive(None),
        Err(AppError::InnerReceiverError {
            receiver_name: "WindowsReceiver inner receiver".to_string()
        })
    );
    let mut onoff = WindowsImeOnOffReceiver::new(&WindowsImeOnOffReceiverConfig::default());
    assert_eq!(
        onoff.receive(None),
        Err(AppError::InnerReceiverError {
            receiver_name: "WindowsImeOnOffReceiver inner receiver".to_string()
        })
    );
    // A closed channel does not disturb what was reported last.
    assert_eq!(ibus.receive(Some("a".to_string())), Ok(Some("a".to_string())));
    assert!(ibus.receive(None).is_err());
    assert_eq!(ibus.receive(Some("a".to_string())), Ok(None));
}

#[test]
fn shutdown_publishes_a_synthetic_fatal() {
    let expected = AppError::CustomError("Receiver shutdown.".to_string());
    assert_eq!(IbusImeReceiver::new(&IbusImeReceiverConfig::default()).shutdown(), expected);
    assert_eq!(FcitxImeReceiver::new(&FcitxImeReceiverConfig::default()).shutdown(), expected);
    assert_eq!(MacImeReceiver::new(&MacImeReceiverConfig::default()).shutdown(), expected);
    assert_eq!(WindowsImeReceiver::new(&WindowsImeReceiverConfig::default()).shutdown(), expected);
    assert_eq!(
        WindowsImeOnOffReceiver::new(&WindowsImeOnOffReceiverConfig::default()).shutdown(),
        expected
    );
}

#[test]
fn default_settings() {
    let win = WindowsImeReceiverConfig::default();
    assert_eq!((win.delay, win.polling_span), (50, Some(500)));
    let onoff = WindowsImeOnOffReceiverConfig::default();
    assert_eq!(onoff.retry_number, 3);
    assert_eq!(onoff.send_message_timeout, 100);
    assert_eq!(onoff.retry_span, 100);
    assert_eq!(onoff.delay, 50);
    assert_eq!(onoff.polling_span, Some(1000));
    assert_eq!(MacImeReceiverConfig::default().delay, 50);
    let receiver = WindowsImeOnOffReceiver::new(&onoff);
    assert_eq!(receiver.delay(), 50);
    assert_eq!(receiver.polling_span(), Some(1000));
    assert_eq!(receiver.send_message_timeout(), 100);
    assert_eq!(WindowsImeReceiver::new(&win).delay(), 50);
    assert_eq!(WindowsImeReceiver::new(&win).polling_span(), Some(500));
    assert_eq!(MacImeReceiver::new(&MacImeReceiverConfig { delay: 7 }).delay(), 7);
}

#[test]
fn ibus_worker_forwards_embedded_status() {
    assert_eq!(
        ibus::worker_step(Message::ImeStatus("mozc-jp".to_string())),
        WorkerAction::Forward("mozc-jp".to_string())
    );
    assert_eq!(ibus::worker_step(Message::CaughtFatalError), WorkerAction::Ignore);
    assert_eq!(ibus::worker_step(Message::GetImeStatus), WorkerAction::Ignore);
    assert!(keeps_working(true, false));
    assert!(!keeps_working(true, true));
    assert!(!keeps_working(false, false));
}

#[test]
fn ibus_address_is_trimmed() {
    assert_eq!(
        bus_address(b"unix:path=/run/user/1000/ibus,guid=abc\n".to_vec()),
        Ok("unix:path=/run/user/1000/ibus,guid=abc".to_string())
    );
    assert_eq!(bus_address(b"  addr \t\r\n\n".to_vec()), Ok("  addr".to_string()));
    assert_eq!(bus_address("addr\u{3000}\u{a0}".as_bytes().to_vec()), Ok("addr".to_string()));
    assert_eq!(bus_address(Vec::new()), Ok(String::new()));
    assert_eq!(
        bus_address(vec![0x61, 0xff, 0x0a]),
        Err(AppError::CustomError("Cannot get 'ibus address'".to_string()))
    );
}

#[test]
fn ibus_signal_payload() {
    assert_eq!(
        engine_changed(Some("anthy".to_string())),
        Ok(Message::ImeStatus("anthy".to_string()))
    );
    assert_eq!(
        engine_changed(None),
        Err(AppError::DbusParseError("Couldn't read GlobalEngineChanged.".to_string()))
    );
    assert_eq!(
        kanata_ime_observer::ibus::dbus_main_loop_stopped(),
        AppError::CaughtFatalError { location: "dbus_main_loop".to_string() }
    );
}

#[test]
fn fcitx_item_names() {
    assert_eq!(
        split_item_name(":1.42@/StatusNotifierItem"),
        Ok((":1.42".to_string(), "/StatusNotifierItem".to_string()))
    );
    assert_eq!(split_item_name("a@b@c"), Ok(("a".to_string(), "b".to_string())));
    assert_eq!(split_item_name("@"), Ok((String::new(), String::new())));
    assert_eq!(split_item_name("名@パス"), Ok(("名".to_string(), "パス".to_string())));
    let invalid = AppError::DbusParseError("Invalid StatusNotifierItem name".to_string());
    assert_eq!(split_item_name("no-at-sign"), Err(invalid.clone()));
    assert_eq!(split_item_name(""), Err(invalid));
}

#[test]
fn fcitx_item_is_the_last_match() {
    let ids = vec!["nm-applet".to_string(), "Fcitx".to_string(), "x".to_string(), "Fcitx".to_string()];
    assert_eq!(find_fcitx_item(&ids), Ok(3));
    let one = vec!["Fcitx".to_string(), "fcitx".to_string()];
    assert_eq!(find_fcitx_item(&one), Ok(0));
    let none = vec!["fcitx".to_string()];
    let missing = AppError::DbusError("Couldn't find fcitx5 StatusNotifierItem".to_string());
    assert_eq!(find_fcitx_item(&none), Err(missing.clone()));
    assert_eq!(find_fcitx_item(&Vec::new()), Err(missing));
}

#[test]
fn fcitx_worker_escalates_critical_failures() {
    assert_eq!(
        fcitx::worker_step(Ok("mozc".to_string())),
        WorkerAction::Forward("mozc".to_string())
    );
    for failure in [BusFailure::Io, BusFailure::Method, BusFailure::InvalidGuid] {
        let error = AppError::DbusError("x:y".to_string());
        assert_eq!(
            fcitx::worker_step(Err(BusError { failure, error: error.clone() })),
            WorkerAction::Escalate(error)
        );
    }
}

#[test]
fn fcitx_worker_logs_transient_failures() {
    let error = AppError::DbusError("org.freedesktop.DBus.Error.NoReply:timeout".to_string());
    assert_eq!(
        fcitx::worker_step(Err(BusError { failure: BusFailure::Transient, error })),
        WorkerAction::Log("DbusError: org.freedesktop.DBus.Error.NoReply:timeout".to_string())
    );
    // The worker serves the next wakeup as before.
    assert_eq!(fcitx::worker_step(Ok("anthy".to_string())), WorkerAction::Forward("anthy".to_string()));
}

#[test]
fn bus_failures_by_name() {
    let named = |name: &str| classify_failure(&Some(name.to_string()));
    assert_eq!(named("org.freedesktop.DBus.Error.IOError"), BusFailure::Io);
    assert_eq!(named("org.freedesktop.DBus.Error.UnknownMethod"), BusFailure::Method);
    assert_eq!(named("org.freedesktop.DBus.Error.BadAddress"), BusFailure::InvalidGuid);
    assert_eq!(named("org.freedesktop.DBus.Error.NoReply"), BusFailure::Transient);
    assert_eq!(named("org.freedesktop.DBus.Error.ServiceUnknown"), BusFailure::Transient);
    assert_eq!(named(""), BusFailure::Transient);
    assert_eq!(classify_failure(&None), BusFailure::Transient);
}

#[test]
fn tolerant_workers_log_failures() {
    let err = AppError::WinApiError("Unknown lang_id".to_string());
    assert_eq!(
        kanata_ime_observer::win::worker_step(Err(err.clone())),
        WorkerAction::Log("WinApiError: Unknown lang_id".to_string())
    );
    assert_eq!(
        kanata_ime_observer::win_onoff::worker_step(Ok("ime-on".to_string())),
        WorkerAction::Forward("ime-on".to_string())
    );
    assert_eq!(
        kanata_ime_observer::mac::worker_step(Err(AppError::MacApiError("x".to_string()))),
        WorkerAction::Log("MacApiError: x".to_string())
    );
}

#[test]
fn mac_input_source() {
    assert_eq!(
        input_source(Some("com.apple.keylayout.US".to_string())),
        Ok("com.apple.keylayout.US".to_string())
    );
    assert_eq!(
        input_source(None),
        Err(AppError::MacApiError("Internal bug. Type miss match.".to_string()))
    );
    assert!(runs_another_slice(false, false));
    assert!(!runs_another_slice(true, false));
    assert!(!runs_another_slice(false, true));
    assert_eq!(
        kanata_ime_observer::mac::mac_main_loop_stopped(),
        AppError::CustomError("mac_main_loop: Caught the fatal error.".to_string())
    );
}

#[test]
fn windows_modifier_release_wake() {
    let release = win::RawKey { device_type: win::RIM_TYPEKEYBOARD, message: win::WM_KEYUP, vkey: win::VK_LCONTROL };
    assert_eq!(win::wndproc(win::WM_INPUT, Some(release)), win::WindowAction::Wake);
    for vkey in [win::VK_CONTROL, win::VK_LCONTROL, win::VK_RCONTROL, win::VK_LWIN, win::VK_RWIN] {
        let key = win::RawKey { device_type: win::RIM_TYPEKEYBOARD, message: win::WM_KEYUP, vkey };
        assert_eq!(win::wndproc(win::WM_INPUT, Some(key)), win::WindowAction::Wake);
    }
    let press = win::RawKey { device_type: win::RIM_TYPEKEYBOARD, message: 256, vkey: win::VK_LCONTROL };
    assert_eq!(win::wndproc(win::WM_INPUT, Some(press)), win::WindowAction::Handled);
    let letter = win::RawKey { device_type: win::RIM_TYPEKEYBOARD, message: win::WM_KEYUP, vkey: 65 };
    assert_eq!(win::wndproc(win::WM_INPUT, Some(letter)), win::WindowAction::Handled);
    let mouse = win::RawKey { device_type: 0, message: win::WM_KEYUP, vkey: win::VK_LCONTROL };
    assert_eq!(win::wndproc(win::WM_INPUT, Some(mouse)), win::WindowAction::Handled);
    assert_eq!(win::wndproc(win::WM_INPUT, None), win::WindowAction::Handled);
    assert_eq!(win::wndproc(win::WM_DESTROY, None), win::WindowAction::Quit);
    assert_eq!(win::wndproc(1, Some(release)), win::WindowAction::Default);
    assert!(win::win_event_proc(win::EVENT_SYSTEM_FOREGROUND));
    assert!(!win::win_event_proc(4));

    // The wake is one wakeup in the channel, however often it is sent.
    let (mut wakeup, mut queue) = kanata_ime_observer::initialize_app();
    if win::wndproc(win::WM_INPUT, Some(release)) == win::WindowAction::Wake {
        let tripwire = kanata_ime_observer::FatalError::new();
        kanata_ime_observer::send_message(&mut wakeup, Message::GetImeStatus, &mut queue, &tripwire);
        kanata_ime_observer::send_message(&mut wakeup, Message::GetImeStatus, &mut queue, &tripwire);
    }
    assert_eq!(
        wakeup.try_recv(),
        kanata_ime_observer::channel::TryRecv::Value(Message::GetImeStatus)
    );
    assert_eq!(wakeup.try_recv(), kanata_ime_observer::channel::TryRecv::Empty);
}

#[test]
fn windows_onoff_key_wake() {
    for vkey in [win_onoff::VK_JP_IME_ON, win_onoff::VK_JP_IME_OFF, win_onoff::VK_JP_EISU, win_onoff::VK_IME_ON, win_onoff::VK_IME_OFF, win_onoff::VK_HANGUL] {
        let key = win_onoff::RawKey { device_type: win_onoff::RIM_TYPEKEYBOARD, message: win_onoff::WM_KEYDOWN, vkey };
        assert_eq!(win_onoff::wndproc(win_onoff::WM_INPUT, Some(key)), win_onoff::WindowAction::Wake);
        let up = win_onoff::RawKey { device_type: win_onoff::RIM_TYPEKEYBOARD, message: 257, vkey };
        assert_eq!(win_onoff::wndproc(win_onoff::WM_INPUT, Some(up)), win_onoff::WindowAction::Handled);
    }
    let control = win_onoff::RawKey { device_type: win_onoff::RIM_TYPEKEYBOARD, message: win_onoff::WM_KEYDOWN, vkey: 17 };
    assert_eq!(win_onoff::wndproc(win_onoff::WM_INPUT, Some(control)), win_onoff::WindowAction::Handled);
    assert_eq!(win_onoff::wndproc(win_onoff::WM_DESTROY, None), win_onoff::WindowAction::Quit);
    assert_eq!(win_onoff::wndproc(0, None), win_onoff::WindowAction::Default);
    assert_eq!((win_onoff::VK_JP_IME_ON, win_onoff::VK_JP_IME_OFF, win_onoff::VK_JP_EISU), (244, 243, 240));
}

#[test]
fn language_identifier_is_low_word() {
    assert_eq!(lang_id(0x0411_0411), 0x0411);
    assert_eq!(lang_id(0xE001_0409), 0x0409);
    assert_eq!(lang_id(0xFFFF), 0xFFFF);
    assert_eq!(lang_id(0x1_0000), 0);
    assert_eq!(locale_name_len(6), Some(5));
    assert_eq!(locale_name_len(1), Some(0));
    assert_eq!(locale_name_len(0), None);
    assert_eq!(locale_name_len(-1), None);
}

#[test]
fn locale_map_lookup() {
    let map = initialize_locale_map(vec![
        (0x0411, Some("ja-JP".to_string())),
        (0x0409, Some("en-US".to_string())),
        (0x0411, Some("ja".to_string())),
    ])
    .unwrap();
    assert_eq!(map.get_foreground_locale(0x0409_0409), Ok("en-US".to_string()));
    assert_eq!(map.get_foreground_locale(0x0411_0411), Ok("ja".to_string()));
    assert_eq!(
        map.get_foreground_locale(0x0412_0412),
        Err(AppError::WinApiError("Unknown lang_id".to_string()))
    );
    assert_eq!(
        map.get_foreground_locale(0),
        Err(AppError::WinApiError(
            "Invalid HKL. It may happen when you use a console application.".to_string()
        ))
    );
    assert_eq!(
        initialize_locale_map(vec![(0x0411, Some("ja-JP".to_string())), (0x0409, None)])
            .unwrap_err(),
        AppError::CustomError("Unknown lang_id".to_string())
    );
    assert!(initialize_locale_map(Vec::new()).is_ok());
    assert_eq!(
        kanata_ime_observer::win::foreground_window_invalid(),
        AppError::WinApiError("The result of GetForegroundWindow is invalid.".to_string())
    );
    assert!(kanata_ime_observer::win::prefers_focus_window(true, true));
    assert!(!kanata_ime_observer::win::prefers_focus_window(true, false));
    assert!(!kanata_ime_observer::win::prefers_focus_window(false, true));
}

#[test]
fn open_status_tokens() {
    assert_eq!(ime_status(0), "ime-off");
    assert_eq!(ime_status(1), "ime-on");
    assert_eq!(ime_status(usize::MAX), "ime-on");
    assert_eq!(
        win_main_loop_stopped(true),
        AppError::CaughtFatalError { location: "win_main_loop".to_string() }
    );
    assert_eq!(
        win_main_loop_stopped(false),
        AppError::WinApiError("WM_QUIT received.".to_string())
    );
    assert_eq!(
        kanata_ime_observer::win_onoff::ime_window_invalid(),
        AppError::WinApiError("The result of ImmGetDefaultIMEWnd is invalid".to_string())
    );
}

#[test]
fn open_status_query_retries() {
    let unanswered = AppError::WinApiError("Could not SendMessageTimeoutW.".to_string());
    assert_eq!(get_window_ime_status(3, 100, &vec![Some(1)]), (Ok("ime-on".to_string()), 1));
    assert_eq!(
        get_window_ime_status(3, 100, &vec![None, None, Some(0)]),
        (Ok("ime-off".to_string()), 3)
    );
    assert_eq!(
        get_window_ime_status(3, 100, &vec![None, None, None, Some(1)]),
        (Err(unanswered.clone()), 3)
    );
    assert_eq!(get_window_ime_status(0, 100, &vec![Some(1)]), (Err(unanswered.clone()), 0));
    assert_eq!(get_window_ime_status(2, 100, &Vec::new()), (Err(unanswered), 0));
}

#[test]
fn open_status_query_steps() {
    let mut query = OpenStatusQuery::new(2, 30);
    assert_eq!(query.next(), QueryStep::Send);
    assert_eq!(query.attempts(), 1);
    query.answered(None);
    assert_eq!(query.next(), QueryStep::Sleep(30));
    assert_eq!(query.next(), QueryStep::Send);
    query.answered(Some(1));
    assert_eq!(query.next(), QueryStep::Done(Ok("ime-on".to_string())));
    assert_eq!(query.attempts(), 2);

    let mut failing = OpenStatusQuery::new(2, 30);
    let mut sent = 0;
    let mut slept = 0;
    let result = loop {
        match failing.next() {
            QueryStep::Send => {
                sent += 1;
                failing.answered(None);
            }
            QueryStep::Sleep(ms) => slept += ms,
            QueryStep::Done(result) => break result,
        }
    };
    assert_eq!(result, Err(AppError::WinApiError("Could not SendMessageTimeoutW.".to_string())));
    assert_eq!(sent, 2);
    assert_eq!(slept, 60);

    let mut none = OpenStatusQuery::new(0, 30);
    assert_eq!(
        none.next(),
        QueryStep::Done(Err(AppError::WinApiError("Could not SendMessageTimeoutW.".to_string())))
    );
    let receiver = WindowsImeOnOffReceiver::new(&WindowsImeOnOffReceiverConfig::default());
    let mut query = receiver.query();
    assert_eq!(query.next(), QueryStep::Send);
    query.answered(Some(0));
    assert_eq!(query.next(), QueryStep::Done(Ok("ime-off".to_string())));
}
