//! The windows-layout backend: reports the locale of the keyboard layout of
//! the thread that owns the foreground window.

use vstd::prelude::*;
use vstd::string::*;
use std::collections::HashMap;
use crate::error::{AppError, ErrorKind, ErrorView};
use crate::receiver::EdgeDetector;
use crate::worker::{
    incoming_view, query_view, react_tolerantly, receive_step, received, received_view,
    remembered, shutdown_error, shutdown_signal, tolerant_reaction, WorkerAction,
};

verus! {

broadcast use vstd::std_specs::hash::group_hash_axioms;

/// The window message that carries raw input.
pub const WM_INPUT: u32 = 255;

/// The window message that ends a window.
pub const WM_DESTROY: u32 = 2;

/// The keyboard message for a released key.
pub const WM_KEYUP: u32 = 257;

/// The event for a change of the foreground window.
pub const EVENT_SYSTEM_FOREGROUND: u32 = 3;

/// The raw-input device type of a keyboard.
pub const RIM_TYPEKEYBOARD: u32 = 1;

/// Either Control key.
pub const VK_CONTROL: u16 = 17;

/// The left Control key.
pub const VK_LCONTROL: u16 = 162;

/// The right Control key.
pub const VK_RCONTROL: u16 = 163;

/// The left Windows key.
pub const VK_LWIN: u16 = 91;

/// The right Windows key.
pub const VK_RWIN: u16 = 92;

/// What the window procedure reads from one raw input.
#[derive(Clone, Copy, Debug, PartialEq, Eq, Structural)]
pub struct RawKey {
    /// The type of the device that the input came from.
    pub device_type: u32,
    /// The keyboard message inside the input.
    pub message: u32,
    /// The virtual-key code.
    pub vkey: u16,
}

/// What the window procedure does with a message.
#[derive(Clone, Copy, Debug, PartialEq, Eq, Structural)]
pub enum WindowAction {
    /// Wake the worker, then answer the message with zero.
    Wake,
    /// Answer the message with zero.
    Handled,
    /// Post the quit message, then answer with zero.
    Quit,
    /// Leave the message to the default window procedure.
    Default,
}

/// Whether a key is one of the modifiers whose release may end a chord that
/// switched the layout.
pub open spec fn is_modifier(vkey: u16) -> bool {
    vkey == VK_CONTROL || vkey == VK_LCONTROL || vkey == VK_RCONTROL || vkey == VK_LWIN || vkey
        == VK_RWIN
}

/// Whether a raw input wakes the worker: a keyboard reports that a modifier
/// was released.
pub open spec fn key_wakes(key: RawKey) -> bool {
    key.device_type == RIM_TYPEKEYBOARD && key.message == WM_KEYUP && is_modifier(key.vkey)
}

/// What the window procedure does with message `msg`; `raw` is the raw input
/// that came with it, or `None` if it could not be read in full.
pub open spec fn window_reaction(msg: u32, raw: Option<RawKey>) -> WindowAction {
    if msg == WM_INPUT {
        if raw is Some && key_wakes(raw.unwrap()) {
            WindowAction::Wake
        } else {
            WindowAction::Handled
        }
    } else if msg == WM_DESTROY {
        WindowAction::Quit
    } else {
        WindowAction::Default
    }
}

/// Decides what the window procedure does with a message.
pub fn wndproc(msg: u32, raw: Option<RawKey>) -> (action: WindowAction)
    ensures
        action == window_reaction(msg, raw),
{
    if msg == WM_INPUT {
        match raw {
            Some(key) => {
                if key.device_type == RIM_TYPEKEYBOARD && key.message == WM_KEYUP && (key.vkey
                    == VK_CONTROL || key.vkey == VK_LCONTROL || key.vkey == VK_RCONTROL
                    || key.vkey == VK_LWIN || key.vkey == VK_RWIN) {
                    WindowAction::Wake
                } else {
                    WindowAction::Handled
                }
            },
            None => WindowAction::Handled,
        }
    } else if msg == WM_DESTROY {
        WindowAction::Quit
    } else {
        WindowAction::Default
    }
}

/// Whether a system event wakes the worker: only a change of the foreground
/// window does.
pub fn win_event_proc(event: u32) -> (wakes: bool)
    ensures
        wakes == (event == EVENT_SYSTEM_FOREGROUND),
{
    event == EVENT_SYSTEM_FOREGROUND
}

/// Whether the message loop takes another message: the last one was not the
/// quit message and the tripwire is not set.
pub fn pumps_another_message(got_message: bool, tripped: bool) -> (again: bool)
    ensures
        again == (got_message && !tripped),
{
    got_message && !tripped
}

/// The language identifier of a keyboard layout handle: its low 16 bits.
pub open spec fn lang_id_of(hkl: usize) -> u16 {
    (hkl % 0x10000) as u16
}

/// Extracts the language identifier from a keyboard layout handle.
pub fn lang_id(hkl: usize) -> (id: u16)
    ensures
        id == lang_id_of(hkl),
{
    let wide = hkl as u64;
    let low = wide & 0xFFFF;
    assert(low == wide % 0x10000) by (bit_vector)
        requires
            low == wide & 0xFFFF,
    ;
    low as u16
}

/// The number of UTF-16 units of a locale name, given what the system call
/// that wrote it returned: the count of units written, the final zero
/// included, or zero for a failure.
pub fn locale_name_len(written_len: i32) -> (len: Option<usize>)
    ensures
        written_len > 0 ==> len == Some((written_len - 1) as usize),
        written_len <= 0 ==> len is None,
{
    if written_len > 0 {
        Some((written_len - 1) as usize)
    } else {
        None
    }
}

/// The error for a language identifier without a locale at startup.
pub open spec fn unknown_at_startup() -> ErrorView {
    ErrorView { kind: ErrorKind::Custom, detail: "Unknown lang_id"@ }
}

/// The error for a language identifier without a locale while running.
pub open spec fn unknown_lang_id() -> ErrorView {
    ErrorView { kind: ErrorKind::WinApi, detail: "Unknown lang_id"@ }
}

/// The error for a missing keyboard layout.
pub open spec fn invalid_hkl() -> ErrorView {
    ErrorView {
        kind: ErrorKind::WinApi,
        detail: "Invalid HKL. It may happen when you use a console application."@,
    }
}

/// The error for a missing foreground window.
pub open spec fn invalid_foreground() -> ErrorView {
    ErrorView { kind: ErrorKind::WinApi, detail: "The result of GetForegroundWindow is invalid."@ }
}

/// The locales learnt from a list of language identifiers, each with the
/// locale name that the system gave for it. A later entry replaces an
/// earlier one for the same identifier.
pub open spec fn learnt(entries: Seq<(u16, Option<String>)>) -> Map<u16, Seq<char>>
    decreases entries.len(),
{
    if entries.len() == 0 {
        Map::empty()
    } else {
        let before = learnt(entries.drop_last());
        match entries.last().1 {
            Some(locale) => before.insert(entries.last().0, locale@),
            None => before,
        }
    }
}

/// Whether every entry has a locale name.
pub open spec fn all_known(entries: Seq<(u16, Option<String>)>) -> bool {
    forall|i: int| 0 <= i < entries.len() ==> (#[trigger] entries[i]).1 is Some
}

/// Maps language identifiers to locale names. Built once when the backend
/// starts.
#[derive(Debug)]
pub struct LocaleMap {
    map: HashMap<u16, String>,
}

impl View for LocaleMap {
    type V = Map<u16, Seq<char>>;

    closed spec fn view(&self) -> Map<u16, Seq<char>> {
        Map::new(|id: u16| self.map@.contains_key(id), |id: u16| self.map@[id]@)
    }
}

impl LocaleMap {
    /// The locale of the layout `hkl`: the entry for its language identifier.
    pub open spec fn lookup(&self, hkl: usize) -> Result<Seq<char>, ErrorView> {
        if hkl == 0 {
            Err(invalid_hkl())
        } else if self@.contains_key(lang_id_of(hkl)) {
            Ok(self@[lang_id_of(hkl)])
        } else {
            Err(unknown_lang_id())
        }
    }

    /// Resolves a keyboard layout handle to its locale. A null handle and a
    /// language identifier that the map does not hold are errors.
    pub fn get_foreground_locale(&self, hkl: usize) -> (locale: Result<String, AppError>)
        ensures
            query_view(locale) == self.lookup(hkl),
    {
        if hkl == 0 {
            return Err(
                AppError::WinApiError(
                    String::from_str(
                        "Invalid HKL. It may happen when you use a console application.",
                    ),
                ),
            );
        }
        let id = lang_id(hkl);
        match self.map.get(&id) {
            Some(locale) => Ok(locale.clone()),
            None => Err(AppError::WinApiError(String::from_str("Unknown lang_id"))),
        }
    }
}

/// Builds the locale map from the installed layouts' language identifiers,
/// each with the locale name that the system gave for it (`None` where it
/// gave none). One identifier without a name fails the whole construction.
pub fn initialize_locale_map(entries: Vec<(u16, Option<String>)>) -> (locale_map: Result<
    LocaleMap,
    AppError,
>)
    ensures
        all_known(entries@) ==> locale_map is Ok && locale_map.unwrap()@ == learnt(entries@),
        !all_known(entries@) ==> locale_map is Err && locale_map.unwrap_err()@
            == unknown_at_startup(),
{
    let mut locale_map = LocaleMap { map: HashMap::new() };
    let mut i: usize = 0;
    while i < entries.len()
        invariant
            i <= entries.len(),
            all_known(entries@.take(i as int)),
            locale_map@ == learnt(entries@.take(i as int)),
        decreases entries.len() - i,
    {
        let ghost before = locale_map@;
        proof {
            let next = entries@.take(i + 1);
            assert(next.drop_last() =~= entries@.take(i as int));
        }
        match &entries[i].1 {
            Some(locale) => {
                locale_map.map.insert(entries[i].0, locale.clone());
                assert(locale_map@ =~= before.insert(entries@[i as int].0, locale@));
                assert forall|j: int| 0 <= j < i + 1 implies (#[trigger] entries@.take(
                    i + 1,
                )[j]).1 is Some by {
                    if j < i {
                        assert(entries@.take(i as int)[j] == entries@[j]);
                    }
                }
            },
            None => {
                assert(entries@[i as int].1 is None);
                return Err(AppError::CustomError(String::from_str("Unknown lang_id")));
            },
        }
        i += 1;
    }
    assert(entries@.take(i as int) =~= entries@);
    Ok(locale_map)
}

/// Whether the layout is taken from the thread of the focused window rather
/// than from the thread of the foreground window: the thread's GUI state
/// could be read and names a focused window.
pub fn prefers_focus_window(gui_info_read: bool, focus_valid: bool) -> (prefers: bool)
    ensures
        prefers == (gui_info_read && focus_valid),
{
    gui_info_read && focus_valid
}

/// The error for an invalid foreground window.
pub fn foreground_window_invalid() -> (err: AppError)
    ensures
        err@ == invalid_foreground(),
{
    AppError::WinApiError(String::from_str("The result of GetForegroundWindow is invalid."))
}

/// The worker's reaction to the outcome of a query: the locale is forwarded,
/// a failure is logged.
pub fn worker_step(outcome: Result<String, AppError>) -> (action: WorkerAction)
    ensures
        action@ == tolerant_reaction(query_view(outcome)),
{
    react_tolerantly(outcome)
}

/// Settings of the windows-layout backend.
#[derive(Clone, Copy, Debug)]
pub struct WindowsImeReceiverConfig {
    /// Milliseconds to wait between a wakeup and the query.
    pub delay: u64,
    /// Milliseconds between two polls, or `None` to poll never.
    pub polling_span: Option<u64>,
}

impl Default for WindowsImeReceiverConfig {
    fn default() -> (config: Self)
        ensures
            config.delay == 50,
            config.polling_span == Some(500u64),
    {
        Self { delay: 50, polling_span: Some(500) }
    }
}

/// The receiving side of the windows-layout backend.
pub struct WindowsImeReceiver {
    detector: EdgeDetector,
    delay: u64,
    polling_span: Option<u64>,
}

impl WindowsImeReceiver {
    /// What the receiver reported last.
    pub closed spec fn memory(&self) -> Option<Seq<char>> {
        self.detector@
    }

    /// The settings the receiver was made with.
    pub closed spec fn settings(&self) -> (u64, Option<u64>) {
        (self.delay, self.polling_span)
    }

    /// A receiver that has reported nothing yet.
    pub fn new(config: &WindowsImeReceiverConfig) -> (receiver: Self)
        ensures
            receiver.memory() is None,
            receiver.settings() == (config.delay, config.polling_span),
    {
        WindowsImeReceiver {
            detector: EdgeDetector::new(),
            delay: config.delay,
            polling_span: config.polling_span,
        }
    }

    /// Milliseconds that the worker waits before each query.
    pub fn delay(&self) -> (delay: u64)
        ensures
            delay == self.settings().0,
    {
        self.delay
    }

    /// Milliseconds between two polls, or `None` if there is no polling
    /// thread.
    pub fn polling_span(&self) -> (span: Option<u64>)
        ensures
            span == self.settings().1,
    {
        self.polling_span
    }

    /// Judges what the inner channel handed over: `Ok(Some(status))` for a
    /// status that differs from the last report, `Ok(None)` for a repetition,
    /// after which the caller reads the channel again, and an error if the
    /// channel is closed (`incoming` is `None`).
    pub fn receive(&mut self, incoming: Option<String>) -> (outcome: Result<
        Option<String>,
        AppError,
    >)
        ensures
            received_view(outcome) == received(
                old(self).memory(),
                incoming_view(incoming),
                "WindowsReceiver inner receiver"@,
            ),
            final(self).memory() == remembered(old(self).memory(), incoming_view(incoming)),
            final(self).settings() == old(self).settings(),
    {
        receive_step(&mut self.detector, incoming, "WindowsReceiver inner receiver")
    }

    /// Ends the receiver and hands back the error to publish, which wakes
    /// whoever is parked.
    pub fn shutdown(self) -> (signal: AppError)
        ensures
            signal@ == shutdown_signal(),
    {
        shutdown_error()
    }
}

} // verus!
